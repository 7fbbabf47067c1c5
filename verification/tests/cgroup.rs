use chelsea_lib::cgroup::{jailer_cgroup_args, CgroupAction, CgroupError, CgroupEvent, CgroupSetup};

#[test]
fn test_jailer_cgroup_args() {
    let args = jailer_cgroup_args("chelsea-vms");
    assert_eq!(args, vec!["--parent-cgroup", "chelsea-vms"]);
}

#[test]
fn test_jailer_cgroup_args_custom_name() {
    let args = jailer_cgroup_args("my-custom-cgroup");
    assert_eq!(args, vec!["--parent-cgroup", "my-custom-cgroup"]);
}

fn io_error() -> std::io::Error {
    std::io::Error::new(std::io::ErrorKind::PermissionDenied, "denied")
}

#[test]
fn cgroup_setup_missing_base_is_not_available() {
    let (mut setup, first) = CgroupSetup::start("/sys/fs/cgroup", "chelsea-vms", 100);
    assert!(matches!(first, CgroupAction::CheckExists(ref p) if p == "/sys/fs/cgroup"));
    match setup.step(CgroupEvent::Succeeded(false)) {
        CgroupAction::Finish(Err(e)) => {
            assert!(matches!(e, CgroupError::CgroupsV2NotAvailable));
            assert_eq!(e.to_string(), "cgroups v2 is not available at /sys/fs/cgroup");
        }
        other => panic!("unexpected action: {:?}", other),
    }
}

#[test]
fn cgroup_setup_full_path_enables_controllers_and_writes_weight() {
    let (mut setup, _) = CgroupSetup::start("/base", "vms", 250);
    match setup.step(CgroupEvent::Succeeded(true)) {
        CgroupAction::CheckExists(p) => assert_eq!(p, "/base/cgroup.subtree_control"),
        other => panic!("unexpected action: {:?}", other),
    }
    match setup.step(CgroupEvent::Succeeded(true)) {
        CgroupAction::Write { path, contents } => {
            assert_eq!(path, "/base/cgroup.subtree_control");
            assert_eq!(contents, "+cpu");
        }
        other => panic!("unexpected action: {:?}", other),
    }
    match setup.step(CgroupEvent::Succeeded(true)) {
        CgroupAction::CreateDirAll(p) => assert_eq!(p, "/base/vms"),
        other => panic!("unexpected action: {:?}", other),
    }
    match setup.step(CgroupEvent::Succeeded(true)) {
        CgroupAction::CheckExists(p) => assert_eq!(p, "/base/vms/cgroup.subtree_control"),
        other => panic!("unexpected action: {:?}", other),
    }
    match setup.step(CgroupEvent::Succeeded(true)) {
        CgroupAction::Write { path, contents } => {
            assert_eq!(path, "/base/vms/cgroup.subtree_control");
            assert_eq!(contents, "+cpu");
        }
        other => panic!("unexpected action: {:?}", other),
    }
    match setup.step(CgroupEvent::Succeeded(true)) {
        CgroupAction::Write { path, contents } => {
            assert_eq!(path, "/base/vms/cpu.weight");
            assert_eq!(contents, "250");
        }
        other => panic!("unexpected action: {:?}", other),
    }
    match setup.step(CgroupEvent::Succeeded(true)) {
        CgroupAction::Finish(Ok(p)) => assert_eq!(p, "/base/vms"),
        other => panic!("unexpected action: {:?}", other),
    }
}

#[test]
fn cgroup_setup_skips_missing_subtree_controls() {
    let (mut setup, _) = CgroupSetup::start("/base", "vms", 100);
    setup.step(CgroupEvent::Succeeded(true));
    assert!(matches!(setup.step(CgroupEvent::Succeeded(false)), CgroupAction::CreateDirAll(_)));
    assert!(matches!(setup.step(CgroupEvent::Succeeded(true)), CgroupAction::CheckExists(_)));
    match setup.step(CgroupEvent::Succeeded(false)) {
        CgroupAction::Write { path, contents } => {
            assert_eq!(path, "/base/vms/cpu.weight");
            assert_eq!(contents, "100");
        }
        other => panic!("unexpected action: {:?}", other),
    }
}

#[test]
fn cgroup_setup_removes_directory_after_failure() {
    let (mut setup, _) = CgroupSetup::start("/base", "vms", 100);
    setup.step(CgroupEvent::Succeeded(true));
    setup.step(CgroupEvent::Succeeded(false));
    setup.step(CgroupEvent::Succeeded(true));
    setup.step(CgroupEvent::Succeeded(false));
    match setup.step(CgroupEvent::Failed(io_error())) {
        CgroupAction::RemoveDir(p) => assert_eq!(p, "/base/vms"),
        other => panic!("unexpected action: {:?}", other),
    }
    match setup.step(CgroupEvent::Succeeded(true)) {
        CgroupAction::Finish(Err(e)) => {
            assert!(matches!(e, CgroupError::SetCpuWeight { ref path, .. } if path == "/base/vms/cpu.weight"));
            assert!(e.to_string().starts_with("failed to write cpu.weight to /base/vms/cpu.weight: "));
        }
        other => panic!("unexpected action: {:?}", other),
    }
}

#[test]
fn cgroup_setup_base_check_error_is_reported_without_cleanup() {
    let (mut setup, _) = CgroupSetup::start("/base", "vms", 100);
    match setup.step(CgroupEvent::Failed(io_error())) {
        CgroupAction::Finish(Err(CgroupError::ExistsCheck { path, .. })) => assert_eq!(path, "/base"),
        other => panic!("unexpected action: {:?}", other),
    }
}
