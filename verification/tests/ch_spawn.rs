use chelsea_lib::ch_spawn::{ChSpawn, SpawnAction, SpawnEvent, SpawnFailure};
use chelsea_lib::cloud_hypervisor::CloudHypervisorProcessConfig;
use chelsea_lib::network_names::MacAddr;

fn label(a: &SpawnAction<&'static str>) -> String {
    match a {
        SpawnAction::CreateJailRoot => "jail".into(),
        SpawnAction::CopyDriveNode => "drive".into(),
        SpawnAction::CreateKernelDir => "kernel dir".into(),
        SpawnAction::StatKernel => "stat".into(),
        SpawnAction::CopyKernel => "copy kernel".into(),
        SpawnAction::CreateProcessLogs => "logs".into(),
        SpawnAction::TouchLoggerLog => "logger".into(),
        SpawnAction::StartProcess => "start".into(),
        SpawnAction::CreateVm { devices } => format!("create {} {}", devices.disks[0].path, devices.cpus.boot_vcpus),
        SpawnAction::BootVm => "boot".into(),
        SpawnAction::RemoveJailRoot => "remove jail".into(),
        SpawnAction::Finish(Ok(())) => "ok".into(),
        SpawnAction::Finish(Err(SpawnFailure::EmptyKernel)) => "empty kernel".into(),
        SpawnAction::Finish(Err(SpawnFailure::Step(e))) => format!("err {e}"),
    }
}

fn config() -> CloudHypervisorProcessConfig {
    CloudHypervisorProcessConfig::with_defaults(
        0x1234,
        "default.bin",
        7,
        "AAAA",
        "http://host/{vm_id}",
        "/dev/rbd0".to_string(),
        "tap0".to_string(),
        MacAddr { octets: [6, 0, 192, 168, 1, 2] },
        2,
        512,
    )
}

fn drive(kernel_bytes: u64, fail: Option<&str>) -> Vec<String> {
    let (mut m, mut a) = ChSpawn::<&'static str>::start(config(), "rootfs");
    let mut seen = vec![label(&a)];
    while !m.is_finished() {
        let l = label(&a);
        let ev = if Some(l.as_str()) == fail {
            SpawnEvent::Failed("boom")
        } else if l == "stat" {
            SpawnEvent::KernelSize { bytes: kernel_bytes }
        } else {
            SpawnEvent::Succeeded
        };
        a = m.step(ev);
        seen.push(label(&a));
    }
    seen
}

#[test]
fn spawn_runs_every_step_in_order() {
    let seen = drive(4096, None);
    assert_eq!(&seen[..8], &["jail", "drive", "kernel dir", "stat", "copy kernel", "logs", "logger", "start"]);
    assert!(seen[8].ends_with("rootfs 2"));
    assert_eq!(&seen[9..], &["boot", "ok"]);
}

#[test]
fn spawn_empty_kernel_fails_before_process_starts() {
    let seen = drive(0, None);
    assert_eq!(seen, vec!["jail", "drive", "kernel dir", "stat", "remove jail", "empty kernel"]);
    assert!(!seen.contains(&"start".to_string()));
}

#[test]
fn spawn_failure_removes_jail_root() {
    assert_eq!(drive(10, Some("jail")), vec!["jail", "err boom"]);
    let seen = drive(10, Some("boot"));
    assert_eq!(&seen[seen.len() - 2..], &["remove jail", "err boom"]);
}
