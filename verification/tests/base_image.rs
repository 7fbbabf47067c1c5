use chelsea_lib::base_image::{
    configure_filesystem, FsStep, CHELSEA_AGENT_SERVICE, DEFAULT_HOSTNAME, FCNET_SETUP_SCRIPT,
    NOTIFY_READY_SCRIPT, RESOLV_CONF,
};

fn written_paths(steps: &[FsStep]) -> Vec<String> {
    let mut out = Vec::new();
    for step in steps {
        match step {
            FsStep::WriteFile { path, .. } | FsStep::WriteExecutable { path, .. } => {
                out.push(path.clone())
            }
            FsStep::CopyExecutable { to, .. } => out.push(to.clone()),
            _ => {}
        }
    }
    out
}

fn links(steps: &[FsStep]) -> Vec<(String, String)> {
    let mut out = Vec::new();
    for step in steps {
        if let FsStep::Symlink { target, link } = step {
            out.push((target.clone(), link.clone()));
        }
    }
    out
}

fn content_of(steps: &[FsStep], wanted: &str) -> Option<String> {
    for step in steps {
        match step {
            FsStep::WriteFile { path, content } | FsStep::WriteExecutable { path, content }
                if path == wanted =>
            {
                return Some(content.clone())
            }
            _ => {}
        }
    }
    None
}

#[test]
fn test_configure_filesystem_without_agent() {
    let steps = configure_filesystem("/mnt/rootfs", None);
    assert_eq!(steps.len(), 14);
    let written = written_paths(&steps);
    for expected in [
        "/mnt/rootfs/usr/local/bin/fcnet-setup.sh",
        "/mnt/rootfs/usr/local/bin/notify-ready.sh",
        "/mnt/rootfs/usr/local/bin/ssh-setup.sh",
        "/mnt/rootfs/etc/systemd/system/fcnet.service",
        "/mnt/rootfs/etc/systemd/system/notify-ready.service",
        "/mnt/rootfs/etc/systemd/system/ssh-setup.service",
        "/mnt/rootfs/etc/hostname",
        "/mnt/rootfs/etc/resolv.conf",
    ] {
        assert!(written.iter().any(|p| p == expected), "missing {expected}");
    }
    assert!(!written.iter().any(|p| p.ends_with("usr/local/bin/chelsea-agent")));
    assert!(!written
        .iter()
        .any(|p| p.ends_with("etc/systemd/system/chelsea-agent.service")));
    let links = links(&steps);
    assert!(links.contains(&(
        "/etc/systemd/system/fcnet.service".to_string(),
        "/mnt/rootfs/etc/systemd/system/sysinit.target.wants/fcnet.service".to_string()
    )));
    assert!(links.contains(&(
        "/etc/systemd/system/notify-ready.service".to_string(),
        "/mnt/rootfs/etc/systemd/system/sysinit.target.wants/notify-ready.service".to_string()
    )));
    assert_eq!(content_of(&steps, "/mnt/rootfs/etc/hostname").unwrap(), "hdr\n");
    assert_eq!(DEFAULT_HOSTNAME, "hdr\n");
    assert_eq!(
        content_of(&steps, "/mnt/rootfs/etc/resolv.conf").unwrap(),
        RESOLV_CONF
    );
    assert_eq!(
        content_of(&steps, "/mnt/rootfs/usr/local/bin/fcnet-setup.sh").unwrap(),
        FCNET_SETUP_SCRIPT
    );
    assert!(steps.iter().any(|s| matches!(
        s,
        FsStep::WriteExecutable { path, .. } if path == "/mnt/rootfs/usr/local/bin/fcnet-setup.sh"
    )));
}

#[test]
fn test_configure_filesystem_with_agent() {
    let steps = configure_filesystem("/mnt/rootfs", Some("/opt/chelsea-agent"));
    assert_eq!(steps.len(), 19);
    assert!(matches!(
        &steps[9],
        FsStep::RequireFile { path } if path == "/opt/chelsea-agent"
    ));
    assert!(matches!(
        &steps[10],
        FsStep::CopyExecutable { from, to }
            if from == "/opt/chelsea-agent" && to == "/mnt/rootfs/usr/local/bin/chelsea-agent"
    ));
    assert_eq!(
        content_of(&steps, "/mnt/rootfs/etc/systemd/system/chelsea-agent.service").unwrap(),
        CHELSEA_AGENT_SERVICE
    );
    assert!(links(&steps).contains(&(
        "/etc/systemd/system/chelsea-agent.service".to_string(),
        "/mnt/rootfs/etc/systemd/system/multi-user.target.wants/chelsea-agent.service".to_string()
    )));
    // The legacy boot notification stays installed beside the agent.
    assert_eq!(
        content_of(&steps, "/mnt/rootfs/usr/local/bin/notify-ready.sh").unwrap(),
        NOTIFY_READY_SCRIPT
    );
    assert!(links(&steps).contains(&(
        "/etc/systemd/system/notify-ready.service".to_string(),
        "/mnt/rootfs/etc/systemd/system/sysinit.target.wants/notify-ready.service".to_string()
    )));
}

#[test]
fn test_configure_filesystem_idempotent_without_agent() {
    let first = configure_filesystem("/mnt/rootfs", None);
    let second = configure_filesystem("/mnt/rootfs", None);
    assert_eq!(format!("{:?}", first), format!("{:?}", second));
    assert!(written_paths(&second)
        .iter()
        .any(|p| p == "/mnt/rootfs/usr/local/bin/fcnet-setup.sh"));
}

#[test]
fn test_configure_filesystem_idempotent_with_agent() {
    let first = configure_filesystem("/mnt/rootfs", Some("/tmp/agent/chelsea-agent"));
    let second = configure_filesystem("/mnt/rootfs", Some("/tmp/agent/chelsea-agent"));
    assert_eq!(format!("{:?}", first), format!("{:?}", second));
    assert!(written_paths(&second)
        .iter()
        .any(|p| p == "/mnt/rootfs/usr/local/bin/chelsea-agent"));
    assert!(content_of(&second, "/mnt/rootfs/etc/systemd/system/chelsea-agent.service").is_some());
    assert!(links(&second).contains(&(
        "/etc/systemd/system/chelsea-agent.service".to_string(),
        "/mnt/rootfs/etc/systemd/system/multi-user.target.wants/chelsea-agent.service".to_string()
    )));
}

#[test]
fn test_configure_filesystem_agent_binary_missing() {
    let steps = configure_filesystem("/mnt/rootfs", Some("/nonexistent/chelsea-agent"));
    let first_agent_step = steps
        .iter()
        .position(|s| {
            matches!(s, FsStep::RequireFile { .. } | FsStep::CopyExecutable { .. })
        })
        .unwrap();
    assert!(matches!(
        &steps[first_agent_step],
        FsStep::RequireFile { path } if path == "/nonexistent/chelsea-agent"
    ));
}

use chelsea_lib::base_image::BaseImageError;

#[test]
fn test_image_not_found_error_display() {
    let err = BaseImageError::ImageNotFound("my-image".to_string());
    assert_eq!(err.to_string(), "Image not found: my-image");
}

#[test]
fn test_image_already_exists_error_display() {
    let err = BaseImageError::ImageAlreadyExists("existing-image".to_string());
    assert_eq!(err.to_string(), "Image already exists: existing-image");
}

#[test]
fn test_image_in_use_error_display() {
    let err = BaseImageError::ImageInUse {
        image_name: "busy-image".to_string(),
        vm_ids: vec!["vm-1".to_string(), "vm-2".to_string()],
    };
    let msg = err.to_string();
    assert!(msg.contains("busy-image"));
    assert!(msg.contains("in use by VMs"));
    assert!(msg.contains("vm-1"));
    assert!(msg.contains("vm-2"));
}

#[test]
fn test_image_has_child_clones_error_display() {
    let err = BaseImageError::ImageHasChildClones("parent-image".to_string());
    assert_eq!(
        err.to_string(),
        "Image 'parent-image' has child clones and cannot be deleted"
    );
}

#[test]
fn test_invalid_image_name_error_display() {
    let err = BaseImageError::InvalidImageName("bad;name".to_string());
    let msg = err.to_string();
    assert!(msg.contains("bad;name"));
    assert!(msg.contains("Invalid image name"));
}

#[test]
fn test_error_debug_format() {
    let err = BaseImageError::ImageNotFound("test".to_string());
    let debug = format!("{:?}", err);
    assert!(debug.contains("ImageNotFound"));

    let err = BaseImageError::ImageHasChildClones("test".to_string());
    let debug = format!("{:?}", err);
    assert!(debug.contains("ImageHasChildClones"));
}

#[test]
fn image_in_use_lists_ids_as_debug() {
    let err = BaseImageError::ImageInUse {
        image_name: "img".to_string(),
        vm_ids: vec!["a".to_string(), "b\"c".to_string()],
    };
    assert_eq!(
        err.to_string(),
        "Image 'img' is in use by VMs: [\"a\", \"b\\\"c\"]"
    );
    let none = BaseImageError::ImageInUse { image_name: "img".to_string(), vm_ids: vec![] };
    assert_eq!(none.to_string(), "Image 'img' is in use by VMs: []");
}

#[test]
fn io_errors_carry_their_text() {
    let source = std::io::Error::new(std::io::ErrorKind::Other, "disk full");
    let err = BaseImageError::WriteFile { path: "/etc/hostname".to_string(), source };
    assert_eq!(err.to_string(), "Failed to write file /etc/hostname: disk full");
    let err = BaseImageError::Io(std::io::Error::new(std::io::ErrorKind::Other, "boom"));
    assert_eq!(err.to_string(), "IO error: boom");
    let err = BaseImageError::CreateSymlink {
        from: "/a".to_string(),
        to: "/b".to_string(),
        source: std::io::Error::new(std::io::ErrorKind::Other, "exists"),
    };
    assert_eq!(err.to_string(), "Failed to create symlink from /a to /b: exists");
}

use chelsea_lib::base_image::{agent_binary_missing, agent_copy_failed};

#[test]
fn agent_errors_messages() {
    match agent_binary_missing("/opt/agent") {
        BaseImageError::Other(m) => assert_eq!(m, "Chelsea agent binary not found at: /opt/agent"),
        _ => panic!("expected Other"),
    }
    match agent_copy_failed("/mnt/usr/local/bin/chelsea-agent", "denied") {
        BaseImageError::CopyFiles(m) => {
            assert_eq!(m, "Failed to copy chelsea-agent binary to /mnt/usr/local/bin/chelsea-agent: denied")
        }
        _ => panic!("expected CopyFiles"),
    }
}
