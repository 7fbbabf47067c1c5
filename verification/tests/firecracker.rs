use chelsea_lib::firecracker::{
    default_log_path, get_jail_root_by_vm_id, CpuTemplate, FirecrackerProcessConfig,
    FirecrackerProcessLoggerConfig, FirecrackerProcessLoggerLogLevel, FirecrackerProcessVsockConfig,
    FirecrackerSnapshotPaths, HugePages, MachineConfiguration, PathBufJailer,
};
use chelsea_lib::network_names::MacAddr;
use uuid::Uuid;

fn test_vm_id() -> u128 {
    Uuid::parse_str("550e8400-e29b-41d4-a716-446655440000").unwrap().as_u128()
}

#[test]
fn test_vsock_config_defaults() {
    let config = FirecrackerProcessVsockConfig::with_defaults(test_vm_id());

    assert_eq!(config.vsock_id, "vsock0");
    assert_eq!(config.guest_cid, 3);
    let host_path = config.uds_path.with_jail_root();
    assert!(
        std::path::Path::new(&host_path).ends_with("run/vsock.sock"),
        "expected path to end with run/vsock.sock, got: {}",
        host_path
    );
}

#[test]
fn test_vsock_config_jail_path_contains_vm_id() {
    let vm_id = Uuid::parse_str("550e8400-e29b-41d4-a716-446655440000").unwrap();
    let config = FirecrackerProcessVsockConfig::with_defaults(vm_id.as_u128());

    let host_path = config.uds_path.with_jail_root();
    assert!(
        host_path.contains(&vm_id.to_string()),
        "jail path should contain VM ID, got: {}",
        host_path
    );
}

#[test]
fn firecracker_jail_root_is_chroot_dir() {
    assert_eq!(
        get_jail_root_by_vm_id(test_vm_id()),
        "/srv/jailer/firecracker/550e8400-e29b-41d4-a716-446655440000/root"
    );
}

#[test]
fn firecracker_absolute_paths_are_appended_to_jail_root() {
    let p = PathBufJailer::new(test_vm_id(), "/run/vsock.sock".to_string());
    assert_eq!(
        p.with_jail_root(),
        "/srv/jailer/firecracker/550e8400-e29b-41d4-a716-446655440000/root/run/vsock.sock"
    );
    let q = PathBufJailer::new(test_vm_id(), "kernels/vmlinux".to_string());
    assert_eq!(
        q.with_jail_root(),
        "/srv/jailer/firecracker/550e8400-e29b-41d4-a716-446655440000/root/kernels/vmlinux"
    );
    assert_eq!(q.without_jail_root(), "kernels/vmlinux");
    assert_eq!(q.file_name(), Some("vmlinux".to_string()));
}

#[test]
fn firecracker_logger_defaults() {
    let logger = FirecrackerProcessLoggerConfig::with_defaults(test_vm_id());
    assert_eq!(logger.log_path.without_jail_root(), "/firecracker.log");
    assert_eq!(logger.level, FirecrackerProcessLoggerLogLevel::Debug);
    assert!(logger.show_level);
    assert!(logger.show_origin);
    assert_eq!(default_log_path(test_vm_id()).without_jail_root(), "/firecracker.log");
}

#[test]
fn firecracker_log_level_names() {
    assert_eq!(FirecrackerProcessLoggerLogLevel::Error.to_string(), "Error");
    assert_eq!(FirecrackerProcessLoggerLogLevel::Warning.to_string(), "Warning");
    assert_eq!(FirecrackerProcessLoggerLogLevel::Info.to_string(), "Info");
    assert_eq!(FirecrackerProcessLoggerLogLevel::Debug.to_string(), "Debug");
    assert_eq!(FirecrackerProcessLoggerLogLevel::Trace.to_string(), "Trace");
    assert_eq!(FirecrackerProcessLoggerLogLevel::Off.to_string(), "Off");
}

#[test]
fn firecracker_machine_defaults() {
    let m = MachineConfiguration::with_defaults(512, 2, true);
    assert_eq!(m.mem_size_mib, 512);
    assert_eq!(m.vcpu_count, 2);
    assert_eq!(m.huge_pages, Some(HugePages::TwoM));
    assert_eq!(m.cpu_template, None);
    let n = MachineConfiguration::with_defaults(256, 1, false);
    assert_eq!(n.huge_pages, None);
    assert_eq!(CpuTemplate::default(), CpuTemplate::NoTemplate);
    assert_eq!(HugePages::default(), HugePages::NoHugePages);
}

#[test]
fn firecracker_snapshot_paths_are_in_the_jail() {
    let snap = Uuid::parse_str("00000000-0000-0000-0000-000000000456").unwrap().as_u128();
    let paths = FirecrackerSnapshotPaths::new(test_vm_id(), snap);
    assert_eq!(
        paths.mem_file_path.without_jail_root(),
        "/00000000-0000-0000-0000-000000000456.memory"
    );
    assert_eq!(
        paths.state_file_path.with_jail_root(),
        "/srv/jailer/firecracker/550e8400-e29b-41d4-a716-446655440000/root/00000000-0000-0000-0000-000000000456.state"
    );
}

#[test]
fn firecracker_process_config_boot_args() {
    let machine = MachineConfiguration::with_defaults(1024, 2, false);
    let mac = MacAddr { octets: [6, 0, 192, 168, 1, 2] };
    let config = FirecrackerProcessConfig::with_defaults(
        test_vm_id(),
        "/var/lib/kernels",
        "vmlinux",
        7,
        "KEYB64",
        "http://h/:vm_id",
        "/dev/rbd1".to_string(),
        machine,
        mac,
        "tap0".to_string(),
    );
    assert_eq!(config.boot_source.kernel_path.without_jail_root(), "/var/lib/kernels/vmlinux");
    assert_eq!(
        config.boot_source.boot_args,
        "console=ttyS0 reboot=k panic=1 pci=off quiet loglevel=1 nomodule 8250.nr_uarts=0 i8042.noaux i8042.nomux i8042.dumbkbd swiotlb=noforce chelsea_entropy=7 chelsea_vm_id=550e8400-e29b-41d4-a716-446655440000 chelsea_ssh_pubkey=KEYB64 chelsea_notify_boot_url_template=http://h/:vm_id"
    );
    assert_eq!(config.drive.drive_id, "root");
    assert_eq!(config.drive.path_on_host, "/dev/rbd1");
    assert!(config.drive.is_root_device);
    assert!(!config.drive.is_read_only);
    assert_eq!(config.network.iface_id, "net0");
    assert_eq!(config.network.host_dev_name, "tap0");
    assert_eq!(config.machine, machine);
}
