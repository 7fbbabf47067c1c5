use chelsea_lib::cloud_hypervisor::{
    default_api_socket_path, default_log_path, disk_id_for_drive, drive_resize_target,
    get_jail_root_by_vm_id, plan_snapshot, snapshot_size_mib, CloudHypervisorProcessConfig,
    CloudHypervisorProcessVsockConfig, CloudHypervisorVmConfig, MemoryConfig, PathBufJailer,
};
use chelsea_lib::network_names::MacAddr;
use uuid::Uuid;

fn test_vm_id() -> u128 {
    Uuid::parse_str("550e8400-e29b-41d4-a716-446655440000").unwrap().as_u128()
}

#[test]
fn test_jail_root_by_vm_id() {
    let jail_root = get_jail_root_by_vm_id(test_vm_id());
    assert_eq!(
        jail_root,
        "/srv/jailer/cloud-hypervisor/550e8400-e29b-41d4-a716-446655440000"
    );
}

#[test]
fn test_pathbuf_jailer_with_jail_root() {
    let path = PathBufJailer::new(test_vm_id(), "run/ch.sock".to_string());
    let with_root = path.with_jail_root();
    assert_eq!(
        with_root,
        "/srv/jailer/cloud-hypervisor/550e8400-e29b-41d4-a716-446655440000/run/ch.sock"
    );
}

#[test]
fn test_pathbuf_jailer_without_jail_root() {
    let path = PathBufJailer::new(test_vm_id(), "/run/ch.sock".to_string());
    assert_eq!(path.without_jail_root(), "/run/ch.sock");
}

#[test]
fn test_pathbuf_jailer_absolute_path_handling() {
    let path = PathBufJailer::new(test_vm_id(), "/absolute/path".to_string());
    let with_root = path.with_jail_root();
    assert!(with_root.ends_with("/absolute/path"));
    assert!(!with_root.contains("//"));
}

#[test]
fn absolute_path_is_appended_to_working_directory() {
    let path = PathBufJailer::new(test_vm_id(), "/absolute/path".to_string());
    assert_eq!(path.with_jail_root(), format!("{JAIL}/absolute/path"));
}

#[test]
fn test_pathbuf_jailer_file_name() {
    let path = PathBufJailer::new(test_vm_id(), "/path/to/file.txt".to_string());
    assert_eq!(path.file_name(), Some("file.txt".to_string()));
}

#[test]
fn test_cloud_hypervisor_process_config_defaults() {
    let vm_id = Uuid::new_v4().as_u128();
    let log_path = default_log_path(vm_id);
    assert_eq!(log_path.without_jail_root(), "/cloud-hypervisor.log");
    let api_socket = default_api_socket_path(vm_id);
    assert_eq!(api_socket.without_jail_root(), "/run/ch.sock");
}

#[test]
fn test_memory_config_conversion() {
    let config = MemoryConfig {
        size: 2048 * 1024 * 1024, // 2048 MiB in bytes
    };
    assert_eq!(config.size, 2147483648);
}

#[test]
fn memory_config_from_mib_counts_bytes() {
    assert_eq!(MemoryConfig::from_mib(2048).size, 2147483648);
    assert_eq!(MemoryConfig::from_mib(0).size, 0);
    assert_eq!(MemoryConfig::from_mib(u32::MAX).size, (u32::MAX as u64) * 1048576);
}

#[test]
fn vm_config_defaults_set_cpus_and_memory_only() {
    let config = CloudHypervisorVmConfig::with_defaults(2, 512);
    assert_eq!(config.cpus.unwrap().boot_vcpus, 2);
    assert_eq!(config.cpus.unwrap().max_vcpus, None);
    assert_eq!(config.memory.unwrap().size, 512 * 1024 * 1024);
    assert!(config.payload.is_none());
    assert!(config.disks.is_none());
    assert!(config.net.is_none());
    assert!(config.vsock.is_none());
}

#[test]
fn root_drive_maps_to_first_disk_id() {
    assert_eq!(disk_id_for_drive("root"), "_disk0");
    assert_eq!(disk_id_for_drive("data"), "data");
    assert_eq!(disk_id_for_drive("roo"), "roo");
    assert_eq!(disk_id_for_drive("rootfs"), "rootfs");
}

#[test]
fn drive_resize_target_strips_root_of_absolute_paths() {
    let (host, id) = drive_resize_target("/srv/jailer/cloud-hypervisor/x", "root", "/dev/vda");
    assert_eq!(host, "/srv/jailer/cloud-hypervisor/x/dev/vda");
    assert_eq!(id, "_disk0");
    let (host, id) = drive_resize_target("/srv/jailer/cloud-hypervisor/x", "d1", "disk.img");
    assert_eq!(host, "/srv/jailer/cloud-hypervisor/x/disk.img");
    assert_eq!(id, "d1");
}

#[test]
fn snapshot_size_is_memory_plus_one_mib() {
    assert_eq!(snapshot_size_mib(Some(1024 * 1024 * 1024)), 1025);
    assert_eq!(snapshot_size_mib(Some(1024 * 1024 * 1024 + 5)), 1025);
    assert_eq!(snapshot_size_mib(None), 1);
}

#[test]
fn snapshot_plan_names_directory_url_and_archive() {
    let plan = plan_snapshot("/srv/jailer/cloud-hypervisor/abc", "/var/snapshots", "s1");
    assert_eq!(plan.snapshot_dir, "/srv/jailer/cloud-hypervisor/abc/snapshot-s1");
    assert_eq!(plan.destination_url, "file:///srv/jailer/cloud-hypervisor/abc/snapshot-s1");
    assert_eq!(plan.archive_name, "s1.ch_snapshot.tar");
    assert_eq!(plan.archive_path, "/var/snapshots/s1.ch_snapshot.tar");
}

#[test]
fn process_config_with_defaults_builds_cmdline_and_paths() {
    let vm_id = test_vm_id();
    let mac = MacAddr { octets: [6, 0, 192, 168, 1, 2] };
    let config = CloudHypervisorProcessConfig::with_defaults(
        vm_id,
        "vmlinux",
        42,
        "AAAAKEY",
        "http://host/notify/:vm_id",
        "/dev/rbd0".to_string(),
        "tap0".to_string(),
        mac,
        2,
        1024,
    );
    assert_eq!(config.api_socket.without_jail_root(), "/run/ch.sock");
    assert_eq!(config.kernel.path.without_jail_root(), "kernels/vmlinux");
    assert_eq!(
        config.kernel.cmdline,
        "console=ttyS0 reboot=k panic=1 root=/dev/vda rw net.ifnames=0 chelsea_entropy=42 chelsea_vm_id=550e8400-e29b-41d4-a716-446655440000 chelsea_ssh_pubkey=AAAAKEY chelsea_notify_boot_url_template=http://host/notify/:vm_id nohz=off"
    );
    assert_eq!(config.disk.path, "/dev/rbd0");
    assert!(!config.disk.readonly);
    assert_eq!(config.network.tap, "tap0");
    assert_eq!(config.network.mac, mac);
    assert_eq!(config.cpus.boot_vcpus, 2);
    assert_eq!(config.memory.size_mib, 1024);
    assert_eq!(config.log_file.without_jail_root(), "/cloud-hypervisor.log");
}

#[test]
fn ch_vsock_defaults_live_in_working_directory() {
    let config = CloudHypervisorProcessVsockConfig::with_defaults(test_vm_id());
    assert_eq!(config.guest_cid, 3);
    assert_eq!(
        config.socket_path.with_jail_root(),
        "/srv/jailer/cloud-hypervisor/550e8400-e29b-41d4-a716-446655440000/run/vsock.sock"
    );
}

use chelsea_lib::cloud_hypervisor::{
    new_vm_devices, plan_restore, CpusConfig, DiskConfig, KernelConfig, NetConfig, VsockConfig,
};

const JAIL: &str = "/srv/jailer/cloud-hypervisor/550e8400-e29b-41d4-a716-446655440000";

#[test]
fn mac_text_is_upper_case_hex() {
    let mac = MacAddr { octets: [6, 0, 0xac, 0x10, 0x0a, 0xff] };
    assert_eq!(mac.to_string(), "06:00:AC:10:0A:FF");
}

#[test]
fn create_config_sets_payload_serial_and_console() {
    let config = CloudHypervisorVmConfig::for_create(
        CpusConfig { boot_vcpus: 2, max_vcpus: Some(2) },
        MemoryConfig { size: 1024 },
        KernelConfig { path: "/vmlinux".to_string(), cmdline: Some("console=ttyS0".to_string()) },
        vec![DiskConfig { path: "/dev/vda".to_string(), readonly: Some(false), direct: None, id: None }],
        vec![NetConfig { tap: Some("tap0".to_string()), mac: None, num_queues: None }],
        None,
        None,
    );
    let payload = config.payload.unwrap();
    assert_eq!(payload.kernel.as_deref(), Some("/vmlinux"));
    assert_eq!(payload.cmdline.as_deref(), Some("console=ttyS0"));
    let serial = config.serial.unwrap();
    assert_eq!(serial.file, None);
    assert_eq!(serial.mode.as_deref(), Some("Tty"));
    assert_eq!(config.console.unwrap().mode, "Off");
    assert_eq!(config.cpus, Some(CpusConfig { boot_vcpus: 2, max_vcpus: Some(2) }));
    assert_eq!(config.disks.unwrap().len(), 1);
    assert!(config.vsock.is_none());
}

#[test]
fn new_vm_devices_use_working_directory() {
    let vm_id = test_vm_id();
    let config = CloudHypervisorProcessConfig::with_defaults(
        vm_id,
        "vmlinux",
        7,
        "KEY",
        "http://h/:vm_id",
        "/dev/rbd3".to_string(),
        "tap3".to_string(),
        MacAddr { octets: [6, 0, 10, 0, 0, 2] },
        4,
        2048,
    );
    let devices = new_vm_devices(&config, "dev/vda");
    assert_eq!(devices.cpus, CpusConfig { boot_vcpus: 4, max_vcpus: Some(4) });
    assert_eq!(devices.memory.size, 2048 * 1024 * 1024);
    assert_eq!(devices.kernel.path, format!("{JAIL}/kernels/vmlinux"));
    assert_eq!(devices.kernel.cmdline.as_deref(), Some(config.kernel.cmdline.as_str()));
    assert_eq!(devices.disks.len(), 1);
    assert_eq!(devices.disks[0].path, format!("{JAIL}/dev/vda"));
    assert_eq!(devices.disks[0].readonly, Some(false));
    assert_eq!(devices.net.len(), 1);
    assert_eq!(devices.net[0].tap.as_deref(), Some("tap3"));
    assert_eq!(devices.net[0].mac.as_deref(), Some("06:00:0A:00:00:02"));
    let vsock: VsockConfig = devices.vsock;
    assert_eq!(vsock.cid, 3);
    assert_eq!(vsock.socket, format!("{JAIL}/run/vsock.sock"));
    assert_eq!(vsock.id.as_deref(), Some("vsock0"));
}

#[test]
fn restore_plan_paths() {
    let plan = plan_restore(test_vm_id(), "/dev/vda", "/var/lib/chelsea/kernels", "vmlinux", "snap1");
    // An absolute drive path replaces the working directory, as `Path::join` does.
    assert_eq!(plan.drive_node_path, "/dev/vda");
    assert_eq!(plan.kernel_source, "/var/lib/chelsea/kernels/vmlinux");
    assert_eq!(plan.kernel_dest, format!("{JAIL}/kernels/vmlinux"));
    assert_eq!(plan.restore_dir, format!("{JAIL}/snapshot-snap1"));
    assert_eq!(plan.vsock_socket_path, format!("{JAIL}/run/vsock.sock"));
    assert_eq!(plan.restore_config.source_url, format!("file://{JAIL}/snapshot-snap1"));
    assert_eq!(plan.restore_config.prefault, Some(false));
    let relative = plan_restore(test_vm_id(), "dev/root", "/k", "bzImage", "x");
    assert_eq!(relative.drive_node_path, format!("{JAIL}/dev/root"));
}
