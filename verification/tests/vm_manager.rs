use chelsea_lib::hypervisor::{vsock_socket_path, HypervisorType};
use chelsea_lib::vm_manager::{
    boot_gate, check_vm_reservation, BootGate, VmAllocationError, VmAllocationType,
    VmLifecycleError, VmReservation, VmReservationField, VmState,
};
use uuid::Uuid;

#[test]
fn test_vsock_socket_path_firecracker_contains_vm_id() {
    let vm_id = Uuid::parse_str("550e8400-e29b-41d4-a716-446655440000").unwrap();
    let path = vsock_socket_path(vm_id.as_u128(), HypervisorType::Firecracker);

    assert!(
        path.contains(&vm_id.to_string()),
        "vsock socket path should contain VM ID, got: {}",
        path
    );
    assert!(
        path.ends_with("run/vsock.sock"),
        "vsock socket path should end with run/vsock.sock, got: {}",
        path
    );
}

#[test]
fn test_vsock_socket_path_cloud_hypervisor_contains_vm_id() {
    let vm_id = Uuid::parse_str("550e8400-e29b-41d4-a716-446655440000").unwrap();
    let path = vsock_socket_path(vm_id.as_u128(), HypervisorType::CloudHypervisor);

    assert!(
        path.contains(&vm_id.to_string()),
        "vsock socket path should contain VM ID, got: {}",
        path
    );
    assert!(
        path.ends_with("run/vsock.sock"),
        "vsock socket path should end with run/vsock.sock, got: {}",
        path
    );
}

#[test]
fn test_vsock_socket_path_different_vms_get_different_paths() {
    let vm_id1 = Uuid::new_v4().as_u128();
    let vm_id2 = Uuid::new_v4().as_u128();
    assert_ne!(
        vsock_socket_path(vm_id1, HypervisorType::Firecracker),
        vsock_socket_path(vm_id2, HypervisorType::Firecracker)
    );
}

fn field(max: u32, total: u32, used: u32) -> VmReservationField {
    VmReservationField { max, total, used }
}

fn host() -> VmReservation {
    VmReservation {
        vcpu_count: field(8, 32, 30),
        memory_mib: field(16384, 65536, 60000),
        volume_mib: field(100000, 500000, 100),
    }
}

#[test]
fn reservation_available_saturates() {
    assert_eq!(field(4, 10, 3).available(), 7);
    assert_eq!(field(4, 10, 12).available(), 0);
    assert_eq!(field(4, 10, 10).available(), 0);
}

#[test]
fn reservation_accepts_a_fitting_vm() {
    assert_eq!(check_vm_reservation(3, 10, &host(), 2, 4096, 1000), Ok(()));
}

#[test]
fn reservation_vm_count_is_checked_first() {
    let r = check_vm_reservation(10, 10, &host(), 100, 100000, 1000000);
    assert_eq!(r, Err(VmAllocationError::VmCountExceeded { current: 10, max: 10 }));
    assert_eq!(
        r.unwrap_err().to_string(),
        "Host has reached or exceeded maximum VM count: 10 of 10"
    );
}

#[test]
fn reservation_hard_maximum_before_availability() {
    let r = check_vm_reservation(0, 10, &host(), 9, 100, 100);
    assert_eq!(
        r,
        Err(VmAllocationError::HardMaximumViolation { ty: VmAllocationType::Vcpu, requested: 9, max: 8 })
    );
    assert_eq!(
        r.unwrap_err().to_string(),
        "Requested VM violates hard maximum for vCPU count. Requested: 9; Maximum: 8"
    );
    let r = check_vm_reservation(0, 10, &host(), 1, 20000, 100);
    assert_eq!(
        r,
        Err(VmAllocationError::HardMaximumViolation { ty: VmAllocationType::Memory, requested: 20000, max: 16384 })
    );
    let r = check_vm_reservation(0, 10, &host(), 1, 100, 200000);
    assert_eq!(
        r,
        Err(VmAllocationError::HardMaximumViolation { ty: VmAllocationType::Volume, requested: 200000, max: 100000 })
    );
}

#[test]
fn reservation_insufficient_resources() {
    let r = check_vm_reservation(0, 10, &host(), 3, 100, 100);
    assert_eq!(
        r,
        Err(VmAllocationError::InsufficientResources { ty: VmAllocationType::Vcpu, requested: 3, available: 2 })
    );
    assert_eq!(
        r.unwrap_err().to_string(),
        "Host does not have adequate vCPU count for requested VM. Requested: 3; Available: 2"
    );
    let r = check_vm_reservation(0, 10, &host(), 2, 6000, 100);
    assert_eq!(
        r,
        Err(VmAllocationError::InsufficientResources { ty: VmAllocationType::Memory, requested: 6000, available: 5536 })
    );
    assert_eq!(VmAllocationType::Memory.to_string(), "memory MiB");
    assert_eq!(VmAllocationType::Volume.to_string(), "volume MiB");
}

#[test]
fn reservation_freeing_resources_keeps_request_accepted() {
    let mut h = host();
    assert_eq!(check_vm_reservation(0, 10, &h, 2, 5000, 100), Ok(()));
    h.vcpu_count.used = 0;
    h.memory_mib.used = 1;
    assert_eq!(check_vm_reservation(0, 10, &h, 2, 5000, 100), Ok(()));
}

#[test]
fn lifecycle_error_messages() {
    let id = Uuid::parse_str("550e8400-e29b-41d4-a716-446655440000").unwrap();
    assert_eq!(
        VmLifecycleError::StillBooting { vm_id: "abc".to_string() }.to_string(),
        "VM abc is not finished booting. Try again shortly."
    );
    assert_eq!(
        VmLifecycleError::IsPaused { vm_id: "abc".to_string() }.to_string(),
        "cannot perform operation: VM abc is paused"
    );
    assert_eq!(
        VmLifecycleError::IsNotSleeping { vm_id: id.as_u128() }.to_string(),
        format!("cannot perform operation: VM {id} is not sleeping")
    );
}

#[test]
fn boot_gate_decisions() {
    assert_eq!(boot_gate(false, false), BootGate::Proceed);
    assert_eq!(boot_gate(false, true), BootGate::Proceed);
    assert_eq!(boot_gate(true, true), BootGate::WaitForBoot);
    assert_eq!(boot_gate(true, false), BootGate::RefuseStillBooting);
}

#[test]
fn vm_state_names_are_lowercase() {
    assert_eq!(VmState::Booting.as_str(), "booting");
    assert_eq!(VmState::Running.as_str(), "running");
    assert_eq!(VmState::Paused.as_str(), "paused");
    assert_eq!(VmState::Sleeping.as_str(), "sleeping");
    assert_eq!(VmState::Dead.as_str(), "dead");
}

use chelsea_lib::vm_manager::{check_disk_resize, DiskResizeError};

#[test]
fn disk_resize_checks_maximum_then_growth() {
    assert_eq!(check_disk_resize(2048, 1024, 4096), Ok(()));
    let too_big = check_disk_resize(8192, 1024, 4096).unwrap_err();
    assert_eq!(
        too_big.to_string(),
        "Requested VM violates hard maximum for volume MiB. Requested: 8192; Maximum: 4096"
    );
    let shrink = check_disk_resize(512, 1024, 4096).unwrap_err();
    assert_eq!(
        shrink,
        DiskResizeError::NotGrowing { requested: 512, current: 1024 }
    );
    assert_eq!(
        shrink.to_string(),
        "New disk size (512 MiB) must be strictly greater than current size (1024 MiB). Shrinking is not supported."
    );
    assert!(check_disk_resize(1024, 1024, 4096).is_err());
    assert_eq!(check_disk_resize(4096, 1024, 4096), Ok(()));
}

use chelsea_lib::vm_manager::vm_state_from;

#[test]
fn vm_state_checks_sleep_then_boot_then_process() {
    assert_eq!(vm_state_from(true, true, Some(false)), VmState::Sleeping);
    assert_eq!(vm_state_from(false, true, Some(false)), VmState::Booting);
    assert_eq!(vm_state_from(false, false, Some(true)), VmState::Paused);
    assert_eq!(vm_state_from(false, false, Some(false)), VmState::Running);
    assert_eq!(vm_state_from(false, false, None), VmState::Dead);
    assert_eq!(vm_state_from(false, false, None).as_str(), "dead");
}

use chelsea_lib::hypervisor::VmConfigCommit;
use chelsea_lib::vm_manager::check_vm_is_sleeping;

fn commit_config() -> VmConfigCommit {
    VmConfigCommit {
        kernel_name: "vmlinux".to_string(),
        base_image: "ubuntu".to_string(),
        vcpu_count: 9,
        mem_size_mib: 2048,
        fs_size_mib: 4096,
        ssh_public_key: "ssh-ed25519 OLD".to_string(),
        ssh_private_key: "OLD PRIVATE".to_string(),
    }
}

#[test]
fn commit_reservation_uses_commit_sizes() {
    let c = commit_config();
    assert_eq!(
        c.check_reservation(0, 10, &host()),
        Err(VmAllocationError::HardMaximumViolation { ty: VmAllocationType::Vcpu, requested: 9, max: 8 })
    );
    let mut small = commit_config();
    small.vcpu_count = 2;
    assert_eq!(small.check_reservation(0, 10, &host()), check_vm_reservation(0, 10, &host(), 2, 2048, 4096));
}

#[test]
fn commit_vm_config_has_fresh_keypair() {
    let c = commit_config();
    let config = c.new_vm_config("NEW KEYPAIR", HypervisorType::CloudHypervisor);
    assert_eq!(config.kernel_name, "vmlinux");
    assert_eq!(config.base_image, "ubuntu");
    assert_eq!((config.vcpu_count, config.mem_size_mib, config.fs_size_mib), (9, 2048, 4096));
    assert_eq!(config.ssh_keypair, "NEW KEYPAIR");
    assert_eq!(config.hypervisor_type, HypervisorType::CloudHypervisor);
}

#[test]
fn wake_only_a_sleeping_vm() {
    assert_eq!(check_vm_is_sleeping(VmState::Sleeping, 7), Ok(()));
    for state in [VmState::Booting, VmState::Running, VmState::Paused, VmState::Dead] {
        assert_eq!(check_vm_is_sleeping(state, 7), Err(VmLifecycleError::IsNotSleeping { vm_id: 7 }));
    }
}
