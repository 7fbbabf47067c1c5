use chelsea_lib::errors::VmBootError;
use chelsea_lib::ready_service::{BootRegistry, BootSubscription, VmReadyServiceError};
use uuid::Uuid;

#[test]
fn complete_boot_when_not_registered_is_not_found() {
    let mut registry: BootRegistry<u32> = BootRegistry::new();
    let vm_id = Uuid::new_v4();
    match registry.remove_booting_vm(vm_id.as_u128()) {
        Err(VmReadyServiceError::NotFound(m)) => assert_eq!(m, vm_id.to_string()),
        other => panic!("unexpected: {:?}", other),
    }
}

#[test]
fn first_completion_wins() {
    let mut registry: BootRegistry<&str> = BootRegistry::new();
    let vm_id = Uuid::new_v4().as_u128();
    assert_eq!(registry.insert_booting_vm(vm_id, "channel"), None);
    assert_eq!(registry.remove_booting_vm(vm_id).unwrap(), "channel");
    assert!(matches!(registry.remove_booting_vm(vm_id), Err(VmReadyServiceError::NotFound(_))));
}

#[test]
fn subscribe_reports_booting_and_not_booting() {
    let mut registry: BootRegistry<u8> = BootRegistry::new();
    let vm_id = Uuid::new_v4().as_u128();
    assert!(matches!(registry.subscribe(true, vm_id), Ok(BootSubscription::NotBooting)));
    registry.insert_booting_vm(vm_id, 7);
    assert!(registry.is_booting(vm_id));
    match registry.subscribe(true, vm_id) {
        Ok(BootSubscription::Booting(v)) => assert_eq!(*v, 7),
        _ => panic!("expected Booting"),
    }
    assert!(matches!(registry.subscribe(false, vm_id), Err(VmReadyServiceError::NotFound(_))));
    registry.remove_booting_vm(vm_id).unwrap();
    assert!(matches!(registry.subscribe(true, vm_id), Ok(BootSubscription::NotBooting)));
}

#[test]
fn timeout_then_late_completion_is_harmless() {
    let mut registry: BootRegistry<()> = BootRegistry::new();
    let a = Uuid::new_v4().as_u128();
    let b = Uuid::new_v4().as_u128();
    registry.insert_booting_vm(a, ());
    registry.insert_booting_vm(b, ());
    registry.remove_booting_vm(a).unwrap();
    assert!(registry.remove_booting_vm(a).is_err());
    assert!(registry.is_booting(b));
}

#[test]
fn ready_service_error_messages() {
    assert_eq!(
        VmReadyServiceError::BootFailed(VmBootError::Timeout).to_string(),
        "VM failed to boot successfully: The VM failed to send a 'ready' event within the permitted time."
    );
    assert_eq!(VmReadyServiceError::NotFound("x".to_string()).to_string(), "VM not found: x");
    assert_eq!(VmBootError::Aborted.to_string(), "VM boot was aborted by the host.");
}

use chelsea_lib::ready_service::RecvFailure;

#[test]
fn receive_errors_use_the_channel_wording() {
    assert_eq!(
        VmReadyServiceError::Receive(RecvFailure::Closed).to_string(),
        "Error receiving boot event: channel closed"
    );
    assert_eq!(
        VmReadyServiceError::Receive(RecvFailure::Lagged(3)).to_string(),
        "Error receiving boot event: channel lagged by 3"
    );
}

use chelsea_lib::ready_service::{boot_completion, BootCompletion};

#[test]
fn complete_vm_boot_second_signal_is_not_an_error() {
    let mut registry: BootRegistry<u8> = BootRegistry::new();
    registry.insert_booting_vm(5, 1);
    let first = registry.remove_booting_vm(5);
    assert_eq!(boot_completion(&first), BootCompletion::Completed);
    let second = registry.remove_booting_vm(5);
    assert_eq!(boot_completion(&second), BootCompletion::AlreadyCompleted);
    let other: Result<(), VmReadyServiceError> = Err(VmReadyServiceError::BootFailed(VmBootError::Timeout));
    assert_eq!(boot_completion(&other), BootCompletion::Failed);
}
