use chelsea_lib::errors::{
    reserve_outcome, InitializeNetworksError, NewVmNetworkError, ReserveNetworkError, StoreError,
    VmBootError, VmReadyServiceStoreError,
};

#[test]
fn store_error_from_display_keeps_reason() {
    let err = StoreError::from_display("connection refused");
    assert_eq!(err.reason(), "connection refused");
    assert_eq!(
        err.to_string(),
        "Unknown chelsea database error. reason: connection refused"
    );
    let numeric = StoreError::from_display(42u32);
    assert_eq!(numeric.reason(), "42");
}

#[test]
fn new_vm_network_error_messages() {
    assert_eq!(
        NewVmNetworkError::InvalidInput("bad".to_string()).to_string(),
        "Invalid input params: bad"
    );
    assert_eq!(NewVmNetworkError::Other("x".to_string()).to_string(), "x");
}

#[test]
fn initialize_networks_error_messages() {
    assert_eq!(
        InitializeNetworksError::IsShuttingDown.to_string(),
        "NetworkManager is shutting down; aborting"
    );
    assert_eq!(
        InitializeNetworksError::IsDown.to_string(),
        "NetworkManager is down; aborting"
    );
    assert_eq!(
        InitializeNetworksError::IsReady.to_string(),
        "NetworkManager is already running; aborting"
    );
    assert_eq!(
        InitializeNetworksError::IsStarting.to_string(),
        "NetworkManager is already starting up; aborting"
    );
    assert_eq!(
        InitializeNetworksError::Other("oops".to_string()).to_string(),
        "Error during network initialization: oops"
    );
}

#[test]
fn reserve_outcome_maps_each_case() {
    assert_eq!(reserve_outcome::<u32>(Ok(Some(7))), Ok(7));
    assert_eq!(
        reserve_outcome::<u32>(Ok(None)),
        Err(ReserveNetworkError::NoneAvailable)
    );
    let err = reserve_outcome::<u32>(Err(StoreError::from_display("down"))).unwrap_err();
    assert_eq!(
        err,
        ReserveNetworkError::Other("Unknown chelsea database error. reason: down".to_string())
    );
    assert_eq!(
        err.to_string(),
        "Internal error reserving network: Unknown chelsea database error. reason: down"
    );
    assert_eq!(
        ReserveNetworkError::NoneAvailable.to_string(),
        "There are no available networks at this time"
    );
}

#[test]
fn boot_and_ready_store_error_messages() {
    assert_eq!(
        VmBootError::Timeout.to_string(),
        "The VM failed to send a 'ready' event within the permitted time."
    );
    assert_eq!(
        VmBootError::Aborted.to_string(),
        "VM boot was aborted by the host."
    );
    assert_eq!(
        VmReadyServiceStoreError::Db("gone".to_string()).to_string(),
        "DB error: gone"
    );
}
