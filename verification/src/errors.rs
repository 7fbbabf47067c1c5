//! Errors shared across the host's components, with their messages.

use crate::firecracker::string_of;
use crate::text::{push_str, string_from_chars};
use vstd::prelude::*;

verus! {

/// An error of a store of host records.
#[derive(Debug, Clone, PartialEq, Eq)]
pub struct StoreError {
    reason: String,
}

impl View for StoreError {
    type V = Seq<char>;

    closed spec fn view(&self) -> Seq<char> {
        self.reason@
    }
}

/// The message of a store error with the given reason.
pub open spec fn store_error_text(reason: Seq<char>) -> Seq<char> {
    "Unknown chelsea database error. reason: "@ + reason
}

impl StoreError {
    /// The reason, as held.
    pub closed spec fn reason_string(self) -> String {
        self.reason
    }

    /// A store error whose reason is the text `value` displays as.
    pub fn from_display<T: core::fmt::Display>(value: T) -> (r: Self)
        ensures
            vstd::string::to_string_from_display_ensures::<T>(&value, r.reason_string()),
            r@ == r.reason_string()@,
    {
        StoreError { reason: value.to_string() }
    }

    /// The reason given.
    pub fn reason(&self) -> (r: String)
        ensures
            r@ == self@,
    {
        self.reason.clone()
    }

    /// The error's message.
    pub fn to_string(&self) -> (r: String)
        ensures
            r@ == store_error_text(self@),
    {
        let mut out: Vec<char> = Vec::new();
        push_str(&mut out, "Unknown chelsea database error. reason: ");
        push_str(&mut out, self.reason.as_str());
        string_from_chars(out)
    }
}

/// Why a VM network could not be created.
#[derive(Debug, Clone, PartialEq, Eq)]
pub enum NewVmNetworkError {
    /// The parameters were invalid.
    InvalidInput(String),
    /// A step of the setup failed.
    Other(String),
}

/// The message of a network creation error.
pub open spec fn new_vm_network_error_text(e: NewVmNetworkError) -> Seq<char> {
    match e {
        NewVmNetworkError::InvalidInput(m) => "Invalid input params: "@ + m@,
        NewVmNetworkError::Other(m) => m@,
    }
}

impl NewVmNetworkError {
    /// The error's message.
    pub fn to_string(&self) -> (r: String)
        ensures
            r@ == new_vm_network_error_text(*self),
    {
        match self {
            NewVmNetworkError::InvalidInput(m) => {
                let mut out: Vec<char> = Vec::new();
                push_str(&mut out, "Invalid input params: ");
                push_str(&mut out, m.as_str());
                string_from_chars(out)
            },
            NewVmNetworkError::Other(m) => m.clone(),
        }
    }
}

/// Why the VM networks could not be initialized.
#[derive(Debug, Clone, PartialEq, Eq)]
pub enum InitializeNetworksError {
    IsShuttingDown,
    IsDown,
    IsReady,
    IsStarting,
    Other(String),
}

/// The message of a network initialization error.
pub open spec fn initialize_networks_error_text(e: InitializeNetworksError) -> Seq<char> {
    match e {
        InitializeNetworksError::IsShuttingDown => "NetworkManager is shutting down; aborting"@,
        InitializeNetworksError::IsDown => "NetworkManager is down; aborting"@,
        InitializeNetworksError::IsReady => "NetworkManager is already running; aborting"@,
        InitializeNetworksError::IsStarting => "NetworkManager is already starting up; aborting"@,
        InitializeNetworksError::Other(m) => "Error during network initialization: "@ + m@,
    }
}

impl InitializeNetworksError {
    /// The error's message.
    pub fn to_string(&self) -> (r: String)
        ensures
            r@ == initialize_networks_error_text(*self),
    {
        match self {
            InitializeNetworksError::IsShuttingDown => string_of(
                "NetworkManager is shutting down; aborting",
            ),
            InitializeNetworksError::IsDown => string_of("NetworkManager is down; aborting"),
            InitializeNetworksError::IsReady => string_of(
                "NetworkManager is already running; aborting",
            ),
            InitializeNetworksError::IsStarting => string_of(
                "NetworkManager is already starting up; aborting",
            ),
            InitializeNetworksError::Other(m) => {
                let mut out: Vec<char> = Vec::new();
                push_str(&mut out, "Error during network initialization: ");
                push_str(&mut out, m.as_str());
                string_from_chars(out)
            },
        }
    }
}

/// Why no network could be reserved for a VM.
#[derive(Debug, Clone, PartialEq, Eq)]
pub enum ReserveNetworkError {
    NoneAvailable,
    Other(String),
}

/// The message of a reservation error.
pub open spec fn reserve_network_error_text(e: ReserveNetworkError) -> Seq<char> {
    match e {
        ReserveNetworkError::NoneAvailable => "There are no available networks at this time"@,
        ReserveNetworkError::Other(m) => "Internal error reserving network: "@ + m@,
    }
}

impl ReserveNetworkError {
    /// The error's message.
    pub fn to_string(&self) -> (r: String)
        ensures
            r@ == reserve_network_error_text(*self),
    {
        match self {
            ReserveNetworkError::NoneAvailable => string_of(
                "There are no available networks at this time",
            ),
            ReserveNetworkError::Other(m) => {
                let mut out: Vec<char> = Vec::new();
                push_str(&mut out, "Internal error reserving network: ");
                push_str(&mut out, m.as_str());
                string_from_chars(out)
            },
        }
    }
}

/// The outcome of a reservation query to the store: a free network, none,
/// or a store failure.
pub fn reserve_outcome<N>(found: Result<Option<N>, StoreError>) -> (r: Result<N, ReserveNetworkError>)
    ensures
        found matches Ok(Some(n)) ==> r == Ok::<N, ReserveNetworkError>(n),
        found matches Ok(None) ==> r == Err::<N, ReserveNetworkError>(ReserveNetworkError::NoneAvailable),
        found matches Err(e) ==> r matches Err(ReserveNetworkError::Other(m)) && m@ == store_error_text(e@),
{
    match found {
        Ok(Some(n)) => Ok(n),
        Ok(None) => Err(ReserveNetworkError::NoneAvailable),
        Err(e) => Err(ReserveNetworkError::Other(e.to_string())),
    }
}

/// Why a VM did not finish booting.
#[derive(Debug, Clone, Copy, PartialEq, Eq)]
pub enum VmBootError {
    Timeout,
    Aborted,
}

/// The message of a boot error.
pub open spec fn vm_boot_error_text(e: VmBootError) -> Seq<char> {
    match e {
        VmBootError::Timeout => "The VM failed to send a 'ready' event within the permitted time."@,
        VmBootError::Aborted => "VM boot was aborted by the host."@,
    }
}

impl VmBootError {
    /// The error's message.
    pub fn to_string(&self) -> (r: String)
        ensures
            r@ == vm_boot_error_text(*self),
    {
        match self {
            VmBootError::Timeout => string_of(
                "The VM failed to send a 'ready' event within the permitted time.",
            ),
            VmBootError::Aborted => string_of("VM boot was aborted by the host."),
        }
    }
}

/// An error of the store behind the ready service.
#[derive(Debug, Clone, PartialEq, Eq)]
pub enum VmReadyServiceStoreError {
    Db(String),
}

impl VmReadyServiceStoreError {
    /// The error's message.
    pub fn to_string(&self) -> (r: String)
        ensures
            self matches VmReadyServiceStoreError::Db(m) ==> r@ == "DB error: "@ + m@,
    {
        match self {
            VmReadyServiceStoreError::Db(m) => {
                let mut out: Vec<char> = Vec::new();
                push_str(&mut out, "DB error: ");
                push_str(&mut out, m.as_str());
                string_from_chars(out)
            },
        }
    }
}

} // verus!
