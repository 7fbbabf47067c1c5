//! The registry of VMs that are still booting. A VM is registered when it is
//! created; the first of its boot signals (the in-guest agent, the HTTP
//! notification, or the boot timeout) removes it and delivers the boot
//! result to whoever waits on it; later signals find nothing to do.

use crate::errors::{vm_boot_error_text, VmBootError, VmReadyServiceStoreError};
use crate::text::{decimal, push_decimal, push_str, string_from_chars};
use crate::vm_id::{uuid_text, uuid_to_string};
use std::collections::HashMap;
use vstd::prelude::*;

verus! {

/// Why waiting for a boot result on the broadcast channel failed (the
/// channel's receive error).
#[derive(Debug, Clone, Copy, PartialEq, Eq)]
pub enum RecvFailure {
    /// No sender is left: no result will come.
    Closed,
    /// The receiver fell behind and this many messages were skipped.
    Lagged(u64),
}

/// The message of a receive failure, as the channel words it.
pub open spec fn recv_failure_text(e: RecvFailure) -> Seq<char> {
    match e {
        RecvFailure::Closed => "channel closed"@,
        RecvFailure::Lagged(n) => "channel lagged by "@ + decimal(n as nat),
    }
}

/// An error of the ready service.
#[derive(Debug)]
pub enum VmReadyServiceError {
    Store(VmReadyServiceStoreError),
    /// No such VM (or, on completion, the VM is no longer booting).
    NotFound(String),
    Receive(RecvFailure),
    BootFailed(VmBootError),
}

impl VmReadyServiceError {
    /// The error's message.
    pub fn to_string(&self) -> (r: String)
        ensures
            self matches VmReadyServiceError::NotFound(m) ==> r@ == "VM not found: "@ + m@,
            self matches VmReadyServiceError::BootFailed(e) ==> r@ == "VM failed to boot successfully: "@
                + vm_boot_error_text(*e),
            self matches VmReadyServiceError::Store(VmReadyServiceStoreError::Db(m)) ==> r@
                == "VmReadyServiceStore error: "@ + "DB error: "@ + m@,
            self matches VmReadyServiceError::Receive(e) ==> r@ == "Error receiving boot event: "@
                + recv_failure_text(*e),
    {
        let mut out: Vec<char> = Vec::new();
        match self {
            VmReadyServiceError::Store(e) => {
                push_str(&mut out, "VmReadyServiceStore error: ");
                let text = e.to_string();
                push_str(&mut out, text.as_str());
            },
            VmReadyServiceError::NotFound(m) => {
                push_str(&mut out, "VM not found: ");
                push_str(&mut out, m.as_str());
            },
            VmReadyServiceError::Receive(e) => {
                push_str(&mut out, "Error receiving boot event: ");
                match e {
                    RecvFailure::Closed => push_str(&mut out, "channel closed"),
                    RecvFailure::Lagged(n) => {
                        push_str(&mut out, "channel lagged by ");
                        push_decimal(&mut out, *n as u128);
                    },
                }
                proof {
                    assert(out@ =~= "Error receiving boot event: "@ + recv_failure_text(*e));
                }
            },
            VmReadyServiceError::BootFailed(e) => {
                push_str(&mut out, "VM failed to boot successfully: ");
                let text = e.to_string();
                push_str(&mut out, text.as_str());
            },
        }
        string_from_chars(out)
    }
}

/// The VMs that are booting, each with what the host keeps for it (the
/// channel its boot result goes out on, and its timeout task).
pub struct BootRegistry<T> {
    booting: HashMap<u128, T>,
}

impl<T> View for BootRegistry<T> {
    type V = Map<u128, T>;

    closed spec fn view(&self) -> Map<u128, T> {
        self.booting@
    }
}

/// Whether a VM is booting, as a subscriber learns it.
pub enum BootSubscription<'a, T> {
    /// The VM is not booting (which says nothing of how its boot went).
    NotBooting,
    /// The VM is booting; this is what the host keeps for it.
    Booting(&'a T),
}

impl<T> BootRegistry<T> {
    /// A registry with no booting VM.
    pub fn new() -> (r: Self)
        ensures
            r@ == Map::<u128, T>::empty(),
    {
        BootRegistry { booting: HashMap::new() }
    }

    /// Registers `vm_id` as booting, and returns what was registered for it
    /// before, if anything.
    pub fn insert_booting_vm(&mut self, vm_id: u128, entry: T) -> (r: Option<T>)
        ensures
            final(self)@ == old(self)@.insert(vm_id, entry),
            r matches Some(v) ==> old(self)@.contains_key(vm_id) && v == old(self)@[vm_id],
            r is None ==> !old(self)@.contains_key(vm_id),
    {
        broadcast use vstd::std_specs::hash::group_hash_axioms;

        self.booting.insert(vm_id, entry)
    }

    /// Marks `vm_id` as finished booting and hands back what was kept for it,
    /// so the boot result can be delivered; fails with `NotFound` when the
    /// VM is not booting (another signal finished it first).
    pub fn remove_booting_vm(&mut self, vm_id: u128) -> (r: Result<T, VmReadyServiceError>)
        ensures
            final(self)@ == old(self)@.remove(vm_id),
            old(self)@.contains_key(vm_id) <==> r is Ok,
            r matches Ok(v) ==> v == old(self)@[vm_id],
            r matches Err(e) ==> e matches VmReadyServiceError::NotFound(m) && m@ == uuid_text(vm_id),
    {
        broadcast use vstd::std_specs::hash::group_hash_axioms;

        match self.booting.remove(&vm_id) {
            Some(entry) => Ok(entry),
            None => {
                proof {
                    assert(old(self)@.remove(vm_id) =~= old(self)@);
                }
                Err(VmReadyServiceError::NotFound(uuid_to_string(vm_id)))
            },
        }
    }

    /// Whether `vm_id` is booting, for a caller that wants to wait for its
    /// boot. `vm_exists` says whether the VM is known at all; an unknown VM
    /// is `NotFound`.
    pub fn subscribe<'a>(&'a self, vm_exists: bool, vm_id: u128) -> (r: Result<BootSubscription<'a, T>, VmReadyServiceError>)
        ensures
            !vm_exists <==> r is Err,
            r matches Err(e) ==> e matches VmReadyServiceError::NotFound(m) && m@ == uuid_text(vm_id),
            r matches Ok(BootSubscription::Booting(v)) ==> self@.contains_key(vm_id) && *v
                == self@[vm_id],
            r matches Ok(BootSubscription::NotBooting) ==> !self@.contains_key(vm_id),
            vm_exists && self@.contains_key(vm_id) ==> r matches Ok(BootSubscription::Booting(_)),
    {
        broadcast use vstd::std_specs::hash::group_hash_axioms;

        if !vm_exists {
            return Err(VmReadyServiceError::NotFound(uuid_to_string(vm_id)));
        }
        match self.booting.get(&vm_id) {
            Some(entry) => Ok(BootSubscription::Booting(entry)),
            None => Ok(BootSubscription::NotBooting),
        }
    }

    /// Whether `vm_id` is booting.
    pub fn is_booting(&self, vm_id: u128) -> (r: bool)
        ensures
            r == self@.contains_key(vm_id),
    {
        broadcast use vstd::std_specs::hash::group_hash_axioms;

        self.booting.contains_key(&vm_id)
    }
}

/// What became of a signal that a VM has booted.
#[derive(Debug, Clone, Copy, PartialEq, Eq)]
pub enum BootCompletion {
    /// This signal finished the boot.
    Completed,
    /// Another signal finished it first: expected, not an error.
    AlreadyCompleted,
    /// Finishing the boot failed otherwise.
    Failed,
}

/// Classifies the result of finishing a VM's boot: `NotFound` means the
/// other boot signal won the race.
pub fn boot_completion<T>(r: &Result<T, VmReadyServiceError>) -> (c: BootCompletion)
    ensures
        r is Ok <==> c == BootCompletion::Completed,
        r matches Err(VmReadyServiceError::NotFound(_)) <==> c == BootCompletion::AlreadyCompleted,
{
    match r {
        Ok(_) => BootCompletion::Completed,
        Err(VmReadyServiceError::NotFound(_)) => BootCompletion::AlreadyCompleted,
        Err(_) => BootCompletion::Failed,
    }
}

/// Of the signals that a VM has booted (and its timeout), only the first
/// finds the VM registered: once one has removed it, every later one gets
/// `NotFound`, so the boot result is delivered exactly once.
pub proof fn lemma_first_completion_wins<T>(m: Map<u128, T>, vm_id: u128)
    requires
        m.contains_key(vm_id),
    ensures
        !m.remove(vm_id).contains_key(vm_id),
        m.remove(vm_id).remove(vm_id) == m.remove(vm_id),
{
    assert(m.remove(vm_id).remove(vm_id) =~= m.remove(vm_id));
}

/// Registering a VM and finishing its boot leaves the other VMs' entries as
/// they were.
pub proof fn lemma_register_then_finish<T>(m: Map<u128, T>, vm_id: u128, entry: T)
    requires
        !m.contains_key(vm_id),
    ensures
        m.insert(vm_id, entry).remove(vm_id) == m,
        m.insert(vm_id, entry)[vm_id] == entry,
{
    assert(m.insert(vm_id, entry).remove(vm_id) =~= m);
}

} // verus!
