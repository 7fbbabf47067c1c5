//! Deleting a VM: the decisions of the operation, as a machine that the
//! host drives.
//!
//! A VM without a local record is refused before anything is touched.
//! Otherwise its process is killed first (its network and volume may still
//! be in use by it), then its network, volume, local and remote records and
//! usage segment are released; every part is attempted whatever the others
//! did. The deletion succeeds only when every part succeeded, and only then
//! is the VM's lock dropped; otherwise one error names every failure.
use vstd::prelude::*;
use crate::teardown::{failures, results_view, teardown_error_text, teardown_outcome, TeardownKind};
use crate::text::{push_str, string_from_chars};
use crate::vm_id::{uuid_text, uuid_to_string};

verus! {

pub enum DeleteFailure<E> {
    /// No local record of the VM (the message says so).
    NotFound(String),
    Step(E),
    /// Releasing the VM failed; the message names every failure.
    Teardown(String),
}

pub enum DeleteFailureView<E> {
    NotFound(Seq<char>),
    Step(E),
    Teardown(Seq<char>),
}

pub open spec fn delete_failure_view<E>(f: DeleteFailure<E>) -> DeleteFailureView<E> {
    match f {
        DeleteFailure::NotFound(m) => DeleteFailureView::NotFound(m@),
        DeleteFailure::Step(e) => DeleteFailureView::Step(e),
        DeleteFailure::Teardown(m) => DeleteFailureView::Teardown(m@),
    }
}

pub enum DeleteEvent<E> {
    /// Whether the local store holds a record of the VM.
    RecordFetched { found: bool },
    /// The process kill ended, with its error text if it failed.
    Killed { error: Option<String> },
    /// The releases of the network, volume, local record, remote record and
    /// usage segment ended: the error text of each that failed.
    Released { results: Vec<Option<String>> },
    Succeeded,
    Failed(E),
}

pub enum DeleteAction<E> {
    FetchRecord,
    KillProcess,
    /// Release the network, volume, local and remote records and usage
    /// segment, all of them whatever becomes of the others.
    ReleaseResources,
    /// Drop the VM's lock.
    RemoveLock,
    Finish(Result<(), DeleteFailure<E>>),
}

pub enum DeleteActionView<E> {
    FetchRecord,
    KillProcess,
    ReleaseResources,
    RemoveLock,
    Finish(Result<(), DeleteFailureView<E>>),
}

pub open spec fn delete_action_view<E>(a: DeleteAction<E>) -> DeleteActionView<E> {
    match a {
        DeleteAction::FetchRecord => DeleteActionView::FetchRecord,
        DeleteAction::KillProcess => DeleteActionView::KillProcess,
        DeleteAction::ReleaseResources => DeleteActionView::ReleaseResources,
        DeleteAction::RemoveLock => DeleteActionView::RemoveLock,
        DeleteAction::Finish(Ok(())) => DeleteActionView::Finish(Ok(())),
        DeleteAction::Finish(Err(f)) => DeleteActionView::Finish(Err(delete_failure_view(f))),
    }
}

#[derive(Clone, Copy, PartialEq, Eq, Structural, Debug)]
pub enum DeleteStage {
    Fetching,
    Killing,
    Releasing,
    RemovingLock,
    Finished,
}

pub struct VmDelete {
    stage: DeleteStage,
    vm_id: u128,
    kill_error: Option<String>,
}

pub struct VmDeleteView {
    pub stage: DeleteStage,
    pub vm_id: u128,
    /// The kill's error text, if it failed.
    pub kill_error: Option<Seq<char>>,
}

impl View for VmDelete {
    type V = VmDeleteView;

    closed spec fn view(&self) -> VmDeleteView {
        VmDeleteView {
            stage: self.stage,
            vm_id: self.vm_id,
            kill_error: match self.kill_error {
                Some(t) => Some(t@),
                None => None,
            },
        }
    }
}

pub open spec fn not_found_text(vm_id: u128) -> Seq<char> {
    "VM '"@ + uuid_text(vm_id) + "' not found"@
}

pub open spec fn delete_next<E>(s: VmDeleteView, ev: DeleteEvent<E>) -> (VmDeleteView, DeleteActionView<E>) {
    let finished = VmDeleteView { stage: DeleteStage::Finished, ..s };
    match s.stage {
        DeleteStage::Fetching => match ev {
            DeleteEvent::RecordFetched { found } => if found {
                (VmDeleteView { stage: DeleteStage::Killing, ..s }, DeleteActionView::KillProcess)
            } else {
                (finished, DeleteActionView::Finish(Err(DeleteFailureView::NotFound(not_found_text(s.vm_id)))))
            },
            DeleteEvent::Failed(e) => (finished, DeleteActionView::Finish(Err(DeleteFailureView::Step(e)))),
            _ => (s, DeleteActionView::FetchRecord),
        },
        DeleteStage::Killing => (
            VmDeleteView {
                stage: DeleteStage::Releasing,
                kill_error: match ev {
                    DeleteEvent::Killed { error } => match error {
                        Some(t) => Some(t@),
                        None => None,
                    },
                    _ => None,
                },
                ..s
            },
            DeleteActionView::ReleaseResources,
        ),
        DeleteStage::Releasing => match ev {
            DeleteEvent::Released { results } => {
                let failed = failures(seq![s.kill_error] + results_view(results@));
                if failed.len() == 0 {
                    (VmDeleteView { stage: DeleteStage::RemovingLock, ..s }, DeleteActionView::RemoveLock)
                } else {
                    (
                        finished,
                        DeleteActionView::Finish(
                            Err(DeleteFailureView::Teardown(teardown_error_text(TeardownKind::Killing, s.vm_id, failed))),
                        ),
                    )
                }
            },
            _ => (s, DeleteActionView::ReleaseResources),
        },
        DeleteStage::RemovingLock => (finished, DeleteActionView::Finish(Ok(()))),
        DeleteStage::Finished => (s, DeleteActionView::Finish(Ok(()))),
    }
}

/// A VM without a local record is refused at once, with nothing killed or
/// released; otherwise the process is killed before anything else is
/// released, the lock is dropped only when the process and every resource
/// were released, and a failure of any part is reported with all others.
pub proof fn lemma_delete_decisions<E>(s: VmDeleteView, results: Vec<Option<String>>)
    ensures
        s.stage == DeleteStage::Fetching ==> delete_next(s, DeleteEvent::<E>::RecordFetched { found: false }).1
            == DeleteActionView::<E>::Finish(Err(DeleteFailureView::NotFound(not_found_text(s.vm_id)))),
        s.stage == DeleteStage::Fetching ==> delete_next(s, DeleteEvent::<E>::RecordFetched { found: true }).1
            == DeleteActionView::<E>::KillProcess,
        s.stage == DeleteStage::Releasing ==> (delete_next(s, DeleteEvent::<E>::Released { results }).1
            == DeleteActionView::<E>::RemoveLock <==> s.kill_error is None && failures(results_view(results@)).len()
            == 0),
{
    if s.stage == DeleteStage::Releasing {
        lemma_failures_prepend(s.kill_error, results_view(results@));
    }
}

/// The failures of a list that starts with `first`.
pub proof fn lemma_failures_prepend(first: Option<Seq<char>>, rest: Seq<Option<Seq<char>>>)
    ensures
        failures(seq![first] + rest).len() == 0 <==> first is None && failures(rest).len() == 0,
    decreases rest.len(),
{
    if rest.len() > 0 {
        let all = seq![first] + rest;
        assert(all.drop_last() =~= seq![first] + rest.drop_last());
        assert(all.last() == rest.last());
        lemma_failures_prepend(first, rest.drop_last());
        assert(failures(all) == match all.last() {
            Some(t) => failures(all.drop_last()).push(t),
            None => failures(all.drop_last()),
        });
        assert(failures(rest) == match rest.last() {
            Some(t) => failures(rest.drop_last()).push(t),
            None => failures(rest.drop_last()),
        });
    } else {
        assert(seq![first] + rest =~= seq![first]);
        assert(seq![first].drop_last() =~= Seq::<Option<Seq<char>>>::empty());
        assert(failures(seq![first].drop_last()) == Seq::<Seq<char>>::empty());
        assert(seq![first].last() == first);
    }
}

impl VmDelete {
    /// Starts deleting `vm_id`; the first action fetches its local record.
    pub fn start<E>(vm_id: u128) -> (r: (Self, DeleteAction<E>))
        ensures
            r.0@ == (VmDeleteView { stage: DeleteStage::Fetching, vm_id, kill_error: None }),
            delete_action_view(r.1) == DeleteActionView::<E>::FetchRecord,
    {
        (VmDelete { stage: DeleteStage::Fetching, vm_id, kill_error: None }, DeleteAction::FetchRecord)
    }

    pub fn is_finished(&self) -> (r: bool)
        ensures
            r == (self@.stage == DeleteStage::Finished),
    {
        self.stage == DeleteStage::Finished
    }

    /// Takes the outcome of the last action and returns the next one.
    pub fn step<E>(&mut self, event: DeleteEvent<E>) -> (r: DeleteAction<E>)
        requires
            old(self)@.stage != DeleteStage::Finished,
        ensures
            (final(self)@, delete_action_view(r)) == delete_next(old(self)@, event),
    {
        match self.stage {
            DeleteStage::Fetching => match event {
                DeleteEvent::RecordFetched { found } => if found {
                    self.stage = DeleteStage::Killing;
                    DeleteAction::KillProcess
                } else {
                    self.stage = DeleteStage::Finished;
                    let mut out: Vec<char> = Vec::new();
                    push_str(&mut out, "VM '");
                    let id = uuid_to_string(self.vm_id);
                    push_str(&mut out, id.as_str());
                    push_str(&mut out, "' not found");
                    assert(out@ =~= not_found_text(self.vm_id));
                    DeleteAction::Finish(Err(DeleteFailure::NotFound(string_from_chars(out))))
                },
                DeleteEvent::Failed(e) => {
                    self.stage = DeleteStage::Finished;
                    DeleteAction::Finish(Err(DeleteFailure::Step(e)))
                },
                _ => DeleteAction::FetchRecord,
            },
            DeleteStage::Killing => {
                self.stage = DeleteStage::Releasing;
                self.kill_error = match event {
                    DeleteEvent::Killed { error } => error,
                    _ => None,
                };
                DeleteAction::ReleaseResources
            },
            DeleteStage::Releasing => match event {
                DeleteEvent::Released { results } => {
                    let mut all: Vec<Option<String>> = Vec::new();
                    all.push(self.kill_error.clone());
                    let ghost first = self@.kill_error;
                    let mut results = results;
                    let ghost rest = results@;
                    all.append(&mut results);
                    proof {
                        assert(results_view(all@) =~= seq![first] + results_view(rest));
                    }
                    match teardown_outcome(TeardownKind::Killing, self.vm_id, all) {
                        Ok(()) => {
                            self.stage = DeleteStage::RemovingLock;
                            DeleteAction::RemoveLock
                        },
                        Err(m) => {
                            self.stage = DeleteStage::Finished;
                            DeleteAction::Finish(Err(DeleteFailure::Teardown(m)))
                        },
                    }
                },
                _ => DeleteAction::ReleaseResources,
            },
            DeleteStage::RemovingLock => {
                self.stage = DeleteStage::Finished;
                DeleteAction::Finish(Ok(()))
            },
            DeleteStage::Finished => DeleteAction::Finish(Ok(())),
        }
    }
}

} // verus!
