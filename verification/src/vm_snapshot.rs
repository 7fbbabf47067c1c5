//! Snapshotting a VM, to put it to sleep or to commit it: the decisions of
//! the operation, as a machine that the host drives.
//!
//! A booting VM is waited for, or refused. The VM is paused (unless it
//! already is), room is made in the snapshot cache for the volume's and the
//! process's snapshot, the snapshot is taken, uploaded and recorded. A
//! commit then resumes the VM first unless asked to keep it paused; a sleep
//! releases the VM's process, network, volume and records only once the
//! snapshot is recorded, and succeeds only when every part of that release
//! succeeded.
use vstd::prelude::*;
use crate::vm_manager::{boot_gate, BootGate};
use crate::teardown::{failures, results_view, teardown_error_text, teardown_outcome, TeardownKind};

verus! {

pub enum SnapshotOpFailure<E> {
    /// The VM is still booting and the caller did not ask to wait.
    StillBooting,
    /// The snapshot sizes add up to more MiB than a `u32` holds.
    SizeOverflow,
    Step(E),
    /// Releasing the VM's resources failed; the message names every failure.
    Teardown(String),
}

pub enum SnapshotOpFailureView<E> {
    StillBooting,
    SizeOverflow,
    Step(E),
    Teardown(Seq<char>),
}

pub enum SnapshotOpEvent<E> {
    Succeeded,
    /// The VM record was loaded; whether its process is paused.
    VmLoaded { paused: bool },
    /// The sizes of the volume's and the process's snapshots.
    SnapshotSizes { volume_mib: u32, process_mib: u32 },
    /// The results of releasing the process, network, volume, local record
    /// and usage segment: the error text of each part that failed.
    TornDown { results: Vec<Option<String>> },
    Failed(E),
}

pub enum SnapshotOpAction<E> {
    WaitForBoot,
    LoadVm,
    Pause,
    GetHostArchitecture,
    MeasureSnapshotSizes,
    /// Make this much room in the snapshot cache (of sleep snapshots or of
    /// commits).
    EnsureSpace { space_required_mib: u32 },
    CreateSnapshot,
    Resume,
    UploadSnapshot,
    InsertSnapshotRecord,
    TearDown,
    Finish(Result<(), SnapshotOpFailure<E>>),
}

pub enum SnapshotOpActionView<E> {
    WaitForBoot,
    LoadVm,
    Pause,
    GetHostArchitecture,
    MeasureSnapshotSizes,
    EnsureSpace { space_required_mib: u32 },
    CreateSnapshot,
    Resume,
    UploadSnapshot,
    InsertSnapshotRecord,
    TearDown,
    Finish(Result<(), SnapshotOpFailureView<E>>),
}

pub open spec fn snapshot_op_failure_view<E>(f: SnapshotOpFailure<E>) -> SnapshotOpFailureView<E> {
    match f {
        SnapshotOpFailure::StillBooting => SnapshotOpFailureView::StillBooting,
        SnapshotOpFailure::SizeOverflow => SnapshotOpFailureView::SizeOverflow,
        SnapshotOpFailure::Step(e) => SnapshotOpFailureView::Step(e),
        SnapshotOpFailure::Teardown(m) => SnapshotOpFailureView::Teardown(m@),
    }
}

pub open spec fn snapshot_op_action_view<E>(a: SnapshotOpAction<E>) -> SnapshotOpActionView<E> {
    match a {
        SnapshotOpAction::WaitForBoot => SnapshotOpActionView::WaitForBoot,
        SnapshotOpAction::LoadVm => SnapshotOpActionView::LoadVm,
        SnapshotOpAction::Pause => SnapshotOpActionView::Pause,
        SnapshotOpAction::GetHostArchitecture => SnapshotOpActionView::GetHostArchitecture,
        SnapshotOpAction::MeasureSnapshotSizes => SnapshotOpActionView::MeasureSnapshotSizes,
        SnapshotOpAction::EnsureSpace { space_required_mib } => SnapshotOpActionView::EnsureSpace { space_required_mib },
        SnapshotOpAction::CreateSnapshot => SnapshotOpActionView::CreateSnapshot,
        SnapshotOpAction::Resume => SnapshotOpActionView::Resume,
        SnapshotOpAction::UploadSnapshot => SnapshotOpActionView::UploadSnapshot,
        SnapshotOpAction::InsertSnapshotRecord => SnapshotOpActionView::InsertSnapshotRecord,
        SnapshotOpAction::TearDown => SnapshotOpActionView::TearDown,
        SnapshotOpAction::Finish(Ok(())) => SnapshotOpActionView::Finish(Ok(())),
        SnapshotOpAction::Finish(Err(f)) => SnapshotOpActionView::Finish(Err(snapshot_op_failure_view(f))),
    }
}

/// What the snapshot is for.
#[derive(Clone, Copy, PartialEq, Eq, Structural, Debug)]
pub enum SnapshotPurpose {
    Sleep,
    /// A commit; the VM is resumed after the snapshot unless `keep_paused`.
    Commit { keep_paused: bool },
}

#[derive(Clone, Copy, PartialEq, Eq, Structural, Debug)]
pub enum SnapshotOpStage {
    AwaitingBoot,
    LoadingVm,
    Pausing,
    GettingArchitecture,
    Measuring,
    EnsuringSpace,
    Snapshotting,
    Resuming,
    Uploading,
    Recording,
    TearingDown,
    Finished,
}

/// Drives snapshotting the VM `vm_id` for `purpose`.
#[derive(Clone, Copy, PartialEq, Eq, Structural, Debug)]
pub struct VmSnapshotOp {
    pub stage: SnapshotOpStage,
    pub vm_id: u128,
    pub purpose: SnapshotPurpose,
}

/// The result of a teardown with these results, as the action reports it.
pub open spec fn teardown_result<E>(vm_id: u128, results: Seq<Option<Seq<char>>>) -> Result<(), SnapshotOpFailureView<E>> {
    if failures(results).len() == 0 {
        Ok(())
    } else {
        Err(SnapshotOpFailureView::Teardown(teardown_error_text(TeardownKind::Sleeping, vm_id, failures(results))))
    }
}

pub open spec fn snapshot_op_start<E>(vm_id: u128, purpose: SnapshotPurpose, booting: bool, wait_boot: bool) -> (
    VmSnapshotOp,
    SnapshotOpActionView<E>,
) {
    if booting && !wait_boot {
        (
            VmSnapshotOp { stage: SnapshotOpStage::Finished, vm_id, purpose },
            SnapshotOpActionView::Finish(Err(SnapshotOpFailureView::StillBooting)),
        )
    } else if booting {
        (VmSnapshotOp { stage: SnapshotOpStage::AwaitingBoot, vm_id, purpose }, SnapshotOpActionView::WaitForBoot)
    } else {
        (VmSnapshotOp { stage: SnapshotOpStage::LoadingVm, vm_id, purpose }, SnapshotOpActionView::LoadVm)
    }
}

pub open spec fn snapshot_op_next<E>(s: VmSnapshotOp, ev: SnapshotOpEvent<E>) -> (VmSnapshotOp, SnapshotOpActionView<E>) {
    let to = |stage: SnapshotOpStage| VmSnapshotOp { stage, ..s };
    match ev {
        SnapshotOpEvent::Failed(e) => if s.stage == SnapshotOpStage::Finished {
            (s, SnapshotOpActionView::Finish(Ok(())))
        } else {
            (to(SnapshotOpStage::Finished), SnapshotOpActionView::Finish(Err(SnapshotOpFailureView::Step(e))))
        },
        _ => match s.stage {
            SnapshotOpStage::AwaitingBoot => (to(SnapshotOpStage::LoadingVm), SnapshotOpActionView::LoadVm),
            SnapshotOpStage::LoadingVm => match ev {
                SnapshotOpEvent::VmLoaded { paused } => if paused {
                    (to(SnapshotOpStage::GettingArchitecture), SnapshotOpActionView::GetHostArchitecture)
                } else {
                    (to(SnapshotOpStage::Pausing), SnapshotOpActionView::Pause)
                },
                _ => (s, SnapshotOpActionView::LoadVm),
            },
            SnapshotOpStage::Pausing => (to(SnapshotOpStage::GettingArchitecture), SnapshotOpActionView::GetHostArchitecture),
            SnapshotOpStage::GettingArchitecture => (to(SnapshotOpStage::Measuring), SnapshotOpActionView::MeasureSnapshotSizes),
            SnapshotOpStage::Measuring => match ev {
                SnapshotOpEvent::SnapshotSizes { volume_mib, process_mib } => if volume_mib + process_mib
                    <= u32::MAX {
                    (
                        to(SnapshotOpStage::EnsuringSpace),
                        SnapshotOpActionView::EnsureSpace { space_required_mib: (volume_mib + process_mib) as u32 },
                    )
                } else {
                    (to(SnapshotOpStage::Finished), SnapshotOpActionView::Finish(Err(SnapshotOpFailureView::SizeOverflow)))
                },
                _ => (s, SnapshotOpActionView::MeasureSnapshotSizes),
            },
            SnapshotOpStage::EnsuringSpace => (to(SnapshotOpStage::Snapshotting), SnapshotOpActionView::CreateSnapshot),
            SnapshotOpStage::Snapshotting => if s.purpose == (SnapshotPurpose::Commit { keep_paused: false }) {
                (to(SnapshotOpStage::Resuming), SnapshotOpActionView::Resume)
            } else {
                (to(SnapshotOpStage::Uploading), SnapshotOpActionView::UploadSnapshot)
            },
            SnapshotOpStage::Resuming => (to(SnapshotOpStage::Uploading), SnapshotOpActionView::UploadSnapshot),
            SnapshotOpStage::Uploading => (to(SnapshotOpStage::Recording), SnapshotOpActionView::InsertSnapshotRecord),
            SnapshotOpStage::Recording => if s.purpose == SnapshotPurpose::Sleep {
                (to(SnapshotOpStage::TearingDown), SnapshotOpActionView::TearDown)
            } else {
                (to(SnapshotOpStage::Finished), SnapshotOpActionView::Finish(Ok(())))
            },
            SnapshotOpStage::TearingDown => match ev {
                SnapshotOpEvent::TornDown { results } => (
                    to(SnapshotOpStage::Finished),
                    SnapshotOpActionView::Finish(teardown_result(s.vm_id, results_view(results@))),
                ),
                _ => (s, SnapshotOpActionView::TearDown),
            },
            SnapshotOpStage::Finished => (s, SnapshotOpActionView::Finish(Ok(()))),
        },
    }
}

/// A sleeping VM's resources are released only once its snapshot is
/// recorded (a commit never releases them), a commit resumes the VM only
/// when not asked to keep it paused, and a failure of any step ends the
/// operation with that step's error, leaving the VM in place.
pub proof fn lemma_tears_down_only_after_record<E>(s: VmSnapshotOp, ev: SnapshotOpEvent<E>)
    requires
        s.stage != SnapshotOpStage::Finished,
        s.stage == SnapshotOpStage::TearingDown ==> s.purpose == SnapshotPurpose::Sleep,
    ensures
        ({
            let (t, a) = snapshot_op_next(s, ev);
            &&& a == SnapshotOpActionView::<E>::TearDown ==> s.purpose == SnapshotPurpose::Sleep && (s.stage
                == SnapshotOpStage::Recording || s.stage == SnapshotOpStage::TearingDown)
            &&& a == SnapshotOpActionView::<E>::Resume ==> s.purpose == (SnapshotPurpose::Commit {
                keep_paused: false,
            }) && s.stage == SnapshotOpStage::Snapshotting
            &&& ev matches SnapshotOpEvent::Failed(e) ==> a == SnapshotOpActionView::<E>::Finish(
                Err(SnapshotOpFailureView::Step(e)),
            ) && t.stage == SnapshotOpStage::Finished
        }),
{
}

/// The operation succeeds exactly when every part of the release succeeded;
/// otherwise it reports all failures in one message.
pub proof fn lemma_sleep_result_is_teardown_outcome<E>(s: VmSnapshotOp, results: Vec<Option<String>>)
    requires
        s.stage == SnapshotOpStage::TearingDown,
    ensures
        ({
            let (t, a) = snapshot_op_next(s, SnapshotOpEvent::<E>::TornDown { results });
            &&& t.stage == SnapshotOpStage::Finished
            &&& a == SnapshotOpActionView::<E>::Finish(Ok(())) <==> failures(results_view(results@)).len() == 0
        }),
{
}

/// The room asked for in the cache is the volume's snapshot size plus the
/// process's, and a sum that does not fit is refused rather than wrapped.
pub proof fn lemma_space_is_both_snapshots<E>(s: VmSnapshotOp, volume_mib: u32, process_mib: u32)
    requires
        s.stage == SnapshotOpStage::Measuring,
    ensures
        ({
            let a = snapshot_op_next(s, SnapshotOpEvent::<E>::SnapshotSizes { volume_mib, process_mib }).1;
            &&& volume_mib + process_mib <= u32::MAX ==> (a matches SnapshotOpActionView::EnsureSpace {
                space_required_mib,
            } && space_required_mib == volume_mib + process_mib)
            &&& volume_mib + process_mib > u32::MAX ==> a == SnapshotOpActionView::<E>::Finish(
                Err(SnapshotOpFailureView::SizeOverflow),
            )
        }),
{
}

impl VmSnapshotOp {
    /// Starts putting `vm_id` to sleep, given whether it is booting.
    pub fn start<E>(vm_id: u128, purpose: SnapshotPurpose, booting: bool, wait_boot: bool) -> (r: (
        Self,
        SnapshotOpAction<E>,
    ))
        ensures
            (r.0, snapshot_op_action_view(r.1)) == snapshot_op_start::<E>(vm_id, purpose, booting, wait_boot),
    {
        match boot_gate(booting, wait_boot) {
            BootGate::RefuseStillBooting => (
                VmSnapshotOp { stage: SnapshotOpStage::Finished, vm_id, purpose },
                SnapshotOpAction::Finish(Err(SnapshotOpFailure::StillBooting)),
            ),
            BootGate::WaitForBoot => (
                VmSnapshotOp { stage: SnapshotOpStage::AwaitingBoot, vm_id, purpose },
                SnapshotOpAction::WaitForBoot,
            ),
            BootGate::Proceed => (
                VmSnapshotOp { stage: SnapshotOpStage::LoadingVm, vm_id, purpose },
                SnapshotOpAction::LoadVm,
            ),
        }
    }

    pub fn is_finished(&self) -> (r: bool)
        ensures
            r == (self.stage == SnapshotOpStage::Finished),
    {
        self.stage == SnapshotOpStage::Finished
    }

    /// Takes the outcome of the last action and returns the next one.
    pub fn step<E>(&mut self, event: SnapshotOpEvent<E>) -> (r: SnapshotOpAction<E>)
        requires
            old(self).stage != SnapshotOpStage::Finished,
        ensures
            (*final(self), snapshot_op_action_view(r)) == snapshot_op_next(*old(self), event),
    {
        match event {
            SnapshotOpEvent::Failed(e) => {
                self.stage = SnapshotOpStage::Finished;
                return SnapshotOpAction::Finish(Err(SnapshotOpFailure::Step(e)));
            },
            _ => {},
        }
        match self.stage {
            SnapshotOpStage::AwaitingBoot => {
                self.stage = SnapshotOpStage::LoadingVm;
                SnapshotOpAction::LoadVm
            },
            SnapshotOpStage::LoadingVm => match event {
                SnapshotOpEvent::VmLoaded { paused } => if paused {
                    self.stage = SnapshotOpStage::GettingArchitecture;
                    SnapshotOpAction::GetHostArchitecture
                } else {
                    self.stage = SnapshotOpStage::Pausing;
                    SnapshotOpAction::Pause
                },
                _ => SnapshotOpAction::LoadVm,
            },
            SnapshotOpStage::Pausing => {
                self.stage = SnapshotOpStage::GettingArchitecture;
                SnapshotOpAction::GetHostArchitecture
            },
            SnapshotOpStage::GettingArchitecture => {
                self.stage = SnapshotOpStage::Measuring;
                SnapshotOpAction::MeasureSnapshotSizes
            },
            SnapshotOpStage::Measuring => match event {
                SnapshotOpEvent::SnapshotSizes { volume_mib, process_mib } => match volume_mib.checked_add(process_mib) {
                    Some(total) => {
                        self.stage = SnapshotOpStage::EnsuringSpace;
                        SnapshotOpAction::EnsureSpace { space_required_mib: total }
                    },
                    None => {
                        self.stage = SnapshotOpStage::Finished;
                        SnapshotOpAction::Finish(Err(SnapshotOpFailure::SizeOverflow))
                    },
                },
                _ => SnapshotOpAction::MeasureSnapshotSizes,
            },
            SnapshotOpStage::EnsuringSpace => {
                self.stage = SnapshotOpStage::Snapshotting;
                SnapshotOpAction::CreateSnapshot
            },
            SnapshotOpStage::Snapshotting => match self.purpose {
                SnapshotPurpose::Commit { keep_paused: false } => {
                    self.stage = SnapshotOpStage::Resuming;
                    SnapshotOpAction::Resume
                },
                _ => {
                    self.stage = SnapshotOpStage::Uploading;
                    SnapshotOpAction::UploadSnapshot
                },
            },
            SnapshotOpStage::Resuming => {
                self.stage = SnapshotOpStage::Uploading;
                SnapshotOpAction::UploadSnapshot
            },
            SnapshotOpStage::Uploading => {
                self.stage = SnapshotOpStage::Recording;
                SnapshotOpAction::InsertSnapshotRecord
            },
            SnapshotOpStage::Recording => match self.purpose {
                SnapshotPurpose::Sleep => {
                    self.stage = SnapshotOpStage::TearingDown;
                    SnapshotOpAction::TearDown
                },
                SnapshotPurpose::Commit { .. } => {
                    self.stage = SnapshotOpStage::Finished;
                    SnapshotOpAction::Finish(Ok(()))
                },
            },
            SnapshotOpStage::TearingDown => match event {
                SnapshotOpEvent::TornDown { results } => {
                    self.stage = SnapshotOpStage::Finished;
                    match teardown_outcome(TeardownKind::Sleeping, self.vm_id, results) {
                        Ok(()) => SnapshotOpAction::Finish(Ok(())),
                        Err(m) => SnapshotOpAction::Finish(Err(SnapshotOpFailure::Teardown(m))),
                    }
                },
                _ => SnapshotOpAction::TearDown,
            },
            SnapshotOpStage::Finished => SnapshotOpAction::Finish(Ok(())),
        }
    }
}

} // verus!
