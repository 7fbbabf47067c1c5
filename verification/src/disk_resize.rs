//! Growing a VM's disk: the decisions of the operation, as a machine that
//! the host drives.
//!
//! The size checks (hard maximum, strictly growing) are made before the VM
//! is touched. A VM that the operation paused is resumed when a later step
//! fails, and the step's error is reported after that. Once the block device,
//! the hypervisor and the stored size agree, the guest filesystem is grown;
//! how that goes does not change the result.
use vstd::prelude::*;
use crate::vm_manager::{boot_gate, check_disk_resize, BootGate, DiskResizeError, VmAllocationError, VmAllocationType};

verus! {

/// Why a resize failed.
pub enum ResizeFailure<E> {
    /// The VM is still booting and the caller did not ask to wait.
    StillBooting,
    /// The requested size was refused before the VM was touched.
    Refused(DiskResizeError),
    /// A host step failed with this error.
    Step(E),
}

/// What the host reports after an action.
pub enum ResizeEvent<E> {
    Succeeded,
    /// The VM record was loaded: its current disk size and whether its
    /// process is paused.
    VmLoaded { current_fs_size_mib: u32, paused: bool },
    Failed(E),
}

pub enum ResizeAction<E> {
    WaitForBoot,
    /// Take the VM's lock and load its record.
    LoadVm,
    Pause,
    /// Grow the block device only.
    ResizeDevice,
    /// Tell the hypervisor that the root drive changed size.
    UpdateDrive,
    UpdateStoredSize,
    Resume,
    /// Grow the guest filesystem once the guest sees this many bytes.
    GrowGuestFilesystem { expected_bytes: u64 },
    Finish(Result<(), ResizeFailure<E>>),
}

#[derive(Clone, Copy, PartialEq, Eq, Structural, Debug)]
pub enum ResizeStage {
    AwaitingBoot,
    LoadingVm,
    Pausing,
    ResizingDevice,
    UpdatingDrive,
    UpdatingStore,
    Resuming,
    /// A step failed after the pause; the VM is being resumed.
    ResumingAfterFailure,
    GrowingFilesystem,
    Finished,
}

pub struct DiskResize<E> {
    stage: ResizeStage,
    new_fs_size_mib: u32,
    max_volume_mib: u32,
    was_running: bool,
    error: Option<E>,
}

pub struct DiskResizeView<E> {
    pub stage: ResizeStage,
    pub new_fs_size_mib: u32,
    pub max_volume_mib: u32,
    /// Whether the operation paused the VM (it was running when loaded).
    pub was_running: bool,
    pub error: Option<E>,
}

impl<E> View for DiskResize<E> {
    type V = DiskResizeView<E>;

    closed spec fn view(&self) -> DiskResizeView<E> {
        DiskResizeView {
            stage: self.stage,
            new_fs_size_mib: self.new_fs_size_mib,
            max_volume_mib: self.max_volume_mib,
            was_running: self.was_running,
            error: self.error,
        }
    }
}

pub open spec fn with_stage<E>(s: DiskResizeView<E>, stage: ResizeStage) -> DiskResizeView<E> {
    DiskResizeView { stage, error: None, ..s }
}

pub open spec fn expected_bytes(new_fs_size_mib: u32) -> int {
    new_fs_size_mib as int * 1024 * 1024
}

/// What the size check refuses, as `check_disk_resize` reports it.
pub open spec fn refusal(new_fs_size_mib: u32, current_fs_size_mib: u32, max_volume_mib: u32) -> Option<
    DiskResizeError,
> {
    if new_fs_size_mib > max_volume_mib {
        Some(
            DiskResizeError::Allocation(
                VmAllocationError::HardMaximumViolation {
                    ty: VmAllocationType::Volume,
                    requested: new_fs_size_mib,
                    max: max_volume_mib,
                },
            ),
        )
    } else if new_fs_size_mib <= current_fs_size_mib {
        Some(DiskResizeError::NotGrowing { requested: new_fs_size_mib, current: current_fs_size_mib })
    } else {
        None
    }
}

/// The state and first action of a resize to `new_fs_size_mib`.
pub open spec fn resize_start<E>(
    new_fs_size_mib: u32,
    max_volume_mib: u32,
    booting: bool,
    wait_boot: bool,
) -> (DiskResizeView<E>, ResizeAction<E>) {
    let s = DiskResizeView {
        stage: ResizeStage::Finished,
        new_fs_size_mib,
        max_volume_mib,
        was_running: false,
        error: None,
    };
    if booting && !wait_boot {
        (s, ResizeAction::Finish(Err(ResizeFailure::StillBooting)))
    } else if booting {
        (with_stage(s, ResizeStage::AwaitingBoot), ResizeAction::WaitForBoot)
    } else {
        (with_stage(s, ResizeStage::LoadingVm), ResizeAction::LoadVm)
    }
}

/// After a failed step: resume the VM if the operation paused it, then
/// report the error.
pub open spec fn fail_after_pause<E>(s: DiskResizeView<E>, e: E) -> (DiskResizeView<E>, ResizeAction<E>) {
    if s.was_running {
        (
            DiskResizeView { stage: ResizeStage::ResumingAfterFailure, error: Some(e), ..s },
            ResizeAction::Resume,
        )
    } else {
        (with_stage(s, ResizeStage::Finished), ResizeAction::Finish(Err(ResizeFailure::Step(e))))
    }
}

pub open spec fn resize_next<E>(s: DiskResizeView<E>, ev: ResizeEvent<E>) -> (
    DiskResizeView<E>,
    ResizeAction<E>,
) {
    let finished = with_stage(s, ResizeStage::Finished);
    match s.stage {
        ResizeStage::AwaitingBoot => match ev {
            ResizeEvent::Failed(e) => (finished, ResizeAction::Finish(Err(ResizeFailure::Step(e)))),
            _ => (with_stage(s, ResizeStage::LoadingVm), ResizeAction::LoadVm),
        },
        ResizeStage::LoadingVm => match ev {
            ResizeEvent::Failed(e) => (finished, ResizeAction::Finish(Err(ResizeFailure::Step(e)))),
            ResizeEvent::Succeeded => (s, ResizeAction::LoadVm),
            ResizeEvent::VmLoaded { current_fs_size_mib, paused } => {
                match refusal(s.new_fs_size_mib, current_fs_size_mib, s.max_volume_mib) {
                    Some(r) => (finished, ResizeAction::Finish(Err(ResizeFailure::Refused(r)))),
                    None => if paused {
                        (
                            DiskResizeView { stage: ResizeStage::ResizingDevice, was_running: false, error: None, ..s },
                            ResizeAction::ResizeDevice,
                        )
                    } else {
                        (
                            DiskResizeView { stage: ResizeStage::Pausing, was_running: true, error: None, ..s },
                            ResizeAction::Pause,
                        )
                    },
                }
            },
        },
        ResizeStage::Pausing => match ev {
            ResizeEvent::Failed(e) => (finished, ResizeAction::Finish(Err(ResizeFailure::Step(e)))),
            _ => (with_stage(s, ResizeStage::ResizingDevice), ResizeAction::ResizeDevice),
        },
        ResizeStage::ResizingDevice => match ev {
            ResizeEvent::Failed(e) => fail_after_pause(s, e),
            _ => (with_stage(s, ResizeStage::UpdatingDrive), ResizeAction::UpdateDrive),
        },
        ResizeStage::UpdatingDrive => match ev {
            ResizeEvent::Failed(e) => fail_after_pause(s, e),
            _ => (with_stage(s, ResizeStage::UpdatingStore), ResizeAction::UpdateStoredSize),
        },
        ResizeStage::UpdatingStore => match ev {
            ResizeEvent::Failed(e) => fail_after_pause(s, e),
            _ => if s.was_running {
                (with_stage(s, ResizeStage::Resuming), ResizeAction::Resume)
            } else {
                (
                    with_stage(s, ResizeStage::GrowingFilesystem),
                    ResizeAction::GrowGuestFilesystem {
                        expected_bytes: expected_bytes(s.new_fs_size_mib) as u64,
                    },
                )
            },
        },
        ResizeStage::Resuming => match ev {
            ResizeEvent::Failed(e) => (finished, ResizeAction::Finish(Err(ResizeFailure::Step(e)))),
            _ => (
                with_stage(s, ResizeStage::GrowingFilesystem),
                ResizeAction::GrowGuestFilesystem { expected_bytes: expected_bytes(s.new_fs_size_mib) as u64 },
            ),
        },
        ResizeStage::ResumingAfterFailure => match s.error {
            Some(e) => (finished, ResizeAction::Finish(Err(ResizeFailure::Step(e)))),
            None => (finished, ResizeAction::Finish(Ok(()))),
        },
        ResizeStage::GrowingFilesystem => (finished, ResizeAction::Finish(Ok(()))),
        ResizeStage::Finished => (s, ResizeAction::Finish(Ok(()))),
    }
}

/// The size checks come before the VM is touched: a refused size finishes
/// the operation with that refusal, and the VM is only paused (or its
/// device grown) when the new size is above the current one and within the
/// maximum.
pub proof fn lemma_resize_checks_before_pause<E>(s: DiskResizeView<E>, current_fs_size_mib: u32, paused: bool)
    requires
        s.stage == ResizeStage::LoadingVm,
    ensures
        ({
            let (t, a) = resize_next(s, ResizeEvent::VmLoaded { current_fs_size_mib, paused });
            &&& !(current_fs_size_mib < s.new_fs_size_mib <= s.max_volume_mib) ==> a == ResizeAction::<E>::Finish(
                Err(ResizeFailure::Refused(refusal(s.new_fs_size_mib, current_fs_size_mib, s.max_volume_mib)->0)),
            )
            &&& (a is Pause || a is ResizeDevice) <==> current_fs_size_mib < s.new_fs_size_mib <= s.max_volume_mib
            &&& a is Pause <==> (current_fs_size_mib < s.new_fs_size_mib <= s.max_volume_mib && !paused)
        }),
{
}

/// Once the operation paused the VM, a failure of any later step resumes
/// it before the step's error is reported, whatever the resume's outcome;
/// a VM that was already paused is left paused.
pub proof fn lemma_paused_vm_resumed_on_failure<E>(s: DiskResizeView<E>, e: E, o: ResizeEvent<E>)
    requires
        s.stage == ResizeStage::ResizingDevice || s.stage == ResizeStage::UpdatingDrive || s.stage
            == ResizeStage::UpdatingStore,
    ensures
        ({
            let (t, a) = resize_next(s, ResizeEvent::Failed(e));
            let (u, b) = resize_next(t, o);
            &&& s.was_running ==> a == ResizeAction::<E>::Resume && t.stage != ResizeStage::Finished && b
                == ResizeAction::<E>::Finish(Err(ResizeFailure::Step(e))) && u.stage == ResizeStage::Finished
            &&& !s.was_running ==> a == ResizeAction::<E>::Finish(Err(ResizeFailure::Step(e))) && t.stage
                == ResizeStage::Finished
        }),
{
}

/// On success, a VM the resize paused is resumed once its stored size is
/// updated and before the guest filesystem grows; a VM that was already
/// paused is not resumed. The guest is asked to grow to the new size in
/// bytes.
pub proof fn lemma_resized_vm_resumed_then_grown<E>(s: DiskResizeView<E>, o: ResizeEvent<E>)
    requires
        s.stage == ResizeStage::UpdatingStore,
    ensures
        ({
            let (t, a) = resize_next(s, ResizeEvent::<E>::Succeeded);
            let grow = ResizeAction::<E>::GrowGuestFilesystem {
                expected_bytes: (s.new_fs_size_mib as int * 1048576) as u64,
            };
            &&& s.was_running ==> a == ResizeAction::<E>::Resume && (!(o is Failed) ==> resize_next(t, o).1 == grow)
            &&& !s.was_running ==> a == grow
        }),
{
}

impl<E> DiskResize<E> {
    #[verifier::type_invariant]
    spec fn well_formed(self) -> bool {
        (self.stage == ResizeStage::ResumingAfterFailure) == (self.error is Some)
    }

    fn at(&self, stage: ResizeStage) -> (r: Self)
        requires
            stage != ResizeStage::ResumingAfterFailure,
        ensures
            r@ == with_stage(self@, stage),
    {
        DiskResize {
            stage,
            new_fs_size_mib: self.new_fs_size_mib,
            max_volume_mib: self.max_volume_mib,
            was_running: self.was_running,
            error: None,
        }
    }

    /// Starts a resize to `new_fs_size_mib`, given whether the VM is booting.
    pub fn start(new_fs_size_mib: u32, max_volume_mib: u32, booting: bool, wait_boot: bool) -> (r: (
        Self,
        ResizeAction<E>,
    ))
        ensures
            (r.0@, r.1) == resize_start::<E>(new_fs_size_mib, max_volume_mib, booting, wait_boot),
    {
        let (stage, a) = match boot_gate(booting, wait_boot) {
            BootGate::RefuseStillBooting => (
                ResizeStage::Finished,
                ResizeAction::Finish(Err(ResizeFailure::StillBooting)),
            ),
            BootGate::WaitForBoot => (ResizeStage::AwaitingBoot, ResizeAction::WaitForBoot),
            BootGate::Proceed => (ResizeStage::LoadingVm, ResizeAction::LoadVm),
        };
        let m = DiskResize { stage, new_fs_size_mib, max_volume_mib, was_running: false, error: None };
        (m, a)
    }

    pub fn is_finished(&self) -> (r: bool)
        ensures
            r == (self@.stage == ResizeStage::Finished),
    {
        self.stage == ResizeStage::Finished
    }

    fn grow_action(&self) -> (r: ResizeAction<E>)
        ensures
            r == (ResizeAction::<E>::GrowGuestFilesystem {
                expected_bytes: expected_bytes(self.new_fs_size_mib) as u64,
            }),
    {
        assert(self.new_fs_size_mib as u64 * 1024 * 1024 <= u64::MAX) by (nonlinear_arith)
            requires
                self.new_fs_size_mib <= u32::MAX,
        ;
        let bytes = (self.new_fs_size_mib as u64) * 1024 * 1024;
        ResizeAction::GrowGuestFilesystem { expected_bytes: bytes }
    }

    fn failed_after_pause(&self, e: E) -> (r: (Self, ResizeAction<E>))
        ensures
            (r.0@, r.1) == fail_after_pause(self@, e),
    {
        if self.was_running {
            (
                DiskResize {
                    stage: ResizeStage::ResumingAfterFailure,
                    new_fs_size_mib: self.new_fs_size_mib,
                    max_volume_mib: self.max_volume_mib,
                    was_running: self.was_running,
                    error: Some(e),
                },
                ResizeAction::Resume,
            )
        } else {
            (self.at(ResizeStage::Finished), ResizeAction::Finish(Err(ResizeFailure::Step(e))))
        }
    }

    /// Takes the outcome of the last action and returns the next one.
    pub fn step(&mut self, event: ResizeEvent<E>) -> (r: ResizeAction<E>)
        requires
            old(self)@.stage != ResizeStage::Finished,
        ensures
            (final(self)@, r) == resize_next(old(self)@, event),
    {
        let mut cur = DiskResize {
            stage: ResizeStage::Finished,
            new_fs_size_mib: 0,
            max_volume_mib: 0,
            was_running: false,
            error: None,
        };
        std::mem::swap(&mut cur, self);
        proof {
            use_type_invariant(&cur);
        }
        let (next, action) = match cur.stage {
            ResizeStage::AwaitingBoot => match event {
                ResizeEvent::Failed(e) => (cur.at(ResizeStage::Finished), ResizeAction::Finish(Err(ResizeFailure::Step(e)))),
                _ => (cur.at(ResizeStage::LoadingVm), ResizeAction::LoadVm),
            },
            ResizeStage::LoadingVm => match event {
                ResizeEvent::Failed(e) => (cur.at(ResizeStage::Finished), ResizeAction::Finish(Err(ResizeFailure::Step(e)))),
                ResizeEvent::Succeeded => (cur.at(ResizeStage::LoadingVm), ResizeAction::LoadVm),
                ResizeEvent::VmLoaded { current_fs_size_mib, paused } => {
                    match check_disk_resize(cur.new_fs_size_mib, current_fs_size_mib, cur.max_volume_mib) {
                        Err(r) => (cur.at(ResizeStage::Finished), ResizeAction::Finish(Err(ResizeFailure::Refused(r)))),
                        Ok(()) => {
                            let stage = if paused { ResizeStage::ResizingDevice } else { ResizeStage::Pausing };
                            let m = DiskResize {
                                stage,
                                new_fs_size_mib: cur.new_fs_size_mib,
                                max_volume_mib: cur.max_volume_mib,
                                was_running: !paused,
                                error: None,
                            };
                            if paused {
                                (m, ResizeAction::ResizeDevice)
                            } else {
                                (m, ResizeAction::Pause)
                            }
                        },
                    }
                },
            },
            ResizeStage::Pausing => match event {
                ResizeEvent::Failed(e) => (cur.at(ResizeStage::Finished), ResizeAction::Finish(Err(ResizeFailure::Step(e)))),
                _ => (cur.at(ResizeStage::ResizingDevice), ResizeAction::ResizeDevice),
            },
            ResizeStage::ResizingDevice => match event {
                ResizeEvent::Failed(e) => cur.failed_after_pause(e),
                _ => (cur.at(ResizeStage::UpdatingDrive), ResizeAction::UpdateDrive),
            },
            ResizeStage::UpdatingDrive => match event {
                ResizeEvent::Failed(e) => cur.failed_after_pause(e),
                _ => (cur.at(ResizeStage::UpdatingStore), ResizeAction::UpdateStoredSize),
            },
            ResizeStage::UpdatingStore => match event {
                ResizeEvent::Failed(e) => cur.failed_after_pause(e),
                _ => if cur.was_running {
                    (cur.at(ResizeStage::Resuming), ResizeAction::Resume)
                } else {
                    let a = cur.grow_action();
                    (cur.at(ResizeStage::GrowingFilesystem), a)
                },
            },
            ResizeStage::Resuming => match event {
                ResizeEvent::Failed(e) => (cur.at(ResizeStage::Finished), ResizeAction::Finish(Err(ResizeFailure::Step(e)))),
                _ => {
                    let a = cur.grow_action();
                    (cur.at(ResizeStage::GrowingFilesystem), a)
                },
            },
            ResizeStage::ResumingAfterFailure => {
                let m = cur.at(ResizeStage::Finished);
                match cur.error {
                    Some(e) => (m, ResizeAction::Finish(Err(ResizeFailure::Step(e)))),
                    None => (m, ResizeAction::Finish(Ok(()))),
                }
            },
            ResizeStage::GrowingFilesystem => (cur.at(ResizeStage::Finished), ResizeAction::Finish(Ok(()))),
            ResizeStage::Finished => {
                proof {
                    assert(false);
                }
                (cur.at(ResizeStage::Finished), ResizeAction::Finish(Ok(())))
            },
        };
        *self = next;
        action
    }
}

} // verus!
