//! Starting a new Cloud Hypervisor process for a VM: the decisions of the
//! operation, as a machine that the host drives.
//!
//! The jail root is created first and removed again when any later step
//! fails. The kernel file is checked before the process starts: an empty
//! kernel is refused. The VM is created with the devices that
//! `new_vm_devices` assembles from the process configuration.
use vstd::prelude::*;
use crate::cloud_hypervisor::{is_new_vm_devices, new_vm_devices, CloudHypervisorProcessConfig, NewVmDevices};
use crate::firecracker::string_of;

verus! {

/// Why starting the process failed.
pub enum SpawnFailure<E> {
    /// The kernel file is empty.
    EmptyKernel,
    Step(E),
}

pub enum SpawnEvent<E> {
    Succeeded,
    /// The kernel source file has this many bytes.
    KernelSize { bytes: u64 },
    Failed(E),
}

pub enum SpawnAction<E> {
    CreateJailRoot,
    /// Copy the drive's device node into the jail and hand it to the VM user.
    CopyDriveNode,
    CreateKernelDir,
    /// Read the size of the kernel source file.
    StatKernel,
    CopyKernel,
    CreateProcessLogs,
    /// Create the empty logger file inside the jail.
    TouchLoggerLog,
    StartProcess,
    CreateVm { devices: NewVmDevices },
    BootVm,
    RemoveJailRoot,
    Finish(Result<(), SpawnFailure<E>>),
}

pub enum SpawnActionView<E> {
    CreateJailRoot,
    CopyDriveNode,
    CreateKernelDir,
    StatKernel,
    CopyKernel,
    CreateProcessLogs,
    TouchLoggerLog,
    StartProcess,
    CreateVm,
    BootVm,
    RemoveJailRoot,
    Finish(Result<(), SpawnFailure<E>>),
}

/// The kind of an action; what `CreateVm` carries is stated apart.
pub open spec fn spawn_action_view<E>(a: SpawnAction<E>) -> SpawnActionView<E> {
    match a {
        SpawnAction::CreateJailRoot => SpawnActionView::CreateJailRoot,
        SpawnAction::CopyDriveNode => SpawnActionView::CopyDriveNode,
        SpawnAction::CreateKernelDir => SpawnActionView::CreateKernelDir,
        SpawnAction::StatKernel => SpawnActionView::StatKernel,
        SpawnAction::CopyKernel => SpawnActionView::CopyKernel,
        SpawnAction::CreateProcessLogs => SpawnActionView::CreateProcessLogs,
        SpawnAction::TouchLoggerLog => SpawnActionView::TouchLoggerLog,
        SpawnAction::StartProcess => SpawnActionView::StartProcess,
        SpawnAction::CreateVm { .. } => SpawnActionView::CreateVm,
        SpawnAction::BootVm => SpawnActionView::BootVm,
        SpawnAction::RemoveJailRoot => SpawnActionView::RemoveJailRoot,
        SpawnAction::Finish(r) => SpawnActionView::Finish(r),
    }
}

#[derive(Clone, Copy, PartialEq, Eq, Structural, Debug)]
pub enum SpawnStage {
    CreatingJailRoot,
    CopyingDrive,
    CreatingKernelDir,
    CheckingKernel,
    CopyingKernel,
    CreatingLogs,
    TouchingLoggerLog,
    StartingProcess,
    CreatingVm,
    BootingVm,
    /// A step failed; the jail root is being removed.
    RemovingJailRoot,
    Finished,
}

pub struct ChSpawn<E> {
    stage: SpawnStage,
    config: CloudHypervisorProcessConfig,
    vm_root_drive_path: String,
    kernel_checked: bool,
    pending: Option<SpawnFailure<E>>,
}

pub struct ChSpawnView<E> {
    pub stage: SpawnStage,
    pub config: CloudHypervisorProcessConfig,
    pub vm_root_drive_path: Seq<char>,
    /// Whether the kernel was found to be non-empty.
    pub kernel_checked: bool,
    pub pending: Option<SpawnFailure<E>>,
}

impl<E> View for ChSpawn<E> {
    type V = ChSpawnView<E>;

    closed spec fn view(&self) -> ChSpawnView<E> {
        ChSpawnView {
            stage: self.stage,
            config: self.config,
            vm_root_drive_path: self.vm_root_drive_path@,
            kernel_checked: self.kernel_checked,
            pending: self.pending,
        }
    }
}

pub open spec fn spawn_at<E>(s: ChSpawnView<E>, stage: SpawnStage) -> ChSpawnView<E> {
    ChSpawnView { stage, pending: None, ..s }
}

pub open spec fn spawn_fail<E>(s: ChSpawnView<E>, f: SpawnFailure<E>) -> (ChSpawnView<E>, SpawnActionView<E>) {
    (ChSpawnView { stage: SpawnStage::RemovingJailRoot, pending: Some(f), ..s }, SpawnActionView::RemoveJailRoot)
}

/// A step that only moves on when it succeeds.
pub open spec fn spawn_advance<E>(s: ChSpawnView<E>, ev: SpawnEvent<E>, stage: SpawnStage, a: SpawnActionView<E>) -> (
    ChSpawnView<E>,
    SpawnActionView<E>,
) {
    match ev {
        SpawnEvent::Failed(e) => spawn_fail(s, SpawnFailure::Step(e)),
        _ => (spawn_at(s, stage), a),
    }
}

pub open spec fn spawn_next<E>(s: ChSpawnView<E>, ev: SpawnEvent<E>) -> (ChSpawnView<E>, SpawnActionView<E>) {
    match s.stage {
        SpawnStage::CreatingJailRoot => match ev {
            SpawnEvent::Failed(e) => (
                spawn_at(s, SpawnStage::Finished),
                SpawnActionView::Finish(Err(SpawnFailure::Step(e))),
            ),
            _ => (spawn_at(s, SpawnStage::CopyingDrive), SpawnActionView::CopyDriveNode),
        },
        SpawnStage::CopyingDrive => spawn_advance(
            s,
            ev,
            SpawnStage::CreatingKernelDir,
            SpawnActionView::CreateKernelDir,
        ),
        SpawnStage::CreatingKernelDir => spawn_advance(s, ev, SpawnStage::CheckingKernel, SpawnActionView::StatKernel),
        SpawnStage::CheckingKernel => match ev {
            SpawnEvent::Failed(e) => spawn_fail(s, SpawnFailure::Step(e)),
            SpawnEvent::KernelSize { bytes } => if bytes == 0 {
                spawn_fail(s, SpawnFailure::EmptyKernel)
            } else {
                (
                    ChSpawnView { stage: SpawnStage::CopyingKernel, kernel_checked: true, pending: None, ..s },
                    SpawnActionView::CopyKernel,
                )
            },
            SpawnEvent::Succeeded => (s, SpawnActionView::StatKernel),
        },
        SpawnStage::CopyingKernel => spawn_advance(s, ev, SpawnStage::CreatingLogs, SpawnActionView::CreateProcessLogs),
        SpawnStage::CreatingLogs => spawn_advance(
            s,
            ev,
            SpawnStage::TouchingLoggerLog,
            SpawnActionView::TouchLoggerLog,
        ),
        SpawnStage::TouchingLoggerLog => spawn_advance(
            s,
            ev,
            SpawnStage::StartingProcess,
            SpawnActionView::StartProcess,
        ),
        SpawnStage::StartingProcess => spawn_advance(s, ev, SpawnStage::CreatingVm, SpawnActionView::CreateVm),
        SpawnStage::CreatingVm => spawn_advance(s, ev, SpawnStage::BootingVm, SpawnActionView::BootVm),
        SpawnStage::BootingVm => match ev {
            SpawnEvent::Failed(e) => spawn_fail(s, SpawnFailure::Step(e)),
            _ => (spawn_at(s, SpawnStage::Finished), SpawnActionView::Finish(Ok(()))),
        },
        SpawnStage::RemovingJailRoot => match s.pending {
            Some(f) => (spawn_at(s, SpawnStage::Finished), SpawnActionView::Finish(Err(f))),
            None => (spawn_at(s, SpawnStage::Finished), SpawnActionView::Finish(Ok(()))),
        },
        SpawnStage::Finished => (s, SpawnActionView::Finish(Ok(()))),
    }
}

/// The process is started only once the kernel was found non-empty: no
/// transition asks for the start before that, and the only transition that
/// records it is a non-zero kernel size.
pub proof fn lemma_process_starts_after_kernel_check<E>(s: ChSpawnView<E>, ev: SpawnEvent<E>)
    requires
        s.stage == SpawnStage::CopyingKernel || s.stage == SpawnStage::CreatingLogs || s.stage
            == SpawnStage::TouchingLoggerLog ==> s.kernel_checked,
    ensures
        ({
            let (t, a) = spawn_next(s, ev);
            &&& a == SpawnActionView::<E>::StartProcess ==> s.kernel_checked
            &&& t.kernel_checked ==> s.kernel_checked || (s.stage == SpawnStage::CheckingKernel
                && (ev matches SpawnEvent::KernelSize { bytes } && bytes > 0))
        }),
{
}

/// An empty kernel file removes the jail root and reports the empty kernel;
/// the process is never started.
pub proof fn lemma_empty_kernel_refused<E>(s: ChSpawnView<E>, o: SpawnEvent<E>)
    requires
        s.stage == SpawnStage::CheckingKernel,
    ensures
        ({
            let (t, a) = spawn_next(s, SpawnEvent::KernelSize { bytes: 0 });
            let (u, b) = spawn_next(t, o);
            &&& a == SpawnActionView::<E>::RemoveJailRoot
            &&& b == SpawnActionView::<E>::Finish(Err(SpawnFailure::EmptyKernel))
            &&& u.stage == SpawnStage::Finished
        }),
{
}

/// Once the jail root exists, a failure of any step removes it before the
/// failure is reported, whatever the removal's outcome.
pub proof fn lemma_failure_removes_jail_root<E>(s: ChSpawnView<E>, e: E, o: SpawnEvent<E>)
    requires
        s.stage != SpawnStage::CreatingJailRoot,
        s.stage != SpawnStage::RemovingJailRoot,
        s.stage != SpawnStage::Finished,
    ensures
        ({
            let (t, a) = spawn_next(s, SpawnEvent::Failed(e));
            &&& a == SpawnActionView::<E>::RemoveJailRoot
            &&& spawn_next(t, o).1 == SpawnActionView::<E>::Finish(Err(SpawnFailure::Step(e)))
        }),
{
}

impl<E> ChSpawn<E> {
    /// Starts spawning the process of `config`, whose root drive lives at
    /// `vm_root_drive_path` inside the jail.
    pub fn start(config: CloudHypervisorProcessConfig, vm_root_drive_path: &str) -> (r: (Self, SpawnAction<E>))
        ensures
            r.0@ == (ChSpawnView::<E> {
                stage: SpawnStage::CreatingJailRoot,
                config,
                vm_root_drive_path: vm_root_drive_path@,
                kernel_checked: false,
                pending: None,
            }),
            spawn_action_view(r.1) == SpawnActionView::<E>::CreateJailRoot,
    {
        (
            ChSpawn {
                stage: SpawnStage::CreatingJailRoot,
                config,
                vm_root_drive_path: string_of(vm_root_drive_path),
                kernel_checked: false,
                pending: None,
            },
            SpawnAction::CreateJailRoot,
        )
    }

    pub fn is_finished(&self) -> (r: bool)
        ensures
            r == (self@.stage == SpawnStage::Finished),
    {
        self.stage == SpawnStage::Finished
    }

    fn set_stage(&mut self, stage: SpawnStage)
        ensures
            final(self)@ == spawn_at(old(self)@, stage),
    {
        self.stage = stage;
        self.pending = None;
    }

    fn fail(&mut self, f: SpawnFailure<E>) -> (r: SpawnAction<E>)
        ensures
            (final(self)@, spawn_action_view(r)) == spawn_fail(old(self)@, f),
    {
        self.stage = SpawnStage::RemovingJailRoot;
        self.pending = Some(f);
        SpawnAction::RemoveJailRoot
    }

    fn advance(&mut self, ev: SpawnEvent<E>, stage: SpawnStage, a: SpawnAction<E>) -> (r: SpawnAction<E>)
        ensures
            (final(self)@, spawn_action_view(r)) == spawn_advance(old(self)@, ev, stage, spawn_action_view(a)),
            r == a || r is RemoveJailRoot,
    {
        match ev {
            SpawnEvent::Failed(e) => self.fail(SpawnFailure::Step(e)),
            _ => {
                self.set_stage(stage);
                a
            },
        }
    }

    /// Takes the outcome of the last action and returns the next one. The
    /// VM is created with the devices assembled from the configuration.
    pub fn step(&mut self, event: SpawnEvent<E>) -> (r: SpawnAction<E>)
        requires
            old(self)@.stage != SpawnStage::Finished,
        ensures
            (final(self)@, spawn_action_view(r)) == spawn_next(old(self)@, event),
            r matches SpawnAction::CreateVm { devices } ==> is_new_vm_devices(
                old(self)@.config,
                old(self)@.vm_root_drive_path,
                devices,
            ),
    {
        match self.stage {
            SpawnStage::CreatingJailRoot => match event {
                SpawnEvent::Failed(e) => {
                    self.set_stage(SpawnStage::Finished);
                    SpawnAction::Finish(Err(SpawnFailure::Step(e)))
                },
                _ => {
                    self.set_stage(SpawnStage::CopyingDrive);
                    SpawnAction::CopyDriveNode
                },
            },
            SpawnStage::CopyingDrive => self.advance(event, SpawnStage::CreatingKernelDir, SpawnAction::CreateKernelDir),
            SpawnStage::CreatingKernelDir => self.advance(event, SpawnStage::CheckingKernel, SpawnAction::StatKernel),
            SpawnStage::CheckingKernel => match event {
                SpawnEvent::Failed(e) => self.fail(SpawnFailure::Step(e)),
                SpawnEvent::KernelSize { bytes } => if bytes == 0 {
                    self.fail(SpawnFailure::EmptyKernel)
                } else {
                    self.set_stage(SpawnStage::CopyingKernel);
                    self.kernel_checked = true;
                    SpawnAction::CopyKernel
                },
                SpawnEvent::Succeeded => SpawnAction::StatKernel,
            },
            SpawnStage::CopyingKernel => self.advance(event, SpawnStage::CreatingLogs, SpawnAction::CreateProcessLogs),
            SpawnStage::CreatingLogs => self.advance(event, SpawnStage::TouchingLoggerLog, SpawnAction::TouchLoggerLog),
            SpawnStage::TouchingLoggerLog => self.advance(event, SpawnStage::StartingProcess, SpawnAction::StartProcess),
            SpawnStage::StartingProcess => {
                let devices = new_vm_devices(&self.config, self.vm_root_drive_path.as_str());
                self.advance(event, SpawnStage::CreatingVm, SpawnAction::CreateVm { devices })
            },
            SpawnStage::CreatingVm => self.advance(event, SpawnStage::BootingVm, SpawnAction::BootVm),
            SpawnStage::BootingVm => match event {
                SpawnEvent::Failed(e) => self.fail(SpawnFailure::Step(e)),
                _ => {
                    self.set_stage(SpawnStage::Finished);
                    SpawnAction::Finish(Ok(()))
                },
            },
            SpawnStage::RemovingJailRoot => {
                let pending = self.pending.take();
                self.stage = SpawnStage::Finished;
                match pending {
                    Some(f) => SpawnAction::Finish(Err(f)),
                    None => SpawnAction::Finish(Ok(())),
                }
            },
            SpawnStage::Finished => SpawnAction::Finish(Ok(())),
        }
    }
}

} // verus!
