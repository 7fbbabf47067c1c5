//! Starting a new Firecracker process for a VM: the decisions of the
//! operation, as a machine that the host drives.
//!
//! The jail root is removed again when any step fails. A missing kernel is
//! refused before anything is copied into the jail or the process starts.
//! The five API configuration calls are made together; if any of them
//! fails, the instance is not started and every failure is reported.
use vstd::prelude::*;
use crate::firecracker::{host_path, PathBufJailer, string_of};
use crate::teardown::{failures, join_failures, joined, results_view};
use crate::text::{push_str, string_from_chars};

verus! {

pub enum FcSpawnFailure<E> {
    /// No kernel file at this path (the message says so).
    NoKernel(String),
    /// One or more configuration calls failed (the message names them all).
    Configuration(String),
    Step(E),
}

pub enum FcSpawnFailureView<E> {
    NoKernel(Seq<char>),
    Configuration(Seq<char>),
    Step(E),
}

pub open spec fn fc_failure_view<E>(f: FcSpawnFailure<E>) -> FcSpawnFailureView<E> {
    match f {
        FcSpawnFailure::NoKernel(m) => FcSpawnFailureView::NoKernel(m@),
        FcSpawnFailure::Configuration(m) => FcSpawnFailureView::Configuration(m@),
        FcSpawnFailure::Step(e) => FcSpawnFailureView::Step(e),
    }
}

pub enum FcSpawnEvent<E> {
    Succeeded,
    /// Whether the kernel file exists.
    KernelChecked { exists: bool },
    /// The results of the five configuration calls (boot source, drive,
    /// machine, network, vsock): the error text of each that failed.
    Configured { results: Vec<Option<String>> },
    Failed(E),
}

pub enum FcSpawnAction<E> {
    CopyDriveNode,
    /// Check that the kernel file exists at this host path.
    CheckKernel { path: String },
    /// Copy the kernel into the jail (creating the directory), and hand it
    /// to the VM user.
    CopyKernel { from: String, to: String },
    CreateVsockDir,
    CreateProcessLogs,
    StartProcess,
    /// Make the five configuration calls together.
    Configure,
    StartInstance,
    RemoveJailRoot,
    Finish(Result<(), FcSpawnFailure<E>>),
}

pub enum FcSpawnActionView<E> {
    CopyDriveNode,
    CheckKernel(Seq<char>),
    CopyKernel(Seq<char>, Seq<char>),
    CreateVsockDir,
    CreateProcessLogs,
    StartProcess,
    Configure,
    StartInstance,
    RemoveJailRoot,
    Finish(Result<(), FcSpawnFailureView<E>>),
}

pub open spec fn fc_action_view<E>(a: FcSpawnAction<E>) -> FcSpawnActionView<E> {
    match a {
        FcSpawnAction::CopyDriveNode => FcSpawnActionView::CopyDriveNode,
        FcSpawnAction::CheckKernel { path } => FcSpawnActionView::CheckKernel(path@),
        FcSpawnAction::CopyKernel { from, to } => FcSpawnActionView::CopyKernel(from@, to@),
        FcSpawnAction::CreateVsockDir => FcSpawnActionView::CreateVsockDir,
        FcSpawnAction::CreateProcessLogs => FcSpawnActionView::CreateProcessLogs,
        FcSpawnAction::StartProcess => FcSpawnActionView::StartProcess,
        FcSpawnAction::Configure => FcSpawnActionView::Configure,
        FcSpawnAction::StartInstance => FcSpawnActionView::StartInstance,
        FcSpawnAction::RemoveJailRoot => FcSpawnActionView::RemoveJailRoot,
        FcSpawnAction::Finish(Ok(())) => FcSpawnActionView::Finish(Ok(())),
        FcSpawnAction::Finish(Err(f)) => FcSpawnActionView::Finish(Err(fc_failure_view(f))),
    }
}

#[derive(Clone, Copy, PartialEq, Eq, Structural, Debug)]
pub enum FcSpawnStage {
    CopyingDrive,
    CheckingKernel,
    CopyingKernel,
    CreatingVsockDir,
    CreatingLogs,
    StartingProcess,
    Configuring,
    StartingInstance,
    /// A step failed; the jail root is being removed.
    RemovingJailRoot,
    Finished,
}

pub struct FcSpawn<E> {
    stage: FcSpawnStage,
    kernel_path: PathBufJailer,
    pending: Option<FcSpawnFailure<E>>,
}

pub struct FcSpawnView<E> {
    pub stage: FcSpawnStage,
    /// The kernel's host path (the jail-relative path of the configuration
    /// names the kernel directory of the host).
    pub kernel_src: Seq<char>,
    /// Where the kernel goes inside the jail.
    pub kernel_dst: Seq<char>,
    pub pending: Option<FcSpawnFailureView<E>>,
}

impl<E> View for FcSpawn<E> {
    type V = FcSpawnView<E>;

    closed spec fn view(&self) -> FcSpawnView<E> {
        FcSpawnView {
            stage: self.stage,
            kernel_src: self.kernel_path@.inner,
            kernel_dst: host_path(self.kernel_path@),
            pending: match self.pending {
                Some(f) => Some(fc_failure_view(f)),
                None => None,
            },
        }
    }
}

pub open spec fn no_kernel_text(path: Seq<char>) -> Seq<char> {
    "No kernel found at path "@ + path
}

pub open spec fn configuration_error_text(failed: Seq<Seq<char>>) -> Seq<char> {
    "One or more Firecracker API configuration errors: "@ + joined(failed, "; "@)
}

pub open spec fn fc_at<E>(s: FcSpawnView<E>, stage: FcSpawnStage) -> FcSpawnView<E> {
    FcSpawnView { stage, pending: None, ..s }
}

pub open spec fn fc_fail<E>(s: FcSpawnView<E>, f: FcSpawnFailureView<E>) -> (FcSpawnView<E>, FcSpawnActionView<E>) {
    (FcSpawnView { stage: FcSpawnStage::RemovingJailRoot, pending: Some(f), ..s }, FcSpawnActionView::RemoveJailRoot)
}

pub open spec fn fc_advance<E>(s: FcSpawnView<E>, ev: FcSpawnEvent<E>, stage: FcSpawnStage, a: FcSpawnActionView<E>) -> (
    FcSpawnView<E>,
    FcSpawnActionView<E>,
) {
    match ev {
        FcSpawnEvent::Failed(e) => fc_fail(s, FcSpawnFailureView::Step(e)),
        _ => (fc_at(s, stage), a),
    }
}

pub open spec fn fc_next<E>(s: FcSpawnView<E>, ev: FcSpawnEvent<E>) -> (FcSpawnView<E>, FcSpawnActionView<E>) {
    match s.stage {
        FcSpawnStage::CopyingDrive => fc_advance(
            s,
            ev,
            FcSpawnStage::CheckingKernel,
            FcSpawnActionView::CheckKernel(s.kernel_src),
        ),
        FcSpawnStage::CheckingKernel => match ev {
            FcSpawnEvent::Failed(e) => fc_fail(s, FcSpawnFailureView::Step(e)),
            FcSpawnEvent::KernelChecked { exists } => if exists {
                (fc_at(s, FcSpawnStage::CopyingKernel), FcSpawnActionView::CopyKernel(s.kernel_src, s.kernel_dst))
            } else {
                fc_fail(s, FcSpawnFailureView::NoKernel(no_kernel_text(s.kernel_src)))
            },
            _ => (s, FcSpawnActionView::CheckKernel(s.kernel_src)),
        },
        FcSpawnStage::CopyingKernel => fc_advance(
            s,
            ev,
            FcSpawnStage::CreatingVsockDir,
            FcSpawnActionView::CreateVsockDir,
        ),
        FcSpawnStage::CreatingVsockDir => fc_advance(
            s,
            ev,
            FcSpawnStage::CreatingLogs,
            FcSpawnActionView::CreateProcessLogs,
        ),
        FcSpawnStage::CreatingLogs => fc_advance(s, ev, FcSpawnStage::StartingProcess, FcSpawnActionView::StartProcess),
        FcSpawnStage::StartingProcess => fc_advance(s, ev, FcSpawnStage::Configuring, FcSpawnActionView::Configure),
        FcSpawnStage::Configuring => match ev {
            FcSpawnEvent::Failed(e) => fc_fail(s, FcSpawnFailureView::Step(e)),
            FcSpawnEvent::Configured { results } => {
                let failed = failures(results_view(results@));
                if failed.len() == 0 {
                    (fc_at(s, FcSpawnStage::StartingInstance), FcSpawnActionView::StartInstance)
                } else {
                    fc_fail(s, FcSpawnFailureView::Configuration(configuration_error_text(failed)))
                }
            },
            _ => (s, FcSpawnActionView::Configure),
        },
        FcSpawnStage::StartingInstance => match ev {
            FcSpawnEvent::Failed(e) => fc_fail(s, FcSpawnFailureView::Step(e)),
            _ => (fc_at(s, FcSpawnStage::Finished), FcSpawnActionView::Finish(Ok(()))),
        },
        FcSpawnStage::RemovingJailRoot => match s.pending {
            Some(f) => (fc_at(s, FcSpawnStage::Finished), FcSpawnActionView::Finish(Err(f))),
            None => (fc_at(s, FcSpawnStage::Finished), FcSpawnActionView::Finish(Ok(()))),
        },
        FcSpawnStage::Finished => (s, FcSpawnActionView::Finish(Ok(()))),
    }
}

/// A missing kernel removes the jail root and is reported; nothing is
/// copied into the jail and the process never starts.
pub proof fn lemma_missing_kernel_refused<E>(s: FcSpawnView<E>, o: FcSpawnEvent<E>)
    requires
        s.stage == FcSpawnStage::CheckingKernel,
    ensures
        ({
            let (t, a) = fc_next(s, FcSpawnEvent::KernelChecked { exists: false });
            let (u, b) = fc_next(t, o);
            &&& a == FcSpawnActionView::<E>::RemoveJailRoot
            &&& b == FcSpawnActionView::<E>::Finish(Err(FcSpawnFailureView::NoKernel(no_kernel_text(s.kernel_src))))
        }),
{
}

/// The instance is started only when all five configuration calls
/// succeeded; otherwise every failure is reported, after the jail root is
/// removed.
pub proof fn lemma_started_only_when_configured<E>(s: FcSpawnView<E>, results: Vec<Option<String>>)
    requires
        s.stage == FcSpawnStage::Configuring,
    ensures
        ({
            let (t, a) = fc_next(s, FcSpawnEvent::<E>::Configured { results });
            let failed = failures(results_view(results@));
            &&& a == FcSpawnActionView::<E>::StartInstance <==> failed.len() == 0
            &&& failed.len() > 0 ==> a == FcSpawnActionView::<E>::RemoveJailRoot && t.pending == Some(
                FcSpawnFailureView::<E>::Configuration(configuration_error_text(failed)),
            )
        }),
{
}

/// A failure of any step removes the jail root before the failure is
/// reported, whatever the removal's outcome.
pub proof fn lemma_failure_removes_jail_root<E>(s: FcSpawnView<E>, e: E, o: FcSpawnEvent<E>)
    requires
        s.stage != FcSpawnStage::RemovingJailRoot,
        s.stage != FcSpawnStage::Finished,
    ensures
        ({
            let (t, a) = fc_next(s, FcSpawnEvent::Failed(e));
            &&& a == FcSpawnActionView::<E>::RemoveJailRoot
            &&& fc_next(t, o).1 == FcSpawnActionView::<E>::Finish(Err(FcSpawnFailureView::Step(e)))
        }),
{
}

impl<E> FcSpawn<E> {
    /// Starts spawning a Firecracker process whose kernel is `kernel_path`;
    /// the jail root exists and the first action copies the drive into it.
    pub fn start(kernel_path: PathBufJailer) -> (r: (Self, FcSpawnAction<E>))
        ensures
            r.0@ == (FcSpawnView::<E> {
                stage: FcSpawnStage::CopyingDrive,
                kernel_src: kernel_path@.inner,
                kernel_dst: host_path(kernel_path@),
                pending: None,
            }),
            fc_action_view(r.1) == FcSpawnActionView::<E>::CopyDriveNode,
    {
        (FcSpawn { stage: FcSpawnStage::CopyingDrive, kernel_path, pending: None }, FcSpawnAction::CopyDriveNode)
    }

    pub fn is_finished(&self) -> (r: bool)
        ensures
            r == (self@.stage == FcSpawnStage::Finished),
    {
        self.stage == FcSpawnStage::Finished
    }

    fn fail(&mut self, f: FcSpawnFailure<E>) -> (r: FcSpawnAction<E>)
        ensures
            (final(self)@, fc_action_view(r)) == fc_fail(old(self)@, fc_failure_view(f)),
    {
        self.stage = FcSpawnStage::RemovingJailRoot;
        self.pending = Some(f);
        FcSpawnAction::RemoveJailRoot
    }

    fn advance(&mut self, ev: FcSpawnEvent<E>, stage: FcSpawnStage, a: FcSpawnAction<E>) -> (r: FcSpawnAction<E>)
        ensures
            (final(self)@, fc_action_view(r)) == fc_advance(old(self)@, ev, stage, fc_action_view(a)),
    {
        match ev {
            FcSpawnEvent::Failed(e) => self.fail(FcSpawnFailure::Step(e)),
            _ => {
                self.stage = stage;
                self.pending = None;
                a
            },
        }
    }

    /// Takes the outcome of the last action and returns the next one.
    pub fn step(&mut self, event: FcSpawnEvent<E>) -> (r: FcSpawnAction<E>)
        requires
            old(self)@.stage != FcSpawnStage::Finished,
        ensures
            (final(self)@, fc_action_view(r)) == fc_next(old(self)@, event),
    {
        match self.stage {
            FcSpawnStage::CopyingDrive => {
                let path = self.kernel_path.without_jail_root();
                self.advance(event, FcSpawnStage::CheckingKernel, FcSpawnAction::CheckKernel { path })
            },
            FcSpawnStage::CheckingKernel => match event {
                FcSpawnEvent::Failed(e) => self.fail(FcSpawnFailure::Step(e)),
                FcSpawnEvent::KernelChecked { exists } => if exists {
                    let from = self.kernel_path.without_jail_root();
                    let to = self.kernel_path.with_jail_root();
                    self.stage = FcSpawnStage::CopyingKernel;
                    self.pending = None;
                    FcSpawnAction::CopyKernel { from, to }
                } else {
                    let path = self.kernel_path.without_jail_root();
                    let mut out: Vec<char> = Vec::new();
                    push_str(&mut out, "No kernel found at path ");
                    push_str(&mut out, path.as_str());
                    assert(out@ =~= no_kernel_text(self@.kernel_src));
                    self.fail(FcSpawnFailure::NoKernel(string_from_chars(out)))
                },
                _ => FcSpawnAction::CheckKernel { path: self.kernel_path.without_jail_root() },
            },
            FcSpawnStage::CopyingKernel => self.advance(event, FcSpawnStage::CreatingVsockDir, FcSpawnAction::CreateVsockDir),
            FcSpawnStage::CreatingVsockDir => self.advance(event, FcSpawnStage::CreatingLogs, FcSpawnAction::CreateProcessLogs),
            FcSpawnStage::CreatingLogs => self.advance(event, FcSpawnStage::StartingProcess, FcSpawnAction::StartProcess),
            FcSpawnStage::StartingProcess => self.advance(event, FcSpawnStage::Configuring, FcSpawnAction::Configure),
            FcSpawnStage::Configuring => match event {
                FcSpawnEvent::Failed(e) => self.fail(FcSpawnFailure::Step(e)),
                FcSpawnEvent::Configured { results } => match join_failures(&results, "; ") {
                    None => {
                        self.stage = FcSpawnStage::StartingInstance;
                        self.pending = None;
                        FcSpawnAction::StartInstance
                    },
                    Some(joined_text) => {
                        let mut out: Vec<char> = Vec::new();
                        push_str(&mut out, "One or more Firecracker API configuration errors: ");
                        push_str(&mut out, joined_text.as_str());
                        assert(out@ =~= configuration_error_text(failures(results_view(results@))));
                        self.fail(FcSpawnFailure::Configuration(string_from_chars(out)))
                    },
                },
                _ => FcSpawnAction::Configure,
            },
            FcSpawnStage::StartingInstance => match event {
                FcSpawnEvent::Failed(e) => self.fail(FcSpawnFailure::Step(e)),
                _ => {
                    self.stage = FcSpawnStage::Finished;
                    self.pending = None;
                    FcSpawnAction::Finish(Ok(()))
                },
            },
            FcSpawnStage::RemovingJailRoot => {
                let pending = self.pending.take();
                self.stage = FcSpawnStage::Finished;
                match pending {
                    Some(f) => FcSpawnAction::Finish(Err(f)),
                    None => FcSpawnAction::Finish(Ok(())),
                }
            },
            FcSpawnStage::Finished => FcSpawnAction::Finish(Ok(())),
        }
    }
}

} // verus!
