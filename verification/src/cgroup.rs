//! The cgroup (v2) that all VM processes run under, so that VMs contending
//! for CPU take it from one another and not from the host's own processes.

use crate::firecracker::string_of;
use crate::io_error::io_error_text;
use crate::paths::{path_join, pushed_path};
use crate::text::{decimal, push_decimal, push_str, string_from_chars};
use vstd::prelude::*;

verus! {

/// The base path of the cgroup v2 hierarchy.
pub const CGROUP_V2_BASE: &'static str = "/sys/fs/cgroup";

/// Builds the jailer's `--parent-cgroup` arguments for a cgroup name.
pub fn jailer_cgroup_args(cgroup_name: &str) -> (r: Vec<String>)
    ensures
        r@.len() == 2,
        r@[0]@ == "--parent-cgroup"@,
        r@[1]@ == cgroup_name@,
{
    let mut args: Vec<String> = Vec::new();
    args.push(string_of("--parent-cgroup"));
    args.push(string_of(cgroup_name));
    args
}

/// Why the VM cgroup could not be set up.
#[derive(Debug)]
pub enum CgroupError {
    CgroupsV2NotAvailable,
    ExistsCheck { path: String, source: std::io::Error },
    CreateDir { path: String, source: std::io::Error },
    SetCpuWeight { path: String, source: std::io::Error },
    EnableController { path: String, source: std::io::Error },
}

/// The message of an error, given the text of its I/O error.
pub open spec fn cgroup_error_text(e: CgroupError, source_text: Seq<char>) -> Seq<char> {
    match e {
        CgroupError::CgroupsV2NotAvailable => "cgroups v2 is not available at /sys/fs/cgroup"@,
        CgroupError::ExistsCheck { path, .. } => "failed to check if path exists at "@ + path@
            + ": "@ + source_text,
        CgroupError::CreateDir { path, .. } => "failed to create cgroup directory at "@ + path@
            + ": "@ + source_text,
        CgroupError::SetCpuWeight { path, .. } => "failed to write cpu.weight to "@ + path@ + ": "@
            + source_text,
        CgroupError::EnableController { path, .. } => "failed to enable cpu controller in "@ + path@
            + ": "@ + source_text,
    }
}

impl CgroupError {
    /// The error's message.
    pub fn to_string(&self) -> (r: String)
        ensures
            exists|source_text: Seq<char>| r@ == cgroup_error_text(*self, source_text),
            self is CgroupsV2NotAvailable ==> r@ == cgroup_error_text(*self, Seq::empty()),
    {
        let mut out: Vec<char> = Vec::new();
        match self {
            CgroupError::CgroupsV2NotAvailable => {
                push_str(&mut out, "cgroups v2 is not available at /sys/fs/cgroup");
                proof {
                    assert(out@ == cgroup_error_text(*self, Seq::empty()));
                }
            },
            CgroupError::ExistsCheck { path, source } => {
                push_str(&mut out, "failed to check if path exists at ");
                push_str(&mut out, path.as_str());
                push_str(&mut out, ": ");
                let text = io_error_text(source);
                push_str(&mut out, text.as_str());
                proof {
                    assert(out@ == cgroup_error_text(*self, text@));
                }
            },
            CgroupError::CreateDir { path, source } => {
                push_str(&mut out, "failed to create cgroup directory at ");
                push_str(&mut out, path.as_str());
                push_str(&mut out, ": ");
                let text = io_error_text(source);
                push_str(&mut out, text.as_str());
                proof {
                    assert(out@ == cgroup_error_text(*self, text@));
                }
            },
            CgroupError::SetCpuWeight { path, source } => {
                push_str(&mut out, "failed to write cpu.weight to ");
                push_str(&mut out, path.as_str());
                push_str(&mut out, ": ");
                let text = io_error_text(source);
                push_str(&mut out, text.as_str());
                proof {
                    assert(out@ == cgroup_error_text(*self, text@));
                }
            },
            CgroupError::EnableController { path, source } => {
                push_str(&mut out, "failed to enable cpu controller in ");
                push_str(&mut out, path.as_str());
                push_str(&mut out, ": ");
                let text = io_error_text(source);
                push_str(&mut out, text.as_str());
                proof {
                    assert(out@ == cgroup_error_text(*self, text@));
                }
            },
        }
        string_from_chars(out)
    }
}

/// Where the setup of the VM cgroup stands.
#[derive(Debug, Clone, Copy, PartialEq, Eq)]
pub enum CgroupStage {
    /// Checking that the cgroup v2 hierarchy exists.
    CheckBase,
    /// Checking for the root's `cgroup.subtree_control`.
    CheckRootControl,
    /// Enabling the cpu controller for the root's children.
    EnableRootControl,
    /// Creating the VM cgroup's directory.
    CreateDir,
    /// Checking for the VM cgroup's `cgroup.subtree_control`.
    CheckOwnControl,
    /// Enabling the cpu controller for the VM cgroup's children.
    EnableOwnControl,
    /// Writing the VM cgroup's `cpu.weight`.
    WriteWeight,
    /// Removing the partially created directory after a failure.
    Cleanup,
    /// Finished.
    Finished,
}

/// What the host did last, as the setup learns it.
#[derive(Debug)]
pub enum CgroupEvent {
    /// The check, write or creation succeeded; for a check, whether the path
    /// exists.
    Succeeded(bool),
    /// It failed.
    Failed(std::io::Error),
}

/// What the host does next.
#[derive(Debug)]
pub enum CgroupAction {
    /// Check whether the path exists.
    CheckExists(String),
    /// Write the contents to the file.
    Write { path: String, contents: String },
    /// Create the directory and its parents.
    CreateDirAll(String),
    /// Remove the directory (ignoring any failure), then report the step.
    RemoveDir(String),
    /// The setup is over: the cgroup's path, or why it failed.
    Finish(Result<String, CgroupError>),
}

/// The setup of the VM cgroup: checks the hierarchy, enables the cpu
/// controller where the hierarchy offers it, creates the cgroup and sets its
/// CPU weight. A failure after the hierarchy check removes the cgroup
/// directory before the error is reported.
pub struct CgroupSetup {
    base: String,
    cgroup_path: String,
    cpu_weight: u32,
    stage: CgroupStage,
    failure: Option<CgroupError>,
}

/// An error of the setup, by its kind, the path it is about and the I/O
/// error that caused it.
pub enum CgroupFailure {
    NotAvailable,
    ExistsCheck(Seq<char>, std::io::Error),
    CreateDir(Seq<char>, std::io::Error),
    SetCpuWeight(Seq<char>, std::io::Error),
    EnableController(Seq<char>, std::io::Error),
}

/// The kind, path and source of an error.
pub open spec fn failure_of(e: CgroupError) -> CgroupFailure {
    match e {
        CgroupError::CgroupsV2NotAvailable => CgroupFailure::NotAvailable,
        CgroupError::ExistsCheck { path, source } => CgroupFailure::ExistsCheck(path@, source),
        CgroupError::CreateDir { path, source } => CgroupFailure::CreateDir(path@, source),
        CgroupError::SetCpuWeight { path, source } => CgroupFailure::SetCpuWeight(path@, source),
        CgroupError::EnableController { path, source } => CgroupFailure::EnableController(path@, source),
    }
}

/// The I/O error a failure carries.
pub open spec fn failure_source(f: CgroupFailure) -> Option<std::io::Error> {
    match f {
        CgroupFailure::NotAvailable => None,
        CgroupFailure::ExistsCheck(_, e) => Some(e),
        CgroupFailure::CreateDir(_, e) => Some(e),
        CgroupFailure::SetCpuWeight(_, e) => Some(e),
        CgroupFailure::EnableController(_, e) => Some(e),
    }
}

/// The paths and weight a setup works with, where it stands, and the
/// failure it will report once the cleanup is done.
pub struct CgroupSetupView {
    pub base: Seq<char>,
    pub cgroup_path: Seq<char>,
    pub cpu_weight: u32,
    pub stage: CgroupStage,
    pub failure: Option<CgroupFailure>,
}

impl View for CgroupSetup {
    type V = CgroupSetupView;

    closed spec fn view(&self) -> CgroupSetupView {
        CgroupSetupView {
            base: self.base@,
            cgroup_path: self.cgroup_path@,
            cpu_weight: self.cpu_weight,
            stage: self.stage,
            failure: if self.stage == CgroupStage::Cleanup {
                match self.failure {
                    Some(e) => Some(failure_of(e)),
                    None => None,
                }
            } else {
                None
            },
        }
    }
}

/// The root's `cgroup.subtree_control`.
pub open spec fn root_control_path(base: Seq<char>) -> Seq<char> {
    pushed_path(base, "cgroup.subtree_control"@)
}

/// The VM cgroup's `cgroup.subtree_control`.
pub open spec fn own_control_path(cgroup_path: Seq<char>) -> Seq<char> {
    pushed_path(cgroup_path, "cgroup.subtree_control"@)
}

/// The VM cgroup's `cpu.weight`.
pub open spec fn weight_path(cgroup_path: Seq<char>) -> Seq<char> {
    pushed_path(cgroup_path, "cpu.weight"@)
}

/// The action, with its paths and contents as texts.
pub enum CgroupActionView {
    CheckExists(Seq<char>),
    Write(Seq<char>, Seq<char>),
    CreateDirAll(Seq<char>),
    RemoveDir(Seq<char>),
    FinishOk(Seq<char>),
    FinishErr(CgroupFailure),
}

/// The view of an action.
pub open spec fn action_view(a: CgroupAction) -> CgroupActionView {
    match a {
        CgroupAction::CheckExists(p) => CgroupActionView::CheckExists(p@),
        CgroupAction::Write { path, contents } => CgroupActionView::Write(path@, contents@),
        CgroupAction::CreateDirAll(p) => CgroupActionView::CreateDirAll(p@),
        CgroupAction::RemoveDir(p) => CgroupActionView::RemoveDir(p@),
        CgroupAction::Finish(Ok(p)) => CgroupActionView::FinishOk(p@),
        CgroupAction::Finish(Err(e)) => CgroupActionView::FinishErr(failure_of(e)),
    }
}

/// The setup `s` at another stage, with another pending failure.
pub open spec fn moved(s: CgroupSetupView, stage: CgroupStage, failure: Option<CgroupFailure>) -> CgroupSetupView {
    CgroupSetupView { stage, failure, ..s }
}

/// The next state and action of a setup in state `s` after `ev`: the last
/// action succeeded (for a check, with whether the path exists) or failed
/// with an I/O error. A failure after the hierarchy check records the error
/// (kind, path and the I/O error) and removes the cgroup directory; the
/// error recorded is what the setup then reports.
pub open spec fn cgroup_next(s: CgroupSetupView, ev: CgroupEvent) -> (CgroupSetupView, CgroupActionView) {
    let fail = |f: CgroupFailure|
        (moved(s, CgroupStage::Cleanup, Some(f)), CgroupActionView::RemoveDir(s.cgroup_path));
    let write_weight = (
        moved(s, CgroupStage::WriteWeight, None),
        CgroupActionView::Write(weight_path(s.cgroup_path), decimal(s.cpu_weight as nat)),
    );
    let create = (moved(s, CgroupStage::CreateDir, None), CgroupActionView::CreateDirAll(s.cgroup_path));
    match s.stage {
        CgroupStage::CheckBase => match ev {
            CgroupEvent::Failed(e) => (
                moved(s, CgroupStage::Finished, None),
                CgroupActionView::FinishErr(CgroupFailure::ExistsCheck(s.base, e)),
            ),
            CgroupEvent::Succeeded(false) => (
                moved(s, CgroupStage::Finished, None),
                CgroupActionView::FinishErr(CgroupFailure::NotAvailable),
            ),
            CgroupEvent::Succeeded(true) => (
                moved(s, CgroupStage::CheckRootControl, None),
                CgroupActionView::CheckExists(root_control_path(s.base)),
            ),
        },
        CgroupStage::CheckRootControl => match ev {
            CgroupEvent::Failed(e) => fail(CgroupFailure::ExistsCheck(root_control_path(s.base), e)),
            CgroupEvent::Succeeded(true) => (
                moved(s, CgroupStage::EnableRootControl, None),
                CgroupActionView::Write(root_control_path(s.base), "+cpu"@),
            ),
            CgroupEvent::Succeeded(false) => create,
        },
        CgroupStage::EnableRootControl => match ev {
            CgroupEvent::Failed(e) => fail(CgroupFailure::EnableController(root_control_path(s.base), e)),
            CgroupEvent::Succeeded(_) => create,
        },
        CgroupStage::CreateDir => match ev {
            CgroupEvent::Failed(e) => fail(CgroupFailure::CreateDir(s.cgroup_path, e)),
            CgroupEvent::Succeeded(_) => (
                moved(s, CgroupStage::CheckOwnControl, None),
                CgroupActionView::CheckExists(own_control_path(s.cgroup_path)),
            ),
        },
        CgroupStage::CheckOwnControl => match ev {
            CgroupEvent::Failed(e) => fail(CgroupFailure::ExistsCheck(own_control_path(s.cgroup_path), e)),
            CgroupEvent::Succeeded(true) => (
                moved(s, CgroupStage::EnableOwnControl, None),
                CgroupActionView::Write(own_control_path(s.cgroup_path), "+cpu"@),
            ),
            CgroupEvent::Succeeded(false) => write_weight,
        },
        CgroupStage::EnableOwnControl => match ev {
            CgroupEvent::Failed(e) => fail(CgroupFailure::EnableController(own_control_path(s.cgroup_path), e)),
            CgroupEvent::Succeeded(_) => write_weight,
        },
        CgroupStage::WriteWeight => match ev {
            CgroupEvent::Failed(e) => fail(CgroupFailure::SetCpuWeight(weight_path(s.cgroup_path), e)),
            CgroupEvent::Succeeded(_) => (moved(s, CgroupStage::Finished, None), CgroupActionView::FinishOk(s.cgroup_path)),
        },
        CgroupStage::Cleanup => (
            moved(s, CgroupStage::Finished, None),
            CgroupActionView::FinishErr(
                match s.failure {
                    Some(f) => f,
                    None => CgroupFailure::NotAvailable,
                },
            ),
        ),
        CgroupStage::Finished => (s, CgroupActionView::FinishErr(CgroupFailure::NotAvailable)),
    }
}

impl CgroupSetup {
    /// During cleanup, the failure to report is kept.
    #[verifier::type_invariant]
    spec fn failure_kept(self) -> bool {
        self.stage == CgroupStage::Cleanup ==> self.failure is Some
    }

    /// Starts setting up cgroup `cgroup_name` under `base` with CPU weight
    /// `cpu_weight` (1 to 10000; 100 is the kernel's default); the first
    /// action checks that the cgroup v2 hierarchy exists.
    pub fn start(base: &str, cgroup_name: &str, cpu_weight: u32) -> (r: (Self, CgroupAction))
        ensures
            r.0@.base == base@,
            r.0@.cgroup_path == pushed_path(base@, cgroup_name@),
            r.0@.cpu_weight == cpu_weight,
            r.0@.stage == CgroupStage::CheckBase,
            r.0@.failure is None,
            action_view(r.1) == CgroupActionView::CheckExists(base@),
    {
        let setup = CgroupSetup {
            base: string_of(base),
            cgroup_path: path_join(base, cgroup_name),
            cpu_weight,
            stage: CgroupStage::CheckBase,
            failure: None,
        };
        (setup, CgroupAction::CheckExists(string_of(base)))
    }

    fn fail_with(&mut self, error: CgroupError) -> (r: CgroupAction)
        requires
            old(self)@.stage != CgroupStage::Cleanup,
        ensures
            final(self)@ == moved(old(self)@, CgroupStage::Cleanup, Some(failure_of(error))),
            action_view(r) == CgroupActionView::RemoveDir(old(self)@.cgroup_path),
    {
        self.failure = Some(error);
        self.stage = CgroupStage::Cleanup;
        CgroupAction::RemoveDir(self.cgroup_path.clone())
    }

    fn write_weight(&mut self) -> (r: CgroupAction)
        ensures
            final(self)@ == moved(old(self)@, CgroupStage::WriteWeight, None),
            action_view(r) == CgroupActionView::Write(
                weight_path(old(self)@.cgroup_path),
                decimal(old(self)@.cpu_weight as nat),
            ),
    {
        self.stage = CgroupStage::WriteWeight;
        let mut weight: Vec<char> = Vec::new();
        push_decimal(&mut weight, self.cpu_weight as u128);
        assert(weight@ =~= decimal(self.cpu_weight as nat));
        CgroupAction::Write {
            path: path_join(self.cgroup_path.as_str(), "cpu.weight"),
            contents: string_from_chars(weight),
        }
    }

    fn create_dir(&mut self) -> (r: CgroupAction)
        ensures
            final(self)@ == moved(old(self)@, CgroupStage::CreateDir, None),
            action_view(r) == CgroupActionView::CreateDirAll(old(self)@.cgroup_path),
    {
        self.stage = CgroupStage::CreateDir;
        CgroupAction::CreateDirAll(self.cgroup_path.clone())
    }

    /// Whether the setup is over (its last action was `Finish`).
    pub fn is_finished(&self) -> (r: bool)
        ensures
            r == (self@.stage == CgroupStage::Finished),
    {
        match self.stage {
            CgroupStage::Finished => true,
            _ => false,
        }
    }

    /// Takes what became of the last action and returns the next one; the
    /// host stops once the action is `Finish`.
    pub fn step(&mut self, event: CgroupEvent) -> (r: CgroupAction)
        requires
            old(self)@.stage != CgroupStage::Finished,
        ensures
            (final(self)@, action_view(r)) == cgroup_next(old(self)@, event),
    {
        match self.stage {
            CgroupStage::CheckBase => match event {
                CgroupEvent::Succeeded(true) => {
                    self.stage = CgroupStage::CheckRootControl;
                    CgroupAction::CheckExists(path_join(self.base.as_str(), "cgroup.subtree_control"))
                },
                CgroupEvent::Succeeded(false) => {
                    self.stage = CgroupStage::Finished;
                    CgroupAction::Finish(Err(CgroupError::CgroupsV2NotAvailable))
                },
                CgroupEvent::Failed(source) => {
                    self.stage = CgroupStage::Finished;
                    CgroupAction::Finish(
                        Err(CgroupError::ExistsCheck { path: self.base.clone(), source }),
                    )
                },
            },
            CgroupStage::CheckRootControl => match event {
                CgroupEvent::Succeeded(true) => {
                    self.stage = CgroupStage::EnableRootControl;
                    CgroupAction::Write {
                        path: path_join(self.base.as_str(), "cgroup.subtree_control"),
                        contents: string_of("+cpu"),
                    }
                },
                CgroupEvent::Succeeded(false) => self.create_dir(),
                CgroupEvent::Failed(source) => {
                    let path = path_join(self.base.as_str(), "cgroup.subtree_control");
                    self.fail_with(CgroupError::ExistsCheck { path, source })
                },
            },
            CgroupStage::EnableRootControl => match event {
                CgroupEvent::Succeeded(_) => self.create_dir(),
                CgroupEvent::Failed(source) => {
                    let path = path_join(self.base.as_str(), "cgroup.subtree_control");
                    self.fail_with(CgroupError::EnableController { path, source })
                },
            },
            CgroupStage::CreateDir => match event {
                CgroupEvent::Succeeded(_) => {
                    self.stage = CgroupStage::CheckOwnControl;
                    CgroupAction::CheckExists(
                        path_join(self.cgroup_path.as_str(), "cgroup.subtree_control"),
                    )
                },
                CgroupEvent::Failed(source) => {
                    let path = self.cgroup_path.clone();
                    self.fail_with(CgroupError::CreateDir { path, source })
                },
            },
            CgroupStage::CheckOwnControl => match event {
                CgroupEvent::Succeeded(true) => {
                    self.stage = CgroupStage::EnableOwnControl;
                    CgroupAction::Write {
                        path: path_join(self.cgroup_path.as_str(), "cgroup.subtree_control"),
                        contents: string_of("+cpu"),
                    }
                },
                CgroupEvent::Succeeded(false) => self.write_weight(),
                CgroupEvent::Failed(source) => {
                    let path = path_join(self.cgroup_path.as_str(), "cgroup.subtree_control");
                    self.fail_with(CgroupError::ExistsCheck { path, source })
                },
            },
            CgroupStage::EnableOwnControl => match event {
                CgroupEvent::Succeeded(_) => self.write_weight(),
                CgroupEvent::Failed(source) => {
                    let path = path_join(self.cgroup_path.as_str(), "cgroup.subtree_control");
                    self.fail_with(CgroupError::EnableController { path, source })
                },
            },
            CgroupStage::WriteWeight => match event {
                CgroupEvent::Succeeded(_) => {
                    self.stage = CgroupStage::Finished;
                    CgroupAction::Finish(Ok(self.cgroup_path.clone()))
                },
                CgroupEvent::Failed(source) => {
                    let path = path_join(self.cgroup_path.as_str(), "cpu.weight");
                    self.fail_with(CgroupError::SetCpuWeight { path, source })
                },
            },
            CgroupStage::Cleanup => {
                proof {
                    use_type_invariant(&*self);
                }
                self.stage = CgroupStage::Finished;
                let mut failure: Option<CgroupError> = None;
                std::mem::swap(&mut failure, &mut self.failure);
                CgroupAction::Finish(Err(failure.unwrap()))
            },
            CgroupStage::Finished => {
                proof {
                    assert(false);
                }
                CgroupAction::Finish(Err(CgroupError::CgroupsV2NotAvailable))
            },
        }
    }
}

/// A setup reports success only from the weight write; every failure after
/// the hierarchy check goes through the removal of the cgroup directory, and
/// the error then reported is the one that caused the removal, carrying the
/// failed step's own I/O error, whatever the removal's outcome.
pub proof fn lemma_cgroup_failures_clean_up(s: CgroupSetupView, source: std::io::Error, after: CgroupEvent)
    ensures
        s.stage != CgroupStage::CheckBase && s.stage != CgroupStage::Cleanup && s.stage
            != CgroupStage::Finished ==> {
            let (next, action) = cgroup_next(s, CgroupEvent::Failed(source));
            &&& next.stage == CgroupStage::Cleanup
            &&& next.failure is Some
            &&& failure_source(next.failure->0) == Some(source)
            &&& action == CgroupActionView::RemoveDir(s.cgroup_path)
            &&& cgroup_next(next, after).1 == CgroupActionView::FinishErr(next.failure->0)
        },
        forall|exists: bool| #[trigger] cgroup_next(s, CgroupEvent::Succeeded(exists)).1 is FinishOk ==> s.stage
            == CgroupStage::WriteWeight,
{
}

} // verus!
