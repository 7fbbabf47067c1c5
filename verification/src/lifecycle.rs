//! The rollback discipline shared by the VM lifecycle operations (creating a
//! VM, creating one from a commit, waking a sleeping one, building a VM's
//! network namespace).
//!
//! Each operation is a plan: a sequence of steps, some of which register a
//! cleanup for what they acquired. The host runs the steps one at a time and
//! reports each outcome back to a `Rollback` machine. When a step fails,
//! the machine hands out every registered cleanup, newest first, and only
//! then reports the failed step's own error. The outcome of a cleanup does
//! not change what happens next: a failing cleanup is only logged.
use vstd::prelude::*;
use vstd::assert_seqs_equal;

verus! {

/// A step of a lifecycle operation, performed by the host.
#[derive(Clone, Copy, PartialEq, Eq, Structural, Debug)]
pub enum Step {
    /// Refuse a VM that is not sleeping (`check_vm_is_sleeping`).
    CheckVmIsSleeping,
    FetchCommitMetadata,
    FetchSleepSnapshotRecord,
    /// Check the reservation with the new VM's sizes (for a commit,
    /// `VmConfigCommit::check_reservation`).
    CheckReservation,
    DownloadCommitFiles,
    DownloadSleepSnapshotFiles,
    ReserveNetwork,
    CreateVolumeFromBaseImage,
    CreateVolumeFromCommit,
    CreateVolumeFromSleepSnapshot,
    MarkVmBooting,
    ParseSshKey,
    EnsureTap,
    SpawnProcess,
    SpawnProcessFromCommit,
    SpawnProcessFromSleepSnapshot,
    AttachWireGuard,
    InsertLocalRecord,
    InsertRemoteRecord,
    DeleteSleepSnapshotRecord,
    DeleteSleepSnapshotFiles,
    InsertUsageStart,
    /// Start watching for the in-guest agent's ready signal.
    StartReadyMonitor,
    /// Start writing the given environment variables into the guest once
    /// its agent is ready.
    SpawnEnvWriter,
    AddNamespace,
    AddVethPair,
    SetDefaultRoute,
    AddTap,
    EnablePacketForwarding,
    AddInboundSshRule,
    /// Load the VM's record and its process.
    LoadVm,
    /// Kill the VM's old process (it may already be gone).
    KillOldProcess,
    /// Record the new process's PID.
    UpdateProcessPid,
    CreateJailRoot,
    /// Find the snapshot archive of the commit or sleep snapshot.
    ResolveSnapshotFilepaths,
    /// Copy the drive node and kernel into the jail, extract the archive and
    /// patch its configuration (see `plan_restore`).
    PrepareRestore,
    CreateProcessLogs,
    StartHypervisorProcess,
    /// Call `vm.restore` with the restore directory.
    RestoreVm,
    /// Give the TAP device its IPv4 and IPv6 networks and its MAC again.
    RestoreTapDevice,
    ResumeVm,
    /// Install the VM's new SSH public key with the committed key, retried
    /// as `ssh_key_retry_delay_ms` says.
    InstallSshKey,
    /// Write the VM's metadata into the guest over vsock.
    WriteVmMetadata,
    /// Delete a stored network record that failed validation.
    DeleteNetworkRecord,
    /// Build a VM network without its inbound SSH rule.
    BuildNetwork,
    InsertNetworkRecord,
}

/// A cleanup that undoes what a step acquired.
#[derive(Clone, Copy, PartialEq, Eq, Structural, Debug)]
pub enum Cleanup {
    /// Tell the network manager the VM is gone; failing that, release the
    /// reserved network.
    ReleaseNetwork,
    /// Tell the volume manager the VM is gone; failing that, delete the volume.
    DeleteVolume,
    /// Tell the readiness service that the boot was aborted.
    AbortBoot,
    /// Kill the VM process through the process manager; failing that, directly.
    KillProcess,
    /// Tell the network manager the VM is gone.
    DetachNetwork,
    DeleteLocalRecord,
    DeleteRemoteRecord,
    /// Close the VM's open usage segment.
    CloseUsageSegment,
    DeleteNamespace,
    RemoveJailRoot,
    /// Kill the hypervisor process directly.
    KillHypervisorProcess,
    /// Delete a VM network's inbound SSH rule and namespace.
    DeleteNetwork,
}

/// One entry of a plan: the step, the cleanup it registers (if any),
/// whether that cleanup is registered before the step runs (so that it also
/// runs when the step itself fails) rather than after it succeeded, and
/// whether a failure of the step is only logged and the operation goes on.
#[derive(Clone, Copy, PartialEq, Eq, Structural, Debug)]
pub struct PlanEntry {
    pub step: Step,
    pub cleanup: Option<Cleanup>,
    pub cleanup_first: bool,
    pub failure_tolerated: bool,
}

/// What the host reports back after performing an action.
pub enum Outcome<E> {
    Succeeded,
    Failed(E),
}

/// What the host is to do next.
pub enum RollbackAction<E> {
    Run(Step),
    Release(Cleanup),
    /// The operation is over, with this result.
    Finish(Result<(), E>),
}

#[derive(Clone, Copy, PartialEq, Eq, Structural, Debug)]
pub enum RollbackStage {
    /// The step at `done` is in flight.
    Running,
    /// A step failed; registered cleanups are being handed out.
    Unwinding,
    Finished,
}

/// Drives one lifecycle operation.
pub struct Rollback<E> {
    plan: Vec<PlanEntry>,
    done: usize,
    held: Vec<Cleanup>,
    error: Option<E>,
    stage: RollbackStage,
}

pub struct RollbackView<E> {
    pub stage: RollbackStage,
    pub plan: Seq<PlanEntry>,
    /// The number of steps that succeeded.
    pub done: nat,
    /// Registered cleanups not handed out yet, oldest first.
    pub held: Seq<Cleanup>,
    /// While unwinding: the error of the step that failed.
    pub error: Option<E>,
}

impl<E> View for Rollback<E> {
    type V = RollbackView<E>;

    closed spec fn view(&self) -> RollbackView<E> {
        RollbackView {
            stage: self.stage,
            plan: self.plan@,
            done: self.done as nat,
            held: self.held@,
            error: self.error,
        }
    }
}

/// The cleanups held once `entry`'s step succeeded.
pub open spec fn held_after_success(entry: PlanEntry, held: Seq<Cleanup>) -> Seq<Cleanup> {
    match entry.cleanup {
        Some(c) => held.push(c),
        None => held,
    }
}

/// The cleanups held once `entry`'s step failed.
pub open spec fn held_after_failure(entry: PlanEntry, held: Seq<Cleanup>) -> Seq<Cleanup> {
    match entry.cleanup {
        Some(c) => if entry.cleanup_first { held.push(c) } else { held },
        None => held,
    }
}

/// The cleanups registered by a run of steps that all succeeded, oldest first.
pub open spec fn registered(entries: Seq<PlanEntry>) -> Seq<Cleanup>
    decreases entries.len(),
{
    if entries.len() == 0 {
        Seq::empty()
    } else {
        held_after_success(entries.last(), registered(entries.drop_last()))
    }
}

/// Hands out the newest held cleanup, or reports `e` once none is left.
pub open spec fn unwind<E>(plan: Seq<PlanEntry>, done: nat, held: Seq<Cleanup>, e: E) -> (
    RollbackView<E>,
    RollbackAction<E>,
) {
    if held.len() == 0 {
        (
            RollbackView { stage: RollbackStage::Finished, plan, done, held, error: None },
            RollbackAction::Finish(Err(e)),
        )
    } else {
        (
            RollbackView {
                stage: RollbackStage::Unwinding,
                plan,
                done,
                held: held.drop_last(),
                error: Some(e),
            },
            RollbackAction::Release(held.last()),
        )
    }
}

/// The machine's state and first action for `plan`.
pub open spec fn rollback_start<E>(plan: Seq<PlanEntry>) -> (RollbackView<E>, RollbackAction<E>) {
    if plan.len() == 0 {
        (
            RollbackView {
                stage: RollbackStage::Finished,
                plan,
                done: 0,
                held: Seq::empty(),
                error: None,
            },
            RollbackAction::Finish(Ok(())),
        )
    } else {
        (
            RollbackView {
                stage: RollbackStage::Running,
                plan,
                done: 0,
                held: Seq::empty(),
                error: None,
            },
            RollbackAction::Run(plan[0].step),
        )
    }
}

/// One transition: the outcome of the last action moves the machine on.
pub open spec fn rollback_next<E>(s: RollbackView<E>, o: Outcome<E>) -> (
    RollbackView<E>,
    RollbackAction<E>,
) {
    match s.stage {
        RollbackStage::Running => match o {
            Outcome::Failed(e) if !s.plan[s.done as int].failure_tolerated => unwind(
                s.plan,
                s.done,
                held_after_failure(s.plan[s.done as int], s.held),
                e,
            ),
            _ => {
                let held = held_after_success(s.plan[s.done as int], s.held);
                let done = s.done + 1;
                if done == s.plan.len() {
                    (
                        RollbackView { stage: RollbackStage::Finished, plan: s.plan, done, held, error: None },
                        RollbackAction::Finish(Ok(())),
                    )
                } else {
                    (
                        RollbackView { stage: RollbackStage::Running, plan: s.plan, done, held, error: None },
                        RollbackAction::Run(s.plan[done as int].step),
                    )
                }
            },
        },
        RollbackStage::Unwinding => match s.error {
            Some(e) => unwind(s.plan, s.done, s.held, e),
            None => (s, RollbackAction::Finish(Ok(()))),
        },
        RollbackStage::Finished => (s, RollbackAction::Finish(Ok(()))),
    }
}


/// The actions the machine hands out for a run of outcomes, until it finishes.
pub open spec fn rollback_trace<E>(s: RollbackView<E>, outcomes: Seq<Outcome<E>>) -> Seq<RollbackAction<E>>
    decreases outcomes.len(),
{
    if outcomes.len() == 0 || s.stage == RollbackStage::Finished {
        Seq::empty()
    } else {
        let (t, a) = rollback_next(s, outcomes[0]);
        seq![a] + rollback_trace(t, outcomes.drop_first())
    }
}

/// Everything the machine hands out for `plan` and `outcomes`, from the start.
pub open spec fn rollback_run<E>(plan: Seq<PlanEntry>, outcomes: Seq<Outcome<E>>) -> Seq<RollbackAction<E>> {
    let (s, a) = rollback_start::<E>(plan);
    seq![a] + rollback_trace(s, outcomes)
}

pub open spec fn successes<E>(n: nat) -> Seq<Outcome<E>> {
    Seq::new(n, |i: int| Outcome::Succeeded)
}

pub open spec fn runs<E>(entries: Seq<PlanEntry>) -> Seq<RollbackAction<E>> {
    entries.map_values(|p: PlanEntry| RollbackAction::Run(p.step))
}

pub open spec fn releases<E>(cleanups: Seq<Cleanup>) -> Seq<RollbackAction<E>> {
    cleanups.map_values(|c: Cleanup| RollbackAction::Release(c))
}

/// The cleanups to undo when step `k` of `plan` fails after the steps
/// before it succeeded, oldest first.
pub open spec fn acquired_before_failure(plan: Seq<PlanEntry>, k: int) -> Seq<Cleanup> {
    held_after_failure(plan[k], registered(plan.take(k)))
}

proof fn lemma_unwinding_trace<E>(u: RollbackView<E>, rest: Seq<Outcome<E>>)
    requires
        u.stage == RollbackStage::Unwinding,
        u.error is Some,
        rest.len() == u.held.len() + 1,
    ensures
        rollback_trace(u, rest) == releases::<E>(u.held.reverse()).push(
            RollbackAction::Finish(Err(u.error->0)),
        ),
    decreases u.held.len(),
{
    let e = u.error->0;
    let (t, a) = rollback_next(u, rest[0]);
    if u.held.len() == 0 {
        assert(rollback_trace(t, rest.drop_first()) == Seq::<RollbackAction<E>>::empty());
        assert_seqs_equal!(rollback_trace(u, rest), releases::<E>(u.held.reverse()).push(RollbackAction::Finish(Err(e))));
    } else {
        lemma_unwinding_trace(t, rest.drop_first());
        let tail = releases::<E>(t.held.reverse()).push(RollbackAction::Finish(Err(e)));
        assert(u.held.reverse() =~= seq![u.held.last()] + t.held.reverse());
        assert_seqs_equal!(rollback_trace(u, rest), seq![RollbackAction::Release(u.held.last())] + tail);
        assert_seqs_equal!(seq![RollbackAction::Release(u.held.last())] + tail, releases::<E>(u.held.reverse()).push(RollbackAction::Finish(Err(e))));
    }
}

/// A failing step hands out every held cleanup, newest first, and only then
/// reports that step's error.
pub proof fn lemma_failure_releases_in_reverse<E>(s: RollbackView<E>, e: E, rest: Seq<Outcome<E>>)
    requires
        s.stage == RollbackStage::Running,
        s.done < s.plan.len(),
        !s.plan[s.done as int].failure_tolerated,
        rest.len() == held_after_failure(s.plan[s.done as int], s.held).len(),
    ensures
        rollback_trace(s, seq![Outcome::Failed(e)] + rest) == releases::<E>(
            held_after_failure(s.plan[s.done as int], s.held).reverse(),
        ).push(RollbackAction::Finish(Err(e))),
{
    let events = seq![Outcome::Failed(e)] + rest;
    let h = held_after_failure(s.plan[s.done as int], s.held);
    assert(events[0] == Outcome::<E>::Failed(e));
    assert(events.drop_first() =~= rest);
    let (t, a) = rollback_next(s, events[0]);
    if h.len() == 0 {
        assert(rollback_trace(t, rest) == Seq::<RollbackAction<E>>::empty());
        assert_seqs_equal!(rollback_trace(s, events), releases::<E>(h.reverse()).push(RollbackAction::Finish(Err(e))));
    } else {
        lemma_unwinding_trace(t, rest);
        let tail = releases::<E>(t.held.reverse()).push(RollbackAction::Finish(Err(e)));
        assert(h.reverse() =~= seq![h.last()] + t.held.reverse());
        assert_seqs_equal!(rollback_trace(s, events), seq![RollbackAction::Release(h.last())] + tail);
        assert_seqs_equal!(seq![RollbackAction::Release(h.last())] + tail, releases::<E>(h.reverse()).push(RollbackAction::Finish(Err(e))));
    }
}

/// The machine's state after a run of outcomes (or once it finished).
pub open spec fn rollback_state_after<E>(s: RollbackView<E>, outcomes: Seq<Outcome<E>>) -> RollbackView<E>
    decreases outcomes.len(),
{
    if outcomes.len() == 0 || s.stage == RollbackStage::Finished {
        s
    } else {
        rollback_state_after(rollback_next(s, outcomes[0]).0, outcomes.drop_first())
    }
}

proof fn lemma_successes_state<E>(s: RollbackView<E>, k: nat, more: Seq<Outcome<E>>)
    requires
        s.stage == RollbackStage::Running,
        s.error is None,
        s.done + k < s.plan.len(),
        s.held == registered(s.plan.take(s.done as int)),
    ensures
        rollback_state_after(s, successes::<E>(k) + more) == rollback_state_after(
            RollbackView {
                stage: RollbackStage::Running,
                plan: s.plan,
                done: s.done + k,
                held: registered(s.plan.take(s.done + k as int)),
                error: None,
            },
            more,
        ),
    decreases k,
{
    if k == 0 {
        assert(successes::<E>(0) + more =~= more);
    } else {
        let events = successes::<E>(k) + more;
        assert(events[0] == Outcome::<E>::Succeeded);
        assert(events.drop_first() =~= successes::<E>((k - 1) as nat) + more);
        let (t, a) = rollback_next(s, events[0]);
        assert(s.plan.take(s.done + 1int).drop_last() =~= s.plan.take(s.done as int));
        assert(s.plan.take(s.done + 1int).last() == s.plan[s.done as int]);
        lemma_successes_state(t, (k - 1) as nat, more);
        assert(t.done + (k - 1) == s.done + k);
    }
}

/// After every step of a plan succeeded, the machine holds exactly the
/// cleanups the plan registered, oldest first: what a `BootWatch` takes
/// over while the VM boots.
pub proof fn lemma_successful_run_holds_registered<E>(plan: Seq<PlanEntry>)
    requires
        plan.len() > 0,
    ensures
        rollback_state_after(rollback_start::<E>(plan).0, successes::<E>(plan.len())).stage
            == RollbackStage::Finished,
        rollback_state_after(rollback_start::<E>(plan).0, successes::<E>(plan.len())).held == registered(plan),
{
    let s0 = rollback_start::<E>(plan).0;
    let n = plan.len();
    let k = (n - 1) as nat;
    let last = seq![Outcome::<E>::Succeeded];
    assert(successes::<E>(n) =~= successes::<E>(k) + last);
    assert(plan.take(0) =~= Seq::<PlanEntry>::empty());
    lemma_successes_state(s0, k, last);
    let sk = RollbackView::<E> {
        stage: RollbackStage::Running,
        plan,
        done: k,
        held: registered(plan.take(k as int)),
        error: None,
    };
    let t = rollback_next(sk, last[0]).0;
    assert(last.drop_first() =~= Seq::<Outcome<E>>::empty());
    assert(rollback_state_after(sk, last) == rollback_state_after(t, last.drop_first()));
    assert(plan.take(n as int) =~= plan);
    assert(plan.take(n as int).drop_last() =~= plan.take(k as int));
}

proof fn lemma_successes_trace<E>(s: RollbackView<E>, k: nat, more: Seq<Outcome<E>>)
    requires
        s.stage == RollbackStage::Running,
        s.error is None,
        s.done + k < s.plan.len(),
        s.held == registered(s.plan.take(s.done as int)),
    ensures
        rollback_trace(s, successes::<E>(k) + more) == runs::<E>(
            s.plan.subrange(s.done + 1int, s.done + k + 1int),
        ) + rollback_trace(
            RollbackView {
                stage: RollbackStage::Running,
                plan: s.plan,
                done: s.done + k,
                held: registered(s.plan.take(s.done + k as int)),
                error: None,
            },
            more,
        ),
    decreases k,
{
    let target = RollbackView {
        stage: RollbackStage::Running,
        plan: s.plan,
        done: s.done + k,
        held: registered(s.plan.take(s.done + k as int)),
        error: None,
    };
    if k == 0 {
        assert(successes::<E>(0) + more =~= more);
        assert(s == target);
        assert_seqs_equal!(runs::<E>(s.plan.subrange(s.done + 1int, s.done + 1int)), Seq::<RollbackAction<E>>::empty());
        assert_seqs_equal!(rollback_trace(s, successes::<E>(k) + more), runs::<E>(s.plan.subrange(s.done + 1int, s.done + k + 1int)) + rollback_trace(target, more));
    } else {
        let events = successes::<E>(k) + more;
        assert(events[0] == Outcome::<E>::Succeeded);
        assert(events.drop_first() =~= successes::<E>((k - 1) as nat) + more);
        let (t, a) = rollback_next(s, events[0]);
        assert(s.plan.take(s.done + 1int).drop_last() =~= s.plan.take(s.done as int));
        assert(s.plan.take(s.done + 1int).last() == s.plan[s.done as int]);
        assert(t.held == registered(s.plan.take(s.done + 1int)));
        assert(t.done == s.done + 1);
        lemma_successes_trace(t, (k - 1) as nat, more);
        assert(t.done + (k - 1) == s.done + k);
        assert_seqs_equal!(
            runs::<E>(s.plan.subrange(s.done + 1int, s.done + k + 1int)),
            seq![RollbackAction::Run(s.plan[s.done + 1int].step)] + runs::<E>(s.plan.subrange(t.done + 1int, t.done + (k - 1) + 1int))
        );
        assert_seqs_equal!(
            rollback_trace(s, events),
            runs::<E>(s.plan.subrange(s.done + 1int, s.done + k + 1int)) + rollback_trace(target, more)
        );
    }
}

/// A lifecycle operation whose step `k` fails after the steps before it
/// succeeded (or failed where a failure is tolerated) runs those steps, then
/// hands out every cleanup they (and, where it registers its cleanup first,
/// step `k`) registered, newest first, and only then reports step `k`'s own
/// error. No cleanup is handed out twice
/// and none is left out.
pub proof fn lemma_failed_operation_releases_everything_in_reverse<E>(
    plan: Seq<PlanEntry>,
    k: nat,
    e: E,
    rest: Seq<Outcome<E>>,
)
    requires
        k < plan.len(),
        !plan[k as int].failure_tolerated,
        rest.len() == acquired_before_failure(plan, k as int).len(),
    ensures
        rollback_run(plan, successes::<E>(k) + seq![Outcome::Failed(e)] + rest) == runs::<E>(
            plan.take(k + 1int),
        ) + releases::<E>(acquired_before_failure(plan, k as int).reverse()).push(
            RollbackAction::Finish(Err(e)),
        ),
{
    let (s0, a0) = rollback_start::<E>(plan);
    assert(plan.take(0) =~= Seq::<PlanEntry>::empty());
    assert(registered(plan.take(0)) == Seq::<Cleanup>::empty());
    let more = seq![Outcome::Failed(e)] + rest;
    assert(successes::<E>(k) + seq![Outcome::Failed(e)] + rest =~= successes::<E>(k) + more);
    lemma_successes_trace(s0, k, more);
    let sk = RollbackView::<E> {
        stage: RollbackStage::Running,
        plan,
        done: k,
        held: registered(plan.take(k as int)),
        error: None,
    };
    lemma_failure_releases_in_reverse(sk, e, rest);
    assert_seqs_equal!(plan.take(k + 1int), seq![plan[0]] + plan.subrange(1, k + 1int));
    assert_seqs_equal!(runs::<E>(plan.take(k + 1int)), seq![a0] + runs::<E>(plan.subrange(1, k + 1int)));
}

/// When every step succeeds the machine runs the steps in order and
/// reports success; no cleanup is handed out.
pub proof fn lemma_successful_operation_releases_nothing<E>(plan: Seq<PlanEntry>)
    requires
        plan.len() > 0,
    ensures
        rollback_run(plan, successes::<E>(plan.len())) == runs::<E>(plan).push(
            RollbackAction::Finish(Ok(())),
        ),
{
    let (s0, a0) = rollback_start::<E>(plan);
    let n = plan.len();
    let k = (n - 1) as nat;
    let last = seq![Outcome::<E>::Succeeded];
    assert(successes::<E>(n) =~= successes::<E>(k) + last);
    assert(plan.take(0) =~= Seq::<PlanEntry>::empty());
    lemma_successes_trace(s0, k, last);
    let sk = RollbackView::<E> {
        stage: RollbackStage::Running,
        plan,
        done: k,
        held: registered(plan.take(k as int)),
        error: None,
    };
    let (t, a) = rollback_next(sk, last[0]);
    assert(t.stage == RollbackStage::Finished);
    assert(last.drop_first() =~= Seq::<Outcome<E>>::empty());
    assert(a == RollbackAction::<E>::Finish(Ok(())));
    assert(rollback_trace(t, last.drop_first()) == Seq::<RollbackAction<E>>::empty());
    assert(rollback_trace(sk, last) =~= seq![RollbackAction::<E>::Finish(Ok(()))]);
    assert_seqs_equal!(runs::<E>(plan), seq![a0] + runs::<E>(plan.subrange(1, k + 1int)));
}


pub open spec fn plain(step: Step) -> PlanEntry {
    PlanEntry { step, cleanup: None, cleanup_first: false, failure_tolerated: false }
}

pub open spec fn undone_by(step: Step, c: Cleanup) -> PlanEntry {
    PlanEntry { step, cleanup: Some(c), cleanup_first: false, failure_tolerated: false }
}

pub open spec fn guarded_by(step: Step, c: Cleanup) -> PlanEntry {
    PlanEntry { step, cleanup: Some(c), cleanup_first: true, failure_tolerated: false }
}

pub open spec fn tolerant(step: Step) -> PlanEntry {
    PlanEntry { step, cleanup: None, cleanup_first: false, failure_tolerated: true }
}

/// Creating a VM from a base image; `write_env` says whether environment
/// variables are to be written into the guest. The boot is not awaited
/// here: once the plan succeeded, a `BootWatch` holds its cleanups until
/// the VM has booted.
pub open spec fn new_vm_plan_spec(write_env: bool) -> Seq<PlanEntry> {
    let head = seq![
        plain(Step::CheckReservation),
        undone_by(Step::ReserveNetwork, Cleanup::ReleaseNetwork),
        undone_by(Step::CreateVolumeFromBaseImage, Cleanup::DeleteVolume),
        undone_by(Step::MarkVmBooting, Cleanup::AbortBoot),
        plain(Step::EnsureTap),
        undone_by(Step::SpawnProcess, Cleanup::KillProcess),
        plain(Step::StartReadyMonitor),
    ];
    let tail = seq![
        plain(Step::AttachWireGuard),
        undone_by(Step::InsertLocalRecord, Cleanup::DeleteLocalRecord),
        undone_by(Step::InsertRemoteRecord, Cleanup::DeleteRemoteRecord),
        undone_by(Step::InsertUsageStart, Cleanup::CloseUsageSegment),
    ];
    if write_env { head.push(plain(Step::SpawnEnvWriter)) + tail } else { head + tail }
}

/// Creating a VM from a commit. The network manager's cleanup is registered
/// before the WireGuard attachment, so that it also runs when the
/// attachment itself fails.
pub open spec fn vm_from_commit_plan_spec(write_env: bool) -> Seq<PlanEntry> {
    let head = seq![
        plain(Step::FetchCommitMetadata),
        plain(Step::CheckReservation),
        plain(Step::DownloadCommitFiles),
        undone_by(Step::ReserveNetwork, Cleanup::ReleaseNetwork),
        undone_by(Step::CreateVolumeFromCommit, Cleanup::DeleteVolume),
        plain(Step::ParseSshKey),
        plain(Step::EnsureTap),
        undone_by(Step::SpawnProcessFromCommit, Cleanup::KillProcess),
    ];
    let tail = seq![
        guarded_by(Step::AttachWireGuard, Cleanup::DetachNetwork),
        undone_by(Step::InsertLocalRecord, Cleanup::DeleteLocalRecord),
        undone_by(Step::InsertRemoteRecord, Cleanup::DeleteRemoteRecord),
        plain(Step::InsertUsageStart),
    ];
    if write_env { head.push(plain(Step::SpawnEnvWriter)) + tail } else { head + tail }
}

/// Waking a sleeping VM from its sleep snapshot.
pub open spec fn wake_vm_plan_spec() -> Seq<PlanEntry> {
    seq![
        plain(Step::CheckVmIsSleeping),
        plain(Step::FetchSleepSnapshotRecord),
        plain(Step::CheckReservation),
        plain(Step::DownloadSleepSnapshotFiles),
        undone_by(Step::ReserveNetwork, Cleanup::ReleaseNetwork),
        undone_by(Step::CreateVolumeFromSleepSnapshot, Cleanup::DeleteVolume),
        plain(Step::ParseSshKey),
        plain(Step::EnsureTap),
        undone_by(Step::SpawnProcessFromSleepSnapshot, Cleanup::KillProcess),
        undone_by(Step::AttachWireGuard, Cleanup::DetachNetwork),
        undone_by(Step::InsertLocalRecord, Cleanup::DeleteLocalRecord),
        plain(Step::DeleteSleepSnapshotRecord),
        plain(Step::DeleteSleepSnapshotFiles),
        plain(Step::InsertUsageStart),
    ]
}

/// Building a VM's network namespace; only the namespace needs deleting
/// when a later step fails, as everything else lives inside it.
pub open spec fn vm_network_plan_spec(add_ssh_rule: bool) -> Seq<PlanEntry> {
    let base = seq![
        undone_by(Step::AddNamespace, Cleanup::DeleteNamespace),
        plain(Step::AddVethPair),
        plain(Step::SetDefaultRoute),
        plain(Step::AddTap),
        plain(Step::EnablePacketForwarding),
    ];
    if add_ssh_rule { base.push(plain(Step::AddInboundSshRule)) } else { base }
}

/// Rebooting a VM: its old process is killed (a failure to kill it is only
/// logged) and a new one is spawned; a failure from the boot registration
/// on kills the new process and aborts the boot. As for a new VM, a
/// `BootWatch` then holds the cleanups until the VM has booted.
pub open spec fn reboot_vm_plan_spec() -> Seq<PlanEntry> {
    seq![
        plain(Step::LoadVm),
        tolerant(Step::KillOldProcess),
        undone_by(Step::MarkVmBooting, Cleanup::AbortBoot),
        plain(Step::EnsureTap),
        undone_by(Step::SpawnProcess, Cleanup::KillProcess),
        plain(Step::StartReadyMonitor),
        plain(Step::UpdateProcessPid),
    ]
}

/// Environment variables are written into the guest only when some are
/// given.
pub fn env_writer_wanted(env_var_count: Option<usize>) -> (r: bool)
    ensures
        r <==> (env_var_count matches Some(n) && n > 0),
{
    match env_var_count {
        Some(n) => n > 0,
        None => false,
    }
}

/// Restoring a Cloud Hypervisor process from a commit (with the new SSH key
/// installed) or from a sleep snapshot (without). The jail root is removed
/// on any failure; the process is killed on a failure after it resumed.
pub open spec fn ch_restore_plan_spec(install_ssh_key: bool) -> Seq<PlanEntry> {
    let base = seq![
        undone_by(Step::CreateJailRoot, Cleanup::RemoveJailRoot),
        plain(Step::ResolveSnapshotFilepaths),
        plain(Step::PrepareRestore),
        plain(Step::CreateProcessLogs),
        plain(Step::StartHypervisorProcess),
        plain(Step::RestoreVm),
        plain(Step::RestoreTapDevice),
        undone_by(Step::ResumeVm, Cleanup::KillHypervisorProcess),
    ];
    if install_ssh_key {
        base.push(plain(Step::InstallSshKey)).push(plain(Step::WriteVmMetadata))
    } else {
        base.push(plain(Step::WriteVmMetadata))
    }
}

/// How many times installing the SSH key is tried.
pub const SSH_KEY_ATTEMPTS: u32 = 10;

/// The wait after failed attempt `attempt` (counting from 1) to install the
/// SSH key: `100 * 2^attempt` ms, at most 5 s; none after the last attempt.
pub open spec fn ssh_key_retry_delay(attempt: nat) -> Option<nat> {
    if attempt < SSH_KEY_ATTEMPTS {
        let d = 100 * vstd::arithmetic::power2::pow2(attempt);
        Some(if d <= 5000 { d } else { 5000 })
    } else {
        None
    }
}

/// Decides what follows failed attempt `attempt` to install the SSH key.
pub fn ssh_key_retry_delay_ms(attempt: u32) -> (r: Option<u64>)
    requires
        attempt >= 1,
    ensures
        r matches Some(d) ==> ssh_key_retry_delay(attempt as nat) == Some(d as nat),
        r is None <==> ssh_key_retry_delay(attempt as nat) is None,
{
    if attempt >= SSH_KEY_ATTEMPTS {
        return None;
    }
    let mut p: u64 = 1;
    let mut k: u32 = 0;
    proof {
        vstd::arithmetic::power2::lemma2_to64();
    }
    while k < attempt
        invariant
            k <= attempt < SSH_KEY_ATTEMPTS,
            p == vstd::arithmetic::power2::pow2(k as nat),
            p <= 512,
        decreases attempt - k,
    {
        proof {
            vstd::arithmetic::power2::lemma2_to64();
            vstd::arithmetic::power2::lemma_pow2_unfold((k + 1) as nat);
            if k + 1 < 9 {
                vstd::arithmetic::power2::lemma_pow2_strictly_increases((k + 1) as nat, 9);
            }
        }
        p = p * 2;
        k = k + 1;
    }
    let d = 100 * p;
    Some(if d <= 5000 { d } else { 5000 })
}

/// Making a network slot ready at startup: a stored record that failed
/// validation is deleted first; a network whose record cannot be stored is
/// deleted again.
pub open spec fn network_slot_plan_spec(stale_record: bool) -> Seq<PlanEntry> {
    let build = seq![
        undone_by(Step::BuildNetwork, Cleanup::DeleteNetwork),
        plain(Step::InsertNetworkRecord),
    ];
    if stale_record { seq![plain(Step::DeleteNetworkRecord)] + build } else { build }
}

fn plain_entry(step: Step) -> (r: PlanEntry)
    ensures
        r == plain(step),
{
    PlanEntry { step, cleanup: None, cleanup_first: false, failure_tolerated: false }
}

fn undone_entry(step: Step, c: Cleanup) -> (r: PlanEntry)
    ensures
        r == undone_by(step, c),
{
    PlanEntry { step, cleanup: Some(c), cleanup_first: false, failure_tolerated: false }
}

pub fn new_vm_plan(write_env: bool) -> (r: Vec<PlanEntry>)
    ensures
        r@ == new_vm_plan_spec(write_env),
{
    let mut r = vec![
        plain_entry(Step::CheckReservation),
        undone_entry(Step::ReserveNetwork, Cleanup::ReleaseNetwork),
        undone_entry(Step::CreateVolumeFromBaseImage, Cleanup::DeleteVolume),
        undone_entry(Step::MarkVmBooting, Cleanup::AbortBoot),
        plain_entry(Step::EnsureTap),
        undone_entry(Step::SpawnProcess, Cleanup::KillProcess),
        plain_entry(Step::StartReadyMonitor),
    ];
    if write_env {
        r.push(plain_entry(Step::SpawnEnvWriter));
    }
    r.push(plain_entry(Step::AttachWireGuard));
    r.push(undone_entry(Step::InsertLocalRecord, Cleanup::DeleteLocalRecord));
    r.push(undone_entry(Step::InsertRemoteRecord, Cleanup::DeleteRemoteRecord));
    r.push(undone_entry(Step::InsertUsageStart, Cleanup::CloseUsageSegment));
    assert(r@ =~= new_vm_plan_spec(write_env));
    r
}

pub fn vm_from_commit_plan(write_env: bool) -> (r: Vec<PlanEntry>)
    ensures
        r@ == vm_from_commit_plan_spec(write_env),
{
    let mut r = vec![
        plain_entry(Step::FetchCommitMetadata),
        plain_entry(Step::CheckReservation),
        plain_entry(Step::DownloadCommitFiles),
        undone_entry(Step::ReserveNetwork, Cleanup::ReleaseNetwork),
        undone_entry(Step::CreateVolumeFromCommit, Cleanup::DeleteVolume),
        plain_entry(Step::ParseSshKey),
        plain_entry(Step::EnsureTap),
        undone_entry(Step::SpawnProcessFromCommit, Cleanup::KillProcess),
    ];
    if write_env {
        r.push(plain_entry(Step::SpawnEnvWriter));
    }
    r.push(PlanEntry {
        step: Step::AttachWireGuard,
        cleanup: Some(Cleanup::DetachNetwork),
        cleanup_first: true,
        failure_tolerated: false,
    });
    r.push(undone_entry(Step::InsertLocalRecord, Cleanup::DeleteLocalRecord));
    r.push(undone_entry(Step::InsertRemoteRecord, Cleanup::DeleteRemoteRecord));
    r.push(plain_entry(Step::InsertUsageStart));
    assert(r@ =~= vm_from_commit_plan_spec(write_env));
    r
}

pub fn wake_vm_plan() -> (r: Vec<PlanEntry>)
    ensures
        r@ == wake_vm_plan_spec(),
{
    let r = vec![
        plain_entry(Step::CheckVmIsSleeping),
        plain_entry(Step::FetchSleepSnapshotRecord),
        plain_entry(Step::CheckReservation),
        plain_entry(Step::DownloadSleepSnapshotFiles),
        undone_entry(Step::ReserveNetwork, Cleanup::ReleaseNetwork),
        undone_entry(Step::CreateVolumeFromSleepSnapshot, Cleanup::DeleteVolume),
        plain_entry(Step::ParseSshKey),
        plain_entry(Step::EnsureTap),
        undone_entry(Step::SpawnProcessFromSleepSnapshot, Cleanup::KillProcess),
        undone_entry(Step::AttachWireGuard, Cleanup::DetachNetwork),
        undone_entry(Step::InsertLocalRecord, Cleanup::DeleteLocalRecord),
        plain_entry(Step::DeleteSleepSnapshotRecord),
        plain_entry(Step::DeleteSleepSnapshotFiles),
        plain_entry(Step::InsertUsageStart),
    ];
    assert(r@ =~= wake_vm_plan_spec());
    r
}

pub fn reboot_vm_plan() -> (r: Vec<PlanEntry>)
    ensures
        r@ == reboot_vm_plan_spec(),
{
    let r = vec![
        plain_entry(Step::LoadVm),
        PlanEntry { step: Step::KillOldProcess, cleanup: None, cleanup_first: false, failure_tolerated: true },
        undone_entry(Step::MarkVmBooting, Cleanup::AbortBoot),
        plain_entry(Step::EnsureTap),
        undone_entry(Step::SpawnProcess, Cleanup::KillProcess),
        plain_entry(Step::StartReadyMonitor),
        plain_entry(Step::UpdateProcessPid),
    ];
    assert(r@ =~= reboot_vm_plan_spec());
    r
}

pub fn ch_restore_plan(install_ssh_key: bool) -> (r: Vec<PlanEntry>)
    ensures
        r@ == ch_restore_plan_spec(install_ssh_key),
{
    let mut r = vec![
        undone_entry(Step::CreateJailRoot, Cleanup::RemoveJailRoot),
        plain_entry(Step::ResolveSnapshotFilepaths),
        plain_entry(Step::PrepareRestore),
        plain_entry(Step::CreateProcessLogs),
        plain_entry(Step::StartHypervisorProcess),
        plain_entry(Step::RestoreVm),
        plain_entry(Step::RestoreTapDevice),
        undone_entry(Step::ResumeVm, Cleanup::KillHypervisorProcess),
    ];
    if install_ssh_key {
        r.push(plain_entry(Step::InstallSshKey));
    }
    r.push(plain_entry(Step::WriteVmMetadata));
    assert(r@ =~= ch_restore_plan_spec(install_ssh_key));
    r
}

pub fn network_slot_plan(stale_record: bool) -> (r: Vec<PlanEntry>)
    ensures
        r@ == network_slot_plan_spec(stale_record),
{
    let mut r: Vec<PlanEntry> = Vec::new();
    if stale_record {
        r.push(plain_entry(Step::DeleteNetworkRecord));
    }
    r.push(undone_entry(Step::BuildNetwork, Cleanup::DeleteNetwork));
    r.push(plain_entry(Step::InsertNetworkRecord));
    assert(r@ =~= network_slot_plan_spec(stale_record));
    r
}

pub fn vm_network_plan(add_ssh_rule: bool) -> (r: Vec<PlanEntry>)
    ensures
        r@ == vm_network_plan_spec(add_ssh_rule),
{
    let mut r = vec![
        undone_entry(Step::AddNamespace, Cleanup::DeleteNamespace),
        plain_entry(Step::AddVethPair),
        plain_entry(Step::SetDefaultRoute),
        plain_entry(Step::AddTap),
        plain_entry(Step::EnablePacketForwarding),
    ];
    if add_ssh_rule {
        r.push(plain_entry(Step::AddInboundSshRule));
    }
    assert(r@ =~= vm_network_plan_spec(add_ssh_rule));
    r
}

/// When a VM network's build fails at any step after its namespace was
/// added, the namespace is deleted and then the failed step's own error is
/// reported, whatever the deletion's outcome.
pub proof fn lemma_vm_network_failure_deletes_namespace<E>(add_ssh_rule: bool, k: nat, e: E, o: Outcome<E>)
    requires
        1 <= k < vm_network_plan_spec(add_ssh_rule).len(),
    ensures
        rollback_run(vm_network_plan_spec(add_ssh_rule), successes::<E>(k) + seq![Outcome::Failed(e), o])
            == runs::<E>(vm_network_plan_spec(add_ssh_rule).take(k + 1int)) + seq![
            RollbackAction::Release(Cleanup::DeleteNamespace),
            RollbackAction::Finish(Err(e)),
        ],
{
    let plan = vm_network_plan_spec(add_ssh_rule);
    lemma_network_registered(add_ssh_rule, k as int);
    assert(acquired_before_failure(plan, k as int) =~= seq![Cleanup::DeleteNamespace]);
    lemma_failed_operation_releases_everything_in_reverse(plan, k, e, seq![o]);
    assert(seq![Outcome::Failed(e), o] =~= seq![Outcome::Failed(e)] + seq![o]);
    assert(successes::<E>(k) + seq![Outcome::Failed(e), o] =~= successes::<E>(k) + seq![Outcome::Failed(e)] + seq![o]);
    assert_seqs_equal!(
        releases::<E>(seq![Cleanup::DeleteNamespace].reverse()).push(RollbackAction::Finish(Err(e))),
        seq![RollbackAction::Release(Cleanup::DeleteNamespace), RollbackAction::Finish(Err(e))]
    );
}

/// A VM that is not sleeping is refused by the first step of waking it,
/// with nothing fetched or acquired.
pub proof fn lemma_refused_wake_acquires_nothing<E>(e: E)
    ensures
        rollback_run(wake_vm_plan_spec(), successes::<E>(0) + seq![Outcome::Failed(e)]) == seq![
            RollbackAction::<E>::Run(Step::CheckVmIsSleeping),
            RollbackAction::Finish(Err(e)),
        ],
{
    let plan = wake_vm_plan_spec();
    assert(plan.take(0) =~= Seq::<PlanEntry>::empty());
    assert(registered(plan.take(0)) == Seq::<Cleanup>::empty());
    assert(acquired_before_failure(plan, 0) =~= Seq::<Cleanup>::empty());
    lemma_failed_operation_releases_everything_in_reverse(plan, 0, e, Seq::empty());
    assert(successes::<E>(0) + seq![Outcome::Failed(e)] + Seq::<Outcome<E>>::empty() =~= successes::<E>(0) + seq![
        Outcome::Failed(e),
    ]);
    assert(plan.take(1) =~= seq![plan[0]]);
    assert_seqs_equal!(runs::<E>(plan.take(1)), seq![RollbackAction::<E>::Run(Step::CheckVmIsSleeping)]);
    assert_seqs_equal!(
        releases::<E>(Seq::<Cleanup>::empty().reverse()).push(RollbackAction::Finish(Err(e))),
        seq![RollbackAction::<E>::Finish(Err(e))]
    );
}

/// A VM created from a commit whose reservation check fails has had its
/// commit's metadata fetched and nothing else: no file downloaded, no
/// network or volume acquired.
pub proof fn lemma_refused_commit_reservation_acquires_nothing<E>(write_env: bool, e: E)
    ensures
        rollback_run(vm_from_commit_plan_spec(write_env), successes::<E>(1) + seq![Outcome::Failed(e)]) == seq![
            RollbackAction::<E>::Run(Step::FetchCommitMetadata),
            RollbackAction::Run(Step::CheckReservation),
            RollbackAction::Finish(Err(e)),
        ],
{
    let plan = vm_from_commit_plan_spec(write_env);
    assert(plan.take(0) =~= Seq::<PlanEntry>::empty());
    assert(plan.take(1).drop_last() =~= plan.take(0));
    assert(registered(plan.take(0)) == Seq::<Cleanup>::empty());
    assert(plan[0] == plain(Step::FetchCommitMetadata));
    assert(plan.take(1).last() == plan[0]);
    assert(registered(plan.take(1)) =~= Seq::<Cleanup>::empty());
    assert(acquired_before_failure(plan, 1) =~= Seq::<Cleanup>::empty());
    lemma_failed_operation_releases_everything_in_reverse(plan, 1, e, Seq::empty());
    assert(successes::<E>(1) + seq![Outcome::Failed(e)] + Seq::<Outcome<E>>::empty() =~= successes::<E>(1) + seq![
        Outcome::Failed(e),
    ]);
    assert(plan.take(2) =~= seq![plan[0], plan[1]]);
    assert_seqs_equal!(
        runs::<E>(plan.take(2)),
        seq![RollbackAction::<E>::Run(Step::FetchCommitMetadata), RollbackAction::Run(Step::CheckReservation)]
    );
    assert_seqs_equal!(
        releases::<E>(Seq::<Cleanup>::empty().reverse()).push(RollbackAction::Finish(Err(e))),
        seq![RollbackAction::<E>::Finish(Err(e))]
    );
}

proof fn lemma_network_registered(add_ssh_rule: bool, j: int)
    requires
        1 <= j <= vm_network_plan_spec(add_ssh_rule).len(),
    ensures
        registered(vm_network_plan_spec(add_ssh_rule).take(j)) =~= seq![Cleanup::DeleteNamespace],
    decreases j,
{
    let plan = vm_network_plan_spec(add_ssh_rule);
    assert(plan.take(j).drop_last() =~= plan.take(j - 1));
    if j == 1 {
        assert(plan.take(0) =~= Seq::<PlanEntry>::empty());
        assert(registered(plan.take(0)) == Seq::<Cleanup>::empty());
    } else {
        lemma_network_registered(add_ssh_rule, j - 1);
        assert(plan.take(j).last() == plan[j - 1]);
        assert(plan[j - 1].cleanup is None);
    }
}

impl<E> Rollback<E> {
    #[verifier::type_invariant]
    spec fn well_formed(self) -> bool {
        &&& self.done <= self.plan.len()
        &&& match self.stage {
            RollbackStage::Running => self.done < self.plan.len() && self.error is None,
            RollbackStage::Unwinding => self.error is Some,
            RollbackStage::Finished => self.error is None,
        }
    }

    fn finished() -> (r: Self)
        ensures
            r@.stage == RollbackStage::Finished,
    {
        Rollback {
            plan: Vec::new(),
            done: 0,
            held: Vec::new(),
            error: None,
            stage: RollbackStage::Finished,
        }
    }

    /// Starts running `plan`; the action is the first step (or, for an
    /// empty plan, success).
    pub fn start(plan: Vec<PlanEntry>) -> (r: (Self, RollbackAction<E>))
        ensures
            (r.0@, r.1) == rollback_start::<E>(plan@),
    {
        if plan.len() == 0 {
            (
                Rollback { plan, done: 0, held: Vec::new(), error: None, stage: RollbackStage::Finished },
                RollbackAction::Finish(Ok(())),
            )
        } else {
            let first = plan[0].step;
            (
                Rollback { plan, done: 0, held: Vec::new(), error: None, stage: RollbackStage::Running },
                RollbackAction::Run(first),
            )
        }
    }

    pub fn is_finished(&self) -> (r: bool)
        ensures
            r == (self@.stage == RollbackStage::Finished),
    {
        self.stage == RollbackStage::Finished
    }

    /// The registered cleanups not handed out yet, oldest first.
    pub fn held_cleanups(&self) -> (r: Vec<Cleanup>)
        ensures
            r@ == self@.held,
    {
        let mut r: Vec<Cleanup> = Vec::new();
        for i in 0..self.held.len()
            invariant
                r@ == self.held@.take(i as int),
        {
            r.push(self.held[i]);
            assert(r@ =~= self.held@.take(i + 1));
        }
        assert(self.held@.take(self.held@.len() as int) =~= self.held@);
        r
    }

    fn unwinding(plan: Vec<PlanEntry>, done: usize, held: Vec<Cleanup>, e: E) -> (r: (
        Self,
        RollbackAction<E>,
    ))
        requires
            done <= plan.len(),
        ensures
            (r.0@, r.1) == unwind(plan@, done as nat, held@, e),
    {
        let mut held = held;
        match held.pop() {
            None => (
                Rollback { plan, done, held, error: None, stage: RollbackStage::Finished },
                RollbackAction::Finish(Err(e)),
            ),
            Some(c) => (
                Rollback { plan, done, held, error: Some(e), stage: RollbackStage::Unwinding },
                RollbackAction::Release(c),
            ),
        }
    }

    /// Takes the outcome of the last action and returns the next one.
    pub fn step(&mut self, event: Outcome<E>) -> (r: RollbackAction<E>)
        requires
            old(self)@.stage != RollbackStage::Finished,
        ensures
            (final(self)@, r) == rollback_next(old(self)@, event),
    {
        proof {
            use_type_invariant(&*self);
        }
        let mut cur = Self::finished();
        std::mem::swap(&mut cur, self);
        proof {
            use_type_invariant(&cur);
        }
        let Rollback { plan, done, held, error, stage } = cur;
        let mut held = held;
        match stage {
            RollbackStage::Running => {
                let entry = plan[done];
                match event {
                    Outcome::Failed(e) if !entry.failure_tolerated => {
                        if entry.cleanup_first {
                            if let Some(c) = entry.cleanup {
                                held.push(c);
                            }
                        }
                        let (m, a) = Self::unwinding(plan, done, held, e);
                        *self = m;
                        a
                    },
                    _ => {
                        if let Some(c) = entry.cleanup {
                            held.push(c);
                        }
                        let next = done + 1;
                        if next == plan.len() {
                            *self = Rollback { plan, done: next, held, error: None, stage: RollbackStage::Finished };
                            RollbackAction::Finish(Ok(()))
                        } else {
                            let s = plan[next].step;
                            *self = Rollback { plan, done: next, held, error: None, stage: RollbackStage::Running };
                            RollbackAction::Run(s)
                        }
                    },
                }
            },
            RollbackStage::Unwinding => {
                match error {
                    Some(e) => {
                        let (m, a) = Self::unwinding(plan, done, held, e);
                        *self = m;
                        a
                    },
                    None => {
                        proof {
                            assert(false);
                        }
                        RollbackAction::Finish(Ok(()))
                    },
                }
            },
            RollbackStage::Finished => {
                proof {
                    assert(false);
                }
                RollbackAction::Finish(Ok(()))
            },
        }
    }
}

/// Waiting for a VM's boot after its creation (or reboot) succeeded: the
/// plan's cleanups stay held until the VM has booted. If the boot fails,
/// they are handed out newest first, then the orchestrator is told, then the
/// boot's error is reported.
pub enum BootWatchAction<E> {
    AwaitBoot,
    Release(Cleanup),
    NotifyBootFailed,
    Finish(Result<(), E>),
}

#[derive(Clone, Copy, PartialEq, Eq, Structural, Debug)]
pub enum BootWatchStage {
    Waiting,
    Releasing,
    Notifying,
    Finished,
}

pub struct BootWatch<E> {
    stage: BootWatchStage,
    held: Vec<Cleanup>,
    error: Option<E>,
}

pub struct BootWatchView<E> {
    pub stage: BootWatchStage,
    pub held: Seq<Cleanup>,
    pub error: Option<E>,
}

impl<E> View for BootWatch<E> {
    type V = BootWatchView<E>;

    closed spec fn view(&self) -> BootWatchView<E> {
        BootWatchView { stage: self.stage, held: self.held@, error: self.error }
    }
}

/// Hand out the newest held cleanup, or tell the orchestrator once none is
/// left.
pub open spec fn watch_release<E>(held: Seq<Cleanup>, e: E) -> (BootWatchView<E>, BootWatchAction<E>) {
    if held.len() == 0 {
        (BootWatchView { stage: BootWatchStage::Notifying, held, error: Some(e) }, BootWatchAction::NotifyBootFailed)
    } else {
        (
            BootWatchView { stage: BootWatchStage::Releasing, held: held.drop_last(), error: Some(e) },
            BootWatchAction::Release(held.last()),
        )
    }
}

pub open spec fn watch_next<E>(s: BootWatchView<E>, o: Outcome<E>) -> (BootWatchView<E>, BootWatchAction<E>) {
    match s.stage {
        BootWatchStage::Waiting => match o {
            Outcome::Succeeded => (
                BootWatchView { stage: BootWatchStage::Finished, error: None, ..s },
                BootWatchAction::Finish(Ok(())),
            ),
            Outcome::Failed(e) => watch_release(s.held, e),
        },
        BootWatchStage::Releasing => match s.error {
            Some(e) => watch_release(s.held, e),
            None => (s, BootWatchAction::Finish(Ok(()))),
        },
        BootWatchStage::Notifying => (
            BootWatchView { stage: BootWatchStage::Finished, error: None, ..s },
            match s.error {
                Some(e) => BootWatchAction::Finish(Err(e)),
                None => BootWatchAction::Finish(Ok(())),
            },
        ),
        BootWatchStage::Finished => (s, BootWatchAction::Finish(Ok(()))),
    }
}

pub open spec fn watch_trace<E>(s: BootWatchView<E>, outcomes: Seq<Outcome<E>>) -> Seq<BootWatchAction<E>>
    decreases outcomes.len(),
{
    if outcomes.len() == 0 || s.stage == BootWatchStage::Finished {
        Seq::empty()
    } else {
        let (t, a) = watch_next(s, outcomes[0]);
        seq![a] + watch_trace(t, outcomes.drop_first())
    }
}

pub open spec fn watch_releases<E>(cleanups: Seq<Cleanup>) -> Seq<BootWatchAction<E>> {
    cleanups.map_values(|c: Cleanup| BootWatchAction::Release(c))
}

proof fn lemma_watch_release_trace<E>(held: Seq<Cleanup>, e: E, rest: Seq<Outcome<E>>)
    requires
        rest.len() == held.len() + 1,
    ensures
        ({
            let (t, a) = watch_release(held, e);
            seq![a] + watch_trace(t, rest) == watch_releases::<E>(held.reverse()).push(
                BootWatchAction::NotifyBootFailed,
            ).push(BootWatchAction::Finish(Err(e)))
        }),
    decreases held.len(),
{
    let (t, a) = watch_release(held, e);
    if held.len() == 0 {
        let (u, b) = watch_next(t, rest[0]);
        assert(watch_trace(t, rest) == seq![b] + watch_trace(u, rest.drop_first()));
        assert(watch_trace(u, rest.drop_first()) == Seq::<BootWatchAction<E>>::empty());
        assert_seqs_equal!(
            seq![a] + watch_trace(t, rest),
            watch_releases::<E>(held.reverse()).push(BootWatchAction::NotifyBootFailed).push(
                BootWatchAction::Finish(Err(e)),
            )
        );
    } else {
        let rest2 = rest.drop_first();
        lemma_watch_release_trace(held.drop_last(), e, rest2);
        assert(watch_next(t, rest[0]) == watch_release(held.drop_last(), e));
        assert(watch_trace(t, rest) == seq![watch_release(held.drop_last(), e).1] + watch_trace(
            watch_release(held.drop_last(), e).0,
            rest2,
        ));
        assert(held.reverse() =~= seq![held.last()] + held.drop_last().reverse());
        assert_seqs_equal!(
            seq![a] + watch_trace(t, rest),
            watch_releases::<E>(held.reverse()).push(BootWatchAction::NotifyBootFailed).push(
                BootWatchAction::Finish(Err(e)),
            )
        );
    }
}

/// A VM that fails to boot has every held cleanup handed out, newest first;
/// then the orchestrator is told, and only then is the boot's error
/// reported, whatever the cleanups' outcomes. A VM that boots keeps
/// everything.
pub proof fn lemma_boot_failure_releases_then_notifies<E>(held: Seq<Cleanup>, e: E, rest: Seq<Outcome<E>>)
    requires
        rest.len() == held.len() + 1,
    ensures
        watch_trace(
            BootWatchView { stage: BootWatchStage::Waiting, held, error: None },
            seq![Outcome::Failed(e)] + rest,
        ) == watch_releases::<E>(held.reverse()).push(BootWatchAction::NotifyBootFailed).push(
            BootWatchAction::Finish(Err(e)),
        ),
        watch_next(BootWatchView { stage: BootWatchStage::Waiting, held, error: None }, Outcome::<E>::Succeeded).1
            == BootWatchAction::<E>::Finish(Ok(())),
{
    let s = BootWatchView::<E> { stage: BootWatchStage::Waiting, held, error: None };
    let events = seq![Outcome::Failed(e)] + rest;
    assert(events[0] == Outcome::<E>::Failed(e));
    assert(events.drop_first() =~= rest);
    lemma_watch_release_trace(held, e, rest);
}

impl<E> BootWatch<E> {
    #[verifier::type_invariant]
    spec fn well_formed(self) -> bool {
        (self.stage == BootWatchStage::Releasing || self.stage == BootWatchStage::Notifying) ==> self.error is Some
    }

    /// Starts waiting for the boot, holding `held` (oldest first).
    pub fn start(held: Vec<Cleanup>) -> (r: (Self, BootWatchAction<E>))
        ensures
            r.0@ == (BootWatchView::<E> { stage: BootWatchStage::Waiting, held: held@, error: None }),
            r.1 == BootWatchAction::<E>::AwaitBoot,
    {
        (BootWatch { stage: BootWatchStage::Waiting, held, error: None }, BootWatchAction::AwaitBoot)
    }

    pub fn is_finished(&self) -> (r: bool)
        ensures
            r == (self@.stage == BootWatchStage::Finished),
    {
        self.stage == BootWatchStage::Finished
    }

    fn releasing(held: Vec<Cleanup>, e: E) -> (r: (Self, BootWatchAction<E>))
        ensures
            (r.0@, r.1) == watch_release(held@, e),
    {
        let mut held = held;
        match held.pop() {
            None => (BootWatch { stage: BootWatchStage::Notifying, held, error: Some(e) }, BootWatchAction::NotifyBootFailed),
            Some(c) => (BootWatch { stage: BootWatchStage::Releasing, held, error: Some(e) }, BootWatchAction::Release(c)),
        }
    }

    /// Takes the outcome of the last action and returns the next one.
    pub fn step(&mut self, event: Outcome<E>) -> (r: BootWatchAction<E>)
        requires
            old(self)@.stage != BootWatchStage::Finished,
        ensures
            (final(self)@, r) == watch_next(old(self)@, event),
    {
        let mut cur = BootWatch { stage: BootWatchStage::Finished, held: Vec::new(), error: None };
        std::mem::swap(&mut cur, self);
        proof {
            use_type_invariant(&cur);
        }
        let BootWatch { stage, held, error } = cur;
        let (next, action) = match stage {
            BootWatchStage::Waiting => match event {
                Outcome::Succeeded => (
                    BootWatch { stage: BootWatchStage::Finished, held, error: None },
                    BootWatchAction::Finish(Ok(())),
                ),
                Outcome::Failed(e) => Self::releasing(held, e),
            },
            BootWatchStage::Releasing => match error {
                Some(e) => Self::releasing(held, e),
                None => (BootWatch { stage: BootWatchStage::Releasing, held, error: None }, BootWatchAction::Finish(Ok(()))),
            },
            BootWatchStage::Notifying => {
                let m = BootWatch { stage: BootWatchStage::Finished, held, error: None };
                match error {
                    Some(e) => (m, BootWatchAction::Finish(Err(e))),
                    None => (m, BootWatchAction::Finish(Ok(()))),
                }
            },
            BootWatchStage::Finished => (BootWatch { stage: BootWatchStage::Finished, held, error: None }, BootWatchAction::Finish(Ok(()))),
        };
        *self = next;
        action
    }
}

/// In `plan`, once a step `acquiring` has succeeded, a failure of any later
/// step hands out `cleanup` before its error is reported.
pub open spec fn undoes(plan: Seq<PlanEntry>, acquiring: Step, cleanup: Cleanup) -> bool {
    forall|j: int, k: int|
        #![trigger plan[j], acquired_before_failure(plan, k)]
        0 <= j < k < plan.len() && plan[j].step == acquiring ==> acquired_before_failure(plan, k).contains(
            cleanup,
        )
}

/// In `plan`, a failure of step `guarded` itself, or of any later step,
/// hands out `cleanup` before its error is reported.
pub open spec fn guards(plan: Seq<PlanEntry>, guarded: Step, cleanup: Cleanup) -> bool {
    forall|j: int, k: int|
        #![trigger plan[j], acquired_before_failure(plan, k)]
        0 <= j <= k < plan.len() && plan[j].step == guarded ==> acquired_before_failure(plan, k).contains(
            cleanup,
        )
}

proof fn lemma_registered_contains(entries: Seq<PlanEntry>, j: int)
    requires
        0 <= j < entries.len(),
        entries[j].cleanup is Some,
    ensures
        registered(entries).contains(entries[j].cleanup->0),
    decreases entries.len(),
{
    let init = entries.drop_last();
    if j == entries.len() - 1 {
        assert(registered(entries) == registered(init).push(entries[j].cleanup->0));
        assert(registered(entries)[registered(init).len() as int] == entries[j].cleanup->0);
    } else {
        assert(init[j] == entries[j]);
        lemma_registered_contains(init, j);
        let r = registered(init);
        let i = choose|i: int| 0 <= i < r.len() && r[i] == entries[j].cleanup->0;
        match entries.last().cleanup {
            Some(c) => {
                assert(registered(entries) == r.push(c));
                assert(registered(entries)[i] == r[i]);
            },
            None => {},
        }
    }
}

proof fn lemma_acquired_contains(plan: Seq<PlanEntry>, j: int, k: int)
    requires
        0 <= j < k < plan.len(),
        plan[j].cleanup is Some,
    ensures
        acquired_before_failure(plan, k).contains(plan[j].cleanup->0),
{
    let t = plan.take(k);
    assert(t[j] == plan[j]);
    lemma_registered_contains(t, j);
    let r = registered(t);
    let i = choose|i: int| 0 <= i < r.len() && r[i] == plan[j].cleanup->0;
    match plan[k].cleanup {
        Some(c) => if plan[k].cleanup_first {
            assert(acquired_before_failure(plan, k) == r.push(c));
            assert(acquired_before_failure(plan, k)[i] == r[i]);
        },
        None => {},
    }
}

proof fn lemma_acquired_contains_own(plan: Seq<PlanEntry>, k: int)
    requires
        0 <= k < plan.len(),
        plan[k].cleanup is Some,
        plan[k].cleanup_first,
    ensures
        acquired_before_failure(plan, k).contains(plan[k].cleanup->0),
{
    let r = registered(plan.take(k));
    assert(acquired_before_failure(plan, k) == r.push(plan[k].cleanup->0));
    assert(acquired_before_failure(plan, k)[r.len() as int] == plan[k].cleanup->0);
}

/// Every entry of `plan` for step `acquiring` registers `cleanup`.
spec fn registers(plan: Seq<PlanEntry>, acquiring: Step, cleanup: Cleanup) -> bool {
    forall|j: int| 0 <= j < plan.len() && #[trigger] plan[j].step == acquiring ==> plan[j].cleanup == Some(cleanup)
}

proof fn lemma_registers_undoes(plan: Seq<PlanEntry>, acquiring: Step, cleanup: Cleanup)
    requires
        registers(plan, acquiring, cleanup),
    ensures
        undoes(plan, acquiring, cleanup),
{
    assert forall|j: int, k: int|
        #![trigger plan[j], acquired_before_failure(plan, k)]
        0 <= j < k < plan.len() && plan[j].step == acquiring implies acquired_before_failure(plan, k).contains(
            cleanup,
        ) by {
        lemma_acquired_contains(plan, j, k);
    }
}

proof fn lemma_registers_guards(plan: Seq<PlanEntry>, guarded: Step, cleanup: Cleanup)
    requires
        registers(plan, guarded, cleanup),
        forall|j: int| 0 <= j < plan.len() && #[trigger] plan[j].step == guarded ==> plan[j].cleanup_first,
    ensures
        guards(plan, guarded, cleanup),
{
    assert forall|j: int, k: int|
        #![trigger plan[j], acquired_before_failure(plan, k)]
        0 <= j <= k < plan.len() && plan[j].step == guarded implies acquired_before_failure(plan, k).contains(
            cleanup,
        ) by {
        if j < k {
            lemma_acquired_contains(plan, j, k);
        } else {
            lemma_acquired_contains_own(plan, k);
        }
    }
}

/// Every resource that creating a VM acquires is given back when a later
/// step fails: its network, volume, boot registration, process, local and
/// remote records; and a VM whose creation succeeded holds all of these and
/// its usage segment while it boots.
pub proof fn lemma_new_vm_undoes_acquisitions(write_env: bool)
    ensures
        undoes(new_vm_plan_spec(write_env), Step::ReserveNetwork, Cleanup::ReleaseNetwork),
        undoes(new_vm_plan_spec(write_env), Step::CreateVolumeFromBaseImage, Cleanup::DeleteVolume),
        undoes(new_vm_plan_spec(write_env), Step::MarkVmBooting, Cleanup::AbortBoot),
        undoes(new_vm_plan_spec(write_env), Step::SpawnProcess, Cleanup::KillProcess),
        undoes(new_vm_plan_spec(write_env), Step::InsertLocalRecord, Cleanup::DeleteLocalRecord),
        undoes(new_vm_plan_spec(write_env), Step::InsertRemoteRecord, Cleanup::DeleteRemoteRecord),
        registered(new_vm_plan_spec(write_env)) =~= seq![
            Cleanup::ReleaseNetwork,
            Cleanup::DeleteVolume,
            Cleanup::AbortBoot,
            Cleanup::KillProcess,
            Cleanup::DeleteLocalRecord,
            Cleanup::DeleteRemoteRecord,
            Cleanup::CloseUsageSegment,
        ],
{
    let plan = new_vm_plan_spec(write_env);
    lemma_registers_undoes(plan, Step::ReserveNetwork, Cleanup::ReleaseNetwork);
    lemma_registers_undoes(plan, Step::CreateVolumeFromBaseImage, Cleanup::DeleteVolume);
    lemma_registers_undoes(plan, Step::MarkVmBooting, Cleanup::AbortBoot);
    lemma_registers_undoes(plan, Step::SpawnProcess, Cleanup::KillProcess);
    lemma_registers_undoes(plan, Step::InsertLocalRecord, Cleanup::DeleteLocalRecord);
    lemma_registers_undoes(plan, Step::InsertRemoteRecord, Cleanup::DeleteRemoteRecord);
    lemma_registered_in_order(plan);
    reveal_with_fuel(registered_by_index, 13);
    if write_env {
        assert(plan.len() == 12);
    } else {
        assert(plan.len() == 11);
    }
}

/// Every resource that creating a VM from a commit acquires is given back
/// when a later step fails: its network, volume, process, local and remote
/// records; and the network manager's state is also given back when the
/// WireGuard attachment itself fails.
pub proof fn lemma_vm_from_commit_undoes_acquisitions(write_env: bool)
    ensures
        undoes(vm_from_commit_plan_spec(write_env), Step::ReserveNetwork, Cleanup::ReleaseNetwork),
        undoes(vm_from_commit_plan_spec(write_env), Step::CreateVolumeFromCommit, Cleanup::DeleteVolume),
        undoes(vm_from_commit_plan_spec(write_env), Step::SpawnProcessFromCommit, Cleanup::KillProcess),
        guards(vm_from_commit_plan_spec(write_env), Step::AttachWireGuard, Cleanup::DetachNetwork),
        undoes(vm_from_commit_plan_spec(write_env), Step::InsertLocalRecord, Cleanup::DeleteLocalRecord),
        undoes(vm_from_commit_plan_spec(write_env), Step::InsertRemoteRecord, Cleanup::DeleteRemoteRecord),
{
    let plan = vm_from_commit_plan_spec(write_env);
    lemma_registers_undoes(plan, Step::ReserveNetwork, Cleanup::ReleaseNetwork);
    lemma_registers_undoes(plan, Step::CreateVolumeFromCommit, Cleanup::DeleteVolume);
    lemma_registers_undoes(plan, Step::SpawnProcessFromCommit, Cleanup::KillProcess);
    lemma_registers_guards(plan, Step::AttachWireGuard, Cleanup::DetachNetwork);
    lemma_registers_undoes(plan, Step::InsertLocalRecord, Cleanup::DeleteLocalRecord);
    lemma_registers_undoes(plan, Step::InsertRemoteRecord, Cleanup::DeleteRemoteRecord);
}

/// Every resource that waking a VM acquires is given back when a later step
/// fails: its network, volume, process, network manager state and local
/// record.
pub proof fn lemma_wake_vm_undoes_acquisitions()
    ensures
        undoes(wake_vm_plan_spec(), Step::ReserveNetwork, Cleanup::ReleaseNetwork),
        undoes(wake_vm_plan_spec(), Step::CreateVolumeFromSleepSnapshot, Cleanup::DeleteVolume),
        undoes(wake_vm_plan_spec(), Step::SpawnProcessFromSleepSnapshot, Cleanup::KillProcess),
        undoes(wake_vm_plan_spec(), Step::AttachWireGuard, Cleanup::DetachNetwork),
        undoes(wake_vm_plan_spec(), Step::InsertLocalRecord, Cleanup::DeleteLocalRecord),
{
    let plan = wake_vm_plan_spec();
    lemma_registers_undoes(plan, Step::ReserveNetwork, Cleanup::ReleaseNetwork);
    lemma_registers_undoes(plan, Step::CreateVolumeFromSleepSnapshot, Cleanup::DeleteVolume);
    lemma_registers_undoes(plan, Step::SpawnProcessFromSleepSnapshot, Cleanup::KillProcess);
    lemma_registers_undoes(plan, Step::AttachWireGuard, Cleanup::DetachNetwork);
    lemma_registers_undoes(plan, Step::InsertLocalRecord, Cleanup::DeleteLocalRecord);
}

/// Rebooting gives back the boot registration and the new process when a
/// later step fails, and holds both while the VM boots.
pub proof fn lemma_reboot_undoes_acquisitions()
    ensures
        undoes(reboot_vm_plan_spec(), Step::MarkVmBooting, Cleanup::AbortBoot),
        undoes(reboot_vm_plan_spec(), Step::SpawnProcess, Cleanup::KillProcess),
        registered(reboot_vm_plan_spec()) =~= seq![Cleanup::AbortBoot, Cleanup::KillProcess],
{
    let plan = reboot_vm_plan_spec();
    lemma_registers_undoes(plan, Step::MarkVmBooting, Cleanup::AbortBoot);
    lemma_registers_undoes(plan, Step::SpawnProcess, Cleanup::KillProcess);
    lemma_registered_in_order(plan);
    reveal_with_fuel(registered_by_index, 8);
    assert(plan.len() == 7);
}

/// Restoring a process removes its jail root when any later step fails, and
/// kills the process when a step after its resume fails.
pub proof fn lemma_ch_restore_undoes_acquisitions(install_ssh_key: bool)
    ensures
        undoes(ch_restore_plan_spec(install_ssh_key), Step::CreateJailRoot, Cleanup::RemoveJailRoot),
        undoes(ch_restore_plan_spec(install_ssh_key), Step::ResumeVm, Cleanup::KillHypervisorProcess),
{
    let plan = ch_restore_plan_spec(install_ssh_key);
    lemma_registers_undoes(plan, Step::CreateJailRoot, Cleanup::RemoveJailRoot);
    lemma_registers_undoes(plan, Step::ResumeVm, Cleanup::KillHypervisorProcess);
}

/// Making a network slot ready deletes the built network when its record
/// cannot be stored, whether or not a stale record was deleted first: the
/// failed insertion hands out exactly that deletion.
pub proof fn lemma_network_slot_deletes_unrecorded_network(stale_record: bool, k: int)
    requires
        0 <= k < network_slot_plan_spec(stale_record).len(),
        network_slot_plan_spec(stale_record)[k].step == Step::InsertNetworkRecord,
    ensures
        acquired_before_failure(network_slot_plan_spec(stale_record), k) =~= seq![Cleanup::DeleteNetwork],
        undoes(network_slot_plan_spec(stale_record), Step::BuildNetwork, Cleanup::DeleteNetwork),
{
    let plan = network_slot_plan_spec(stale_record);
    lemma_registers_undoes(plan, Step::BuildNetwork, Cleanup::DeleteNetwork);
    lemma_registered_by_index(plan, k);
    reveal_with_fuel(registered_by_index, 4);
    if stale_record {
        assert(k == 2);
    } else {
        assert(k == 1);
    }
}

/// The cleanups a run of entries registers, oldest first, are those of its
/// entries that register one (spelled out entry by entry).
proof fn lemma_registered_in_order(entries: Seq<PlanEntry>)
    ensures
        registered(entries) == registered_by_index(entries, entries.len() as int),
{
    lemma_registered_by_index(entries, entries.len() as int);
    assert(entries.take(entries.len() as int) =~= entries);
}

spec fn registered_by_index(entries: Seq<PlanEntry>, n: int) -> Seq<Cleanup>
    decreases n,
{
    if n <= 0 {
        Seq::empty()
    } else {
        held_after_success(entries[n - 1], registered_by_index(entries, n - 1))
    }
}

proof fn lemma_registered_by_index(entries: Seq<PlanEntry>, n: int)
    requires
        0 <= n <= entries.len(),
    ensures
        registered(entries.take(n)) == registered_by_index(entries, n),
    decreases n,
{
    if n > 0 {
        lemma_registered_by_index(entries, n - 1);
        assert(entries.take(n).drop_last() =~= entries.take(n - 1));
        assert(entries.take(n).last() == entries[n - 1]);
    } else {
        assert(entries.take(0) =~= Seq::<PlanEntry>::empty());
    }
}

/// A VM whose reservation is refused is refused by the first step of
/// creating it, with nothing acquired.
pub proof fn lemma_refused_new_vm_reservation_acquires_nothing<E>(write_env: bool, e: E)
    ensures
        rollback_run(new_vm_plan_spec(write_env), successes::<E>(0) + seq![Outcome::Failed(e)]) == seq![
            RollbackAction::<E>::Run(Step::CheckReservation),
            RollbackAction::Finish(Err(e)),
        ],
{
    let plan = new_vm_plan_spec(write_env);
    assert(plan.take(0) =~= Seq::<PlanEntry>::empty());
    assert(registered(plan.take(0)) == Seq::<Cleanup>::empty());
    assert(acquired_before_failure(plan, 0) =~= Seq::<Cleanup>::empty());
    lemma_failed_operation_releases_everything_in_reverse(plan, 0, e, Seq::empty());
    assert(successes::<E>(0) + seq![Outcome::Failed(e)] + Seq::<Outcome<E>>::empty() =~= successes::<E>(0) + seq![
        Outcome::Failed(e),
    ]);
    assert(plan.take(1) =~= seq![plan[0]]);
    assert_seqs_equal!(runs::<E>(plan.take(1)), seq![RollbackAction::<E>::Run(Step::CheckReservation)]);
    assert_seqs_equal!(
        releases::<E>(Seq::<Cleanup>::empty().reverse()).push(RollbackAction::Finish(Err(e))),
        seq![RollbackAction::<E>::Finish(Err(e))]
    );
}

/// A reboot goes on when killing the old process fails: the next step runs
/// and nothing is released.
pub proof fn lemma_reboot_tolerates_failed_kill<E>(s: RollbackView<E>, e: E)
    requires
        s.stage == RollbackStage::Running,
        s.plan == reboot_vm_plan_spec(),
        s.done + 1 < s.plan.len(),
        s.plan[s.done as int].step == Step::KillOldProcess,
    ensures
        rollback_next(s, Outcome::Failed(e)).1 == RollbackAction::<E>::Run(s.plan[s.done + 1int].step),
        rollback_next(s, Outcome::Failed(e)).0.stage == RollbackStage::Running,
{
}

/// `plan` runs step `check` and runs it before any step that acquires
/// something to give back.
pub open spec fn checks_before_acquiring(plan: Seq<PlanEntry>, check: Step) -> bool {
    &&& exists|i: int| 0 <= i < plan.len() && #[trigger] plan[i].step == check
    &&& forall|i: int, j: int|
        0 <= i < plan.len() && 0 <= j < plan.len() && #[trigger] plan[i].step == check && (#[trigger] plan[j].cleanup)
            is Some ==> i < j
}

/// `plan` runs step `later` only after step `earlier`.
pub open spec fn runs_after(plan: Seq<PlanEntry>, later: Step, earlier: Step) -> bool {
    &&& exists|i: int| 0 <= i < plan.len() && #[trigger] plan[i].step == later
    &&& forall|i: int, j: int|
        0 <= i < plan.len() && 0 <= j < plan.len() && #[trigger] plan[i].step == later && #[trigger] plan[j].step
            == earlier ==> j < i
}

/// Creating a VM, creating one from a commit and waking one check the
/// reservation before acquiring anything; waking also checks that the VM is
/// sleeping first, and deletes its sleep snapshot (record and files) only
/// once the woken VM runs and is recorded.
pub proof fn lemma_checks_come_first(write_env: bool)
    ensures
        checks_before_acquiring(new_vm_plan_spec(write_env), Step::CheckReservation),
        checks_before_acquiring(vm_from_commit_plan_spec(write_env), Step::CheckReservation),
        checks_before_acquiring(wake_vm_plan_spec(), Step::CheckReservation),
        checks_before_acquiring(wake_vm_plan_spec(), Step::CheckVmIsSleeping),
        runs_after(wake_vm_plan_spec(), Step::DeleteSleepSnapshotRecord, Step::InsertLocalRecord),
        runs_after(wake_vm_plan_spec(), Step::DeleteSleepSnapshotRecord, Step::SpawnProcessFromSleepSnapshot),
        runs_after(wake_vm_plan_spec(), Step::DeleteSleepSnapshotFiles, Step::DeleteSleepSnapshotRecord),
{
    let a = new_vm_plan_spec(write_env);
    let b = vm_from_commit_plan_spec(write_env);
    let w = wake_vm_plan_spec();
    assert(a[0].step == Step::CheckReservation);
    assert(b[1].step == Step::CheckReservation);
    assert(w[2].step == Step::CheckReservation);
    assert(w[0].step == Step::CheckVmIsSleeping);
    assert(w[11].step == Step::DeleteSleepSnapshotRecord);
    assert(w[12].step == Step::DeleteSleepSnapshotFiles);
}

} // verus!
