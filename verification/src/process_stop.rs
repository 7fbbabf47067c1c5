//! Stopping a hypervisor process and waiting until it is gone, so that the
//! kernel releases its block devices and TAP devices before the next VM
//! wants them. The host signals the process, then probes it repeatedly;
//! these functions decide, after each probe, what the host does next.

use vstd::prelude::*;

verus! {

/// What a probe of the process (`kill(pid, 0)`) found.
#[derive(Debug, Clone, Copy, PartialEq, Eq)]
pub enum ProcessProbe {
    /// The process still exists.
    Alive,
    /// The process no longer exists (`ESRCH`).
    Gone,
    /// The probe failed for another reason.
    ProbeFailed,
}

/// What the host does after a probe.
#[derive(Debug, Clone, Copy, PartialEq, Eq)]
pub enum StopAction {
    /// Sleep for the given number of milliseconds, then probe again.
    Poll { sleep_ms: u64 },
    /// Send `SIGKILL`, sleep for the given number of milliseconds, then probe
    /// again.
    KillThenPoll { sleep_ms: u64 },
    /// The process is gone: sleep for the given number of milliseconds so the
    /// kernel can release the process's resources, then remove the VM's
    /// directory.
    ReleaseThenCleanup { sleep_ms: u64 },
    /// Stop waiting and remove the VM's directory.
    Cleanup,
}

/// How long the host waits for a Cloud Hypervisor process to exit.
pub const CH_WAIT_TIMEOUT_MS: u64 = 30000;

/// The interval between probes of a Cloud Hypervisor process.
pub const CH_POLL_INTERVAL_MS: u64 = 100;

/// How long after `SIGTERM` the host escalates to `SIGKILL`.
pub const CH_SIGKILL_AFTER_MS: u64 = 5000;

/// How long the host gives the kernel to release a Cloud Hypervisor
/// process's devices (RBD devices take a while).
pub const CH_KERNEL_RELEASE_DELAY_MS: u64 = 5000;

/// How long the host waits for a Firecracker process to exit after
/// `SIGKILL`.
pub const FC_WAIT_TIMEOUT_MS: u64 = 10000;

/// The interval between probes of a Firecracker process.
pub const FC_POLL_INTERVAL_MS: u64 = 50;

/// The wait for a Cloud Hypervisor process after `SIGTERM`: whether
/// `SIGKILL` has been sent yet.
#[derive(Debug, Clone, Copy, PartialEq, Eq)]
pub struct ChStopWait {
    pub sigkill_sent: bool,
}

impl ChStopWait {
    /// The wait right after `SIGTERM`.
    pub fn new() -> (r: Self)
        ensures
            !r.sigkill_sent,
    {
        ChStopWait { sigkill_sent: false }
    }

    /// Decides what follows a probe made `elapsed_ms` after `SIGTERM`. A
    /// process that is gone gets the kernel release delay, then cleanup; a
    /// failed probe ends the wait; a live process is abandoned once the wait
    /// times out, gets one `SIGKILL` once it has ignored `SIGTERM` for
    /// [`CH_SIGKILL_AFTER_MS`], and is polled again otherwise.
    pub fn step(&mut self, probe: ProcessProbe, elapsed_ms: u64) -> (r: StopAction)
        ensures
            (*final(self), r) == ch_stop_next(*old(self), probe, elapsed_ms),
    {
        match probe {
            ProcessProbe::Gone => StopAction::ReleaseThenCleanup {
                sleep_ms: CH_KERNEL_RELEASE_DELAY_MS,
            },
            ProcessProbe::ProbeFailed => StopAction::Cleanup,
            ProcessProbe::Alive => {
                if elapsed_ms >= CH_WAIT_TIMEOUT_MS {
                    StopAction::Cleanup
                } else if !self.sigkill_sent && elapsed_ms >= CH_SIGKILL_AFTER_MS {
                    self.sigkill_sent = true;
                    StopAction::KillThenPoll { sleep_ms: CH_POLL_INTERVAL_MS }
                } else {
                    StopAction::Poll { sleep_ms: CH_POLL_INTERVAL_MS }
                }
            },
        }
    }
}

/// The wait and the action after a probe of a Cloud Hypervisor process made
/// `elapsed_ms` after `SIGTERM`.
pub open spec fn ch_stop_next(w: ChStopWait, probe: ProcessProbe, elapsed_ms: u64) -> (ChStopWait, StopAction) {
    match probe {
        ProcessProbe::Gone => (w, StopAction::ReleaseThenCleanup { sleep_ms: CH_KERNEL_RELEASE_DELAY_MS }),
        ProcessProbe::ProbeFailed => (w, StopAction::Cleanup),
        ProcessProbe::Alive => if elapsed_ms >= CH_WAIT_TIMEOUT_MS {
            (w, StopAction::Cleanup)
        } else if !w.sigkill_sent && elapsed_ms >= CH_SIGKILL_AFTER_MS {
            (ChStopWait { sigkill_sent: true }, StopAction::KillThenPoll { sleep_ms: CH_POLL_INTERVAL_MS })
        } else {
            (w, StopAction::Poll { sleep_ms: CH_POLL_INTERVAL_MS })
        },
    }
}

/// `SIGKILL` is sent at most once per wait, never before the process has
/// had [`CH_SIGKILL_AFTER_MS`] to exit on `SIGTERM`, and never once the wait
/// has timed out; a live process is polled until the timeout, after which
/// every step ends the wait.
pub proof fn lemma_ch_stop_sigkill_once(w: ChStopWait, probe: ProcessProbe, elapsed_ms: u64)
    ensures
        ({
            let (next, r) = ch_stop_next(w, probe, elapsed_ms);
            &&& r is KillThenPoll ==> !w.sigkill_sent && next.sigkill_sent
            &&& r is KillThenPoll ==> CH_SIGKILL_AFTER_MS <= elapsed_ms < CH_WAIT_TIMEOUT_MS
            &&& w.sigkill_sent ==> next.sigkill_sent && !(r is KillThenPoll)
            &&& elapsed_ms >= CH_WAIT_TIMEOUT_MS ==> (r is Cleanup || r is ReleaseThenCleanup)
            &&& probe == ProcessProbe::Alive && elapsed_ms < CH_WAIT_TIMEOUT_MS ==> (r is Poll
                || r is KillThenPoll)
        }),
{
}

/// Decides what follows a probe of a Firecracker process made `elapsed_ms`
/// after `SIGKILL`: poll a live process until the wait times out, then clean
/// up; clean up as soon as the process is gone or a probe fails.
pub fn fc_stop_step(probe: ProcessProbe, elapsed_ms: u64) -> (r: StopAction)
    ensures
        probe == ProcessProbe::Alive && elapsed_ms < FC_WAIT_TIMEOUT_MS ==> r == (StopAction::Poll {
            sleep_ms: FC_POLL_INTERVAL_MS,
        }),
        !(probe == ProcessProbe::Alive && elapsed_ms < FC_WAIT_TIMEOUT_MS) ==> r == StopAction::Cleanup,
{
    match probe {
        ProcessProbe::Alive => {
            if elapsed_ms >= FC_WAIT_TIMEOUT_MS {
                StopAction::Cleanup
            } else {
                StopAction::Poll { sleep_ms: FC_POLL_INTERVAL_MS }
            }
        },
        _ => StopAction::Cleanup,
    }
}

} // verus!
