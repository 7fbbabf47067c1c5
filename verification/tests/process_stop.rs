use chelsea_lib::process_stop::{fc_stop_step, ChStopWait, ProcessProbe, StopAction};

#[test]
fn ch_stop_escalates_once_after_grace_period() {
    let mut wait = ChStopWait::new();
    assert_eq!(wait.step(ProcessProbe::Alive, 0), StopAction::Poll { sleep_ms: 100 });
    assert_eq!(wait.step(ProcessProbe::Alive, 4999), StopAction::Poll { sleep_ms: 100 });
    assert_eq!(wait.step(ProcessProbe::Alive, 5000), StopAction::KillThenPoll { sleep_ms: 100 });
    assert!(wait.sigkill_sent);
    assert_eq!(wait.step(ProcessProbe::Alive, 6000), StopAction::Poll { sleep_ms: 100 });
    assert_eq!(wait.step(ProcessProbe::Alive, 30000), StopAction::Cleanup);
}

#[test]
fn ch_stop_gone_waits_for_kernel_release() {
    let mut wait = ChStopWait::new();
    assert_eq!(wait.step(ProcessProbe::Gone, 10), StopAction::ReleaseThenCleanup { sleep_ms: 5000 });
    let mut wait = ChStopWait::new();
    assert_eq!(wait.step(ProcessProbe::ProbeFailed, 10), StopAction::Cleanup);
    assert!(!wait.sigkill_sent);
}

#[test]
fn fc_stop_polls_until_timeout() {
    assert_eq!(fc_stop_step(ProcessProbe::Alive, 0), StopAction::Poll { sleep_ms: 50 });
    assert_eq!(fc_stop_step(ProcessProbe::Alive, 9999), StopAction::Poll { sleep_ms: 50 });
    assert_eq!(fc_stop_step(ProcessProbe::Alive, 10000), StopAction::Cleanup);
    assert_eq!(fc_stop_step(ProcessProbe::Gone, 1), StopAction::Cleanup);
    assert_eq!(fc_stop_step(ProcessProbe::ProbeFailed, 1), StopAction::Cleanup);
}
