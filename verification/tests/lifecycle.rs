use chelsea_lib::lifecycle::{
    ch_restore_plan, env_writer_wanted, new_vm_plan, reboot_vm_plan, BootWatch, BootWatchAction, ssh_key_retry_delay_ms, vm_from_commit_plan, vm_network_plan, wake_vm_plan, Cleanup, Outcome, PlanEntry, Rollback,
    RollbackAction, Step,
};

/// Runs `plan`, failing the step `fail_at` (if any) with its index, and
/// records every action.
fn drive(plan: Vec<PlanEntry>, fail_at: Option<usize>) -> Vec<String> {
    let (mut machine, mut action) = Rollback::<usize>::start(plan);
    let mut seen = Vec::new();
    let mut ran = 0usize;
    loop {
        let outcome = match &action {
            RollbackAction::Run(step) => {
                seen.push(format!("run {step:?}"));
                ran += 1;
                if Some(ran - 1) == fail_at {
                    Outcome::Failed(ran - 1)
                } else {
                    Outcome::Succeeded
                }
            }
            RollbackAction::Release(c) => {
                seen.push(format!("release {c:?}"));
                // A failing cleanup changes nothing.
                Outcome::Failed(999)
            }
            RollbackAction::Finish(Ok(())) => {
                seen.push("ok".to_string());
                break;
            }
            RollbackAction::Finish(Err(e)) => {
                seen.push(format!("err {e}"));
                break;
            }
        };
        assert!(!machine.is_finished());
        action = machine.step(outcome);
    }
    assert!(machine.is_finished());
    seen
}

fn releases(seen: &[String]) -> Vec<String> {
    seen.iter().filter(|s| s.starts_with("release")).cloned().collect()
}

/// Runs `plan` to success, then watches the boot, failing it when
/// `boot_fails`; records every action of the watch.
fn boot(plan: Vec<PlanEntry>, boot_fails: bool) -> Vec<String> {
    let (mut machine, mut action) = Rollback::<usize>::start(plan);
    while let RollbackAction::Run(_) = action {
        action = machine.step(Outcome::Succeeded);
    }
    assert!(matches!(action, RollbackAction::Finish(Ok(()))));
    let (mut watch, mut a) = BootWatch::<&'static str>::start(machine.held_cleanups());
    let mut seen = Vec::new();
    loop {
        let outcome = match &a {
            BootWatchAction::AwaitBoot => {
                if boot_fails {
                    Outcome::Failed("boot timed out")
                } else {
                    Outcome::Succeeded
                }
            }
            BootWatchAction::Release(c) => {
                seen.push(format!("release {c:?}"));
                Outcome::Failed("cleanup failed")
            }
            BootWatchAction::NotifyBootFailed => {
                seen.push("notify".to_string());
                Outcome::Succeeded
            }
            BootWatchAction::Finish(Ok(())) => {
                seen.push("ok".to_string());
                break;
            }
            BootWatchAction::Finish(Err(e)) => {
                seen.push(format!("err {e}"));
                break;
            }
        };
        a = watch.step(outcome);
    }
    assert!(watch.is_finished());
    seen
}

#[test]
fn new_vm_boot_failure_releases_everything_in_reverse() {
    assert_eq!(
        boot(new_vm_plan(true), true),
        vec![
            "release CloseUsageSegment",
            "release DeleteRemoteRecord",
            "release DeleteLocalRecord",
            "release KillProcess",
            "release AbortBoot",
            "release DeleteVolume",
            "release ReleaseNetwork",
            "notify",
            "err boot timed out",
        ]
    );
}

#[test]
fn new_vm_boot_success_keeps_everything() {
    assert_eq!(boot(new_vm_plan(false), false), vec!["ok"]);
}

#[test]
fn new_vm_success_releases_nothing() {
    let seen = drive(new_vm_plan(false), None);
    assert_eq!(seen.len(), 12);
    assert!(releases(&seen).is_empty());
    assert_eq!(seen.last().unwrap(), "ok");
}

#[test]
fn new_vm_env_writer_only_with_variables() {
    assert!(env_writer_wanted(Some(2)));
    assert!(!env_writer_wanted(Some(0)));
    assert!(!env_writer_wanted(None));
    let with = drive(new_vm_plan(true), None);
    assert!(with.contains(&"run SpawnEnvWriter".to_string()));
    let without = drive(new_vm_plan(false), None);
    assert!(!without.contains(&"run SpawnEnvWriter".to_string()));
}

#[test]
fn new_vm_reservation_refusal_releases_nothing() {
    let seen = drive(new_vm_plan(false), Some(0));
    assert_eq!(seen, vec!["run CheckReservation", "err 0"]);
}

#[test]
fn commit_wireguard_failure_detaches_network_first() {
    let plan = vm_from_commit_plan(false);
    let k = plan.iter().position(|p| p.step == Step::AttachWireGuard).unwrap();
    let seen = drive(plan, Some(k));
    assert_eq!(
        releases(&seen),
        vec!["release DetachNetwork", "release KillProcess", "release DeleteVolume", "release ReleaseNetwork"]
    );
    assert_eq!(seen.last().unwrap(), &format!("err {k}"));
}

#[test]
fn wake_wireguard_failure_does_not_detach() {
    let plan = wake_vm_plan();
    let k = plan.iter().position(|p| p.step == Step::AttachWireGuard).unwrap();
    let seen = drive(plan, Some(k));
    assert_eq!(releases(&seen), vec!["release KillProcess", "release DeleteVolume", "release ReleaseNetwork"]);
}

#[test]
fn wake_not_sleeping_is_refused_untouched() {
    let seen = drive(wake_vm_plan(), Some(0));
    assert_eq!(seen, vec!["run CheckVmIsSleeping", "err 0"]);
}

#[test]
fn vm_network_failure_deletes_namespace_and_reports_step_error() {
    let seen = drive(vm_network_plan(true), Some(3));
    assert_eq!(
        seen,
        vec![
            "run AddNamespace",
            "run AddVethPair",
            "run SetDefaultRoute",
            "run AddTap",
            "release DeleteNamespace",
            "err 3",
        ]
    );
}

#[test]
fn vm_network_plan_adds_ssh_rule_only_when_asked() {
    assert_eq!(vm_network_plan(true).len(), 6);
    assert_eq!(vm_network_plan(false).len(), 5);
    assert_eq!(vm_network_plan(true)[5].step, Step::AddInboundSshRule);
    assert_eq!(vm_network_plan(false)[0].cleanup, Some(Cleanup::DeleteNamespace));
}

#[test]
fn empty_plan_succeeds_at_once() {
    let (machine, action) = Rollback::<usize>::start(Vec::new());
    assert!(machine.is_finished());
    assert!(matches!(action, RollbackAction::Finish(Ok(()))));
}

#[test]
fn reboot_tolerates_failed_kill_of_old_process() {
    let seen = drive(reboot_vm_plan(), Some(1));
    assert_eq!(seen[1], "run KillOldProcess");
    assert!(releases(&seen).is_empty());
    assert_eq!(seen.last().unwrap(), "ok");
}

#[test]
fn reboot_boot_failure_kills_new_process_and_aborts_boot() {
    assert_eq!(
        boot(reboot_vm_plan(), true),
        vec!["release KillProcess", "release AbortBoot", "notify", "err boot timed out"]
    );
    let seen = drive(reboot_vm_plan(), Some(6));
    assert_eq!(releases(&seen), vec!["release KillProcess", "release AbortBoot"]);
    assert_eq!(seen.last().unwrap(), "err 6");
}

#[test]
fn restore_failure_after_resume_kills_process_and_removes_jail() {
    let plan = ch_restore_plan(true);
    let k = plan.iter().position(|p| p.step == Step::InstallSshKey).unwrap();
    let seen = drive(plan, Some(k));
    assert_eq!(releases(&seen), vec!["release KillHypervisorProcess", "release RemoveJailRoot"]);
}

#[test]
fn restore_failure_before_resume_only_removes_jail() {
    let plan = ch_restore_plan(false);
    let k = plan.iter().position(|p| p.step == Step::RestoreVm).unwrap();
    let seen = drive(plan, Some(k));
    assert_eq!(releases(&seen), vec!["release RemoveJailRoot"]);
    assert!(!seen.contains(&"run InstallSshKey".to_string()));
}

#[test]
fn ssh_key_retry_delays() {
    assert_eq!(ssh_key_retry_delay_ms(1), Some(200));
    assert_eq!(ssh_key_retry_delay_ms(5), Some(3200));
    assert_eq!(ssh_key_retry_delay_ms(6), Some(5000));
    assert_eq!(ssh_key_retry_delay_ms(9), Some(5000));
    assert_eq!(ssh_key_retry_delay_ms(10), None);
}
