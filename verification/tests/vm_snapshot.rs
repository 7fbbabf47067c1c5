use chelsea_lib::vm_snapshot::{SnapshotOpAction, SnapshotOpEvent, SnapshotOpFailure, SnapshotPurpose, VmSnapshotOp};

fn label(a: &SnapshotOpAction<&'static str>) -> String {
    match a {
        SnapshotOpAction::WaitForBoot => "wait".into(),
        SnapshotOpAction::LoadVm => "load".into(),
        SnapshotOpAction::Pause => "pause".into(),
        SnapshotOpAction::GetHostArchitecture => "arch".into(),
        SnapshotOpAction::MeasureSnapshotSizes => "measure".into(),
        SnapshotOpAction::EnsureSpace { space_required_mib } => format!("space {space_required_mib}"),
        SnapshotOpAction::CreateSnapshot => "snapshot".into(),
        SnapshotOpAction::Resume => "resume".into(),
        SnapshotOpAction::UploadSnapshot => "upload".into(),
        SnapshotOpAction::InsertSnapshotRecord => "record".into(),
        SnapshotOpAction::TearDown => "teardown".into(),
        SnapshotOpAction::Finish(Ok(())) => "ok".into(),
        SnapshotOpAction::Finish(Err(SnapshotOpFailure::StillBooting)) => "still booting".into(),
        SnapshotOpAction::Finish(Err(SnapshotOpFailure::SizeOverflow)) => "overflow".into(),
        SnapshotOpAction::Finish(Err(SnapshotOpFailure::Step(e))) => format!("err {e}"),
        SnapshotOpAction::Finish(Err(SnapshotOpFailure::Teardown(m))) => format!("teardown failed: {m}"),
    }
}

fn drive(paused: bool, sizes: (u32, u32), teardown: Vec<Option<String>>, fail: Option<&str>) -> Vec<String> {
    drive_for(SnapshotPurpose::Sleep, paused, sizes, teardown, fail)
}

fn drive_for(
    purpose: SnapshotPurpose,
    paused: bool,
    sizes: (u32, u32),
    teardown: Vec<Option<String>>,
    fail: Option<&str>,
) -> Vec<String> {
    let (mut m, mut a) = VmSnapshotOp::start::<&'static str>(1, purpose, false, false);
    let mut seen = vec![label(&a)];
    let mut teardown = Some(teardown);
    while !m.is_finished() {
        let l = label(&a);
        let ev = if Some(l.as_str()) == fail {
            SnapshotOpEvent::Failed("boom")
        } else if l == "load" {
            SnapshotOpEvent::VmLoaded { paused }
        } else if l == "measure" {
            SnapshotOpEvent::SnapshotSizes { volume_mib: sizes.0, process_mib: sizes.1 }
        } else if l == "teardown" {
            SnapshotOpEvent::TornDown { results: teardown.take().unwrap() }
        } else {
            SnapshotOpEvent::Succeeded
        };
        a = m.step(ev);
        seen.push(label(&a));
    }
    seen
}

#[test]
fn sleep_running_vm_in_order() {
    assert_eq!(
        drive(false, (100, 24), vec![None, None, None, None, None], None),
        vec!["load", "pause", "arch", "measure", "space 124", "snapshot", "upload", "record", "teardown", "ok"]
    );
}

#[test]
fn sleep_paused_vm_skips_pause() {
    let seen = drive(true, (1, 2), vec![None], None);
    assert_eq!(&seen[..3], &["load", "arch", "measure"]);
}

#[test]
fn sleep_reports_every_teardown_failure() {
    let seen = drive(false, (1, 1), vec![None, Some("net".to_string()), None, Some("store".to_string()), None], None);
    assert_eq!(
        seen.last().unwrap(),
        "teardown failed: One or more errors while sleeping VM 00000000-0000-0000-0000-000000000001: net; store"
    );
}

#[test]
fn sleep_failure_before_record_does_not_tear_down() {
    let seen = drive(false, (1, 1), vec![], Some("upload"));
    assert_eq!(seen.last().unwrap(), "err boom");
    assert!(!seen.contains(&"teardown".to_string()));
}

#[test]
fn sleep_size_overflow_is_refused() {
    let seen = drive(false, (u32::MAX, 1), vec![], None);
    assert_eq!(seen.last().unwrap(), "overflow");
}

#[test]
fn sleep_booting_vm() {
    let (m, a) = VmSnapshotOp::start::<&'static str>(1, SnapshotPurpose::Sleep, true, false);
    assert!(m.is_finished());
    assert_eq!(label(&a), "still booting");
    let (_, a) = VmSnapshotOp::start::<&'static str>(1, SnapshotPurpose::Sleep, true, true);
    assert_eq!(label(&a), "wait");
}

#[test]
fn commit_resumes_unless_kept_paused() {
    assert_eq!(
        drive_for(SnapshotPurpose::Commit { keep_paused: false }, false, (3, 4), vec![], None),
        vec!["load", "pause", "arch", "measure", "space 7", "snapshot", "resume", "upload", "record", "ok"]
    );
    assert_eq!(
        drive_for(SnapshotPurpose::Commit { keep_paused: true }, false, (3, 4), vec![], None),
        vec!["load", "pause", "arch", "measure", "space 7", "snapshot", "upload", "record", "ok"]
    );
}

#[test]
fn commit_failure_reports_step_error() {
    let seen = drive_for(SnapshotPurpose::Commit { keep_paused: false }, false, (3, 4), vec![], Some("snapshot"));
    assert_eq!(seen.last().unwrap(), "err boom");
    assert!(!seen.contains(&"resume".to_string()));
}
