use chelsea_lib::disk_resize::{DiskResize, ResizeAction, ResizeEvent, ResizeFailure};
use chelsea_lib::vm_manager::DiskResizeError;

fn label(a: &ResizeAction<&'static str>) -> String {
    match a {
        ResizeAction::WaitForBoot => "wait".into(),
        ResizeAction::LoadVm => "load".into(),
        ResizeAction::Pause => "pause".into(),
        ResizeAction::ResizeDevice => "resize".into(),
        ResizeAction::UpdateDrive => "drive".into(),
        ResizeAction::UpdateStoredSize => "store".into(),
        ResizeAction::Resume => "resume".into(),
        ResizeAction::GrowGuestFilesystem { expected_bytes } => format!("grow {expected_bytes}"),
        ResizeAction::Finish(Ok(())) => "ok".into(),
        ResizeAction::Finish(Err(ResizeFailure::StillBooting)) => "still booting".into(),
        ResizeAction::Finish(Err(ResizeFailure::Refused(_))) => "refused".into(),
        ResizeAction::Finish(Err(ResizeFailure::Step(e))) => format!("err {e}"),
    }
}

/// Runs a resize of a VM with `current` MiB, `paused` or not, failing the
/// action labelled `fail` (if any).
fn drive(new: u32, current: u32, paused: bool, fail: Option<&str>) -> Vec<String> {
    let (mut m, mut a) = DiskResize::<&'static str>::start(new, 1000, false, false);
    let mut seen = vec![label(&a)];
    while !m.is_finished() {
        let l = label(&a);
        let ev = if Some(l.as_str()) == fail {
            ResizeEvent::Failed("boom")
        } else if l == "load" {
            ResizeEvent::VmLoaded { current_fs_size_mib: current, paused }
        } else {
            ResizeEvent::Succeeded
        };
        a = m.step(ev);
        seen.push(label(&a));
    }
    seen
}

#[test]
fn resize_running_vm_pauses_and_resumes() {
    assert_eq!(
        drive(20, 10, false, None),
        vec!["load", "pause", "resize", "drive", "store", "resume", "grow 20971520", "ok"]
    );
}

#[test]
fn resize_paused_vm_is_left_paused() {
    assert_eq!(drive(20, 10, true, None), vec!["load", "resize", "drive", "store", "grow 20971520", "ok"]);
}

#[test]
fn resize_device_failure_resumes_before_error() {
    assert_eq!(drive(20, 10, false, Some("resize")), vec!["load", "pause", "resize", "resume", "err boom"]);
    assert_eq!(drive(20, 10, false, Some("store")), vec!["load", "pause", "resize", "drive", "store", "resume", "err boom"]);
    assert_eq!(drive(20, 10, true, Some("drive")), vec!["load", "resize", "drive", "err boom"]);
}

#[test]
fn resize_checks_come_before_any_pause() {
    assert_eq!(drive(10, 10, false, None), vec!["load", "refused"]);
    assert_eq!(drive(2000, 10, false, None), vec!["load", "refused"]);
    let (mut m, _) = DiskResize::<&'static str>::start(5, 1000, false, false);
    match m.step(ResizeEvent::VmLoaded { current_fs_size_mib: 8, paused: false }) {
        ResizeAction::Finish(Err(ResizeFailure::Refused(DiskResizeError::NotGrowing { requested, current }))) => {
            assert_eq!((requested, current), (5, 8));
        }
        _ => panic!("expected a refusal"),
    }
}

#[test]
fn resize_booting_vm() {
    let (m, a) = DiskResize::<&'static str>::start(20, 1000, true, false);
    assert!(m.is_finished());
    assert_eq!(label(&a), "still booting");
    let (mut m, a) = DiskResize::<&'static str>::start(20, 1000, true, true);
    assert_eq!(label(&a), "wait");
    assert_eq!(label(&m.step(ResizeEvent::Succeeded)), "load");
}
