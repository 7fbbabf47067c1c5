use chelsea_lib::vm_delete::{DeleteAction, DeleteEvent, DeleteFailure, VmDelete};

fn label(a: &DeleteAction<&'static str>) -> String {
    match a {
        DeleteAction::FetchRecord => "fetch".into(),
        DeleteAction::KillProcess => "kill".into(),
        DeleteAction::ReleaseResources => "release".into(),
        DeleteAction::RemoveLock => "unlock".into(),
        DeleteAction::Finish(Ok(())) => "ok".into(),
        DeleteAction::Finish(Err(DeleteFailure::NotFound(m))) => m.clone(),
        DeleteAction::Finish(Err(DeleteFailure::Step(e))) => format!("err {e}"),
        DeleteAction::Finish(Err(DeleteFailure::Teardown(m))) => m.clone(),
    }
}

fn drive(found: bool, kill: Option<&str>, results: Vec<Option<&str>>) -> Vec<String> {
    let (mut m, mut a) = VmDelete::start::<&'static str>(1);
    let mut seen = vec![label(&a)];
    let mut results = Some(results);
    while !m.is_finished() {
        let ev = match label(&a).as_str() {
            "fetch" => DeleteEvent::RecordFetched { found },
            "kill" => DeleteEvent::Killed { error: kill.map(|k| k.to_string()) },
            "release" => DeleteEvent::Released {
                results: results.take().unwrap().into_iter().map(|r| r.map(|t| t.to_string())).collect(),
            },
            _ => DeleteEvent::Succeeded,
        };
        a = m.step(ev);
        seen.push(label(&a));
    }
    seen
}

#[test]
fn delete_missing_record_is_refused() {
    assert_eq!(
        drive(false, None, vec![]),
        vec!["fetch", "VM '00000000-0000-0000-0000-000000000001' not found"]
    );
}

#[test]
fn delete_success_drops_lock() {
    assert_eq!(drive(true, None, vec![None; 5]), vec!["fetch", "kill", "release", "unlock", "ok"]);
}

#[test]
fn delete_reports_every_failure_and_keeps_lock() {
    let seen = drive(true, Some("no such process"), vec![None, Some("volume busy"), None, None, None]);
    assert_eq!(
        seen.last().unwrap(),
        "One or more errors while killing VM 00000000-0000-0000-0000-000000000001: no such process; volume busy"
    );
    assert!(!seen.contains(&"unlock".to_string()));
}
