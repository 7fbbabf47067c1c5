use chelsea_lib::fc_spawn::{FcSpawn, FcSpawnAction, FcSpawnEvent, FcSpawnFailure};
use chelsea_lib::firecracker::PathBufJailer;

fn label(a: &FcSpawnAction<&'static str>) -> String {
    match a {
        FcSpawnAction::CopyDriveNode => "drive".into(),
        FcSpawnAction::CheckKernel { path } => format!("check {path}"),
        FcSpawnAction::CopyKernel { from, to } => format!("copy {from} -> {to}"),
        FcSpawnAction::CreateVsockDir => "vsock".into(),
        FcSpawnAction::CreateProcessLogs => "logs".into(),
        FcSpawnAction::StartProcess => "start".into(),
        FcSpawnAction::Configure => "configure".into(),
        FcSpawnAction::StartInstance => "instance".into(),
        FcSpawnAction::RemoveJailRoot => "remove jail".into(),
        FcSpawnAction::Finish(Ok(())) => "ok".into(),
        FcSpawnAction::Finish(Err(FcSpawnFailure::NoKernel(m))) => m.clone(),
        FcSpawnAction::Finish(Err(FcSpawnFailure::Configuration(m))) => m.clone(),
        FcSpawnAction::Finish(Err(FcSpawnFailure::Step(e))) => format!("err {e}"),
    }
}

fn drive(kernel_exists: bool, config_results: Vec<Option<String>>) -> Vec<String> {
    let kernel = PathBufJailer::new(1, "/var/lib/chelsea/kernels/default.bin".to_string());
    let (mut m, mut a) = FcSpawn::<&'static str>::start(kernel);
    let mut seen = vec![label(&a)];
    let mut results = Some(config_results);
    while !m.is_finished() {
        let l = label(&a);
        let ev = if l.starts_with("check") {
            FcSpawnEvent::KernelChecked { exists: kernel_exists }
        } else if l == "configure" {
            FcSpawnEvent::Configured { results: results.take().unwrap() }
        } else {
            FcSpawnEvent::Succeeded
        };
        a = m.step(ev);
        seen.push(label(&a));
    }
    seen
}

#[test]
fn fc_spawn_in_order() {
    let seen = drive(true, vec![None; 5]);
    assert_eq!(seen[1], "check /var/lib/chelsea/kernels/default.bin");
    assert_eq!(
        seen[2],
        "copy /var/lib/chelsea/kernels/default.bin -> /srv/jailer/firecracker/00000000-0000-0000-0000-000000000001/root/var/lib/chelsea/kernels/default.bin"
    );
    assert_eq!(&seen[3..], &["vsock", "logs", "start", "configure", "instance", "ok"]);
}

#[test]
fn fc_spawn_missing_kernel_refused_before_start() {
    let seen = drive(false, vec![]);
    assert_eq!(
        &seen[2..],
        &["remove jail", "No kernel found at path /var/lib/chelsea/kernels/default.bin"]
    );
    assert!(!seen.contains(&"start".to_string()));
}

#[test]
fn fc_spawn_configuration_errors_all_reported() {
    let seen = drive(true, vec![None, Some("bad drive".to_string()), None, Some("bad net".to_string()), None]);
    assert_eq!(
        &seen[seen.len() - 2..],
        &["remove jail", "One or more Firecracker API configuration errors: bad drive; bad net"]
    );
    assert!(!seen.contains(&"instance".to_string()));
}
