use chelsea_lib::download::{CoalescedDownload, DownloadAction, DownloadEvent, DownloadFailure};
use chelsea_lib::snapshot_cache::{DownloadRole, InFlight, PinTable};

fn names(v: &[&str]) -> Vec<String> {
    v.iter().map(|s| s.to_string()).collect()
}

/// Drives a download of `files` against a pin table and an in-flight
/// registry; `on_disk` are the files present, `fail_fetch` the one whose
/// fetch fails, `others` the files another caller is fetching (which end
/// up on disk when `others_succeed`).
fn drive(
    files: &[&str],
    on_disk: &[&str],
    others: &[&str],
    others_succeed: bool,
    fail_fetch: Option<&str>,
) -> (Vec<String>, PinTable, Result<(), String>) {
    let mut pins = PinTable::new();
    let mut inflight = InFlight::new();
    for n in others {
        inflight.claim(n, false);
    }
    let mut disk: Vec<String> = names(on_disk);
    let (mut m, mut a) = CoalescedDownload::<&'static str>::start(names(files));
    let mut log = Vec::new();
    loop {
        let ev = match &a {
            DownloadAction::PinFiles { names } => DownloadEvent::Pinned { names: pins.pin_files(names) },
            DownloadAction::Claim { name } => {
                DownloadEvent::Claimed(inflight.claim(name, disk.contains(name)))
            }
            DownloadAction::WaitFor { name } => {
                log.push(format!("wait {name}"));
                if others_succeed {
                    disk.push(name.clone());
                }
                DownloadEvent::Succeeded
            }
            DownloadAction::CheckExists { name } => DownloadEvent::Exists(disk.contains(name)),
            DownloadAction::Fetch { index } => {
                let name = files[*index];
                log.push(format!("fetch {name}"));
                if Some(name) == fail_fetch {
                    DownloadEvent::Failed("fetch failed")
                } else {
                    disk.push(name.to_string());
                    DownloadEvent::Succeeded
                }
            }
            DownloadAction::Release { name } => {
                log.push(format!("release {name}"));
                inflight.release(name);
                DownloadEvent::Succeeded
            }
            DownloadAction::UnpinFiles { names } => {
                log.push("unpin".to_string());
                pins.unpin_files(names);
                DownloadEvent::Succeeded
            }
            DownloadAction::Finish(r) => {
                let r = match r {
                    Ok(()) => Ok(()),
                    Err(DownloadFailure::Step(e)) => Err(e.to_string()),
                    Err(DownloadFailure::ConcurrentDownloadFailed(m)) => Err(m.clone()),
                };
                return (log, pins, r);
            }
        };
        a = m.step(ev);
    }
}

#[test]
fn download_fetches_missing_files_and_unpins() {
    let (log, pins, r) = drive(&["a", "b", "c"], &["b"], &[], true, None);
    assert_eq!(log, vec!["fetch a", "release a", "fetch c", "release c", "unpin"]);
    assert_eq!(r, Ok(()));
    assert!(!pins.is_pinned("a") && !pins.is_pinned("b") && !pins.is_pinned("c"));
}

#[test]
fn download_waits_for_concurrent_fetch() {
    let (log, _, r) = drive(&["a"], &[], &["a"], true, None);
    assert_eq!(log, vec!["wait a", "unpin"]);
    assert_eq!(r, Ok(()));
}

#[test]
fn download_concurrent_failure_reported() {
    let (log, pins, r) = drive(&["a"], &[], &["a"], false, None);
    assert_eq!(log, vec!["wait a", "unpin"]);
    assert_eq!(
        r,
        Err("Concurrent download of a failed: file not present after inflight download completed".to_string())
    );
    assert!(!pins.is_pinned("a"));
}

#[test]
fn download_failed_fetch_releases_then_unpins() {
    let (log, pins, r) = drive(&["a", "b"], &[], &[], true, Some("a"));
    assert_eq!(log, vec!["fetch a", "release a", "unpin"]);
    assert_eq!(r, Err("fetch failed".to_string()));
    assert!(!pins.is_pinned("a") && !pins.is_pinned("b"));
}

#[test]
fn download_role_cached_skips_fetch() {
    let mut inflight = InFlight::new();
    assert_eq!(inflight.claim("x", true), DownloadRole::Cached);
}
