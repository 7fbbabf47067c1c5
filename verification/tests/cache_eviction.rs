use chelsea_lib::cache_eviction::{CacheEviction, EvictionAction, EvictionEvent};
use chelsea_lib::snapshot_cache::{CacheEntry, DeleteOldestFileError, EnsureSpaceError, PinTable};

const MIB: u64 = 1048576;

fn file(name: &str, mib: u64, atime: u64) -> CacheEntry {
    CacheEntry { name: name.to_string(), is_file: true, size_bytes: mib * MIB, atime_secs: atime }
}

fn pins(names: &[&str]) -> PinTable {
    let mut t = PinTable::new();
    t.pin_files(&names.iter().map(|n| n.to_string()).collect());
    t
}

/// Runs the machine over a directory, removing what it names; returns the
/// removed names and whether it succeeded.
fn drive(size: u32, required: u32, mut dir: Vec<CacheEntry>, pinned: &[&str]) -> (Vec<String>, Result<(), String>) {
    let (mut m, mut a) = CacheEviction::start(size, required);
    let mut removed = Vec::new();
    loop {
        let ev = match a {
            EvictionAction::Scan => EvictionEvent::Scanned { entries: dir.clone(), pinned: pins(pinned) },
            EvictionAction::Evict { name } => {
                dir.retain(|e| e.name != name);
                removed.push(name);
                EvictionEvent::Evicted
            }
            EvictionAction::Finish(r) => return (removed, r.map_err(|e| e.to_string())),
        };
        assert!(!m.is_finished());
        a = m.step(ev);
    }
}

#[test]
fn test_ensure_space_rejects_oversized_request() {
    let (m, a) = CacheEviction::start(10, 20);
    assert!(m.is_finished());
    match a {
        EvictionAction::Finish(Err(EnsureSpaceError::CacheNotLargeEnough { space_required_mib, cache_size_mib })) => {
            assert_eq!((space_required_mib, cache_size_mib), (20, 10));
        }
        _ => panic!("expected CacheNotLargeEnough"),
    }
}

#[test]
fn test_ensure_space_noop_when_enough_room() {
    let (removed, r) = drive(100, 50, vec![], &[]);
    assert!(removed.is_empty());
    assert_eq!(r, Ok(()));
}

#[test]
fn test_ensure_space_evicts_to_make_room() {
    let dir = vec![file("b", 4, 20), file("a", 4, 10), file("c", 4, 30)];
    let (removed, r) = drive(12, 8, dir, &[]);
    assert_eq!(removed, vec!["a", "b"]);
    assert_eq!(r, Ok(()));
}

#[test]
fn test_ensure_space_skips_pinned_during_eviction() {
    let dir = vec![file("a", 4, 10), file(".tmp.x", 4, 1), file("b", 4, 20)];
    let (removed, r) = drive(12, 8, dir, &["a"]);
    assert_eq!(removed, vec!["b"]);
    assert!(r.is_err());
    assert_eq!(r.unwrap_err(), "Error while deleting file in S3CommitStore cache: There are no files left to delete");
}

#[test]
fn ensure_space_counts_partial_mib_as_whole() {
    let tiny = CacheEntry { name: "tiny".to_string(), is_file: true, size_bytes: 1, atime_secs: 5 };
    let (removed, r) = drive(10, 10, vec![tiny], &[]);
    assert_eq!(removed, vec!["tiny"]);
    assert_eq!(r, Ok(()));
}

#[test]
fn ensure_space_scan_failure_reported() {
    let (mut m, _) = CacheEviction::start(10, 5);
    match m.step(EvictionEvent::ScanFailed(std::io::Error::new(std::io::ErrorKind::Other, "disk gone"))) {
        EvictionAction::Finish(Err(EnsureSpaceError::GetCacheUtilization(_))) => {}
        _ => panic!("expected a utilization error"),
    }
    assert!(m.is_finished());
    let _ = DeleteOldestFileError::NoFiles;
}
