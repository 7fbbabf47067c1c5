use chelsea_lib::snapshot_cache::{
    bytes_to_mib_ceil, cache_available_mib, cache_utilization_mib, download_file_names,
    ensure_space_step, is_temp_file_name, least_recently_accessed, not_large_enough_message,
    temp_download_name, CacheEntry, DeleteOldestFileError, EnsureSpaceError, EnsureSpaceStep,
    FileToDownload, GetCacheUtilizationError, PinTable,
};

fn file(name: &str, size_bytes: u64, atime_secs: u64) -> CacheEntry {
    CacheEntry { name: name.to_string(), is_file: true, size_bytes, atime_secs }
}

fn names(v: &[&str]) -> Vec<String> {
    v.iter().map(|s| s.to_string()).collect()
}

#[test]
fn empty_cache_utilization_is_zero() {
    assert_eq!(cache_utilization_mib(&vec![]), 0);
}

#[test]
fn cache_utilization_counts_files() {
    assert_eq!(cache_utilization_mib(&vec![file("file1", 1024 * 1024, 0)]), 1);
}

#[test]
fn cache_utilization_rounds_up() {
    assert_eq!(cache_utilization_mib(&vec![file("tiny", 1, 0)]), 1);
    assert_eq!(bytes_to_mib_ceil(0), 0);
    assert_eq!(bytes_to_mib_ceil(1048576), 1);
    assert_eq!(bytes_to_mib_ceil(1048577), 2);
    assert_eq!(bytes_to_mib_ceil(u64::MAX), 1 << 44);
}

#[test]
fn cache_utilization_ignores_non_files() {
    let dir = CacheEntry { name: "sub".to_string(), is_file: false, size_bytes: 1 << 30, atime_secs: 0 };
    assert_eq!(cache_utilization_mib(&vec![dir, file("a", 3 * 1024 * 1024, 0)]), 3);
}

#[test]
fn cache_available_mib_subtracts_usage() {
    assert_eq!(cache_available_mib(10, &vec![file("file1", 3 * 1024 * 1024, 0)]), 7);
}

#[test]
fn cache_available_saturates_at_zero() {
    assert_eq!(cache_available_mib(1, &vec![file("file1", 5 * 1024 * 1024, 0)]), 0);
}

#[test]
fn pin_files_increments_refcount() {
    let mut pins = PinTable::new();
    let n = names(&["a", "b"]);
    pins.pin_files(&n);
    pins.pin_files(&n);
    assert_eq!(pins.count("a"), 2);
    assert_eq!(pins.count("b"), 2);
    assert_eq!(pins.count("c"), 0);
}

#[test]
fn unpin_decrements_refcount() {
    let mut pins = PinTable::new();
    let n = names(&["a"]);
    pins.pin_files(&n);
    let pinned = pins.pin_files(&n);
    pins.unpin_files(&pinned);
    assert_eq!(pins.count("a"), 1);
    assert!(pins.is_pinned("a"));
}

#[test]
fn unpin_removes_at_zero() {
    let mut pins = PinTable::new();
    let pinned = pins.pin_files(&names(&["a"]));
    pins.unpin_files(&pinned);
    assert!(!pins.is_pinned("a"));
    assert_eq!(pins.count("a"), 0);
}

#[test]
fn pin_returns_each_name_once() {
    let mut pins = PinTable::new();
    let pinned = pins.pin_files(&names(&["x", "y", "x"]));
    assert_eq!(pinned, names(&["x", "y"]));
    assert_eq!(pins.count("x"), 2);
    pins.unpin_files(&pinned);
    assert_eq!(pins.count("x"), 1);
    assert_eq!(pins.count("y"), 0);
}

#[test]
fn pin_then_unpin_restores_counts() {
    let mut pins = PinTable::new();
    pins.pin_files(&names(&["keep"]));
    let pinned = pins.pin_files(&names(&["keep", "tmp1", "tmp2"]));
    pins.unpin_files(&pinned);
    assert_eq!(pins.count("keep"), 1);
    assert!(!pins.is_pinned("tmp1"));
    assert!(!pins.is_pinned("tmp2"));
}

#[test]
fn delete_least_recently_accessed_skips_pinned() {
    let mut pins = PinTable::new();
    pins.pin_files(&names(&["old_pinned"]));
    let entries = vec![file("old_pinned", 1024, 100), file("newer", 1024, 200)];
    assert_eq!(least_recently_accessed(&entries, &pins), Some(1));
}

#[test]
fn delete_least_recently_accessed_no_files_errors() {
    let pins = PinTable::new();
    assert_eq!(least_recently_accessed(&vec![], &pins), None);
    let step = ensure_space_step(10, 5, &vec![file("big", 8 * 1024 * 1024, 1)], &{
        let mut p = PinTable::new();
        p.pin_files(&names(&["big"]));
        p
    });
    assert_eq!(step, EnsureSpaceStep::NoFiles);
}

#[test]
fn delete_least_recently_accessed_all_pinned_errors() {
    let mut pins = PinTable::new();
    pins.pin_files(&names(&["only_file"]));
    assert_eq!(least_recently_accessed(&vec![file("only_file", 1024, 5)], &pins), None);
}

#[test]
fn delete_least_recently_accessed_skips_temp_files() {
    let pins = PinTable::new();
    let entries = vec![file(".tmp.foo.some-uuid", 1024, 1), file("evictable", 1024, 9)];
    assert_eq!(least_recently_accessed(&entries, &pins), Some(1));
}

#[test]
fn delete_least_recently_accessed_only_temp_files_errors() {
    let pins = PinTable::new();
    assert_eq!(least_recently_accessed(&vec![file(".tmp.bar.some-uuid", 1024, 1)], &pins), None);
}

#[test]
fn least_recently_accessed_picks_first_of_equally_old() {
    let pins = PinTable::new();
    let entries = vec![file("b", 1, 50), file("a", 1, 10), file("c", 1, 10), file("d", 1, 70)];
    assert_eq!(least_recently_accessed(&entries, &pins), Some(1));
}

#[test]
fn temp_names_are_recognized() {
    assert!(is_temp_file_name(".tmp."));
    assert!(is_temp_file_name(".tmp.x"));
    assert!(!is_temp_file_name(".tmp"));
    assert!(!is_temp_file_name("x.tmp."));
    let n = temp_download_name("commit.state", 0x0123_4567_89ab_cdef_0123_4567_89ab_cdef);
    assert_eq!(n, ".tmp.commit.state.01234567-89ab-cdef-0123-456789abcdef");
    assert!(is_temp_file_name(&n));
}

#[test]
fn ensure_space_noop_when_enough_room() {
    let pins = PinTable::new();
    assert_eq!(ensure_space_step(100, 50, &vec![], &pins), EnsureSpaceStep::Done);
}

#[test]
fn ensure_space_rejects_oversized_request() {
    let pins = PinTable::new();
    assert_eq!(ensure_space_step(10, 20, &vec![], &pins), EnsureSpaceStep::CacheNotLargeEnough);
    assert_eq!(
        not_large_enough_message(20, 10),
        "There is not enough space allocated to the S3CommitStore to download the files. Required: 20 MiB, Available: 10 MiB"
    );
    let e = EnsureSpaceError::CacheNotLargeEnough { space_required_mib: 20, cache_size_mib: 10 };
    assert_eq!(e.to_string(), not_large_enough_message(20, 10));
}

#[test]
fn ensure_space_evicts_to_make_room() {
    let pins = PinTable::new();
    let mut entries = vec![file("file1", 2 * 1024 * 1024, 10), file("file2", 2 * 1024 * 1024, 20)];
    let mut evicted = Vec::new();
    loop {
        match ensure_space_step(5, 3, &entries, &pins) {
            EnsureSpaceStep::Done => break,
            EnsureSpaceStep::Evict(i) => evicted.push(entries.remove(i).name),
            other => panic!("unexpected step {:?}", other),
        }
    }
    assert_eq!(evicted, vec!["file1".to_string()]);
    assert!(cache_available_mib(5, &entries) >= 3);
}

#[test]
fn ensure_space_skips_pinned_during_eviction() {
    let mut pins = PinTable::new();
    pins.pin_files(&names(&["pinned_file"]));
    let mut entries = vec![file("pinned_file", 2 * 1024 * 1024, 1), file("evictable", 1024 * 1024, 2)];
    match ensure_space_step(3, 1, &entries, &pins) {
        EnsureSpaceStep::Evict(i) => {
            assert_eq!(entries[i].name, "evictable");
            entries.remove(i);
        }
        other => panic!("unexpected step {:?}", other),
    }
    assert_eq!(ensure_space_step(3, 1, &entries, &pins), EnsureSpaceStep::Done);
}

#[test]
fn error_messages_of_cache_errors() {
    assert_eq!(DeleteOldestFileError::NoFiles.to_string(), "There are no files left to delete");
    let e = EnsureSpaceError::DeleteOldestFile(DeleteOldestFileError::NoFiles);
    assert_eq!(
        e.to_string(),
        "Error while deleting file in S3CommitStore cache: There are no files left to delete"
    );
    let io = GetCacheUtilizationError::Io(std::io::Error::new(std::io::ErrorKind::Other, "boom"));
    assert_eq!(io.to_string(), "IO error while determining cache utilization: boom");
}

#[test]
fn download_names_follow_files() {
    let files = vec![
        FileToDownload { file_name: "a.state", s3_key: "c1/a.state" },
        FileToDownload { file_name: "a.memory", s3_key: "c1/a.memory" },
    ];
    assert_eq!(download_file_names(&files), names(&["a.state", "a.memory"]));
}

use chelsea_lib::snapshot_cache::{concurrent_download_failed_message, DownloadRole, InFlight};

#[test]
fn only_first_claimant_downloads() {
    let mut inflight = InFlight::new();
    assert_eq!(inflight.claim("a.mem", false), DownloadRole::Download);
    assert!(inflight.contains("a.mem"));
    assert_eq!(inflight.claim("a.mem", false), DownloadRole::Wait);
    assert_eq!(inflight.claim("b.mem", true), DownloadRole::Cached);
    assert!(!inflight.contains("b.mem"));
    inflight.release("a.mem");
    assert!(!inflight.contains("a.mem"));
    assert_eq!(inflight.claim("a.mem", false), DownloadRole::Download);
}

#[test]
fn concurrent_download_failure_message() {
    assert_eq!(
        concurrent_download_failed_message("x.tar"),
        "Concurrent download of x.tar failed: file not present after inflight download completed"
    );
}

use chelsea_lib::snapshot_cache::orphaned_temp_files;

#[test]
fn new_store_removes_only_orphaned_temp_files() {
    let names = vec![".tmp.a.1".to_string(), "commit.tar".to_string(), ".tmp.b.2".to_string(), "x.tmp.".to_string()];
    assert_eq!(orphaned_temp_files(&names), vec![".tmp.a.1".to_string(), ".tmp.b.2".to_string()]);
    assert!(orphaned_temp_files(&vec![]).is_empty());
}
