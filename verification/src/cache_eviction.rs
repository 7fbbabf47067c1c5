//! Making room in the snapshot cache, as a machine that the host drives: it
//! scans the cache directory and removes the file the machine names, until
//! enough room is free.
//!
//! A request larger than the whole cache is refused before anything is
//! touched. While room is short, the least recently accessed file that is
//! neither pinned nor an in-progress download is removed; when no such file
//! is left the request fails.
use vstd::prelude::*;
use crate::firecracker::string_of;
use crate::snapshot_cache::{
    cache_available, cache_used, entry_mib, is_eviction_choice, least_recently_accessed, bytes_to_mib_ceil,
    ensure_space_step, CacheEntry, DeleteOldestFileError, EnsureSpaceError, EnsureSpaceStep, GetCacheUtilizationError,
    PinTable,
};

verus! {

pub enum EvictionEvent {
    /// The cache directory as scanned, with the files pinned at that time.
    Scanned { entries: Vec<CacheEntry>, pinned: PinTable },
    /// The file was removed.
    Evicted,
    ScanFailed(std::io::Error),
    EvictFailed(std::io::Error),
}

pub enum EvictionAction {
    Scan,
    /// Remove this file of the cache directory.
    Evict { name: String },
    Finish(Result<(), EnsureSpaceError>),
}

pub enum EvictionActionView {
    Scan,
    Evict(Seq<char>),
    Finish(Result<(), EnsureSpaceError>),
}

pub open spec fn eviction_action_view(a: EvictionAction) -> EvictionActionView {
    match a {
        EvictionAction::Scan => EvictionActionView::Scan,
        EvictionAction::Evict { name } => EvictionActionView::Evict(name@),
        EvictionAction::Finish(r) => EvictionActionView::Finish(r),
    }
}

#[derive(Clone, Copy, PartialEq, Eq, Structural, Debug)]
pub enum EvictionStage {
    Scanning,
    Evicting,
    Finished,
}

/// Makes `space_required_mib` MiB of room in a cache of `cache_size_mib` MiB.
#[derive(Clone, Copy, PartialEq, Eq, Structural, Debug)]
pub struct CacheEviction {
    pub stage: EvictionStage,
    pub cache_size_mib: u32,
    pub space_required_mib: u32,
}

/// There is a file that may be evicted.
pub open spec fn has_eviction_choice(entries: Seq<CacheEntry>, pinned: Map<Seq<char>, nat>) -> bool {
    exists|i: int| is_eviction_choice(entries, pinned, i)
}

/// The file to evict (meaningful when there is one).
pub open spec fn eviction_choice(entries: Seq<CacheEntry>, pinned: Map<Seq<char>, nat>) -> int {
    choose|i: int| is_eviction_choice(entries, pinned, i)
}

pub open spec fn eviction_start(cache_size_mib: u32, space_required_mib: u32) -> (CacheEviction, EvictionActionView) {
    if space_required_mib > cache_size_mib {
        (
            CacheEviction { stage: EvictionStage::Finished, cache_size_mib, space_required_mib },
            EvictionActionView::Finish(
                Err(EnsureSpaceError::CacheNotLargeEnough { space_required_mib, cache_size_mib }),
            ),
        )
    } else {
        (
            CacheEviction { stage: EvictionStage::Scanning, cache_size_mib, space_required_mib },
            EvictionActionView::Scan,
        )
    }
}

pub open spec fn eviction_next(s: CacheEviction, ev: EvictionEvent) -> (CacheEviction, EvictionActionView) {
    let finished = CacheEviction { stage: EvictionStage::Finished, ..s };
    match s.stage {
        EvictionStage::Scanning => match ev {
            EvictionEvent::Scanned { entries, pinned } => if s.space_required_mib > s.cache_size_mib {
                (
                    finished,
                    EvictionActionView::Finish(
                        Err(
                            EnsureSpaceError::CacheNotLargeEnough {
                                space_required_mib: s.space_required_mib,
                                cache_size_mib: s.cache_size_mib,
                            },
                        ),
                    ),
                )
            } else if cache_available(s.cache_size_mib, cache_used(entries@)) >= s.space_required_mib {
                (finished, EvictionActionView::Finish(Ok(())))
            } else if has_eviction_choice(entries@, pinned@) {
                (
                    CacheEviction { stage: EvictionStage::Evicting, ..s },
                    EvictionActionView::Evict(entries@[eviction_choice(entries@, pinned@)].name@),
                )
            } else {
                (
                    finished,
                    EvictionActionView::Finish(Err(EnsureSpaceError::DeleteOldestFile(DeleteOldestFileError::NoFiles))),
                )
            },
            EvictionEvent::ScanFailed(e) => (
                finished,
                EvictionActionView::Finish(Err(EnsureSpaceError::GetCacheUtilization(GetCacheUtilizationError::Io(e)))),
            ),
            EvictionEvent::EvictFailed(e) => (
                finished,
                EvictionActionView::Finish(Err(EnsureSpaceError::DeleteOldestFile(DeleteOldestFileError::Io(e)))),
            ),
            EvictionEvent::Evicted => (s, EvictionActionView::Scan),
        },
        EvictionStage::Evicting => match ev {
            EvictionEvent::EvictFailed(e) => (
                finished,
                EvictionActionView::Finish(Err(EnsureSpaceError::DeleteOldestFile(DeleteOldestFileError::Io(e)))),
            ),
            EvictionEvent::ScanFailed(e) => (
                finished,
                EvictionActionView::Finish(Err(EnsureSpaceError::DeleteOldestFile(DeleteOldestFileError::Io(e)))),
            ),
            _ => (CacheEviction { stage: EvictionStage::Scanning, ..s }, EvictionActionView::Scan),
        },
        EvictionStage::Finished => (s, EvictionActionView::Finish(Ok(()))),
    }
}

/// At most one file is the eviction choice.
pub proof fn lemma_eviction_choice_unique(entries: Seq<CacheEntry>, pinned: Map<Seq<char>, nat>, i: int, j: int)
    requires
        is_eviction_choice(entries, pinned, i),
        is_eviction_choice(entries, pinned, j),
    ensures
        i == j,
{
    if i < j {
        assert(entries[j].atime_secs < entries[i].atime_secs);
    } else if j < i {
        assert(entries[i].atime_secs < entries[j].atime_secs);
    }
}

/// A request larger than the cache is refused before anything is scanned
/// or removed; a request that already fits finishes at the first scan with
/// nothing removed; and a file is only ever removed when room is short, and
/// then it is the least recently accessed file that is neither pinned nor an
/// in-progress download.
pub proof fn lemma_eviction_decisions(s: CacheEviction, entries: Vec<CacheEntry>, pinned: PinTable)
    requires
        s.stage == EvictionStage::Scanning,
    ensures
        eviction_start(s.cache_size_mib, s.space_required_mib).1 is Finish <==> s.space_required_mib > s.cache_size_mib,
        ({
            let (t, a) = eviction_next(s, EvictionEvent::Scanned { entries, pinned });
            &&& cache_available(s.cache_size_mib, cache_used(entries@)) >= s.space_required_mib ==> a
                == EvictionActionView::Finish(Ok(()))
            &&& a matches EvictionActionView::Evict(name) ==> exists|i: int|
                is_eviction_choice(entries@, pinned@, i) && #[trigger] entries@[i].name@ == name
                    && cache_available(s.cache_size_mib, cache_used(entries@)) < s.space_required_mib
        }),
{
    let (t, a) = eviction_next(s, EvictionEvent::Scanned { entries, pinned });
    if a is Evict {
        let i = eviction_choice(entries@, pinned@);
        assert(is_eviction_choice(entries@, pinned@, i));
    }
}

/// The space the files of `entries` take, in MiB, capped at one more than
/// the largest `u32`.
fn cache_used_capped(entries: &Vec<CacheEntry>) -> (r: u64)
    ensures
        r == if cache_used(entries@) <= u32::MAX { cache_used(entries@) } else { u32::MAX as nat + 1 },
{
    let cap: u64 = 4294967296;
    let mut total: u64 = 0;
    let mut i: usize = 0;
    while i < entries.len()
        invariant
            i <= entries@.len(),
            total == if cache_used(entries@.take(i as int)) <= u32::MAX {
                cache_used(entries@.take(i as int))
            } else {
                cap as nat
            },
            cap == u32::MAX as nat + 1,
        decreases entries@.len() - i,
    {
        proof {
            assert(entries@.take(i + 1).drop_last() =~= entries@.take(i as int));
            assert(entries@.take(i + 1).last() == entries@[i as int]);
        }
        if entries[i].is_file {
            let mib = bytes_to_mib_ceil(entries[i].size_bytes) as u32;
            assert(mib == entry_mib(entries@[i as int]));
            if total + (mib as u64) < cap {
                total = total + mib as u64;
            } else {
                total = cap;
            }
        }
        i = i + 1;
    }
    proof {
        assert(entries@.take(i as int) =~= entries@);
    }
    total
}

/// The space left in the cache, for any scan.
fn available_mib(cache_size_mib: u32, entries: &Vec<CacheEntry>) -> (r: u64)
    ensures
        r == cache_available(cache_size_mib, cache_used(entries@)),
{
    let used = cache_used_capped(entries);
    if used <= cache_size_mib as u64 {
        cache_size_mib as u64 - used
    } else {
        0
    }
}

impl CacheEviction {
    /// Starts making `space_required_mib` MiB of room in a cache of
    /// `cache_size_mib` MiB.
    pub fn start(cache_size_mib: u32, space_required_mib: u32) -> (r: (Self, EvictionAction))
        ensures
            (r.0, eviction_action_view(r.1)) == eviction_start(cache_size_mib, space_required_mib),
    {
        if space_required_mib > cache_size_mib {
            (
                CacheEviction { stage: EvictionStage::Finished, cache_size_mib, space_required_mib },
                EvictionAction::Finish(
                    Err(EnsureSpaceError::CacheNotLargeEnough { space_required_mib, cache_size_mib }),
                ),
            )
        } else {
            (
                CacheEviction { stage: EvictionStage::Scanning, cache_size_mib, space_required_mib },
                EvictionAction::Scan,
            )
        }
    }

    pub fn is_finished(&self) -> (r: bool)
        ensures
            r == (self.stage == EvictionStage::Finished),
    {
        self.stage == EvictionStage::Finished
    }

    /// The decision of `ensure_space_step` for a scan, also where the files
    /// take more MiB than a `u32` holds (then no room is left).
    fn decide(&self, entries: &Vec<CacheEntry>, pinned: &PinTable) -> (r: EnsureSpaceStep)
        ensures
            r == EnsureSpaceStep::CacheNotLargeEnough <==> self.space_required_mib > self.cache_size_mib,
            self.space_required_mib <= self.cache_size_mib ==> (r == EnsureSpaceStep::Done <==> cache_available(
                self.cache_size_mib,
                cache_used(entries@),
            ) >= self.space_required_mib),
            r matches EnsureSpaceStep::Evict(i) ==> is_eviction_choice(entries@, pinned@, i as int),
            r == EnsureSpaceStep::NoFiles ==> !has_eviction_choice(entries@, pinned@),
            self.space_required_mib <= self.cache_size_mib && cache_available(self.cache_size_mib, cache_used(entries@))
                < self.space_required_mib ==> (r is Evict || r == EnsureSpaceStep::NoFiles),
    {
        if cache_used_capped(entries) <= u32::MAX as u64 {
            ensure_space_step(self.cache_size_mib, self.space_required_mib, entries, pinned)
        } else if self.space_required_mib > self.cache_size_mib {
            EnsureSpaceStep::CacheNotLargeEnough
        } else if available_mib(self.cache_size_mib, entries) >= self.space_required_mib as u64 {
            EnsureSpaceStep::Done
        } else {
            match least_recently_accessed(entries, pinned) {
                Some(i) => EnsureSpaceStep::Evict(i),
                None => EnsureSpaceStep::NoFiles,
            }
        }
    }

    /// Takes the outcome of the last action and returns the next one.
    pub fn step(&mut self, event: EvictionEvent) -> (r: EvictionAction)
        requires
            old(self).stage != EvictionStage::Finished,
        ensures
            (*final(self), eviction_action_view(r)) == eviction_next(*old(self), event),
    {
        match self.stage {
            EvictionStage::Scanning => match event {
                EvictionEvent::Scanned { entries, pinned } => {
                    let decision = self.decide(&entries, &pinned);
                    match decision {
                        EnsureSpaceStep::CacheNotLargeEnough => {
                            self.stage = EvictionStage::Finished;
                            EvictionAction::Finish(
                                Err(
                                    EnsureSpaceError::CacheNotLargeEnough {
                                        space_required_mib: self.space_required_mib,
                                        cache_size_mib: self.cache_size_mib,
                                    },
                                ),
                            )
                        },
                        EnsureSpaceStep::Done => {
                            self.stage = EvictionStage::Finished;
                            EvictionAction::Finish(Ok(()))
                        },
                        EnsureSpaceStep::Evict(i) => {
                            proof {
                                let c = eviction_choice(entries@, pinned@);
                                lemma_eviction_choice_unique(entries@, pinned@, i as int, c);
                            }
                            self.stage = EvictionStage::Evicting;
                            EvictionAction::Evict { name: string_of(entries[i].name.as_str()) }
                        },
                        EnsureSpaceStep::NoFiles => {
                            proof {
                                if has_eviction_choice(entries@, pinned@) {
                                    let c = eviction_choice(entries@, pinned@);
                                    assert(is_eviction_choice(entries@, pinned@, c));
                                }
                            }
                            self.stage = EvictionStage::Finished;
                            EvictionAction::Finish(Err(EnsureSpaceError::DeleteOldestFile(DeleteOldestFileError::NoFiles)))
                        },
                    }
                },
                EvictionEvent::ScanFailed(e) => {
                    self.stage = EvictionStage::Finished;
                    EvictionAction::Finish(Err(EnsureSpaceError::GetCacheUtilization(GetCacheUtilizationError::Io(e))))
                },
                EvictionEvent::EvictFailed(e) => {
                    self.stage = EvictionStage::Finished;
                    EvictionAction::Finish(Err(EnsureSpaceError::DeleteOldestFile(DeleteOldestFileError::Io(e))))
                },
                EvictionEvent::Evicted => EvictionAction::Scan,
            },
            EvictionStage::Evicting => match event {
                EvictionEvent::EvictFailed(e) => {
                    self.stage = EvictionStage::Finished;
                    EvictionAction::Finish(Err(EnsureSpaceError::DeleteOldestFile(DeleteOldestFileError::Io(e))))
                },
                EvictionEvent::ScanFailed(e) => {
                    self.stage = EvictionStage::Finished;
                    EvictionAction::Finish(Err(EnsureSpaceError::DeleteOldestFile(DeleteOldestFileError::Io(e))))
                },
                _ => {
                    self.stage = EvictionStage::Scanning;
                    EvictionAction::Scan
                },
            },
            EvictionStage::Finished => EvictionAction::Finish(Ok(())),
        }
    }
}

} // verus!
