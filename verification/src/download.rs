//! Fetching a set of snapshot files into the cache with concurrent fetches
//! coalesced, as a machine that the host drives.
//!
//! The files are pinned for the whole operation, so that no eviction removes
//! them, and exactly the names pinned are unpinned at the end, whatever the
//! outcome. Each file is used as it is when on disk, waited for when another
//! caller is fetching it, and otherwise fetched by this caller, which releases
//! its claim afterwards (also when the fetch failed).
use vstd::prelude::*;
use crate::firecracker::string_of;
use crate::snapshot_cache::{concurrent_download_failed_message, concurrent_download_failed_text, names_of, DownloadRole};

verus! {

pub enum DownloadFailure<E> {
    /// Another caller's fetch of the file ended without the file on disk.
    ConcurrentDownloadFailed(String),
    Step(E),
}

pub enum DownloadFailureView<E> {
    ConcurrentDownloadFailed(Seq<char>),
    Step(E),
}

pub open spec fn download_failure_view<E>(f: DownloadFailure<E>) -> DownloadFailureView<E> {
    match f {
        DownloadFailure::ConcurrentDownloadFailed(m) => DownloadFailureView::ConcurrentDownloadFailed(m@),
        DownloadFailure::Step(e) => DownloadFailureView::Step(e),
    }
}

pub enum DownloadEvent<E> {
    Succeeded,
    /// The pin table pinned these (distinct) names.
    Pinned { names: Vec<String> },
    /// The in-flight registry decided this caller's part for the file.
    Claimed(DownloadRole),
    /// Whether the file is on disk.
    Exists(bool),
    Failed(E),
}

pub enum DownloadAction<E> {
    /// Pin these names in the pin table.
    PinFiles { names: Vec<String> },
    /// Claim the file in the in-flight registry (with whether it is on disk).
    Claim { name: String },
    /// Wait until the caller fetching the file is done.
    WaitFor { name: String },
    CheckExists { name: String },
    /// Fetch the file at this position of the list (making room, writing a
    /// temporary file and renaming it into place).
    Fetch { index: usize },
    /// Release the claim on the file and wake the callers waiting for it.
    Release { name: String },
    /// Unpin these names.
    UnpinFiles { names: Vec<String> },
    Finish(Result<(), DownloadFailure<E>>),
}

pub enum DownloadActionView<E> {
    PinFiles(Seq<Seq<char>>),
    Claim(Seq<char>),
    WaitFor(Seq<char>),
    CheckExists(Seq<char>),
    Fetch(nat),
    Release(Seq<char>),
    UnpinFiles(Seq<Seq<char>>),
    Finish(Result<(), DownloadFailureView<E>>),
}

pub open spec fn download_action_view<E>(a: DownloadAction<E>) -> DownloadActionView<E> {
    match a {
        DownloadAction::PinFiles { names } => DownloadActionView::PinFiles(names_of(names@)),
        DownloadAction::Claim { name } => DownloadActionView::Claim(name@),
        DownloadAction::WaitFor { name } => DownloadActionView::WaitFor(name@),
        DownloadAction::CheckExists { name } => DownloadActionView::CheckExists(name@),
        DownloadAction::Fetch { index } => DownloadActionView::Fetch(index as nat),
        DownloadAction::Release { name } => DownloadActionView::Release(name@),
        DownloadAction::UnpinFiles { names } => DownloadActionView::UnpinFiles(names_of(names@)),
        DownloadAction::Finish(Ok(())) => DownloadActionView::Finish(Ok(())),
        DownloadAction::Finish(Err(f)) => DownloadActionView::Finish(Err(download_failure_view(f))),
    }
}

#[derive(Clone, Copy, PartialEq, Eq, Structural, Debug)]
pub enum DownloadStage {
    Pinning,
    Claiming,
    Waiting,
    CheckingAfterWait,
    Fetching,
    Releasing,
    Unpinning,
    Finished,
}

pub struct CoalescedDownload<E> {
    stage: DownloadStage,
    names: Vec<String>,
    pinned: Vec<String>,
    index: usize,
    pending: Option<DownloadFailure<E>>,
}

pub struct CoalescedDownloadView<E> {
    pub stage: DownloadStage,
    pub names: Seq<Seq<char>>,
    /// What the pin table pinned: exactly what is unpinned at the end.
    pub pinned: Seq<Seq<char>>,
    /// The file being handled.
    pub index: nat,
    /// The failure to report once the claim is released and the files
    /// unpinned.
    pub pending: Option<DownloadFailureView<E>>,
}

impl<E> View for CoalescedDownload<E> {
    type V = CoalescedDownloadView<E>;

    closed spec fn view(&self) -> CoalescedDownloadView<E> {
        CoalescedDownloadView {
            stage: self.stage,
            names: names_of(self.names@),
            pinned: names_of(self.pinned@),
            index: self.index as nat,
            pending: match self.pending {
                Some(f) => Some(download_failure_view(f)),
                None => None,
            },
        }
    }
}

/// The file being handled exists in the list while one is handled.
pub open spec fn download_wf<E>(s: CoalescedDownloadView<E>) -> bool {
    match s.stage {
        DownloadStage::Claiming | DownloadStage::Waiting | DownloadStage::CheckingAfterWait
        | DownloadStage::Fetching | DownloadStage::Releasing => s.index < s.names.len(),
        _ => true,
    }
}

/// Go on with the file at `index`, or unpin once all are done.
pub open spec fn next_file<E>(s: CoalescedDownloadView<E>, index: nat) -> (
    CoalescedDownloadView<E>,
    DownloadActionView<E>,
) {
    if index < s.names.len() {
        (
            CoalescedDownloadView { stage: DownloadStage::Claiming, index, pending: None, ..s },
            DownloadActionView::Claim(s.names[index as int]),
        )
    } else {
        (
            CoalescedDownloadView { stage: DownloadStage::Unpinning, index, pending: None, ..s },
            DownloadActionView::UnpinFiles(s.pinned),
        )
    }
}

/// Stop with `f`: unpin, then report.
pub open spec fn stop_with<E>(s: CoalescedDownloadView<E>, f: DownloadFailureView<E>) -> (
    CoalescedDownloadView<E>,
    DownloadActionView<E>,
) {
    (
        CoalescedDownloadView { stage: DownloadStage::Unpinning, pending: Some(f), ..s },
        DownloadActionView::UnpinFiles(s.pinned),
    )
}

pub open spec fn download_next<E>(s: CoalescedDownloadView<E>, ev: DownloadEvent<E>) -> (
    CoalescedDownloadView<E>,
    DownloadActionView<E>,
) {
    let name = s.names[s.index as int];
    match s.stage {
        DownloadStage::Pinning => match ev {
            DownloadEvent::Pinned { names } => next_file(CoalescedDownloadView { pinned: names_of(names@), ..s }, 0),
            DownloadEvent::Failed(e) => (
                CoalescedDownloadView { stage: DownloadStage::Finished, pending: None, ..s },
                DownloadActionView::Finish(Err(DownloadFailureView::Step(e))),
            ),
            _ => (s, DownloadActionView::PinFiles(s.names)),
        },
        DownloadStage::Claiming => match ev {
            DownloadEvent::Claimed(DownloadRole::Cached) => next_file(s, s.index + 1),
            DownloadEvent::Claimed(DownloadRole::Wait) => (
                CoalescedDownloadView { stage: DownloadStage::Waiting, ..s },
                DownloadActionView::WaitFor(name),
            ),
            DownloadEvent::Claimed(DownloadRole::Download) => (
                CoalescedDownloadView { stage: DownloadStage::Fetching, ..s },
                DownloadActionView::Fetch(s.index),
            ),
            DownloadEvent::Failed(e) => stop_with(s, DownloadFailureView::Step(e)),
            _ => (s, DownloadActionView::Claim(name)),
        },
        DownloadStage::Waiting => match ev {
            DownloadEvent::Failed(e) => stop_with(s, DownloadFailureView::Step(e)),
            _ => (
                CoalescedDownloadView { stage: DownloadStage::CheckingAfterWait, ..s },
                DownloadActionView::CheckExists(name),
            ),
        },
        DownloadStage::CheckingAfterWait => match ev {
            DownloadEvent::Exists(true) => next_file(s, s.index + 1),
            DownloadEvent::Exists(false) => stop_with(
                s,
                DownloadFailureView::ConcurrentDownloadFailed(concurrent_download_failed_text(name)),
            ),
            DownloadEvent::Failed(e) => stop_with(s, DownloadFailureView::Step(e)),
            _ => (s, DownloadActionView::CheckExists(name)),
        },
        DownloadStage::Fetching => (
            CoalescedDownloadView {
                stage: DownloadStage::Releasing,
                pending: match ev {
                    DownloadEvent::Failed(e) => Some(DownloadFailureView::Step(e)),
                    _ => None,
                },
                ..s
            },
            DownloadActionView::Release(name),
        ),
        DownloadStage::Releasing => match s.pending {
            Some(f) => stop_with(s, f),
            None => next_file(s, s.index + 1),
        },
        DownloadStage::Unpinning => (
            CoalescedDownloadView { stage: DownloadStage::Finished, pending: None, ..s },
            DownloadActionView::Finish(
                match s.pending {
                    Some(f) => Err(f),
                    None => Ok(()),
                },
            ),
        ),
        DownloadStage::Finished => (s, DownloadActionView::Finish(Ok(()))),
    }
}

/// A failed fetch releases the claim on the file, then unpins exactly what
/// was pinned, and only then reports the failure, whatever the outcomes of
/// the release and the unpinning.
pub proof fn lemma_failed_fetch_releases_then_unpins<E>(
    s: CoalescedDownloadView<E>,
    e: E,
    o1: DownloadEvent<E>,
    o2: DownloadEvent<E>,
)
    requires
        s.stage == DownloadStage::Fetching,
    ensures
        ({
            let (t1, a1) = download_next(s, DownloadEvent::Failed(e));
            let (t2, a2) = download_next(t1, o1);
            let (t3, a3) = download_next(t2, o2);
            &&& a1 == DownloadActionView::<E>::Release(s.names[s.index as int])
            &&& a2 == DownloadActionView::<E>::UnpinFiles(s.pinned)
            &&& a3 == DownloadActionView::<E>::Finish(Err(DownloadFailureView::Step(e)))
            &&& t3.stage == DownloadStage::Finished
        }),
{
}

/// Once the files are pinned, every way to the end goes through unpinning
/// exactly the names pinned: a failure while claiming, waiting or checking
/// unpins and then reports it.
pub proof fn lemma_failure_unpins<E>(s: CoalescedDownloadView<E>, e: E, o: DownloadEvent<E>)
    requires
        s.stage == DownloadStage::Claiming || s.stage == DownloadStage::Waiting || s.stage
            == DownloadStage::CheckingAfterWait,
    ensures
        ({
            let (t1, a1) = download_next(s, DownloadEvent::Failed(e));
            let (t2, a2) = download_next(t1, o);
            &&& a1 == DownloadActionView::<E>::UnpinFiles(s.pinned)
            &&& a2 == DownloadActionView::<E>::Finish(Err(DownloadFailureView::Step(e)))
        }),
{
}

/// After the last file, whatever became of each, the names pinned are
/// unpinned before the download reports success; with `lemma_pin_then_unpin`
/// the pin table is then as it was before the download.
pub proof fn lemma_last_file_unpins<E>(s: CoalescedDownloadView<E>, o: DownloadEvent<E>)
    requires
        s.stage == DownloadStage::Releasing,
        s.pending is None,
        s.index + 1 == s.names.len(),
    ensures
        ({
            let (t1, a1) = download_next(s, DownloadEvent::<E>::Succeeded);
            let (t2, a2) = download_next(t1, o);
            &&& a1 == DownloadActionView::<E>::UnpinFiles(s.pinned)
            &&& a2 == DownloadActionView::<E>::Finish(Ok(()))
        }),
{
}

/// The files are handled one after the other, in order, none skipped: a
/// claim is always for the file at the current position, which is the first
/// file right after pinning and otherwise stays or moves on by exactly one;
/// and the names are unpinned without a failure to report only once the
/// last file has been handled.
pub proof fn lemma_files_handled_in_order<E>(s: CoalescedDownloadView<E>, ev: DownloadEvent<E>)
    requires
        download_wf(s),
        s.stage != DownloadStage::Finished,
    ensures
        ({
            let (t, a) = download_next(s, ev);
            &&& t.names == s.names
            &&& a matches DownloadActionView::Claim(n) ==> t.index < t.names.len() && n == t.names[t.index as int]
                && if s.stage == DownloadStage::Pinning {
                t.index == 0
            } else {
                t.index == s.index || t.index == s.index + 1
            }
            &&& (a matches DownloadActionView::UnpinFiles(_) && t.pending is None) ==> if s.stage
                == DownloadStage::Pinning {
                s.names.len() == 0
            } else {
                s.index + 1 == s.names.len()
            }
            &&& a matches DownloadActionView::Fetch(i) ==> i == s.index && i < s.names.len()
        }),
{
}

/// A file on disk, or one another caller is fetching, is never fetched by
/// this caller.
pub proof fn lemma_no_duplicate_fetch<E>(s: CoalescedDownloadView<E>, role: DownloadRole)
    requires
        s.stage == DownloadStage::Claiming,
    ensures
        download_next(s, DownloadEvent::<E>::Claimed(role)).1 is Fetch <==> role == DownloadRole::Download,
{
}

impl<E> CoalescedDownload<E> {
    /// Starts fetching the files named `names` (in order); the first action
    /// pins them all.
    pub fn start(names: Vec<String>) -> (r: (Self, DownloadAction<E>))
        ensures
            r.0@.stage == DownloadStage::Pinning,
            r.0@.names == names_of(names@),
            r.0@.pending is None,
            download_wf(r.0@),
            download_action_view(r.1) == DownloadActionView::<E>::PinFiles(names_of(names@)),
    {
        let mut copy: Vec<String> = Vec::new();
        for i in 0..names.len()
            invariant
                copy@.len() == i,
                forall|j: int| 0 <= j < i ==> #[trigger] copy@[j]@ == names@[j]@,
        {
            copy.push(string_of(names[i].as_str()));
        }
        assert(names_of(copy@) =~= names_of(names@));
        (
            CoalescedDownload { stage: DownloadStage::Pinning, names, pinned: Vec::new(), index: 0, pending: None },
            DownloadAction::PinFiles { names: copy },
        )
    }

    pub fn is_finished(&self) -> (r: bool)
        ensures
            r == (self@.stage == DownloadStage::Finished),
    {
        self.stage == DownloadStage::Finished
    }

    fn copy_pinned(&self) -> (r: Vec<String>)
        ensures
            names_of(r@) == names_of(self.pinned@),
    {
        let mut out: Vec<String> = Vec::new();
        for i in 0..self.pinned.len()
            invariant
                out@.len() == i,
                forall|j: int| 0 <= j < i ==> #[trigger] out@[j]@ == self.pinned@[j]@,
        {
            out.push(string_of(self.pinned[i].as_str()));
        }
        assert(names_of(out@) =~= names_of(self.pinned@));
        out
    }

    fn current_name(&self) -> (r: String)
        requires
            self.index < self.names@.len(),
        ensures
            r@ == self@.names[self.index as int],
    {
        string_of(self.names[self.index].as_str())
    }

    fn go_to(&mut self, index: usize) -> (r: DownloadAction<E>)
        requires
            index <= old(self).names@.len(),
        ensures
            (final(self)@, download_action_view(r)) == next_file(old(self)@, index as nat),
    {
        self.index = index;
        self.pending = None;
        if index < self.names.len() {
            self.stage = DownloadStage::Claiming;
            DownloadAction::Claim { name: self.current_name() }
        } else {
            self.stage = DownloadStage::Unpinning;
            DownloadAction::UnpinFiles { names: self.copy_pinned() }
        }
    }

    fn stop(&mut self, f: DownloadFailure<E>) -> (r: DownloadAction<E>)
        ensures
            (final(self)@, download_action_view(r)) == stop_with(old(self)@, download_failure_view(f)),
    {
        self.stage = DownloadStage::Unpinning;
        self.pending = Some(f);
        DownloadAction::UnpinFiles { names: self.copy_pinned() }
    }

    /// Takes the outcome of the last action and returns the next one.
    pub fn step(&mut self, event: DownloadEvent<E>) -> (r: DownloadAction<E>)
        requires
            old(self)@.stage != DownloadStage::Finished,
            download_wf(old(self)@),
        ensures
            (final(self)@, download_action_view(r)) == download_next(old(self)@, event),
            download_wf(final(self)@),
    {
        match self.stage {
            DownloadStage::Pinning => match event {
                DownloadEvent::Pinned { names } => {
                    self.pinned = names;
                    self.go_to(0)
                },
                DownloadEvent::Failed(e) => {
                    self.stage = DownloadStage::Finished;
                    self.pending = None;
                    DownloadAction::Finish(Err(DownloadFailure::Step(e)))
                },
                _ => {
                    let mut copy: Vec<String> = Vec::new();
                    for i in 0..self.names.len()
                        invariant
                            copy@.len() == i,
                            forall|j: int| 0 <= j < i ==> #[trigger] copy@[j]@ == self.names@[j]@,
                    {
                        copy.push(string_of(self.names[i].as_str()));
                    }
                    assert(names_of(copy@) =~= names_of(self.names@));
                    DownloadAction::PinFiles { names: copy }
                },
            },
            DownloadStage::Claiming => match event {
                DownloadEvent::Claimed(DownloadRole::Cached) => self.go_to(self.index + 1),
                DownloadEvent::Claimed(DownloadRole::Wait) => {
                    self.stage = DownloadStage::Waiting;
                    DownloadAction::WaitFor { name: self.current_name() }
                },
                DownloadEvent::Claimed(DownloadRole::Download) => {
                    self.stage = DownloadStage::Fetching;
                    DownloadAction::Fetch { index: self.index }
                },
                DownloadEvent::Failed(e) => self.stop(DownloadFailure::Step(e)),
                _ => DownloadAction::Claim { name: self.current_name() },
            },
            DownloadStage::Waiting => match event {
                DownloadEvent::Failed(e) => self.stop(DownloadFailure::Step(e)),
                _ => {
                    self.stage = DownloadStage::CheckingAfterWait;
                    DownloadAction::CheckExists { name: self.current_name() }
                },
            },
            DownloadStage::CheckingAfterWait => match event {
                DownloadEvent::Exists(true) => self.go_to(self.index + 1),
                DownloadEvent::Exists(false) => {
                    let m = concurrent_download_failed_message(self.names[self.index].as_str());
                    self.stop(DownloadFailure::ConcurrentDownloadFailed(m))
                },
                DownloadEvent::Failed(e) => self.stop(DownloadFailure::Step(e)),
                _ => DownloadAction::CheckExists { name: self.current_name() },
            },
            DownloadStage::Fetching => {
                self.stage = DownloadStage::Releasing;
                self.pending = match event {
                    DownloadEvent::Failed(e) => Some(DownloadFailure::Step(e)),
                    _ => None,
                };
                DownloadAction::Release { name: self.current_name() }
            },
            DownloadStage::Releasing => {
                match self.pending.take() {
                    Some(f) => self.stop(f),
                    None => self.go_to(self.index + 1),
                }
            },
            DownloadStage::Unpinning => {
                self.stage = DownloadStage::Finished;
                match self.pending.take() {
                    Some(f) => DownloadAction::Finish(Err(f)),
                    None => DownloadAction::Finish(Ok(())),
                }
            },
            DownloadStage::Finished => DownloadAction::Finish(Ok(())),
        }
    }
}

} // verus!
