//! The scan engine: entry records, snapshot records, and the `DiskScanner`
//! that walks a directory tree and ranks the largest folders and files.

use vstd::prelude::*;
use vstd::string::*;
use std::sync::Arc;
use std::sync::mpsc::Sender;
use core::sync::atomic::AtomicBool;
use core::sync::atomic::Ordering;
use crate::channel::send_results;
use crate::channel::share_flag;
use crate::path_filter::should_skip;
use crate::path_filter::should_skip_spec;
use crate::selector::BoundedTopSelector;
use crate::selector::sorted_desc;
use crate::walk::EntryStat;
use crate::walk::entry_name;
use crate::walk::entry_path;
use crate::walk::entry_stat;
use crate::walk::walk_next;
use crate::walk::walk_skip_dir;
use crate::walk::walk_start;

verus! {

/// One reported folder or file: a display name, the fully qualified path,
/// and the logical size in bytes. Immutable once constructed.
#[derive(Debug, Clone)]
pub struct ScanResult {
    pub name: String,
    pub path: String,
    pub size: u64,
}

/// A point-in-time snapshot: the largest folders and the largest files
/// seen so far, each sorted non-increasing by size. A snapshot is a fully
/// materialized copy and never aliases live selector state.
#[derive(Debug)]
pub struct ScanResults {
    pub folders: Vec<ScanResult>,
    pub files: Vec<ScanResult>,
}

impl ScanResults {
    /// Materializes a snapshot of both selectors: every delivered snapshot
    /// is sorted non-increasing by size and within the selector's capacity.
    pub fn from_selectors(folders: &BoundedTopSelector, files: &BoundedTopSelector) -> (r: Self)
        requires
            folders.wf(),
            files.wf(),
        ensures
            r.folders@ == folders@,
            r.files@ == files@,
            sorted_desc(r.folders@),
            sorted_desc(r.files@),
            r.folders@.len() <= folders.capacity_spec(),
            r.files@.len() <= files.capacity_spec(),
    {
        proof {
            folders.lemma_sorted_and_bounded();
            files.lemma_sorted_and_bounded();
        }
        ScanResults { folders: folders.snapshot(), files: files.snapshot() }
    }
}

/// No entry of `s` has a path that matches the exclusion filter.
pub open spec fn all_unfiltered(s: Seq<ScanResult>) -> bool {
    forall|i: int| #![trigger s[i]] 0 <= i < s.len() ==> !should_skip_spec(s[i].path@)
}

/// What one size accumulation observed: for each accounted entry, its full
/// path and what the metadata read said.
pub type SizeLog = Seq<(Seq<char>, EntryStat)>;

/// Addition saturating at the largest representable count.
pub open spec fn sat_add(total: int, more: int) -> int {
    if total + more > u64::MAX {
        u64::MAX as int
    } else {
        total + more
    }
}

/// What one observed entry contributes to a running size total: a regular
/// file adds its size, saturating; anything else adds nothing.
pub open spec fn stat_add(total: int, st: EntryStat) -> int {
    if st.is_file {
        sat_add(total, st.size as int)
    } else {
        total
    }
}

/// The saturating sum of the sizes of the regular files among the observed
/// entries, in observation order.
pub open spec fn size_sum(log: SizeLog) -> int
    decreases log.len(),
{
    if log.len() == 0 {
        0
    } else {
        stat_add(size_sum(log.drop_last()), log.last().1)
    }
}

/// Every observed entry's path passes the exclusion filter.
pub open spec fn log_unfiltered(log: SizeLog) -> bool {
    forall|i: int| #![trigger log[i]] 0 <= i < log.len() ==> !should_skip_spec(log[i].0)
}

/// An upper bound on walk steps taken by one loop, far beyond any real
/// directory tree; it only serves as the loop's termination measure.
pub const MAX_WALK_STEPS: u64 = 0xFFFF_FFFF_FFFF_FFFF;

/// The ceiling on directory nesting the outer walk descends through.
pub const MAX_WALK_DEPTH: usize = 1000;

/// The ceiling on directory nesting one size accumulation descends through.
pub const MAX_SIZE_DEPTH: usize = 100;

/// How often, in processed directories, a snapshot is published.
pub const FOLDER_SNAPSHOT_PERIOD: u64 = 50;

/// How often, in processed files, a snapshot is published.
pub const FILE_SNAPSHOT_PERIOD: u64 = 500;

/// A handle that requests cancellation of a running scan from another
/// thread. Cancellation is cooperative: the scan observes it at the next
/// polling point.
pub struct CancelHandle {
    flag: Arc<AtomicBool>,
}

impl CancelHandle {
    /// Requests that the scan stop at its next polling point.
    pub fn request_stop(&self) {
        self.flag.store(true, Ordering::SeqCst);
    }
}

/// Walks a directory tree, computes per-directory aggregate sizes, keeps
/// the largest folders and files in two bounded selectors, and publishes
/// snapshots through a channel while the walk is still running.
pub struct DiskScanner {
    root_path: String,
    file_limit: usize,
    folder_limit: usize,
    should_stop: Arc<AtomicBool>,
    result_sender: Option<Sender<ScanResults>>,
}

impl DiskScanner {
    /// Both limits are positive.
    pub closed spec fn wf(self) -> bool {
        self.file_limit >= 1 && self.folder_limit >= 1
    }

    /// The most files a snapshot of this scanner reports.
    pub closed spec fn file_limit_spec(self) -> int {
        self.file_limit as int
    }

    /// The most folders a snapshot of this scanner reports.
    pub closed spec fn folder_limit_spec(self) -> int {
        self.folder_limit as int
    }

    /// The root path this scanner walks.
    pub closed spec fn root_path_spec(self) -> Seq<char> {
        self.root_path@
    }

    /// The channel snapshots are delivered through, when one is attached.
    pub closed spec fn sender_spec(self) -> Option<Sender<ScanResults>> {
        self.result_sender
    }

    /// A scanner for the tree under `root_path` that delivers snapshots
    /// through `sender`. The limits bound how many folders and files are
    /// retained and reported; each must be positive.
    pub fn new_with_sender(
        root_path: String,
        file_limit: usize,
        folder_limit: usize,
        sender: Sender<ScanResults>,
    ) -> (r: Self)
        requires
            file_limit >= 1,
            folder_limit >= 1,
        ensures
            r.wf(),
            r.file_limit_spec() == file_limit as int,
            r.folder_limit_spec() == folder_limit as int,
            r.root_path_spec() == root_path@,
            r.sender_spec() == Some(sender),
    {
        DiskScanner {
            root_path,
            file_limit,
            folder_limit,
            should_stop: Arc::new(AtomicBool::new(false)),
            result_sender: Some(sender),
        }
    }

    /// Requests that a running scan stop at its next polling point.
    pub fn stop(&self) {
        self.should_stop.store(true, Ordering::SeqCst);
    }

    /// A handle another thread can use to request cancellation while this
    /// scanner is busy scanning.
    pub fn cancel_handle(&self) -> CancelHandle {
        CancelHandle { flag: share_flag(&self.should_stop) }
    }

    /// Polls the shared cancellation flag.
    fn stop_requested(&self) -> bool {
        self.should_stop.load(Ordering::SeqCst)
    }

    /// Publishes a snapshot of both selectors, sorted and bounded; when no
    /// consumer is attached the snapshot is simply discarded.
    pub fn send_incremental_results(
        &self,
        folders: &BoundedTopSelector,
        files: &BoundedTopSelector,
    )
        requires
            folders.wf(),
            files.wf(),
    {
        match &self.result_sender {
            Some(sender) => {
                let results = ScanResults::from_selectors(folders, files);
                send_results(sender, results);
            },
            None => {},
        }
    }

    /// Decides whether `path` is excluded from traversal and accounting.
    pub fn should_skip_path(&self, path: &str) -> (r: bool)
        ensures
            r == should_skip_spec(path@),
    {
        should_skip(path)
    }

    /// One accumulation step of the size computation.
    fn add_file_size(total: u64, st: &EntryStat) -> (r: u64)
        ensures
            r as int == stat_add(total as int, *st),
    {
        if st.is_file {
            if total <= u64::MAX - st.size {
                total + st.size
            } else {
                u64::MAX
            }
        } else {
            total
        }
    }

    /// The total logical size of the tree under `path`, with a log of what
    /// was observed: the result is exactly the saturating sum of the sizes
    /// of the regular files among the observed entries, and every observed
    /// entry's path passes the exclusion filter — excluded subtrees are
    /// neither descended into nor counted. Unreadable entries are not
    /// observed and contribute nothing, and when cancellation is seen the
    /// partial sum over the entries observed so far is returned.
    fn calculate_folder_size(&self, path: &str) -> (r: (u64, Ghost<SizeLog>))
        ensures
            r.0 as int == size_sum(r.1@),
            log_unfiltered(r.1@),
    {
        let mut total: u64 = 0;
        let ghost mut log: SizeLog = Seq::empty();
        let mut it = walk_start(path, 0, MAX_SIZE_DEPTH);
        let mut steps: u64 = MAX_WALK_STEPS;
        while steps > 0
            invariant
                total as int == size_sum(log),
                log_unfiltered(log),
            decreases steps,
        {
            steps -= 1;
            if self.stop_requested() {
                break ;
            }
            match walk_next(&mut it) {
                None => {
                    break ;
                },
                Some(None) => {},
                Some(Some(entry)) => {
                    let entry_path_text = entry_path(&entry);
                    if should_skip(entry_path_text.as_str()) {
                        match entry_stat(&entry) {
                            Some(st) => {
                                if st.is_dir {
                                    walk_skip_dir(&mut it);
                                }
                            },
                            None => {},
                        }
                    } else {
                        match entry_stat(&entry) {
                            Some(st) => {
                                let ghost prev_log = log;
                                total = Self::add_file_size(total, &st);
                                proof {
                                    log = log.push((entry_path_text@, st));
                                    assert(log.drop_last() =~= prev_log);
                                    assert forall|i: int| #![trigger log[i]] 0 <= i < log.len()
                                        implies !should_skip_spec(log[i].0) by {
                                        if i < prev_log.len() {
                                            assert(log[i] == prev_log[i]);
                                        } else {
                                            assert(log[i] == (entry_path_text@, st));
                                        }
                                    }
                                }
                            },
                            None => {},
                        }
                    }
                },
            }
        }
        (total, Ghost(log))
    }

    /// Walks the tree under the scanner's root. Every directory and file
    /// that passes the filter is ranked; snapshots are published
    /// periodically and once more at the end. The walk stops early when
    /// cancellation is observed, at the polling point before the next read
    /// — in particular, before any further directory-size computation
    /// begins. The result holds at most `folder_limit`
    /// folders and `file_limit` files, each list sorted non-increasing by
    /// size.
    pub fn scan(&self) -> (r: ScanResults)
        requires
            self.wf(),
        ensures
            sorted_desc(r.folders@),
            sorted_desc(r.files@),
            r.folders@.len() <= self.folder_limit_spec(),
            r.files@.len() <= self.file_limit_spec(),
            all_unfiltered(r.folders@),
            all_unfiltered(r.files@),
    {
        let mut folder_selector = BoundedTopSelector::new(self.folder_limit);
        let mut file_selector = BoundedTopSelector::new(self.file_limit);
        let mut folders_scanned: u64 = 0;
        let mut files_scanned: u64 = 0;
        let mut it = walk_start(self.root_path.as_str(), 1, MAX_WALK_DEPTH);
        let mut steps: u64 = MAX_WALK_STEPS;
        while steps > 0
            invariant
                folder_selector.wf(),
                file_selector.wf(),
                folder_selector.capacity_spec() == self.folder_limit_spec(),
                file_selector.capacity_spec() == self.file_limit_spec(),
                self.wf(),
                folders_scanned <= MAX_WALK_STEPS - steps,
                files_scanned <= MAX_WALK_STEPS - steps,
                all_unfiltered(folder_selector.history()),
                all_unfiltered(file_selector.history()),
            decreases steps,
        {
            steps -= 1;
            // The cancellation check precedes the next read and, in
            // particular, any further size accumulation.
            if self.stop_requested() {
                break ;
            }
            match walk_next(&mut it) {
                None => {
                    break ;
                },
                Some(None) => {},
                Some(Some(entry)) => {
                    let path = entry_path(&entry);
                    if self.should_skip_path(path.as_str()) {
                        // Do not account a filtered entry, and do not
                        // descend into it.
                        match entry_stat(&entry) {
                            Some(st) => {
                                if st.is_dir {
                                    walk_skip_dir(&mut it);
                                }
                            },
                            None => {},
                        }
                    } else {
                        match entry_stat(&entry) {
                            Some(st) => {
                                if st.is_dir {
                                    folders_scanned = folders_scanned + 1;
                                    let (size, _size_log) = self.calculate_folder_size(
                                        path.as_str(),
                                    );
                                    let name = match entry_name(&entry) {
                                        Some(n) => n,
                                        None => String::from_str("Root"),
                                    };
                                    let ghost prev_hist = folder_selector.history();
                                    let folder_entry = ScanResult { name, path, size };
                                    let ghost new_entry = folder_entry;
                                    folder_selector.push(folder_entry);
                                    proof {
                                        lemma_push_keeps_unfiltered(prev_hist, new_entry);
                                    }
                                    if folders_scanned % FOLDER_SNAPSHOT_PERIOD == 0 {
                                        self.send_incremental_results(
                                            &folder_selector,
                                            &file_selector,
                                        );
                                    }
                                } else if st.is_file {
                                    files_scanned = files_scanned + 1;
                                    let name = match entry_name(&entry) {
                                        Some(n) => n,
                                        None => String::from_str("Unknown"),
                                    };
                                    let ghost prev_hist = file_selector.history();
                                    let file_entry = ScanResult { name, path, size: st.size };
                                    let ghost new_entry = file_entry;
                                    file_selector.push(file_entry);
                                    proof {
                                        lemma_push_keeps_unfiltered(prev_hist, new_entry);
                                    }
                                    if files_scanned % FILE_SNAPSHOT_PERIOD == 0 {
                                        self.send_incremental_results(
                                            &folder_selector,
                                            &file_selector,
                                        );
                                    }
                                }
                            },
                            None => {},
                        }
                    }
                },
            }
        }
        // The final snapshot reflects the terminal selector contents and is
        // published whether the walk finished naturally or was cancelled.
        self.send_incremental_results(&folder_selector, &file_selector);
        let results = ScanResults::from_selectors(&folder_selector, &file_selector);
        proof {
            lemma_retained_are_unfiltered(folder_selector);
            lemma_retained_are_unfiltered(file_selector);
        }
        results
    }
}

/// Pushing an entry that passes the filter onto a history whose entries all
/// pass it yields a history whose entries all pass it.
proof fn lemma_push_keeps_unfiltered(hist: Seq<ScanResult>, e: ScanResult)
    requires
        all_unfiltered(hist),
        !should_skip_spec(e.path@),
    ensures
        all_unfiltered(hist.push(e)),
{
    let s = hist.push(e);
    assert forall|j: int| #![trigger s[j]] 0 <= j < s.len() implies !should_skip_spec(
        s[j].path@,
    ) by {
        if j < hist.len() {
            assert(s[j] == hist[j]);
        } else {
            assert(s[j] == e);
        }
    }
}

/// When everything pushed into a selector passes the filter, so does
/// everything it retains.
proof fn lemma_retained_are_unfiltered(sel: BoundedTopSelector)
    requires
        sel.wf(),
        all_unfiltered(sel.history()),
    ensures
        all_unfiltered(sel@),
{
    sel.lemma_retained_were_pushed();
    let s = sel@;
    assert forall|i: int| #![trigger s[i]] 0 <= i < s.len() implies !should_skip_spec(
        s[i].path@,
    ) by {
        assert(sel.history().contains(s[i]));
        let j = choose|j: int| 0 <= j < sel.history().len() && sel.history()[j] == s[i];
        assert(!should_skip_spec(sel.history()[j].path@));
    }
}

} // verus!
