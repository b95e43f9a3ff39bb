//! The filesystem traversal primitive the scan engine drives, and the small
//! trusted boundary around it.
//!
//! Everything the walk yields depends on what is on disk, so none of these
//! results is pinned by a contract: the scan engine is verified to handle
//! every outcome. The wrappers only convert the walk's values to plain ones.

use vstd::prelude::*;
use walkdir::WalkDir;

verus! {

#[verifier::external_type_specification]
#[verifier::external_body]
pub struct ExWalkIter(walkdir::IntoIter);

#[verifier::external_type_specification]
#[verifier::external_body]
pub struct ExDirEntry(walkdir::DirEntry);

#[verifier::external_type_specification]
#[verifier::external_body]
pub struct ExWalkError(walkdir::Error);

/// What kind of object a visited entry is, and its logical size in bytes.
pub struct EntryStat {
    pub is_dir: bool,
    pub is_file: bool,
    pub size: u64,
}

/// Starts a depth-bounded walk of the tree under `root`.
/// Relies on walkdir::WalkDir: symbolic links are not followed, and only
/// entries at depth `min_depth` through `max_depth` are yielded.
#[verifier::external_body]
pub(crate) fn walk_start(root: &str, min_depth: usize, max_depth: usize) -> (it: walkdir::IntoIter) {
    WalkDir::new(root).follow_links(false).min_depth(min_depth).max_depth(max_depth).into_iter()
}

/// One step of the walk. Relies on walkdir::IntoIter::next: `None` means
/// the walk is exhausted; `Some(None)` stands for an entry that could not
/// be read, which the caller skips.
#[verifier::external_body]
pub(crate) fn walk_next(it: &mut walkdir::IntoIter) -> (r: Option<Option<walkdir::DirEntry>>) {
    match it.next() {
        None => None,
        Some(Ok(entry)) => Some(Some(entry)),
        Some(Err(_)) => Some(None),
    }
}

/// Prunes the walk below the most recently yielded directory.
/// Relies on walkdir::IntoIter::skip_current_dir: the contents of that
/// directory are not descended into.
#[verifier::external_body]
pub(crate) fn walk_skip_dir(it: &mut walkdir::IntoIter) {
    it.skip_current_dir();
}

/// The full path of a visited entry, as text.
/// Relies on walkdir::DirEntry::path.
#[verifier::external_body]
pub(crate) fn entry_path(e: &walkdir::DirEntry) -> (r: String) {
    e.path().to_string_lossy().to_string()
}

/// The leaf name of a visited entry, when it is valid text.
/// Relies on walkdir::DirEntry::file_name.
#[verifier::external_body]
pub(crate) fn entry_name(e: &walkdir::DirEntry) -> (r: Option<String>) {
    e.file_name().to_str().map(|s| s.to_string())
}

/// Reads a visited entry's kind and logical size, or `None` when its
/// metadata cannot be read. Relies on walkdir::DirEntry::metadata.
#[verifier::external_body]
pub(crate) fn entry_stat(e: &walkdir::DirEntry) -> (r: Option<EntryStat>) {
    match e.metadata() {
        Ok(m) => Some(EntryStat { is_dir: m.is_dir(), is_file: m.is_file(), size: m.len() }),
        Err(_) => None,
    }
}

} // verus!
