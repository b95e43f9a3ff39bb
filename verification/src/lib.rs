//! Discovers the largest folders and files under a filesystem root and
//! reports them incrementally while the scan is still running.
//!
//! The core is a single-pass, cancellable directory walk that computes
//! per-directory aggregate sizes, maintains two independently bounded
//! "largest-N" selections (folders and files), and republishes consistent,
//! sorted snapshots of those selections without blocking the walking thread.

pub mod channel;
pub mod disk_scanner;
pub mod file_utils;
pub mod path_filter;
pub mod selector;
pub mod strings;
pub mod walk;
