//! The one-way, non-blocking delivery path from the scan engine to its
//! consumer, and the sharing of the cancellation flag across threads.

use vstd::prelude::*;
use std::sync::Arc;
use std::sync::mpsc::Sender;
use core::sync::atomic::AtomicBool;
use crate::disk_scanner::ScanResults;

verus! {

#[verifier::external_type_specification]
#[verifier::external_body]
#[verifier::reject_recursive_types(T)]
pub struct ExSender<T>(Sender<T>);

/// Hands one snapshot to the consumer.
/// Relies on std::sync::mpsc::Sender::send: it never blocks, and when no
/// receiver is listening it only discards the snapshot — a dropped
/// receiver is not an error for the producer.
#[verifier::external_body]
pub(crate) fn send_results(tx: &Sender<ScanResults>, results: ScanResults) {
    let _ = tx.send(results);
}

/// A second handle to the same cancellation flag.
/// Relies on Arc::clone: the handle shares the flag, it does not copy it.
#[verifier::external_body]
pub(crate) fn share_flag(flag: &Arc<AtomicBool>) -> (r: Arc<AtomicBool>) {
    Arc::clone(flag)
}

} // verus!
