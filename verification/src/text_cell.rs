//! A reference-counted, reader/writer-synchronized text value.
//!
//! This is the one synchronization primitive of the crate: a shared handle
//! over a verified reader/writer lock holding a `String`. Any number of
//! holders may read concurrently; a writer is exclusive; mutation through
//! any holder is visible to all. The lock cannot be poisoned, so no
//! degraded-mode path exists here.

use vstd::prelude::*;
use vstd::rwlock::{RwLock, RwLockPredicate};

use std::sync::Arc;

verus! {

/// Lock predicate that admits every text value.
pub struct TextPred;

impl RwLockPredicate<String> for TextPred {
    open spec fn inv(self, v: String) -> bool {
        true
    }
}

/// A shared handle to one synchronized text value.
pub type TextCell = Arc<RwLock<String, TextPred>>;

/// A fresh cell holding `text`, with one handle.
pub fn new_text_cell(text: String) -> (r: TextCell) {
    Arc::new(RwLock::new(text, Ghost(TextPred)))
}

/// A snapshot of the cell's current content, read under the cell's own
/// lock, which is released before returning. Concurrent writers serialize
/// with this read, so the snapshot is always one fully written value.
pub fn read_text_cell(cell: &TextCell) -> (r: String) {
    let handle = cell.acquire_read();
    let r = handle.borrow().clone();
    handle.release_read();
    r
}

/// Replace the cell's content with `text` under the cell's write lock.
/// Every holder of the cell observes the new value afterwards.
pub fn write_text_cell(cell: &TextCell, text: String) {
    let (_previous, handle) = cell.acquire_write();
    handle.release_write(text);
}

/// Replace the cell's content with `text` and hand the previous content
/// back, under the cell's write lock.
pub fn swap_text_cell(cell: &TextCell, text: String) -> (r: String) {
    let (previous, handle) = cell.acquire_write();
    handle.release_write(text);
    previous
}

/// Relies on std's `Arc::clone`: the result is a handle to the same
/// allocation, so it stands for the very same lock.
#[verifier::external_body]
pub fn share_text_cell(cell: &TextCell) -> (r: TextCell)
    ensures
        r == *cell,
{
    Arc::clone(cell)
}

/// Relies on std's `Arc::try_unwrap`: `Ok` carries the inner value exactly
/// when the argument was the last handle; otherwise `Err` hands the same
/// handle back.
#[verifier::external_body]
pub fn unwrap_text_cell(cell: TextCell) -> (r: Result<RwLock<String, TextPred>, TextCell>)
    ensures
        r matches Ok(lock) ==> lock == cell,
        r matches Err(e) ==> e == cell,
{
    Arc::try_unwrap(cell)
}

} // verus!
