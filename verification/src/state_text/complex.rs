//! Concurrently usable state-text list.
//!
//! Two independent synchronization domains: an outer lock guards the
//! structure (which entries exist), and each entry carries its own lock
//! guarding its content. Content reads and writes on distinct entries
//! proceed independently; structural changes serialize with each other.
//! A content operation never holds another entry's lock, and reading one
//! entry never holds the outer lock of a shared list longer than the
//! structural access itself.

use vstd::prelude::*;
use vstd::rwlock::{RwLock, RwLockPredicate};

use std::sync::Arc;

use crate::state_text::{StateText, StateTextError, StateTextMut};
use crate::text_cell::{
    new_text_cell, read_text_cell, share_text_cell, swap_text_cell, unwrap_text_cell, TextCell,
};

verus! {

/// An ordered list of independently lockable text entries, with the
/// reference number of the state-text list it describes.
pub struct SyncStateText {
    reference_number: u32,
    texts: Vec<TextCell>,
}

/// Lock predicate for a shared list: the outer lock admits every list
/// carrying the reference number it was created with.
pub struct ListPred {
    pub reference_number: u32,
}

impl RwLockPredicate<SyncStateText> for ListPred {
    open spec fn inv(self, v: SyncStateText) -> bool {
        v.spec_reference_number() == self.reference_number
    }
}

/// A shared handle to a list behind its outer structural lock.
pub type SharedStateText = Arc<RwLock<SyncStateText, ListPred>>;

impl SyncStateText {
    /// The entry cells, in order. The contents behind each cell's lock are
    /// not part of this view; the cells themselves — the handles' identity —
    /// are.
    pub closed spec fn spec_entries(&self) -> Seq<TextCell> {
        self.texts@
    }

    /// The number of entries.
    pub closed spec fn spec_len(&self) -> nat {
        self.texts@.len()
    }

    /// The reference number the list was created with.
    pub closed spec fn spec_reference_number(&self) -> u32 {
        self.reference_number
    }

    /// A list seeded with the given texts, in order: entry `i` holds
    /// `seed[i]`.
    pub fn new(reference_number: u32, seed: Vec<String>) -> (r: Self)
        ensures
            r.spec_reference_number() == reference_number,
            r.spec_len() == seed@.len(),
    {
        let mut texts: Vec<TextCell> = Vec::new();
        let mut i: usize = 0;
        while i < seed.len()
            invariant
                i <= seed@.len(),
                texts@.len() == i,
            decreases seed@.len() - i,
        {
            texts.push(new_text_cell(seed[i].clone()));
            i = i + 1;
        }
        SyncStateText { reference_number, texts }
    }

    /// The reference number of the state-text list.
    pub fn reference_number(&self) -> (r: u32)
        ensures
            r == self.spec_reference_number(),
    {
        self.reference_number
    }

    /// Another handle to the content of the entry at `index`: the entry's
    /// own cell, not a copy. The holder can read and write that one entry
    /// independently of the list; while such a handle is out, the entry
    /// cannot be reclaimed by `pop_text`.
    pub fn entry_handle(&self, index: usize) -> (r: Result<TextCell, StateTextError>)
        ensures
            r is Ok <==> index < self.spec_len(),
            r matches Ok(c) ==> c == self.spec_entries()[index as int],
            r matches Err(e) ==> e == StateTextError::OutOfRange,
    {
        if index < self.texts.len() {
            Ok(share_text_cell(&self.texts[index]))
        } else {
            Err(StateTextError::OutOfRange)
        }
    }

    /// Wrap the list behind an outer structural lock, for use from several
    /// threads at once.
    pub fn into_shared(self) -> (r: SharedStateText)
        ensures
            r.pred() == (ListPred { reference_number: self.spec_reference_number() }),
    {
        let reference_number = self.reference_number;
        Arc::new(
            RwLock::new(self, Ghost(ListPred { reference_number })),
        )
    }
}

impl StateText for SyncStateText {
    /// Reading succeeds exactly on indices below the length; the text comes
    /// out of the entry's own lock, taken and released for just the read,
    /// so it is one fully written snapshot of that entry.
    open spec fn get_text_post(&self, index: usize, r: Result<String, StateTextError>) -> bool {
        &&& r is Ok <==> index < self.spec_len()
        &&& r matches Err(e) ==> e == StateTextError::OutOfRange
    }

    /// The count is the number of entries, as far as it fits the reported
    /// width.
    open spec fn count_post(&self, r: u32) -> bool {
        self.spec_len() <= u32::MAX ==> r == self.spec_len()
    }

    fn get_text(&self, index: usize) -> (r: Result<String, StateTextError>) {
        if index < self.texts.len() {
            Ok(read_text_cell(&self.texts[index]))
        } else {
            Err(StateTextError::OutOfRange)
        }
    }

    fn number_of_states(&self) -> (r: u32) {
        #[verifier::truncate] (self.texts.len() as u32)
    }
}

impl StateTextMut for SyncStateText {
    /// Appending adds one entry at the end, keeps every existing entry —
    /// handle for handle — and reports the grown length.
    open spec fn append_post(
        pre: Self,
        post: Self,
        text: String,
        r: Result<usize, StateTextError>,
    ) -> bool {
        &&& post.spec_len() == pre.spec_len() + 1
        &&& post.spec_entries().drop_last() =~= pre.spec_entries()
        &&& post.spec_reference_number() == pre.spec_reference_number()
        &&& r matches Ok(n) && n == post.spec_len()
    }

    /// Removal takes exactly the last entry out, and only when its content
    /// is not shared with another holder; on the still-shared signal the
    /// list is exactly as it was, and an empty list is left as it is.
    open spec fn pop_post(pre: Self, post: Self, r: Result<Option<String>, StateTextError>) -> bool {
        &&& post.spec_reference_number() == pre.spec_reference_number()
        &&& if pre.spec_len() == 0 {
            post == pre && (r matches Ok(v) && v is None)
        } else {
            ||| (post.spec_entries() =~= pre.spec_entries().drop_last() && (r matches Ok(v)
                && v is Some))
            ||| (post.spec_entries() =~= pre.spec_entries() && (r matches Err(e) && e
                == StateTextError::StillShared))
        }
    }

    /// Replacement succeeds exactly on indices below the length; the
    /// structure is untouched, the entry's content is swapped under that
    /// entry's own lock, and the previous content comes back.
    open spec fn set_state_post(
        pre: Self,
        post: Self,
        index: u32,
        text: String,
        r: Result<Option<String>, StateTextError>,
    ) -> bool {
        &&& post == pre
        &&& if index < pre.spec_len() {
            r matches Ok(v) && v is Some
        } else {
            r matches Err(e) && e == StateTextError::OutOfRange
        }
    }

    fn append_text(&mut self, text: String) -> (r: Result<usize, StateTextError>) {
        self.texts.push(new_text_cell(text));
        proof {
            assert(self.texts@.drop_last() =~= old(self).texts@);
        }
        Ok(self.texts.len())
    }

    fn pop_text(&mut self) -> (r: Result<Option<String>, StateTextError>) {
        if self.texts.len() == 0 {
            return Ok(None);
        }
        match self.texts.pop() {
            None => Ok(None),
            Some(cell) => {
                match unwrap_text_cell(cell) {
                    Ok(lock) => Ok(Some(lock.into_inner())),
                    Err(still_shared) => {
                        self.texts.push(still_shared);
                        proof {
                            assert(self.texts@ =~= old(self).texts@);
                        }
                        Err(StateTextError::StillShared)
                    },
                }
            },
        }
    }

    fn set_state(&mut self, index: u32, text: String) -> (r: Result<Option<String>, StateTextError>) {
        let i: usize = index as usize;
        if i < self.texts.len() {
            Ok(Some(swap_text_cell(&self.texts[i], text)))
        } else {
            Err(StateTextError::OutOfRange)
        }
    }
}

impl StateText for SharedStateText {
    /// The list lives behind the outer lock, so no length is pinned; a
    /// rejected read names the index error.
    open spec fn get_text_post(&self, index: usize, r: Result<String, StateTextError>) -> bool {
        r matches Err(e) ==> e == StateTextError::OutOfRange
    }

    /// The count is whatever length the list had under the outer lock.
    open spec fn count_post(&self, r: u32) -> bool {
        true
    }

    /// The outer lock is held only to reach the entry; the entry's content
    /// is then read under the entry's own lock.
    fn get_text(&self, index: usize) -> (r: Result<String, StateTextError>) {
        let handle = self.acquire_read();
        let entry = handle.borrow().entry_handle(index);
        handle.release_read();
        match entry {
            Ok(cell) => Ok(read_text_cell(&cell)),
            Err(e) => Err(e),
        }
    }

    fn number_of_states(&self) -> (r: u32) {
        let handle = self.acquire_read();
        let n: u32 = handle.borrow().number_of_states();
        handle.release_read();
        n
    }
}

impl StateTextMut for SharedStateText {
    /// The handle itself is unchanged; the structural change happens under
    /// the outer lock, and the grown length comes back.
    open spec fn append_post(
        pre: Self,
        post: Self,
        text: String,
        r: Result<usize, StateTextError>,
    ) -> bool {
        &&& post == pre
        &&& r matches Ok(n) && n >= 1
    }

    /// The handle itself is unchanged; a rejected removal names the
    /// still-shared condition, never an index error.
    open spec fn pop_post(pre: Self, post: Self, r: Result<Option<String>, StateTextError>) -> bool {
        &&& post == pre
        &&& r matches Err(e) ==> e == StateTextError::StillShared
    }

    /// The handle itself is unchanged; a completed replacement hands the
    /// previous content back, and a rejected one names the index error.
    open spec fn set_state_post(
        pre: Self,
        post: Self,
        index: u32,
        text: String,
        r: Result<Option<String>, StateTextError>,
    ) -> bool {
        &&& post == pre
        &&& r matches Ok(v) ==> v is Some
        &&& r matches Err(e) ==> e == StateTextError::OutOfRange
    }

    fn append_text(&mut self, text: String) -> (r: Result<usize, StateTextError>) {
        let (mut list, handle) = self.acquire_write();
        let appended = list.append_text(text);
        handle.release_write(list);
        appended
    }

    fn pop_text(&mut self) -> (r: Result<Option<String>, StateTextError>) {
        let (mut list, handle) = self.acquire_write();
        let popped = list.pop_text();
        handle.release_write(list);
        popped
    }

    fn set_state(&mut self, index: u32, text: String) -> (r: Result<Option<String>, StateTextError>) {
        let (mut list, handle) = self.acquire_write();
        let previous = list.set_state(index, text);
        handle.release_write(list);
        previous
    }
}

} // verus!
