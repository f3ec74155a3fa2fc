//! State-description text lists.
//!
//! A state-text container stores the texts used for an enumerated present
//! value: index `i` carries the text shown when the value equals `i`.
//! Plain `Vec<String>` is the single-threaded container; `complex` holds
//! the concurrently usable one.
//!
//! Each implementation states what its operations do through the trait's
//! spec members, so a caller generic over the container still reasons with
//! the exact contract of the implementation it holds.

use vstd::prelude::*;
use vstd::pervasive::VecAdditionalExecFns;

pub mod complex;

verus! {

/// Failure of a state-text operation.
#[derive(Clone, Copy, Debug, PartialEq, Eq, Structural)]
pub enum StateTextError {
    /// The given index lies outside `[0, length)`.
    OutOfRange,
    /// The removed entry's content is still shared with another holder and
    /// cannot be reclaimed; the list is left as it was.
    StillShared,
}

/// A container of state texts `0..N`.
pub trait StateText: Sized {
    /// What a completed text read guarantees.
    spec fn get_text_post(&self, index: usize, r: Result<String, StateTextError>) -> bool;

    /// What the reported number of states guarantees.
    spec fn count_post(&self, r: u32) -> bool;

    /// The text used for the state whose value equals `index`.
    fn get_text(&self, index: usize) -> (r: Result<String, StateTextError>)
        ensures
            self.get_text_post(index, r),
    ;

    /// The number of possible states.
    fn number_of_states(&self) -> (r: u32)
        ensures
            self.count_post(r),
    ;
}

/// A state-text container whose list of texts can change.
pub trait StateTextMut: StateText {
    /// What appending guarantees, relating the container before and after.
    spec fn append_post(pre: Self, post: Self, text: String, r: Result<usize, StateTextError>) -> bool;

    /// What removal of the last entry guarantees.
    spec fn pop_post(pre: Self, post: Self, r: Result<Option<String>, StateTextError>) -> bool;

    /// What replacing one entry guarantees.
    spec fn set_state_post(
        pre: Self,
        post: Self,
        index: u32,
        text: String,
        r: Result<Option<String>, StateTextError>,
    ) -> bool;

    /// Append `text` as the text of a new highest state; on success the new
    /// number of states comes back.
    fn append_text(&mut self, text: String) -> (r: Result<usize, StateTextError>)
        ensures
            Self::append_post(*old(self), *final(self), text, r),
    ;

    /// Remove the text of the highest state and hand it back; an empty list
    /// stays empty and yields nothing.
    fn pop_text(&mut self) -> (r: Result<Option<String>, StateTextError>)
        ensures
            Self::pop_post(*old(self), *final(self), r),
    ;

    /// Replace the text at `index`, handing back the text it held before.
    fn set_state(&mut self, index: u32, text: String) -> (r: Result<Option<String>, StateTextError>)
        ensures
            Self::set_state_post(*old(self), *final(self), index, text, r),
    ;
}

impl StateText for Vec<String> {
    /// Reading succeeds exactly on indices below the length and clones the
    /// text stored there.
    open spec fn get_text_post(&self, index: usize, r: Result<String, StateTextError>) -> bool {
        match r {
            Ok(text) => index < self@.len() && text@ == self@[index as int]@,
            Err(e) => index >= self@.len() && e == StateTextError::OutOfRange,
        }
    }

    /// The count is the length, as far as it fits the reported width.
    open spec fn count_post(&self, r: u32) -> bool {
        self@.len() <= u32::MAX ==> r == self@.len()
    }

    fn get_text(&self, index: usize) -> (r: Result<String, StateTextError>) {
        if index < self.len() {
            Ok(self[index].clone())
        } else {
            Err(StateTextError::OutOfRange)
        }
    }

    fn number_of_states(&self) -> (r: u32) {
        #[verifier::truncate] (self.len() as u32)
    }
}

impl StateTextMut for Vec<String> {
    /// Appending pushes the text and reports the grown length.
    open spec fn append_post(
        pre: Self,
        post: Self,
        text: String,
        r: Result<usize, StateTextError>,
    ) -> bool {
        &&& post@ == pre@.push(text)
        &&& r matches Ok(n) && n == post@.len()
    }

    /// Removal drops exactly the last text and hands it back; the empty
    /// list is left as it is.
    open spec fn pop_post(pre: Self, post: Self, r: Result<Option<String>, StateTextError>) -> bool {
        if pre@.len() == 0 {
            post@ == pre@ && (r matches Ok(v) && v is None)
        } else {
            &&& post@ == pre@.drop_last()
            &&& r matches Ok(v) && v matches Some(text) && text == pre@.last()
        }
    }

    /// Replacement succeeds exactly on indices below the length, stores the
    /// new text there and hands back the previous one.
    open spec fn set_state_post(
        pre: Self,
        post: Self,
        index: u32,
        text: String,
        r: Result<Option<String>, StateTextError>,
    ) -> bool {
        if index < pre@.len() {
            &&& post@ == pre@.update(index as int, text)
            &&& r matches Ok(v) && v == Some(pre@[index as int])
        } else {
            &&& post@ == pre@
            &&& r matches Err(e) && e == StateTextError::OutOfRange
        }
    }

    fn append_text(&mut self, text: String) -> (r: Result<usize, StateTextError>) {
        self.push(text);
        Ok(self.len())
    }

    fn pop_text(&mut self) -> (r: Result<Option<String>, StateTextError>) {
        Ok(self.pop())
    }

    fn set_state(&mut self, index: u32, text: String) -> (r: Result<Option<String>, StateTextError>) {
        let i: usize = index as usize;
        if i < self.len() {
            let mut previous = text;
            self.set_and_swap(i, &mut previous);
            Ok(Some(previous))
        } else {
            Err(StateTextError::OutOfRange)
        }
    }
}

} // verus!
