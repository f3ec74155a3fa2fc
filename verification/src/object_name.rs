//! Polymorphic object names.
//!
//! An object name is a comparable, hashable text value that indexes an
//! object. Two representations exist, closed over in one enum: an owned
//! immutable text, and a shared handle over a synchronized mutable text.
//! Mutating a shared name through any holder is visible to all holders.

use vstd::prelude::*;
use vstd::string::StrSliceExecFns;

use crate::text_cell::{new_text_cell, read_text_cell, share_text_cell, write_text_cell, TextCell};

verus! {

/// Rejection of a replacement text. The only variant is reserved for a
/// future restriction of the admitted character set; no text is rejected
/// yet, so `update` never returns it.
#[derive(Debug)]
#[non_exhaustive]
pub enum ObjectNameParseError {
    Other(String),
}

/// A shared, mutable object name: a reference-counted handle over one
/// synchronized text value. Cloning the handle shares the value; writing
/// through any handle is visible to every holder.
pub struct SharedName {
    cell: TextCell,
}

impl SharedName {
    /// A fresh shared name holding `text`, with one handle.
    pub fn new(text: String) -> (r: Self) {
        SharedName { cell: new_text_cell(text) }
    }

    /// Another handle to the same synchronized value.
    pub fn share(&self) -> (r: Self)
        ensures
            r == *self,
    {
        SharedName { cell: share_text_cell(&self.cell) }
    }

    /// A snapshot of the current text, read under the name's lock.
    pub fn read_text(&self) -> (r: String) {
        read_text_cell(&self.cell)
    }

    /// Replace the text behind this name. Every holder of the handle sees
    /// the new text afterwards; the handle itself is unchanged.
    pub fn write_text(&self, text: String) {
        write_text_cell(&self.cell, text);
    }
}

impl Clone for SharedName {
    /// Cloning shares the handle: the clone names the very same
    /// synchronized value.
    fn clone(&self) -> (r: Self)
        ensures
            r == *self,
    {
        self.share()
    }
}

/// A polymorphic object name: either an owned immutable text, or a shared
/// handle over a synchronized mutable text.
pub enum ObjectName {
    Owned(String),
    Shared(SharedName),
}

/// Upper bound of the rolling hash: hashes stay below `2^32`.
pub const HASH_MODULUS: u64 = 0x1_0000_0000;

/// Seed of the rolling hash.
pub const HASH_SEED: u64 = 5381;

/// Rolling hash of a text: seeded, then one multiply-and-add step per
/// character, reduced modulo `2^32`. A pure function of the characters, so
/// equal texts hash equal.
pub open spec fn name_hash_model(s: Seq<char>) -> int
    decreases s.len(),
{
    if s.len() == 0 {
        HASH_SEED as int
    } else {
        (name_hash_model(s.drop_last()) * 31 + s.last() as int) % (HASH_MODULUS as int)
    }
}

/// Computes the rolling hash of `s`.
pub fn hash_text(s: &str) -> (r: u64)
    ensures
        r as int == name_hash_model(s@),
        r < HASH_MODULUS,
{
    let n: usize = s.unicode_len();
    let mut h: u64 = HASH_SEED;
    let mut i: usize = 0;
    while i < n
        invariant
            i <= n,
            n == s@.len(),
            h as int == name_hash_model(s@.subrange(0, i as int)),
            h < HASH_MODULUS,
        decreases n - i,
    {
        let c = s.get_char(i);
        proof {
            assert(s@.subrange(0, i + 1).drop_last() =~= s@.subrange(0, i as int));
            assert(s@.subrange(0, i + 1).last() == s@[i as int]);
        }
        h = (h * 31 + c as u64) % HASH_MODULUS;
        i = i + 1;
    }
    proof {
        assert(s@.subrange(0, n as int) =~= s@);
    }
    h
}

impl ObjectName {
    /// A snapshot of the text this name currently represents: the owned
    /// text itself, or the text now behind the shared handle's lock.
    pub fn snapshot(&self) -> (r: String)
        ensures
            self matches ObjectName::Owned(t) ==> r@ == t@,
    {
        match self {
            ObjectName::Owned(t) => t.clone(),
            ObjectName::Shared(s) => s.read_text(),
        }
    }

    /// Replace the text this name represents. An owned name becomes the new
    /// text; a shared name writes it behind the lock, keeping the handle,
    /// so every holder observes the change. The error is reserved for a
    /// future restriction of the admitted character set: today every text
    /// is accepted.
    pub fn update(&mut self, value: &str) -> (r: Result<(), ObjectNameParseError>)
        ensures
            r is Ok,
            old(self) matches ObjectName::Owned(_) ==> (*final(self)) matches ObjectName::Owned(t)
                && t@ == value@,
            old(self) matches ObjectName::Shared(_) ==> *final(self) == *old(self),
    {
        match self {
            ObjectName::Owned(t) => {
                *t = value.to_owned();
            },
            ObjectName::Shared(s) => {
                s.write_text(value.to_owned());
            },
        }
        Ok(())
    }

    /// Whether the two names currently represent the same text, judged on
    /// snapshots of both.
    pub fn equals(&self, other: &ObjectName) -> (r: bool)
        ensures
            self matches ObjectName::Owned(a) ==> other matches ObjectName::Owned(b) ==> r == (a@
                == b@),
    {
        let mine = self.snapshot();
        let theirs = other.snapshot();
        mine.eq(&theirs)
    }

    /// The hash of the text this name currently represents. For an owned
    /// name this is a pure function of the name's value.
    pub fn hash_value(&self) -> (r: u64)
        ensures
            self matches ObjectName::Owned(t) ==> r as int == name_hash_model(t@),
            r < HASH_MODULUS,
    {
        let text = self.snapshot();
        hash_text(text.as_str())
    }
}

impl Clone for ObjectName {
    /// Cloning preserves the name as a value: an owned text is copied, a
    /// shared handle keeps naming the very same synchronized value. Every
    /// operation on the clone therefore agrees with the original.
    fn clone(&self) -> (r: Self)
        ensures
            r == *self,
    {
        match self {
            ObjectName::Owned(t) => ObjectName::Owned(t.clone()),
            ObjectName::Shared(s) => ObjectName::Shared(s.share()),
        }
    }
}

/// The hash of an owned name is a function of the name's value alone:
/// a clone of an owned name, being the same value, hashes as the original
/// does.
pub proof fn lemma_clone_hash_agrees(original: ObjectName, copy: ObjectName)
    requires
        copy == original,
    ensures
        original matches ObjectName::Owned(t) ==> copy matches ObjectName::Owned(c)
            ==> name_hash_model(t@) == name_hash_model(c@),
{
}

/// Conversion of a plain value into an object name.
pub trait IntoBoxedObjectName: Sized {
    /// Whether `r` is the name this value converts to.
    spec fn represents(self, r: ObjectName) -> bool;

    /// Wrap the value as an object name.
    fn into_object_name(self) -> (r: ObjectName)
        ensures
            self.represents(r),
    ;
}

impl IntoBoxedObjectName for &str {
    /// A text slice becomes an owned name carrying the same characters.
    open spec fn represents(self, r: ObjectName) -> bool {
        r matches ObjectName::Owned(t) && t@ == self@
    }

    fn into_object_name(self) -> (r: ObjectName) {
        ObjectName::Owned(self.to_owned())
    }
}

impl IntoBoxedObjectName for String {
    /// An owned text becomes an owned name carrying the same characters.
    open spec fn represents(self, r: ObjectName) -> bool {
        r matches ObjectName::Owned(t) && t@ == self@
    }

    fn into_object_name(self) -> (r: ObjectName) {
        ObjectName::Owned(self)
    }
}

impl IntoBoxedObjectName for SharedName {
    /// A shared handle becomes a shared name over the same value.
    open spec fn represents(self, r: ObjectName) -> bool {
        r == ObjectName::Shared(self)
    }

    fn into_object_name(self) -> (r: ObjectName) {
        ObjectName::Shared(self)
    }
}

impl IntoBoxedObjectName for ObjectName {
    /// A name converts to itself.
    open spec fn represents(self, r: ObjectName) -> bool {
        r == self
    }

    fn into_object_name(self) -> (r: ObjectName) {
        self
    }
}

} // verus!
