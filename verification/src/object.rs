//! An automation object: instance number, name, property cells, callbacks,
//! and an optional state-text list.
//!
//! Property mutation has two entry points. The local path validates and
//! stores silently; the remote path performs the identical validation and
//! storage and then, only on success, delivers the new value to the
//! subscriber registered for that property kind, exactly once, before
//! returning.

use vstd::prelude::*;
use vstd::pervasive::VecAdditionalExecFns;

use crate::callback::{trigger_model, ObjectCallbacks};
use crate::object_name::ObjectName;
use crate::property::{
    kinds_match, lemma_lookup_hits, lemma_lookup_misses, lookup, same_kind, store, PropertyCell,
    PropertyIdentifier, PropertyValue,
};
use crate::state_text::complex::SharedStateText;

verus! {

/// Rejection of a property write.
#[derive(Clone, Copy, Debug, PartialEq, Eq, Structural)]
pub enum PropertyError {
    /// The object has no cell filed under the given kind.
    UnknownProperty,
    /// The new payload is of another kind than the one the cell holds.
    KindMismatch,
}

/// An automation object.
pub struct Object {
    /// Instance number within the object's kind.
    pub instance: u32,
    /// The name the object is addressed by.
    pub name: ObjectName,
    /// The property cells, at most one per property kind.
    pub cells: Vec<PropertyCell>,
    /// The subscribers watching this object's properties.
    pub callbacks: ObjectCallbacks,
    /// The state-description texts, for objects that carry them.
    pub state_text: Option<SharedStateText>,
}

impl Object {
    /// Cells are filed under pairwise-distinct kinds.
    pub open spec fn wf(&self) -> bool {
        forall|i: int, j: int|
            0 <= i < j < self.cells@.len() ==> self.cells@[i].kind != self.cells@[j].kind
    }

    /// The payload currently filed under `kind`.
    pub open spec fn spec_property(&self, kind: PropertyIdentifier) -> Option<PropertyValue> {
        lookup(self.cells@, kind)
    }

    /// An object with the given identity and cells, watching nothing.
    pub fn new(instance: u32, name: ObjectName, cells: Vec<PropertyCell>) -> (r: Self)
        requires
            forall|i: int, j: int| 0 <= i < j < cells@.len() ==> cells@[i].kind != cells@[j].kind,
        ensures
            r.wf(),
            r.instance == instance,
            r.name == name,
            r.cells@ == cells@,
            r.callbacks@ == crate::callback::empty_callbacks(),
            r.state_text is None,
    {
        Object { instance, name, cells, callbacks: ObjectCallbacks::new(), state_text: None }
    }

    /// Attach the state-description list, for object kinds that carry one.
    pub fn attach_state_text(&mut self, list: SharedStateText)
        ensures
            final(self).state_text == Some(list),
            final(self).instance == old(self).instance,
            final(self).name == old(self).name,
            final(self).cells == old(self).cells,
            final(self).callbacks == old(self).callbacks,
    {
        self.state_text = Some(list);
    }

    /// The index of the cell filed under `kind`, if any.
    fn find_cell(&self, kind: PropertyIdentifier) -> (r: Option<usize>)
        ensures
            match r {
                Some(i) => i < self.cells@.len() && self.cells@[i as int].kind == kind
                    && self.spec_property(kind) == Some(self.cells@[i as int].value)
                    && (forall|j: int| 0 <= j < i ==> self.cells@[j].kind != kind),
                None => self.spec_property(kind) is None,
            },
    {
        let n: usize = self.cells.len();
        let mut i: usize = 0;
        while i < n
            invariant
                i <= n,
                n == self.cells@.len(),
                forall|j: int| 0 <= j < i ==> self.cells@[j].kind != kind,
            decreases n - i,
        {
            if self.cells[i].kind == kind {
                proof {
                    lemma_lookup_hits(self.cells@, kind, i as int);
                }
                return Some(i);
            }
            i = i + 1;
        }
        proof {
            lemma_lookup_misses(self.cells@, kind);
        }
        None
    }

    /// The payload currently filed under `property`.
    pub fn get_property(&self, property: PropertyIdentifier) -> (r: Result<
        PropertyValue,
        PropertyError,
    >)
        ensures
            match r {
                Ok(v) => self.spec_property(property) == Some(v),
                Err(e) => self.spec_property(property) is None && e
                    == PropertyError::UnknownProperty,
            },
    {
        match self.find_cell(property) {
            Some(i) => Ok(self.cells[i].value),
            None => Err(PropertyError::UnknownProperty),
        }
    }

    /// Validate `value` against the cell filed under `property` and store
    /// it there. Shared by both mutation paths; notifies nobody.
    fn store_value(&mut self, property: PropertyIdentifier, value: PropertyValue) -> (r: Result<
        (),
        PropertyError,
    >)
        requires
            old(self).wf(),
        ensures
            final(self).wf(),
            final(self).instance == old(self).instance,
            final(self).name == old(self).name,
            final(self).callbacks == old(self).callbacks,
            final(self).state_text == old(self).state_text,
            r is Ok <==> (old(self).spec_property(property) matches Some(cur)
                && same_kind(cur, value)),
            r is Ok ==> final(self).cells@ == store(old(self).cells@, property, value)
                && final(self).spec_property(property) == Some(value),
            r is Err ==> *final(self) == *old(self),
            r matches Err(e) ==> (e == PropertyError::UnknownProperty <==> old(self).spec_property(
                property,
            ) is None),
    {
        match self.find_cell(property) {
            None => Err(PropertyError::UnknownProperty),
            Some(i) => {
                if kinds_match(&self.cells[i].value, &value) {
                    self.cells.set(i, PropertyCell { kind: property, value });
                    proof {
                        assert(self.cells@ =~= store(old(self).cells@, property, value));
                        lemma_lookup_hits(self.cells@, property, i as int);
                    }
                    Ok(())
                } else {
                    Err(PropertyError::KindMismatch)
                }
            },
        }
    }

    /// Locally originated write: validate and store, never notify. On
    /// rejection the object is left exactly as it was.
    pub fn set_local(&mut self, property: PropertyIdentifier, value: PropertyValue) -> (r: Result<
        (),
        PropertyError,
    >)
        requires
            old(self).wf(),
        ensures
            final(self).wf(),
            final(self).instance == old(self).instance,
            final(self).name == old(self).name,
            final(self).callbacks == old(self).callbacks,
            final(self).state_text == old(self).state_text,
            r is Ok <==> (old(self).spec_property(property) matches Some(cur)
                && same_kind(cur, value)),
            r is Ok ==> final(self).cells@ == store(old(self).cells@, property, value)
                && final(self).spec_property(property) == Some(value),
            r is Err ==> *final(self) == *old(self),
            r matches Err(e) ==> (e == PropertyError::UnknownProperty <==> old(self).spec_property(
                property,
            ) is None),
    {
        self.store_value(property, value)
    }

    /// Remotely originated write: the identical validation and storage,
    /// then — only on success — one delivery of the new value to the
    /// subscriber registered for `property`, before returning. On
    /// rejection the object, subscribers included, is left exactly as it
    /// was.
    pub fn set_remote(&mut self, property: PropertyIdentifier, value: PropertyValue) -> (r: Result<
        (),
        PropertyError,
    >)
        requires
            old(self).wf(),
        ensures
            final(self).wf(),
            final(self).instance == old(self).instance,
            final(self).name == old(self).name,
            final(self).state_text == old(self).state_text,
            r is Ok <==> (old(self).spec_property(property) matches Some(cur)
                && same_kind(cur, value)),
            r is Ok ==> final(self).cells@ == store(old(self).cells@, property, value)
                && final(self).spec_property(property) == Some(value)
                && final(self).callbacks@ == trigger_model(old(self).callbacks@, property, value),
            r is Err ==> *final(self) == *old(self),
            r matches Err(e) ==> (e == PropertyError::UnknownProperty <==> old(self).spec_property(
                property,
            ) is None),
    {
        let stored = self.store_value(property, value);
        match stored {
            Ok(()) => {
                self.callbacks.trigger(property, value);
                Ok(())
            },
            Err(e) => Err(e),
        }
    }
}

} // verus!
