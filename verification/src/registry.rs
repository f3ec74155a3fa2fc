//! Registry of objects, keyed by their names.
//!
//! The registry is built by accumulation and then finalized into an
//! immutable index. The key under which an object is filed is a frozen
//! snapshot of its name's text, taken at insertion: a String value of the
//! registry's own, decoupled from any shared handle still held elsewhere.
//! Mutating such a handle afterwards can therefore never move or hide a
//! resident entry — lookups keep answering by the frozen keys.

use vstd::prelude::*;

use crate::object::Object;
use crate::object_name::ObjectName;

verus! {

/// Failure of a registry operation.
#[derive(Clone, Copy, Debug, PartialEq, Eq, Structural)]
pub enum RegistryError {
    /// No resident object is filed under the given name.
    NotFound,
    /// An object is already filed under the given name.
    DuplicateName,
}

/// One resident entry: the frozen key text and the object filed under it.
pub struct Entry {
    pub key: String,
    pub object: Object,
}

/// Whether some entry is filed under the key text `k`.
pub open spec fn contains_key(entries: Seq<Entry>, k: Seq<char>) -> bool {
    exists|i: int| 0 <= i < entries.len() && entries[i].key@ == k
}

/// The object filed under the key text `k`, scanning from the front.
pub open spec fn reg_lookup(entries: Seq<Entry>, k: Seq<char>) -> Option<Object>
    decreases entries.len(),
{
    if entries.len() == 0 {
        None
    } else if entries[0].key@ == k {
        Some(entries[0].object)
    } else {
        reg_lookup(entries.drop_first(), k)
    }
}

/// Keys of distinct entries are pairwise distinct texts.
pub open spec fn distinct_keys(entries: Seq<Entry>) -> bool {
    forall|i: int, j: int| 0 <= i < j < entries.len() ==> entries[i].key@ != entries[j].key@
}

/// When the first `i` entries miss `k` and entry `i` carries it, the scan
/// lands on entry `i`.
pub proof fn lemma_reg_lookup_hits(entries: Seq<Entry>, k: Seq<char>, i: int)
    requires
        0 <= i < entries.len(),
        entries[i].key@ == k,
        forall|j: int| 0 <= j < i ==> entries[j].key@ != k,
    ensures
        reg_lookup(entries, k) == Some(entries[i].object),
    decreases i,
{
    if i > 0 {
        lemma_reg_lookup_hits(entries.drop_first(), k, i - 1);
    }
}

/// When no entry is filed under `k`, the scan comes back empty.
pub proof fn lemma_reg_lookup_misses(entries: Seq<Entry>, k: Seq<char>)
    requires
        !contains_key(entries, k),
    ensures
        reg_lookup(entries, k) is None,
    decreases entries.len(),
{
    if entries.len() > 0 {
        assert(forall|j: int|
            0 <= j < entries.drop_first().len() ==> entries.drop_first()[j] == entries[j + 1]);
        lemma_reg_lookup_misses(entries.drop_first(), k);
    }
}

/// Accumulates objects before the index is frozen.
pub struct ObjectRegistryBuilder {
    entries: Vec<Entry>,
}

/// The finished, immutable index from name text to object.
pub struct ObjectRegistry {
    entries: Vec<Entry>,
}

impl View for ObjectRegistryBuilder {
    type V = Seq<Entry>;

    closed spec fn view(&self) -> Seq<Entry> {
        self.entries@
    }
}

impl View for ObjectRegistry {
    type V = Seq<Entry>;

    closed spec fn view(&self) -> Seq<Entry> {
        self.entries@
    }
}

/// Finds the position filed under the text of `key`, if any.
fn find_entry(entries: &Vec<Entry>, key: &String) -> (r: Option<usize>)
    ensures
        match r {
            Some(i) => i < entries@.len() && entries@[i as int].key@ == key@ && reg_lookup(
                entries@,
                key@,
            ) == Some(entries@[i as int].object),
            None => !contains_key(entries@, key@) && reg_lookup(entries@, key@) is None,
        },
{
    let n: usize = entries.len();
    let mut i: usize = 0;
    while i < n
        invariant
            i <= n,
            n == entries@.len(),
            forall|j: int| 0 <= j < i ==> entries@[j].key@ != key@,
        decreases n - i,
    {
        if entries[i].key.eq(key) {
            proof {
                lemma_reg_lookup_hits(entries@, key@, i as int);
            }
            return Some(i);
        }
        i = i + 1;
    }
    proof {
        lemma_reg_lookup_misses(entries@, key@);
    }
    None
}

impl ObjectRegistryBuilder {
    /// An empty accumulation.
    pub fn new() -> (r: Self)
        ensures
            r@ == Seq::<Entry>::empty(),
            distinct_keys(r@),
    {
        ObjectRegistryBuilder { entries: Vec::new() }
    }

    /// File `object` under a frozen snapshot of its name's current text.
    /// The key is a text value of the builder's own; the object — any
    /// shared name handle included — is stored as payload only. A name
    /// text already filed rejects the object unchanged.
    pub fn add_object(&mut self, object: Object) -> (r: Result<(), RegistryError>)
        requires
            distinct_keys(old(self)@),
        ensures
            distinct_keys(final(self)@),
            r is Ok ==> final(self)@.len() == old(self)@.len() + 1 && final(self)@.drop_last()
                == old(self)@ && final(self)@.last().object == object && !contains_key(
                old(self)@,
                final(self)@.last().key@,
            ),
            r is Ok ==> (object.name matches ObjectName::Owned(t) ==> final(self)@.last().key@
                == t@),
            r is Err ==> *final(self) == *old(self) && old(self)@.len() > 0,
            r matches Err(e) ==> e == RegistryError::DuplicateName,
            object.name matches ObjectName::Owned(t) ==> (r is Ok <==> !contains_key(
                old(self)@,
                t@,
            )),
    {
        let key = object.name.snapshot();
        match find_entry(&self.entries, &key) {
            Some(_) => Err(RegistryError::DuplicateName),
            None => {
                self.entries.push(Entry { key, object });
                proof {
                    assert(self@.drop_last() =~= old(self)@);
                }
                Ok(())
            },
        }
    }

    /// Freeze the accumulation into the immutable index.
    pub fn finalize(self) -> (r: ObjectRegistry)
        ensures
            r@ == self@,
            distinct_keys(self@) ==> r.wf(),
    {
        ObjectRegistry { entries: self.entries }
    }
}

impl ObjectRegistry {
    /// Keys of resident entries are pairwise distinct.
    pub open spec fn wf(&self) -> bool {
        distinct_keys(self@)
    }

    /// The number of resident objects.
    pub fn len(&self) -> (r: usize)
        ensures
            r == self@.len(),
    {
        self.entries.len()
    }

    /// The resident object filed under the key text `key`: the lookup
    /// succeeds exactly when some entry carries that text, and fails with
    /// `NotFound` otherwise. The answer depends on the frozen keys alone.
    pub fn get_by_text<'a>(&'a self, key: &String) -> (r: Result<&'a Object, RegistryError>)
        ensures
            r is Ok <==> contains_key(self@, key@),
            r matches Ok(o) ==> reg_lookup(self@, key@) == Some(*o),
            r matches Err(e) ==> e == RegistryError::NotFound && !contains_key(self@, key@),
    {
        match find_entry(&self.entries, key) {
            Some(i) => Ok(&self.entries[i].object),
            None => Err(RegistryError::NotFound),
        }
    }

    /// The resident object filed under a snapshot of `name`'s current
    /// text. For an owned name the lookup succeeds exactly when the name's
    /// text is a frozen key; for a shared name the text read under the
    /// handle's lock is looked up the same way.
    pub fn get_object_by_name<'a>(&'a self, name: &ObjectName) -> (r: Result<
        &'a Object,
        RegistryError,
    >)
        ensures
            name matches ObjectName::Owned(t) ==> (r is Ok <==> contains_key(self@, t@)),
            name matches ObjectName::Owned(t) ==> (r matches Ok(o) ==> reg_lookup(self@, t@)
                == Some(*o)),
            r matches Ok(o) ==> exists|i: int| 0 <= i < self@.len() && self@[i].object == *o,
            r matches Err(e) ==> e == RegistryError::NotFound,
    {
        let key = name.snapshot();
        let found = self.get_by_text(&key);
        proof {
            if found is Ok {
                lemma_reg_lookup_is_resident(self@, key@);
            }
        }
        found
    }
}

/// A successful scan hands back a resident object.
pub proof fn lemma_reg_lookup_is_resident(entries: Seq<Entry>, k: Seq<char>)
    requires
        reg_lookup(entries, k) is Some,
    ensures
        exists|i: int|
            0 <= i < entries.len() && entries[i].object == reg_lookup(entries, k).unwrap(),
    decreases entries.len(),
{
    if entries.len() > 0 && entries[0].key@ != k {
        lemma_reg_lookup_is_resident(entries.drop_first(), k);
        let j: int = choose|j: int|
            0 <= j < entries.drop_first().len() && entries.drop_first()[j].object == reg_lookup(
                entries.drop_first(),
                k,
            ).unwrap();
        assert(entries[j + 1].object == reg_lookup(entries, k).unwrap());
    }
}

/// Frozen keys: whether a lookup succeeds is a function of the frozen key
/// texts and the key asked for alone. Two registries whose entries carry
/// the same key texts answer alike, whatever the stored objects — and so
/// whatever became of any shared name handle inside them since insertion.
pub proof fn lemma_lookup_depends_on_frozen_keys(a: Seq<Entry>, b: Seq<Entry>, k: Seq<char>)
    requires
        a.len() == b.len(),
        forall|i: int| 0 <= i < a.len() ==> a[i].key@ == b[i].key@,
    ensures
        contains_key(a, k) <==> contains_key(b, k),
        reg_lookup(a, k) is Some <==> reg_lookup(b, k) is Some,
    decreases a.len(),
{
    if a.len() > 0 && a[0].key@ != k {
        assert(forall|i: int|
            0 <= i < a.drop_first().len() ==> a.drop_first()[i] == a[i + 1] && b.drop_first()[i]
                == b[i + 1]);
        lemma_lookup_depends_on_frozen_keys(a.drop_first(), b.drop_first(), k);
        assert(contains_key(a, k) ==> contains_key(b, k)) by {
            if contains_key(a, k) {
                let i: int = choose|i: int| 0 <= i < a.len() && a[i].key@ == k;
                assert(b[i].key@ == k);
            }
        }
        assert(contains_key(b, k) ==> contains_key(a, k)) by {
            if contains_key(b, k) {
                let i: int = choose|i: int| 0 <= i < b.len() && b[i].key@ == k;
                assert(a[i].key@ == k);
            }
        }
    }
}

} // verus!
