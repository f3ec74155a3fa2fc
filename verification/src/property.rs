//! Property kinds and property payload values.
//!
//! A property cell stores one tagged payload. A real payload is carried as
//! its IEEE-754 bit pattern so that storing and returning it is exact and
//! free of rounding concerns; callers convert at the boundary.

use vstd::prelude::*;

verus! {

/// The property kinds an object can watch or store.
#[derive(Clone, Copy, Debug, PartialEq, Eq, Structural, Hash)]
pub enum PropertyIdentifier {
    PresentValue,
    OutOfService,
    StatusFlags,
    Reliability,
}

/// Tagged union over the supported property payload kinds.
///
/// `Real` holds the bit pattern of a 32-bit IEEE-754 number.
#[derive(Clone, Copy, Debug, PartialEq, Eq, Structural, Hash)]
pub enum PropertyValue {
    Real(u32),
    Boolean(bool),
    Unsigned(u64),
    Enumerated(u32),
}

/// Two payloads are of the same kind when they carry the same variant.
pub open spec fn same_kind(a: PropertyValue, b: PropertyValue) -> bool {
    match (a, b) {
        (PropertyValue::Real(_), PropertyValue::Real(_)) => true,
        (PropertyValue::Boolean(_), PropertyValue::Boolean(_)) => true,
        (PropertyValue::Unsigned(_), PropertyValue::Unsigned(_)) => true,
        (PropertyValue::Enumerated(_), PropertyValue::Enumerated(_)) => true,
        _ => false,
    }
}

/// Decides whether `a` and `b` carry the same payload kind.
pub fn kinds_match(a: &PropertyValue, b: &PropertyValue) -> (r: bool)
    ensures
        r == same_kind(*a, *b),
{
    match (a, b) {
        (PropertyValue::Real(_), PropertyValue::Real(_)) => true,
        (PropertyValue::Boolean(_), PropertyValue::Boolean(_)) => true,
        (PropertyValue::Unsigned(_), PropertyValue::Unsigned(_)) => true,
        (PropertyValue::Enumerated(_), PropertyValue::Enumerated(_)) => true,
        _ => false,
    }
}

/// Typed storage for one property: the kind it is filed under and the
/// current payload.
#[derive(Clone, Copy, Debug, PartialEq, Eq, Structural)]
pub struct PropertyCell {
    pub kind: PropertyIdentifier,
    pub value: PropertyValue,
}

/// The payload filed under `kind`, scanning from the front.
pub open spec fn lookup(cells: Seq<PropertyCell>, kind: PropertyIdentifier) -> Option<PropertyValue>
    decreases cells.len(),
{
    if cells.len() == 0 {
        None
    } else if cells[0].kind == kind {
        Some(cells[0].value)
    } else {
        lookup(cells.drop_first(), kind)
    }
}

/// Every cell filed under `kind` replaced by a cell holding `value`.
pub open spec fn store(
    cells: Seq<PropertyCell>,
    kind: PropertyIdentifier,
    value: PropertyValue,
) -> Seq<PropertyCell> {
    cells.map(
        |i: int, c: PropertyCell|
            if c.kind == kind {
                PropertyCell { kind, value }
            } else {
                c
            },
    )
}

/// When the first `i` cells miss `kind` and cell `i` carries it, the scan
/// lands on cell `i`.
pub proof fn lemma_lookup_hits(cells: Seq<PropertyCell>, kind: PropertyIdentifier, i: int)
    requires
        0 <= i < cells.len(),
        cells[i].kind == kind,
        forall|j: int| 0 <= j < i ==> cells[j].kind != kind,
    ensures
        lookup(cells, kind) == Some(cells[i].value),
    decreases i,
{
    if i > 0 {
        lemma_lookup_hits(cells.drop_first(), kind, i - 1);
    }
}

/// When no cell carries `kind`, the scan comes back empty.
pub proof fn lemma_lookup_misses(cells: Seq<PropertyCell>, kind: PropertyIdentifier)
    requires
        forall|j: int| 0 <= j < cells.len() ==> cells[j].kind != kind,
    ensures
        lookup(cells, kind) is None,
    decreases cells.len(),
{
    if cells.len() > 0 {
        lemma_lookup_misses(cells.drop_first(), kind);
    }
}

/// Storing under `kind` leaves what is filed under every other kind alone.
pub proof fn lemma_store_preserves_others(
    cells: Seq<PropertyCell>,
    kind: PropertyIdentifier,
    value: PropertyValue,
    other: PropertyIdentifier,
)
    requires
        other != kind,
    ensures
        lookup(store(cells, kind, value), other) == lookup(cells, other),
    decreases cells.len(),
{
    if cells.len() > 0 {
        assert(store(cells, kind, value).drop_first() =~= store(
            cells.drop_first(),
            kind,
            value,
        ));
        lemma_store_preserves_others(cells.drop_first(), kind, value, other);
    }
}

} // verus!
