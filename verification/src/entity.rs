//! The kinds of drawing entities, and what becomes of each kind.

use vstd::prelude::*;

verus! {

/// The kind of a raw drawing entity. The geometry of an entity plays no
/// part in how it is counted.
#[derive(Clone, Copy, Debug, PartialEq, Eq, Structural)]
pub enum EntityKind {
    Circle,
    Line,
    Arc,
    Spline,
    /// A single-line text.
    Text,
    /// A rich, multi-line text.
    MText,
    /// The text of an attribute definition.
    AttributeDefinition,
    Ellipse,
    Polyline,
    LwPolyline,
    Solid,
    /// A reference to a block.
    Insert,
    /// Any kind that is not listed above: a kind without a converter.
    Other,
}

impl EntityKind {
    /// Whether an entity of this kind becomes an element of the converted
    /// document. A block reference is counted but not expanded, and a kind
    /// without a converter is left out; every other entity yields exactly
    /// one element.
    pub open spec fn yields_element(self) -> bool {
        !(self is Insert) && !(self is Other)
    }

    /// Tells whether an entity of this kind becomes an element of the
    /// converted document.
    pub fn converts(self) -> (b: bool)
        ensures
            b == self.yields_element(),
    {
        match self {
            EntityKind::Insert | EntityKind::Other => false,
            _ => true,
        }
    }
}

/// How many of the first `n` entities are of the given kind.
pub open spec fn count_in(kinds: Seq<EntityKind>, kind: EntityKind, n: int) -> nat
    decreases n,
{
    if n <= 0 || n > kinds.len() {
        0
    } else if kinds[n - 1] == kind {
        count_in(kinds, kind, n - 1) + 1
    } else {
        count_in(kinds, kind, n - 1)
    }
}

/// How many entities are of the given kind.
pub open spec fn count_of(kinds: Seq<EntityKind>, kind: EntityKind) -> nat {
    count_in(kinds, kind, kinds.len() as int)
}

/// How many of the first `n` entities become an element.
pub open spec fn elements_in(kinds: Seq<EntityKind>, n: int) -> nat
    decreases n,
{
    if n <= 0 || n > kinds.len() {
        0
    } else if kinds[n - 1].yields_element() {
        elements_in(kinds, n - 1) + 1
    } else {
        elements_in(kinds, n - 1)
    }
}

/// How many elements the converted document holds.
pub open spec fn element_count(kinds: Seq<EntityKind>) -> nat {
    elements_in(kinds, kinds.len() as int)
}

/// The sum of the counts of all kinds over the first `n` entities.
pub open spec fn total_in(kinds: Seq<EntityKind>, n: int) -> nat {
    count_in(kinds, EntityKind::Circle, n)
        + count_in(kinds, EntityKind::Line, n)
        + count_in(kinds, EntityKind::Arc, n)
        + count_in(kinds, EntityKind::Spline, n)
        + count_in(kinds, EntityKind::Text, n)
        + count_in(kinds, EntityKind::MText, n)
        + count_in(kinds, EntityKind::AttributeDefinition, n)
        + count_in(kinds, EntityKind::Ellipse, n)
        + count_in(kinds, EntityKind::Polyline, n)
        + count_in(kinds, EntityKind::LwPolyline, n)
        + count_in(kinds, EntityKind::Solid, n)
        + count_in(kinds, EntityKind::Insert, n)
        + count_in(kinds, EntityKind::Other, n)
}

/// The sum of the counts of all kinds.
pub open spec fn total_of(kinds: Seq<EntityKind>) -> nat {
    total_in(kinds, kinds.len() as int)
}

proof fn lemma_total_in(kinds: Seq<EntityKind>, n: int)
    requires
        0 <= n <= kinds.len(),
    ensures
        total_in(kinds, n) == n,
    decreases n,
{
    if n > 0 {
        lemma_total_in(kinds, n - 1);
    }
}

proof fn lemma_elements_in(kinds: Seq<EntityKind>, n: int)
    requires
        0 <= n <= kinds.len(),
    ensures
        elements_in(kinds, n) + count_in(kinds, EntityKind::Insert, n) + count_in(
            kinds,
            EntityKind::Other,
            n,
        ) == n,
    decreases n,
{
    if n > 0 {
        lemma_elements_in(kinds, n - 1);
    }
}

/// Every entity is counted exactly once: the counts of all kinds add up to
/// the number of entities.
pub proof fn lemma_every_entity_counted_once(kinds: Seq<EntityKind>)
    ensures
        total_of(kinds) == kinds.len(),
{
    lemma_total_in(kinds, kinds.len() as int);
}

/// Each entity yields no element or one, and the counts agree with that:
/// the elements, the block references and the entities without a converter
/// make up the drawing.
pub proof fn lemma_elements_agree_with_counts(kinds: Seq<EntityKind>)
    ensures
        element_count(kinds) + count_of(kinds, EntityKind::Insert) + count_of(
            kinds,
            EntityKind::Other,
        ) == kinds.len(),
        element_count(kinds) <= kinds.len(),
{
    lemma_elements_in(kinds, kinds.len() as int);
}

/// Counts the elements that the converted document will hold.
pub fn count_elements(kinds: &[EntityKind]) -> (n: usize)
    ensures
        n == element_count(kinds@),
{
    let mut n: usize = 0;
    let mut i: usize = 0;
    while i < kinds.len()
        invariant
            i <= kinds.len(),
            n == elements_in(kinds@, i as int),
            n <= i,
        decreases kinds.len() - i,
    {
        if kinds[i].converts() {
            n += 1;
        }
        i += 1;
    }
    n
}

} // verus!
