//! The statistics of a conversion: how many entities of each kind the
//! drawing held, and how long the conversion took.

use vstd::prelude::*;
use crate::entity::{
    count_in, count_of, element_count, lemma_elements_agree_with_counts, EntityKind,
};

verus! {

/// The number of entities of a drawing, kind by kind, and the time that
/// the conversion took.
///
/// Every kind has a line of its own. `texts` counts the single-line texts,
/// `blocks` the block references, and `unsupported` the entities of a kind
/// without a converter. The counters are wide enough for every drawing that
/// a machine can hold.
#[derive(Debug, Clone, Copy)]
pub struct ConversionStats {
    pub circles: u64,
    pub lines: u64,
    pub arcs: u64,
    pub splines: u64,
    pub texts: u64,
    pub mtexts: u64,
    pub attribute_definitions: u64,
    pub ellipses: u64,
    pub polylines: u64,
    pub lwpolylines: u64,
    pub solids: u64,
    pub blocks: u64,
    pub unsupported: u64,
    pub elapsed_ms: u128,
}

impl ConversionStats {
    /// The number that is reported for the given kind.
    pub open spec fn line(self, kind: EntityKind) -> nat {
        match kind {
            EntityKind::Circle => self.circles as nat,
            EntityKind::Line => self.lines as nat,
            EntityKind::Arc => self.arcs as nat,
            EntityKind::Spline => self.splines as nat,
            EntityKind::Text => self.texts as nat,
            EntityKind::MText => self.mtexts as nat,
            EntityKind::AttributeDefinition => self.attribute_definitions as nat,
            EntityKind::Ellipse => self.ellipses as nat,
            EntityKind::Polyline => self.polylines as nat,
            EntityKind::LwPolyline => self.lwpolylines as nat,
            EntityKind::Solid => self.solids as nat,
            EntityKind::Insert => self.blocks as nat,
            EntityKind::Other => self.unsupported as nat,
        }
    }

    /// Whether every line holds the number of the first `n` entities that
    /// are of its kind.
    pub open spec fn counts_first(self, kinds: Seq<EntityKind>, n: int) -> bool {
        &&& self.circles == count_in(kinds, EntityKind::Circle, n)
        &&& self.lines == count_in(kinds, EntityKind::Line, n)
        &&& self.arcs == count_in(kinds, EntityKind::Arc, n)
        &&& self.splines == count_in(kinds, EntityKind::Spline, n)
        &&& self.texts == count_in(kinds, EntityKind::Text, n)
        &&& self.mtexts == count_in(kinds, EntityKind::MText, n)
        &&& self.attribute_definitions == count_in(kinds, EntityKind::AttributeDefinition, n)
        &&& self.ellipses == count_in(kinds, EntityKind::Ellipse, n)
        &&& self.polylines == count_in(kinds, EntityKind::Polyline, n)
        &&& self.lwpolylines == count_in(kinds, EntityKind::LwPolyline, n)
        &&& self.solids == count_in(kinds, EntityKind::Solid, n)
        &&& self.blocks == count_in(kinds, EntityKind::Insert, n)
        &&& self.unsupported == count_in(kinds, EntityKind::Other, n)
    }

    /// Whether these are the statistics of a drawing with the entities
    /// `kinds`: every line holds the number of entities of its kind.
    pub open spec fn counts(self, kinds: Seq<EntityKind>) -> bool {
        self.counts_first(kinds, kinds.len() as int)
    }

    /// The sum of all lines.
    pub open spec fn total(self) -> nat {
        (self.circles
            + self.lines
            + self.arcs
            + self.splines
            + self.texts
            + self.mtexts
            + self.attribute_definitions
            + self.ellipses
            + self.polylines
            + self.lwpolylines
            + self.solids
            + self.blocks
            + self.unsupported) as nat
    }

    /// The number that is reported for the given kind.
    pub fn get(&self, kind: EntityKind) -> (n: u64)
        ensures
            n == self.line(kind),
    {
        match kind {
            EntityKind::Circle => self.circles,
            EntityKind::Line => self.lines,
            EntityKind::Arc => self.arcs,
            EntityKind::Spline => self.splines,
            EntityKind::Text => self.texts,
            EntityKind::MText => self.mtexts,
            EntityKind::AttributeDefinition => self.attribute_definitions,
            EntityKind::Ellipse => self.ellipses,
            EntityKind::Polyline => self.polylines,
            EntityKind::LwPolyline => self.lwpolylines,
            EntityKind::Solid => self.solids,
            EntityKind::Insert => self.blocks,
            EntityKind::Other => self.unsupported,
        }
    }

    /// Counts one more entity of the given kind.
    fn add_one(&mut self, kind: EntityKind)
        requires
            old(self).line(kind) < u64::MAX,
        ensures
            final(self).line(kind) == old(self).line(kind) + 1,
            forall|other: EntityKind|
                other != kind ==> final(self).line(other) == old(self).line(other),
            final(self).elapsed_ms == old(self).elapsed_ms,
    {
        match kind {
            EntityKind::Circle => self.circles += 1,
            EntityKind::Line => self.lines += 1,
            EntityKind::Arc => self.arcs += 1,
            EntityKind::Spline => self.splines += 1,
            EntityKind::Text => self.texts += 1,
            EntityKind::MText => self.mtexts += 1,
            EntityKind::AttributeDefinition => self.attribute_definitions += 1,
            EntityKind::Ellipse => self.ellipses += 1,
            EntityKind::Polyline => self.polylines += 1,
            EntityKind::LwPolyline => self.lwpolylines += 1,
            EntityKind::Solid => self.solids += 1,
            EntityKind::Insert => self.blocks += 1,
            EntityKind::Other => self.unsupported += 1,
        }
    }

    /// Counts the entities of a drawing by kind. Every entity is counted
    /// once, on the line of its kind; an entity of a kind without a
    /// converter is counted as unsupported and never makes the count fail.
    /// The geometry is not looked at.
    pub fn tally(kinds: &[EntityKind], elapsed_ms: u128) -> (stats: ConversionStats)
        ensures
            forall|kind: EntityKind| stats.line(kind) == count_of(kinds@, kind),
            stats.counts(kinds@),
            stats.total() == kinds.len(),
            stats.elapsed_ms == elapsed_ms,
    {
        let mut stats = ConversionStats {
            circles: 0,
            lines: 0,
            arcs: 0,
            splines: 0,
            texts: 0,
            mtexts: 0,
            attribute_definitions: 0,
            ellipses: 0,
            polylines: 0,
            lwpolylines: 0,
            solids: 0,
            blocks: 0,
            unsupported: 0,
            elapsed_ms,
        };
        let mut i: usize = 0;
        while i < kinds.len()
            invariant
                i <= kinds.len(),
                stats.counts_first(kinds@, i as int),
                stats.total() == i,
                stats.elapsed_ms == elapsed_ms,
            decreases kinds.len() - i,
        {
            let kind = kinds[i];
            let ghost before = stats;
            proof {
                lemma_lines_at_most_total(stats, kind);
            }
            stats.add_one(kind);
            proof {
                lemma_counted_one_more(before, stats, kinds@, i as int);
            }
            i += 1;
        }
        stats
    }
}

/// The statistics agree with the converted document: the elements of the
/// document, the blocks and the unsupported entities of the statistics make
/// up the drawing.
pub proof fn lemma_stats_agree_with_elements(stats: ConversionStats, kinds: Seq<EntityKind>)
    requires
        stats.counts(kinds),
    ensures
        element_count(kinds) + stats.blocks + stats.unsupported == kinds.len(),
{
    lemma_elements_agree_with_counts(kinds);
}

/// No line is larger than the sum of all lines.
proof fn lemma_lines_at_most_total(stats: ConversionStats, kind: EntityKind)
    ensures
        stats.line(kind) <= stats.total(),
{
}

/// Counting entity `n` on its line turns the statistics of the first `n`
/// entities into those of the first `n + 1`.
proof fn lemma_counted_one_more(
    before: ConversionStats,
    after: ConversionStats,
    kinds: Seq<EntityKind>,
    n: int,
)
    requires
        0 <= n < kinds.len(),
        before.counts_first(kinds, n),
        after.line(kinds[n]) == before.line(kinds[n]) + 1,
        forall|other: EntityKind| other != kinds[n] ==> after.line(other) == before.line(other),
    ensures
        after.counts_first(kinds, n + 1),
        after.total() == before.total() + 1,
{
    assert(after.line(EntityKind::Circle) == count_in(kinds, EntityKind::Circle, n + 1));
    assert(after.line(EntityKind::Line) == count_in(kinds, EntityKind::Line, n + 1));
    assert(after.line(EntityKind::Arc) == count_in(kinds, EntityKind::Arc, n + 1));
    assert(after.line(EntityKind::Spline) == count_in(kinds, EntityKind::Spline, n + 1));
    assert(after.line(EntityKind::Text) == count_in(kinds, EntityKind::Text, n + 1));
    assert(after.line(EntityKind::MText) == count_in(kinds, EntityKind::MText, n + 1));
    assert(after.line(EntityKind::AttributeDefinition) == count_in(
        kinds,
        EntityKind::AttributeDefinition,
        n + 1,
    ));
    assert(after.line(EntityKind::Ellipse) == count_in(kinds, EntityKind::Ellipse, n + 1));
    assert(after.line(EntityKind::Polyline) == count_in(kinds, EntityKind::Polyline, n + 1));
    assert(after.line(EntityKind::LwPolyline) == count_in(kinds, EntityKind::LwPolyline, n + 1));
    assert(after.line(EntityKind::Solid) == count_in(kinds, EntityKind::Solid, n + 1));
    assert(after.line(EntityKind::Insert) == count_in(kinds, EntityKind::Insert, n + 1));
    assert(after.line(EntityKind::Other) == count_in(kinds, EntityKind::Other, n + 1));
}

} // verus!
