use dxf2elmt::entity::{count_elements, EntityKind};
use dxf2elmt::ConversionStats;

const ALL_KINDS: [EntityKind; 13] = [
    EntityKind::Circle,
    EntityKind::Line,
    EntityKind::Arc,
    EntityKind::Spline,
    EntityKind::Text,
    EntityKind::MText,
    EntityKind::AttributeDefinition,
    EntityKind::Ellipse,
    EntityKind::Polyline,
    EntityKind::LwPolyline,
    EntityKind::Solid,
    EntityKind::Insert,
    EntityKind::Other,
];

fn sample() -> Vec<EntityKind> {
    vec![
        EntityKind::Circle,
        EntityKind::Line,
        EntityKind::Circle,
        EntityKind::Spline,
        EntityKind::Insert,
        EntityKind::Line,
        EntityKind::Circle,
    ]
}

fn total(stats: &ConversionStats) -> u64 {
    ALL_KINDS.iter().map(|kind| stats.get(*kind)).sum()
}

#[test]
fn counts_of_three_circles_two_lines_a_spline_and_a_block() {
    let stats = ConversionStats::tally(&sample(), 0);
    assert_eq!(stats.circles, 3);
    assert_eq!(stats.lines, 2);
    assert_eq!(stats.splines, 1);
    assert_eq!(stats.blocks, 1);
    assert_eq!(stats.arcs, 0);
    assert_eq!(stats.texts, 0);
    assert_eq!(stats.mtexts, 0);
    assert_eq!(stats.attribute_definitions, 0);
    assert_eq!(stats.ellipses, 0);
    assert_eq!(stats.polylines, 0);
    assert_eq!(stats.lwpolylines, 0);
    assert_eq!(stats.solids, 0);
    assert_eq!(stats.unsupported, 0);
}

#[test]
fn a_block_is_counted_but_yields_no_element() {
    assert_eq!(count_elements(&sample()), 6);
}

#[test]
fn every_kind_is_counted_on_its_own_line() {
    for kind in ALL_KINDS {
        let stats = ConversionStats::tally(&[kind, kind], 0);
        for line in ALL_KINDS {
            assert_eq!(stats.get(line), if line == kind { 2 } else { 0 });
        }
    }
}

#[test]
fn the_fields_are_the_lines_of_the_kinds() {
    let stats = ConversionStats::tally(&ALL_KINDS, 0);
    let ones = [
        stats.circles,
        stats.lines,
        stats.arcs,
        stats.splines,
        stats.texts,
        stats.mtexts,
        stats.attribute_definitions,
        stats.ellipses,
        stats.polylines,
        stats.lwpolylines,
        stats.solids,
        stats.blocks,
        stats.unsupported,
    ];
    assert_eq!(ones, [1; 13]);
    let texts = ConversionStats::tally(&[EntityKind::Text, EntityKind::MText], 0);
    assert_eq!(texts.texts, 1);
    assert_eq!(texts.mtexts, 1);
    let blocks = ConversionStats::tally(&[EntityKind::Insert], 0);
    assert_eq!(blocks.blocks, 1);
}

#[test]
fn a_rich_text_is_not_unsupported() {
    let stats = ConversionStats::tally(&[EntityKind::MText], 0);
    assert_eq!(stats.unsupported, 0);
    assert_eq!(stats.mtexts, 1);
    assert_eq!(stats.texts, 0);
    let stats = ConversionStats::tally(&[EntityKind::AttributeDefinition], 0);
    assert_eq!(stats.unsupported, 0);
    assert_eq!(stats.attribute_definitions, 1);
    assert_eq!(stats.texts, 0);
}

#[test]
fn only_kinds_without_a_converter_are_unsupported() {
    let mut kinds = ALL_KINDS.to_vec();
    kinds.push(EntityKind::Other);
    kinds.push(EntityKind::Other);
    let stats = ConversionStats::tally(&kinds, 0);
    assert_eq!(stats.unsupported, 3);
}

#[test]
fn the_lines_add_up_to_the_number_of_entities() {
    let mut kinds = sample();
    kinds.extend(ALL_KINDS);
    kinds.extend([EntityKind::MText, EntityKind::Other, EntityKind::Text]);
    let stats = ConversionStats::tally(&kinds, 0);
    assert_eq!(total(&stats), kinds.len() as u64);
}

#[test]
fn elements_blocks_and_unsupported_make_up_the_drawing() {
    let drawings: [&[EntityKind]; 4] = [
        &[],
        &ALL_KINDS,
        &[
            EntityKind::MText,
            EntityKind::Insert,
            EntityKind::Other,
            EntityKind::Text,
            EntityKind::AttributeDefinition,
            EntityKind::Circle,
        ],
        &[EntityKind::Insert, EntityKind::Other, EntityKind::Other],
    ];
    for kinds in drawings {
        let stats = ConversionStats::tally(kinds, 0);
        let elements = count_elements(kinds) as u64;
        assert_eq!(elements + stats.blocks + stats.unsupported, kinds.len() as u64);
    }
    assert_eq!(count_elements(drawings[2]), 4);
    assert_eq!(count_elements(&ALL_KINDS), 11);
}

#[test]
fn which_kinds_yield_an_element() {
    for kind in ALL_KINDS {
        let expected = !matches!(kind, EntityKind::Insert | EntityKind::Other);
        assert_eq!(kind.converts(), expected);
    }
}

#[test]
fn an_empty_drawing_counts_nothing() {
    let stats = ConversionStats::tally(&[], 17);
    assert_eq!(total(&stats), 0);
    assert_eq!(stats.elapsed_ms, 17);
    assert_eq!(count_elements(&[]), 0);
}
