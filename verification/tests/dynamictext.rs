use dxf2elmt::alignment::{HAlignment, VAlignment};
use dxf2elmt::color::Color;
use dxf2elmt::dynamictext::{
    is_full_turn, AttributeDefinition, MText, Placement, Text, DEFAULT_FONT_FAMILY,
};
use dxf2elmt::DTextBuilder;

const ID: u128 = 0xa1a2a3a4b1b2c1c2d1d2d3d4d5d6d7d8;

fn text(value: &str, horizontal: i16, vertical: i16) -> Text {
    Text {
        value: value.to_string(),
        horizontal_justification: horizontal,
        vertical_justification: vertical,
    }
}

fn mtext(chunks: &[&str], last: &str, attachment_point: i16) -> MText {
    MText {
        text: last.to_string(),
        extended_text: chunks.iter().map(|c| c.to_string()).collect(),
        attachment_point,
    }
}

fn placement() -> Placement {
    Placement {
        x: "1.00".to_string(),
        y: "-2.00".to_string(),
        z: "0.00".to_string(),
        rotation: "0.00".to_string(),
        font: "Arial Narrow,4,-1,5,50,0,0,0,0,0".to_string(),
    }
}

#[test]
fn single_line_text_is_taken_as_it_stands() {
    let source = text("{\\fArial;A\\PB}", 2, 3);
    let built = DTextBuilder::from_text(&source).build_with_uuid(ID);
    assert_eq!(built.text(), "{\\fArial;A\\PB}");
    assert_eq!(built.font_family(), DEFAULT_FONT_FAMILY);
    assert_eq!(built.h_alignment(), HAlignment::Right);
    assert_eq!(built.v_alignment(), VAlignment::Top);
    assert_eq!(built.color(), Color::rgb(0, 0, 0));
    assert_eq!(built.uuid(), ID);
}

#[test]
fn rich_text_is_normalized_and_names_its_font() {
    let source = mtext(&[], "{\\fGaramond|b0|i1|c0|p18;Sofrel}", 5);
    let built = DTextBuilder::from_mtext(&source).build_with_uuid(ID);
    assert_eq!(built.text(), "Sofrel");
    assert_eq!(built.font_family(), "Garamond");
    assert_eq!(built.h_alignment(), HAlignment::Center);
    assert_eq!(built.v_alignment(), VAlignment::Middle);
}

#[test]
fn rich_text_without_font_block_has_the_default_family() {
    let source = mtext(&[], "A\\PB", 9);
    let built = DTextBuilder::from_mtext(&source).build_with_uuid(ID);
    assert_eq!(built.text(), "A\nB");
    assert_eq!(built.font_family(), "Arial Narrow");
    assert_eq!(built.h_alignment(), HAlignment::Right);
    assert_eq!(built.v_alignment(), VAlignment::Bottom);
}

#[test]
fn chunks_are_joined_in_order_before_the_last_text() {
    let source = mtext(&["{\\fTim", "es|b0;one \\", "Ptwo "], "three}", 1);
    assert_eq!(source.raw_text(), "{\\fTimes|b0;one \\Ptwo three}");
    let built = DTextBuilder::from_mtext(&source).build_with_uuid(ID);
    assert_eq!(built.text(), "one \ntwo three");
    assert_eq!(built.font_family(), "Times");
}

#[test]
fn attribute_definition_is_taken_as_it_stands() {
    let source = AttributeDefinition {
        value: "TAG\\P".to_string(),
        horizontal_justification: 4,
        vertical_justification: 2,
    };
    let built = DTextBuilder::from_attrib(&source).build_with_uuid(ID);
    assert_eq!(built.text(), "TAG\\P");
    assert_eq!(built.font_family(), "Arial Narrow");
    assert_eq!(built.h_alignment(), HAlignment::Center);
    assert_eq!(built.v_alignment(), VAlignment::Middle);
}

#[test]
fn text_is_black_unless_a_color_is_chosen() {
    let source = text("x", 0, 0);
    let plain = DTextBuilder::from_text(&source).build_with_uuid(ID);
    assert_eq!(plain.color(), Color { r: 0, g: 0, b: 0, a: 255 });
    assert_eq!(plain.color(), Color::black());
    let red = DTextBuilder::from_text(&source)
        .color(Color::rgb(255, 0, 0))
        .build_with_uuid(ID);
    assert_eq!(red.color(), Color { r: 255, g: 0, b: 0, a: 255 });
    let last = DTextBuilder::from_text(&source)
        .color(Color::rgb(255, 0, 0))
        .color(Color::rgb(1, 2, 3))
        .build_with_uuid(ID);
    assert_eq!(last.color(), Color::rgb(1, 2, 3));
}

#[test]
fn built_text_gets_a_random_identifier() {
    let source = text("x", 0, 0);
    let first = DTextBuilder::from_text(&source).build();
    let second = DTextBuilder::from_text(&source).build();
    for built in [&first, &second] {
        assert_eq!((built.uuid() >> 76) & 0xf, 4);
        assert_eq!((built.uuid() >> 62) & 0x3, 2);
        assert_eq!(built.text(), "x");
    }
    assert_ne!(first.uuid(), second.uuid());
}

#[test]
fn element_of_a_text() {
    let source = text("Hello", 0, 0);
    let built = DTextBuilder::from_text(&source).build_with_uuid(ID);
    let element = built.to_xml(&placement());
    let expected = "<?xml version = \"1.0\" encoding = \"UTF-8\"?>\n\
<dynamic_text x=\"1.00\" y=\"-2.00\" z=\"0.00\" rotation=\"0.00\" \
uuid=\"{a1a2a3a4-b1b2-c1c2-d1d2-d3d4d5d6d7d8}\" font=\"Arial Narrow,4,-1,5,50,0,0,0,0,0\" \
Halignment=\"AlignLeft\" Valignment=\"AlignBottom\" text_from=\"UserText\" frame=\"false\" \
text_width=\"-1\" color=\"#000000\">\n\t<text>Hello</text>\n</dynamic_text>\n";
    assert_eq!(format!("{}", element), expected);
}

#[test]
fn element_of_a_colored_rich_text() {
    let source = mtext(&[], "{\\fGaramond|b0;R<1 & \"x\"}", 6);
    let built = DTextBuilder::from_mtext(&source)
        .color(Color::rgb(0x0a, 0xbc, 0xff))
        .build_with_uuid(0x0123456789abcdef0011223344556677);
    let element = built.to_xml(&placement());
    let expected = "<?xml version = \"1.0\" encoding = \"UTF-8\"?>\n\
<dynamic_text x=\"1.00\" y=\"-2.00\" z=\"0.00\" rotation=\"0.00\" \
uuid=\"{01234567-89ab-cdef-0011-223344556677}\" font=\"Arial Narrow,4,-1,5,50,0,0,0,0,0\" \
Halignment=\"AlignRight\" Valignment=\"AlignVCenter\" text_from=\"UserText\" frame=\"false\" \
text_width=\"-1\" color=\"#0ABCFF\">\n\t<text>R&lt;1 &amp; &quot;x&quot;</text>\n</dynamic_text>\n";
    assert_eq!(format!("{}", element), expected);
}

#[test]
fn grapheme_clusters_are_counted_not_characters() {
    let source = text("e\u{301}a\u{310}", 0, 0);
    let built = DTextBuilder::from_text(&source).build_with_uuid(ID);
    assert_eq!(built.text().chars().count(), 4);
    assert_eq!(built.grapheme_count(), 2);
    let empty = text("", 0, 0);
    assert_eq!(DTextBuilder::from_text(&empty).build_with_uuid(ID).grapheme_count(), 0);
    let ascii = text("RS485i", 0, 0);
    assert_eq!(DTextBuilder::from_text(&ascii).build_with_uuid(ID).grapheme_count(), 6);
}

#[test]
fn whole_rotations_of_full_turns_collapse() {
    assert!(is_full_turn(0));
    assert!(is_full_turn(360));
    assert!(is_full_turn(-360));
    assert!(is_full_turn(720));
    assert!(is_full_turn(-3600));
}

#[test]
fn no_other_whole_rotation_collapses() {
    assert!(!is_full_turn(45));
    assert!(!is_full_turn(1));
    assert!(!is_full_turn(-1));
    assert!(!is_full_turn(180));
    assert!(!is_full_turn(359));
    assert!(!is_full_turn(361));
    assert!(!is_full_turn(i64::MAX));
    assert!(!is_full_turn(i64::MIN));
}

#[test]
fn reserved_characters_are_stored_as_entities() {
    let source = text("&amp; <a href='x'>\"q\"</a>", 0, 0);
    let built = DTextBuilder::from_text(&source).build_with_uuid(ID);
    let document = format!("{}", built.to_xml(&placement()));
    assert!(document.contains(
        "<text>&amp;amp; &lt;a href=&apos;x&apos;&gt;&quot;q&quot;&lt;/a&gt;</text>"
    ));
    let mut odd = placement();
    odd.font = "A&B,4".to_string();
    let document = format!("{}", built.to_xml(&odd));
    assert!(document.contains(" font=\"A&amp;B,4\" "));
}
