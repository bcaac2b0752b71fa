use dxf2elmt::dynamictext::{Placement, Text};
use dxf2elmt::entity::EntityKind;
use dxf2elmt::options::{ConversionOptions, Output};
use dxf2elmt::report::conclude;
use dxf2elmt::{ConversionError, DTextBuilder};
use simple_xml_builder::XMLElement;

fn kinds() -> Vec<EntityKind> {
    vec![
        EntityKind::Circle,
        EntityKind::Circle,
        EntityKind::Circle,
        EntityKind::Line,
        EntityKind::Line,
        EntityKind::Spline,
        EntityKind::Insert,
    ]
}

fn document() -> XMLElement {
    let mut root = XMLElement::new("definition");
    root.add_attribute("type", "element");
    let mut description = XMLElement::new("description");
    description.add_child(XMLElement::new("line"));
    root.add_child(description);
    root
}

#[test]
fn default_options() {
    let options = ConversionOptions::default();
    assert_eq!(options.spline_step, 20);
    assert!(!options.verbose);
    assert!(!options.info);
    assert!(options.has_documented_step());
    assert_eq!(options.output(), Output::File);
}

#[test]
fn documented_range_of_the_resolution() {
    let with = |spline_step| ConversionOptions { spline_step, verbose: false, info: false };
    assert!(with(1).has_documented_step());
    assert!(with(200).has_documented_step());
    assert!(!with(0).has_documented_step());
    assert!(!with(201).has_documented_step());
}

#[test]
fn result_with_statistics() {
    let options = ConversionOptions { spline_step: 20, verbose: false, info: true };
    let result = conclude("symbol", &options, &kinds(), &document(), 12);
    assert!(result.success);
    assert_eq!(result.message, "Successfully converted symbol");
    let stats = result.stats.expect("statistics were asked for");
    assert_eq!(stats.circles, 3);
    assert_eq!(stats.lines, 2);
    assert_eq!(stats.splines, 1);
    assert_eq!(stats.blocks, 1);
    assert_eq!(stats.unsupported, 0);
    assert_eq!(stats.elapsed_ms, 12);
    assert!(result.xml_content.is_none());
}

#[test]
fn result_without_statistics() {
    let options = ConversionOptions::default();
    let result = conclude("symbol", &options, &kinds(), &document(), 12);
    assert!(result.success);
    assert!(result.stats.is_none());
    assert!(result.xml_content.is_none());
}

#[test]
fn verbose_result_holds_the_markup_and_no_file_is_due() {
    let options = ConversionOptions { spline_step: 20, verbose: true, info: false };
    assert_eq!(options.output(), Output::Text);
    let result = conclude("symbol", &options, &kinds(), &document(), 0);
    let markup = result.xml_content.expect("the markup goes to the result");
    assert!(!markup.is_empty());
    assert!(markup.starts_with("<?xml version = \"1.0\" encoding = \"UTF-8\"?>\n"));
    assert_eq!(
        markup,
        "<?xml version = \"1.0\" encoding = \"UTF-8\"?>\n<definition type=\"element\">\n\
\t<description>\n\t\t<line />\n\t</description>\n</definition>\n"
    );
    assert!(result.stats.is_none());
}

#[test]
fn quiet_result_holds_no_markup_and_a_file_is_due() {
    let options = ConversionOptions { spline_step: 20, verbose: false, info: false };
    assert_eq!(options.output(), Output::File);
    let result = conclude("symbol", &options, &kinds(), &document(), 0);
    assert!(result.xml_content.is_none());
}

#[test]
fn verbose_result_of_a_dynamic_text() {
    let source = Text {
        value: "T".to_string(),
        horizontal_justification: 0,
        vertical_justification: 3,
    };
    let placement = Placement {
        x: "0".to_string(),
        y: "0".to_string(),
        z: "0".to_string(),
        rotation: "0".to_string(),
        font: "f".to_string(),
    };
    let element = DTextBuilder::from_text(&source).build_with_uuid(1).to_xml(&placement);
    let options = ConversionOptions { spline_step: 1, verbose: true, info: true };
    let result = conclude("t", &options, &[EntityKind::Text], &element, 1);
    assert_eq!(result.xml_content, Some(format!("{}", element)));
    assert_eq!(result.stats.expect("asked for").texts, 1);
}

#[test]
fn markup_of_an_element_without_content_is_not_empty() {
    let options = ConversionOptions { spline_step: 20, verbose: true, info: false };
    let result = conclude("", &options, &[], &XMLElement::new(""), 0);
    assert!(!result.xml_content.expect("verbose").is_empty());
    assert_eq!(result.message, "Successfully converted ");
}

#[test]
fn unsupported_entities_never_make_the_conversion_fail() {
    let options = ConversionOptions { spline_step: 20, verbose: false, info: true };
    let kinds = [EntityKind::Other, EntityKind::MText, EntityKind::Other];
    let result = conclude("odd", &options, &kinds, &document(), 5);
    assert!(result.success);
    let stats = result.stats.expect("asked for");
    assert_eq!(stats.unsupported, 2);
    assert_eq!(stats.mtexts, 1);
}

#[test]
fn failure_descriptions() {
    let load = ConversionError::Load { file: "symbol".to_string() };
    assert_eq!(
        load.message(),
        "Failed to load symbol...\n\tMake sure the file is a valid .dxf file."
    );
    assert_eq!(ConversionError::Write.message(), "Failed to write output file.");
}
