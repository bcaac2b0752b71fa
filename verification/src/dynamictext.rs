//! The dynamic text: the one element that every text-bearing entity of a
//! drawing becomes.
//!
//! This module holds what a dynamic text says and how it is styled. Where
//! it stands is a matter of coordinates: the caller computes them and
//! hands them over as formatted values when the element is written.

use vstd::prelude::*;
use vstd::string::StringExecFns;
use simple_xml_builder::XMLElement;
use unicode_segmentation::UnicodeSegmentation;
use crate::alignment::{HAlignment, VAlignment};
use crate::color::Color;
use crate::digits::{decimal, decimal_text};
use crate::font::{extract_mtext_font, font_family};
use crate::ident::{braced, braced_text, is_random_id, random_id};
use crate::mtext::{normalize_mtext, plain_text};
use crate::xml::{
    add_child, add_text, new_element, put, stored, xml_attributes, xml_children, xml_escaped,
    xml_name, xml_text,
};

verus! {

/// The font family of a text that names none.
pub const DEFAULT_FONT_FAMILY: &'static str = "Arial Narrow";

/// Where the content of a dynamic text comes from: the text was typed in.
pub const USER_TEXT: &'static str = "UserText";

/// What a single-line text of a drawing says, and how it is justified.
pub struct Text {
    pub value: String,
    pub horizontal_justification: i16,
    pub vertical_justification: i16,
}

/// What a rich text of a drawing says, and where it is attached. A long
/// text comes in chunks: `extended_text` holds the leading chunks in
/// order, `text` the last one.
pub struct MText {
    pub text: String,
    pub extended_text: Vec<String>,
    pub attachment_point: i16,
}

/// What the text of an attribute definition says, and how it is justified.
pub struct AttributeDefinition {
    pub value: String,
    pub horizontal_justification: i16,
    pub vertical_justification: i16,
}

/// A text-bearing entity of a drawing.
pub enum TextEntity<'a> {
    Text(&'a Text),
    MText(&'a MText),
    Attrib(&'a AttributeDefinition),
}

/// The first `n` chunks, one behind the other.
pub open spec fn joined(chunks: Seq<String>, n: int) -> Seq<char>
    decreases n,
{
    if n <= 0 || n > chunks.len() {
        Seq::empty()
    } else {
        joined(chunks, n - 1) + chunks[n - 1]@
    }
}

impl MText {
    /// The whole text with its formatting codes: all chunks in order.
    pub open spec fn raw(self) -> Seq<char> {
        joined(self.extended_text@, self.extended_text@.len() as int) + self.text@
    }

    /// The whole text with its formatting codes: all chunks in order.
    pub fn raw_text(&self) -> (raw: String)
        ensures
            raw@ == self.raw(),
    {
        let mut raw = String::new();
        let mut i: usize = 0;
        while i < self.extended_text.len()
            invariant
                i <= self.extended_text.len(),
                raw@ == joined(self.extended_text@, i as int),
            decreases self.extended_text.len() - i,
        {
            raw.append(self.extended_text[i].as_str());
            i += 1;
        }
        raw.append(self.text.as_str());
        raw
    }
}

impl<'a> TextEntity<'a> {
    /// The content of the dynamic text: a rich text without its formatting
    /// codes, any other text as it stands.
    pub open spec fn content(self) -> Seq<char> {
        match self {
            TextEntity::Text(text) => text.value@,
            TextEntity::MText(mtext) => plain_text(mtext.raw()),
            TextEntity::Attrib(attrib) => attrib.value@,
        }
    }

    /// The font family of the dynamic text: the family that a rich text
    /// names in its first font block, else the default family.
    pub open spec fn family(self) -> Seq<char> {
        match self {
            TextEntity::MText(mtext) => match font_family(mtext.raw()) {
                Some(family) => family,
                None => DEFAULT_FONT_FAMILY@,
            },
            _ => DEFAULT_FONT_FAMILY@,
        }
    }

    /// The horizontal alignment of the dynamic text.
    pub open spec fn h_alignment(self) -> HAlignment {
        match self {
            TextEntity::Text(text) => HAlignment::of_justification(text.horizontal_justification),
            TextEntity::MText(mtext) => HAlignment::of_attachment_point(mtext.attachment_point),
            TextEntity::Attrib(attrib) => HAlignment::of_justification(
                attrib.horizontal_justification,
            ),
        }
    }

    /// The vertical alignment of the dynamic text.
    pub open spec fn v_alignment(self) -> VAlignment {
        match self {
            TextEntity::Text(text) => VAlignment::of_justification(text.vertical_justification),
            TextEntity::MText(mtext) => VAlignment::of_attachment_point(mtext.attachment_point),
            TextEntity::Attrib(attrib) => VAlignment::of_justification(
                attrib.vertical_justification,
            ),
        }
    }
}

/// What a dynamic text holds.
pub struct DynamicTextView {
    pub text: Seq<char>,
    pub info_name: Option<Seq<char>>,
    pub uuid: u128,
    pub h_alignment: HAlignment,
    pub font_family: Seq<char>,
    pub text_from: Seq<char>,
    pub v_alignment: VAlignment,
    pub frame: bool,
    pub text_width: i32,
    pub keep_visual_rotation: bool,
    pub color: Color,
}

/// The dynamic text that a text-bearing entity becomes, given the color
/// that was chosen for it, if any, and its identifier. The text is typed
/// in, without frame and without a fixed width; without a chosen color it
/// is black.
pub open spec fn built(source: TextEntity, color: Option<Color>, uuid: u128) -> DynamicTextView {
    DynamicTextView {
        text: source.content(),
        info_name: None,
        uuid,
        h_alignment: source.h_alignment(),
        font_family: source.family(),
        text_from: USER_TEXT@,
        v_alignment: source.v_alignment(),
        frame: false,
        text_width: -1i32,
        keep_visual_rotation: false,
        color: match color {
            Some(chosen) => chosen,
            None => Color::black_spec(),
        },
    }
}

/// A dynamic text: content, style and identifier.
#[derive(Debug)]
pub struct DynamicText {
    text: String,
    info_name: Option<String>,
    uuid: u128,
    h_alignment: HAlignment,
    font_family: String,
    text_from: String,
    v_alignment: VAlignment,
    frame: bool,
    text_width: i32,
    keep_visual_rotation: bool,
    color: Color,
}

impl View for DynamicText {
    type V = DynamicTextView;

    closed spec fn view(&self) -> DynamicTextView {
        DynamicTextView {
            text: self.text@,
            info_name: match self.info_name {
                Some(name) => Some(name@),
                None => None,
            },
            uuid: self.uuid,
            h_alignment: self.h_alignment,
            font_family: self.font_family@,
            text_from: self.text_from@,
            v_alignment: self.v_alignment,
            frame: self.frame,
            text_width: self.text_width,
            keep_visual_rotation: self.keep_visual_rotation,
            color: self.color,
        }
    }
}

/// Builds a dynamic text from a text-bearing entity.
pub struct DTextBuilder<'a> {
    text: TextEntity<'a>,
    color: Option<Color>,
}

impl<'a> DTextBuilder<'a> {
    /// The entity that the dynamic text is built from.
    pub closed spec fn source(self) -> TextEntity<'a> {
        self.text
    }

    /// The color that was chosen for the dynamic text, if any.
    pub closed spec fn chosen_color(self) -> Option<Color> {
        self.color
    }

    /// A builder for the dynamic text of a single-line text.
    pub fn from_text(text: &'a Text) -> (builder: Self)
        ensures
            builder.source() == TextEntity::Text(text),
            builder.chosen_color() is None,
    {
        DTextBuilder { text: TextEntity::Text(text), color: None }
    }

    /// A builder for the dynamic text of a rich text.
    pub fn from_mtext(text: &'a MText) -> (builder: Self)
        ensures
            builder.source() == TextEntity::MText(text),
            builder.chosen_color() is None,
    {
        DTextBuilder { text: TextEntity::MText(text), color: None }
    }

    /// A builder for the dynamic text of an attribute definition.
    pub fn from_attrib(attrib: &'a AttributeDefinition) -> (builder: Self)
        ensures
            builder.source() == TextEntity::Attrib(attrib),
            builder.chosen_color() is None,
    {
        DTextBuilder { text: TextEntity::Attrib(attrib), color: None }
    }

    /// Chooses the color of the dynamic text.
    pub fn color(self, color: Color) -> (builder: Self)
        ensures
            builder.source() == self.source(),
            builder.chosen_color() == Some(color),
    {
        DTextBuilder { text: self.text, color: Some(color) }
    }

    /// Builds the dynamic text with the given identifier.
    pub fn build_with_uuid(self, uuid: u128) -> (text: DynamicText)
        ensures
            text@ == built(self.source(), self.chosen_color(), uuid),
    {
        let (value, h_alignment, v_alignment, inferred_family) = match self.text {
            TextEntity::Text(text) => (
                text.value.clone(),
                HAlignment::from_justification(text.horizontal_justification),
                VAlignment::from_justification(text.vertical_justification),
                None,
            ),
            TextEntity::MText(mtext) => {
                let raw = mtext.raw_text();
                (
                    normalize_mtext(raw.as_str()),
                    HAlignment::from_attachment_point(mtext.attachment_point),
                    VAlignment::from_attachment_point(mtext.attachment_point),
                    extract_mtext_font(raw.as_str()),
                )
            },
            TextEntity::Attrib(attrib) => (
                attrib.value.clone(),
                HAlignment::from_justification(attrib.horizontal_justification),
                VAlignment::from_justification(attrib.vertical_justification),
                None,
            ),
        };
        let font_family = match inferred_family {
            Some(family) => family,
            None => DEFAULT_FONT_FAMILY.to_owned(),
        };
        let color = match self.color {
            Some(chosen) => chosen,
            None => Color::black(),
        };
        DynamicText {
            text: value,
            info_name: None,
            uuid,
            h_alignment,
            font_family,
            text_from: USER_TEXT.to_owned(),
            v_alignment,
            frame: false,
            text_width: -1,
            keep_visual_rotation: false,
            color,
        }
    }

    /// Builds the dynamic text and gives it a fresh random identifier.
    /// Whatever identifier is drawn, the rest of the text is determined.
    pub fn build(self) -> (text: DynamicText)
        ensures
            text@ == built(self.source(), self.chosen_color(), text@.uuid),
            is_random_id(text@.uuid),
    {
        let uuid = random_id();
        self.build_with_uuid(uuid)
    }
}

/// The number of extended grapheme clusters of a text, as Unicode Standard
/// Annex #29 bounds them.
pub uninterp spec fn grapheme_clusters(text: Seq<char>) -> nat;

/// `UnicodeSegmentation::graphemes` with extended clusters, counted: the
/// number of grapheme clusters of the text, which depends on the text alone.
#[verifier::external_body]
fn count_graphemes(text: &str) -> (n: usize)
    ensures
        n == grapheme_clusters(text@),
{
    UnicodeSegmentation::graphemes(text, true).count()
}

/// Whether a rotation of whole degrees collapses to none: it is an exact
/// multiple of 360. No other rotation collapses; a rotation that is not
/// whole is none of these.
pub open spec fn is_full_turn_spec(degrees: i64) -> bool {
    degrees % 360 == 0
}

/// Tells whether a rotation of whole degrees is an exact multiple of 360.
pub fn is_full_turn(degrees: i64) -> (b: bool)
    ensures
        b == is_full_turn_spec(degrees),
{
    degrees % 360 == 0
}

/// `true` or `false`, as the element format writes a flag.
pub open spec fn flag_text(flag: bool) -> Seq<char> {
    if flag {
        "true"@
    } else {
        "false"@
    }
}

fn flag_str(flag: bool) -> (s: &'static str)
    ensures
        s@ == flag_text(flag),
{
    if flag {
        "true"
    } else {
        "false"
    }
}

/// Where a dynamic text stands and how large it is written, as the values
/// of the attributes that say so. The caller computes them from the
/// coordinates of the entity.
pub struct Placement {
    pub x: String,
    pub y: String,
    pub z: String,
    pub rotation: String,
    pub font: String,
}

/// The attributes of the element of a dynamic text, in order.
pub open spec fn attributes_of(text: DynamicTextView, placement: Placement) -> Seq<
    (Seq<char>, Seq<char>),
> {
    seq![
        stored("x", placement.x@),
        stored("y", placement.y@),
        stored("z", placement.z@),
        stored("rotation", placement.rotation@),
        stored("uuid", braced_text(text.uuid)),
        stored("font", placement.font@),
        stored("Halignment", text.h_alignment.name()),
        stored("Valignment", text.v_alignment.name()),
        stored("text_from", text.text_from),
        stored("frame", flag_text(text.frame)),
        stored("text_width", decimal(text.text_width as int)),
        stored("color", text.color.rgb_text()),
    ] + match text.info_name {
        Some(name) => seq![stored("info_name", name)],
        None => Seq::empty(),
    } + if text.keep_visual_rotation {
        seq![stored("keep_visual_rotation", flag_text(true))]
    } else {
        Seq::empty()
    }
}

/// Whether `element` is the element of the dynamic text `text` at the
/// given placement: a `dynamic_text` with the attributes above and one
/// child, a `text` that holds the content.
pub open spec fn is_element_of(
    element: XMLElement,
    text: DynamicTextView,
    placement: Placement,
) -> bool {
    &&& xml_name(element) == "dynamic_text"@
    &&& xml_attributes(element) == attributes_of(text, placement)
    &&& xml_text(element).len() == 0
    &&& xml_children(element).len() == 1
    &&& xml_name(xml_children(element)[0]) == "text"@
    &&& xml_attributes(xml_children(element)[0]).len() == 0
    &&& xml_text(xml_children(element)[0]) == seq![xml_escaped(text.text)]
    &&& xml_children(xml_children(element)[0]).len() == 0
}

impl DynamicText {
    /// The content.
    pub fn text(&self) -> (text: &String)
        ensures
            text@ == self@.text,
    {
        &self.text
    }

    /// The font family.
    pub fn font_family(&self) -> (family: &String)
        ensures
            family@ == self@.font_family,
    {
        &self.font_family
    }

    /// The identifier.
    pub fn uuid(&self) -> (uuid: u128)
        ensures
            uuid == self@.uuid,
    {
        self.uuid
    }

    /// The horizontal alignment.
    pub fn h_alignment(&self) -> (alignment: HAlignment)
        ensures
            alignment == self@.h_alignment,
    {
        self.h_alignment
    }

    /// The vertical alignment.
    pub fn v_alignment(&self) -> (alignment: VAlignment)
        ensures
            alignment == self@.v_alignment,
    {
        self.v_alignment
    }

    /// The color.
    pub fn color(&self) -> (color: Color)
        ensures
            color == self@.color,
    {
        self.color
    }

    /// The number of grapheme clusters of the content, by which the width
    /// of a text without a declared width is estimated.
    pub fn grapheme_count(&self) -> (n: usize)
        ensures
            n == grapheme_clusters(self@.text),
    {
        count_graphemes(self.text.as_str())
    }

    /// The element of the dynamic text at the given placement.
    pub fn to_xml(&self, placement: &Placement) -> (element: XMLElement)
        ensures
            is_element_of(element, self@, *placement),
    {
        proof {
            reveal_strlit("x");
            reveal_strlit("y");
            reveal_strlit("z");
            reveal_strlit("rotation");
            reveal_strlit("uuid");
            reveal_strlit("font");
            reveal_strlit("Halignment");
            reveal_strlit("Valignment");
            reveal_strlit("text_from");
            reveal_strlit("frame");
            reveal_strlit("text_width");
            reveal_strlit("color");
            reveal_strlit("info_name");
            reveal_strlit("keep_visual_rotation");
        }
        let mut element = new_element("dynamic_text");
        put(&mut element, "x", placement.x.as_str());
        put(&mut element, "y", placement.y.as_str());
        put(&mut element, "z", placement.z.as_str());
        put(&mut element, "rotation", placement.rotation.as_str());
        let uuid = braced(self.uuid);
        put(&mut element, "uuid", uuid.as_str());
        put(&mut element, "font", placement.font.as_str());
        put(&mut element, "Halignment", self.h_alignment.as_str());
        put(&mut element, "Valignment", self.v_alignment.as_str());
        put(&mut element, "text_from", self.text_from.as_str());
        put(&mut element, "frame", flag_str(self.frame));
        let width = decimal_text(self.text_width as i64);
        put(&mut element, "text_width", width.as_str());
        let color = self.color.display_rgb();
        put(&mut element, "color", color.as_str());
        assert(xml_attributes(element) == seq![
            stored("x", placement.x@),
            stored("y", placement.y@),
            stored("z", placement.z@),
            stored("rotation", placement.rotation@),
            stored("uuid", braced_text(self@.uuid)),
            stored("font", placement.font@),
            stored("Halignment", self@.h_alignment.name()),
            stored("Valignment", self@.v_alignment.name()),
            stored("text_from", self@.text_from),
            stored("frame", flag_text(self@.frame)),
            stored("text_width", decimal(self@.text_width as int)),
            stored("color", self@.color.rgb_text()),
        ]);

        let mut content = new_element("text");
        add_text(&mut content, self.text.as_str());
        add_child(&mut element, content);

        match &self.info_name {
            Some(name) => {
                put(&mut element, "info_name", name.as_str());
            },
            None => {},
        }
        if self.keep_visual_rotation {
            put(&mut element, "keep_visual_rotation", flag_str(true));
        }
        assert(xml_attributes(element) == attributes_of(self@, *placement));
        element
    }
}

} // verus!
