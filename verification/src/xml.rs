//! The element tree of the output, built with `simple_xml_builder`.
//!
//! An `XMLElement` is write-only: the builder offers no way to read back
//! what was put in. What an element holds is therefore named by four
//! uninterpreted functions, and the contracts of the functions below say
//! how each call of the builder changes them. None of these contracts is
//! proved: each states what the source of the builder shows. The document
//! that the builder writes for an element is named too.

use vstd::prelude::*;
use simple_xml_builder::XMLElement;

verus! {

/// `simple_xml_builder::XMLElement`, an element of the tree. Nothing of
/// its inside is known here.
#[verifier::external_type_specification]
#[verifier::external_body]
pub struct ExXMLElement(simple_xml_builder::XMLElement);

/// The tag of an element.
pub uninterp spec fn xml_name(e: XMLElement) -> Seq<char>;

/// The attributes of an element, each a name and its stored value, in the
/// order in which their names were first added.
pub uninterp spec fn xml_attributes(e: XMLElement) -> Seq<(Seq<char>, Seq<char>)>;

/// The stored text of an element; empty where the element holds no text.
pub uninterp spec fn xml_text(e: XMLElement) -> Seq<Seq<char>>;

/// The child elements of an element, in the order in which they were added.
pub uninterp spec fn xml_children(e: XMLElement) -> Seq<XMLElement>;

/// What a character becomes when the builder stores it: one of the five
/// characters that markup reserves becomes its entity, any other character
/// stays.
pub open spec fn escaped_char(c: char) -> Seq<char> {
    if c == '&' {
        "&amp;"@
    } else if c == '"' {
        "&quot;"@
    } else if c == '\'' {
        "&apos;"@
    } else if c == '<' {
        "&lt;"@
    } else if c == '>' {
        "&gt;"@
    } else {
        seq![c]
    }
}

/// The form in which the builder stores a value: each character as it is
/// stored, in order. The builder turns the ampersand into its entity
/// first, so the ampersand of an entity is never turned again.
pub open spec fn xml_escaped(value: Seq<char>) -> Seq<char>
    decreases value.len(),
{
    if value.len() == 0 {
        Seq::empty()
    } else {
        xml_escaped(value.drop_last()) + escaped_char(value.last())
    }
}

/// The document that the builder writes for an element as the root. It
/// begins with the declaration line, so it is never empty.
pub uninterp spec fn xml_document(e: XMLElement) -> Seq<char>;

/// The position of the attribute called `name` among `attributes` at or
/// after `from`, or `attributes.len()` if there is none.
pub open spec fn attribute_position(
    attributes: Seq<(Seq<char>, Seq<char>)>,
    name: Seq<char>,
    from: int,
) -> int
    decreases attributes.len() - from,
{
    if from < 0 || from >= attributes.len() {
        attributes.len() as int
    } else if attributes[from].0 == name {
        from
    } else {
        attribute_position(attributes, name, from + 1)
    }
}

/// The attributes after `name` was set to `value`: an attribute of that
/// name keeps its place and takes the new value; a new name goes to the end.
pub open spec fn with_attribute(
    attributes: Seq<(Seq<char>, Seq<char>)>,
    name: Seq<char>,
    value: Seq<char>,
) -> Seq<(Seq<char>, Seq<char>)> {
    let at = attribute_position(attributes, name, 0);
    if at < attributes.len() {
        attributes.update(at, (name, value))
    } else {
        attributes.push((name, value))
    }
}

/// Whether an element holds neither text nor children.
pub open spec fn xml_is_empty(e: XMLElement) -> bool {
    xml_text(e).len() == 0 && xml_children(e).len() == 0
}

/// `XMLElement::new`: an element with the given tag, without attributes,
/// text or children.
#[verifier::external_body]
pub(crate) fn new_element(name: &str) -> (e: XMLElement)
    ensures
        xml_name(e) == name@,
        xml_attributes(e).len() == 0,
        xml_text(e).len() == 0,
        xml_children(e).len() == 0,
{
    XMLElement::new(name)
}

/// `XMLElement::add_attribute`: stores the value under the name, in an
/// insertion-ordered map, with the five reserved characters replaced by
/// their entities. The tag and the content stay as they are.
#[verifier::external_body]
pub(crate) fn add_attribute(e: &mut XMLElement, name: &str, value: &str)
    ensures
        xml_attributes(*final(e)) == with_attribute(
            xml_attributes(*old(e)),
            name@,
            xml_escaped(value@),
        ),
        xml_name(*final(e)) == xml_name(*old(e)),
        xml_text(*final(e)) == xml_text(*old(e)),
        xml_children(*final(e)) == xml_children(*old(e)),
{
    e.add_attribute(name, value);
}

/// `XMLElement::add_text`: gives an empty element the text as its content,
/// with the five reserved characters replaced by their entities. The
/// builder panics on an element that is not empty.
#[verifier::external_body]
pub(crate) fn add_text(e: &mut XMLElement, text: &str)
    requires
        xml_is_empty(*old(e)),
    ensures
        xml_text(*final(e)) == seq![xml_escaped(text@)],
        xml_children(*final(e)).len() == 0,
        xml_name(*final(e)) == xml_name(*old(e)),
        xml_attributes(*final(e)) == xml_attributes(*old(e)),
{
    e.add_text(text);
}

/// `XMLElement::add_child`: places the child behind the children that the
/// element has. The builder panics on an element that holds text.
#[verifier::external_body]
pub(crate) fn add_child(e: &mut XMLElement, child: XMLElement)
    requires
        xml_text(*old(e)).len() == 0,
    ensures
        xml_children(*final(e)) == xml_children(*old(e)).push(child),
        xml_text(*final(e)).len() == 0,
        xml_name(*final(e)) == xml_name(*old(e)),
        xml_attributes(*final(e)) == xml_attributes(*old(e)),
{
    e.add_child(child);
}

/// The `Display` of `XMLElement`: the document with the element as its
/// root, which depends on nothing but the element. The builder writes the
/// declaration line before anything else, so the document is not empty.
#[verifier::external_body]
pub(crate) fn document_of(e: &XMLElement) -> (text: String)
    ensures
        text@ == xml_document(*e),
        text@.len() > 0,
{
    format!("{}", e)
}

/// An attribute as the builder stores it.
pub open spec fn stored(name: &str, value: Seq<char>) -> (Seq<char>, Seq<char>) {
    (name@, xml_escaped(value))
}

/// An attribute whose name is new goes to the end.
proof fn lemma_new_attribute(
    attributes: Seq<(Seq<char>, Seq<char>)>,
    name: Seq<char>,
    value: Seq<char>,
)
    requires
        forall|i: int| 0 <= i < attributes.len() ==> (#[trigger] attributes[i]).0 != name,
    ensures
        with_attribute(attributes, name, value) == attributes.push((name, value)),
{
    lemma_no_position(attributes, name, 0);
}

proof fn lemma_no_position(attributes: Seq<(Seq<char>, Seq<char>)>, name: Seq<char>, from: int)
    requires
        0 <= from <= attributes.len(),
        forall|i: int| 0 <= i < attributes.len() ==> (#[trigger] attributes[i]).0 != name,
    ensures
        attribute_position(attributes, name, from) == attributes.len(),
    decreases attributes.len() - from,
{
    if from < attributes.len() {
        lemma_no_position(attributes, name, from + 1);
    }
}

/// The length, the first and the last character of a name. The names of
/// the attributes that one element gets here differ in these.
pub(crate) open spec fn mark(name: Seq<char>) -> (nat, char, char) {
    (name.len(), name[0], name[name.len() - 1])
}

/// Adds an attribute whose name the element does not have yet.
pub(crate) fn put(element: &mut XMLElement, name: &str, value: &str)
    requires
        forall|i: int|
            0 <= i < xml_attributes(*old(element)).len() ==> mark(
                (#[trigger] xml_attributes(*old(element))[i]).0,
            ) != mark(name@),
    ensures
        xml_attributes(*final(element)) == xml_attributes(*old(element)).push(
            stored(name, value@),
        ),
        xml_name(*final(element)) == xml_name(*old(element)),
        xml_text(*final(element)) == xml_text(*old(element)),
        xml_children(*final(element)) == xml_children(*old(element)),
{
    proof {
        lemma_new_attribute(xml_attributes(*element), name@, xml_escaped(value@));
    }
    add_attribute(element, name, value);
}

} // verus!
