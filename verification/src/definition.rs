//! The definition: the root of the document that a drawing becomes.
//!
//! A definition holds the name of the symbol, the resolution with which
//! its curves were turned into segments, its frame, and the elements in the
//! order of the entities that they come from.

use vstd::prelude::*;
use simple_xml_builder::XMLElement;
use crate::digits::{decimal, decimal_text};
use crate::entity::{elements_in, element_count, EntityKind};
use crate::ident::{braced, braced_text, is_random_id, random_id};
use crate::xml::{
    add_child, add_text, new_element, put, stored, xml_attributes, xml_children, xml_escaped,
    xml_name, xml_text,
};

verus! {

/// The frame of a symbol: its size and the place of its hot spot, in the
/// units of the element format.
#[derive(Clone, Copy, Debug, PartialEq, Eq, Structural)]
pub struct Frame {
    pub width: i64,
    pub height: i64,
    pub hotspot_x: i64,
    pub hotspot_y: i64,
}

/// The elements among the first `n` outcomes, in order. Each entity has
/// one outcome: an element, or none.
pub open spec fn elements_among(outcomes: Seq<Option<XMLElement>>, n: int) -> Seq<XMLElement>
    decreases n,
{
    if n <= 0 || n > outcomes.len() {
        Seq::empty()
    } else {
        match outcomes[n - 1] {
            Some(element) => elements_among(outcomes, n - 1).push(element),
            None => elements_among(outcomes, n - 1),
        }
    }
}

/// The elements among all outcomes, in order.
pub open spec fn elements_of(outcomes: Seq<Option<XMLElement>>) -> Seq<XMLElement> {
    elements_among(outcomes, outcomes.len() as int)
}

/// What a definition holds.
pub struct DefinitionView {
    pub name: Seq<char>,
    pub spline_step: u32,
    pub uuid: u128,
    pub frame: Frame,
    pub elements: Seq<XMLElement>,
}

/// The root of a converted document.
pub struct Definition {
    name: String,
    spline_step: u32,
    uuid: u128,
    frame: Frame,
    elements: Vec<XMLElement>,
}

impl View for Definition {
    type V = DefinitionView;

    closed spec fn view(&self) -> DefinitionView {
        DefinitionView {
            name: self.name@,
            spline_step: self.spline_step,
            uuid: self.uuid,
            frame: self.frame,
            elements: self.elements@,
        }
    }
}

/// The attributes of the root element.
pub open spec fn root_attributes(frame: Frame) -> Seq<(Seq<char>, Seq<char>)> {
    seq![
        stored("height", decimal(frame.height as int)),
        stored("width", decimal(frame.width as int)),
        stored("hotspot_x", decimal(frame.hotspot_x as int)),
        stored("hotspot_y", decimal(frame.hotspot_y as int)),
        stored("version", "0.8.0"@),
        stored("link_type", "simple"@),
        stored("type", "element"@),
    ]
}

/// Whether `element` is an element without children that has the given
/// tag, attributes and text.
pub open spec fn is_leaf(
    element: XMLElement,
    name: Seq<char>,
    attributes: Seq<(Seq<char>, Seq<char>)>,
    text: Seq<Seq<char>>,
) -> bool {
    &&& xml_name(element) == name
    &&& xml_attributes(element) =~= attributes
    &&& xml_text(element) =~= text
    &&& xml_children(element).len() == 0
}

/// Whether `element` is an element without attributes and text that has
/// the given tag and children.
pub open spec fn is_group(element: XMLElement, name: Seq<char>, children: Seq<XMLElement>) -> bool {
    &&& xml_name(element) == name
    &&& xml_attributes(element).len() == 0
    &&& xml_text(element).len() == 0
    &&& xml_children(element) =~= children
}

/// Whether `root` is the document of `definition`: a `definition` with
/// the frame as its attributes and four children, which hold the
/// identifier, the name, a note on where the document comes from, and the
/// elements in their order.
pub open spec fn is_document_of(root: XMLElement, definition: DefinitionView) -> bool {
    &&& xml_name(root) == "definition"@
    &&& xml_attributes(root) == root_attributes(definition.frame)
    &&& xml_text(root).len() == 0
    &&& xml_children(root).len() == 4
    &&& is_leaf(
        xml_children(root)[0],
        "uuid"@,
        seq![stored("uuid", braced_text(definition.uuid))],
        Seq::empty(),
    )
    &&& xml_name(xml_children(root)[1]) == "names"@
    &&& xml_attributes(xml_children(root)[1]).len() == 0
    &&& xml_text(xml_children(root)[1]).len() == 0
    &&& xml_children(xml_children(root)[1]).len() == 1
    &&& is_leaf(
        xml_children(xml_children(root)[1])[0],
        "name"@,
        seq![stored("lang", "en"@)],
        seq![xml_escaped(definition.name)],
    )
    &&& is_leaf(
        xml_children(root)[2],
        "informations"@,
        Seq::empty(),
        seq![xml_escaped("Created using dxf2elmt!"@)],
    )
    &&& is_group(xml_children(root)[3], "description"@, definition.elements)
}

proof fn lemma_elements_among(
    kinds: Seq<EntityKind>,
    outcomes: Seq<Option<XMLElement>>,
    n: int,
)
    requires
        0 <= n <= kinds.len(),
        kinds.len() == outcomes.len(),
        forall|i: int| 0 <= i < n ==> (#[trigger] outcomes[i] is Some) == kinds[i].yields_element(),
    ensures
        elements_among(outcomes, n).len() == elements_in(kinds, n),
    decreases n,
{
    if n > 0 {
        lemma_elements_among(kinds, outcomes, n - 1);
    }
}

/// Where exactly the entities whose kind yields an element have one, the
/// definition holds as many elements as the kinds of the entities promise.
pub proof fn lemma_elements_match_kinds(kinds: Seq<EntityKind>, outcomes: Seq<Option<XMLElement>>)
    requires
        kinds.len() == outcomes.len(),
        forall|i: int|
            0 <= i < kinds.len() ==> (#[trigger] outcomes[i] is Some)
                == kinds[i].yields_element(),
    ensures
        elements_of(outcomes).len() == element_count(kinds),
{
    lemma_elements_among(kinds, outcomes, kinds.len() as int);
}

/// Each entity yields no element or one: the first `n` outcomes hold at
/// most `n` elements.
pub proof fn lemma_at_most_one_element_each(outcomes: Seq<Option<XMLElement>>, n: int)
    requires
        0 <= n <= outcomes.len(),
    ensures
        elements_among(outcomes, n).len() <= n,
    decreases n,
{
    if n > 0 {
        lemma_at_most_one_element_each(outcomes, n - 1);
    }
}

impl Definition {
    /// Assembles a definition with the given identifier from the outcomes
    /// of the entities, in their order. The frame is empty until it is set.
    pub fn with_uuid(
        name: String,
        spline_step: u32,
        uuid: u128,
        outcomes: Vec<Option<XMLElement>>,
    ) -> (definition: Definition)
        ensures
            definition@ == (DefinitionView {
                name: name@,
                spline_step,
                uuid,
                frame: Frame { width: 0, height: 0, hotspot_x: 0, hotspot_y: 0 },
                elements: elements_of(outcomes@),
            }),
            definition@.elements.len() <= outcomes@.len(),
    {
        let ghost all = outcomes@;
        let mut elements: Vec<XMLElement> = Vec::new();
        for outcome in it: outcomes
            invariant
                it.seq() == all,
                elements@ == elements_among(all, it.index() as int),
        {
            match outcome {
                Some(element) => elements.push(element),
                None => {},
            }
        }
        proof {
            lemma_at_most_one_element_each(all, all.len() as int);
        }
        Definition {
            name,
            spline_step,
            uuid,
            frame: Frame { width: 0, height: 0, hotspot_x: 0, hotspot_y: 0 },
            elements,
        }
    }

    /// Assembles a definition with a fresh random identifier from the
    /// outcomes of the entities, in their order.
    pub fn new(name: String, spline_step: u32, outcomes: Vec<Option<XMLElement>>) -> (definition:
        Definition)
        ensures
            definition@ == (DefinitionView {
                name: name@,
                spline_step,
                uuid: definition@.uuid,
                frame: Frame { width: 0, height: 0, hotspot_x: 0, hotspot_y: 0 },
                elements: elements_of(outcomes@),
            }),
            definition@.elements.len() <= outcomes@.len(),
            is_random_id(definition@.uuid),
    {
        let uuid = random_id();
        Definition::with_uuid(name, spline_step, uuid, outcomes)
    }

    /// Sets the frame.
    pub fn set_frame(&mut self, frame: Frame)
        ensures
            final(self)@ == (DefinitionView { frame, ..old(self)@ }),
    {
        self.frame = frame;
    }

    /// The name of the symbol.
    pub fn name(&self) -> (name: &String)
        ensures
            name@ == self@.name,
    {
        &self.name
    }

    /// The resolution with which curves were turned into segments.
    pub fn spline_step(&self) -> (step: u32)
        ensures
            step == self@.spline_step,
    {
        self.spline_step
    }

    /// The number of elements.
    pub fn len(&self) -> (n: usize)
        ensures
            n == self@.elements.len(),
    {
        self.elements.len()
    }

    /// The document of the definition. The definition is used up.
    pub fn into_xml(self) -> (root: XMLElement)
        ensures
            is_document_of(root, self@),
    {
        proof {
            reveal_strlit("height");
            reveal_strlit("width");
            reveal_strlit("hotspot_x");
            reveal_strlit("hotspot_y");
            reveal_strlit("version");
            reveal_strlit("link_type");
            reveal_strlit("type");
        }
        let mut root = new_element("definition");
        let height = decimal_text(self.frame.height);
        put(&mut root, "height", height.as_str());
        let width = decimal_text(self.frame.width);
        put(&mut root, "width", width.as_str());
        let hotspot_x = decimal_text(self.frame.hotspot_x);
        put(&mut root, "hotspot_x", hotspot_x.as_str());
        let hotspot_y = decimal_text(self.frame.hotspot_y);
        put(&mut root, "hotspot_y", hotspot_y.as_str());
        put(&mut root, "version", "0.8.0");
        put(&mut root, "link_type", "simple");
        put(&mut root, "type", "element");
        assert(xml_attributes(root) == root_attributes(self.frame));

        let mut uuid = new_element("uuid");
        let braces = braced(self.uuid);
        put(&mut uuid, "uuid", braces.as_str());
        assert(xml_attributes(uuid) == seq![stored("uuid", braced_text(self.uuid))]);
        let ghost uuid_element = uuid;
        add_child(&mut root, uuid);

        let mut name = new_element("name");
        put(&mut name, "lang", "en");
        assert(xml_attributes(name) == seq![stored("lang", "en"@)]);
        add_text(&mut name, self.name.as_str());
        let ghost name_element = name;
        let mut names = new_element("names");
        add_child(&mut names, name);
        assert(xml_children(names)[0] == name_element);
        let ghost names_element = names;
        add_child(&mut root, names);

        let mut informations = new_element("informations");
        add_text(&mut informations, "Created using dxf2elmt!");
        assert(xml_attributes(informations) == Seq::<(Seq<char>, Seq<char>)>::empty());
        let ghost informations_element = informations;
        add_child(&mut root, informations);

        let ghost all = self.elements@;
        let mut description = new_element("description");
        for element in it: self.elements
            invariant
                it.seq() == all,
                xml_name(description) == "description"@,
                xml_attributes(description).len() == 0,
                xml_text(description).len() == 0,
                xml_children(description) == all.take(it.index() as int),
        {
            add_child(&mut description, element);
        }
        assert(all.take(all.len() as int) == all);
        let ghost description_element = description;
        add_child(&mut root, description);
        assert(xml_children(root) == seq![
            uuid_element,
            names_element,
            informations_element,
            description_element,
        ]);
        root
    }
}

} // verus!
