//! XML as a sequence of plain events. The parsing itself is done by the
//! `xml` crate; what the engine reads out of the events is decided here.

use crate::text::same;
use vstd::prelude::*;

verus! {

/// An attribute of an element.
#[derive(Debug, Clone, PartialEq, Eq)]
pub struct Attribute {
    /// The local name of the attribute.
    pub name: String,
    /// Its value.
    pub value: String,
}

/// What an `Attribute` says.
pub struct AttributeView {
    pub name: Seq<char>,
    pub value: Seq<char>,
}

impl View for Attribute {
    type V = AttributeView;

    open spec fn view(&self) -> AttributeView {
        AttributeView { name: self.name@, value: self.value@ }
    }
}

/// The views of a sequence of attributes.
pub open spec fn attributes(v: Seq<Attribute>) -> Seq<AttributeView> {
    v.map_values(|a: Attribute| a@)
}

/// One event of an XML document.
#[derive(Debug, Clone, PartialEq, Eq)]
pub enum Markup {
    /// An element opens.
    Open { name: String, attributes: Vec<Attribute> },
    /// Character data.
    Text(String),
    /// The document ends.
    End,
    /// Any other event.
    Other,
    /// The document is not well-formed from here on.
    Broken,
}

/// What a `Markup` says.
pub enum MarkupView {
    Open { name: Seq<char>, attributes: Seq<AttributeView> },
    Text(Seq<char>),
    End,
    Other,
    Broken,
}

impl View for Markup {
    type V = MarkupView;

    open spec fn view(&self) -> MarkupView {
        match self {
            Markup::Open { name, attributes } => MarkupView::Open {
                name: name@,
                attributes: self::attributes(attributes@),
            },
            Markup::Text(s) => MarkupView::Text(s@),
            Markup::End => MarkupView::End,
            Markup::Other => MarkupView::Other,
            Markup::Broken => MarkupView::Broken,
        }
    }
}

/// The views of a sequence of events.
pub open spec fn markups(v: Seq<Markup>) -> Seq<MarkupView> {
    v.map_values(|m: Markup| m@)
}

/// Whether an event closes a document: its end, or the point where it
/// breaks.
pub open spec fn closes(m: MarkupView) -> bool {
    m is End || m is Broken
}

/// The events that the bytes of an XML document parse to.
pub uninterp spec fn parsed_markup(payload: Seq<u8>) -> Seq<MarkupView>;

/// `xml::EventReader::new` on the bytes, and the events that its iterator
/// yields, each turned into a `Markup`: an opening element keeps its local
/// name and the local names and values of its attributes, character data
/// keeps its text. The iterator stops behind the end of the document and
/// behind the first error.
#[verifier::external_body]
pub(crate) fn read_markup(payload: &[u8]) -> (items: Vec<Markup>)
    ensures
        markups(items@) == parsed_markup(payload@),
{
    xml::EventReader::new(payload).into_iter().map(
        |e| match e {
            Ok(xml::reader::XmlEvent::StartElement { name, attributes, .. }) => Markup::Open {
                name: name.local_name,
                attributes: attributes.into_iter().map(
                    |a| Attribute { name: a.name.local_name, value: a.value },
                ).collect(),
            },
            Ok(xml::reader::XmlEvent::Characters(s)) => Markup::Text(s),
            Ok(xml::reader::XmlEvent::EndDocument) => Markup::End,
            Ok(_) => Markup::Other,
            Err(_) => Markup::Broken,
        },
    ).collect()
}

/// The value of the first attribute named `name`.
pub open spec fn attribute_value(v: Seq<AttributeView>, name: Seq<char>) -> Option<Seq<char>>
    decreases v.len(),
{
    if v.len() == 0 {
        None
    } else if v[0].name == name {
        Some(v[0].value)
    } else {
        attribute_value(v.drop_first(), name)
    }
}

/// Looks the value of the first attribute named `name` up.
pub fn find_attribute(v: &Vec<Attribute>, name: &str) -> (r: Option<String>)
    ensures
        r.is_some() == attribute_value(attributes(v@), name@).is_some(),
        r matches Some(s) ==> s@ == attribute_value(attributes(v@), name@).unwrap(),
{
    let ghost all = attributes(v@);
    let mut i: usize = 0;
    assert(all.subrange(0, all.len() as int) =~= all);
    while i < v.len()
        invariant
            i <= v.len(),
            all == attributes(v@),
            attribute_value(all.subrange(i as int, all.len() as int), name@) == attribute_value(
                all,
                name@,
            ),
        decreases v.len() - i,
    {
        let ghost rest = all.subrange(i as int, all.len() as int);
        proof {
            assert(rest[0] == v@[i as int]@);
            assert(rest.drop_first() =~= all.subrange(i + 1, all.len() as int));
        }
        if same(v[i].name.as_str(), name) {
            return Some(v[i].value.clone());
        }
        i = i + 1;
    }
    None
}

} // verus!
