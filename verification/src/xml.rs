//! Reading a metadata document as a stream of events. Parsing is done by
//! `quick_xml`; this module turns what the parser reports into plain values
//! and states what the rest of the crate relies on.

use quick_xml::events::{BytesStart, Event};
use quick_xml::Reader;
use vstd::prelude::*;

verus! {

/// One attribute of an element, as written in the document.
#[derive(Debug)]
pub enum XmlAttribute {
    /// A key with its raw value.
    Pair { key: Vec<u8>, value: Vec<u8> },
    /// Text in attribute position that the parser could not read as an
    /// attribute.
    Malformed,
}

/// What the parser reports next.
#[derive(Debug)]
pub enum XmlEvent {
    /// An opening tag: its local name and its attributes in document
    /// order.
    Start { name: Vec<u8>, attributes: Vec<XmlAttribute> },
    /// A self-closing tag: its local name and its attributes in document
    /// order.
    Empty { name: Vec<u8>, attributes: Vec<XmlAttribute> },
    /// Input that the parser rejects.
    Malformed,
    /// Anything else that is well-formed: text, closing tags, comments,
    /// declarations.
    Other,
    /// The end of the document.
    Eof,
}

/// `XmlAttribute` as a mathematical value.
pub enum XmlAttributeView {
    Pair { key: Seq<u8>, value: Seq<u8> },
    Malformed,
}

/// `XmlEvent` as a mathematical value.
pub enum XmlEventView {
    Start { name: Seq<u8>, attributes: Seq<XmlAttributeView> },
    Empty { name: Seq<u8>, attributes: Seq<XmlAttributeView> },
    Malformed,
    Other,
    Eof,
}

impl View for XmlAttribute {
    type V = XmlAttributeView;

    open spec fn view(&self) -> XmlAttributeView {
        match self {
            XmlAttribute::Pair { key, value } => XmlAttributeView::Pair { key: key@, value: value@ },
            XmlAttribute::Malformed => XmlAttributeView::Malformed,
        }
    }
}

/// The views of a list of attributes.
pub open spec fn attribute_views(attributes: Seq<XmlAttribute>) -> Seq<XmlAttributeView> {
    attributes.map_values(|a: XmlAttribute| a@)
}

impl View for XmlEvent {
    type V = XmlEventView;

    open spec fn view(&self) -> XmlEventView {
        match self {
            XmlEvent::Start { name, attributes } => XmlEventView::Start {
                name: name@,
                attributes: attribute_views(attributes@),
            },
            XmlEvent::Empty { name, attributes } => XmlEventView::Empty {
                name: name@,
                attributes: attribute_views(attributes@),
            },
            XmlEvent::Malformed => XmlEventView::Malformed,
            XmlEvent::Other => XmlEventView::Other,
            XmlEvent::Eof => XmlEventView::Eof,
        }
    }
}

/// `quick_xml::Reader`, the parser over a source `R`. Nothing inside it is
/// visible to the verifier.
#[verifier::external_type_specification]
#[verifier::external_body]
#[verifier::reject_recursive_types(R)]
pub struct ExReader<R>(Reader<R>);

/// The events that a document yields when read from its start to its end,
/// the end itself left out.
pub uninterp spec fn document_events(text: Seq<char>) -> Seq<XmlEventView>;

/// The events that a reader has yet to yield before it reaches the end of
/// its document.
pub uninterp spec fn pending_events(reader: Reader<&[u8]>) -> Seq<XmlEventView>;

/// `quick_xml::Reader::from_str`: a reader at the start of `text`, with the
/// parser's default settings. It has all events of the document before it.
#[verifier::external_body]
pub(crate) fn open_document<'a>(text: &'a str) -> (reader: Reader<&'a [u8]>)
    ensures
        pending_events(reader) == document_events(text@),
{
    Reader::from_str(text)
}

/// `quick_xml::Reader::read_event`: the next event of the document, variant
/// for variant. Of an opening and of a self-closing tag it keeps the local
/// name (`BytesStart::local_name`) and what the attribute iterator
/// (`BytesStart::attributes`) yields, its errors as
/// `XmlAttribute::Malformed`. An error of the reader is `Malformed`; every
/// other event is `Other`.
///
/// Each call consumes input, so a reader has finitely many events before
/// it. At the end of the document, and after an error that the parser
/// cannot pass, every call reports the end.
#[verifier::external_body]
pub(crate) fn next_event(reader: &mut Reader<&[u8]>) -> (event: XmlEvent)
    ensures
        ({
            let before = pending_events(*old(reader));
            let after = pending_events(*final(reader));
            if before.len() == 0 {
                event@ is Eof && after.len() == 0
            } else {
                event@ == before[0] && !(event@ is Eof) && after == before.drop_first()
            }
        }),
{
    let attributes_of = |e: &BytesStart| e.attributes().map(|item| match item {
        Ok(a) => XmlAttribute::Pair { key: a.key.as_ref().to_vec(), value: a.value.to_vec() },
        Err(_) => XmlAttribute::Malformed,
    }).collect();
    let name_of = |e: &BytesStart| e.local_name().as_ref().to_vec();
    match reader.read_event() {
        Ok(Event::Start(e)) => XmlEvent::Start { name: name_of(&e), attributes: attributes_of(&e) },
        Ok(Event::Empty(e)) => XmlEvent::Empty { name: name_of(&e), attributes: attributes_of(&e) },
        Ok(Event::Eof) => XmlEvent::Eof,
        Ok(_) => XmlEvent::Other,
        Err(_) => XmlEvent::Malformed,
    }
}

} // verus!
