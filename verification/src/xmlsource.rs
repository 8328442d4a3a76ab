//! The XML event source: quick_xml behind trusted declarations and
//! wrappers.  The tokenizer is an opaque collaborator; everything it hands
//! back is converted to plain values at this boundary and the state machine
//! is verified for every value that can come back.

use vstd::prelude::*;

verus! {

#[verifier::external_type_specification]
#[verifier::external_body]
#[verifier::reject_recursive_types(R)]
/// The reader type of quick_xml.
pub struct ExReader<R>(quick_xml::Reader<R>);

#[verifier::external_type_specification]
#[verifier::external_body]
/// The error type of quick_xml.
pub struct ExXmlError(quick_xml::Error);

#[verifier::external_type_specification]
#[verifier::external_body]
/// A start or empty-element tag of quick_xml.
pub struct ExBytesStart<'a>(quick_xml::events::BytesStart<'a>);

#[verifier::external_type_specification]
#[verifier::external_body]
/// An end tag of quick_xml.
pub struct ExBytesEnd<'a>(quick_xml::events::BytesEnd<'a>);

#[verifier::external_type_specification]
#[verifier::external_body]
/// Character data of quick_xml.
pub struct ExBytesText<'a>(quick_xml::events::BytesText<'a>);

#[verifier::external_type_specification]
#[verifier::external_body]
/// A general entity or character reference of quick_xml.
pub struct ExBytesRef<'a>(quick_xml::events::BytesRef<'a>);

/// One event as handed back by the tokenizer, with its payload still in
/// quick_xml's own types.
pub enum RawEvent {
    /// A start tag.
    Start(quick_xml::events::BytesStart<'static>),
    /// An end tag.
    End(quick_xml::events::BytesEnd<'static>),
    /// An empty element tag.
    Empty(quick_xml::events::BytesStart<'static>),
    /// Character data.
    Text(quick_xml::events::BytesText<'static>),
    /// An entity or character reference in character data.
    Reference(quick_xml::events::BytesRef<'static>),
    /// End of the document.
    Eof,
    /// Anything else (declarations, comments, CDATA, processing
    /// instructions, doctypes); the parser ignores these.
    Other,
}

/// Relies on `quick_xml::Reader::from_str`: builds a tokenizer over a
/// string.
#[verifier::external_body]
pub fn reader_from_str<'a>(txt: &'a str) -> (r: quick_xml::Reader<&'a [u8]>) {
    quick_xml::Reader::from_str(txt)
}

/// Relies on `quick_xml::Reader::read_event` and `Event::into_owned`: reads
/// the next event, owned, sorted into the variants the parser distinguishes
/// (one arm per variant of quick_xml's event type).
#[verifier::external_body]
pub fn read_raw_event<'a>(r: &mut quick_xml::Reader<&'a [u8]>) -> (ev: Result<
    RawEvent,
    quick_xml::Error,
>) {
    match r.read_event() {
        Err(e) => Err(e),
        Ok(quick_xml::events::Event::Start(e)) => Ok(RawEvent::Start(e.into_owned())),
        Ok(quick_xml::events::Event::End(e)) => Ok(RawEvent::End(e.into_owned())),
        Ok(quick_xml::events::Event::Empty(e)) => Ok(RawEvent::Empty(e.into_owned())),
        Ok(quick_xml::events::Event::Text(t)) => Ok(RawEvent::Text(t.into_owned())),
        Ok(quick_xml::events::Event::GeneralRef(t)) => Ok(RawEvent::Reference(t.into_owned())),
        Ok(quick_xml::events::Event::Eof) => Ok(RawEvent::Eof),
        Ok(_) => Ok(RawEvent::Other),
    }
}

/// Relies on `BytesStart::name`: the tag name as it stands in the document.
#[verifier::external_body]
pub fn start_name(e: &quick_xml::events::BytesStart<'static>) -> (r: String) {
    e.name().0.to_string()
}

/// Relies on `BytesStart::attributes` and `Attribute::normalized_value`:
/// the attribute names and their entity-resolved, normalized values, in
/// document order.
#[verifier::external_body]
pub fn start_attributes(e: &quick_xml::events::BytesStart<'static>) -> (r: Result<
    Vec<(String, String)>,
    quick_xml::Error,
>) {
    let mut out = Vec::new();
    for a in e.attributes() {
        let a = a.map_err(quick_xml::Error::InvalidAttr)?;
        let v = a.normalized_value(quick_xml::XmlVersion::Implicit1_0)?;
        out.push((a.key.0.to_string(), v.into_owned()));
    }
    Ok(out)
}

/// Relies on `BytesEnd::name`: the tag name as it stands in the document.
#[verifier::external_body]
pub fn end_name(e: &quick_xml::events::BytesEnd<'static>) -> (r: String) {
    e.name().0.to_string()
}

/// Relies on `BytesText::xml10_content`: the character data with
/// end-of-line normalization applied.
#[verifier::external_body]
pub fn text_content(t: &quick_xml::events::BytesText<'static>) -> (r: String) {
    t.xml10_content().into_owned()
}

/// Relies on `BytesRef::resolve_char_ref` and
/// `quick_xml::escape::resolve_predefined_entity`: the replacement text of a
/// character or predefined entity reference, or `None` for an unknown
/// entity.
#[verifier::external_body]
pub fn ref_content(t: &quick_xml::events::BytesRef<'static>) -> (r: Result<
    Option<String>,
    quick_xml::Error,
>) {
    match t.resolve_char_ref()? {
        Some(c) => Ok(Some(c.to_string())),
        None => Ok(quick_xml::escape::resolve_predefined_entity(t).map(str::to_string)),
    }
}

/// Relies on the `Display` implementation of `quick_xml::Error`: a
/// human-readable description of the tokenizer error.
#[verifier::external_body]
pub fn xml_error_message(e: &quick_xml::Error) -> (r: String) {
    e.to_string()
}

} // verus!
