//! Plain XML events, as the state machine consumes them: element start, end,
//! empty-element and character data, with names and attribute lists already
//! decoded to strings.

use vstd::prelude::*;
use crate::model::EventV;

verus! {

/// One XML event.
#[derive(Debug)]
pub enum XmlEvent {
    /// A start tag with its attributes in document order.
    Start { name: String, attrs: Vec<(String, String)> },
    /// An empty element tag with its attributes in document order.
    Empty { name: String, attrs: Vec<(String, String)> },
    /// An end tag.
    End { name: String },
    /// Character data, entity references already resolved.
    Text { content: String },
}

/// The view of an attribute list.
pub open spec fn attrs_v(a: Seq<(String, String)>) -> Seq<(Seq<char>, Seq<char>)> {
    a.map_values(|p: (String, String)| (p.0@, p.1@))
}

impl View for XmlEvent {
    type V = EventV;

    open spec fn view(&self) -> EventV {
        match self {
            XmlEvent::Start { name, attrs } => EventV::Start { name: name@, attrs: attrs_v(attrs@) },
            XmlEvent::Empty { name, attrs } => EventV::Empty { name: name@, attrs: attrs_v(attrs@) },
            XmlEvent::End { name } => EventV::End { name: name@ },
            XmlEvent::Text { content } => EventV::Text { content: content@ },
        }
    }
}

/// The view of an event list.
pub open spec fn events_v(evs: Seq<XmlEvent>) -> Seq<EventV> {
    evs.map_values(|e: XmlEvent| e@)
}

} // verus!
