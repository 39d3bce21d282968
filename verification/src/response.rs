//! What a handled request hands back to the host: attributes, events and
//! messages to dispatch.

use crate::error::{ContractError, ErrorView};
use crate::oracle::msg::WasmExecute;
use vstd::prelude::*;
use vstd::string::StringExecFns;

verus! {

/// A key with its value.
#[derive(Clone, Debug, PartialEq, Eq)]
pub struct Attribute {
    pub key: String,
    pub value: String,
}

impl View for Attribute {
    type V = (Seq<char>, Seq<char>);

    open spec fn view(&self) -> (Seq<char>, Seq<char>) {
        (self.key@, self.value@)
    }
}

/// The attributes of `attrs` as pairs of texts.
pub open spec fn attribute_views(attrs: Seq<Attribute>) -> Seq<(Seq<char>, Seq<char>)> {
    attrs.map_values(|a: Attribute| a@)
}

/// A typed record for the host's event log.
#[derive(Clone, Debug, PartialEq, Eq)]
pub struct Event {
    pub ty: String,
    pub attributes: Vec<Attribute>,
}

/// An [`Event`] with its texts as character sequences.
pub ghost struct EventView {
    pub ty: Seq<char>,
    pub attributes: Seq<(Seq<char>, Seq<char>)>,
}

impl View for Event {
    type V = EventView;

    open spec fn view(&self) -> EventView {
        EventView { ty: self.ty@, attributes: attribute_views(self.attributes@) }
    }
}

/// The events of `events` with their texts as character sequences.
pub open spec fn event_views(events: Seq<Event>) -> Seq<EventView> {
    events.map_values(|e: Event| e@)
}

impl Event {
    /// An event of type `ty` without attributes.
    pub fn new(ty: &str) -> (e: Event)
        ensures
            e@ == (EventView { ty: ty@, attributes: Seq::empty() }),
    {
        let e = Event { ty: String::from_str(ty), attributes: Vec::new() };
        assert(attribute_views(e.attributes@) =~= Seq::empty());
        e
    }

    /// This event with one more attribute at its end.
    pub fn add_attribute(self, key: &str, value: String) -> (e: Event)
        ensures
            e@ == (EventView { ty: self@.ty, attributes: self@.attributes.push((key@, value@)) }),
    {
        let mut attributes = self.attributes;
        let ghost before = attributes@;
        attributes.push(Attribute { key: String::from_str(key), value });
        assert(attribute_views(attributes@) =~= attribute_views(before).push((key@, value@)));
        Event { ty: self.ty, attributes }
    }
}

/// The outcome of a handled request.
#[derive(Clone, Debug, PartialEq)]
pub struct Response {
    pub messages: Vec<WasmExecute>,
    pub attributes: Vec<Attribute>,
    pub events: Vec<Event>,
}

/// A [`Response`] with its texts as character sequences.
pub ghost struct ResponseView {
    pub messages: Seq<WasmExecute>,
    pub attributes: Seq<(Seq<char>, Seq<char>)>,
    pub events: Seq<EventView>,
}

impl View for Response {
    type V = ResponseView;

    open spec fn view(&self) -> ResponseView {
        ResponseView {
            messages: self.messages@,
            attributes: attribute_views(self.attributes@),
            events: event_views(self.events@),
        }
    }
}

/// An outcome with its response and its failure by their views.
pub open spec fn response_view(outcome: Result<Response, ContractError>) -> Result<
    ResponseView,
    ErrorView,
> {
    match outcome {
        Ok(response) => Ok(response@),
        Err(e) => Err(e@),
    }
}

impl Response {
    /// A response that carries nothing.
    pub fn new() -> (r: Response)
        ensures
            r@ == (ResponseView {
                messages: Seq::empty(),
                attributes: Seq::empty(),
                events: Seq::empty(),
            }),
    {
        let r = Response { messages: Vec::new(), attributes: Vec::new(), events: Vec::new() };
        assert(attribute_views(r.attributes@) =~= Seq::empty());
        assert(event_views(r.events@) =~= Seq::empty());
        r
    }

    /// This response with one more attribute at the end of its attributes.
    pub fn add_attribute(self, key: &str, value: String) -> (r: Response)
        ensures
            r@ == (ResponseView {
                messages: self@.messages,
                attributes: self@.attributes.push((key@, value@)),
                events: self@.events,
            }),
    {
        let mut attributes = self.attributes;
        let ghost before = attributes@;
        attributes.push(Attribute { key: String::from_str(key), value });
        assert(attribute_views(attributes@) =~= attribute_views(before).push((key@, value@)));
        Response { messages: self.messages, attributes, events: self.events }
    }

    /// This response with one more event at the end of its events.
    pub fn add_event(self, event: Event) -> (r: Response)
        ensures
            r@ == (ResponseView {
                messages: self@.messages,
                attributes: self@.attributes,
                events: self@.events.push(event@),
            }),
    {
        let mut events = self.events;
        let ghost before = events@;
        events.push(event);
        assert(event_views(events@) =~= event_views(before).push(event@));
        Response { messages: self.messages, attributes: self.attributes, events }
    }
}

} // verus!
