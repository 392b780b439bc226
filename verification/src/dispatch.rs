//! What the trampoline decides when the native runtime delivers an event.
//!
//! The native runtime calls one fixed entry point for every event and passes
//! it five raw values. Here they become a typed event and the handler that is
//! to receive it. Running the handler is left to the caller, who can let go
//! of the table first.

use crate::event::{Event, EventType, UnknownEventType};
use crate::registry::{resolve, Registry};
use crate::text::{decode_text, InvalidUtf8};
use crate::window::Window;
use vstd::prelude::*;
use vstd::utf8::*;

verus! {

/// Why the raw values of an event could not become an [`Event`].
#[derive(Debug, Clone, Copy, PartialEq, Eq, Structural)]
pub enum DispatchError {
    /// The element name is not well-formed UTF-8.
    Element(InvalidUtf8),
    /// The event-type code names no event type.
    EventType(UnknownEventType),
}

/// What is to be done with a delivered event.
pub enum Dispatch<'r, 'e, H> {
    /// Run `handler` on `event`.
    Invoke { handler: &'r H, event: Event<'e> },
    /// Nothing: no handler stands under the callback identifier.
    Miss,
    /// Nothing: the raw values do not make an event.
    Rejected(DispatchError),
}

/// The raw values `event_type` and `element` can become part of an event.
pub open spec fn well_formed(event_type: usize, element: Seq<u8>) -> bool {
    valid_utf8(element) && EventType::decode(event_type as int) is Some
}

/// `event` holds exactly what the five raw values say.
pub open spec fn describes(
    event: Event,
    window_number: usize,
    event_type: usize,
    element: Seq<u8>,
    event_number: usize,
    bind_id: usize,
) -> bool {
    &&& event.window@ == window_number
    &&& EventType::decode(event_type as int) == Some(event.event_type)
    &&& valid_utf8(element)
    &&& event.element@ == decode_utf8(element)
    &&& event.event_number == event_number
    &&& event.bind_id == bind_id
}

/// Builds the event that the five raw values of the trampoline describe.
///
/// The element name is checked first, then the event-type code; the first
/// that fails is the one reported.
pub fn build_event<'e>(
    window_number: usize,
    event_type: usize,
    element: &'e [u8],
    event_number: usize,
    bind_id: usize,
) -> (out: Result<Event<'e>, DispatchError>)
    ensures
        match out {
            Ok(event) => describes(
                event,
                window_number,
                event_type,
                element@,
                event_number,
                bind_id,
            ),
            Err(DispatchError::Element(_)) => !valid_utf8(element@),
            Err(DispatchError::EventType(unknown)) => {
                &&& valid_utf8(element@)
                &&& EventType::decode(event_type as int) is None
                &&& unknown.code == event_type
            },
        },
{
    let name = match decode_text(element) {
        Ok(name) => name,
        Err(e) => {
            return Err(DispatchError::Element(e));
        },
    };
    let kind = match EventType::try_from(event_type) {
        Ok(kind) => kind,
        Err(e) => {
            return Err(DispatchError::EventType(e));
        },
    };
    Ok(
        Event {
            window: Window::new(window_number),
            event_type: kind,
            element: name,
            event_number,
            bind_id,
        },
    )
}

/// Decides what to do with an event that the native runtime delivered under
/// the callback identifier `bind_id`.
///
/// Raw values that make no event are rejected. Otherwise the handler that
/// `registry` holds under `bind_id` is to be run, on an event that holds
/// exactly the raw values; where the table holds none, nothing is to be done.
pub fn dispatch<'r, 'e, H>(
    registry: &'r Registry<H>,
    window_number: usize,
    event_type: usize,
    element: &'e [u8],
    event_number: usize,
    bind_id: usize,
) -> (out: Dispatch<'r, 'e, H>)
    ensures
        match out {
            Dispatch::Invoke { handler, event } => {
                &&& resolve(registry@, bind_id) == Some(*handler)
                &&& describes(event, window_number, event_type, element@, event_number, bind_id)
            },
            Dispatch::Miss => {
                &&& well_formed(event_type, element@)
                &&& resolve(registry@, bind_id) is None
            },
            Dispatch::Rejected(DispatchError::Element(_)) => !valid_utf8(element@),
            Dispatch::Rejected(DispatchError::EventType(unknown)) => {
                &&& valid_utf8(element@)
                &&& EventType::decode(event_type as int) is None
                &&& unknown.code == event_type
            },
        },
        out is Invoke <==> well_formed(event_type, element@) && registry@.contains_key(bind_id),
        out is Miss <==> well_formed(event_type, element@) && !registry@.contains_key(bind_id),
        out is Rejected <==> !well_formed(event_type, element@),
{
    let event = match build_event(window_number, event_type, element, event_number, bind_id) {
        Ok(event) => event,
        Err(e) => {
            return Dispatch::Rejected(e);
        },
    };
    match registry.lookup(bind_id) {
        Some(handler) => Dispatch::Invoke { handler, event },
        None => Dispatch::Miss,
    }
}

} // verus!
