//! Typed events, decoded from what the native runtime hands to the trampoline.

use crate::call::Call;
use crate::text::{encodes, is_first_nul, CText, NulError};
use crate::window::Window;
use vstd::prelude::*;
use vstd::string::*;

verus! {

/// What happened in the window, as the native runtime reports it.
#[derive(Debug, Clone, Copy, PartialEq, Eq, Structural)]
pub enum EventType {
    Disconnected,
    Connected,
    MouseClick,
    Navigation,
    Callback,
}

/// An event-type code that names no [`EventType`].
#[derive(Debug, Clone, Copy, PartialEq, Eq, Structural)]
pub struct UnknownEventType {
    pub code: usize,
}

impl EventType {
    /// The event type that the code `code` stands for on the wire, if any.
    pub open spec fn decode(code: int) -> Option<EventType> {
        if code == 0 {
            Some(EventType::Disconnected)
        } else if code == 1 {
            Some(EventType::Connected)
        } else if code == 2 {
            Some(EventType::MouseClick)
        } else if code == 3 {
            Some(EventType::Navigation)
        } else if code == 4 {
            Some(EventType::Callback)
        } else {
            None
        }
    }
}

impl TryFrom<usize> for EventType {
    type Error = UnknownEventType;

    /// Decodes an event-type code: the codes 0 to 4 name the five event
    /// types in the order of their declaration, and every other code comes
    /// back as the error, unchanged.
    fn try_from(value: usize) -> (decoded: Result<Self, Self::Error>)
        ensures
            decoded == (match EventType::decode(value as int) {
                Some(event_type) => Ok::<EventType, UnknownEventType>(event_type),
                None => Err(UnknownEventType { code: value }),
            }),
    {
        match value {
            0 => Ok(EventType::Disconnected),
            1 => Ok(EventType::Connected),
            2 => Ok(EventType::MouseClick),
            3 => Ok(EventType::Navigation),
            4 => Ok(EventType::Callback),
            _ => Err(UnknownEventType { code: value }),
        }
    }
}

impl vstd::std_specs::convert::TryFromSpecImpl<usize> for EventType {
    open spec fn obeys_try_from_spec() -> bool {
        true
    }

    open spec fn try_from_spec(value: usize) -> Result<Self, Self::Error> {
        match EventType::decode(value as int) {
            Some(event_type) => Ok(event_type),
            None => Err(UnknownEventType { code: value }),
        }
    }
}

/// One event, as a handler sees it while the trampoline is running.
///
/// The element name is borrowed from the buffer that the native runtime
/// passed in, so the event cannot outlive the call that delivered it.
#[derive(Debug)]
pub struct Event<'a> {
    /// The window in which the event happened.
    pub window: Window,
    pub event_type: EventType,
    /// The name of the element that the event is about.
    pub element: &'a str,
    /// The index under which the native runtime keeps the event's arguments
    /// and awaits its response.
    pub event_number: usize,
    /// The callback identifier that the event was delivered under.
    pub bind_id: usize,
}

impl<'a> Event<'a> {
    /// The call that asks for the argument at `index`, read as an integer.
    /// The native runtime answers it with a signed 64-bit number.
    pub fn get_int_at(&self, index: usize) -> (call: Call)
        ensures
            call == (Call::GetIntAt {
                window: self.window@,
                event_number: self.event_number,
                index,
            }),
            call.event() == Some((self.window@, self.event_number)),
    {
        Call::GetIntAt { window: self.window.handle(), event_number: self.event_number, index }
    }

    /// The call that asks for the argument at `index`, read as a boolean.
    pub fn get_bool_at(&self, index: usize) -> (call: Call)
        ensures
            call == (Call::GetBoolAt {
                window: self.window@,
                event_number: self.event_number,
                index,
            }),
            call.event() == Some((self.window@, self.event_number)),
    {
        Call::GetBoolAt { window: self.window.handle(), event_number: self.event_number, index }
    }

    /// The two calls that fetch the argument at `index` as text: the first
    /// asks where its bytes are, the second how many they are. The bytes so
    /// found become text through [`decode_text`](crate::text::decode_text).
    pub fn get_string_at(&self, index: usize) -> (calls: (Call, Call))
        ensures
            calls.0 == (Call::GetStringAt {
                window: self.window@,
                event_number: self.event_number,
                index,
            }),
            calls.1 == (Call::GetSizeAt {
                window: self.window@,
                event_number: self.event_number,
                index,
            }),
            calls.0.event() == Some((self.window@, self.event_number)),
            calls.1.event() == Some((self.window@, self.event_number)),
    {
        (
            Call::GetStringAt {
                window: self.window.handle(),
                event_number: self.event_number,
                index,
            },
            Call::GetSizeAt {
                window: self.window.handle(),
                event_number: self.event_number,
                index,
            },
        )
    }

    /// The call that answers this event with `response`: one call, for this
    /// event of this window and for no other. A response with a NUL byte is
    /// refused. The event itself stays as it was.
    pub fn set_response(&mut self, response: &str) -> (out: Result<Call, NulError>)
        ensures
            match out {
                Ok(call) => {
                    &&& call matches Call::SetResponse { window, event_number, response: text }
                    &&& window == old(self).window@
                    &&& event_number == old(self).event_number
                    &&& encodes(response.spec_bytes(), text)
                    &&& call.event() == Some((old(self).window@, old(self).event_number))
                },
                Err(e) => is_first_nul(response.spec_bytes(), e.position as int),
            },
            *final(self) == *old(self),
    {
        match CText::new(response) {
            Ok(text) => Ok(
                Call::SetResponse {
                    window: self.window.handle(),
                    event_number: self.event_number,
                    response: text,
                },
            ),
            Err(e) => Err(e),
        }
    }

    /// The call that answers this event with text that is NUL-terminated
    /// already. The event itself stays as it was.
    pub fn set_cstr_response(&mut self, response: &CText) -> (call: Call)
        ensures
            call matches Call::SetResponse { window, event_number, response: text } && window
                == old(self).window@ && event_number == old(self).event_number && text@
                == response@,
            call.event() == Some((old(self).window@, old(self).event_number)),
            *final(self) == *old(self),
    {
        Call::SetResponse {
            window: self.window.handle(),
            event_number: self.event_number,
            response: response.clone(),
        }
    }
}

/// A call that is about one event in flight is about no other: two events
/// that differ in window or in index never share such a call.
pub proof fn call_reaches_one_event(call: Call, first: Event, second: Event)
    requires
        call.event() == Some((first.window@, first.event_number)),
        call.event() == Some((second.window@, second.event_number)),
    ensures
        first.window@ == second.window@,
        first.event_number == second.event_number,
{
}

} // verus!
