//! The calls that the native runtime accepts, as values.
//!
//! Nothing here reaches the runtime. A [`Call`] says which entry of the
//! runtime's function table is meant and what it is handed; whoever holds the
//! runtime performs it.

use crate::text::CText;
use vstd::prelude::*;

verus! {

/// One call into the native runtime, with its arguments as they cross the
/// boundary: handles and indices as integers, text NUL-terminated.
#[derive(Debug, PartialEq, Eq)]
pub enum Call {
    /// Create a window; the runtime answers with its handle.
    NewWindow,
    /// Create a window under a handle that the caller chose.
    NewWindowId { window: usize },
    /// Ask for a handle that no window uses yet.
    GetNewWindowId,
    /// Ask for the identifier by which the runtime knows the window.
    GetWindowId { window: usize },
    /// Display markup, a file or a URL; the runtime answers whether it could.
    Show { window: usize, content: CText },
    /// As `Show`, in a browser of the caller's choice.
    ShowBrowser { window: usize, content: CText, browser: usize },
    /// Ask whether the window is on screen.
    IsShown { window: usize },
    SetSize { window: usize, width: u32, height: u32 },
    SetPosition { window: usize, x: u32, y: u32 },
    /// Serve files from a folder; the runtime answers whether it accepted it.
    SetRootFolder { window: usize, path: CText },
    SetIcon { window: usize, icon: CText, icon_type: CText },
    /// Serve on a port; the runtime answers whether it could take it.
    SetPort { window: usize, port: usize },
    SetRuntime { window: usize, runtime: usize },
    /// Route the events of an element to the trampoline; the runtime answers
    /// with the callback identifier under which it will report them.
    Bind { window: usize, element: CText },
    /// Hand raw bytes to a function of the page.
    SendRaw { window: usize, function: CText, data: Vec<u8> },
    /// Ask for an argument of an event in flight, read as an integer.
    GetIntAt { window: usize, event_number: usize, index: usize },
    /// Ask for an argument of an event in flight, read as a boolean.
    GetBoolAt { window: usize, event_number: usize, index: usize },
    /// Ask for the bytes of an argument of an event in flight.
    GetStringAt { window: usize, event_number: usize, index: usize },
    /// Ask how many bytes an argument of an event in flight has.
    GetSizeAt { window: usize, event_number: usize, index: usize },
    /// Answer an event in flight.
    SetResponse { window: usize, event_number: usize, response: CText },
    /// Block until the runtime's loop ends.
    Wait,
    /// Release what the runtime holds.
    Clean,
    /// Ask whether the runtime's loop is running.
    IsAppRunning,
    /// Set how long the runtime waits for a window to connect.
    SetTimeout { second: usize },
    /// Ask the runtime's loop to end.
    Exit,
}

impl Call {
    /// The event in flight that the call reads or answers, as window handle
    /// and event index, if it is about one.
    pub open spec fn event(self) -> Option<(usize, usize)> {
        match self {
            Call::GetIntAt { window, event_number, .. } => Some((window, event_number)),
            Call::GetBoolAt { window, event_number, .. } => Some((window, event_number)),
            Call::GetStringAt { window, event_number, .. } => Some((window, event_number)),
            Call::GetSizeAt { window, event_number, .. } => Some((window, event_number)),
            Call::SetResponse { window, event_number, .. } => Some((window, event_number)),
            _ => None,
        }
    }
}

/// The call that blocks until the runtime's loop ends.
pub fn wait() -> (call: Call)
    ensures
        call == Call::Wait,
{
    Call::Wait
}

/// The call that releases what the runtime holds.
pub fn clean() -> (call: Call)
    ensures
        call == Call::Clean,
{
    Call::Clean
}

/// The call that asks whether the runtime's loop is running.
pub fn is_app_running() -> (call: Call)
    ensures
        call == Call::IsAppRunning,
{
    Call::IsAppRunning
}

/// The call that sets how long the runtime waits for a window to connect.
pub fn set_timeout(second: usize) -> (call: Call)
    ensures
        call == (Call::SetTimeout { second }),
{
    Call::SetTimeout { second }
}

/// The call that asks for a handle that no window uses yet.
pub fn get_new_window_id() -> (call: Call)
    ensures
        call == Call::GetNewWindowId,
{
    Call::GetNewWindowId
}

/// The call that asks the runtime's loop to end.
pub fn exit() -> (call: Call)
    ensures
        call == Call::Exit,
{
    Call::Exit
}

} // verus!
