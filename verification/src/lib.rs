//! Protocol core of a binding to a native, handle-based webview runtime.
//!
//! The native runtime is reachable only through a fixed table of calls that
//! exchange integers and byte buffers. This crate holds everything that can be
//! decided without touching that runtime: which call is made with which
//! arguments, how text crosses the boundary in both directions, how raw event
//! codes become typed events, and how a callback identifier finds its handler.
//!
//! Whoever holds the runtime performs the [`Call`]s that this crate builds and
//! hands back what the runtime answered.

pub mod call;
pub mod dispatch;
pub mod event;
pub mod registry;
pub mod text;
pub mod window;

pub use call::{clean, exit, get_new_window_id, is_app_running, set_timeout, wait, Call};
pub use dispatch::{build_event, dispatch, Dispatch, DispatchError};
pub use event::{Event, EventType, UnknownEventType};
pub use registry::Registry;
pub use text::{decode_text, CText, InvalidUtf8, NulError};
pub use window::{Browser, Runtime, Window};
