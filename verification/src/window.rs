//! Windows of the native runtime, known here by their handles.

use crate::call::Call;
use crate::text::{encodes, is_first_nul, nul_free, CText, NulError};
use vstd::prelude::*;
use vstd::slice::slice_to_vec;
use vstd::string::*;

verus! {

/// The browsers that a window can be shown in.
#[derive(Debug, Clone, Copy, PartialEq, Eq, Structural)]
pub enum Browser {
    NoBrowser,
    AnyBrowser,
    Chrome,
    Firefox,
    Edge,
    Safari,
    Chromium,
    Opera,
    Brave,
    Vivaldi,
    Epic,
    Yandex,
    ChromiumBased,
}

impl Browser {
    /// The number by which the native runtime knows the browser.
    pub open spec fn spec_code(self) -> usize {
        match self {
            Browser::NoBrowser => 0,
            Browser::AnyBrowser => 1,
            Browser::Chrome => 2,
            Browser::Firefox => 3,
            Browser::Edge => 4,
            Browser::Safari => 5,
            Browser::Chromium => 6,
            Browser::Opera => 7,
            Browser::Brave => 8,
            Browser::Vivaldi => 9,
            Browser::Epic => 10,
            Browser::Yandex => 11,
            Browser::ChromiumBased => 12,
        }
    }

    /// The number by which the native runtime knows the browser.
    #[verifier::when_used_as_spec(spec_code)]
    pub fn code(self) -> (code: usize)
        ensures
            code == self.spec_code(),
    {
        match self {
            Browser::NoBrowser => 0,
            Browser::AnyBrowser => 1,
            Browser::Chrome => 2,
            Browser::Firefox => 3,
            Browser::Edge => 4,
            Browser::Safari => 5,
            Browser::Chromium => 6,
            Browser::Opera => 7,
            Browser::Brave => 8,
            Browser::Vivaldi => 9,
            Browser::Epic => 10,
            Browser::Yandex => 11,
            Browser::ChromiumBased => 12,
        }
    }
}

/// The script runtimes that can serve a window's files.
#[derive(Debug, Clone, Copy, PartialEq, Eq, Structural)]
pub enum Runtime {
    NoRuntime,
    Deno,
    NodeJs,
}

impl Runtime {
    /// The number by which the native runtime knows the script runtime.
    pub open spec fn spec_code(self) -> usize {
        match self {
            Runtime::NoRuntime => 0,
            Runtime::Deno => 1,
            Runtime::NodeJs => 2,
        }
    }

    /// The number by which the native runtime knows the script runtime.
    #[verifier::when_used_as_spec(spec_code)]
    pub fn code(self) -> (code: usize)
        ensures
            code == self.spec_code(),
    {
        match self {
            Runtime::NoRuntime => 0,
            Runtime::Deno => 1,
            Runtime::NodeJs => 2,
        }
    }
}

/// A window of the native runtime. Its view is its handle.
#[derive(Debug)]
pub struct Window {
    handle: usize,
}

impl View for Window {
    type V = usize;

    closed spec fn view(&self) -> usize {
        self.handle
    }
}

impl Window {
    /// The window that the native runtime created under `window_number`.
    pub fn new(window_number: usize) -> (window: Self)
        ensures
            window@ == window_number,
    {
        Self { handle: window_number }
    }

    /// The handle by which the native runtime knows the window.
    pub fn handle(&self) -> (handle: usize)
        ensures
            handle == self@,
    {
        self.handle
    }

    /// The call that asks for the identifier by which the native runtime
    /// knows the window.
    pub fn get_unique_window_id(&self) -> (call: Call)
        ensures
            call == (Call::GetWindowId { window: self@ }),
    {
        Call::GetWindowId { window: self.handle }
    }

    /// A window under a handle of the caller's choice, and the call that
    /// creates it in the native runtime.
    pub fn with_number(window_number: usize) -> (out: (Self, Call))
        ensures
            out.0@ == window_number,
            out.1 == (Call::NewWindowId { window: window_number }),
    {
        (Self { handle: window_number }, Call::NewWindowId { window: window_number })
    }

    /// The call that displays `content` in the window. Content with a NUL
    /// byte is refused.
    pub fn show(&self, content: &str) -> (out: Result<Call, NulError>)
        ensures
            match out {
                Ok(call) => {
                    &&& call matches Call::Show { window, content: text }
                    &&& window == self@
                    &&& encodes(content.spec_bytes(), text)
                },
                Err(e) => is_first_nul(content.spec_bytes(), e.position as int),
            },
    {
        match CText::new(content) {
            Ok(text) => Ok(Call::Show { window: self.handle, content: text }),
            Err(e) => Err(e),
        }
    }

    /// The call that displays `content` in the window, in the browser
    /// `browser`. Content with a NUL byte is refused.
    pub fn show_browser(&self, content: &str, browser: Browser) -> (out: Result<Call, NulError>)
        ensures
            match out {
                Ok(call) => {
                    &&& call matches Call::ShowBrowser { window, content: text, browser: code }
                    &&& window == self@
                    &&& encodes(content.spec_bytes(), text)
                    &&& code == browser.spec_code()
                },
                Err(e) => is_first_nul(content.spec_bytes(), e.position as int),
            },
    {
        match CText::new(content) {
            Ok(text) => Ok(
                Call::ShowBrowser { window: self.handle, content: text, browser: browser.code() },
            ),
            Err(e) => Err(e),
        }
    }

    /// The call that asks whether the window is on screen.
    pub fn is_shown(&self) -> (call: Call)
        ensures
            call == (Call::IsShown { window: self@ }),
    {
        Call::IsShown { window: self.handle }
    }

    /// The call that gives the window a size.
    pub fn set_size(&mut self, width: u32, height: u32) -> (call: Call)
        ensures
            call == (Call::SetSize { window: old(self)@, width, height }),
            *final(self) == *old(self),
    {
        Call::SetSize { window: self.handle, width, height }
    }

    /// The call that moves the window.
    pub fn set_position(&mut self, x: u32, y: u32) -> (call: Call)
        ensures
            call == (Call::SetPosition { window: old(self)@, x, y }),
            *final(self) == *old(self),
    {
        Call::SetPosition { window: self.handle, x, y }
    }

    /// The call that lets the window serve files from the folder at `path`.
    /// A path with a NUL byte is refused.
    pub fn set_root_folder(&mut self, path: &str) -> (out: Result<Call, NulError>)
        ensures
            match out {
                Ok(call) => {
                    &&& call matches Call::SetRootFolder { window, path: text }
                    &&& window == old(self)@
                    &&& encodes(path.spec_bytes(), text)
                },
                Err(e) => is_first_nul(path.spec_bytes(), e.position as int),
            },
            *final(self) == *old(self),
    {
        match CText::new(path) {
            Ok(text) => Ok(Call::SetRootFolder { window: self.handle, path: text }),
            Err(e) => Err(e),
        }
    }

    /// The call that gives the window an icon, as the icon's data and its
    /// media type. A NUL byte in either is refused, in `icon` first.
    pub fn set_icon(&mut self, icon: &str, icon_type: &str) -> (out: Result<Call, NulError>)
        ensures
            match out {
                Ok(call) => {
                    &&& call matches Call::SetIcon { window, icon: data, icon_type: kind }
                    &&& window == old(self)@
                    &&& encodes(icon.spec_bytes(), data)
                    &&& encodes(icon_type.spec_bytes(), kind)
                },
                Err(e) => {
                    ||| is_first_nul(icon.spec_bytes(), e.position as int)
                    ||| nul_free(icon.spec_bytes()) && is_first_nul(
                        icon_type.spec_bytes(),
                        e.position as int,
                    )
                },
            },
            *final(self) == *old(self),
    {
        let data = match CText::new(icon) {
            Ok(text) => text,
            Err(e) => {
                return Err(e);
            },
        };
        match CText::new(icon_type) {
            Ok(kind) => Ok(Call::SetIcon { window: self.handle, icon: data, icon_type: kind }),
            Err(e) => Err(e),
        }
    }

    /// The call that lets the window serve on `port`.
    pub fn set_port(&mut self, port: usize) -> (call: Call)
        ensures
            call == (Call::SetPort { window: old(self)@, port }),
            *final(self) == *old(self),
    {
        Call::SetPort { window: self.handle, port }
    }

    /// The call that chooses the script runtime behind the window.
    pub fn set_runtime(&mut self, runtime: Runtime) -> (call: Call)
        ensures
            call == (Call::SetRuntime { window: old(self)@, runtime: runtime.spec_code() }),
            *final(self) == *old(self),
    {
        Call::SetRuntime { window: self.handle, runtime: runtime.code() }
    }

    /// The call that routes the events of `element` in this window to the
    /// trampoline. The native runtime answers it with the callback identifier
    /// under which the handler is then to be registered. An element name with
    /// a NUL byte is refused.
    pub fn bind(&self, element: &str) -> (out: Result<Call, NulError>)
        ensures
            match out {
                Ok(call) => {
                    &&& call matches Call::Bind { window, element: text }
                    &&& window == self@
                    &&& encodes(element.spec_bytes(), text)
                },
                Err(e) => is_first_nul(element.spec_bytes(), e.position as int),
            },
    {
        match CText::new(element) {
            Ok(text) => Ok(Call::Bind { window: self.handle, element: text }),
            Err(e) => Err(e),
        }
    }

    /// The call that hands the bytes `buf` to the function `func` of the page
    /// in this window. A function name with a NUL byte is refused.
    pub fn send_raw(&self, func: &str, buf: &[u8]) -> (out: Result<Call, NulError>)
        ensures
            match out {
                Ok(call) => {
                    &&& call matches Call::SendRaw { window, function, data }
                    &&& window == self@
                    &&& encodes(func.spec_bytes(), function)
                    &&& data@ == buf@
                },
                Err(e) => is_first_nul(func.spec_bytes(), e.position as int),
            },
    {
        match CText::new(func) {
            Ok(function) => Ok(
                Call::SendRaw { window: self.handle, function, data: slice_to_vec(buf) },
            ),
            Err(e) => Err(e),
        }
    }
}

} // verus!
