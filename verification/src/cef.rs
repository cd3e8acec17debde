use vstd::prelude::*;
use crate::event_queue::Event;
use vstd::string::StringSliceAdditionalSpecFns;

verus! {

/// `SWP_NOZORDER`: keep the window's place in the Z order.
pub const SWP_NOZORDER: u32 = 0x0004;

/// `SWP_NOACTIVATE`: do not activate the window.
pub const SWP_NOACTIVATE: u32 = 0x0010;

/// The arguments of one `SetWindowPos` call, after the window handle and `HWND_TOP`.
#[derive(Clone, Copy, PartialEq, Eq, Structural, Debug)]
pub struct WindowPos {
    pub x: i32,
    pub y: i32,
    pub width: i32,
    pub height: i32,
    pub flags: u32,
}

/// A task posted to Chromium's UI thread when the control's size changed: the browser's window
/// is told that a resize starts and is then given the new size.
#[derive(Clone, Copy, PartialEq, Eq, Structural, Debug)]
pub struct PosInvalidated {
    pub w: i32,
    pub h: i32,
}

impl PosInvalidated {
    /// Where the browser's window goes: the top left corner of its parent, at the new size,
    /// neither reordered nor activated.
    pub fn window_pos(&self) -> (r: WindowPos)
        ensures
            r == (WindowPos { x: 0, y: 0, width: self.w, height: self.h, flags: 0x0014 }),
            r.flags == SWP_NOZORDER | SWP_NOACTIVATE,
    {
        assert(SWP_NOZORDER | SWP_NOACTIVATE == 0x0014u32) by (bit_vector);
        WindowPos { x: 0, y: 0, width: self.w, height: self.h, flags: SWP_NOZORDER | SWP_NOACTIVATE }
    }
}


/// Which of Chromium's focus sources asked the browser to take focus.
#[derive(Clone, Copy, PartialEq, Eq, Structural, Debug)]
pub enum FocusSource {
    /// Focus follows a navigation (`FOCUS_SOURCE_NAVIGATION`).
    Navigation,
    /// Focus asked for by the system (`FOCUS_SOURCE_SYSTEM`).
    System,
}

/// `CefFocusHandler::on_set_focus`: returns true to keep the browser from taking focus. Pages
/// that load never steal focus from BYOND's window; other focus changes go through.
pub fn on_set_focus(source: FocusSource) -> (cancel: bool)
    ensures
        cancel == (source == FocusSource::Navigation),
{
    match source {
        FocusSource::Navigation => true,
        FocusSource::System => false,
    }
}

/// The name of the JavaScript function, and of the process message, by which a page sends a URL
/// to BYOND.
pub const CEF_TO_BYOND: &'static str = "cef_to_byond";

/// True when `name` is the name of the page-to-BYOND channel.
pub fn is_cef_to_byond(name: &String) -> (r: bool)
    ensures
        r == (name@ == CEF_TO_BYOND@),
{
    let expected = String::from_str(CEF_TO_BYOND);
    *name == expected
}

/// `CefClient::on_process_message_received` for the page-to-BYOND channel: a message of that
/// name carries a URL, which becomes a navigation event and counts as handled; other messages
/// are left alone. `argument` gives the message's first argument; it is read only when the
/// message is the channel's.
pub fn on_process_message_received<B>(name: &String, argument: impl FnOnce() -> String) -> (r: (
    bool,
    Option<Event<B>>,
))
    requires
        call_requires(argument, ()),
    ensures
        r.0 == (name@ == CEF_TO_BYOND@),
        r.0 ==> (r.1 matches Some(Event::UrlNavigate(u)) && call_ensures(argument, (), u)),
        !r.0 ==> r.1 is None,
{
    if is_cef_to_byond(name) {
        let url = argument();
        (true, Some(Event::UrlNavigate(url)))
    } else {
        (false, None)
    }
}


/// ASCII lower case of one byte; other bytes are left as they are.
pub open spec fn ascii_lower(b: u8) -> u8 {
    if 0x41 <= b <= 0x5A {
        (b + 0x20) as u8
    } else {
        b
    }
}

/// The bytes of `byond`.
pub open spec fn byond_bytes() -> Seq<u8> {
    seq![0x62u8, 0x79u8, 0x6Fu8, 0x6Eu8, 0x64u8]
}

/// True when the bytes, in ASCII lower case, spell `byond`.
pub open spec fn is_byond_scheme_bytes(s: Seq<u8>) -> bool {
    s.map_values(|b: u8| ascii_lower(b)) == byond_bytes()
}

/// A scheme counts as `byond` exactly when it has five bytes, each the matching letter of
/// `byond` in lower or upper case.
pub proof fn lemma_byond_scheme_is_case_insensitive(s: Seq<u8>)
    ensures
        is_byond_scheme_bytes(s) <==> (s.len() == 5 && (s[0] == 0x62u8 || s[0] == 0x42u8) && (s[1]
            == 0x79u8 || s[1] == 0x59u8) && (s[2] == 0x6Fu8 || s[2] == 0x4Fu8) && (s[3] == 0x6Eu8
            || s[3] == 0x4Eu8) && (s[4] == 0x64u8 || s[4] == 0x44u8)),
{
    let m = s.map_values(|b: u8| ascii_lower(b));
    if s.len() == 5 && (s[0] == 0x62u8 || s[0] == 0x42u8) && (s[1] == 0x79u8 || s[1] == 0x59u8)
        && (s[2] == 0x6Fu8 || s[2] == 0x4Fu8) && (s[3] == 0x6Eu8 || s[3] == 0x4Eu8) && (s[4]
        == 0x64u8 || s[4] == 0x44u8) {
        assert(m =~= byond_bytes());
    }
    if is_byond_scheme_bytes(s) {
        assert(m.len() == 5);
        assert(m[0] == 0x62u8 && m[1] == 0x79u8 && m[2] == 0x6Fu8 && m[3] == 0x6Eu8 && m[4] == 0x64u8);
    }
}

/// True when the URL scheme, in ASCII lower case, is `byond`.
pub fn is_byond_scheme(scheme: &str) -> (r: bool)
    ensures
        r == is_byond_scheme_bytes(scheme.spec_bytes()),
{
    let bytes = scheme.as_bytes();
    let expected: [u8; 5] = [0x62, 0x79, 0x6F, 0x6E, 0x64];
    assert(expected@ == byond_bytes());
    if bytes.len() != 5 {
        assert(bytes@.map_values(|b: u8| ascii_lower(b)).len() != 5);
        return false;
    }
    let mut i: usize = 0;
    while i < 5
        invariant
            bytes@ == scheme.spec_bytes(),
            bytes@.len() == 5,
            expected@ == byond_bytes(),
            i <= 5,
            forall|j: int| 0 <= j < i ==> ascii_lower(#[trigger] bytes@[j]) == byond_bytes()[j],
        decreases 5 - i,
    {
        let b = bytes[i];
        let lower: u8 = if 0x41 <= b && b <= 0x5A { b + 0x20 } else { b };
        if lower != expected[i] {
            assert(bytes@.map_values(|b: u8| ascii_lower(b))[i as int] != byond_bytes()[i as int]);
            return false;
        }
        i = i + 1;
    }
    assert(bytes@.map_values(|b: u8| ascii_lower(b)) =~= byond_bytes());
    true
}

/// `CefRequestHandler::on_before_browse`, given the URL and its scheme as Chromium parsed it
/// (`None` when the URL does not parse). Returns whether the navigation is cancelled and the
/// event, if any, for BYOND: a URL that does not parse is cancelled; a `byond:` URL (in any
/// letter case) is cancelled and handed to BYOND; any other URL loads.
pub fn on_before_browse<B>(url: String, scheme: Option<&str>) -> (r: (bool, Option<Event<B>>))
    ensures
        scheme is None ==> r.0 && r.1 is None,
        scheme matches Some(s) ==> (is_byond_scheme_bytes(s.spec_bytes()) ==> r.0 && r.1
            == Some(Event::<B>::UrlNavigate(url))),
        scheme matches Some(s) ==> (!is_byond_scheme_bytes(s.spec_bytes()) ==> !r.0 && r.1 is None),
        r.1 is Some ==> r.0,
{
    match scheme {
        None => (true, None),
        Some(s) => {
            if is_byond_scheme(s) {
                (true, Some(Event::UrlNavigate(url)))
            } else {
                (false, None)
            }
        },
    }
}

/// Why a page's call of `cef_to_byond` was refused; it becomes a JavaScript exception.
#[derive(Clone, Copy, PartialEq, Eq, Structural, Debug)]
pub enum V8CallError {
    /// A function other than `cef_to_byond` reached the handler.
    UnknownFunction,
    /// `cef_to_byond` was not given exactly one argument.
    WrongArgumentCount,
    /// The argument of `cef_to_byond` is not a string.
    NonStringArgument,
    /// `cef_to_byond` was called where there is no frame (in a web worker, say).
    OutsideFrame,
}

impl V8CallError {
    pub open spec fn spec_message(self) -> Seq<char> {
        match self {
            V8CallError::UnknownFunction => "unknown function in MyV8Handler"@,
            V8CallError::WrongArgumentCount => "incorrect number of arguments encountered in cef_to_byond"@,
            V8CallError::NonStringArgument => "non-string argument passed encountered in cef_to_byond"@,
            V8CallError::OutsideFrame => "cef_to_byond called outside of a frame (in a web worker?)"@,
        }
    }

    /// The text of the JavaScript exception.
    pub fn message(&self) -> (r: String)
        ensures
            r@ == self.spec_message(),
    {
        match self {
            V8CallError::UnknownFunction => String::from_str("unknown function in MyV8Handler"),
            V8CallError::WrongArgumentCount => String::from_str(
                "incorrect number of arguments encountered in cef_to_byond",
            ),
            V8CallError::NonStringArgument => String::from_str(
                "non-string argument passed encountered in cef_to_byond",
            ),
            V8CallError::OutsideFrame => String::from_str(
                "cef_to_byond called outside of a frame (in a web worker?)",
            ),
        }
    }
}

/// The checks of `CefV8Handler::execute` made before the frame is looked up, in order: the
/// function must be `cef_to_byond`, take exactly one argument, and that argument must be a
/// string. `first_arg_is_string` is consulted only when there is exactly one argument.
pub fn check_cef_to_byond_call(name: &String, arg_count: usize, first_arg_is_string: bool) -> (r: Result<(), V8CallError>)
    ensures
        name@ != CEF_TO_BYOND@ ==> r == Err::<(), V8CallError>(V8CallError::UnknownFunction),
        name@ == CEF_TO_BYOND@ && arg_count != 1 ==> r == Err::<(), V8CallError>(V8CallError::WrongArgumentCount),
        name@ == CEF_TO_BYOND@ && arg_count == 1 && !first_arg_is_string ==> r == Err::<(), V8CallError>(V8CallError::NonStringArgument),
        r is Ok <==> (name@ == CEF_TO_BYOND@ && arg_count == 1 && first_arg_is_string),
{
    if !is_cef_to_byond(name) {
        return Err(V8CallError::UnknownFunction);
    }
    if arg_count != 1 {
        return Err(V8CallError::WrongArgumentCount);
    }
    if !first_arg_is_string {
        return Err(V8CallError::NonStringArgument);
    }
    Ok(())
}


/// Whether Chromium was already set up in this process.
#[derive(Clone, Copy, PartialEq, Eq, Structural, Debug)]
pub struct CefInit {
    pub started: bool,
}

impl CefInit {
    pub fn new() -> (r: CefInit)
        ensures
            !r.started,
    {
        CefInit { started: false }
    }

    /// Only the first call sets Chromium up; every later call returns at once, reporting that
    /// this is not a sub-process.
    pub fn begin(&mut self) -> (proceed: bool)
        ensures
            proceed == !old(self).started,
            final(self).started,
    {
        if self.started {
            return false;
        }
        self.started = true;
        true
    }

    /// `cef_execute_process` returns a non-negative exit code exactly when this process is one of
    /// Chromium's sub-processes, which then has done its work.
    pub fn is_subprocess_exit_code(code: i32) -> (r: bool)
        ensures
            r == (code >= 0),
    {
        code >= 0
    }
}

} // verus!
