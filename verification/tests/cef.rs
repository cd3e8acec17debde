use dreamloader::cef::{
    check_cef_to_byond_call, is_byond_scheme, is_cef_to_byond, on_before_browse,
    on_process_message_received, on_set_focus, FocusSource, PosInvalidated, V8CallError, WindowPos,
};
use dreamloader::event_queue::Event;

fn url_of(e: &Option<Event<()>>) -> Option<String> {
    match e {
        Some(Event::UrlNavigate(u)) => Some(u.clone()),
        _ => None,
    }
}

#[test]
fn focus_from_navigation_is_refused() {
    assert!(on_set_focus(FocusSource::Navigation));
    assert!(!on_set_focus(FocusSource::System));
}

#[test]
fn byond_scheme_in_any_case() {
    assert!(is_byond_scheme("byond"));
    assert!(is_byond_scheme("BYOND"));
    assert!(is_byond_scheme("ByOnD"));
    assert!(!is_byond_scheme("byondx"));
    assert!(!is_byond_scheme("http"));
    assert!(!is_byond_scheme(""));
    assert!(!is_byond_scheme("byon"));
}

#[test]
fn before_browse_decisions() {
    let (cancel, ev) = on_before_browse::<()>("byond://?cmd".to_string(), Some("BYOND"));
    assert!(cancel);
    assert_eq!(url_of(&ev), Some("byond://?cmd".to_string()));

    let (cancel, ev) = on_before_browse::<()>("https://example.org/".to_string(), Some("https"));
    assert!(!cancel);
    assert!(ev.is_none());

    let (cancel, ev) = on_before_browse::<()>("not a url".to_string(), None);
    assert!(cancel);
    assert!(ev.is_none());
}

#[test]
fn process_messages() {
    assert!(is_cef_to_byond(&"cef_to_byond".to_string()));
    assert!(!is_cef_to_byond(&"cef_to_byondx".to_string()));

    let (handled, ev) =
        on_process_message_received::<()>(&"cef_to_byond".to_string(), || "byond://x".to_string());
    assert!(handled);
    assert_eq!(url_of(&ev), Some("byond://x".to_string()));

    let (handled, ev) = on_process_message_received::<()>(&"other".to_string(), || {
        panic!("the argument of a foreign message is not read")
    });
    assert!(!handled);
    assert!(ev.is_none());
}

#[test]
fn v8_call_checks() {
    let name = "cef_to_byond".to_string();
    assert_eq!(check_cef_to_byond_call(&name, 1, true), Ok(()));
    assert_eq!(
        check_cef_to_byond_call(&"foo".to_string(), 1, true),
        Err(V8CallError::UnknownFunction)
    );
    assert_eq!(check_cef_to_byond_call(&name, 0, false), Err(V8CallError::WrongArgumentCount));
    assert_eq!(check_cef_to_byond_call(&name, 2, true), Err(V8CallError::WrongArgumentCount));
    assert_eq!(check_cef_to_byond_call(&name, 1, false), Err(V8CallError::NonStringArgument));
}

#[test]
fn v8_error_messages() {
    assert_eq!(V8CallError::UnknownFunction.message(), "unknown function in MyV8Handler");
    assert_eq!(
        V8CallError::WrongArgumentCount.message(),
        "incorrect number of arguments encountered in cef_to_byond"
    );
    assert_eq!(
        V8CallError::NonStringArgument.message(),
        "non-string argument passed encountered in cef_to_byond"
    );
    assert_eq!(
        V8CallError::OutsideFrame.message(),
        "cef_to_byond called outside of a frame (in a web worker?)"
    );
}

#[test]
fn pos_invalidated_window_pos() {
    let p = PosInvalidated { w: 640, h: 480 };
    assert_eq!(p.window_pos(), WindowPos { x: 0, y: 0, width: 640, height: 480, flags: 0x14 });
}

#[test]
fn cef_is_set_up_once() {
    let mut init = dreamloader::cef::CefInit::new();
    assert!(init.begin());
    assert!(!init.begin());
    assert!(init.started);
    assert!(dreamloader::cef::CefInit::is_subprocess_exit_code(0));
    assert!(!dreamloader::cef::CefInit::is_subprocess_exit_code(-1));
}
