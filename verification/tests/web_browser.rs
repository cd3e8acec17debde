use dreamloader::cef::{PosInvalidated, WindowPos};
use dreamloader::event_queue::Event;
use dreamloader::structs::{DataViewAspect, Size, VariantBool};
use dreamloader::web_browser::{
    url_navigated, BrowserCommand, EventResponse, NavigateArg, SizeUpdate, WebBrowserState,
    WindowResize, SCRIPT_SOURCE_URL,
};

#[test]
fn requests_before_creation_are_replayed_in_order() {
    let mut st: WebBrowserState<u32> = WebBrowserState::new();
    assert_eq!(st.run_script("a()".to_string()), None);
    assert_eq!(st.navigate("http://one/".to_string()), None);
    assert_eq!(st.run_script("b()".to_string()), None);
    assert_eq!(st.navigate("http://two/".to_string()), None);
    let (cmds, update) = st.browser_created(42);
    assert_eq!(
        cmds,
        vec![
            BrowserCommand::LoadUrl("http://two/".to_string()),
            BrowserCommand::ExecuteScript("a()".to_string()),
            BrowserCommand::ExecuteScript("b()".to_string()),
        ]
    );
    assert_eq!(update, SizeUpdate { window: None, browser: Some(PosInvalidated { w: 0, h: 0 }) });
    assert_eq!(st.browser, Some(42));
}

#[test]
fn created_browser_with_nothing_cached_runs_nothing() {
    let mut st: WebBrowserState<u32> = WebBrowserState::new();
    let (cmds, _) = st.browser_created(1);
    assert!(cmds.is_empty());
}

#[test]
fn requests_after_creation_run_at_once() {
    let mut st: WebBrowserState<u32> = WebBrowserState::new();
    st.browser_created(1);
    assert_eq!(
        st.navigate("byond://x".to_string()),
        Some(BrowserCommand::LoadUrl("byond://x".to_string()))
    );
    assert_eq!(
        st.run_script("c()".to_string()),
        Some(BrowserCommand::ExecuteScript("c()".to_string()))
    );
    assert_eq!(st.url, None);
    assert!(st.scripts.is_empty());
    assert_eq!(SCRIPT_SOURCE_URL, "_byond.js");
}

#[test]
fn size_changes_resize_window_and_browser() {
    let mut st: WebBrowserState<u32> = WebBrowserState::new();
    let update = st.set_extent(DataViewAspect::Content, 300, 200);
    assert_eq!(update, SizeUpdate { window: None, browser: None });
    let update = st.activate(99);
    assert_eq!(
        update,
        SizeUpdate {
            window: Some(WindowResize {
                window: 99,
                pos: WindowPos { x: 0, y: 0, width: 300, height: 200, flags: 0x0004 },
            }),
            browser: None,
        }
    );
    assert_eq!(st.get_window(), 99);
    let (_, update) = st.browser_created(5);
    assert_eq!(update.browser, Some(PosInvalidated { w: 300, h: 200 }));
    assert_eq!(st.get_extent(DataViewAspect::Content), Size { width: 300, height: 200 });
}

#[test]
fn properties_read_back() {
    let mut st: WebBrowserState<u32> = WebBrowserState::new();
    assert!(st.get_visible() == VariantBool::False);
    st.set_visible(VariantBool::True);
    assert!(st.get_visible() == VariantBool::True);
    assert!(st.visible);
    st.set_silent(VariantBool::True);
    assert!(st.get_silent() == VariantBool::True);
    st.set_silent(VariantBool::False);
    assert!(st.get_silent() == VariantBool::False);
}

#[test]
fn before_navigate2_arguments() {
    let url = "byond://?src=1".to_string();
    let args = url_navigated(url.clone());
    assert_eq!(
        args,
        vec![
            NavigateArg::Cancel(false),
            NavigateArg::Headers(url.clone()),
            NavigateArg::PostData,
            NavigateArg::TargetFrameName(url.clone()),
            NavigateArg::Flags(0),
            NavigateArg::Url(url.clone()),
            NavigateArg::Browser,
        ]
    );
    let types: Vec<u16> = args.iter().map(|a| a.var_type()).collect();
    assert_eq!(types, vec![0x400B, 0x400C, 0x400C, 0x400C, 0x400C, 0x400C, 9]);
    let inner: Vec<Option<u16>> = args.iter().map(|a| a.value_var_type()).collect();
    assert_eq!(
        inner,
        vec![None, Some(8), Some(0x2011), Some(8), Some(3), Some(8), None]
    );
}

#[test]
fn process_events() {
    let mut st: WebBrowserState<&str> = WebBrowserState::new();
    st.navigate("http://cached/".to_string());
    match st.process_event(Event::BrowserCreated("b")) {
        EventResponse::Replay(cmds, _) => {
            assert_eq!(cmds, vec![BrowserCommand::LoadUrl("http://cached/".to_string())])
        }
        EventResponse::Navigated(_) => panic!("expected a replay"),
    }
    match st.process_event(Event::UrlNavigate("byond://go".to_string())) {
        EventResponse::Navigated(args) => {
            assert_eq!(args.len(), 7);
            assert_eq!(args[5], NavigateArg::Url("byond://go".to_string()));
        }
        EventResponse::Replay(_, _) => panic!("expected a navigation"),
    }
}

#[test]
fn default_state_is_empty() {
    let st: WebBrowserState<u8> = Default::default();
    assert_eq!(st.width, 0);
    assert_eq!(st.height, 0);
    assert!(!st.visible && !st.silent);
    assert!(st.window.is_none() && st.url.is_none() && st.browser.is_none());
    assert!(st.scripts.is_empty());
}
