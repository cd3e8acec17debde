use vstd::prelude::*;
use crate::cef::{PosInvalidated, WindowPos, SWP_NOZORDER};
use crate::event_queue::Event;
use crate::structs::{bool_of, variant_bool_of, DataViewAspect, Size, VariantBool};

verus! {

/// What the control does on the Chromium browser.
#[derive(PartialEq, Eq, Debug)]
pub enum BrowserCommand {
    /// Load this URL in the browser's main frame.
    LoadUrl(String),
    /// Run this JavaScript in the browser's main frame, with `SCRIPT_SOURCE_URL` as its source.
    ExecuteScript(String),
}

/// The source URL given to Chromium for scripts run on BYOND's behalf.
pub const SCRIPT_SOURCE_URL: &'static str = "_byond.js";

/// A request that BYOND makes of the control before or after the browser exists.
#[derive(PartialEq, Eq, Debug)]
pub enum BrowserRequest {
    /// `IWebBrowser::Navigate`.
    Navigate(String),
    /// A script handed to the document's `IScript` object.
    RunScript(String),
}

/// A `SetWindowPos` call on a given window.
#[derive(Clone, Copy, PartialEq, Eq, Structural, Debug)]
pub struct WindowResize {
    pub window: isize,
    pub pos: WindowPos,
}

/// The resizes that follow a change of the control's size.
#[derive(Clone, Copy, PartialEq, Eq, Structural, Debug)]
pub struct SizeUpdate {
    /// Resize the control's host window, done at once on BYOND's thread.
    pub window: Option<WindowResize>,
    /// Resize the browser's window, posted as a task to Chromium's UI thread.
    pub browser: Option<PosInvalidated>,
}

/// The state of one web browser control that BYOND hosts. `B` is the browser handle.
pub struct WebBrowserState<B> {
    /// Size in pixels.
    pub width: i32,
    pub height: i32,
    pub visible: bool,
    pub silent: bool,
    /// The control's host window, once the control is activated in place.
    pub window: Option<isize>,
    /// The last URL requested before the browser existed.
    pub url: Option<String>,
    /// Scripts requested before the browser existed, in order.
    pub scripts: Vec<String>,
    /// The Chromium browser, once created.
    pub browser: Option<B>,
}

/// The mathematical model of a [`WebBrowserState`].
pub struct BrowserStateView<B> {
    pub width: i32,
    pub height: i32,
    pub visible: bool,
    pub silent: bool,
    pub window: Option<isize>,
    pub url: Option<String>,
    pub scripts: Seq<String>,
    pub browser: Option<B>,
}

impl<B> View for WebBrowserState<B> {
    type V = BrowserStateView<B>;

    open spec fn view(&self) -> BrowserStateView<B> {
        BrowserStateView {
            width: self.width,
            height: self.height,
            visible: self.visible,
            silent: self.silent,
            window: self.window,
            url: self.url,
            scripts: self.scripts@,
            browser: self.browser,
        }
    }
}

/// The commands run on a newly created browser: the cached URL, then the cached scripts in the
/// order they were requested.
pub open spec fn replay(url: Option<String>, scripts: Seq<String>) -> Seq<BrowserCommand> {
    (match url {
        Some(u) => seq![BrowserCommand::LoadUrl(u)],
        None => Seq::empty(),
    }) + scripts.map_values(|c: String| BrowserCommand::ExecuteScript(c))
}

pub open spec fn spec_navigate<B>(v: BrowserStateView<B>, url: String) -> (
    BrowserStateView<B>,
    Option<BrowserCommand>,
) {
    if v.browser is Some {
        (v, Some(BrowserCommand::LoadUrl(url)))
    } else {
        (BrowserStateView { url: Some(url), ..v }, None)
    }
}

pub open spec fn spec_run_script<B>(v: BrowserStateView<B>, code: String) -> (
    BrowserStateView<B>,
    Option<BrowserCommand>,
) {
    if v.browser is Some {
        (v, Some(BrowserCommand::ExecuteScript(code)))
    } else {
        (BrowserStateView { scripts: v.scripts.push(code), ..v }, None)
    }
}

pub open spec fn spec_request<B>(v: BrowserStateView<B>, r: BrowserRequest) -> (
    BrowserStateView<B>,
    Option<BrowserCommand>,
) {
    match r {
        BrowserRequest::Navigate(u) => spec_navigate(v, u),
        BrowserRequest::RunScript(c) => spec_run_script(v, c),
    }
}

pub open spec fn opt_to_seq(c: Option<BrowserCommand>) -> Seq<BrowserCommand> {
    match c {
        Some(c) => seq![c],
        None => Seq::empty(),
    }
}

/// The state after a series of requests, and the commands they ran at once.
pub open spec fn apply_requests<B>(v: BrowserStateView<B>, reqs: Seq<BrowserRequest>) -> (
    BrowserStateView<B>,
    Seq<BrowserCommand>,
)
    decreases reqs.len(),
{
    if reqs.len() == 0 {
        (v, Seq::empty())
    } else {
        let (w, cmds) = apply_requests(v, reqs.drop_last());
        let (x, c) = spec_request(w, reqs.last());
        (x, cmds + opt_to_seq(c))
    }
}

/// The command that a request runs on an existing browser.
pub open spec fn command_of(r: BrowserRequest) -> BrowserCommand {
    match r {
        BrowserRequest::Navigate(u) => BrowserCommand::LoadUrl(u),
        BrowserRequest::RunScript(c) => BrowserCommand::ExecuteScript(c),
    }
}

/// The last URL requested in `reqs`, or `url` when none is.
pub open spec fn last_url(url: Option<String>, reqs: Seq<BrowserRequest>) -> Option<String>
    decreases reqs.len(),
{
    if reqs.len() == 0 {
        url
    } else {
        match reqs.last() {
            BrowserRequest::Navigate(u) => Some(u),
            BrowserRequest::RunScript(_) => last_url(url, reqs.drop_last()),
        }
    }
}

/// The scripts requested in `reqs`, in order.
pub open spec fn scripts_of(reqs: Seq<BrowserRequest>) -> Seq<String>
    decreases reqs.len(),
{
    if reqs.len() == 0 {
        Seq::empty()
    } else {
        match reqs.last() {
            BrowserRequest::Navigate(_) => scripts_of(reqs.drop_last()),
            BrowserRequest::RunScript(c) => scripts_of(reqs.drop_last()).push(c),
        }
    }
}

pub open spec fn spec_size_invalidated<B>(v: BrowserStateView<B>) -> SizeUpdate {
    SizeUpdate {
        window: match v.window {
            Some(w) => Some(
                WindowResize {
                    window: w,
                    pos: WindowPos { x: 0, y: 0, width: v.width, height: v.height, flags: SWP_NOZORDER },
                },
            ),
            None => None,
        },
        browser: if v.browser is Some {
            Some(PosInvalidated { w: v.width, h: v.height })
        } else {
            None
        },
    }
}

pub open spec fn spec_browser_created<B>(v: BrowserStateView<B>, browser: B) -> (
    BrowserStateView<B>,
    Seq<BrowserCommand>,
) {
    (BrowserStateView { browser: Some(browser), ..v }, replay(v.url, v.scripts))
}

/// What a newly created browser is given: the cached URL first, if there is one, then every
/// queued script, in the order it was queued, whether or not a URL was cached. Nothing else.
pub proof fn lemma_replay_runs_every_queued_script(url: Option<String>, scripts: Seq<String>)
    ensures
        replay(url, scripts).len() == (if url is Some { 1int } else { 0int }) + scripts.len(),
        url matches Some(u) ==> replay(url, scripts)[0] == BrowserCommand::LoadUrl(u),
        forall|i: int|
            0 <= i < scripts.len() ==> replay(url, scripts)[(if url is Some {
                1int
            } else {
                0int
            }) + i] == BrowserCommand::ExecuteScript(#[trigger] scripts[i]),
        url is None ==> forall|i: int|
            0 <= i < scripts.len() ==> #[trigger] replay(url, scripts)[i]
                == BrowserCommand::ExecuteScript(scripts[i]),
{
}

/// Scripts queued before the browser exists all reach it, in request order, when it is
/// created: after any series of requests on a control without a browser, creation runs exactly
/// the scripts requested (after the cached URL, if any) and, when no URL was ever requested,
/// nothing but those scripts.
pub proof fn lemma_queued_scripts_reach_new_browser<B>(
    v: BrowserStateView<B>,
    reqs: Seq<BrowserRequest>,
    browser: B,
)
    requires
        v.browser is None,
        v.url is None,
        v.scripts.len() == 0,
    ensures
        ({
            let cmds = spec_browser_created(apply_requests(v, reqs).0, browser).1;
            let off: int = if last_url(None, reqs) is Some { 1 } else { 0 };
            &&& cmds.len() == off + scripts_of(reqs).len()
            &&& last_url(None, reqs) matches Some(u) ==> cmds[0] == BrowserCommand::LoadUrl(u)
            &&& forall|i: int|
                0 <= i < scripts_of(reqs).len() ==> cmds[off + i]
                    == BrowserCommand::ExecuteScript(#[trigger] scripts_of(reqs)[i])
        }),
{
    lemma_requests_before_creation_are_deferred(v, reqs, browser);
    assert(v.scripts + scripts_of(reqs) =~= scripts_of(reqs));
    lemma_replay_runs_every_queued_script(last_url(None, reqs), scripts_of(reqs));
}

/// The host window, when there is one, is always resized to the control's size at the top left
/// corner without changing the Z order; the browser, when there is one, is always told the same
/// size. Neither part depends on whether the other exists.
pub proof fn lemma_size_update_reaches_window_and_browser<B>(v: BrowserStateView<B>, other_browser: Option<B>, other_window: Option<isize>)
    ensures
        v.window matches Some(w) ==> spec_size_invalidated(v).window == Some(
            WindowResize {
                window: w,
                pos: WindowPos { x: 0, y: 0, width: v.width, height: v.height, flags: 0x0004 },
            },
        ),
        v.window is None ==> spec_size_invalidated(v).window is None,
        v.browser is Some ==> spec_size_invalidated(v).browser == Some(
            PosInvalidated { w: v.width, h: v.height },
        ),
        v.browser is None ==> spec_size_invalidated(v).browser is None,
        spec_size_invalidated(BrowserStateView { browser: other_browser, ..v }).window
            == spec_size_invalidated(v).window,
        spec_size_invalidated(BrowserStateView { window: other_window, ..v }).browser
            == spec_size_invalidated(v).browser,
{
}

/// Requests made before the browser exists run nothing at once; when the browser is created,
/// the last requested URL is loaded and then every requested script runs, in request order.
pub proof fn lemma_requests_before_creation_are_deferred<B>(
    v: BrowserStateView<B>,
    reqs: Seq<BrowserRequest>,
    browser: B,
)
    requires
        v.browser is None,
    ensures
        apply_requests(v, reqs).1 == Seq::<BrowserCommand>::empty(),
        apply_requests(v, reqs).0.browser is None,
        apply_requests(v, reqs).0.url == last_url(v.url, reqs),
        apply_requests(v, reqs).0.scripts == v.scripts + scripts_of(reqs),
        spec_browser_created(apply_requests(v, reqs).0, browser).1 == replay(
            last_url(v.url, reqs),
            v.scripts + scripts_of(reqs),
        ),
    decreases reqs.len(),
{
    if reqs.len() > 0 {
        lemma_requests_before_creation_are_deferred(v, reqs.drop_last(), browser);
        let w = apply_requests(v, reqs.drop_last()).0;
        match reqs.last() {
            BrowserRequest::Navigate(u) => {},
            BrowserRequest::RunScript(c) => {
                assert(w.scripts.push(c) =~= v.scripts + scripts_of(reqs));
            },
        }
        assert(apply_requests(v, reqs).1 =~= Seq::<BrowserCommand>::empty());
    } else {
        assert(v.scripts + scripts_of(reqs) =~= v.scripts);
    }
}

/// Once the browser exists, every request runs at once, in order, and nothing is cached.
pub proof fn lemma_requests_after_creation_run_at_once<B>(
    v: BrowserStateView<B>,
    reqs: Seq<BrowserRequest>,
)
    requires
        v.browser is Some,
    ensures
        apply_requests(v, reqs).0 == v,
        apply_requests(v, reqs).1 == reqs.map_values(|r: BrowserRequest| command_of(r)),
    decreases reqs.len(),
{
    if reqs.len() > 0 {
        lemma_requests_after_creation_run_at_once(v, reqs.drop_last());
        assert(reqs.drop_last().map_values(|r: BrowserRequest| command_of(r)).push(
            command_of(reqs.last()),
        ) =~= reqs.map_values(|r: BrowserRequest| command_of(r)));
    } else {
        assert(reqs.map_values(|r: BrowserRequest| command_of(r)) =~= Seq::<BrowserCommand>::empty());
    }
}


pub open spec fn fresh_view<B>() -> BrowserStateView<B> {
    BrowserStateView {
        width: 0,
        height: 0,
        visible: false,
        silent: false,
        window: None,
        url: None,
        scripts: Seq::empty(),
        browser: None,
    }
}

pub open spec fn spec_set_extent<B>(v: BrowserStateView<B>, width: i32, height: i32) -> BrowserStateView<B> {
    BrowserStateView { width, height, ..v }
}

pub open spec fn spec_get_extent<B>(v: BrowserStateView<B>) -> Size {
    Size { width: v.width as u32, height: v.height as u32 }
}

pub open spec fn spec_set_visible<B>(v: BrowserStateView<B>, vis: VariantBool) -> BrowserStateView<B> {
    BrowserStateView { visible: bool_of(vis), ..v }
}

pub open spec fn spec_set_silent<B>(v: BrowserStateView<B>, silent: VariantBool) -> BrowserStateView<B> {
    BrowserStateView { silent: bool_of(silent), ..v }
}

/// What reading a property gives back is what was last written to it.
pub proof fn lemma_properties_read_back<B>(
    v: BrowserStateView<B>,
    vis: VariantBool,
    silent: VariantBool,
    width: i32,
    height: i32,
)
    requires
        width >= 0,
        height >= 0,
    ensures
        variant_bool_of(spec_set_visible(v, vis).visible) == vis,
        variant_bool_of(spec_set_silent(v, silent).silent) == silent,
        spec_get_extent(spec_set_extent(v, width, height)) == (Size {
            width: width as u32,
            height: height as u32,
        }),
        spec_get_extent(spec_set_extent(v, width, height)).width == width,
        spec_get_extent(spec_set_extent(v, width, height)).height == height,
{
}

/// Writing one property leaves every other part of the control as it was.
pub proof fn lemma_property_writes_touch_nothing_else<B>(
    v: BrowserStateView<B>,
    vis: VariantBool,
    silent: VariantBool,
    width: i32,
    height: i32,
)
    ensures
        ({
            let e = spec_set_extent(v, width, height);
            &&& e.width == width && e.height == height
            &&& e.visible == v.visible && e.silent == v.silent && e.window == v.window
            &&& e.url == v.url && e.scripts == v.scripts && e.browser == v.browser
        }),
        ({
            let e = spec_set_visible(v, vis);
            &&& e.visible == (vis == VariantBool::True)
            &&& e.width == v.width && e.height == v.height && e.silent == v.silent
            &&& e.window == v.window && e.url == v.url && e.scripts == v.scripts && e.browser == v.browser
        }),
        ({
            let e = spec_set_silent(v, silent);
            &&& e.silent == (silent == VariantBool::True)
            &&& e.width == v.width && e.height == v.height && e.visible == v.visible
            &&& e.window == v.window && e.url == v.url && e.scripts == v.scripts && e.browser == v.browser
        }),
{
}

/// `BeforeNavigate2` gets seven arguments: `Cancel` false first and the control last, the URL as
/// the URL, the target frame name and the headers, no flags and empty post data in between.
pub proof fn lemma_navigation_reports_the_url(url: String)
    ensures
        ({
            let a = spec_before_navigate2_args(url);
            &&& a.len() == 7
            &&& a[0] == NavigateArg::Cancel(false)
            &&& a[1] == NavigateArg::Headers(url)
            &&& a[2] == NavigateArg::PostData
            &&& a[3] == NavigateArg::TargetFrameName(url)
            &&& a[4] == NavigateArg::Flags(0)
            &&& a[5] == NavigateArg::Url(url)
            &&& a[6] == NavigateArg::Browser
        }),
{
}

impl<B> WebBrowserState<B> {
    /// A control that has no window, no browser and nothing cached yet.
    pub fn new() -> (r: WebBrowserState<B>)
        ensures
            r@ == fresh_view::<B>(),
    {
        WebBrowserState {
            width: 0,
            height: 0,
            visible: false,
            silent: false,
            window: None,
            url: None,
            scripts: Vec::new(),
            browser: None,
        }
    }

    /// `IWebBrowser::Navigate`: loads the URL at once when the browser exists, otherwise
    /// remembers it for when the browser is created (replacing any URL remembered before).
    pub fn navigate(&mut self, url: String) -> (r: Option<BrowserCommand>)
        ensures
            (final(self)@, r) == spec_navigate(old(self)@, url),
    {
        if self.browser.is_some() {
            return Some(BrowserCommand::LoadUrl(url));
        }
        self.url = Some(url);
        None
    }

    /// A script from BYOND: runs at once when the browser exists, otherwise is queued.
    pub fn run_script(&mut self, code: String) -> (r: Option<BrowserCommand>)
        ensures
            (final(self)@, r) == spec_run_script(old(self)@, code),
    {
        if self.browser.is_some() {
            return Some(BrowserCommand::ExecuteScript(code));
        }
        self.scripts.push(code);
        None
    }

    /// The resizes owed after the control's size changed: the host window, if any, is resized
    /// at once and the browser, if any, is told through a task.
    pub fn on_size_invalidated(&self) -> (r: SizeUpdate)
        ensures
            r == spec_size_invalidated(self@),
            self.window matches Some(w) ==> r.window == Some(
                WindowResize {
                    window: w,
                    pos: WindowPos {
                        x: 0,
                        y: 0,
                        width: self.width,
                        height: self.height,
                        flags: 0x0004,
                    },
                },
            ),
            self.window is None ==> r.window is None,
            self.browser is Some ==> r.browser == Some(PosInvalidated { w: self.width, h: self.height }),
            self.browser is None ==> r.browser is None,
    {
        let window = match self.window {
            Some(w) => Some(
                WindowResize {
                    window: w,
                    pos: WindowPos {
                        x: 0,
                        y: 0,
                        width: self.width,
                        height: self.height,
                        flags: SWP_NOZORDER,
                    },
                },
            ),
            None => None,
        };
        let browser = if self.browser.is_some() {
            Some(PosInvalidated { w: self.width, h: self.height })
        } else {
            None
        };
        SizeUpdate { window, browser }
    }

    /// The browser was created: it is kept, the remembered URL is loaded and the queued scripts
    /// run in order, then the size is brought up to date.
    pub fn browser_created(&mut self, browser: B) -> (r: (Vec<BrowserCommand>, SizeUpdate))
        requires
            old(self).browser is None,
        ensures
            final(self)@ == spec_browser_created(old(self)@, browser).0,
            r.0@ == spec_browser_created(old(self)@, browser).1,
            r.1 == spec_size_invalidated(final(self)@),
            r.0@.len() == (if old(self).url is Some { 1int } else { 0int }) + old(self).scripts@.len(),
            old(self).url matches Some(u) ==> r.0@[0] == BrowserCommand::LoadUrl(u),
            forall|i: int|
                0 <= i < old(self).scripts@.len() ==> r.0@[(if old(self).url is Some {
                    1int
                } else {
                    0int
                }) + i] == BrowserCommand::ExecuteScript(#[trigger] old(self).scripts@[i]),
            final(self).browser == Some(browser),
    {
        let mut commands: Vec<BrowserCommand> = Vec::new();
        match &self.url {
            Some(u) => {
                commands.push(BrowserCommand::LoadUrl(u.clone()));
            },
            None => {},
        }
        let ghost prefix = commands@;
        let n = self.scripts.len();
        for i in 0..n
            invariant
                n == self.scripts.len(),
                commands@ == prefix + self.scripts@.take(i as int).map_values(
                    |c: String| BrowserCommand::ExecuteScript(c),
                ),
        {
            commands.push(BrowserCommand::ExecuteScript(self.scripts[i].clone()));
            assert(self.scripts@.take(i + 1 as int) =~= self.scripts@.take(i as int).push(
                self.scripts@[i as int],
            ));
            assert(prefix + self.scripts@.take(i + 1 as int).map_values(
                |c: String| BrowserCommand::ExecuteScript(c),
            ) =~= commands@);
        }
        assert(self.scripts@.take(n as int) =~= self.scripts@);
        assert(commands@ =~= replay(self.url, self.scripts@));
        self.browser = Some(browser);
        let update = self.on_size_invalidated();
        (commands, update)
    }

    /// In-place activation: the control now lives in `window`; its size is brought up to date.
    pub fn activate(&mut self, window: isize) -> (r: SizeUpdate)
        ensures
            final(self)@ == (BrowserStateView { window: Some(window), ..old(self)@ }),
            r == spec_size_invalidated(final(self)@),
    {
        self.window = Some(window);
        self.on_size_invalidated()
    }

    /// `IOleObject::SetExtent` for the content aspect, with the size already in pixels.
    pub fn set_extent(&mut self, aspect: DataViewAspect, width: i32, height: i32) -> (r: SizeUpdate)
        requires
            aspect == DataViewAspect::Content,
        ensures
            final(self)@ == spec_set_extent(old(self)@, width, height),
            r == spec_size_invalidated(final(self)@),
    {
        self.width = width;
        self.height = height;
        self.on_size_invalidated()
    }

    /// `IOleObject::GetExtent` for the content aspect.
    pub fn get_extent(&self, aspect: DataViewAspect) -> (r: Size)
        requires
            aspect == DataViewAspect::Content,
        ensures
            r == spec_get_extent(self@),
    {
        Size { width: self.width as u32, height: self.height as u32 }
    }

    /// `IWebBrowserApp::get_Visible`.
    pub fn get_visible(&self) -> (r: VariantBool)
        ensures
            r == variant_bool_of(self.visible),
    {
        VariantBool::from(self.visible)
    }

    /// `IWebBrowserApp::put_Visible`.
    pub fn set_visible(&mut self, vis: VariantBool)
        ensures
            final(self)@ == spec_set_visible(old(self)@, vis),
    {
        self.visible = bool::from(vis);
    }

    /// `IWebBrowser2::get_Silent`.
    pub fn get_silent(&self) -> (r: VariantBool)
        ensures
            r == variant_bool_of(self.silent),
    {
        VariantBool::from(self.silent)
    }

    /// `IWebBrowser2::put_Silent`.
    pub fn set_silent(&mut self, silent: VariantBool)
        ensures
            final(self)@ == spec_set_silent(old(self)@, silent),
    {
        self.silent = bool::from(silent);
    }

    /// `IOleWindow::GetWindow`: the host window, which exists once the control is activated.
    pub fn get_window(&self) -> (r: isize)
        requires
            self.window is Some,
        ensures
            r == self.window->0,
    {
        self.window.unwrap()
    }
}


/// `DISPID_BEFORENAVIGATE2`, the event by which BYOND learns of a navigation.
pub const DISPID_BEFORENAVIGATE2: u32 = 250;

/// `VT_I4`.
pub const VT_I4: u16 = 3;
/// `VT_BSTR`.
pub const VT_BSTR: u16 = 8;
/// `VT_DISPATCH`.
pub const VT_DISPATCH: u16 = 9;
/// `VT_BOOL`.
pub const VT_BOOL: u16 = 11;
/// `VT_VARIANT`.
pub const VT_VARIANT: u16 = 12;
/// `VT_UI1`.
pub const VT_UI1: u16 = 17;
/// `VT_ARRAY`.
pub const VT_ARRAY: u16 = 0x2000;
/// `VT_BYREF`.
pub const VT_BYREF: u16 = 0x4000;

/// One argument of a `BeforeNavigate2` event, in the order `DISPPARAMS` holds them (the last
/// parameter of the event first).
#[derive(PartialEq, Eq, Debug)]
pub enum NavigateArg {
    /// `Cancel`, a reference to a `VARIANT_BOOL` holding the given value.
    Cancel(bool),
    /// `Headers`, a reference to a variant holding this string.
    Headers(String),
    /// `PostData`, a reference to a variant holding an empty byte array.
    PostData,
    /// `TargetFrameName`, a reference to a variant holding this string.
    TargetFrameName(String),
    /// `Flags`, a reference to a variant holding this 32-bit integer.
    Flags(i32),
    /// `URL`, a reference to a variant holding this string.
    Url(String),
    /// `pDisp`, the control itself as `IDispatch`.
    Browser,
}

impl NavigateArg {
    pub open spec fn spec_var_type(&self) -> u16 {
        match self {
            NavigateArg::Cancel(_) => 0x400B,
            NavigateArg::Browser => VT_DISPATCH,
            _ => 0x400C,
        }
    }

    pub open spec fn spec_value_var_type(&self) -> Option<u16> {
        match self {
            NavigateArg::Headers(_) => Some(VT_BSTR),
            NavigateArg::TargetFrameName(_) => Some(VT_BSTR),
            NavigateArg::Url(_) => Some(VT_BSTR),
            NavigateArg::PostData => Some(0x2011),
            NavigateArg::Flags(_) => Some(VT_I4),
            _ => None,
        }
    }

    /// The `VARTYPE` of the argument itself.
    pub fn var_type(&self) -> (r: u16)
        ensures
            r == self.spec_var_type(),
            self is Cancel ==> r == VT_BYREF | VT_BOOL,
            !(self is Cancel) && !(self is Browser) ==> r == VT_BYREF | VT_VARIANT,
    {
        assert(VT_BYREF | VT_BOOL == 0x400Bu16) by (bit_vector);
        assert(VT_BYREF | VT_VARIANT == 0x400Cu16) by (bit_vector);
        match self {
            NavigateArg::Cancel(_) => VT_BYREF | VT_BOOL,
            NavigateArg::Browser => VT_DISPATCH,
            _ => VT_BYREF | VT_VARIANT,
        }
    }

    /// The `VARTYPE` of the variant that a by-reference variant argument points to.
    pub fn value_var_type(&self) -> (r: Option<u16>)
        ensures
            r == self.spec_value_var_type(),
            self is PostData ==> r == Some((VT_ARRAY | VT_UI1) as u16),
    {
        assert(VT_ARRAY | VT_UI1 == 0x2011u16) by (bit_vector);
        match self {
            NavigateArg::Headers(_) => Some(VT_BSTR),
            NavigateArg::TargetFrameName(_) => Some(VT_BSTR),
            NavigateArg::Url(_) => Some(VT_BSTR),
            NavigateArg::PostData => Some(VT_ARRAY | VT_UI1),
            NavigateArg::Flags(_) => Some(VT_I4),
            _ => None,
        }
    }
}

pub open spec fn spec_before_navigate2_args(url: String) -> Seq<NavigateArg> {
    seq![
        NavigateArg::Cancel(false),
        NavigateArg::Headers(url),
        NavigateArg::PostData,
        NavigateArg::TargetFrameName(url),
        NavigateArg::Flags(0),
        NavigateArg::Url(url),
        NavigateArg::Browser,
    ]
}

/// The arguments of the `BeforeNavigate2` event fired at BYOND's event sink when a page asked
/// for a `byond://` URL: the URL is passed as the URL, the target frame name and the headers,
/// with no flags, no post data and `Cancel` false.
pub fn url_navigated(url: String) -> (r: Vec<NavigateArg>)
    ensures
        r@ == spec_before_navigate2_args(url),
{
    let mut args: Vec<NavigateArg> = Vec::new();
    args.push(NavigateArg::Cancel(false));
    args.push(NavigateArg::Headers(url.clone()));
    args.push(NavigateArg::PostData);
    args.push(NavigateArg::TargetFrameName(url.clone()));
    args.push(NavigateArg::Flags(0));
    args.push(NavigateArg::Url(url));
    args.push(NavigateArg::Browser);
    assert(args@ =~= spec_before_navigate2_args(url));
    args
}

/// What the control does with one event from Chromium's UI thread.
pub enum EventResponse {
    /// The browser was created: run these commands on it, then these resizes.
    Replay(Vec<BrowserCommand>, SizeUpdate),
    /// Fire `BeforeNavigate2` at BYOND's event sink, if it has one, with these arguments.
    Navigated(Vec<NavigateArg>),
}

impl<B> WebBrowserState<B> {
    /// Handles one event taken from the queue. A browser is created at most once.
    pub fn process_event(&mut self, event: Event<B>) -> (r: EventResponse)
        requires
            event is BrowserCreated ==> old(self).browser is None,
        ensures
            match event {
                Event::BrowserCreated(b) => {
                    &&& final(self)@ == spec_browser_created(old(self)@, b).0
                    &&& r matches EventResponse::Replay(cmds, update)
                    &&& cmds@ == spec_browser_created(old(self)@, b).1
                    &&& update == spec_size_invalidated(final(self)@)
                },
                Event::UrlNavigate(url) => {
                    &&& final(self)@ == old(self)@
                    &&& r matches EventResponse::Navigated(args)
                    &&& args@ == spec_before_navigate2_args(url)
                },
            },
    {
        match event {
            Event::BrowserCreated(b) => {
                let (cmds, update) = self.browser_created(b);
                EventResponse::Replay(cmds, update)
            },
            Event::UrlNavigate(url) => EventResponse::Navigated(url_navigated(url)),
        }
    }
}


impl<B> Default for WebBrowserState<B> {
    fn default() -> (r: WebBrowserState<B>)
        ensures
            r@ == fresh_view::<B>(),
    {
        WebBrowserState::new()
    }
}

} // verus!
