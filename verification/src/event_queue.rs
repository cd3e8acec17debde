use vstd::prelude::*;

verus! {

/// What Chromium's UI thread tells BYOND's main thread. All communication in that direction
/// goes through this type; the browser handle type is left to the caller.
pub enum Event<B> {
    /// Chromium created the browser object after `CefBrowserHost::create_browser`. Actions that
    /// should have been taken on the browser up to this point were queued and run now.
    BrowserCreated(B),
    /// The page tried to perform a request to a special protocol such as `byond://`. The request
    /// has already been cancelled; BYOND needs to parse and execute it.
    UrlNavigate(String),
}

} // verus!
