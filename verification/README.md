# dreamloader

A loader that starts BYOND's dream seeker in its own process and replaces the Internet
Explorer ActiveX control that dream seeker embeds with a Chromium browser.

- `src/` is the library, written in Verus and proved: the message loop that drives Chromium from
  BYOND's thread (`message_loop`), the browser control's state, its queue of requests made before
  the browser exists and the `BeforeNavigate2` arguments it fires (`web_browser`), Chromium's
  handler decisions (`cef`), the hooks' decisions (`hooks`), OLE verbs (`constants`), the host
  window (`window`) and the COM value types (`structs`).
- `tests/` exercises the library on concrete values.
- `app/` is the Windows program around it: PE loading, detours, COM classes and Chromium
  callbacks, each delegating its decision to the library.
