use vstd::prelude::*;

verus! {

/// `WM_SIZE`.
pub const WM_SIZE: u32 = 0x0005;

/// `WM_TIMER`.
pub const WM_TIMER: u32 = 0x0113;

/// Sent to the control's host window whenever Chromium queued an event for BYOND's thread.
pub const WM_BROWSER_EVENTS: u32 = 0x0400;

/// What the control's host window does with a message, before handing it to `DefWindowProc`.
#[derive(Clone, Copy, PartialEq, Eq, Structural, Debug)]
pub struct HostMessageAction {
    /// Arm timer 0 of the window for 1 millisecond.
    pub arm_timer: bool,
    /// Log which window has the keyboard focus.
    pub log_focus: bool,
    /// Log the message number.
    pub log_message: bool,
    /// Take the queued events and handle them.
    pub process_events: bool,
}

/// Decides what the host window's procedure does with `message`.
pub fn host_message_action(message: u32) -> (r: HostMessageAction)
    ensures
        r.arm_timer == (message == WM_SIZE),
        r.log_focus == (message == WM_TIMER),
        r.log_message == (message != WM_SIZE && message != WM_TIMER),
        r.process_events == (message == WM_BROWSER_EVENTS),
{
    HostMessageAction {
        arm_timer: message == WM_SIZE,
        log_focus: message == WM_TIMER,
        log_message: message != WM_SIZE && message != WM_TIMER,
        process_events: message == WM_BROWSER_EVENTS,
    }
}

} // verus!
