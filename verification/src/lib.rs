//! Decision logic of a loader that hosts a Chromium browser inside BYOND's
//! dream seeker in place of the Internet Explorer ActiveX control.

pub mod structs;

pub mod message_loop;
pub mod event_queue;
pub mod cef;
pub mod web_browser;
pub mod hooks;
pub mod constants;
pub mod window;
