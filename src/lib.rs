//! A small notification daemon: a shared store of notifications, the loop
//! that applies upstream events to it, and a line protocol to query it.

/// Errors that stop the daemon.
pub mod error;

/// Configuration values of the display side.
pub mod config;

/// The dispatcher's step for each event.
pub mod dispatch;

/// Notifications and their shared store.
pub mod notification;

/// The line protocol served to rofication clients.
pub mod rofi;

/// Text helpers: trimming, numbers, decimal writing.
pub mod text;

use vstd::prelude::*;

verus! {

/// Startup configuration.
#[derive(Debug)]
pub struct Config {
    /// Local path to file representing domain socket
    pub socket_path: String,
    /// Duration to wait for incoming d-bus messages, in milliseconds
    pub dbus_poll_timeout: u16,
}

} // verus!
