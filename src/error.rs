use vstd::prelude::*;

verus! {

/// Cause of a fatal failure, carried to the process boundary by a shutdown event.
#[derive(Debug, PartialEq, Eq)]
pub enum Error {
    /// An input/output failure: binding the socket, accepting a client, spawning a thread.
    Io(String),
    /// The upstream notification source failed to register or stopped.
    Upstream(String),
    /// The event channel was closed before a shutdown arrived.
    Channel(String),
    /// A window geometry was not of the form `WIDTHxHEIGHT+X+Y`.
    Geometry(String),
    /// A color was not a hexadecimal color string.
    Color(String),
    /// The configuration file could not be read or decoded.
    Config(String),
}

} // verus!
