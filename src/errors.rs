//! Failures of the daemon.
use vstd::prelude::*;

verus! {

/// A failure of the daemon. Messages of outside failures are carried as text.
#[derive(Debug, Clone, PartialEq, Eq)]
pub enum Error {
    /// The desktop service failed a request.
    XDGError(String),
    /// The configuration file holds no valid configuration.
    ConfigParseError(String),
    /// The configuration file could not be read.
    ConfigReadError(String),
    /// The desktop service stopped sending shortcut events.
    UnexpectedEndOfKeys,
}

} // verus!
