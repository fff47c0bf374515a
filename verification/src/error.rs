//! Error types of the capture side and of the portal side.

use vstd::prelude::*;

verus! {

#[verifier::external_type_specification]
#[verifier::external_body]
pub struct ExIoError(std::io::Error);

/// Errors of monitor detection, capture and encoding.
#[derive(Debug)]
pub enum CoreError {
    PipeWire(String),
    NoMonitors,
    MonitorNotFound(String),
    Io(std::io::Error),
}

/// Errors of the portal session and of input injection.
#[derive(Debug)]
pub enum PortalError {
    Portal(String),
    Denied,
    NotAuthorized,
    RestoreTokenNotFound,
    Libei(String),
    Io(std::io::Error),
}

} // verus!
