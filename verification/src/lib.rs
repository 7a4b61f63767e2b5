//! A minimal concurrent TLS-terminating TCP server library.
//!
//! The verified core covers the server-configuration contract (certificate
//! chain and private key selection), the fixed response payload, the
//! per-connection handler state machine, and the dispatcher decisions that
//! isolate per-connection failures from the listener loop.

use vstd::prelude::*;

pub mod config;
pub mod dispatcher;
pub mod handler;
pub mod response;

verus! {

/// Every failure the server distinguishes, grouped by where it strikes:
/// startup failures abort the process, per-connection failures are confined
/// to one handler task, and an accept failure ends the listener loop.
#[derive(Clone, Copy, Debug, PartialEq, Eq, Structural)]
pub enum ServerError {
    AddressResolution,
    BindFailed,
    InvalidCertificate,
    InvalidKey,
    NoKeyProvided,
    ConfigurationRejected,
    AcceptFailed,
    HandshakeFailed,
    WriteFailed,
}

/// A startup error aborts the process before any connection is accepted.
pub open spec fn spec_is_fatal(e: ServerError) -> bool {
    match e {
        ServerError::AddressResolution => true,
        ServerError::BindFailed => true,
        ServerError::InvalidCertificate => true,
        ServerError::InvalidKey => true,
        ServerError::NoKeyProvided => true,
        ServerError::ConfigurationRejected => true,
        ServerError::AcceptFailed => true,
        ServerError::HandshakeFailed => false,
        ServerError::WriteFailed => false,
    }
}

impl ServerError {
    /// Whether this error ends the process (startup and listener-level
    /// errors) rather than only the failing connection's task.
    pub fn is_fatal(&self) -> (r: bool)
        ensures
            r == spec_is_fatal(*self),
    {
        match self {
            ServerError::HandshakeFailed => false,
            ServerError::WriteFailed => false,
            _ => true,
        }
    }
}

} // verus!

