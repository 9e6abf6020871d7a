//! The error taxonomy of the library: every failing operation reports which
//! stage went wrong, together with a human-readable message.

use vstd::prelude::*;

verus! {

/// What went wrong, and at which stage.
///
/// - `Input`: bad user-supplied data (missing username, undecodable password
///   file); detected before any network traffic.
/// - `Network`: the transport itself failed (connection refused, timeout);
///   raised by the surrounding program, never by the library.
/// - `Protocol`: the server answered, but not in the expected shape (not JSON,
///   or a required field missing).
/// - `Business`: the server answered well-formed data that denies the request
///   (login rejected).
#[derive(Debug, Clone, PartialEq, Eq)]
pub enum ApiError {
    Input(String),
    Network(String),
    Protocol(String),
    Business(String),
}

impl ApiError {
    /// The message carried by the error, whichever stage produced it.
    pub open spec fn message_spec(&self) -> Seq<char> {
        match self {
            ApiError::Input(m) => m@,
            ApiError::Network(m) => m@,
            ApiError::Protocol(m) => m@,
            ApiError::Business(m) => m@,
        }
    }

    /// The carried message, for reporting to the user.
    pub fn message(&self) -> (r: String)
        ensures
            r@ == self.message_spec(),
    {
        match self {
            ApiError::Input(m) => m.clone(),
            ApiError::Network(m) => m.clone(),
            ApiError::Protocol(m) => m.clone(),
            ApiError::Business(m) => m.clone(),
        }
    }
}

} // verus!
