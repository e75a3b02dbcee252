//! The error taxonomy of the library.
//!
//! Every fallible operation returns a typed `Result`; nothing panics or
//! unwinds. The variants mirror the failure classes of the request pipeline:
//! server-reported HTTP errors, transport failures, URL composition failures,
//! envelope/payload parse failures, and caller-side misuse.

use vstd::prelude::*;

verus! {

/// A server-reported request failure: a non-success HTTP status together with
/// the transport layer's human-readable description.
#[derive(Clone, Debug, PartialEq, Eq)]
pub struct RequestError {
    /// Error code (HTTP status).
    pub code: u16,

    /// Optional human-readable description of the failure.
    pub reason: Option<String>,
}

/// The error type shared by every operation of the library.
#[derive(Clone, Debug, PartialEq, Eq)]
pub enum ApiError {
    /// The server returned a non-success HTTP status code.
    Request {
        /// Status code and reason text of the failed request.
        error: RequestError,
    },

    /// A username/password credential exchange was rejected.
    AuthenticationError {},

    /// An unexpected condition that should not arise in normal operation.
    UnknownError {},

    /// The base URL and endpoint could not be composed into a valid URL.
    UrlError {},

    /// The response body did not match the expected envelope or payload shape.
    ParseError {
        /// The raw response text that failed to parse, kept for diagnosis.
        text: String,
    },

    /// Connecting to the server failed before any HTTP response arrived.
    ConnectionError {},

    /// The operation requires authentication and none is present.
    LoggedOut {},

    /// Caller-side misuse: a missing Session attachment or missing required
    /// fields in a create call.
    UsageError {},
}

} // verus!
