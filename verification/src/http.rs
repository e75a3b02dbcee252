//! Plain descriptions of HTTP requests and responses.
//!
//! The library never touches the network itself. Every operation yields a
//! [`RequestPlan`]: a complete, self-contained description of the one HTTP
//! request the operation needs. The host application performs the exchange
//! and hands the outcome back as an `Option<HttpResponse>` (`None` for a
//! transport failure that produced no HTTP response at all).

use vstd::prelude::*;

verus! {

/// The HTTP methods the API consumes.
#[derive(Clone, Copy, Debug, PartialEq, Eq, Structural)]
pub enum HttpMethod {
    /// An HTTP GET request.
    Get,

    /// An HTTP POST request.
    Post,

    /// An HTTP DELETE request.
    Delete,
}

/// A complete description of one HTTP request.
///
/// Beyond the fields below, every request carries the fixed headers
/// `Accept: application/json` and `Content-Type: application/json`.
#[derive(Clone, Debug)]
pub struct RequestPlan {
    /// The HTTP method.
    pub method: HttpMethod,

    /// The full request URL: the session's base URL, the fixed `/api`
    /// prefix, and the endpoint.
    pub url: String,

    /// The value of the `Authorization` header (`Token <token>`), when the
    /// session is authenticated.
    pub auth_header: Option<String>,

    /// A per-entity access token to append as a `token` query parameter, for
    /// anonymous operations on link-shared entities.
    pub query_token: Option<String>,

    /// The JSON text of the request body, when the request carries one.
    pub body: Option<String>,
}

/// The raw outcome of one HTTP exchange, as the transport saw it.
#[derive(Clone, Debug)]
pub struct HttpResponse {
    /// The HTTP status code.
    pub status: u16,

    /// The transport's human-readable description of a failed request, kept
    /// for diagnostics.
    pub reason: Option<String>,

    /// The response body text.
    pub body: String,
}

/// Whether a status code counts as a failed request: the client-error and
/// server-error ranges.
pub open spec fn status_is_error(status: u16) -> bool {
    400 <= status < 600
}

} // verus!
