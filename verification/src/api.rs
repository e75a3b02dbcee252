//! The request executor.
//!
//! [`Api`] translates a (session, endpoint, method, optional body) tuple into
//! a [`RequestPlan`], and translates the raw response of such a request back
//! into the unwrapped `data` payload of the server's `{code, data}` envelope,
//! or into the typed error the outcome calls for.

use vstd::prelude::*;
use vstd::string::StringExecFns;

use crate::client::Client;
use crate::errors::ApiError;
use crate::errors::RequestError;
use crate::http::HttpMethod;
use crate::http::HttpResponse;
use crate::http::RequestPlan;
use crate::decode::decode_envelope;
use crate::http::status_is_error;
use crate::json::jnum_u64;
use crate::json::jobj;
use crate::json::jparse;
use crate::json::json_parse;
use crate::urls::url_join_ok;
use crate::urls::url_ok;
use crate::urls::url_parse;

verus! {

/// The full URL of a request: the base URL, the fixed `/api` prefix, and the
/// endpoint, concatenated exactly.
pub open spec fn spec_api_url(base: Seq<char>, endpoint: Seq<char>) -> Seq<char> {
    base + "/api"@ + endpoint
}

/// The `Authorization` header a session sends: `Token <token>` when a token
/// is stored, nothing otherwise.
pub open spec fn spec_auth_header(token: Option<Seq<char>>) -> Option<Seq<char>> {
    match token {
        Some(t) => Some("Token "@ + t),
        None => None,
    }
}

/// The unwrapped `data` payload of a response body, where the body is a JSON
/// object with an integral `code` that fits a `u16` and a `data` field; `None`
/// where the body does not match that envelope shape.
pub open spec fn spec_envelope_data(body: Seq<char>) -> Option<serde_json::Value> {
    match jparse(body) {
        Some(env) => match jobj(env) {
            Some(m) => if m.contains_key("code"@) && jnum_u64(m["code"@]) is Some && jnum_u64(
                m["code"@],
            )->Some_0 <= 0xffff && m.contains_key("data"@) {
                Some(m["data"@])
            } else {
                None
            },
            None => None,
        },
        None => None,
    }
}

/// What extracting a typed payload from a raw outcome yields: a transport
/// failure is a connection error, an error status is a request error carrying
/// the status and reason, and a success status yields the envelope's `data`
/// or a parse error carrying the raw body text.
pub open spec fn spec_extract(resp: Option<HttpResponse>, r: Result<
    serde_json::Value,
    ApiError,
>) -> bool {
    match resp {
        None => r == Err::<serde_json::Value, ApiError>(ApiError::ConnectionError {}),
        Some(h) => if status_is_error(h.status) {
            &&& r matches Err(ApiError::Request { error })
            &&& error.code == h.status
            &&& error.reason.deep_view() == h.reason.deep_view()
        } else {
            match spec_envelope_data(h.body@) {
                Some(d) => r == Ok::<serde_json::Value, ApiError>(d),
                None => r matches Err(ApiError::ParseError { text }) && text@ == h.body@,
            }
        },
    }
}

/// The envelope payload a raw outcome yields, where the outcome is an HTTP
/// response with a success status whose body matches the envelope shape.
pub open spec fn spec_payload(resp: Option<HttpResponse>) -> Option<serde_json::Value> {
    match resp {
        Some(h) => if !status_is_error(h.status) {
            spec_envelope_data(h.body@)
        } else {
            None
        },
        None => None,
    }
}

/// The error a typed operation reports for a raw outcome, given which
/// payloads the operation's decoder accepts: a transport failure is a
/// connection error, an error status is a request error, and a body whose
/// envelope or payload does not decode is a parse error carrying the raw
/// text.
pub open spec fn spec_typed_error(
    resp: Option<HttpResponse>,
    ok: spec_fn(serde_json::Value) -> bool,
    e: ApiError,
) -> bool {
    match resp {
        None => e == (ApiError::ConnectionError {}),
        Some(h) => if status_is_error(h.status) {
            &&& e matches ApiError::Request { error }
            &&& error.code == h.status
            &&& error.reason.deep_view() == h.reason.deep_view()
        } else {
            match spec_envelope_data(h.body@) {
                None => e matches ApiError::ParseError { text } && text@ == h.body@,
                Some(d) => !ok(d) && (e matches ApiError::ParseError { text } && text@
                    == h.body@),
            }
        },
    }
}

/// The shape every request plan shares: a well-formed composed URL, the
/// operation's method, and the session's authorization header. The body and
/// the query token are stated by each operation itself.
pub open spec fn plan_shape(
    c: Client,
    method: HttpMethod,
    endpoint: Seq<char>,
    plan: RequestPlan,
) -> bool {
    &&& url_ok(c.spec_base(), "/api"@ + endpoint)
    &&& plan.method == method
    &&& plan.url@ == spec_api_url(c.spec_base(), endpoint)
    &&& plan.auth_header.deep_view() == spec_auth_header(c.spec_token_view())
}

/// The one way a plan is refused: the base URL and the path cannot be
/// composed.
pub open spec fn plan_refused(c: Client, endpoint: Seq<char>, e: ApiError) -> bool {
    e == (ApiError::UrlError {}) && !url_ok(c.spec_base(), "/api"@ + endpoint)
}

/// Wrapper struct for the API: builds request plans and unwraps responses
/// over a session snapshot.
#[derive(Clone, Debug)]
pub struct Api {
    client: Client,
}

impl Api {
    /// The session snapshot the executor works over.
    pub closed spec fn spec_client(self) -> Client {
        self.client
    }

    /// Creates a new executor over the given session snapshot.
    pub fn new(client: Client) -> (a: Api)
        ensures
            a.spec_client() == client,
    {
        Api { client }
    }

    /// Fetches the base URL from the session.
    pub fn base(&self) -> (r: String)
        ensures
            r@ == self.spec_client().spec_base(),
    {
        self.client.url()
    }

    /// Fetches the API token from the session.
    pub fn token(&self) -> (r: Option<String>)
        ensures
            r == self.spec_client().spec_token(),
    {
        self.client.token()
    }

    /// Determines if the session is authenticated.
    pub fn is_authenticated(&self) -> (r: bool)
        ensures
            r == self.spec_client().spec_is_authenticated(),
    {
        self.client.is_authenticated()
    }

    /// Assembles an API URL from the base URL and an endpoint: exactly
    /// `base + "/api" + endpoint` when the base URL is well formed and the
    /// path joins onto it, and a URL error otherwise.
    pub fn url(&self, endpoint: &str) -> (r: Result<String, ApiError>)
        ensures
            match r {
                Ok(u) => u@ == spec_api_url(self.spec_client().spec_base(), endpoint@) && url_ok(
                    self.spec_client().spec_base(),
                    "/api"@ + endpoint@,
                ),
                Err(e) => e == (ApiError::UrlError {}) && !url_ok(
                    self.spec_client().spec_base(),
                    "/api"@ + endpoint@,
                ),
            },
    {
        let path = String::from_str("/api").concat(endpoint);
        let base = self.base();
        match url_parse(base.as_str()) {
            Some(u) => {
                if url_join_ok(&u, path.as_str()) {
                    Ok(base.concat(path.as_str()))
                } else {
                    Err(ApiError::UrlError {})
                }
            },
            None => Err(ApiError::UrlError {}),
        }
    }

    /// Assembles a request plan with default settings: the composed URL, the
    /// given method, the session's `Authorization` header if one is stored,
    /// and no body.
    pub fn request(&self, endpoint: &str, method: HttpMethod) -> (r: Result<RequestPlan, ApiError>)
        ensures
            match r {
                Ok(plan) => {
                    &&& url_ok(self.spec_client().spec_base(), "/api"@ + endpoint@)
                    &&& plan.method == method
                    &&& plan.url@ == spec_api_url(self.spec_client().spec_base(), endpoint@)
                    &&& plan.auth_header.deep_view() == spec_auth_header(
                        self.spec_client().spec_token_view(),
                    )
                    &&& plan.query_token is None
                    &&& plan.body is None
                },
                Err(e) => e == (ApiError::UrlError {}) && !url_ok(
                    self.spec_client().spec_base(),
                    "/api"@ + endpoint@,
                ),
            },
    {
        match self.url(endpoint) {
            Ok(u) => {
                let auth_header = match self.token() {
                    Some(t) => Some(String::from_str("Token ").concat(t.as_str())),
                    None => None,
                };
                Ok(
                    RequestPlan {
                        method,
                        url: u,
                        auth_header,
                        query_token: None,
                        body: None,
                    },
                )
            },
            Err(e) => Err(e),
        }
    }

    /// Extracts the envelope's `data` payload from a raw outcome, or the
    /// typed error the outcome calls for.
    pub fn extract_response(&self, resp: &Option<HttpResponse>) -> (r: Result<
        serde_json::Value,
        ApiError,
    >)
        ensures
            spec_extract(*resp, r),
    {
        match resp {
            None => Err(ApiError::ConnectionError {}),
            Some(h) => {
                if 400 <= h.status && h.status < 600 {
                    Err(
                        ApiError::Request {
                            error: RequestError { code: h.status, reason: clone_reason(&h.reason) },
                        },
                    )
                } else {
                    match json_parse(h.body.as_str()) {
                        Some(env) => match decode_envelope(&env) {
                            Some(rm) => Ok(rm.data),
                            None => Err(ApiError::ParseError { text: h.body.clone() }),
                        },
                        None => Err(ApiError::ParseError { text: h.body.clone() }),
                    }
                }
            },
        }
    }

    /// Builds the plan for a GET request.
    pub fn get(&self, endpoint: &str) -> (r: Result<RequestPlan, ApiError>)
        ensures
            match r {
                Ok(plan) => {
                    &&& url_ok(self.spec_client().spec_base(), "/api"@ + endpoint@)
                    &&& plan.method == HttpMethod::Get
                    &&& plan.url@ == spec_api_url(self.spec_client().spec_base(), endpoint@)
                    &&& plan.auth_header.deep_view() == spec_auth_header(
                        self.spec_client().spec_token_view(),
                    )
                    &&& plan.query_token is None
                    &&& plan.body is None
                },
                Err(e) => e == (ApiError::UrlError {}) && !url_ok(
                    self.spec_client().spec_base(),
                    "/api"@ + endpoint@,
                ),
            },
    {
        self.request(endpoint, HttpMethod::Get)
    }

    /// Builds the plan for a POST request carrying an optional JSON body.
    pub fn post(&self, endpoint: &str, body: Option<String>) -> (r: Result<RequestPlan, ApiError>)
        ensures
            match r {
                Ok(plan) => {
                    &&& url_ok(self.spec_client().spec_base(), "/api"@ + endpoint@)
                    &&& plan.method == HttpMethod::Post
                    &&& plan.url@ == spec_api_url(self.spec_client().spec_base(), endpoint@)
                    &&& plan.auth_header.deep_view() == spec_auth_header(
                        self.spec_client().spec_token_view(),
                    )
                    &&& plan.query_token is None
                    &&& plan.body == body
                },
                Err(e) => e == (ApiError::UrlError {}) && !url_ok(
                    self.spec_client().spec_base(),
                    "/api"@ + endpoint@,
                ),
            },
    {
        match self.request(endpoint, HttpMethod::Post) {
            Ok(plan) => Ok(
                RequestPlan {
                    method: plan.method,
                    url: plan.url,
                    auth_header: plan.auth_header,
                    query_token: plan.query_token,
                    body,
                },
            ),
            Err(e) => Err(e),
        }
    }

    /// Builds the plan for a DELETE request.
    pub fn delete(&self, endpoint: &str) -> (r: Result<RequestPlan, ApiError>)
        ensures
            match r {
                Ok(plan) => {
                    &&& url_ok(self.spec_client().spec_base(), "/api"@ + endpoint@)
                    &&& plan.method == HttpMethod::Delete
                    &&& plan.url@ == spec_api_url(self.spec_client().spec_base(), endpoint@)
                    &&& plan.auth_header.deep_view() == spec_auth_header(
                        self.spec_client().spec_token_view(),
                    )
                    &&& plan.query_token is None
                    &&& plan.body is None
                },
                Err(e) => e == (ApiError::UrlError {}) && !url_ok(
                    self.spec_client().spec_base(),
                    "/api"@ + endpoint@,
                ),
            },
    {
        self.request(endpoint, HttpMethod::Delete)
    }

    /// Settles the outcome of a DELETE request, which carries no envelope: a
    /// transport failure is a connection error, an error status is a request
    /// error, and any success status succeeds.
    pub fn delete_result(&self, resp: &Option<HttpResponse>) -> (r: Result<(), ApiError>)
        ensures
            match *resp {
                None => r == Err::<(), ApiError>(ApiError::ConnectionError {}),
                Some(h) => if status_is_error(h.status) {
                    &&& r matches Err(ApiError::Request { error })
                    &&& error.code == h.status
                    &&& error.reason.deep_view() == h.reason.deep_view()
                } else {
                    r == Ok::<(), ApiError>(())
                },
            },
    {
        match resp {
            None => Err(ApiError::ConnectionError {}),
            Some(h) => {
                if 400 <= h.status && h.status < 600 {
                    Err(
                        ApiError::Request {
                            error: RequestError { code: h.status, reason: clone_reason(&h.reason) },
                        },
                    )
                } else {
                    Ok(())
                }
            },
        }
    }
}

/// Copies an optional reason text, character for character.
fn clone_reason(reason: &Option<String>) -> (r: Option<String>)
    ensures
        r.deep_view() == reason.deep_view(),
{
    match reason {
        Some(s) => Some(s.clone()),
        None => None,
    }
}

} // verus!
