//! The session type of the library.
//!
//! A [`Client`] holds the base URL of the server and, once authenticated, the
//! bearer token. It is a plain value: state-changing calls return a new
//! snapshot rather than sharing mutable state, so independently held handles
//! never observe a half-updated session.

use vstd::prelude::*;

use crate::api::Api;
use crate::api::spec_api_url;
use crate::api::spec_auth_header;
use crate::api::spec_payload;
use crate::api::spec_typed_error;
use crate::decode::decode_login;
use crate::decode::spec_login_ok;
use crate::decode::spec_req_str;
use crate::encode::encode_login;
use crate::encode::is_login_body;
use crate::api::plan_shape;
use crate::errors::ApiError;
use crate::handlers::CollectionHandler;
use crate::handlers::PostHandler;
use crate::http::HttpMethod;
use crate::http::HttpResponse;
use crate::http::RequestPlan;
use crate::json::json_dump;
use crate::requests::Login;
use crate::urls::url_ok;

verus! {

/// The desired authentication method.
#[derive(Clone, Debug)]
pub enum Auth {
    /// Authenticate with an API token.
    Token(String),

    /// Authenticate with a username and password.
    Login {
        /// Login username.
        username: String,

        /// Login password.
        password: String,
    },
}

/// Main session struct: the base URL and the optional bearer token.
#[derive(Clone, Debug, PartialEq, Eq)]
pub struct Client {
    base_url: String,
    token: Option<String>,
}

impl Client {
    /// The characters of the base URL.
    pub closed spec fn spec_base(self) -> Seq<char> {
        self.base_url@
    }

    /// The stored token, if any.
    pub closed spec fn spec_token(self) -> Option<String> {
        self.token
    }

    /// The characters of the stored token, if any.
    pub open spec fn spec_token_view(self) -> Option<Seq<char>> {
        self.spec_token().deep_view()
    }

    /// Whether the session is authenticated: exactly when a token is stored.
    pub open spec fn spec_is_authenticated(self) -> bool {
        self.spec_token() is Some
    }

    /// Creates a new client with a base URL and no token.
    pub fn new(base: String) -> (c: Client)
        ensures
            c.spec_base() == base@,
            c.spec_token() is None,
            !c.spec_is_authenticated(),
    {
        Client { base_url: base, token: None }
    }

    /// Retrieves the base URL.
    pub fn url(&self) -> (r: String)
        ensures
            r@ == self.spec_base(),
    {
        self.base_url.clone()
    }

    /// Retrieves the access token.
    pub fn token(&self) -> (r: Option<String>)
        ensures
            r == self.spec_token(),
    {
        match &self.token {
            Some(t) => Some(t.clone()),
            None => None,
        }
    }

    /// Checks if the session is authenticated.
    pub fn is_authenticated(&self) -> (r: bool)
        ensures
            r == self.spec_is_authenticated(),
    {
        self.token.is_some()
    }

    /// Returns a snapshot of this session, equal to it in every field.
    pub fn duplicate(&self) -> (c: Client)
        ensures
            c == *self,
    {
        Client { base_url: self.base_url.clone(), token: self.token() }
    }

    /// Returns a new [`Api`] executor over a snapshot of this session.
    pub fn api(&self) -> (a: Api)
        ensures
            a.spec_client() == *self,
    {
        Api::new(self.duplicate())
    }
}

/// What an authentication call asks of the caller next: nothing (a literal
/// token was stored) or one credential-exchange request.
#[derive(Clone, Debug)]
pub enum AuthFlow {
    /// The token was stored directly; carries the updated session snapshot.
    Authenticated(Client),

    /// The credentials must be exchanged over the network: send this request
    /// and hand the outcome to [`Client::finish_login`].
    Exchange(RequestPlan),
}

impl Client {
    /// Authenticates with an [`Auth`] value. A literal token is stored at
    /// once; a username/password pair yields the login request to send, and
    /// [`Client::finish_login`] applies the server's answer.
    pub fn authenticate(&mut self, auth: Auth) -> (r: Result<AuthFlow, ApiError>)
        ensures
            match auth {
                Auth::Token(t) => {
                    &&& final(self).spec_base() == old(self).spec_base()
                    &&& final(self).spec_token() == Some(t)
                    &&& final(self).spec_is_authenticated()
                    &&& r matches Ok(AuthFlow::Authenticated(c)) && c == *final(self)
                },
                Auth::Login { username, password } => {
                    &&& *final(self) == *old(self)
                    &&& (match r {
                        Ok(flow) => {
                            &&& url_ok(old(self).spec_base(), "/api"@ + "/auth/login"@)
                            &&& flow matches AuthFlow::Exchange(plan)
                            &&& plan.method == HttpMethod::Post
                            &&& plan.url@ == spec_api_url(old(self).spec_base(), "/auth/login"@)
                            &&& plan.auth_header.deep_view() == spec_auth_header(
                                old(self).spec_token_view(),
                            )
                            &&& plan.query_token is None
                            &&& (plan.body matches Some(b) && is_login_body(
                                Login { alias: username, pass: password },
                                b@,
                            ))
                        },
                        Err(e) => e == (ApiError::UrlError {}) && !url_ok(
                            old(self).spec_base(),
                            "/api"@ + "/auth/login"@,
                        ),
                    })
                },
            },
    {
        match auth {
            Auth::Token(token) => {
                self.token = Some(token);
                Ok(AuthFlow::Authenticated(self.duplicate()))
            },
            Auth::Login { username, password } => {
                let login = Login { alias: username, pass: password };
                let body_value = encode_login(&login);
                let body = json_dump(&body_value);
                match self.api().post("/auth/login", Some(body)) {
                    Ok(plan) => {
                        proof {
                            assert(plan.body matches Some(b) && is_login_body(login, b@));
                        }
                        Ok(AuthFlow::Exchange(plan))
                    },
                    Err(e) => Err(e),
                }
            },
        }
    }

    /// Applies the server's answer to a login exchange. On success the
    /// issued token is stored and a snapshot returned; a rejection (HTTP 401)
    /// is an authentication error; every failure leaves the session
    /// unchanged.
    pub fn finish_login(&mut self, resp: &Option<HttpResponse>) -> (r: Result<Client, ApiError>)
        ensures
            final(self).spec_base() == old(self).spec_base(),
            match r {
                Ok(c) => {
                    &&& spec_payload(*resp) matches Some(d)
                    &&& spec_login_ok(d)
                    &&& final(self).spec_token_view() == Some(
                        spec_req_str(d, "access_token"@)->Some_0,
                    )
                    &&& c == *final(self)
                },
                Err(e) => {
                    &&& *final(self) == *old(self)
                    &&& (match *resp {
                        Some(h) => if h.status == 401 {
                            e == (ApiError::AuthenticationError {})
                        } else {
                            spec_typed_error(*resp, |d: serde_json::Value| spec_login_ok(d), e)
                        },
                        None => spec_typed_error(
                            *resp,
                            (|d: serde_json::Value| spec_login_ok(d)),
                            e,
                        ),
                    })
                },
            },
    {
        match resp {
            Some(h) if h.status == 401 => {
                return Err(ApiError::AuthenticationError {});
            },
            _ => {},
        }
        let data = match self.api().extract_response(resp) {
            Ok(d) => d,
            Err(e) => {
                return Err(e);
            },
        };
        match decode_login(&data) {
            Some(login) => {
                self.token = Some(login.access_token);
                Ok(self.duplicate())
            },
            None => match resp {
                Some(h) => Err(ApiError::ParseError { text: h.body.clone() }),
                None => Err(ApiError::UnknownError {}),
            },
        }
    }

    /// Begins a logout: valid only while authenticated, it yields the
    /// session-deletion request to send, and [`Client::finish_logout`]
    /// applies the server's answer. A logged-out session is left unchanged
    /// and refused.
    pub fn logout(&self) -> (r: Result<RequestPlan, ApiError>)
        ensures
            match r {
                Ok(plan) => {
                    &&& self.spec_is_authenticated()
                    &&& url_ok(self.spec_base(), "/api"@ + "/auth/me"@)
                    &&& plan.method == HttpMethod::Delete
                    &&& plan.url@ == spec_api_url(self.spec_base(), "/auth/me"@)
                    &&& plan.auth_header.deep_view() == spec_auth_header(self.spec_token_view())
                    &&& plan.query_token is None
                    &&& plan.body is None
                },
                Err(e) => if !self.spec_is_authenticated() {
                    e == (ApiError::LoggedOut {})
                } else {
                    e == (ApiError::UrlError {}) && !url_ok(
                        self.spec_base(),
                        "/api"@ + "/auth/me"@,
                    )
                },
            },
    {
        if self.is_authenticated() {
            self.api().delete("/auth/me")
        } else {
            Err(ApiError::LoggedOut {})
        }
    }

    /// Applies the server's answer to a logout request: on any success
    /// status the token is cleared and a snapshot returned; every failure
    /// leaves the session unchanged.
    pub fn finish_logout(&mut self, resp: &Option<HttpResponse>) -> (r: Result<Client, ApiError>)
        ensures
            final(self).spec_base() == old(self).spec_base(),
            match r {
                Ok(c) => {
                    &&& (*resp) matches Some(h) && !crate::http::status_is_error(h.status)
                    &&& final(self).spec_token() is None
                    &&& c == *final(self)
                },
                Err(e) => {
                    &&& *final(self) == *old(self)
                    &&& (match *resp {
                        None => e == (ApiError::ConnectionError {}),
                        Some(h) => {
                            &&& crate::http::status_is_error(h.status)
                            &&& e matches ApiError::Request { error }
                            &&& error.code == h.status
                            &&& error.reason.deep_view() == h.reason.deep_view()
                        },
                    })
                },
            },
    {
        match self.api().delete_result(resp) {
            Ok(_) => {
                self.token = None;
                Ok(self.duplicate())
            },
            Err(e) => Err(e),
        }
    }
}

impl Client {
    /// Asks for the user handler's current-user fetch: refused while logged
    /// out; otherwise the request to send, or nothing where the base URL is
    /// malformed (the fetch failure is swallowed, as
    /// [`crate::handlers::UserHandler::new`] constructs either way).
    pub fn user(&self) -> (r: Result<Option<RequestPlan>, ApiError>)
        ensures
            match r {
                Ok(op) => {
                    &&& self.spec_is_authenticated()
                    &&& (match op {
                        Some(plan) => {
                            &&& plan_shape(*self, HttpMethod::Get, "/me"@, plan)
                            &&& plan.query_token is None
                            &&& plan.body is None
                        },
                        None => !url_ok(self.spec_base(), "/api"@ + "/me"@),
                    })
                },
                Err(e) => e == (ApiError::LoggedOut {}) && !self.spec_is_authenticated(),
            },
    {
        if self.is_authenticated() {
            match self.api().get("/me") {
                Ok(plan) => Ok(Some(plan)),
                Err(_) => Ok(None),
            }
        } else {
            Err(ApiError::LoggedOut {})
        }
    }

    /// Returns a handler for post-level operations over a snapshot of this
    /// session.
    pub fn posts(&self) -> (h: PostHandler)
        ensures
            h.spec_client() == *self,
    {
        PostHandler::new(self.duplicate())
    }

    /// Returns a handler for collection-level operations over a snapshot of
    /// this session.
    pub fn collections(&self) -> (h: CollectionHandler)
        ensures
            h.spec_client() == *self,
    {
        CollectionHandler::new(self.duplicate())
    }
}

} // verus!
