//! Top-level handlers: stateless helpers over a session for operations that
//! do not start from a fetched entity.
//!
//! Every network operation splits in two: a function that builds the one
//! [`RequestPlan`] the operation needs, after the operation's own checks, and
//! a function that settles the raw outcome into the typed result.

use vstd::prelude::*;
use vstd::string::StringExecFns;

use crate::api::plan_refused;
use crate::api::plan_shape;
use crate::builders::PostCreationBuilder;
use crate::api::spec_payload;
use crate::client::Client;
use crate::decode::decode_user;
use crate::decode::spec_user_ok;
use crate::decode::user_matches;
use crate::encode::encode_collection_params;
use crate::encode::encode_post_creation;
use crate::encode::is_collection_params_body;
use crate::encode::is_post_creation_body;
use crate::errors::ApiError;
use crate::http::HttpMethod;
use crate::http::HttpResponse;
use crate::http::RequestPlan;
use crate::json::json_dump;
use crate::models::Collection;
use crate::models::Post;
use crate::models::PostCreation;
use crate::models::User;
use crate::outcomes::attached_collection_list_result;
use crate::outcomes::attached_collection_result;
use crate::outcomes::attached_post_list_result;
use crate::outcomes::attached_post_result;
use crate::outcomes::finish_collection;
use crate::outcomes::finish_collection_list;
use crate::outcomes::finish_post;
use crate::outcomes::finish_post_list;

verus! {

/// Handler for user-level operations, holding the session and the cached
/// current-user info.
#[derive(Clone, Debug)]
pub struct UserHandler {
    client: Client,
    current: Option<User>,
}

impl UserHandler {
    /// The session the handler works over.
    pub closed spec fn spec_client(self) -> Client {
        self.client
    }

    /// The cached current-user info.
    pub closed spec fn spec_current(self) -> Option<User> {
        self.current
    }

    /// Creates a new handler over a session. `fetched` is the outcome of the
    /// current-user request that [`Client::user`] asked for, if one was sent.
    /// The handler always constructs: a failed or missing fetch, or an
    /// unauthenticated session, just leaves the cached user empty.
    pub fn new(client: Client, fetched: Option<HttpResponse>) -> (h: UserHandler)
        ensures
            h.spec_client() == client,
            match h.spec_current() {
                Some(u) => {
                    &&& client.spec_is_authenticated()
                    &&& spec_payload(fetched) matches Some(d)
                    &&& user_matches(u, d)
                },
                None => !client.spec_is_authenticated() || !(spec_payload(fetched) matches Some(d)
                    && spec_user_ok(d)),
            },
    {
        if client.is_authenticated() {
            let current = match client.api().extract_response(&fetched) {
                Ok(d) => decode_user(&d),
                Err(_) => None,
            };
            UserHandler { client, current }
        } else {
            UserHandler { client, current: None }
        }
    }

    /// Returns the cached current-user info, if available.
    pub fn info(&self) -> (r: Option<User>)
        ensures
            r == self.spec_current(),
    {
        match &self.current {
            Some(u) => Some(u.duplicate()),
            None => None,
        }
    }

    /// Builds the plan that lists the authenticated user's posts; refused
    /// while logged out.
    pub fn posts(&self) -> (r: Result<RequestPlan, ApiError>)
        ensures
            match r {
                Ok(plan) => {
                    &&& self.spec_client().spec_is_authenticated()
                    &&& plan_shape(self.spec_client(), HttpMethod::Get, "/me/posts"@, plan)
                    &&& plan.query_token is None
                    &&& plan.body is None
                },
                Err(e) => if !self.spec_client().spec_is_authenticated() {
                    e == (ApiError::LoggedOut {})
                } else {
                    plan_refused(self.spec_client(), "/me/posts"@, e)
                },
            },
    {
        if self.client.is_authenticated() {
            self.client.api().get("/me/posts")
        } else {
            Err(ApiError::LoggedOut {})
        }
    }

    /// Settles the outcome of [`UserHandler::posts`]: the user's posts, each
    /// with the session attached.
    pub fn posts_result(&self, resp: &Option<HttpResponse>) -> (r: Result<Vec<Post>, ApiError>)
        ensures
            attached_post_list_result(self.spec_client(), *resp, r),
    {
        finish_post_list(&self.client, resp)
    }

    /// Builds the plan that fetches one post by ID; refused while logged out.
    pub fn post(&self, id: &str) -> (r: Result<RequestPlan, ApiError>)
        ensures
            match r {
                Ok(plan) => {
                    &&& self.spec_client().spec_is_authenticated()
                    &&& plan_shape(self.spec_client(), HttpMethod::Get, "/posts/"@ + id@, plan)
                    &&& plan.query_token is None
                    &&& plan.body is None
                },
                Err(e) => if !self.spec_client().spec_is_authenticated() {
                    e == (ApiError::LoggedOut {})
                } else {
                    plan_refused(self.spec_client(), "/posts/"@ + id@, e)
                },
            },
    {
        if self.client.is_authenticated() {
            let endpoint = String::from_str("/posts/").concat(id);
            self.client.api().get(endpoint.as_str())
        } else {
            Err(ApiError::LoggedOut {})
        }
    }

    /// Settles the outcome of [`UserHandler::post`]: the post with the
    /// session attached.
    pub fn post_result(&self, resp: &Option<HttpResponse>) -> (r: Result<Post, ApiError>)
        ensures
            attached_post_result(self.spec_client(), *resp, r),
    {
        finish_post(&self.client, resp)
    }

    /// Builds the plan that lists the authenticated user's collections;
    /// refused while logged out.
    pub fn collections(&self) -> (r: Result<RequestPlan, ApiError>)
        ensures
            match r {
                Ok(plan) => {
                    &&& self.spec_client().spec_is_authenticated()
                    &&& plan_shape(self.spec_client(), HttpMethod::Get, "/me/collections"@, plan)
                    &&& plan.query_token is None
                    &&& plan.body is None
                },
                Err(e) => if !self.spec_client().spec_is_authenticated() {
                    e == (ApiError::LoggedOut {})
                } else {
                    plan_refused(self.spec_client(), "/me/collections"@, e)
                },
            },
    {
        if self.client.is_authenticated() {
            self.client.api().get("/me/collections")
        } else {
            Err(ApiError::LoggedOut {})
        }
    }

    /// Settles the outcome of [`UserHandler::collections`]: the collections,
    /// each with the session attached.
    pub fn collections_result(&self, resp: &Option<HttpResponse>) -> (r: Result<
        Vec<Collection>,
        ApiError,
    >)
        ensures
            attached_collection_list_result(self.spec_client(), *resp, r),
    {
        finish_collection_list(&self.client, resp)
    }

    /// Builds the plan that fetches one collection by alias; refused while
    /// logged out.
    pub fn collection(&self, alias: &str) -> (r: Result<RequestPlan, ApiError>)
        ensures
            match r {
                Ok(plan) => {
                    &&& self.spec_client().spec_is_authenticated()
                    &&& plan_shape(
                        self.spec_client(),
                        HttpMethod::Get,
                        "/collections/"@ + alias@,
                        plan,
                    )
                    &&& plan.query_token is None
                    &&& plan.body is None
                },
                Err(e) => if !self.spec_client().spec_is_authenticated() {
                    e == (ApiError::LoggedOut {})
                } else {
                    plan_refused(self.spec_client(), "/collections/"@ + alias@, e)
                },
            },
    {
        if self.client.is_authenticated() {
            let endpoint = String::from_str("/collections/").concat(alias);
            self.client.api().get(endpoint.as_str())
        } else {
            Err(ApiError::LoggedOut {})
        }
    }

    /// Settles the outcome of [`UserHandler::collection`]: the collection
    /// with the session attached.
    pub fn collection_result(&self, resp: &Option<HttpResponse>) -> (r: Result<
        Collection,
        ApiError,
    >)
        ensures
            attached_collection_result(self.spec_client(), *resp, r),
    {
        finish_collection(&self.client, resp)
    }
}

/// The endpoint a draft is published to: a collection's own post-creation
/// endpoint when the draft names one, the general posts endpoint otherwise.
pub open spec fn spec_publish_endpoint(collection: Option<Seq<char>>) -> Seq<char> {
    match collection {
        Some(c) => "/collections/"@ + c + "/post"@,
        None => "/posts"@,
    }
}

/// Handler for post-level operations.
#[derive(Clone, Debug)]
pub struct PostHandler {
    client: Client,
}

impl PostHandler {
    /// The session the handler works over.
    pub closed spec fn spec_client(self) -> Client {
        self.client
    }

    /// Creates a new handler over a session.
    pub fn new(client: Client) -> (h: PostHandler)
        ensures
            h.spec_client() == client,
    {
        PostHandler { client }
    }

    /// Builds the plan that fetches one post by ID.
    pub fn get(&self, id: &str) -> (r: Result<RequestPlan, ApiError>)
        ensures
            match r {
                Ok(plan) => {
                    &&& plan_shape(self.spec_client(), HttpMethod::Get, "/posts/"@ + id@, plan)
                    &&& plan.query_token is None
                    &&& plan.body is None
                },
                Err(e) => plan_refused(self.spec_client(), "/posts/"@ + id@, e),
            },
    {
        let endpoint = String::from_str("/posts/").concat(id);
        self.client.api().get(endpoint.as_str())
    }

    /// Settles the outcome of [`PostHandler::get`]: the post with the
    /// session attached.
    pub fn get_result(&self, resp: &Option<HttpResponse>) -> (r: Result<Post, ApiError>)
        ensures
            attached_post_result(self.spec_client(), *resp, r),
    {
        finish_post(&self.client, resp)
    }

    /// Creates a draft builder pre-populated with the session and the body;
    /// the caller fills the remaining fields before publishing.
    pub fn create(&self, body: String) -> (b: PostCreationBuilder)
        ensures
            b.client == Some(Some(self.spec_client())),
            b.body == Some(body),
            b.collection is None,
            b.title is None,
            b.font is None,
            b.lang is None,
            b.rtl is None,
            b.created is None,
    {
        PostCreationBuilder::default().client(Some(self.client.duplicate())).body(body)
    }

    /// Builds the plan that publishes a previously-made draft: to the
    /// draft's collection if it names one, to the general posts endpoint
    /// otherwise.
    pub fn publish(&self, post: &PostCreation) -> (r: Result<RequestPlan, ApiError>)
        ensures
            match r {
                Ok(plan) => {
                    &&& plan_shape(
                        self.spec_client(),
                        HttpMethod::Post,
                        spec_publish_endpoint(post.collection.deep_view()),
                        plan,
                    )
                    &&& plan.query_token is None
                    &&& (plan.body matches Some(b) && is_post_creation_body(*post, b@))
                },
                Err(e) => plan_refused(
                    self.spec_client(),
                    spec_publish_endpoint(post.collection.deep_view()),
                    e,
                ),
            },
    {
        let body = json_dump(&encode_post_creation(post));
        match &post.collection {
            Some(c) => {
                let endpoint = String::from_str("/collections/").concat(c.as_str()).concat(
                    "/post",
                );
                self.client.api().post(endpoint.as_str(), Some(body))
            },
            None => self.client.api().post("/posts", Some(body)),
        }
    }

    /// Settles the outcome of [`PostHandler::publish`]: the published post
    /// with the session attached.
    pub fn publish_result(&self, resp: &Option<HttpResponse>) -> (r: Result<Post, ApiError>)
        ensures
            attached_post_result(self.spec_client(), *resp, r),
    {
        finish_post(&self.client, resp)
    }
}

/// Handler for collection-level operations.
#[derive(Clone, Debug)]
pub struct CollectionHandler {
    client: Client,
}

impl CollectionHandler {
    /// The session the handler works over.
    pub closed spec fn spec_client(self) -> Client {
        self.client
    }

    /// Creates a new handler over a session.
    pub fn new(client: Client) -> (h: CollectionHandler)
        ensures
            h.spec_client() == client,
    {
        CollectionHandler { client }
    }

    /// Builds the plan that creates a collection. At least one of `alias`
    /// and `title` must be given, before anything else is looked at, and the
    /// session must be authenticated.
    pub fn create(&self, alias: Option<String>, title: Option<String>) -> (r: Result<
        RequestPlan,
        ApiError,
    >)
        ensures
            match r {
                Ok(plan) => {
                    &&& alias is Some || title is Some
                    &&& self.spec_client().spec_is_authenticated()
                    &&& plan_shape(self.spec_client(), HttpMethod::Post, "/collections"@, plan)
                    &&& plan.query_token is None
                    &&& (plan.body matches Some(b) && is_collection_params_body(
                        alias.deep_view(),
                        title.deep_view(),
                        b@,
                    ))
                },
                Err(e) => if alias is None && title is None {
                    e == (ApiError::UsageError {})
                } else if !self.spec_client().spec_is_authenticated() {
                    e == (ApiError::LoggedOut {})
                } else {
                    plan_refused(self.spec_client(), "/collections"@, e)
                },
            },
    {
        if alias.is_none() && title.is_none() {
            return Err(ApiError::UsageError {});
        }
        if !self.client.is_authenticated() {
            return Err(ApiError::LoggedOut {});
        }
        let body = json_dump(&encode_collection_params(&alias, &title));
        self.client.api().post("/collections", Some(body))
    }

    /// Settles the outcome of [`CollectionHandler::create`]: the created
    /// collection with the session attached.
    pub fn create_result(&self, resp: &Option<HttpResponse>) -> (r: Result<Collection, ApiError>)
        ensures
            attached_collection_result(self.spec_client(), *resp, r),
    {
        finish_collection(&self.client, resp)
    }

    /// Builds the plan that fetches one collection by alias.
    pub fn get(&self, alias: &str) -> (r: Result<RequestPlan, ApiError>)
        ensures
            match r {
                Ok(plan) => {
                    &&& plan_shape(
                        self.spec_client(),
                        HttpMethod::Get,
                        "/collections/"@ + alias@,
                        plan,
                    )
                    &&& plan.query_token is None
                    &&& plan.body is None
                },
                Err(e) => plan_refused(self.spec_client(), "/collections/"@ + alias@, e),
            },
    {
        let endpoint = String::from_str("/collections/").concat(alias);
        self.client.api().get(endpoint.as_str())
    }

    /// Settles the outcome of [`CollectionHandler::get`]: the collection
    /// with the session attached.
    pub fn get_result(&self, resp: &Option<HttpResponse>) -> (r: Result<Collection, ApiError>)
        ensures
            attached_collection_result(self.spec_client(), *resp, r),
    {
        finish_collection(&self.client, resp)
    }
}

} // verus!
