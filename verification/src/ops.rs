//! The network operations of the fetched entities.
//!
//! Every operation needs the session that fetched the entity: an entity with
//! no attached session refuses with a usage error before anything else. As
//! everywhere, each operation is a pair: a function that builds the one
//! request to send, and a function that settles the raw outcome.

use vstd::prelude::*;
use vstd::string::StringExecFns;

use crate::api::plan_refused;
use crate::api::plan_shape;
use crate::api::spec_payload;
use crate::api::spec_typed_error;
use crate::decode::spec_collection_ok;
use crate::decode::spec_move_result_list_ok;
use crate::decode::spec_req_str;
use crate::encode::encode_collection_update;
use crate::encode::encode_move_posts;
use crate::encode::encode_pin_posts;
use crate::encode::encode_post_creation;
use crate::encode::encode_post_update;
use crate::encode::is_collection_update_body;
use crate::encode::is_move_posts_body;
use crate::encode::is_pin_posts_body;
use crate::encode::is_post_creation_body;
use crate::encode::is_post_update_body;
use crate::encode::pin_post_encoded;
use crate::encode::pin_posts_encoded;
use crate::errors::ApiError;
use crate::handlers::spec_publish_endpoint;
use crate::http::HttpMethod;
use crate::http::HttpResponse;
use crate::http::RequestPlan;
use crate::json::jarr;
use crate::json::json_dump;
use crate::models::Collection;
use crate::models::MovePost;
use crate::models::MoveResult;
use crate::models::PinPost;
use crate::models::PinResult;
use crate::models::Post;
use crate::models::CollectionUpdate;
use crate::models::PostCreation;
use crate::models::PostUpdate;
use crate::outcomes::attached_collection_result;
use crate::outcomes::attached_move_result_matches;
use crate::outcomes::attached_post_list_result;
use crate::outcomes::attached_post_result;
use crate::outcomes::finish_collection;
use crate::outcomes::finish_move_outcomes;
use crate::outcomes::finish_pin_outcomes;
use crate::outcomes::finish_post;
use crate::outcomes::finish_post_list;
use crate::outcomes::finish_unit;
use crate::outcomes::move_outcomes_result;
use crate::outcomes::pin_outcomes_result;
use crate::outcomes::status_only_result;
use crate::outcomes::unit_result;
use crate::text::clone_opt_string;

verus! {

impl PostUpdate {
    /// Builds the plan that dispatches this update to its post's endpoint;
    /// refused with a usage error when no session is attached.
    pub fn update(&self) -> (r: Result<RequestPlan, ApiError>)
        ensures
            match self.client {
                None => r == Err::<RequestPlan, ApiError>(ApiError::UsageError {}),
                Some(c) => match r {
                    Ok(plan) => {
                        &&& plan_shape(c, HttpMethod::Post, "/posts/"@ + self.id@, plan)
                        &&& plan.query_token is None
                        &&& (plan.body matches Some(b) && is_post_update_body(*self, b@))
                    },
                    Err(e) => plan_refused(c, "/posts/"@ + self.id@, e),
                },
            },
    {
        let client = match &self.client {
            Some(c) => c,
            None => {
                return Err(ApiError::UsageError {});
            },
        };
        let body_value = encode_post_update(self);
        let body = json_dump(&body_value);
        proof {
            assert(is_post_update_body(*self, body@));
        }
        let endpoint = String::from_str("/posts/").concat(self.id.as_str());
        client.api().post(endpoint.as_str(), Some(body))
    }

    /// Settles the outcome of [`PostUpdate::update`]: the refreshed post
    /// with the session re-attached.
    pub fn update_result(&self, resp: &Option<HttpResponse>) -> (r: Result<Post, ApiError>)
        ensures
            match self.client {
                None => r == Err::<Post, ApiError>(ApiError::UsageError {}),
                Some(c) => attached_post_result(c, *resp, r),
            },
    {
        match &self.client {
            Some(c) => finish_post(c, resp),
            None => Err(ApiError::UsageError {}),
        }
    }
}

impl Post {
    /// Builds the plan that dispatches an existing update to this post's
    /// endpoint; refused with a usage error when no session is attached.
    pub fn update(&self, update: &PostUpdate) -> (r: Result<RequestPlan, ApiError>)
        ensures
            match self.client {
                None => r == Err::<RequestPlan, ApiError>(ApiError::UsageError {}),
                Some(c) => match r {
                    Ok(plan) => {
                        &&& plan_shape(c, HttpMethod::Post, "/posts/"@ + self.id@, plan)
                        &&& plan.query_token is None
                        &&& (plan.body matches Some(b) && is_post_update_body(*update, b@))
                    },
                    Err(e) => plan_refused(c, "/posts/"@ + self.id@, e),
                },
            },
    {
        let client = match &self.client {
            Some(c) => c,
            None => {
                return Err(ApiError::UsageError {});
            },
        };
        let body_value = encode_post_update(update);
        let body = json_dump(&body_value);
        proof {
            assert(is_post_update_body(*update, body@));
        }
        let endpoint = String::from_str("/posts/").concat(self.id.as_str());
        client.api().post(endpoint.as_str(), Some(body))
    }

    /// Settles the outcome of [`Post::update`]: the refreshed post with the
    /// session re-attached.
    pub fn update_result(&self, resp: &Option<HttpResponse>) -> (r: Result<Post, ApiError>)
        ensures
            match self.client {
                None => r == Err::<Post, ApiError>(ApiError::UsageError {}),
                Some(c) => attached_post_result(c, *resp, r),
            },
    {
        match &self.client {
            Some(c) => finish_post(c, resp),
            None => Err(ApiError::UsageError {}),
        }
    }

    /// Builds the plan that deletes this post. When the session is
    /// unauthenticated and the post carries its own access token, the token
    /// goes into the `token` query parameter instead of an auth header,
    /// supporting link-shared anonymous edits.
    pub fn delete(&self) -> (r: Result<RequestPlan, ApiError>)
        ensures
            match self.client {
                None => r == Err::<RequestPlan, ApiError>(ApiError::UsageError {}),
                Some(c) => match r {
                    Ok(plan) => {
                        &&& plan_shape(c, HttpMethod::Delete, "/posts/"@ + self.id@, plan)
                        &&& plan.query_token == (if !c.spec_is_authenticated() && self.token
                            is Some {
                            self.token
                        } else {
                            None::<String>
                        })
                        &&& plan.body is None
                    },
                    Err(e) => plan_refused(c, "/posts/"@ + self.id@, e),
                },
            },
    {
        let client = match &self.client {
            Some(c) => c,
            None => {
                return Err(ApiError::UsageError {});
            },
        };
        let endpoint = String::from_str("/posts/").concat(self.id.as_str());
        let mut plan = match client.api().delete(endpoint.as_str()) {
            Ok(p) => p,
            Err(e) => {
                return Err(e);
            },
        };
        if !client.is_authenticated() && self.token.is_some() {
            plan.query_token = clone_opt_string(&self.token);
        }
        Ok(plan)
    }

    /// Settles the outcome of [`Post::delete`]: the delete endpoint answers
    /// with an envelope whose payload is null.
    pub fn delete_result(&self, resp: &Option<HttpResponse>) -> (r: Result<(), ApiError>)
        ensures
            match self.client {
                None => r == Err::<(), ApiError>(ApiError::UsageError {}),
                Some(_) => unit_result(*resp, r),
            },
    {
        match &self.client {
            Some(c) => finish_unit(c, resp),
            None => Err(ApiError::UsageError {}),
        }
    }

    /// Begins moving this post into a collection named by alias: the first
    /// of two round trips, resolving the collection. Hand the outcome to
    /// [`Post::move_to_send`].
    pub fn move_to(&self, collection: &str) -> (r: Result<RequestPlan, ApiError>)
        ensures
            match self.client {
                None => r == Err::<RequestPlan, ApiError>(ApiError::UsageError {}),
                Some(c) => match r {
                    Ok(plan) => {
                        &&& plan_shape(c, HttpMethod::Get, "/collections/"@ + collection@, plan)
                        &&& plan.query_token is None
                        &&& plan.body is None
                    },
                    Err(e) => plan_refused(c, "/collections/"@ + collection@, e),
                },
            },
    {
        let client = match &self.client {
            Some(c) => c,
            None => {
                return Err(ApiError::UsageError {});
            },
        };
        client.collections().get(collection)
    }

    /// Continues a move: decodes the resolved collection and builds its
    /// batch take request for this one post, using the post's own access
    /// token when the session is unauthenticated. Hand the outcome to
    /// [`Post::move_to_result`].
    pub fn move_to_send(&self, coll_resp: &Option<HttpResponse>) -> (r: Result<
        RequestPlan,
        ApiError,
    >)
        ensures
            match self.client {
                None => r == Err::<RequestPlan, ApiError>(ApiError::UsageError {}),
                Some(c) => {
                    let mp = (MovePost {
                        id: self.id,
                        token: if c.spec_is_authenticated() {
                            None::<String>
                        } else {
                            self.token
                        },
                    });
                    match r {
                        Ok(plan) => {
                            &&& spec_payload(*coll_resp) matches Some(d)
                            &&& spec_collection_ok(d)
                            &&& plan_shape(
                                c,
                                HttpMethod::Post,
                                "/collections/"@ + spec_req_str(d, "alias"@)->Some_0
                                    + "/collect"@,
                                plan,
                            )
                            &&& plan.query_token is None
                            &&& (plan.body matches Some(b) && is_move_posts_body(seq![mp], b@))
                        },
                        Err(e) => {
                            if ({
                                &&& spec_payload(*coll_resp) matches Some(d)
                                &&& spec_collection_ok(d)
                            }) {
                                plan_refused(
                                    c,
                                    "/collections/"@ + spec_req_str(
                                        spec_payload(*coll_resp)->Some_0,
                                        "alias"@,
                                    )->Some_0 + "/collect"@,
                                    e,
                                )
                            } else {
                                spec_typed_error(
                                    *coll_resp,
                                    (|d: serde_json::Value| spec_collection_ok(d)),
                                    e,
                                )
                            }
                        },
                    }
                },
            },
    {
        let client = match &self.client {
            Some(c) => c,
            None => {
                return Err(ApiError::UsageError {});
            },
        };
        let coll = match finish_collection(client, coll_resp) {
            Ok(c) => c,
            Err(e) => {
                return Err(e);
            },
        };
        let mp = if client.is_authenticated() {
            MovePost { id: self.id.clone(), token: None }
        } else {
            MovePost { id: self.id.clone(), token: clone_opt_string(&self.token) }
        };
        let descriptors = vec![mp];
        let r = coll.take_posts(descriptors.as_slice());
        proof {
            let mp_spec = (MovePost {
                id: self.id,
                token: if client.spec_is_authenticated() {
                    None::<String>
                } else {
                    self.token
                },
            });
            assert(descriptors@ =~= seq![mp_spec]);
        }
        r
    }

    /// Finishes a move: unwraps the single tagged outcome of the batch
    /// answer, success or failure alike, and reports an unknown error only
    /// for the unreachable empty answer.
    pub fn move_to_result(&self, resp: &Option<HttpResponse>) -> (r: Result<MoveResult, ApiError>)
        ensures
            match self.client {
                None => r == Err::<MoveResult, ApiError>(ApiError::UsageError {}),
                Some(c) => match r {
                    Ok(m) => {
                        &&& spec_payload(*resp) matches Some(d)
                        &&& jarr(d) is Some
                        &&& jarr(d)->Some_0.len() > 0
                        &&& attached_move_result_matches(c, jarr(d)->Some_0[0], m)
                    },
                    Err(e) => {
                        if ({
                            &&& spec_payload(*resp) matches Some(d)
                            &&& spec_move_result_list_ok(d)
                            &&& jarr(d) matches Some(elems)
                            &&& elems.len() == 0
                        }) {
                            e == (ApiError::UnknownError {})
                        } else {
                            spec_typed_error(
                                *resp,
                                (|d: serde_json::Value| spec_move_result_list_ok(d)),
                                e,
                            )
                        }
                    },
                },
            },
    {
        let client = match &self.client {
            Some(c) => c,
            None => {
                return Err(ApiError::UsageError {});
            },
        };
        let mut outcomes = match finish_move_outcomes(client, resp) {
            Ok(list) => list,
            Err(e) => {
                return Err(e);
            },
        };
        if outcomes.len() == 0 {
            return Err(ApiError::UnknownError {});
        }
        match outcomes.remove(0) {
            Ok(m) => Ok(m),
            Err(m) => Ok(m),
        }
    }
}

impl PostCreation {
    /// Builds the plan that publishes this draft: to its collection's
    /// post-creation endpoint if it names one, to the general posts endpoint
    /// otherwise; refused with a usage error when no session is attached.
    pub fn publish(&self) -> (r: Result<RequestPlan, ApiError>)
        ensures
            match self.client {
                None => r == Err::<RequestPlan, ApiError>(ApiError::UsageError {}),
                Some(c) => match r {
                    Ok(plan) => {
                        &&& plan_shape(
                            c,
                            HttpMethod::Post,
                            spec_publish_endpoint(self.collection.deep_view()),
                            plan,
                        )
                        &&& plan.query_token is None
                        &&& (plan.body matches Some(b) && is_post_creation_body(*self, b@))
                    },
                    Err(e) => plan_refused(
                        c,
                        spec_publish_endpoint(self.collection.deep_view()),
                        e,
                    ),
                },
            },
    {
        let client = match &self.client {
            Some(c) => c,
            None => {
                return Err(ApiError::UsageError {});
            },
        };
        let body = json_dump(&encode_post_creation(self));
        match &self.collection {
            Some(coll) => {
                let endpoint = String::from_str("/collections/").concat(coll.as_str()).concat(
                    "/post",
                );
                client.api().post(endpoint.as_str(), Some(body))
            },
            None => client.api().post("/posts", Some(body)),
        }
    }

    /// Settles the outcome of [`PostCreation::publish`]: the created post
    /// with the session attached.
    pub fn publish_result(&self, resp: &Option<HttpResponse>) -> (r: Result<Post, ApiError>)
        ensures
            match self.client {
                None => r == Err::<Post, ApiError>(ApiError::UsageError {}),
                Some(c) => attached_post_result(c, *resp, r),
            },
    {
        match &self.client {
            Some(c) => finish_post(c, resp),
            None => Err(ApiError::UsageError {}),
        }
    }
}

impl Collection {
    /// Builds the plan that dispatches an existing update to this
    /// collection's endpoint; refused with a usage error when no session is
    /// attached.
    pub fn update(&self, update: &CollectionUpdate) -> (r: Result<RequestPlan, ApiError>)
        ensures
            match self.client {
                None => r == Err::<RequestPlan, ApiError>(ApiError::UsageError {}),
                Some(c) => match r {
                    Ok(plan) => {
                        &&& plan_shape(c, HttpMethod::Post, "/collections/"@ + self.alias@, plan)
                        &&& plan.query_token is None
                        &&& (plan.body matches Some(b) && is_collection_update_body(*update, b@))
                    },
                    Err(e) => plan_refused(c, "/collections/"@ + self.alias@, e),
                },
            },
    {
        let client = match &self.client {
            Some(c) => c,
            None => {
                return Err(ApiError::UsageError {});
            },
        };
        let body = json_dump(&encode_collection_update(update));
        let endpoint = String::from_str("/collections/").concat(self.alias.as_str());
        client.api().post(endpoint.as_str(), Some(body))
    }

    /// Settles the outcome of [`Collection::update`]: the refreshed
    /// collection with the session re-attached.
    pub fn update_result(&self, resp: &Option<HttpResponse>) -> (r: Result<Collection, ApiError>)
        ensures
            match self.client {
                None => r == Err::<Collection, ApiError>(ApiError::UsageError {}),
                Some(c) => attached_collection_result(c, *resp, r),
            },
    {
        match &self.client {
            Some(c) => finish_collection(c, resp),
            None => Err(ApiError::UsageError {}),
        }
    }

    /// Builds the plan that deletes this collection; refused with a usage
    /// error when no session is attached.
    pub fn delete(&self) -> (r: Result<RequestPlan, ApiError>)
        ensures
            match self.client {
                None => r == Err::<RequestPlan, ApiError>(ApiError::UsageError {}),
                Some(c) => match r {
                    Ok(plan) => {
                        &&& plan_shape(c, HttpMethod::Delete, "/collections/"@ + self.alias@, plan)
                        &&& plan.query_token is None
                        &&& plan.body is None
                    },
                    Err(e) => plan_refused(c, "/collections/"@ + self.alias@, e),
                },
            },
    {
        let client = match &self.client {
            Some(c) => c,
            None => {
                return Err(ApiError::UsageError {});
            },
        };
        let endpoint = String::from_str("/collections/").concat(self.alias.as_str());
        client.api().delete(endpoint.as_str())
    }

    /// Settles the outcome of [`Collection::delete`]: the collection delete
    /// endpoint answers with no envelope, so only the status decides.
    pub fn delete_result(&self, resp: &Option<HttpResponse>) -> (r: Result<(), ApiError>)
        ensures
            match self.client {
                None => r == Err::<(), ApiError>(ApiError::UsageError {}),
                Some(_) => status_only_result(*resp, r),
            },
    {
        match &self.client {
            Some(c) => c.api().delete_result(resp),
            None => Err(ApiError::UsageError {}),
        }
    }

    /// Builds the plan that lists this collection's posts; refused with a
    /// usage error when no session is attached.
    pub fn get_posts(&self) -> (r: Result<RequestPlan, ApiError>)
        ensures
            match self.client {
                None => r == Err::<RequestPlan, ApiError>(ApiError::UsageError {}),
                Some(c) => match r {
                    Ok(plan) => {
                        &&& plan_shape(
                            c,
                            HttpMethod::Get,
                            "/collections/"@ + self.alias@ + "/posts"@,
                            plan,
                        )
                        &&& plan.query_token is None
                        &&& plan.body is None
                    },
                    Err(e) => plan_refused(c, "/collections/"@ + self.alias@ + "/posts"@, e),
                },
            },
    {
        let client = match &self.client {
            Some(c) => c,
            None => {
                return Err(ApiError::UsageError {});
            },
        };
        let endpoint = String::from_str("/collections/").concat(self.alias.as_str()).concat(
            "/posts",
        );
        client.api().get(endpoint.as_str())
    }

    /// Settles the outcome of [`Collection::get_posts`]: the posts in answer
    /// order, each with the session attached.
    pub fn get_posts_result(&self, resp: &Option<HttpResponse>) -> (r: Result<Vec<Post>, ApiError>)
        ensures
            match self.client {
                None => r == Err::<Vec<Post>, ApiError>(ApiError::UsageError {}),
                Some(c) => attached_post_list_result(c, *resp, r),
            },
    {
        match &self.client {
            Some(c) => finish_post_list(c, resp),
            None => Err(ApiError::UsageError {}),
        }
    }

    /// Builds the plan that fetches one of this collection's posts by slug;
    /// refused with a usage error when no session is attached.
    pub fn get_post(&self, slug: String) -> (r: Result<RequestPlan, ApiError>)
        ensures
            match self.client {
                None => r == Err::<RequestPlan, ApiError>(ApiError::UsageError {}),
                Some(c) => match r {
                    Ok(plan) => {
                        &&& plan_shape(
                            c,
                            HttpMethod::Get,
                            "/collections/"@ + self.alias@ + "/posts/"@ + slug@,
                            plan,
                        )
                        &&& plan.query_token is None
                        &&& plan.body is None
                    },
                    Err(e) => plan_refused(
                        c,
                        "/collections/"@ + self.alias@ + "/posts/"@ + slug@,
                        e,
                    ),
                },
            },
    {
        let client = match &self.client {
            Some(c) => c,
            None => {
                return Err(ApiError::UsageError {});
            },
        };
        let endpoint = String::from_str("/collections/").concat(self.alias.as_str()).concat(
            "/posts/",
        ).concat(slug.as_str());
        client.api().get(endpoint.as_str())
    }

    /// Settles the outcome of [`Collection::get_post`]: the post with the
    /// session attached.
    pub fn get_post_result(&self, resp: &Option<HttpResponse>) -> (r: Result<Post, ApiError>)
        ensures
            match self.client {
                None => r == Err::<Post, ApiError>(ApiError::UsageError {}),
                Some(c) => attached_post_result(c, *resp, r),
            },
    {
        match &self.client {
            Some(c) => finish_post(c, resp),
            None => Err(ApiError::UsageError {}),
        }
    }

    /// Builds the plan that moves an ordered list of posts into this
    /// collection; refused with a usage error when no session is attached.
    pub fn take_posts(&self, posts: &[MovePost]) -> (r: Result<RequestPlan, ApiError>)
        ensures
            match self.client {
                None => r == Err::<RequestPlan, ApiError>(ApiError::UsageError {}),
                Some(c) => match r {
                    Ok(plan) => {
                        &&& plan_shape(
                            c,
                            HttpMethod::Post,
                            "/collections/"@ + self.alias@ + "/collect"@,
                            plan,
                        )
                        &&& plan.query_token is None
                        &&& (plan.body matches Some(b) && is_move_posts_body(posts@, b@))
                    },
                    Err(e) => plan_refused(c, "/collections/"@ + self.alias@ + "/collect"@, e),
                },
            },
    {
        let client = match &self.client {
            Some(c) => c,
            None => {
                return Err(ApiError::UsageError {});
            },
        };
        let body_value = encode_move_posts(posts);
        let body = json_dump(&body_value);
        proof {
            assert(is_move_posts_body(posts@, body@));
        }
        let endpoint = String::from_str("/collections/").concat(self.alias.as_str()).concat(
            "/collect",
        );
        client.api().post(endpoint.as_str(), Some(body))
    }

    /// Settles the outcome of [`Collection::take_posts`]: one tagged outcome
    /// per answer slot, in answer order, each moved post carrying the
    /// session.
    pub fn take_posts_result(&self, resp: &Option<HttpResponse>) -> (r: Result<
        Vec<Result<MoveResult, MoveResult>>,
        ApiError,
    >)
        ensures
            match self.client {
                None => r == Err::<Vec<Result<MoveResult, MoveResult>>, ApiError>(
                    ApiError::UsageError {},
                ),
                Some(c) => move_outcomes_result(c, *resp, r),
            },
    {
        match &self.client {
            Some(c) => finish_move_outcomes(c, resp),
            None => Err(ApiError::UsageError {}),
        }
    }

    /// Builds the plan that pins an ordered list of posts in this
    /// collection; refused with a usage error when no session is attached.
    pub fn pin_posts(&self, posts: &[PinPost]) -> (r: Result<RequestPlan, ApiError>)
        ensures
            match self.client {
                None => r == Err::<RequestPlan, ApiError>(ApiError::UsageError {}),
                Some(c) => match r {
                    Ok(plan) => {
                        &&& plan_shape(
                            c,
                            HttpMethod::Post,
                            "/collections/"@ + self.alias@ + "/pin"@,
                            plan,
                        )
                        &&& plan.query_token is None
                        &&& (plan.body matches Some(b) && is_pin_posts_body(posts@, b@))
                    },
                    Err(e) => plan_refused(c, "/collections/"@ + self.alias@ + "/pin"@, e),
                },
            },
    {
        let client = match &self.client {
            Some(c) => c,
            None => {
                return Err(ApiError::UsageError {});
            },
        };
        let body_value = encode_pin_posts(posts);
        let body = json_dump(&body_value);
        proof {
            assert(is_pin_posts_body(posts@, body@));
        }
        let endpoint = String::from_str("/collections/").concat(self.alias.as_str()).concat(
            "/pin",
        );
        client.api().post(endpoint.as_str(), Some(body))
    }

    /// Settles the outcome of [`Collection::pin_posts`]: one tagged outcome
    /// per answer slot, in answer order.
    pub fn pin_posts_result(&self, resp: &Option<HttpResponse>) -> (r: Result<
        Vec<Result<PinResult, PinResult>>,
        ApiError,
    >)
        ensures
            match self.client {
                None => r == Err::<Vec<Result<PinResult, PinResult>>, ApiError>(
                    ApiError::UsageError {},
                ),
                Some(_) => pin_outcomes_result(*resp, r),
            },
    {
        match &self.client {
            Some(c) => finish_pin_outcomes(c, resp),
            None => Err(ApiError::UsageError {}),
        }
    }

    /// Builds the plan that unpins a list of posts, named by ID, from this
    /// collection; refused with a usage error when no session is attached.
    pub fn unpin_posts(&self, posts: &[String]) -> (r: Result<RequestPlan, ApiError>)
        ensures
            match self.client {
                None => r == Err::<RequestPlan, ApiError>(ApiError::UsageError {}),
                Some(c) => match r {
                    Ok(plan) => {
                        &&& plan_shape(
                            c,
                            HttpMethod::Post,
                            "/collections/"@ + self.alias@ + "/unpin"@,
                            plan,
                        )
                        &&& plan.query_token is None
                        &&& (plan.body matches Some(b) && is_pin_posts_body(
                            Seq::new(
                                posts@.len(),
                                |i: int| (PinPost { id: posts@[i], postion: None }),
                            ),
                            b@,
                        ))
                    },
                    Err(e) => plan_refused(c, "/collections/"@ + self.alias@ + "/unpin"@, e),
                },
            },
    {
        let client = match &self.client {
            Some(c) => c,
            None => {
                return Err(ApiError::UsageError {});
            },
        };
        let mut pins: Vec<PinPost> = Vec::new();
        let mut i: usize = 0;
        while i < posts.len()
            invariant
                i <= posts@.len(),
                pins@.len() == i,
                forall|j: int|
                    0 <= j < i ==> (#[trigger] pins@[j]).id@ == posts@[j]@ && pins@[j].postion
                        is None,
            decreases posts@.len() - i,
        {
            pins.push(PinPost::new(posts[i].as_str()));
            i = i + 1;
        }
        let body_value = encode_pin_posts(pins.as_slice());
        let body = json_dump(&body_value);
        proof {
            let unpin_pins = Seq::new(
                posts@.len(),
                |k: int| (PinPost { id: posts@[k], postion: None }),
            );
            assert forall|k: int|
                0 <= k < unpin_pins.len() implies pin_post_encoded(
                unpin_pins[k],
                #[trigger] jarr(body_value)->Some_0[k],
            ) by {
                assert(pin_post_encoded(pins@[k], jarr(body_value)->Some_0[k]));
            }
            assert(pin_posts_encoded(unpin_pins, body_value));
            assert(is_pin_posts_body(unpin_pins, body@));
        }
        let endpoint = String::from_str("/collections/").concat(self.alias.as_str()).concat(
            "/unpin",
        );
        client.api().post(endpoint.as_str(), Some(body))
    }

    /// Settles the outcome of [`Collection::unpin_posts`]: one tagged
    /// outcome per answer slot, in answer order.
    pub fn unpin_posts_result(&self, resp: &Option<HttpResponse>) -> (r: Result<
        Vec<Result<PinResult, PinResult>>,
        ApiError,
    >)
        ensures
            match self.client {
                None => r == Err::<Vec<Result<PinResult, PinResult>>, ApiError>(
                    ApiError::UsageError {},
                ),
                Some(_) => pin_outcomes_result(*resp, r),
            },
    {
        match &self.client {
            Some(c) => finish_pin_outcomes(c, resp),
            None => Err(ApiError::UsageError {}),
        }
    }
}

impl CollectionUpdate {
    /// Builds the plan that publishes this update to its collection's
    /// endpoint; refused with a usage error when no session is attached or
    /// no alias is set.
    pub fn update(&self) -> (r: Result<RequestPlan, ApiError>)
        ensures
            match (self.client, self.alias) {
                (Some(c), Some(alias)) => match r {
                    Ok(plan) => {
                        &&& plan_shape(c, HttpMethod::Post, "/collections/"@ + alias@, plan)
                        &&& plan.query_token is None
                        &&& (plan.body matches Some(b) && is_collection_update_body(*self, b@))
                    },
                    Err(e) => plan_refused(c, "/collections/"@ + alias@, e),
                },
                _ => r == Err::<RequestPlan, ApiError>(ApiError::UsageError {}),
            },
    {
        let client = match &self.client {
            Some(c) => c,
            None => {
                return Err(ApiError::UsageError {});
            },
        };
        let alias = match &self.alias {
            Some(a) => a,
            None => {
                return Err(ApiError::UsageError {});
            },
        };
        let body = json_dump(&encode_collection_update(self));
        let endpoint = String::from_str("/collections/").concat(alias.as_str());
        client.api().post(endpoint.as_str(), Some(body))
    }

    /// Settles the outcome of [`CollectionUpdate::update`]: the refreshed
    /// collection with the session re-attached.
    pub fn update_result(&self, resp: &Option<HttpResponse>) -> (r: Result<Collection, ApiError>)
        ensures
            match self.client {
                None => r == Err::<Collection, ApiError>(ApiError::UsageError {}),
                Some(c) => attached_collection_result(c, *resp, r),
            },
    {
        match &self.client {
            Some(c) => finish_collection(c, resp),
            None => Err(ApiError::UsageError {}),
        }
    }
}

} // verus!
