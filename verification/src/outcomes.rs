//! The typed results of the operations: what each kind of operation returns
//! for every raw outcome of its request.
//!
//! Every operation settles a raw outcome the same way: a transport failure is
//! a connection error, an error status is a request error, an undecodable
//! body is a parse error carrying the raw text, and a decodable payload
//! yields the typed value with the session re-attached where the entity
//! carries one. The spec predicates here say that once, and the finisher
//! functions prove it for each payload kind.

use vstd::prelude::*;

use crate::api::spec_payload;
use crate::api::spec_typed_error;
use crate::client::Client;
use crate::decode::collection_fields_match;
use crate::decode::decode_collection;
use crate::decode::decode_collection_list;
use crate::decode::decode_move_result_list;
use crate::decode::decode_pin_result_list;
use crate::decode::decode_post;
use crate::decode::decode_post_list;
use crate::decode::jfield;
use crate::decode::pin_result_matches;
use crate::decode::post_fields_match;
use crate::decode::spec_collection_list_ok;
use crate::decode::spec_collection_ok;
use crate::decode::spec_move_error_ok;
use crate::decode::spec_move_result_list_ok;
use crate::decode::spec_move_success_ok;
use crate::decode::spec_pin_result_list_ok;
use crate::decode::spec_post_list_ok;
use crate::decode::spec_post_ok;
use crate::decode::spec_req_str;
use crate::decode::spec_req_u32;
use crate::errors::ApiError;
use crate::http::HttpResponse;
use crate::json::jarr;
use crate::json::jnull;
use crate::json::json_is_null;
use crate::models::Collection;
use crate::models::MoveResult;
use crate::models::PinResult;
use crate::models::Post;
use crate::models::same_collection_data;
use crate::models::same_post_data;

verus! {

/// Attaching a session preserves every domain field a payload pinned.
pub proof fn lemma_post_attach(a: Post, b: Post, v: serde_json::Value)
    requires
        post_fields_match(b, v),
        same_post_data(a, b),
    ensures
        post_fields_match(a, v),
{
    assert(a.tags.deep_view() =~= b.tags.deep_view());
}

/// Attaching a session preserves every domain field a payload pinned.
pub proof fn lemma_collection_attach(a: Collection, b: Collection, v: serde_json::Value)
    requires
        collection_fields_match(b, v),
        same_collection_data(a, b),
    ensures
        collection_fields_match(a, v),
{
}

/// What a post-returning operation yields for a raw outcome: the decoded
/// post with the session attached, or the typed error the outcome calls for.
pub open spec fn attached_post_result(c: Client, resp: Option<HttpResponse>, r: Result<
    Post,
    ApiError,
>) -> bool {
    match r {
        Ok(p) => {
            &&& spec_payload(resp) matches Some(d)
            &&& spec_post_ok(d)
            &&& p.client == Some(c)
            &&& post_fields_match(p, d)
        },
        Err(e) => spec_typed_error(resp, (|d: serde_json::Value| spec_post_ok(d)), e),
    }
}

/// What a collection-returning operation yields for a raw outcome.
pub open spec fn attached_collection_result(c: Client, resp: Option<HttpResponse>, r: Result<
    Collection,
    ApiError,
>) -> bool {
    match r {
        Ok(col) => {
            &&& spec_payload(resp) matches Some(d)
            &&& spec_collection_ok(d)
            &&& col.client == Some(c)
            &&& collection_fields_match(col, d)
        },
        Err(e) => spec_typed_error(resp, (|d: serde_json::Value| spec_collection_ok(d)), e),
    }
}

/// What a post-list operation yields for a raw outcome: the decoded posts in
/// payload order, each with the session attached.
pub open spec fn attached_post_list_result(c: Client, resp: Option<HttpResponse>, r: Result<
    Vec<Post>,
    ApiError,
>) -> bool {
    match r {
        Ok(ps) => {
            &&& spec_payload(resp) matches Some(d)
            &&& jarr(d) is Some
            &&& ps@.len() == jarr(d)->Some_0.len()
            &&& forall|i: int|
                0 <= i < ps@.len() ==> post_fields_match(#[trigger] ps@[i], jarr(d)->Some_0[i])
                    && ps@[i].client == Some(c)
        },
        Err(e) => spec_typed_error(resp, (|d: serde_json::Value| spec_post_list_ok(d)), e),
    }
}

/// What a collection-list operation yields for a raw outcome.
pub open spec fn attached_collection_list_result(c: Client, resp: Option<HttpResponse>, r: Result<
    Vec<Collection>,
    ApiError,
>) -> bool {
    match r {
        Ok(cs) => {
            &&& spec_payload(resp) matches Some(d)
            &&& jarr(d) is Some
            &&& cs@.len() == jarr(d)->Some_0.len()
            &&& forall|i: int|
                0 <= i < cs@.len() ==> collection_fields_match(#[trigger] cs@[i], jarr(d)->Some_0[i])
                    && cs@[i].client == Some(c)
        },
        Err(e) => spec_typed_error(resp, (|d: serde_json::Value| spec_collection_list_ok(d)), e),
    }
}

/// What a bodyless operation that still unwraps the envelope yields: success
/// exactly when the payload is JSON null.
pub open spec fn unit_result(resp: Option<HttpResponse>, r: Result<(), ApiError>) -> bool {
    match r {
        Ok(_) => spec_payload(resp) matches Some(d) && jnull(d),
        Err(e) => spec_typed_error(resp, (|d: serde_json::Value| jnull(d)), e),
    }
}

/// What one slot of a batch move answer yields: the success shape becomes an
/// `Ok` carrying the moved post with the session attached, the error shape an
/// `Err` carrying the failure, read in that order.
pub open spec fn move_outcome_matches(
    c: Client,
    elem: serde_json::Value,
    o: Result<MoveResult, MoveResult>,
) -> bool {
    if spec_move_success_ok(elem) {
        &&& o matches Ok(MoveResult::Success { code, post })
        &&& spec_req_u32(elem, "code"@) == Some(code)
        &&& post.client == Some(c)
        &&& post_fields_match(post, jfield(elem, "post"@)->Some_0)
    } else if spec_move_error_ok(elem) {
        &&& o matches Err(MoveResult::Error { code, error_msg })
        &&& spec_req_u32(elem, "code"@) == Some(code)
        &&& spec_req_str(elem, "error_msg"@) == Some(error_msg@)
    } else {
        false
    }
}

/// What a batch move operation yields for a raw outcome: one tagged outcome
/// per answer slot, in answer order.
pub open spec fn move_outcomes_result(c: Client, resp: Option<HttpResponse>, r: Result<
    Vec<Result<MoveResult, MoveResult>>,
    ApiError,
>) -> bool {
    match r {
        Ok(list) => {
            &&& spec_payload(resp) matches Some(d)
            &&& jarr(d) is Some
            &&& list@.len() == jarr(d)->Some_0.len()
            &&& forall|i: int|
                0 <= i < list@.len() ==> move_outcome_matches(
                    c,
                    jarr(d)->Some_0[i],
                    #[trigger] list@[i],
                )
        },
        Err(e) => spec_typed_error(resp, (|d: serde_json::Value| spec_move_result_list_ok(d)), e),
    }
}

/// What one slot of a batch pin answer yields: the success shape becomes an
/// `Ok`, the error shape an `Err`, read in that order.
pub open spec fn pin_outcome_matches(elem: serde_json::Value, o: Result<
    PinResult,
    PinResult,
>) -> bool {
    match o {
        Ok(pr) => pin_result_matches(pr, elem) && pr is Success,
        Err(pr) => pin_result_matches(pr, elem) && pr is Error,
    }
}

/// What a batch pin or unpin operation yields for a raw outcome: one tagged
/// outcome per answer slot, in answer order.
pub open spec fn pin_outcomes_result(resp: Option<HttpResponse>, r: Result<
    Vec<Result<PinResult, PinResult>>,
    ApiError,
>) -> bool {
    match r {
        Ok(list) => {
            &&& spec_payload(resp) matches Some(d)
            &&& jarr(d) is Some
            &&& list@.len() == jarr(d)->Some_0.len()
            &&& forall|i: int|
                0 <= i < list@.len() ==> pin_outcome_matches(jarr(d)->Some_0[i], #[trigger] list@[i])
        },
        Err(e) => spec_typed_error(resp, (|d: serde_json::Value| spec_pin_result_list_ok(d)), e),
    }
}

/// Settles a post-returning outcome: unwraps the envelope, decodes the post,
/// and attaches the session.
pub fn finish_post(client: &Client, resp: &Option<HttpResponse>) -> (r: Result<Post, ApiError>)
    ensures
        attached_post_result(*client, *resp, r),
{
    let data = match client.api().extract_response(resp) {
        Ok(d) => d,
        Err(e) => {
            return Err(e);
        },
    };
    match decode_post(&data) {
        Some(mut p) => {
            let attached = p.with_client(client.duplicate());
            proof {
                lemma_post_attach(attached, p, data);
            }
            Ok(attached)
        },
        None => match resp {
            Some(h) => Err(ApiError::ParseError { text: h.body.clone() }),
            None => Err(ApiError::UnknownError {}),
        },
    }
}

/// Settles a collection-returning outcome: unwraps the envelope, decodes the
/// collection, and attaches the session.
pub fn finish_collection(client: &Client, resp: &Option<HttpResponse>) -> (r: Result<
    Collection,
    ApiError,
>)
    ensures
        attached_collection_result(*client, *resp, r),
{
    let data = match client.api().extract_response(resp) {
        Ok(d) => d,
        Err(e) => {
            return Err(e);
        },
    };
    match decode_collection(&data) {
        Some(mut c) => {
            let attached = c.with_client(client.duplicate());
            proof {
                lemma_collection_attach(attached, c, data);
            }
            Ok(attached)
        },
        None => match resp {
            Some(h) => Err(ApiError::ParseError { text: h.body.clone() }),
            None => Err(ApiError::UnknownError {}),
        },
    }
}

/// Settles a post-list outcome: unwraps the envelope, decodes every element,
/// and attaches the session to each, keeping order.
pub fn finish_post_list(client: &Client, resp: &Option<HttpResponse>) -> (r: Result<
    Vec<Post>,
    ApiError,
>)
    ensures
        attached_post_list_result(*client, *resp, r),
{
    let data = match client.api().extract_response(resp) {
        Ok(d) => d,
        Err(e) => {
            return Err(e);
        },
    };
    match decode_post_list(&data) {
        Some(ps) => {
            let ghost all = jarr(data)->Some_0;
            let mut out: Vec<Post> = Vec::new();
            let mut i: usize = 0;
            let n = ps.len();
            while i < n
                invariant
                    n == ps@.len(),
                    i <= n,
                    out@.len() == i,
                    all.len() == n,
                    forall|j: int| 0 <= j < n ==> post_fields_match(#[trigger] ps@[j], all[j]),
                    forall|j: int|
                        0 <= j < i ==> post_fields_match(#[trigger] out@[j], all[j])
                            && out@[j].client == Some(*client),
                decreases n - i,
            {
                let mut p = ps[i].duplicate();
                let attached = p.with_client(client.duplicate());
                proof {
                    lemma_post_attach(attached, ps@[i as int], all[i as int]);
                }
                out.push(attached);
                i = i + 1;
            }
            Ok(out)
        },
        None => match resp {
            Some(h) => Err(ApiError::ParseError { text: h.body.clone() }),
            None => Err(ApiError::UnknownError {}),
        },
    }
}

/// Settles a collection-list outcome: unwraps the envelope, decodes every
/// element, and attaches the session to each, keeping order.
pub fn finish_collection_list(client: &Client, resp: &Option<HttpResponse>) -> (r: Result<
    Vec<Collection>,
    ApiError,
>)
    ensures
        attached_collection_list_result(*client, *resp, r),
{
    let data = match client.api().extract_response(resp) {
        Ok(d) => d,
        Err(e) => {
            return Err(e);
        },
    };
    match decode_collection_list(&data) {
        Some(cs) => {
            let ghost all = jarr(data)->Some_0;
            let mut out: Vec<Collection> = Vec::new();
            let mut i: usize = 0;
            let n = cs.len();
            while i < n
                invariant
                    n == cs@.len(),
                    i <= n,
                    out@.len() == i,
                    all.len() == n,
                    forall|j: int|
                        0 <= j < n ==> collection_fields_match(#[trigger] cs@[j], all[j]),
                    forall|j: int|
                        0 <= j < i ==> collection_fields_match(#[trigger] out@[j], all[j])
                            && out@[j].client == Some(*client),
                decreases n - i,
            {
                let mut c = cs[i].duplicate();
                let attached = c.with_client(client.duplicate());
                proof {
                    lemma_collection_attach(attached, cs@[i as int], all[i as int]);
                }
                out.push(attached);
                i = i + 1;
            }
            Ok(out)
        },
        None => match resp {
            Some(h) => Err(ApiError::ParseError { text: h.body.clone() }),
            None => Err(ApiError::UnknownError {}),
        },
    }
}

/// Settles an outcome whose payload must be JSON null.
pub fn finish_unit(client: &Client, resp: &Option<HttpResponse>) -> (r: Result<(), ApiError>)
    ensures
        unit_result(*resp, r),
{
    let data = match client.api().extract_response(resp) {
        Ok(d) => d,
        Err(e) => {
            return Err(e);
        },
    };
    if json_is_null(&data) {
        Ok(())
    } else {
        match resp {
            Some(h) => Err(ApiError::ParseError { text: h.body.clone() }),
            None => Err(ApiError::UnknownError {}),
        }
    }
}

/// Settles a batch move outcome: decodes the parallel answer list and tags
/// each slot, attaching the session to every moved post.
pub fn finish_move_outcomes(client: &Client, resp: &Option<HttpResponse>) -> (r: Result<
    Vec<Result<MoveResult, MoveResult>>,
    ApiError,
>)
    ensures
        move_outcomes_result(*client, *resp, r),
{
    let data = match client.api().extract_response(resp) {
        Ok(d) => d,
        Err(e) => {
            return Err(e);
        },
    };
    match decode_move_result_list(&data) {
        Some(results) => {
            let ghost all = jarr(data)->Some_0;
            let mut out: Vec<Result<MoveResult, MoveResult>> = Vec::new();
            let n = results.len();
            let mut i: usize = 0;
            while i < n
                invariant
                    n == results@.len(),
                    i <= n,
                    out@.len() == i,
                    all.len() == n,
                    forall|j: int|
                        0 <= j < n ==> crate::decode::move_result_matches(
                            #[trigger] results@[j],
                            all[j],
                        ),
                    forall|j: int|
                        0 <= j < i ==> move_outcome_matches(*client, all[j], #[trigger] out@[j]),
                decreases n - i,
            {
                match &results[i] {
                    MoveResult::Success { code, post } => {
                        let mut p = post.duplicate();
                        let attached = p.with_client(client.duplicate());
                        proof {
                            lemma_post_attach(
                                attached,
                                *post,
                                jfield(all[i as int], "post"@)->Some_0,
                            );
                        }
                        out.push(Ok(MoveResult::Success { code: *code, post: attached }));
                    },
                    MoveResult::Error { code, error_msg } => {
                        out.push(
                            Err(MoveResult::Error { code: *code, error_msg: error_msg.clone() }),
                        );
                    },
                }
                i = i + 1;
            }
            Ok(out)
        },
        None => match resp {
            Some(h) => Err(ApiError::ParseError { text: h.body.clone() }),
            None => Err(ApiError::UnknownError {}),
        },
    }
}

/// Settles a batch pin or unpin outcome: decodes the parallel answer list
/// and tags each slot.
pub fn finish_pin_outcomes(client: &Client, resp: &Option<HttpResponse>) -> (r: Result<
    Vec<Result<PinResult, PinResult>>,
    ApiError,
>)
    ensures
        pin_outcomes_result(*resp, r),
{
    let data = match client.api().extract_response(resp) {
        Ok(d) => d,
        Err(e) => {
            return Err(e);
        },
    };
    match decode_pin_result_list(&data) {
        Some(results) => {
            let ghost all = jarr(data)->Some_0;
            let mut out: Vec<Result<PinResult, PinResult>> = Vec::new();
            let n = results.len();
            let mut i: usize = 0;
            while i < n
                invariant
                    n == results@.len(),
                    i <= n,
                    out@.len() == i,
                    all.len() == n,
                    forall|j: int|
                        0 <= j < n ==> crate::decode::pin_result_matches(
                            #[trigger] results@[j],
                            all[j],
                        ),
                    forall|j: int|
                        0 <= j < i ==> pin_outcome_matches(all[j], #[trigger] out@[j]),
                decreases n - i,
            {
                match &results[i] {
                    PinResult::Success { code, id } => {
                        out.push(Ok(PinResult::Success { code: *code, id: id.clone() }));
                    },
                    PinResult::Error { code, error_msg } => {
                        out.push(Err(PinResult::Error { code: *code, error_msg: error_msg.clone() }));
                    },
                }
                i = i + 1;
            }
            Ok(out)
        },
        None => match resp {
            Some(h) => Err(ApiError::ParseError { text: h.body.clone() }),
            None => Err(ApiError::UnknownError {}),
        },
    }
}

/// What an operation that only checks the HTTP status yields: success on any
/// success status, the request or connection error otherwise.
pub open spec fn status_only_result(resp: Option<HttpResponse>, r: Result<(), ApiError>) -> bool {
    match resp {
        None => r == Err::<(), ApiError>(ApiError::ConnectionError {}),
        Some(h) => if crate::http::status_is_error(h.status) {
            &&& r matches Err(ApiError::Request { error })
            &&& error.code == h.status
            &&& error.reason.deep_view() == h.reason.deep_view()
        } else {
            r == Ok::<(), ApiError>(())
        },
    }
}

/// What unwrapping one slot of a batch move answer into a bare result
/// yields: the success shape's value with the session attached, or the error
/// shape's value, read in that order.
pub open spec fn attached_move_result_matches(
    c: Client,
    elem: serde_json::Value,
    m: MoveResult,
) -> bool {
    if spec_move_success_ok(elem) {
        &&& m matches MoveResult::Success { code, post }
        &&& spec_req_u32(elem, "code"@) == Some(code)
        &&& post.client == Some(c)
        &&& post_fields_match(post, jfield(elem, "post"@)->Some_0)
    } else if spec_move_error_ok(elem) {
        &&& m matches MoveResult::Error { code, error_msg }
        &&& spec_req_u32(elem, "code"@) == Some(code)
        &&& spec_req_str(elem, "error_msg"@) == Some(error_msg@)
    } else {
        false
    }
}

} // verus!
