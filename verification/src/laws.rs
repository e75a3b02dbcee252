//! The library-wide laws: properties that relate several operations, proved
//! once and for all from the operations' contracts alone.

use vstd::prelude::*;

use crate::api::Api;
use crate::api::spec_payload;
use crate::client::Client;
use crate::decode::post_matches;
use crate::decode::spec_move_decodable;
use crate::encode::post_creation_encoded;
use crate::errors::ApiError;
use crate::handlers::CollectionHandler;
use crate::http::HttpResponse;
use crate::http::RequestPlan;
use crate::json::jarr;
use crate::json::jobj;
use crate::models::Collection;
use crate::models::MoveResult;
use crate::models::Post;
use crate::models::PostCreation;
use crate::outcomes::move_outcome_matches;
use crate::urls::url_ok;

verus! {

/// For every session whose base URL accepts the API path, the composed URL
/// of a request is exactly the base URL, the `/api` prefix and the endpoint,
/// concatenated and nothing more.
pub proof fn lemma_url_composition(a: Api, endpoint: &str, r: Result<String, ApiError>)
    requires
        call_ensures(Api::url, (&a, endpoint), r),
        url_ok(a.spec_client().spec_base(), "/api"@ + endpoint@),
    ensures
        r matches Ok(u) && u@ == a.spec_client().spec_base() + "/api"@ + endpoint@,
{
}

/// A session built with no credentials is not authenticated. (The converse
/// half of the same property, that storing a literal token authenticates the
/// session, is an ensures clause of [`Client::authenticate`].)
pub proof fn lemma_new_session_unauthenticated(base: String, c: Client)
    requires
        call_ensures(Client::new, (base,), c),
    ensures
        !c.spec_is_authenticated(),
        c.spec_token() is None,
{
}

/// Logging out of an unauthenticated session always fails with the
/// logged-out error; the session, taken by shared reference, is untouched.
pub proof fn lemma_logout_requires_session(c: Client, r: Result<RequestPlan, ApiError>)
    requires
        !c.spec_is_authenticated(),
        call_ensures(Client::logout, (&c,), r),
    ensures
        r == Err::<RequestPlan, ApiError>(ApiError::LoggedOut {}),
{
}

/// Creating a collection with neither an alias nor a title fails with the
/// usage error, whatever the session's state: no request plan is produced,
/// so nothing reaches the network.
pub proof fn lemma_create_needs_alias_or_title(h: CollectionHandler, r: Result<
    RequestPlan,
    ApiError,
>)
    requires
        call_ensures(CollectionHandler::create, (&h, None::<String>, None::<String>), r),
    ensures
        r == Err::<RequestPlan, ApiError>(ApiError::UsageError {}),
{
}

/// A batch take whose answer carries N parallel decodable results yields
/// exactly N tagged outcomes, in answer order, each successful one carrying
/// the session. (The answer list is assumed by the wire contract to mirror
/// the request list in length and order; no correlation ID is transmitted.)
pub proof fn lemma_take_posts_parallel(
    coll: Collection,
    resp: Option<HttpResponse>,
    r: Result<Vec<Result<MoveResult, MoveResult>>, ApiError>,
)
    requires
        coll.client is Some,
        call_ensures(Collection::take_posts_result, (&coll, &resp), r),
        spec_payload(resp) matches Some(d) && jarr(d) matches Some(elems) && (forall|i: int|
            0 <= i < elems.len() ==> spec_move_decodable(#[trigger] elems[i])),
    ensures
        r matches Ok(list) && list@.len() == jarr(spec_payload(resp)->Some_0)->Some_0.len(),
        forall|i: int|
            0 <= i < jarr(spec_payload(resp)->Some_0)->Some_0.len() ==> move_outcome_matches(
                coll.client->Some_0,
                jarr(spec_payload(resp)->Some_0)->Some_0[i],
                #[trigger] r->Ok_0@[i],
            ),
{
}

/// Round trip: take a draft's encoded request object, and any post payload
/// the server answers with that echoes the draft's `body` and `title` fields;
/// the decoded post then carries the draft's body and title unchanged. (A
/// draft names no tags, so there are none to preserve.)
pub proof fn lemma_publish_roundtrip(
    c: PostCreation,
    bv: serde_json::Value,
    v: serde_json::Value,
    p: Post,
)
    requires
        post_creation_encoded(c, bv),
        jobj(v) matches Some(m) && jobj(bv) matches Some(mb) && {
            &&& m.contains_key("body"@)
            &&& m["body"@] == mb["body"@]
            &&& m.contains_key("title"@)
            &&& m["title"@] == mb["title"@]
        },
        post_matches(p, v),
    ensures
        p.body@ == c.body@,
        p.title.deep_view() == c.title.deep_view(),
{
}

} // verus!
