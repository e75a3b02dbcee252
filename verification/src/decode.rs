//! Decoding typed models from JSON payloads.
//!
//! The server's payloads are JSON objects. A *required* field must be present
//! with the right shape; an *optional* field may be missing or null, but if
//! present with another shape it must still have the right one. Any breach is
//! a decode failure, surfaced by the callers as a parse error carrying the
//! raw response text.
//!
//! Each decoder's contract is exact: a spec predicate says when a payload
//! decodes, and a matching predicate pins every field of the decoded value to
//! the payload's contents.

use vstd::prelude::*;

use crate::json::jarr;
use crate::json::jbool;
use crate::json::jnull;
use crate::json::jnum_u64;
use crate::json::jobj;
use crate::json::jstr;
use crate::json::json_as_array;
use crate::json::json_as_bool;
use crate::json::json_as_str;
use crate::json::json_as_u64;
use crate::json::json_get;
use crate::json::json_is_null;
use crate::models::Collection;
use crate::models::MoveResult;
use crate::models::PinResult;
use crate::models::Post;
use crate::models::PostAppearance;
use crate::models::User;
use crate::responses::Login;
use crate::responses::ResponseModel;
use crate::models::appearance_of;
use crate::models::spec_appearance_of;

verus! {

/// The value of a field of a JSON object, when the value is an object and
/// carries the field.
pub open spec fn jfield(v: serde_json::Value, key: Seq<char>) -> Option<serde_json::Value> {
    match jobj(v) {
        Some(m) => if m.contains_key(key) {
            Some(m[key])
        } else {
            None
        },
        None => None,
    }
}

/// The decoded contents of a required string field; `None` is a decode
/// failure.
pub open spec fn spec_req_str(v: serde_json::Value, key: Seq<char>) -> Option<Seq<char>> {
    match jfield(v, key) {
        Some(w) => jstr(w),
        None => None,
    }
}

/// The decoded contents of an optional string field: missing or null reads as
/// an absent value; an outer `None` is a decode failure.
pub open spec fn spec_opt_str(v: serde_json::Value, key: Seq<char>) -> Option<Option<Seq<char>>> {
    match jfield(v, key) {
        None => Some(None),
        Some(w) => if jnull(w) {
            Some(None)
        } else {
            match jstr(w) {
                Some(s) => Some(Some(s)),
                None => None,
            }
        },
    }
}

/// The decoded contents of a required boolean field; `None` is a decode
/// failure.
pub open spec fn spec_req_bool(v: serde_json::Value, key: Seq<char>) -> Option<bool> {
    match jfield(v, key) {
        Some(w) => jbool(w),
        None => None,
    }
}

/// The decoded contents of an optional unsigned-number field: missing or null
/// reads as an absent value; an outer `None` is a decode failure.
pub open spec fn spec_opt_u64(v: serde_json::Value, key: Seq<char>) -> Option<Option<u64>> {
    match jfield(v, key) {
        None => Some(None),
        Some(w) => if jnull(w) {
            Some(None)
        } else {
            match jnum_u64(w) {
                Some(n) => Some(Some(n)),
                None => None,
            }
        },
    }
}

/// The decoded contents of a required numeric field that must fit a `u32`;
/// `None` is a decode failure.
pub open spec fn spec_req_u32(v: serde_json::Value, key: Seq<char>) -> Option<u32> {
    match jfield(v, key) {
        Some(w) => match jnum_u64(w) {
            Some(n) => if n <= 0xffff_ffff {
                Some(n as u32)
            } else {
                None
            },
            None => None,
        },
        None => None,
    }
}

/// The decoded contents of an optional appearance field: missing or null
/// reads as an absent value; a string must name an appearance; an outer
/// `None` is a decode failure.
pub open spec fn spec_opt_appearance(v: serde_json::Value, key: Seq<char>) -> Option<
    Option<PostAppearance>,
> {
    match jfield(v, key) {
        None => Some(None),
        Some(w) => if jnull(w) {
            Some(None)
        } else {
            match jstr(w) {
                Some(s) => match spec_appearance_of(s) {
                    Some(a) => Some(Some(a)),
                    None => None,
                },
                None => None,
            }
        },
    }
}

/// The decoded contents of a required string-array field: every element must
/// be a string; `None` is a decode failure.
pub open spec fn spec_req_str_array(v: serde_json::Value, key: Seq<char>) -> Option<
    Seq<Seq<char>>,
> {
    match jfield(v, key) {
        Some(w) => match jarr(w) {
            Some(elems) => if forall|i: int| 0 <= i < elems.len() ==> jstr(#[trigger] elems[i])
                is Some {
                Some(Seq::new(elems.len(), |i: int| jstr(elems[i])->Some_0))
            } else {
                None
            },
            None => None,
        },
        None => None,
    }
}

/// Reads a required string field.
pub fn get_req_str(v: &serde_json::Value, key: &str) -> (r: Option<String>)
    ensures
        match r {
            Some(s) => spec_req_str(*v, key@) == Some(s@),
            None => spec_req_str(*v, key@) is None,
        },
{
    match json_get(v, key) {
        Some(w) => json_as_str(&w),
        None => None,
    }
}

/// Reads an optional string field.
pub fn get_opt_str(v: &serde_json::Value, key: &str) -> (r: Option<Option<String>>)
    ensures
        match r {
            Some(os) => spec_opt_str(*v, key@) == Some(os.deep_view()),
            None => spec_opt_str(*v, key@) is None,
        },
{
    match json_get(v, key) {
        None => Some(None),
        Some(w) => {
            if json_is_null(&w) {
                Some(None)
            } else {
                match json_as_str(&w) {
                    Some(s) => Some(Some(s)),
                    None => None,
                }
            }
        },
    }
}

/// Reads a required boolean field.
pub fn get_req_bool(v: &serde_json::Value, key: &str) -> (r: Option<bool>)
    ensures
        match r {
            Some(b) => spec_req_bool(*v, key@) == Some(b),
            None => spec_req_bool(*v, key@) is None,
        },
{
    match json_get(v, key) {
        Some(w) => json_as_bool(&w),
        None => None,
    }
}

/// Reads an optional unsigned-number field.
pub fn get_opt_u64(v: &serde_json::Value, key: &str) -> (r: Option<Option<u64>>)
    ensures
        match r {
            Some(on) => spec_opt_u64(*v, key@) == Some(on),
            None => spec_opt_u64(*v, key@) is None,
        },
{
    match json_get(v, key) {
        None => Some(None),
        Some(w) => {
            if json_is_null(&w) {
                Some(None)
            } else {
                match json_as_u64(&w) {
                    Some(n) => Some(Some(n)),
                    None => None,
                }
            }
        },
    }
}

/// Reads a required numeric field that must fit a `u32`.
pub fn get_req_u32(v: &serde_json::Value, key: &str) -> (r: Option<u32>)
    ensures
        match r {
            Some(n) => spec_req_u32(*v, key@) == Some(n),
            None => spec_req_u32(*v, key@) is None,
        },
{
    match json_get(v, key) {
        Some(w) => match json_as_u64(&w) {
            Some(n) => if n <= 0xffff_ffff {
                Some(n as u32)
            } else {
                None
            },
            None => None,
        },
        None => None,
    }
}

/// Reads an optional appearance field.
pub fn get_opt_appearance(v: &serde_json::Value, key: &str) -> (r: Option<Option<PostAppearance>>)
    ensures
        match r {
            Some(oa) => spec_opt_appearance(*v, key@) == Some(oa),
            None => spec_opt_appearance(*v, key@) is None,
        },
{
    match json_get(v, key) {
        None => Some(None),
        Some(w) => {
            if json_is_null(&w) {
                Some(None)
            } else {
                match json_as_str(&w) {
                    Some(s) => match appearance_of(s.as_str()) {
                        Some(a) => Some(Some(a)),
                        None => None,
                    },
                    None => None,
                }
            }
        },
    }
}

/// Reads a required string-array field.
pub fn get_req_str_array(v: &serde_json::Value, key: &str) -> (r: Option<Vec<String>>)
    ensures
        match r {
            Some(ss) => spec_req_str_array(*v, key@) == Some(ss.deep_view()),
            None => spec_req_str_array(*v, key@) is None,
        },
{
    match json_get(v, key) {
        Some(w) => match json_as_array(&w) {
            Some(elems) => {
                let ghost all = jarr(w)->Some_0;
                let mut out: Vec<String> = Vec::new();
                let mut i: usize = 0;
                while i < elems.len()
                    invariant
                        jfield(*v, key@) == Some(w),
                        jarr(w) == Some(all),
                        elems@ == all,
                        i <= elems.len(),
                        out@.len() == i,
                        forall|j: int| 0 <= j < i ==> jstr(#[trigger] all[j]) == Some(
                            out@[j]@,
                        ),
                    decreases elems.len() - i,
                {
                    match json_as_str(&elems[i]) {
                        Some(s) => out.push(s),
                        None => {
                            proof {
                                assert(jfield(*v, key@) == Some(w));
                                assert(jstr(all[i as int]) is None);
                                assert(!(forall|j: int|
                                    0 <= j < all.len() ==> jstr(#[trigger] all[j]) is Some)) by {
                                    if forall|j: int|
                                        0 <= j < all.len() ==> jstr(#[trigger] all[j]) is Some {
                                        assert(jstr(all[i as int]) is Some);
                                    }
                                }
                            }
                            return None;
                        },
                    }
                    i = i + 1;
                }
                proof {
                    assert(forall|j: int| 0 <= j < all.len() ==> jstr(#[trigger] all[j]) is Some);
                    assert(out.deep_view().len() == all.len());
                    assert forall|j: int| 0 <= j < all.len() implies out.deep_view()[j] == jstr(
                        all[j],
                    )->Some_0 by {
                        assert(jstr(all[j]) == Some(out@[j]@));
                    }
                    assert(out.deep_view() =~= Seq::new(all.len(), |j: int| jstr(all[j])->Some_0));
                }
                Some(out)
            },
            None => None,
        },
        None => None,
    }
}

/// The decoded contents of a required numeric field that must fit a `u16`;
/// `None` is a decode failure.
pub open spec fn spec_req_u16(v: serde_json::Value, key: Seq<char>) -> Option<u16> {
    match jfield(v, key) {
        Some(w) => match jnum_u64(w) {
            Some(n) => if n <= 0xffff {
                Some(n as u16)
            } else {
                None
            },
            None => None,
        },
        None => None,
    }
}

/// Reads a required numeric field that must fit a `u16`.
pub fn get_req_u16(v: &serde_json::Value, key: &str) -> (r: Option<u16>)
    ensures
        match r {
            Some(n) => spec_req_u16(*v, key@) == Some(n),
            None => spec_req_u16(*v, key@) is None,
        },
{
    match json_get(v, key) {
        Some(w) => match json_as_u64(&w) {
            Some(n) => if n <= 0xffff {
                Some(n as u16)
            } else {
                None
            },
            None => None,
        },
        None => None,
    }
}

/// Whether a user value carries exactly the fields of a payload.
pub open spec fn user_matches(u: User, v: serde_json::Value) -> bool {
    &&& spec_req_str(v, "username"@) == Some(u.username@)
    &&& spec_opt_str(v, "email"@) == Some(u.email.deep_view())
    &&& spec_opt_str(v, "created"@) == Some(u.created.deep_view())
}

/// Whether a payload decodes as a user.
pub open spec fn spec_user_ok(v: serde_json::Value) -> bool {
    &&& spec_req_str(v, "username"@) is Some
    &&& spec_opt_str(v, "email"@) is Some
    &&& spec_opt_str(v, "created"@) is Some
}

/// Decodes a user from a payload.
pub fn decode_user(v: &serde_json::Value) -> (r: Option<User>)
    ensures
        match r {
            Some(u) => user_matches(u, *v),
            None => !spec_user_ok(*v),
        },
{
    let username = match get_req_str(v, "username") {
        Some(s) => s,
        None => {
            return None;
        },
    };
    let email = match get_opt_str(v, "email") {
        Some(o) => o,
        None => {
            return None;
        },
    };
    let created = match get_opt_str(v, "created") {
        Some(o) => o,
        None => {
            return None;
        },
    };
    Some(User { username, email, created })
}

/// Whether a collection value carries exactly the domain fields of a
/// payload, whatever its attached session.
pub open spec fn collection_fields_match(c: Collection, v: serde_json::Value) -> bool {
    &&& spec_req_str(v, "alias"@) == Some(c.alias@)
    &&& spec_req_str(v, "title"@) == Some(c.title@)
    &&& spec_opt_str(v, "description"@) == Some(c.description.deep_view())
    &&& spec_opt_str(v, "style_sheet"@) == Some(c.style_sheet.deep_view())
    &&& spec_req_bool(v, "public"@) == Some(c.public)
    &&& spec_opt_u64(v, "views"@) == Some(c.views)
    &&& spec_opt_str(v, "verification_link"@) == Some(c.verification_link.deep_view())
    &&& spec_opt_u64(v, "total_posts"@) == Some(c.total_posts)
}

/// Whether a collection value carries exactly the fields of a payload, with
/// no session attached.
pub open spec fn collection_matches(c: Collection, v: serde_json::Value) -> bool {
    c.client is None && collection_fields_match(c, v)
}

/// Whether a payload decodes as a collection.
pub open spec fn spec_collection_ok(v: serde_json::Value) -> bool {
    &&& spec_req_str(v, "alias"@) is Some
    &&& spec_req_str(v, "title"@) is Some
    &&& spec_opt_str(v, "description"@) is Some
    &&& spec_opt_str(v, "style_sheet"@) is Some
    &&& spec_req_bool(v, "public"@) is Some
    &&& spec_opt_u64(v, "views"@) is Some
    &&& spec_opt_str(v, "verification_link"@) is Some
    &&& spec_opt_u64(v, "total_posts"@) is Some
}

/// Decodes a collection from a payload. The session is attached afterwards,
/// by the operation that asked for the fetch.
pub fn decode_collection(v: &serde_json::Value) -> (r: Option<Collection>)
    ensures
        match r {
            Some(c) => collection_matches(c, *v),
            None => !spec_collection_ok(*v),
        },
{
    let alias = match get_req_str(v, "alias") {
        Some(s) => s,
        None => {
            return None;
        },
    };
    let title = match get_req_str(v, "title") {
        Some(s) => s,
        None => {
            return None;
        },
    };
    let description = match get_opt_str(v, "description") {
        Some(o) => o,
        None => {
            return None;
        },
    };
    let style_sheet = match get_opt_str(v, "style_sheet") {
        Some(o) => o,
        None => {
            return None;
        },
    };
    let public = match get_req_bool(v, "public") {
        Some(b) => b,
        None => {
            return None;
        },
    };
    let views = match get_opt_u64(v, "views") {
        Some(o) => o,
        None => {
            return None;
        },
    };
    let verification_link = match get_opt_str(v, "verification_link") {
        Some(o) => o,
        None => {
            return None;
        },
    };
    let total_posts = match get_opt_u64(v, "total_posts") {
        Some(o) => o,
        None => {
            return None;
        },
    };
    Some(
        Collection {
            client: None,
            alias,
            title,
            description,
            style_sheet,
            public,
            views,
            verification_link,
            total_posts,
        },
    )
}

/// Whether a post value carries exactly the domain fields of a payload,
/// whatever its attached session.
pub open spec fn post_fields_match(p: Post, v: serde_json::Value) -> bool {
    &&& spec_req_str(v, "id"@) == Some(p.id@)
    &&& spec_opt_str(v, "slug"@) == Some(p.slug.deep_view())
    &&& spec_opt_appearance(v, "appearance"@) == Some(p.appearance)
    &&& spec_opt_str(v, "language"@) == Some(p.language.deep_view())
    &&& spec_req_bool(v, "rtl"@) == Some(p.rtl)
    &&& spec_opt_str(v, "created"@) == Some(p.created.deep_view())
    &&& spec_opt_str(v, "title"@) == Some(p.title.deep_view())
    &&& spec_req_str(v, "body"@) == Some(p.body@)
    &&& spec_req_str_array(v, "tags"@) == Some(p.tags.deep_view())
    &&& spec_opt_u64(v, "views"@) == Some(p.views)
    &&& (match jfield(v, "collection"@) {
        None => p.collection is None,
        Some(w) => if jnull(w) {
            p.collection is None
        } else {
            p.collection matches Some(c) && collection_matches(c, w)
        },
    })
    &&& spec_opt_str(v, "token"@) == Some(p.token.deep_view())
}

/// Whether a post value carries exactly the fields of a payload, with no
/// session attached.
pub open spec fn post_matches(p: Post, v: serde_json::Value) -> bool {
    p.client is None && post_fields_match(p, v)
}

/// Whether a payload decodes as a post.
pub open spec fn spec_post_ok(v: serde_json::Value) -> bool {
    &&& spec_req_str(v, "id"@) is Some
    &&& spec_opt_str(v, "slug"@) is Some
    &&& spec_opt_appearance(v, "appearance"@) is Some
    &&& spec_opt_str(v, "language"@) is Some
    &&& spec_req_bool(v, "rtl"@) is Some
    &&& spec_opt_str(v, "created"@) is Some
    &&& spec_opt_str(v, "title"@) is Some
    &&& spec_req_str(v, "body"@) is Some
    &&& spec_req_str_array(v, "tags"@) is Some
    &&& spec_opt_u64(v, "views"@) is Some
    &&& (match jfield(v, "collection"@) {
        None => true,
        Some(w) => jnull(w) || spec_collection_ok(w),
    })
    &&& spec_opt_str(v, "token"@) is Some
}

/// Decodes a post from a payload. The session is attached afterwards, by the
/// operation that asked for the fetch.
pub fn decode_post(v: &serde_json::Value) -> (r: Option<Post>)
    ensures
        match r {
            Some(p) => post_matches(p, *v),
            None => !spec_post_ok(*v),
        },
{
    let id = match get_req_str(v, "id") {
        Some(s) => s,
        None => {
            return None;
        },
    };
    let slug = match get_opt_str(v, "slug") {
        Some(o) => o,
        None => {
            return None;
        },
    };
    let appearance = match get_opt_appearance(v, "appearance") {
        Some(o) => o,
        None => {
            return None;
        },
    };
    let language = match get_opt_str(v, "language") {
        Some(o) => o,
        None => {
            return None;
        },
    };
    let rtl = match get_req_bool(v, "rtl") {
        Some(b) => b,
        None => {
            return None;
        },
    };
    let created = match get_opt_str(v, "created") {
        Some(o) => o,
        None => {
            return None;
        },
    };
    let title = match get_opt_str(v, "title") {
        Some(o) => o,
        None => {
            return None;
        },
    };
    let body = match get_req_str(v, "body") {
        Some(s) => s,
        None => {
            return None;
        },
    };
    let tags = match get_req_str_array(v, "tags") {
        Some(ts) => ts,
        None => {
            return None;
        },
    };
    let views = match get_opt_u64(v, "views") {
        Some(o) => o,
        None => {
            return None;
        },
    };
    let collection = match json_get(v, "collection") {
        None => None,
        Some(w) => {
            if json_is_null(&w) {
                None
            } else {
                match decode_collection(&w) {
                    Some(c) => Some(c),
                    None => {
                        return None;
                    },
                }
            }
        },
    };
    let token = match get_opt_str(v, "token") {
        Some(o) => o,
        None => {
            return None;
        },
    };
    Some(
        Post {
            client: None,
            id,
            slug,
            appearance,
            language,
            rtl,
            created,
            title,
            body,
            tags,
            views,
            collection,
            token,
        },
    )
}

/// Whether a login payload carries exactly the issued token and user.
pub open spec fn login_matches(l: Login, v: serde_json::Value) -> bool {
    &&& spec_req_str(v, "access_token"@) == Some(l.access_token@)
    &&& (jfield(v, "user"@) matches Some(w) && user_matches(l.user, w))
}

/// Whether a payload decodes as a login response.
pub open spec fn spec_login_ok(v: serde_json::Value) -> bool {
    &&& spec_req_str(v, "access_token"@) is Some
    &&& (jfield(v, "user"@) matches Some(w) && spec_user_ok(w))
}

/// Decodes a login response from a payload.
pub fn decode_login(v: &serde_json::Value) -> (r: Option<Login>)
    ensures
        match r {
            Some(l) => login_matches(l, *v),
            None => !spec_login_ok(*v),
        },
{
    let access_token = match get_req_str(v, "access_token") {
        Some(s) => s,
        None => {
            return None;
        },
    };
    let user = match json_get(v, "user") {
        Some(w) => match decode_user(&w) {
            Some(u) => u,
            None => {
                return None;
            },
        },
        None => {
            return None;
        },
    };
    Some(Login { access_token, user })
}

/// Whether an envelope value carries exactly the code and payload of a body.
pub open spec fn envelope_matches(rm: ResponseModel, v: serde_json::Value) -> bool {
    &&& spec_req_u16(v, "code"@) == Some(rm.code)
    &&& jfield(v, "data"@) == Some(rm.data)
}

/// Whether a payload decodes as a response envelope.
pub open spec fn spec_envelope_ok(v: serde_json::Value) -> bool {
    &&& spec_req_u16(v, "code"@) is Some
    &&& jfield(v, "data"@) is Some
}

/// Decodes the server's `{code, data}` envelope from a parsed body.
pub fn decode_envelope(v: &serde_json::Value) -> (r: Option<ResponseModel>)
    ensures
        match r {
            Some(rm) => envelope_matches(rm, *v),
            None => !spec_envelope_ok(*v),
        },
{
    let code = match get_req_u16(v, "code") {
        Some(c) => c,
        None => {
            return None;
        },
    };
    let data = match json_get(v, "data") {
        Some(d) => d,
        None => {
            return None;
        },
    };
    Some(ResponseModel { code, data })
}

/// Whether a payload fits the success shape of a per-item move result: a
/// `code` and a decodable `post`.
pub open spec fn spec_move_success_ok(v: serde_json::Value) -> bool {
    &&& spec_req_u32(v, "code"@) is Some
    &&& (jfield(v, "post"@) matches Some(w) && spec_post_ok(w))
}

/// Whether a payload fits the error shape of a per-item move result: a
/// `code` and an `error_msg`.
pub open spec fn spec_move_error_ok(v: serde_json::Value) -> bool {
    &&& spec_req_u32(v, "code"@) is Some
    &&& spec_req_str(v, "error_msg"@) is Some
}

/// Whether a move result reads a payload the way the wire contract asks:
/// the success shape is tried first and the error shape second, since the
/// wire carries no discriminator field.
pub open spec fn move_result_matches(m: MoveResult, v: serde_json::Value) -> bool {
    if spec_move_success_ok(v) {
        &&& m matches MoveResult::Success { code, post }
        &&& spec_req_u32(v, "code"@) == Some(code)
        &&& post_matches(post, jfield(v, "post"@)->Some_0)
    } else if spec_move_error_ok(v) {
        &&& m matches MoveResult::Error { code, error_msg }
        &&& spec_req_u32(v, "code"@) == Some(code)
        &&& spec_req_str(v, "error_msg"@) == Some(error_msg@)
    } else {
        false
    }
}

/// Decodes a per-item move result: the success shape first, then the error
/// shape. The two shapes are told apart only by which fields are present,
/// which the wire contract leaves inherently ambiguous.
pub fn decode_move_result(v: &serde_json::Value) -> (r: Option<MoveResult>)
    ensures
        match r {
            Some(m) => move_result_matches(m, *v),
            None => !spec_move_success_ok(*v) && !spec_move_error_ok(*v),
        },
{
    let code = match get_req_u32(v, "code") {
        Some(c) => c,
        None => {
            return None;
        },
    };
    match json_get(v, "post") {
        Some(w) => match decode_post(&w) {
            Some(p) => {
                return Some(MoveResult::Success { code, post: p });
            },
            None => {},
        },
        None => {},
    }
    match get_req_str(v, "error_msg") {
        Some(msg) => Some(MoveResult::Error { code, error_msg: msg }),
        None => None,
    }
}

/// Whether a payload fits the success shape of a per-item pin result: a
/// `code` and the affected post's `id`.
pub open spec fn spec_pin_success_ok(v: serde_json::Value) -> bool {
    &&& spec_req_u32(v, "code"@) is Some
    &&& spec_req_str(v, "id"@) is Some
}

/// Whether a payload fits the error shape of a per-item pin result: a `code`
/// and an `error_msg`.
pub open spec fn spec_pin_error_ok(v: serde_json::Value) -> bool {
    &&& spec_req_u32(v, "code"@) is Some
    &&& spec_req_str(v, "error_msg"@) is Some
}

/// Whether a pin result reads a payload the way the wire contract asks: the
/// success shape is tried first and the error shape second.
pub open spec fn pin_result_matches(m: PinResult, v: serde_json::Value) -> bool {
    if spec_pin_success_ok(v) {
        &&& m matches PinResult::Success { code, id }
        &&& spec_req_u32(v, "code"@) == Some(code)
        &&& spec_req_str(v, "id"@) == Some(id@)
    } else if spec_pin_error_ok(v) {
        &&& m matches PinResult::Error { code, error_msg }
        &&& spec_req_u32(v, "code"@) == Some(code)
        &&& spec_req_str(v, "error_msg"@) == Some(error_msg@)
    } else {
        false
    }
}

/// Decodes a per-item pin result: the success shape first, then the error
/// shape.
pub fn decode_pin_result(v: &serde_json::Value) -> (r: Option<PinResult>)
    ensures
        match r {
            Some(m) => pin_result_matches(m, *v),
            None => !spec_pin_success_ok(*v) && !spec_pin_error_ok(*v),
        },
{
    let code = match get_req_u32(v, "code") {
        Some(c) => c,
        None => {
            return None;
        },
    };
    match get_req_str(v, "id") {
        Some(id) => {
            return Some(PinResult::Success { code, id });
        },
        None => {},
    }
    match get_req_str(v, "error_msg") {
        Some(msg) => Some(PinResult::Error { code, error_msg: msg }),
        None => None,
    }
}

/// Whether a payload fits either shape of a per-item move result.
pub open spec fn spec_move_decodable(v: serde_json::Value) -> bool {
    spec_move_success_ok(v) || spec_move_error_ok(v)
}

/// Whether a payload fits either shape of a per-item pin result.
pub open spec fn spec_pin_decodable(v: serde_json::Value) -> bool {
    spec_pin_success_ok(v) || spec_pin_error_ok(v)
}

/// Whether every element of a payload array decodes as a post.
pub open spec fn spec_post_list_ok(v: serde_json::Value) -> bool {
    jarr(v) matches Some(elems) && (forall|i: int|
        0 <= i < elems.len() ==> spec_post_ok(#[trigger] elems[i]))
}

/// Decodes a payload array of posts, element for element, keeping order.
pub fn decode_post_list(v: &serde_json::Value) -> (r: Option<Vec<Post>>)
    ensures
        match r {
            Some(out) => {
                &&& jarr(*v) is Some
                &&& out@.len() == jarr(*v)->Some_0.len()
                &&& forall|i: int|
                    0 <= i < out@.len() ==> post_matches(#[trigger] out@[i], jarr(*v)->Some_0[i])
            },
            None => !spec_post_list_ok(*v),
        },
{
    let elems = match json_as_array(v) {
        Some(es) => es,
        None => {
            return None;
        },
    };
    let ghost all = jarr(*v)->Some_0;
    let mut out: Vec<Post> = Vec::new();
    let mut i: usize = 0;
    while i < elems.len()
        invariant
            jarr(*v) == Some(all),
            elems@ == all,
            i <= elems.len(),
            out@.len() == i,
            forall|j: int| 0 <= j < i ==> post_matches(#[trigger] out@[j], all[j]),
        decreases elems.len() - i,
    {
        match decode_post(&elems[i]) {
            Some(p) => out.push(p),
            None => {
                proof {
                    assert(!spec_post_list_ok(*v)) by {
                        if spec_post_list_ok(*v) {
                            assert(spec_post_ok(jarr(*v)->Some_0[i as int]));
                            assert(false);
                        }
                    }
                }
                return None;
            },
        }
        i = i + 1;
    }
    Some(out)
}

/// Whether every element of a payload array decodes as a collection.
pub open spec fn spec_collection_list_ok(v: serde_json::Value) -> bool {
    jarr(v) matches Some(elems) && (forall|i: int|
        0 <= i < elems.len() ==> spec_collection_ok(#[trigger] elems[i]))
}

/// Decodes a payload array of collections, element for element, keeping order.
pub fn decode_collection_list(v: &serde_json::Value) -> (r: Option<Vec<Collection>>)
    ensures
        match r {
            Some(out) => {
                &&& jarr(*v) is Some
                &&& out@.len() == jarr(*v)->Some_0.len()
                &&& forall|i: int|
                    0 <= i < out@.len() ==> collection_matches(#[trigger] out@[i], jarr(*v)->Some_0[i])
            },
            None => !spec_collection_list_ok(*v),
        },
{
    let elems = match json_as_array(v) {
        Some(es) => es,
        None => {
            return None;
        },
    };
    let ghost all = jarr(*v)->Some_0;
    let mut out: Vec<Collection> = Vec::new();
    let mut i: usize = 0;
    while i < elems.len()
        invariant
            jarr(*v) == Some(all),
            elems@ == all,
            i <= elems.len(),
            out@.len() == i,
            forall|j: int| 0 <= j < i ==> collection_matches(#[trigger] out@[j], all[j]),
        decreases elems.len() - i,
    {
        match decode_collection(&elems[i]) {
            Some(p) => out.push(p),
            None => {
                proof {
                    assert(!spec_collection_list_ok(*v)) by {
                        if spec_collection_list_ok(*v) {
                            assert(spec_collection_ok(jarr(*v)->Some_0[i as int]));
                            assert(false);
                        }
                    }
                }
                return None;
            },
        }
        i = i + 1;
    }
    Some(out)
}

/// Whether every element of a payload array decodes as a per-item move result.
pub open spec fn spec_move_result_list_ok(v: serde_json::Value) -> bool {
    jarr(v) matches Some(elems) && (forall|i: int|
        0 <= i < elems.len() ==> spec_move_decodable(#[trigger] elems[i]))
}

/// Decodes a payload array of per-item move results, element for element, keeping order.
pub fn decode_move_result_list(v: &serde_json::Value) -> (r: Option<Vec<MoveResult>>)
    ensures
        match r {
            Some(out) => {
                &&& jarr(*v) is Some
                &&& out@.len() == jarr(*v)->Some_0.len()
                &&& forall|i: int|
                    0 <= i < out@.len() ==> move_result_matches(#[trigger] out@[i], jarr(*v)->Some_0[i])
            },
            None => !spec_move_result_list_ok(*v),
        },
{
    let elems = match json_as_array(v) {
        Some(es) => es,
        None => {
            return None;
        },
    };
    let ghost all = jarr(*v)->Some_0;
    let mut out: Vec<MoveResult> = Vec::new();
    let mut i: usize = 0;
    while i < elems.len()
        invariant
            jarr(*v) == Some(all),
            elems@ == all,
            i <= elems.len(),
            out@.len() == i,
            forall|j: int| 0 <= j < i ==> move_result_matches(#[trigger] out@[j], all[j]),
        decreases elems.len() - i,
    {
        match decode_move_result(&elems[i]) {
            Some(p) => out.push(p),
            None => {
                proof {
                    assert(!spec_move_result_list_ok(*v)) by {
                        if spec_move_result_list_ok(*v) {
                            assert(spec_move_decodable(jarr(*v)->Some_0[i as int]));
                            assert(false);
                        }
                    }
                }
                return None;
            },
        }
        i = i + 1;
    }
    Some(out)
}

/// Whether every element of a payload array decodes as a per-item pin result.
pub open spec fn spec_pin_result_list_ok(v: serde_json::Value) -> bool {
    jarr(v) matches Some(elems) && (forall|i: int|
        0 <= i < elems.len() ==> spec_pin_decodable(#[trigger] elems[i]))
}

/// Decodes a payload array of per-item pin results, element for element, keeping order.
pub fn decode_pin_result_list(v: &serde_json::Value) -> (r: Option<Vec<PinResult>>)
    ensures
        match r {
            Some(out) => {
                &&& jarr(*v) is Some
                &&& out@.len() == jarr(*v)->Some_0.len()
                &&& forall|i: int|
                    0 <= i < out@.len() ==> pin_result_matches(#[trigger] out@[i], jarr(*v)->Some_0[i])
            },
            None => !spec_pin_result_list_ok(*v),
        },
{
    let elems = match json_as_array(v) {
        Some(es) => es,
        None => {
            return None;
        },
    };
    let ghost all = jarr(*v)->Some_0;
    let mut out: Vec<PinResult> = Vec::new();
    let mut i: usize = 0;
    while i < elems.len()
        invariant
            jarr(*v) == Some(all),
            elems@ == all,
            i <= elems.len(),
            out@.len() == i,
            forall|j: int| 0 <= j < i ==> pin_result_matches(#[trigger] out@[j], all[j]),
        decreases elems.len() - i,
    {
        match decode_pin_result(&elems[i]) {
            Some(p) => out.push(p),
            None => {
                proof {
                    assert(!spec_pin_result_list_ok(*v)) by {
                        if spec_pin_result_list_ok(*v) {
                            assert(spec_pin_decodable(jarr(*v)->Some_0[i as int]));
                            assert(false);
                        }
                    }
                }
                return None;
            },
        }
        i = i + 1;
    }
    Some(out)
}

} // verus!
