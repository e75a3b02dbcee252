//! Encoding request bodies as JSON payloads.
//!
//! Optional fields are written as JSON null when absent, except where the
//! wire contract omits the field altogether (a pin descriptor's position).
//! Each encoder's contract pins the exact field set of the built object and
//! the contents of every field.

use vstd::prelude::*;

use crate::json::jarr;
use crate::json::jdump;
use crate::json::jbool;
use crate::json::jnull;
use crate::json::jnum_u64;
use crate::json::jobj;
use crate::json::jstr;
use crate::json::json_null;
use crate::json::json_obj_insert;
use crate::json::json_obj_new;
use crate::json::json_of_array;
use crate::json::json_of_bool;
use crate::json::json_of_str;
use crate::json::json_of_u64;
use crate::models::CollectionUpdate;
use crate::models::CollectionVisibility;
use crate::models::MovePost;
use crate::models::PinPost;
use crate::models::PostAppearance;
use crate::models::PostCreation;
use crate::models::PostUpdate;
use crate::models::appearance_text;
use crate::models::spec_appearance_text;
use crate::models::spec_visibility_code;
use crate::models::visibility_code;
use crate::requests::Login;

verus! {

/// Whether a JSON value carries an optional string: the characters when one
/// is present, null when none is.
pub open spec fn jopt_str(w: serde_json::Value, os: Option<Seq<char>>) -> bool {
    match os {
        Some(s) => jstr(w) == Some(s) && !jnull(w),
        None => jnull(w),
    }
}

/// Whether a JSON value carries an optional boolean: the boolean when one is
/// present, null when none is.
pub open spec fn jopt_bool(w: serde_json::Value, ob: Option<bool>) -> bool {
    match ob {
        Some(b) => jbool(w) == Some(b) && !jnull(w),
        None => jnull(w),
    }
}

/// Whether a JSON value carries an optional appearance, written as its wire
/// text, or null.
pub open spec fn jopt_appearance(w: serde_json::Value, oa: Option<PostAppearance>) -> bool {
    match oa {
        Some(a) => jstr(w) == Some(spec_appearance_text(a)) && !jnull(w),
        None => jnull(w),
    }
}

/// Whether a JSON value carries an optional visibility, written as its
/// numeric wire code, or null.
pub open spec fn jopt_visibility(w: serde_json::Value, ov: Option<CollectionVisibility>) -> bool {
    match ov {
        Some(vis) => jnum_u64(w) == Some(spec_visibility_code(vis)) && !jnull(w),
        None => jnull(w),
    }
}

/// Builds the JSON value of an optional string: the string or null.
pub fn json_of_opt_str(os: &Option<String>) -> (r: serde_json::Value)
    ensures
        jopt_str(r, os.deep_view()),
{
    match os {
        Some(s) => json_of_str(s.as_str()),
        None => json_null(),
    }
}

/// Builds the JSON value of an optional boolean: the boolean or null.
pub fn json_of_opt_bool(ob: &Option<bool>) -> (r: serde_json::Value)
    ensures
        jopt_bool(r, *ob),
{
    match ob {
        Some(b) => json_of_bool(*b),
        None => json_null(),
    }
}

/// Builds the JSON value of an optional appearance: its wire text or null.
pub fn json_of_opt_appearance(oa: &Option<PostAppearance>) -> (r: serde_json::Value)
    ensures
        jopt_appearance(r, *oa),
{
    match oa {
        Some(a) => json_of_str(appearance_text(a)),
        None => json_null(),
    }
}

/// Builds the JSON value of an optional visibility: its wire code or null.
pub fn json_of_opt_visibility(ov: &Option<CollectionVisibility>) -> (r: serde_json::Value)
    ensures
        jopt_visibility(r, *ov),
{
    match ov {
        Some(vis) => json_of_u64(visibility_code(vis)),
        None => json_null(),
    }
}

/// Ground facts about the wire's field names: each name's length and leading
/// characters, enough to tell any two of them apart.
pub proof fn wire_key_facts()
    ensures
        "alias"@.len() == 5,
        "alias"@[0] == 'a',
        "pass"@.len() == 4,
        "pass"@[0] == 'p',
        "id"@.len() == 2,
        "id"@[0] == 'i',
        "token"@.len() == 5,
        "token"@[0] == 't',
        "postion"@.len() == 7,
        "postion"@[0] == 'p',
        "body"@.len() == 4,
        "body"@[0] == 'b',
        "title"@.len() == 5,
        "title"@[0] == 't',
        "font"@.len() == 4,
        "font"@[0] == 'f',
        "lang"@.len() == 4,
        "lang"@[0] == 'l',
        "rtl"@.len() == 3,
        "rtl"@[0] == 'r',
        "created"@.len() == 7,
        "created"@[0] == 'c',
        "description"@.len() == 11,
        "description"@[0] == 'd',
        "style_sheet"@.len() == 11,
        "style_sheet"@[0] == 's',
        "script"@.len() == 6,
        "script"@[0] == 's',
        "visibility"@.len() == 10,
        "visibility"@[0] == 'v',
        "mathjax"@.len() == 7,
        "mathjax"@[0] == 'm',
        "token"@[1] == 'o',
        "title"@[1] == 'i',
{
    reveal_strlit("alias");
    reveal_strlit("pass");
    reveal_strlit("id");
    reveal_strlit("token");
    reveal_strlit("postion");
    reveal_strlit("body");
    reveal_strlit("title");
    reveal_strlit("font");
    reveal_strlit("lang");
    reveal_strlit("rtl");
    reveal_strlit("created");
    reveal_strlit("description");
    reveal_strlit("style_sheet");
    reveal_strlit("script");
    reveal_strlit("visibility");
    reveal_strlit("mathjax");
}

/// Whether a JSON value is the encoded form of a login request: exactly the
/// credential pair, under the wire's field names.
pub open spec fn login_encoded(l: Login, v: serde_json::Value) -> bool {
    &&& jobj(v) matches Some(m)
    &&& m.dom() == set!["alias"@, "pass"@]
    &&& jstr(m["alias"@]) == Some(l.alias@)
    &&& jstr(m["pass"@]) == Some(l.pass@)
}

/// Encodes a login request.
pub fn encode_login(l: &Login) -> (v: serde_json::Value)
    ensures
        login_encoded(*l, v),
{
    let obj = json_obj_new();
    let obj = json_obj_insert(obj, "alias", json_of_str(l.alias.as_str()));
    let obj = json_obj_insert(obj, "pass", json_of_str(l.pass.as_str()));
    proof {
        wire_key_facts();
        assert(jobj(obj)->Some_0.dom() =~= set!["alias"@, "pass"@]);
    }
    obj
}

/// Whether a JSON value is the encoded form of a move descriptor: the post
/// ID and the optional access token.
pub open spec fn move_post_encoded(p: MovePost, v: serde_json::Value) -> bool {
    &&& jobj(v) matches Some(m)
    &&& m.dom() == set!["id"@, "token"@]
    &&& jstr(m["id"@]) == Some(p.id@)
    &&& jopt_str(m["token"@], p.token.deep_view())
}

/// Encodes one move descriptor.
pub fn encode_move_post(p: &MovePost) -> (v: serde_json::Value)
    ensures
        move_post_encoded(*p, v),
{
    let obj = json_obj_new();
    let obj = json_obj_insert(obj, "id", json_of_str(p.id.as_str()));
    let obj = json_obj_insert(obj, "token", json_of_opt_str(&p.token));
    proof {
        wire_key_facts();
        assert(jobj(obj)->Some_0.dom() =~= set!["id"@, "token"@]);
    }
    obj
}

/// Whether a JSON value is the encoded form of an ordered list of move
/// descriptors: a parallel array, element for element.
pub open spec fn move_posts_encoded(ps: Seq<MovePost>, v: serde_json::Value) -> bool {
    &&& jarr(v) is Some
    &&& jarr(v)->Some_0.len() == ps.len()
    &&& forall|i: int| 0 <= i < ps.len() ==> move_post_encoded(ps[i], #[trigger] jarr(v)->Some_0[i])
}

/// Encodes an ordered list of move descriptors as a JSON array, keeping
/// order.
pub fn encode_move_posts(posts: &[MovePost]) -> (v: serde_json::Value)
    ensures
        move_posts_encoded(posts@, v),
{
    let mut items: Vec<serde_json::Value> = Vec::new();
    let mut i: usize = 0;
    while i < posts.len()
        invariant
            i <= posts@.len(),
            items@.len() == i,
            forall|j: int| 0 <= j < i ==> move_post_encoded(posts@[j], #[trigger] items@[j]),
        decreases posts@.len() - i,
    {
        items.push(encode_move_post(&posts[i]));
        i = i + 1;
    }
    json_of_array(items)
}

/// Whether a JSON value is the encoded form of a pin descriptor: the post ID
/// always, and the position only when one is set.
pub open spec fn pin_post_encoded(p: PinPost, v: serde_json::Value) -> bool {
    &&& jobj(v) matches Some(m)
    &&& (match p.postion {
        Some(n) => m.dom() == set!["id"@, "postion"@] && jnum_u64(m["postion"@]) == Some(n),
        None => m.dom() == set!["id"@],
    })
    &&& jstr(m["id"@]) == Some(p.id@)
}

/// Encodes one pin descriptor.
pub fn encode_pin_post(p: &PinPost) -> (v: serde_json::Value)
    ensures
        pin_post_encoded(*p, v),
{
    let obj = json_obj_new();
    let obj = json_obj_insert(obj, "id", json_of_str(p.id.as_str()));
    match &p.postion {
        Some(n) => {
            let obj = json_obj_insert(obj, "postion", json_of_u64(*n));
            proof {
        wire_key_facts();
        assert(jobj(obj)->Some_0.dom() =~= set!["id"@, "postion"@]);
            }
            obj
        },
        None => {
            proof {
        wire_key_facts();
        assert(jobj(obj)->Some_0.dom() =~= set!["id"@]);
            }
            obj
        },
    }
}

/// Whether a JSON value is the encoded form of an ordered list of pin
/// descriptors: a parallel array, element for element.
pub open spec fn pin_posts_encoded(ps: Seq<PinPost>, v: serde_json::Value) -> bool {
    &&& jarr(v) is Some
    &&& jarr(v)->Some_0.len() == ps.len()
    &&& forall|i: int| 0 <= i < ps.len() ==> pin_post_encoded(ps[i], #[trigger] jarr(v)->Some_0[i])
}

/// Encodes an ordered list of pin descriptors as a JSON array, keeping order.
pub fn encode_pin_posts(posts: &[PinPost]) -> (v: serde_json::Value)
    ensures
        pin_posts_encoded(posts@, v),
{
    let mut items: Vec<serde_json::Value> = Vec::new();
    let mut i: usize = 0;
    while i < posts.len()
        invariant
            i <= posts@.len(),
            items@.len() == i,
            forall|j: int| 0 <= j < i ==> pin_post_encoded(posts@[j], #[trigger] items@[j]),
        decreases posts@.len() - i,
    {
        items.push(encode_pin_post(&posts[i]));
        i = i + 1;
    }
    json_of_array(items)
}

/// Whether a JSON value is the encoded form of a post draft: the body and
/// the optional title, font, language, direction and timestamp. The session
/// and the target collection are not wire fields: the collection picks the
/// endpoint instead.
pub open spec fn post_creation_encoded(c: PostCreation, v: serde_json::Value) -> bool {
    &&& jobj(v) matches Some(m)
    &&& m.dom() == set!["body"@, "title"@, "font"@, "lang"@, "rtl"@, "created"@]
    &&& jstr(m["body"@]) == Some(c.body@)
    &&& jopt_str(m["title"@], c.title.deep_view())
    &&& jopt_appearance(m["font"@], c.font)
    &&& jopt_str(m["lang"@], c.lang.deep_view())
    &&& jopt_bool(m["rtl"@], c.rtl)
    &&& jopt_str(m["created"@], c.created.deep_view())
}

/// Encodes a post draft.
pub fn encode_post_creation(c: &PostCreation) -> (v: serde_json::Value)
    ensures
        post_creation_encoded(*c, v),
{
    let obj = json_obj_new();
    let obj = json_obj_insert(obj, "body", json_of_str(c.body.as_str()));
    let obj = json_obj_insert(obj, "title", json_of_opt_str(&c.title));
    let obj = json_obj_insert(obj, "font", json_of_opt_appearance(&c.font));
    let obj = json_obj_insert(obj, "lang", json_of_opt_str(&c.lang));
    let obj = json_obj_insert(obj, "rtl", json_of_opt_bool(&c.rtl));
    let obj = json_obj_insert(obj, "created", json_of_opt_str(&c.created));
    proof {
        wire_key_facts();
        assert(jobj(obj)->Some_0.dom() =~= set![
            "body"@,
            "title"@,
            "font"@,
            "lang"@,
            "rtl"@,
            "created"@,
        ]);
    }
    obj
}

/// Whether a JSON value is the encoded form of a post update: the optional
/// access token, the new body, and the optional title, font and language,
/// with the direction always stated. The session and the post ID are not
/// wire fields: the ID picks the endpoint instead.
pub open spec fn post_update_encoded(u: PostUpdate, v: serde_json::Value) -> bool {
    &&& jobj(v) matches Some(m)
    &&& m.dom() == set!["token"@, "body"@, "title"@, "font"@, "lang"@, "rtl"@]
    &&& jopt_str(m["token"@], u.token.deep_view())
    &&& jstr(m["body"@]) == Some(u.body@)
    &&& jopt_str(m["title"@], u.title.deep_view())
    &&& jopt_appearance(m["font"@], u.font)
    &&& jopt_str(m["lang"@], u.lang.deep_view())
    &&& jbool(m["rtl"@]) == Some(u.rtl)
}

/// Encodes a post update.
pub fn encode_post_update(u: &PostUpdate) -> (v: serde_json::Value)
    ensures
        post_update_encoded(*u, v),
{
    let obj = json_obj_new();
    let obj = json_obj_insert(obj, "token", json_of_opt_str(&u.token));
    let obj = json_obj_insert(obj, "body", json_of_str(u.body.as_str()));
    let obj = json_obj_insert(obj, "title", json_of_opt_str(&u.title));
    let obj = json_obj_insert(obj, "font", json_of_opt_appearance(&u.font));
    let obj = json_obj_insert(obj, "lang", json_of_opt_str(&u.lang));
    let obj = json_obj_insert(obj, "rtl", json_of_bool(u.rtl));
    proof {
        wire_key_facts();
        assert(jobj(obj)->Some_0.dom() =~= set![
            "token"@,
            "body"@,
            "title"@,
            "font"@,
            "lang"@,
            "rtl"@,
        ]);
    }
    obj
}

/// Whether a JSON value is the encoded form of a collection update: the
/// optional title, description, style sheet, script, visibility and
/// password, with the MathJax switch always stated. The session and the
/// alias are not wire fields: the alias picks the endpoint instead.
pub open spec fn collection_update_encoded(u: CollectionUpdate, v: serde_json::Value) -> bool {
    &&& jobj(v) matches Some(m)
    &&& m.dom() == set![
        "title"@,
        "description"@,
        "style_sheet"@,
        "script"@,
        "visibility"@,
        "pass"@,
        "mathjax"@,
    ]
    &&& jopt_str(m["title"@], u.title.deep_view())
    &&& jopt_str(m["description"@], u.description.deep_view())
    &&& jopt_str(m["style_sheet"@], u.style_sheet.deep_view())
    &&& jopt_str(m["script"@], u.script.deep_view())
    &&& jopt_visibility(m["visibility"@], u.visibility)
    &&& jopt_str(m["pass"@], u.pass.deep_view())
    &&& jbool(m["mathjax"@]) == Some(u.mathjax)
}

/// Encodes a collection update.
pub fn encode_collection_update(u: &CollectionUpdate) -> (v: serde_json::Value)
    ensures
        collection_update_encoded(*u, v),
{
    let obj = json_obj_new();
    let obj = json_obj_insert(obj, "title", json_of_opt_str(&u.title));
    let obj = json_obj_insert(obj, "description", json_of_opt_str(&u.description));
    let obj = json_obj_insert(obj, "style_sheet", json_of_opt_str(&u.style_sheet));
    let obj = json_obj_insert(obj, "script", json_of_opt_str(&u.script));
    let obj = json_obj_insert(obj, "visibility", json_of_opt_visibility(&u.visibility));
    let obj = json_obj_insert(obj, "pass", json_of_opt_str(&u.pass));
    let obj = json_obj_insert(obj, "mathjax", json_of_bool(u.mathjax));
    proof {
        wire_key_facts();
        assert(jobj(obj)->Some_0.dom() =~= set![
            "title"@,
            "description"@,
            "style_sheet"@,
            "script"@,
            "visibility"@,
            "pass"@,
            "mathjax"@,
        ]);
    }
    obj
}

/// Whether a JSON value is the encoded form of the creation parameters of a
/// collection: the optional alias and title.
pub open spec fn collection_params_encoded(
    alias: Option<Seq<char>>,
    title: Option<Seq<char>>,
    v: serde_json::Value,
) -> bool {
    &&& jobj(v) matches Some(m)
    &&& m.dom() == set!["alias"@, "title"@]
    &&& jopt_str(m["alias"@], alias)
    &&& jopt_str(m["title"@], title)
}

/// Encodes the creation parameters of a collection.
pub fn encode_collection_params(alias: &Option<String>, title: &Option<String>) -> (v:
    serde_json::Value)
    ensures
        collection_params_encoded(alias.deep_view(), title.deep_view(), v),
{
    let obj = json_obj_new();
    let obj = json_obj_insert(obj, "alias", json_of_opt_str(alias));
    let obj = json_obj_insert(obj, "title", json_of_opt_str(title));
    proof {
        wire_key_facts();
        assert(jobj(obj)->Some_0.dom() =~= set!["alias"@, "title"@]);
    }
    obj
}

/// Whether a text is the printed form of an encoded login request.
pub open spec fn is_login_body(l: Login, b: Seq<char>) -> bool {
    exists|v: serde_json::Value| #[trigger] login_encoded(l, v) && b == jdump(v)
}

/// Whether a text is the printed form of an encoded list of move
/// descriptors.
pub open spec fn is_move_posts_body(ps: Seq<MovePost>, b: Seq<char>) -> bool {
    exists|v: serde_json::Value| #[trigger] move_posts_encoded(ps, v) && b == jdump(v)
}

/// Whether a text is the printed form of an encoded list of pin descriptors.
pub open spec fn is_pin_posts_body(ps: Seq<PinPost>, b: Seq<char>) -> bool {
    exists|v: serde_json::Value| #[trigger] pin_posts_encoded(ps, v) && b == jdump(v)
}

/// Whether a text is the printed form of an encoded post draft.
pub open spec fn is_post_creation_body(c: PostCreation, b: Seq<char>) -> bool {
    exists|v: serde_json::Value| #[trigger] post_creation_encoded(c, v) && b == jdump(v)
}

/// Whether a text is the printed form of an encoded post update.
pub open spec fn is_post_update_body(u: PostUpdate, b: Seq<char>) -> bool {
    exists|v: serde_json::Value| #[trigger] post_update_encoded(u, v) && b == jdump(v)
}

/// Whether a text is the printed form of an encoded collection update.
pub open spec fn is_collection_update_body(u: CollectionUpdate, b: Seq<char>) -> bool {
    exists|v: serde_json::Value| #[trigger] collection_update_encoded(u, v) && b == jdump(v)
}

/// Whether a text is the printed form of the encoded creation parameters of
/// a collection.
pub open spec fn is_collection_params_body(
    alias: Option<Seq<char>>,
    title: Option<Seq<char>>,
    b: Seq<char>,
) -> bool {
    exists|v: serde_json::Value|
        #[trigger] collection_params_encoded(alias, title, v) && b == jdump(v)
}

} // verus!
