//! The entity models of the API: posts, collections, users, and the item
//! descriptors and per-item results of the batch endpoints.
//!
//! Each entity carries its domain fields as plain values, plus an optional
//! reference to the session that fetched it. The session reference is set
//! exactly once, by the attach step right after decoding, and an entity with
//! no attached session cannot perform network operations.

use vstd::prelude::*;

use crate::builders::CollectionUpdateBuilder;
use crate::builders::PostUpdateBuilder;
use crate::client::Client;
use crate::text::clone_opt_string;
use crate::text::clone_strings;
use crate::text::str_eq;

verus! {

/// Base user model.
#[derive(Clone, Debug, PartialEq, Eq)]
pub struct User {
    /// Username.
    pub username: String,

    /// Email (may not be present based on instance settings).
    pub email: Option<String>,

    /// Creation timestamp text (may not be present based on instance
    /// settings).
    pub created: Option<String>,
}

impl User {
    /// Returns a copy of this user, equal to it in every field.
    pub fn duplicate(&self) -> (r: User)
        ensures
            r == *self,
    {
        User {
            username: self.username.clone(),
            email: clone_opt_string(&self.email),
            created: clone_opt_string(&self.created),
        }
    }
}

/// Enum describing the appearance/font of a post.
#[derive(Clone, Copy, Debug, PartialEq, Eq, Structural)]
pub enum PostAppearance {
    /// A sans-serif font.
    SansSerif,

    /// A serif font.
    Serif,

    /// A wrapped monospace view.
    Wrap,

    /// A monospace font.
    Mono,

    /// A code view.
    Code,
}

/// The text an appearance is written as on the wire.
pub open spec fn spec_appearance_text(a: PostAppearance) -> Seq<char> {
    match a {
        PostAppearance::SansSerif => "sans"@,
        PostAppearance::Serif => "serif"@,
        PostAppearance::Wrap => "wrap"@,
        PostAppearance::Mono => "mono"@,
        PostAppearance::Code => "code"@,
    }
}

/// The appearance a wire text stands for: the canonical name of each
/// appearance, with `norm` accepted as a synonym of `serif`; any other text
/// is rejected.
pub open spec fn spec_appearance_of(s: Seq<char>) -> Option<PostAppearance> {
    if s == "sans"@ {
        Some(PostAppearance::SansSerif)
    } else if s == "serif"@ || s == "norm"@ {
        Some(PostAppearance::Serif)
    } else if s == "wrap"@ {
        Some(PostAppearance::Wrap)
    } else if s == "mono"@ {
        Some(PostAppearance::Mono)
    } else if s == "code"@ {
        Some(PostAppearance::Code)
    } else {
        None
    }
}

/// Writes an appearance as its wire text.
pub fn appearance_text(a: &PostAppearance) -> (r: &'static str)
    ensures
        r@ == spec_appearance_text(*a),
{
    match a {
        PostAppearance::SansSerif => "sans",
        PostAppearance::Serif => "serif",
        PostAppearance::Wrap => "wrap",
        PostAppearance::Mono => "mono",
        PostAppearance::Code => "code",
    }
}

/// Reads an appearance from its wire text.
pub fn appearance_of(s: &str) -> (r: Option<PostAppearance>)
    ensures
        r == spec_appearance_of(s@),
{
    if str_eq(s, "sans") {
        Some(PostAppearance::SansSerif)
    } else if str_eq(s, "serif") || str_eq(s, "norm") {
        Some(PostAppearance::Serif)
    } else if str_eq(s, "wrap") {
        Some(PostAppearance::Wrap)
    } else if str_eq(s, "mono") {
        Some(PostAppearance::Mono)
    } else if str_eq(s, "code") {
        Some(PostAppearance::Code)
    } else {
        None
    }
}

/// Enum describing a collection's visibility.
#[derive(Clone, Copy, Debug, PartialEq, Eq, Structural)]
pub enum CollectionVisibility {
    /// Reachable only by direct link.
    Unlisted,

    /// Listed publicly.
    Public,

    /// Visible only to the owner.
    Private,

    /// Protected by a password.
    Password,
}

/// The numeric code a visibility is written as on the wire.
pub open spec fn spec_visibility_code(v: CollectionVisibility) -> u64 {
    match v {
        CollectionVisibility::Unlisted => 0,
        CollectionVisibility::Public => 1,
        CollectionVisibility::Private => 2,
        CollectionVisibility::Password => 4,
    }
}

/// The visibility a numeric wire code stands for; codes outside the defined
/// set are rejected.
pub open spec fn spec_visibility_of(n: u64) -> Option<CollectionVisibility> {
    if n == 0 {
        Some(CollectionVisibility::Unlisted)
    } else if n == 1 {
        Some(CollectionVisibility::Public)
    } else if n == 2 {
        Some(CollectionVisibility::Private)
    } else if n == 4 {
        Some(CollectionVisibility::Password)
    } else {
        None
    }
}

/// Writes a visibility as its numeric wire code.
pub fn visibility_code(v: &CollectionVisibility) -> (r: u64)
    ensures
        r == spec_visibility_code(*v),
{
    match v {
        CollectionVisibility::Unlisted => 0,
        CollectionVisibility::Public => 1,
        CollectionVisibility::Private => 2,
        CollectionVisibility::Password => 4,
    }
}

/// Reads a visibility from its numeric wire code.
pub fn visibility_of(n: u64) -> (r: Option<CollectionVisibility>)
    ensures
        r == spec_visibility_of(n),
{
    if n == 0 {
        Some(CollectionVisibility::Unlisted)
    } else if n == 1 {
        Some(CollectionVisibility::Public)
    } else if n == 2 {
        Some(CollectionVisibility::Private)
    } else if n == 4 {
        Some(CollectionVisibility::Password)
    } else {
        None
    }
}

/// A struct describing a single collection entity.
#[derive(Clone, Debug, PartialEq, Eq)]
pub struct Collection {
    /// The attached session, if any.
    pub client: Option<Client>,

    /// Collection alias.
    pub alias: String,

    /// Collection title.
    pub title: String,

    /// Collection description.
    pub description: Option<String>,

    /// Custom style sheet.
    pub style_sheet: Option<String>,

    /// Whether the collection is public.
    pub public: bool,

    /// View count.
    pub views: Option<u64>,

    /// Verification link.
    pub verification_link: Option<String>,

    /// Number of posts in the collection.
    pub total_posts: Option<u64>,
}

/// Whether two collections carry the same domain fields, whatever their
/// attached sessions.
pub open spec fn same_collection_data(a: Collection, b: Collection) -> bool {
    &&& a.alias == b.alias
    &&& a.title == b.title
    &&& a.description == b.description
    &&& a.style_sheet == b.style_sheet
    &&& a.public == b.public
    &&& a.views == b.views
    &&& a.verification_link == b.verification_link
    &&& a.total_posts == b.total_posts
}

impl Collection {
    /// Attaches a session to this collection and returns the attached
    /// snapshot.
    pub fn with_client(&mut self, client: Client) -> (r: Collection)
        ensures
            final(self).client == Some(client),
            same_collection_data(*final(self), *old(self)),
            r == *final(self),
    {
        self.client = Some(client);
        self.duplicate()
    }

    /// Returns a snapshot of this collection, equal to it in every field.
    pub fn duplicate(&self) -> (r: Collection)
        ensures
            r == *self,
    {
        Collection {
            client: clone_opt_client(&self.client),
            alias: self.alias.clone(),
            title: self.title.clone(),
            description: clone_opt_string(&self.description),
            style_sheet: clone_opt_string(&self.style_sheet),
            public: self.public,
            views: self.views,
            verification_link: clone_opt_string(&self.verification_link),
            total_posts: self.total_posts,
        }
    }
}

/// Main struct describing a single post.
#[derive(Clone, Debug, PartialEq, Eq)]
pub struct Post {
    /// The attached session, if any.
    pub client: Option<Client>,

    /// Post ID.
    pub id: String,

    /// Post slug.
    pub slug: Option<String>,

    /// Post appearance/font.
    pub appearance: Option<PostAppearance>,

    /// Post language.
    pub language: Option<String>,

    /// Whether the post reads right to left.
    pub rtl: bool,

    /// Creation timestamp text.
    pub created: Option<String>,

    /// Post title.
    pub title: Option<String>,

    /// Post body.
    pub body: String,

    /// Post tags.
    pub tags: Vec<String>,

    /// View count.
    pub views: Option<u64>,

    /// The collection the post belongs to, if any.
    pub collection: Option<Collection>,

    /// Post access token, if the post is not owned.
    pub token: Option<String>,
}

/// Whether two posts carry the same domain fields, whatever their attached
/// sessions. Tags are compared element for element.
pub open spec fn same_post_data(a: Post, b: Post) -> bool {
    &&& a.id == b.id
    &&& a.slug == b.slug
    &&& a.appearance == b.appearance
    &&& a.language == b.language
    &&& a.rtl == b.rtl
    &&& a.created == b.created
    &&& a.title == b.title
    &&& a.body == b.body
    &&& a.tags@ == b.tags@
    &&& a.views == b.views
    &&& a.collection == b.collection
    &&& a.token == b.token
}

/// Whether two posts are equal in every field, the attached session
/// included. Tags are compared element for element.
pub open spec fn post_eq(a: Post, b: Post) -> bool {
    a.client == b.client && same_post_data(a, b)
}

impl Post {
    /// Attaches a session to this post and returns the attached snapshot.
    pub fn with_client(&mut self, client: Client) -> (r: Post)
        ensures
            final(self).client == Some(client),
            same_post_data(*final(self), *old(self)),
            post_eq(r, *final(self)),
    {
        self.client = Some(client);
        self.duplicate()
    }

    /// Returns a snapshot of this post, equal to it in every field.
    pub fn duplicate(&self) -> (r: Post)
        ensures
            post_eq(r, *self),
    {
        Post {
            client: clone_opt_client(&self.client),
            id: self.id.clone(),
            slug: clone_opt_string(&self.slug),
            appearance: self.appearance,
            language: clone_opt_string(&self.language),
            rtl: self.rtl,
            created: clone_opt_string(&self.created),
            title: clone_opt_string(&self.title),
            body: self.body.clone(),
            tags: clone_strings(&self.tags),
            views: self.views,
            collection: clone_opt_collection(&self.collection),
            token: clone_opt_string(&self.token),
        }
    }
}

/// Copies an optional session.
pub fn clone_opt_client(o: &Option<Client>) -> (r: Option<Client>)
    ensures
        r == *o,
{
    match o {
        Some(c) => Some(c.duplicate()),
        None => None,
    }
}

/// Copies an optional collection.
pub fn clone_opt_collection(o: &Option<Collection>) -> (r: Option<Collection>)
    ensures
        r == *o,
{
    match o {
        Some(c) => Some(c.duplicate()),
        None => None,
    }
}

/// A struct describing a post to move into a collection.
#[derive(Clone, Debug, PartialEq, Eq)]
pub struct MovePost {
    /// Post ID.
    pub id: String,

    /// Post token, if the post isn't owned.
    pub token: Option<String>,
}

impl MovePost {
    /// Creates a new MovePost with just an ID.
    pub fn new(id: &str) -> (r: MovePost)
        ensures
            r.id@ == id@,
            r.token is None,
    {
        MovePost { id: id.to_owned(), token: None }
    }

    /// Creates a new MovePost with an ID and token.
    pub fn new_with_token(id: &str, token: &str) -> (r: MovePost)
        ensures
            r.id@ == id@,
            r.token matches Some(t) && t@ == token@,
    {
        MovePost { id: id.to_owned(), token: Some(token.to_owned()) }
    }

    /// Copies this descriptor, field for field.
    pub fn duplicate(&self) -> (r: MovePost)
        ensures
            r == *self,
    {
        MovePost { id: self.id.clone(), token: clone_opt_string(&self.token) }
    }
}

/// Describes the result of a single post move operation.
#[derive(Clone, Debug, PartialEq, Eq)]
pub enum MoveResult {
    /// Successful operation.
    Success {
        /// Operation status code.
        code: u32,

        /// Affected post.
        post: Post,
    },

    /// Failed operation.
    Error {
        /// Operation status code.
        code: u32,

        /// Operation status text.
        error_msg: String,
    },
}

/// A struct describing how to pin or unpin a post to a collection.
#[derive(Clone, Debug, PartialEq, Eq)]
pub struct PinPost {
    /// Post ID.
    pub id: String,

    /// Pin position (should not be used with unpin).
    pub postion: Option<u64>,
}

impl PinPost {
    /// Creates a new PinPost with an ID.
    pub fn new(id: &str) -> (r: PinPost)
        ensures
            r.id@ == id@,
            r.postion is None,
    {
        PinPost { id: id.to_owned(), postion: None }
    }

    /// Creates a new PinPost with an ID and a position.
    pub fn new_at_position(id: &str, position: u64) -> (r: PinPost)
        ensures
            r.id@ == id@,
            r.postion == Some(position),
    {
        PinPost { id: id.to_owned(), postion: Some(position) }
    }
}

/// Describes the result of a single pin or unpin operation.
#[derive(Clone, Debug, PartialEq, Eq)]
pub enum PinResult {
    /// Successful operation.
    Success {
        /// Operation status code.
        code: u32,

        /// Post ID.
        id: String,
    },

    /// Failed operation.
    Error {
        /// Operation status code.
        code: u32,

        /// Operation status text.
        error_msg: String,
    },
}

/// Struct describing a pending update to a post.
#[derive(Clone, Debug, PartialEq, Eq)]
pub struct PostUpdate {
    /// The attached session, if any; not sent on the wire.
    pub client: Option<Client>,

    /// ID of the post to update; carried in the endpoint, not the body.
    pub id: String,

    /// Post token, if the post is not owned.
    pub token: Option<String>,

    /// New post body.
    pub body: String,

    /// New post title.
    pub title: Option<String>,

    /// New post font.
    pub font: Option<PostAppearance>,

    /// New post language.
    pub lang: Option<String>,

    /// New post text direction.
    pub rtl: bool,
}

/// Post creation struct: a draft to publish.
#[derive(Clone, Debug, PartialEq, Eq)]
pub struct PostCreation {
    /// The attached session, if any; not sent on the wire.
    pub client: Option<Client>,

    /// Collection to post to, if desired; carried in the endpoint, not the
    /// body.
    pub collection: Option<String>,

    /// Post body.
    pub body: String,

    /// Post title.
    pub title: Option<String>,

    /// Post font.
    pub font: Option<PostAppearance>,

    /// Post language.
    pub lang: Option<String>,

    /// Post text direction.
    pub rtl: Option<bool>,

    /// A specific creation timestamp text, if desired.
    pub created: Option<String>,
}

/// Struct describing a collection update.
#[derive(Clone, Debug, PartialEq, Eq)]
pub struct CollectionUpdate {
    /// The attached session, if any; not sent on the wire.
    pub client: Option<Client>,

    /// Alias of the collection to update; carried in the endpoint, not the
    /// body.
    pub alias: Option<String>,

    /// New title.
    pub title: Option<String>,

    /// New description.
    pub description: Option<String>,

    /// New style sheet.
    pub style_sheet: Option<String>,

    /// New script (only on instances that support it).
    pub script: Option<String>,

    /// New visibility level.
    pub visibility: Option<CollectionVisibility>,

    /// New password (only meaningful with password visibility).
    pub pass: Option<String>,

    /// Whether to enable MathJax support.
    pub mathjax: bool,
}

impl Post {
    /// Returns an update builder initialized with this post's session, its
    /// ID, and the given body text.
    pub fn build_update(&self, body: String) -> (b: PostUpdateBuilder)
        ensures
            b.client == Some(self.client),
            b.id == Some(self.id),
            b.body == Some(body),
            b.token is None,
            b.title is None,
            b.font is None,
            b.lang is None,
            b.rtl is None,
    {
        PostUpdateBuilder::default().client(clone_opt_client(&self.client)).id(
            self.id.clone(),
        ).body(body)
    }
}

impl Collection {
    /// Returns an update builder initialized with this collection's session
    /// and alias.
    pub fn build_update(&self) -> (b: CollectionUpdateBuilder)
        ensures
            b.client == Some(self.client),
            b.alias == Some(Some(self.alias)),
            b.title is None,
            b.description is None,
            b.style_sheet is None,
            b.script is None,
            b.visibility is None,
            b.pass is None,
            b.mathjax is None,
    {
        CollectionUpdateBuilder::default().client(clone_opt_client(&self.client)).alias(
            Some(self.alias.clone()),
        )
    }
}

} // verus!
