//! Builders for the update and creation payloads.
//!
//! Each builder records, field by field, what the caller has set so far; its
//! `build` call succeeds only once every field has been given a value, and
//! refuses with a usage error otherwise.

use vstd::prelude::*;

use crate::client::Client;
use crate::errors::ApiError;
use crate::models::CollectionUpdate;
use crate::models::CollectionVisibility;
use crate::models::PostAppearance;
use crate::models::PostCreation;
use crate::models::PostUpdate;

verus! {

/// Builder for [`PostCreation`]: each field holds the pending value once
/// set.
#[derive(Clone, Debug)]
pub struct PostCreationBuilder {
    /// Pending session.
    pub client: Option<Option<Client>>,

    /// Pending target collection.
    pub collection: Option<Option<String>>,

    /// Pending body.
    pub body: Option<String>,

    /// Pending title.
    pub title: Option<Option<String>>,

    /// Pending font.
    pub font: Option<Option<PostAppearance>>,

    /// Pending language.
    pub lang: Option<Option<String>>,

    /// Pending text direction.
    pub rtl: Option<Option<bool>>,

    /// Pending creation timestamp text.
    pub created: Option<Option<String>>,
}

impl Default for PostCreationBuilder {
    /// A builder with nothing set.
    fn default() -> (r: PostCreationBuilder)
        ensures
            r == (PostCreationBuilder {
                client: None::<Option<Client>>,
                collection: None::<Option<String>>,
                body: None::<String>,
                title: None::<Option<String>>,
                font: None::<Option<PostAppearance>>,
                lang: None::<Option<String>>,
                rtl: None::<Option<bool>>,
                created: None::<Option<String>>,
            }),
    {
        PostCreationBuilder {
            client: None,
            collection: None,
            body: None,
            title: None,
            font: None,
            lang: None,
            rtl: None,
            created: None,
        }
    }
}

impl PostCreationBuilder {
    /// Sets the session.
    pub fn client(self, value: Option<Client>) -> (r: Self)
        ensures
            r == (PostCreationBuilder { client: Some(value), ..self }),
    {
        PostCreationBuilder { client: Some(value), ..self }
    }

    /// Sets the target collection.
    pub fn collection(self, value: Option<String>) -> (r: Self)
        ensures
            r == (PostCreationBuilder { collection: Some(value), ..self }),
    {
        PostCreationBuilder { collection: Some(value), ..self }
    }

    /// Sets the body.
    pub fn body(self, value: String) -> (r: Self)
        ensures
            r == (PostCreationBuilder { body: Some(value), ..self }),
    {
        PostCreationBuilder { body: Some(value), ..self }
    }

    /// Sets the title.
    pub fn title(self, value: Option<String>) -> (r: Self)
        ensures
            r == (PostCreationBuilder { title: Some(value), ..self }),
    {
        PostCreationBuilder { title: Some(value), ..self }
    }

    /// Sets the font.
    pub fn font(self, value: Option<PostAppearance>) -> (r: Self)
        ensures
            r == (PostCreationBuilder { font: Some(value), ..self }),
    {
        PostCreationBuilder { font: Some(value), ..self }
    }

    /// Sets the language.
    pub fn lang(self, value: Option<String>) -> (r: Self)
        ensures
            r == (PostCreationBuilder { lang: Some(value), ..self }),
    {
        PostCreationBuilder { lang: Some(value), ..self }
    }

    /// Sets the text direction.
    pub fn rtl(self, value: Option<bool>) -> (r: Self)
        ensures
            r == (PostCreationBuilder { rtl: Some(value), ..self }),
    {
        PostCreationBuilder { rtl: Some(value), ..self }
    }

    /// Sets the creation timestamp text.
    pub fn created(self, value: Option<String>) -> (r: Self)
        ensures
            r == (PostCreationBuilder { created: Some(value), ..self }),
    {
        PostCreationBuilder { created: Some(value), ..self }
    }

    /// Whether every field has been set.
    pub open spec fn spec_complete(self) -> bool {
        &&& self.client is Some
        &&& self.collection is Some
        &&& self.body is Some
        &&& self.title is Some
        &&& self.font is Some
        &&& self.lang is Some
        &&& self.rtl is Some
        &&& self.created is Some
    }

    /// Builds the draft; refused with a usage error until every field has
    /// been set.
    pub fn build(self) -> (r: Result<PostCreation, ApiError>)
        ensures
            match r {
                Ok(c) => self.spec_complete() && c == (PostCreation {
                    client: self.client->Some_0,
                    collection: self.collection->Some_0,
                    body: self.body->Some_0,
                    title: self.title->Some_0,
                    font: self.font->Some_0,
                    lang: self.lang->Some_0,
                    rtl: self.rtl->Some_0,
                    created: self.created->Some_0,
                }),
                Err(e) => e == (ApiError::UsageError {}) && !self.spec_complete(),
            },
    {
        match (self.client, self.collection, self.body, self.title, self.font, self.lang, self.rtl,
            self.created) {
            (
                Some(client),
                Some(collection),
                Some(body),
                Some(title),
                Some(font),
                Some(lang),
                Some(rtl),
                Some(created),
            ) => Ok(PostCreation { client, collection, body, title, font, lang, rtl, created }),
            _ => Err(ApiError::UsageError {}),
        }
    }
}

/// Builder for [`PostUpdate`]: each field holds the pending value once set.
#[derive(Clone, Debug)]
pub struct PostUpdateBuilder {
    /// Pending session.
    pub client: Option<Option<Client>>,

    /// Pending post ID.
    pub id: Option<String>,

    /// Pending access token.
    pub token: Option<Option<String>>,

    /// Pending body.
    pub body: Option<String>,

    /// Pending title.
    pub title: Option<Option<String>>,

    /// Pending font.
    pub font: Option<Option<PostAppearance>>,

    /// Pending language.
    pub lang: Option<Option<String>>,

    /// Pending text direction.
    pub rtl: Option<bool>,
}

impl Default for PostUpdateBuilder {
    /// A builder with nothing set.
    fn default() -> (r: PostUpdateBuilder)
        ensures
            r == (PostUpdateBuilder {
                client: None::<Option<Client>>,
                id: None::<String>,
                token: None::<Option<String>>,
                body: None::<String>,
                title: None::<Option<String>>,
                font: None::<Option<PostAppearance>>,
                lang: None::<Option<String>>,
                rtl: None::<bool>,
            }),
    {
        PostUpdateBuilder {
            client: None,
            id: None,
            token: None,
            body: None,
            title: None,
            font: None,
            lang: None,
            rtl: None,
        }
    }
}

impl PostUpdateBuilder {
    /// Sets the session.
    pub fn client(self, value: Option<Client>) -> (r: Self)
        ensures
            r == (PostUpdateBuilder { client: Some(value), ..self }),
    {
        PostUpdateBuilder { client: Some(value), ..self }
    }

    /// Sets the post ID.
    pub fn id(self, value: String) -> (r: Self)
        ensures
            r == (PostUpdateBuilder { id: Some(value), ..self }),
    {
        PostUpdateBuilder { id: Some(value), ..self }
    }

    /// Sets the access token.
    pub fn token(self, value: Option<String>) -> (r: Self)
        ensures
            r == (PostUpdateBuilder { token: Some(value), ..self }),
    {
        PostUpdateBuilder { token: Some(value), ..self }
    }

    /// Sets the body.
    pub fn body(self, value: String) -> (r: Self)
        ensures
            r == (PostUpdateBuilder { body: Some(value), ..self }),
    {
        PostUpdateBuilder { body: Some(value), ..self }
    }

    /// Sets the title.
    pub fn title(self, value: Option<String>) -> (r: Self)
        ensures
            r == (PostUpdateBuilder { title: Some(value), ..self }),
    {
        PostUpdateBuilder { title: Some(value), ..self }
    }

    /// Sets the font.
    pub fn font(self, value: Option<PostAppearance>) -> (r: Self)
        ensures
            r == (PostUpdateBuilder { font: Some(value), ..self }),
    {
        PostUpdateBuilder { font: Some(value), ..self }
    }

    /// Sets the language.
    pub fn lang(self, value: Option<String>) -> (r: Self)
        ensures
            r == (PostUpdateBuilder { lang: Some(value), ..self }),
    {
        PostUpdateBuilder { lang: Some(value), ..self }
    }

    /// Sets the text direction.
    pub fn rtl(self, value: bool) -> (r: Self)
        ensures
            r == (PostUpdateBuilder { rtl: Some(value), ..self }),
    {
        PostUpdateBuilder { rtl: Some(value), ..self }
    }

    /// Whether every field has been set.
    pub open spec fn spec_complete(self) -> bool {
        &&& self.client is Some
        &&& self.id is Some
        &&& self.token is Some
        &&& self.body is Some
        &&& self.title is Some
        &&& self.font is Some
        &&& self.lang is Some
        &&& self.rtl is Some
    }

    /// Builds the update; refused with a usage error until every field has
    /// been set.
    pub fn build(self) -> (r: Result<PostUpdate, ApiError>)
        ensures
            match r {
                Ok(u) => self.spec_complete() && u == (PostUpdate {
                    client: self.client->Some_0,
                    id: self.id->Some_0,
                    token: self.token->Some_0,
                    body: self.body->Some_0,
                    title: self.title->Some_0,
                    font: self.font->Some_0,
                    lang: self.lang->Some_0,
                    rtl: self.rtl->Some_0,
                }),
                Err(e) => e == (ApiError::UsageError {}) && !self.spec_complete(),
            },
    {
        match (self.client, self.id, self.token, self.body, self.title, self.font, self.lang,
            self.rtl) {
            (
                Some(client),
                Some(id),
                Some(token),
                Some(body),
                Some(title),
                Some(font),
                Some(lang),
                Some(rtl),
            ) => Ok(PostUpdate { client, id, token, body, title, font, lang, rtl }),
            _ => Err(ApiError::UsageError {}),
        }
    }
}

/// Builder for [`CollectionUpdate`]: each field holds the pending value once
/// set.
#[derive(Clone, Debug)]
pub struct CollectionUpdateBuilder {
    /// Pending session.
    pub client: Option<Option<Client>>,

    /// Pending collection alias.
    pub alias: Option<Option<String>>,

    /// Pending title.
    pub title: Option<Option<String>>,

    /// Pending description.
    pub description: Option<Option<String>>,

    /// Pending style sheet.
    pub style_sheet: Option<Option<String>>,

    /// Pending script.
    pub script: Option<Option<String>>,

    /// Pending visibility.
    pub visibility: Option<Option<CollectionVisibility>>,

    /// Pending password.
    pub pass: Option<Option<String>>,

    /// Pending MathJax switch.
    pub mathjax: Option<bool>,
}

impl Default for CollectionUpdateBuilder {
    /// A builder with nothing set.
    fn default() -> (r: CollectionUpdateBuilder)
        ensures
            r == (CollectionUpdateBuilder {
                client: None::<Option<Client>>,
                alias: None::<Option<String>>,
                title: None::<Option<String>>,
                description: None::<Option<String>>,
                style_sheet: None::<Option<String>>,
                script: None::<Option<String>>,
                visibility: None::<Option<CollectionVisibility>>,
                pass: None::<Option<String>>,
                mathjax: None::<bool>,
            }),
    {
        CollectionUpdateBuilder {
            client: None,
            alias: None,
            title: None,
            description: None,
            style_sheet: None,
            script: None,
            visibility: None,
            pass: None,
            mathjax: None,
        }
    }
}

impl CollectionUpdateBuilder {
    /// Sets the session.
    pub fn client(self, value: Option<Client>) -> (r: Self)
        ensures
            r == (CollectionUpdateBuilder { client: Some(value), ..self }),
    {
        CollectionUpdateBuilder { client: Some(value), ..self }
    }

    /// Sets the collection alias.
    pub fn alias(self, value: Option<String>) -> (r: Self)
        ensures
            r == (CollectionUpdateBuilder { alias: Some(value), ..self }),
    {
        CollectionUpdateBuilder { alias: Some(value), ..self }
    }

    /// Sets the title.
    pub fn title(self, value: Option<String>) -> (r: Self)
        ensures
            r == (CollectionUpdateBuilder { title: Some(value), ..self }),
    {
        CollectionUpdateBuilder { title: Some(value), ..self }
    }

    /// Sets the description.
    pub fn description(self, value: Option<String>) -> (r: Self)
        ensures
            r == (CollectionUpdateBuilder { description: Some(value), ..self }),
    {
        CollectionUpdateBuilder { description: Some(value), ..self }
    }

    /// Sets the style sheet.
    pub fn style_sheet(self, value: Option<String>) -> (r: Self)
        ensures
            r == (CollectionUpdateBuilder { style_sheet: Some(value), ..self }),
    {
        CollectionUpdateBuilder { style_sheet: Some(value), ..self }
    }

    /// Sets the script.
    pub fn script(self, value: Option<String>) -> (r: Self)
        ensures
            r == (CollectionUpdateBuilder { script: Some(value), ..self }),
    {
        CollectionUpdateBuilder { script: Some(value), ..self }
    }

    /// Sets the visibility.
    pub fn visibility(self, value: Option<CollectionVisibility>) -> (r: Self)
        ensures
            r == (CollectionUpdateBuilder { visibility: Some(value), ..self }),
    {
        CollectionUpdateBuilder { visibility: Some(value), ..self }
    }

    /// Sets the password.
    pub fn pass(self, value: Option<String>) -> (r: Self)
        ensures
            r == (CollectionUpdateBuilder { pass: Some(value), ..self }),
    {
        CollectionUpdateBuilder { pass: Some(value), ..self }
    }

    /// Sets the MathJax switch.
    pub fn mathjax(self, value: bool) -> (r: Self)
        ensures
            r == (CollectionUpdateBuilder { mathjax: Some(value), ..self }),
    {
        CollectionUpdateBuilder { mathjax: Some(value), ..self }
    }

    /// Whether every field has been set.
    pub open spec fn spec_complete(self) -> bool {
        &&& self.client is Some
        &&& self.alias is Some
        &&& self.title is Some
        &&& self.description is Some
        &&& self.style_sheet is Some
        &&& self.script is Some
        &&& self.visibility is Some
        &&& self.pass is Some
        &&& self.mathjax is Some
    }

    /// Builds the update; refused with a usage error until every field has
    /// been set.
    pub fn build(self) -> (r: Result<CollectionUpdate, ApiError>)
        ensures
            match r {
                Ok(u) => self.spec_complete() && u == (CollectionUpdate {
                    client: self.client->Some_0,
                    alias: self.alias->Some_0,
                    title: self.title->Some_0,
                    description: self.description->Some_0,
                    style_sheet: self.style_sheet->Some_0,
                    script: self.script->Some_0,
                    visibility: self.visibility->Some_0,
                    pass: self.pass->Some_0,
                    mathjax: self.mathjax->Some_0,
                }),
                Err(e) => e == (ApiError::UsageError {}) && !self.spec_complete(),
            },
    {
        match (self.client, self.alias, self.title, self.description, self.style_sheet,
            self.script, self.visibility, self.pass, self.mathjax) {
            (
                Some(client),
                Some(alias),
                Some(title),
                Some(description),
                Some(style_sheet),
                Some(script),
                Some(visibility),
                Some(pass),
                Some(mathjax),
            ) => Ok(
                CollectionUpdate {
                    client,
                    alias,
                    title,
                    description,
                    style_sheet,
                    script,
                    visibility,
                    pass,
                    mathjax,
                },
            ),
            _ => Err(ApiError::UsageError {}),
        }
    }
}

} // verus!
