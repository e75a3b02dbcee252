use writefreely::client::Auth;
use writefreely::client::Client;
use writefreely::errors::ApiError;
use writefreely::http::HttpMethod;
use writefreely::models::CollectionVisibility;
use writefreely::models::MovePost;
use writefreely::models::PinPost;
use writefreely::models::Post;
use writefreely::models::PostAppearance;

fn session(base: &str) -> Client {
    Client::new(base.to_string())
}

fn authed(base: &str) -> Client {
    let mut c = session(base);
    c.authenticate(Auth::Token("abc".to_string())).unwrap();
    c
}

fn bare_post(client: Option<Client>, id: &str, token: Option<&str>) -> Post {
    Post {
        client,
        id: id.to_string(),
        slug: None,
        appearance: None,
        language: None,
        rtl: false,
        created: None,
        title: None,
        body: "hi".to_string(),
        tags: Vec::new(),
        views: None,
        collection: None,
        token: token.map(|t| t.to_string()),
    }
}

#[test]
fn url_is_exact_concatenation() {
    let api = session("http://example.test:8080").api();
    let u = api.url("/posts/42").unwrap();
    assert_eq!(u, "http://example.test:8080/api/posts/42".to_string());
}

#[test]
fn url_rejects_malformed_base() {
    let api = session("not a url").api();
    assert_eq!(api.url("/posts").unwrap_err(), ApiError::UrlError {});
}

#[test]
fn url_rejects_base_that_takes_no_path() {
    let api = session("mailto:someone@example.test").api();
    assert_eq!(api.url("/posts").unwrap_err(), ApiError::UrlError {});
}

#[test]
fn get_post_request_carries_auth_header() {
    let client = authed("http://example.test:8080");
    let plan = client.posts().get("42").unwrap();
    assert_eq!(plan.method, HttpMethod::Get);
    assert_eq!(plan.url, "http://example.test:8080/api/posts/42".to_string());
    assert_eq!(plan.auth_header, Some("Token abc".to_string()));
    assert_eq!(plan.query_token, None);
    assert!(plan.body.is_none());
}

#[test]
fn collection_create_without_names_is_usage_error() {
    let handler = session("http://example.test:8080").collections();
    let r = handler.create(None, None);
    assert_eq!(r.unwrap_err(), ApiError::UsageError {});
}

#[test]
fn collection_create_logged_out() {
    let handler = session("http://example.test:8080").collections();
    let r = handler.create(Some("blog".to_string()), None);
    assert_eq!(r.unwrap_err(), ApiError::LoggedOut {});
}

#[test]
fn collection_create_body_carries_names() {
    let handler = authed("http://example.test:8080").collections();
    let plan = handler.create(Some("blog".to_string()), None).unwrap();
    assert_eq!(plan.method, HttpMethod::Post);
    assert_eq!(plan.url, "http://example.test:8080/api/collections".to_string());
    let body: serde_json::Value = serde_json::from_str(&plan.body.unwrap()).unwrap();
    assert_eq!(body["alias"].as_str(), Some("blog"));
    assert!(body["title"].is_null());
}

#[test]
fn post_delete_uses_query_token_when_anonymous() {
    let post = bare_post(Some(session("http://example.test:8080")), "42", Some("secret"));
    let plan = post.delete().unwrap();
    assert_eq!(plan.method, HttpMethod::Delete);
    assert_eq!(plan.url, "http://example.test:8080/api/posts/42".to_string());
    assert_eq!(plan.auth_header, None);
    assert_eq!(plan.query_token, Some("secret".to_string()));
}

#[test]
fn post_delete_prefers_auth_header_when_authenticated() {
    let post = bare_post(Some(authed("http://example.test:8080")), "42", Some("secret"));
    let plan = post.delete().unwrap();
    assert_eq!(plan.auth_header, Some("Token abc".to_string()));
    assert_eq!(plan.query_token, None);
}

#[test]
fn post_delete_without_session_is_usage_error() {
    let post = bare_post(None, "42", None);
    assert_eq!(post.delete().unwrap_err(), ApiError::UsageError {});
}

#[test]
fn publish_targets_collection_endpoint_when_named() {
    let handler = authed("http://example.test:8080").posts();
    let draft = handler
        .create("hello".to_string())
        .collection(Some("blog".to_string()))
        .title(Some("Hi".to_string()))
        .font(Some(PostAppearance::Serif))
        .lang(None)
        .rtl(None)
        .created(None)
        .build()
        .unwrap();
    let plan = handler.publish(&draft).unwrap();
    assert_eq!(plan.url, "http://example.test:8080/api/collections/blog/post".to_string());
    let body: serde_json::Value = serde_json::from_str(&plan.body.unwrap()).unwrap();
    assert_eq!(body["body"].as_str(), Some("hello"));
    assert_eq!(body["title"].as_str(), Some("Hi"));
    assert_eq!(body["font"].as_str(), Some("serif"));
    assert!(body["lang"].is_null());
    assert!(body["rtl"].is_null());
    assert!(body.get("collection").is_none());
    assert!(body.get("client").is_none());
}

#[test]
fn publish_targets_posts_endpoint_by_default() {
    let handler = authed("http://example.test:8080").posts();
    let draft = handler
        .create("hello".to_string())
        .collection(None)
        .title(None)
        .font(None)
        .lang(None)
        .rtl(Some(true))
        .created(None)
        .build()
        .unwrap();
    let plan = handler.publish(&draft).unwrap();
    assert_eq!(plan.url, "http://example.test:8080/api/posts".to_string());
    let body: serde_json::Value = serde_json::from_str(&plan.body.unwrap()).unwrap();
    assert_eq!(body["rtl"].as_bool(), Some(true));
}

#[test]
fn take_posts_body_is_parallel_array() {
    let mut coll = bare_collection();
    coll.client = Some(authed("http://example.test:8080"));
    let descriptors = vec![
        MovePost::new("1"),
        MovePost::new_with_token("2", "tok"),
    ];
    let plan = coll.take_posts(&descriptors).unwrap();
    assert_eq!(plan.url, "http://example.test:8080/api/collections/blog/collect".to_string());
    let body: serde_json::Value = serde_json::from_str(&plan.body.unwrap()).unwrap();
    let items = body.as_array().unwrap();
    assert_eq!(items.len(), 2);
    assert_eq!(items[0]["id"].as_str(), Some("1"));
    assert!(items[0]["token"].is_null());
    assert_eq!(items[1]["id"].as_str(), Some("2"));
    assert_eq!(items[1]["token"].as_str(), Some("tok"));
}

#[test]
fn pin_posts_body_keeps_positions() {
    let mut coll = bare_collection();
    coll.client = Some(authed("http://example.test:8080"));
    let pins = vec![PinPost::new("1"), PinPost::new_at_position("2", 3)];
    let plan = coll.pin_posts(&pins).unwrap();
    assert_eq!(plan.url, "http://example.test:8080/api/collections/blog/pin".to_string());
    let body: serde_json::Value = serde_json::from_str(&plan.body.unwrap()).unwrap();
    let items = body.as_array().unwrap();
    assert!(items[0].get("postion").is_none());
    assert_eq!(items[1]["postion"].as_u64(), Some(3));
}

#[test]
fn unpin_posts_wraps_plain_ids() {
    let mut coll = bare_collection();
    coll.client = Some(authed("http://example.test:8080"));
    let plan = coll.unpin_posts(&["7".to_string()]).unwrap();
    assert_eq!(plan.url, "http://example.test:8080/api/collections/blog/unpin".to_string());
    let body: serde_json::Value = serde_json::from_str(&plan.body.unwrap()).unwrap();
    assert_eq!(body[0]["id"].as_str(), Some("7"));
    assert!(body[0].get("postion").is_none());
}

#[test]
fn collection_update_body_uses_visibility_codes() {
    let coll = {
        let mut c = bare_collection();
        c.client = Some(authed("http://example.test:8080"));
        c
    };
    let update = coll
        .build_update()
        .title(Some("New".to_string()))
        .description(None)
        .style_sheet(None)
        .script(None)
        .visibility(Some(CollectionVisibility::Password))
        .pass(Some("pw".to_string()))
        .mathjax(false)
        .build()
        .unwrap();
    let plan = update.update().unwrap();
    assert_eq!(plan.url, "http://example.test:8080/api/collections/blog".to_string());
    let body: serde_json::Value = serde_json::from_str(&plan.body.unwrap()).unwrap();
    assert_eq!(body["visibility"].as_u64(), Some(4));
    assert_eq!(body["title"].as_str(), Some("New"));
    assert_eq!(body["mathjax"].as_bool(), Some(false));
    assert!(body.get("alias").is_none());
}

fn bare_collection() -> writefreely::models::Collection {
    writefreely::models::Collection {
        client: None,
        alias: "blog".to_string(),
        title: "Blog".to_string(),
        description: None,
        style_sheet: None,
        public: true,
        views: None,
        verification_link: None,
        total_posts: None,
    }
}

#[test]
fn user_handler_listing_requires_auth() {
    let client = session("http://example.test:8080");
    let handler = writefreely::handlers::UserHandler::new(client, None);
    assert_eq!(handler.posts().unwrap_err(), ApiError::LoggedOut {});
    assert_eq!(handler.collections().unwrap_err(), ApiError::LoggedOut {});
    assert_eq!(handler.post("42").unwrap_err(), ApiError::LoggedOut {});
    assert_eq!(handler.collection("blog").unwrap_err(), ApiError::LoggedOut {});
}

#[test]
fn user_handler_plans_when_authenticated() {
    let handler = writefreely::handlers::UserHandler::new(authed("http://example.test:8080"), None);
    assert_eq!(handler.posts().unwrap().url, "http://example.test:8080/api/me/posts".to_string());
    assert_eq!(
        handler.collections().unwrap().url,
        "http://example.test:8080/api/me/collections".to_string(),
    );
}

#[test]
fn collection_post_by_slug_url() {
    let mut coll = bare_collection();
    coll.client = Some(authed("http://example.test:8080"));
    let plan = coll.get_post("my-slug".to_string()).unwrap();
    assert_eq!(
        plan.url,
        "http://example.test:8080/api/collections/blog/posts/my-slug".to_string(),
    );
    let plan = coll.get_posts().unwrap();
    assert_eq!(plan.url, "http://example.test:8080/api/collections/blog/posts".to_string());
    let plan = coll.delete().unwrap();
    assert_eq!(plan.method, HttpMethod::Delete);
    assert_eq!(plan.url, "http://example.test:8080/api/collections/blog".to_string());
}
