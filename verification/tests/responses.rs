use writefreely::client::Auth;
use writefreely::client::Client;
use writefreely::errors::ApiError;
use writefreely::http::HttpResponse;
use writefreely::models::PostAppearance;

fn authed() -> Client {
    let mut c = Client::new("http://example.test:8080".to_string());
    c.authenticate(Auth::Token("abc".to_string())).unwrap();
    c
}

fn ok(body: &str) -> Option<HttpResponse> {
    Some(HttpResponse { status: 200, reason: None, body: body.to_string() })
}

#[test]
fn scenario_get_post() {
    let client = authed();
    assert!(client.is_authenticated());
    assert_eq!(client.token(), Some("abc".to_string()));
    let handler = client.posts();
    let plan = handler.get("42").unwrap();
    assert_eq!(plan.url, "http://example.test:8080/api/posts/42".to_string());
    assert_eq!(plan.auth_header, Some("Token abc".to_string()));
    let resp = ok(
        r#"{"code":200,"data":{"id":"42","body":"hi","rtl":false,"tags":["a","b"],"title":"T","views":7}}"#,
    );
    let post = handler.get_result(&resp).unwrap();
    assert_eq!(post.id, "42".to_string());
    assert_eq!(post.body, "hi".to_string());
    assert_eq!(post.title, Some("T".to_string()));
    assert_eq!(post.tags, vec!["a".to_string(), "b".to_string()]);
    assert_eq!(post.views, Some(7));
    assert!(post.client.is_some());
    assert_eq!(post.client.unwrap().token(), Some("abc".to_string()));
}

#[test]
fn error_status_maps_to_request_error() {
    let handler = authed().posts();
    let resp = Some(HttpResponse {
        status: 404,
        reason: Some("404 Not Found".to_string()),
        body: String::new(),
    });
    match handler.get_result(&resp).unwrap_err() {
        ApiError::Request { error } => {
            assert_eq!(error.code, 404);
            assert_eq!(error.reason, Some("404 Not Found".to_string()));
        },
        other => panic!("expected a request error, got {:?}", other),
    }
}

#[test]
fn transport_failure_maps_to_connection_error() {
    let handler = authed().posts();
    assert_eq!(handler.get_result(&None).unwrap_err(), ApiError::ConnectionError {});
}

#[test]
fn malformed_body_maps_to_parse_error_with_text() {
    let handler = authed().posts();
    let resp = ok("this is not json");
    match handler.get_result(&resp).unwrap_err() {
        ApiError::ParseError { text } => assert_eq!(text, "this is not json".to_string()),
        other => panic!("expected a parse error, got {:?}", other),
    }
}

#[test]
fn missing_envelope_fields_map_to_parse_error() {
    let handler = authed().posts();
    let resp = ok(r#"{"data":{"id":"42"}}"#);
    assert!(matches!(handler.get_result(&resp).unwrap_err(), ApiError::ParseError { .. }));
    let resp = ok(r#"{"code":200}"#);
    assert!(matches!(handler.get_result(&resp).unwrap_err(), ApiError::ParseError { .. }));
}

#[test]
fn wrong_payload_shape_maps_to_parse_error() {
    let handler = authed().posts();
    let resp = ok(r#"{"code":200,"data":{"id":42,"body":"hi","rtl":false,"tags":[]}}"#);
    assert!(matches!(handler.get_result(&resp).unwrap_err(), ApiError::ParseError { .. }));
}

#[test]
fn optional_null_fields_decode_as_absent() {
    let handler = authed().posts();
    let resp = ok(
        r#"{"code":200,"data":{"id":"42","body":"hi","rtl":false,"tags":[],"title":null,"slug":null,"appearance":null}}"#,
    );
    let post = handler.get_result(&resp).unwrap();
    assert_eq!(post.title, None);
    assert_eq!(post.slug, None);
    assert_eq!(post.appearance, None);
}

#[test]
fn appearance_synonym_decodes_as_serif() {
    let handler = authed().posts();
    let resp = ok(
        r#"{"code":200,"data":{"id":"42","body":"hi","rtl":false,"tags":[],"appearance":"norm"}}"#,
    );
    let post = handler.get_result(&resp).unwrap();
    assert_eq!(post.appearance, Some(PostAppearance::Serif));
    let resp = ok(
        r#"{"code":200,"data":{"id":"42","body":"hi","rtl":false,"tags":[],"appearance":"comic"}}"#,
    );
    assert!(matches!(handler.get_result(&resp).unwrap_err(), ApiError::ParseError { .. }));
}

#[test]
fn nested_collection_decodes_and_post_list_keeps_order() {
    let client = authed();
    let handler = client.collections();
    let resp = ok(
        r#"{"code":200,"data":{"alias":"blog","title":"Blog","public":true,"total_posts":2}}"#,
    );
    let coll = handler.get_result(&resp).unwrap();
    assert_eq!(coll.alias, "blog".to_string());
    assert_eq!(coll.total_posts, Some(2));
    assert!(coll.client.is_some());

    let resp = ok(
        r#"{"code":200,"data":[{"id":"1","body":"a","rtl":false,"tags":[]},{"id":"2","body":"b","rtl":false,"tags":[]}]}"#,
    );
    let posts = coll.get_posts_result(&resp).unwrap();
    assert_eq!(posts.len(), 2);
    assert_eq!(posts[0].id, "1".to_string());
    assert_eq!(posts[1].id, "2".to_string());
    assert!(posts[0].client.is_some());
    assert!(posts[1].client.is_some());
}

#[test]
fn post_delete_result_accepts_null_payload_only() {
    let client = authed();
    let post = writefreely::models::Post {
        client: Some(client),
        id: "42".to_string(),
        slug: None,
        appearance: None,
        language: None,
        rtl: false,
        created: None,
        title: None,
        body: "hi".to_string(),
        tags: Vec::new(),
        views: None,
        collection: None,
        token: None,
    };
    assert!(post.delete_result(&ok(r#"{"code":200,"data":null}"#)).is_ok());
    assert!(matches!(
        post.delete_result(&ok(r#"{"code":200,"data":{"ok":true}}"#)).unwrap_err(),
        ApiError::ParseError { .. }
    ));
}

#[test]
fn user_handler_swallows_failed_fetch() {
    let client = authed();
    let fetched = client.user().unwrap();
    assert!(fetched.is_some());
    let handler = writefreely::handlers::UserHandler::new(
        client.duplicate(),
        Some(HttpResponse { status: 500, reason: Some("500".to_string()), body: String::new() }),
    );
    assert!(handler.info().is_none());
    let handler = writefreely::handlers::UserHandler::new(
        client,
        ok(r#"{"code":200,"data":{"username":"u","email":"e@example.test"}}"#),
    );
    let user = handler.info().unwrap();
    assert_eq!(user.username, "u".to_string());
    assert_eq!(user.email, Some("e@example.test".to_string()));
}

#[test]
fn user_handler_ignores_fetch_for_anonymous_session() {
    let client = Client::new("http://example.test:8080".to_string());
    let r = client.user();
    assert_eq!(r.unwrap_err(), ApiError::LoggedOut {});
    let handler = writefreely::handlers::UserHandler::new(
        client,
        ok(r#"{"code":200,"data":{"username":"u"}}"#),
    );
    assert!(handler.info().is_none());
}

#[test]
fn envelope_code_must_fit_sixteen_bits() {
    let handler = authed().posts();
    let resp = ok(r#"{"code":65536,"data":null}"#);
    assert!(matches!(handler.get_result(&resp).unwrap_err(), ApiError::ParseError { .. }));
}
