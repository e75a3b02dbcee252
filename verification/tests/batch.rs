use writefreely::client::Auth;
use writefreely::client::Client;
use writefreely::errors::ApiError;
use writefreely::http::HttpResponse;
use writefreely::models::Collection;
use writefreely::models::MoveResult;
use writefreely::models::PinResult;
use writefreely::models::Post;

fn authed() -> Client {
    let mut c = Client::new("http://example.test:8080".to_string());
    c.authenticate(Auth::Token("abc".to_string())).unwrap();
    c
}

fn ok(body: &str) -> Option<HttpResponse> {
    Some(HttpResponse { status: 200, reason: None, body: body.to_string() })
}

fn coll(client: Option<Client>) -> Collection {
    Collection {
        client,
        alias: "blog".to_string(),
        title: "Blog".to_string(),
        description: None,
        style_sheet: None,
        public: true,
        views: None,
        verification_link: None,
        total_posts: None,
    }
}

fn bare_post(client: Option<Client>, id: &str, token: Option<&str>) -> Post {
    Post {
        client,
        id: id.to_string(),
        slug: None,
        appearance: None,
        language: None,
        rtl: false,
        created: None,
        title: None,
        body: "hi".to_string(),
        tags: Vec::new(),
        views: None,
        collection: None,
        token: token.map(|t| t.to_string()),
    }
}

#[test]
fn take_posts_results_keep_order_and_attach_session() {
    let c = coll(Some(authed()));
    let resp = ok(
        r#"{"code":200,"data":[{"code":200,"post":{"id":"1","body":"a","rtl":false,"tags":[]}},{"code":404,"error_msg":"gone"}]}"#,
    );
    let outcomes = c.take_posts_result(&resp).unwrap();
    assert_eq!(outcomes.len(), 2);
    match &outcomes[0] {
        Ok(MoveResult::Success { code, post }) => {
            assert_eq!(*code, 200);
            assert_eq!(post.id, "1".to_string());
            assert!(post.client.is_some());
            assert_eq!(post.client.as_ref().unwrap().token(), Some("abc".to_string()));
        },
        other => panic!("expected a success first, got {:?}", other),
    }
    match &outcomes[1] {
        Err(MoveResult::Error { code, error_msg }) => {
            assert_eq!(*code, 404);
            assert_eq!(error_msg, "gone");
        },
        other => panic!("expected an error second, got {:?}", other),
    }
}

#[test]
fn take_posts_without_session_is_usage_error() {
    let c = coll(None);
    assert_eq!(
        c.take_posts_result(&ok(r#"{"code":200,"data":[]}"#)).unwrap_err(),
        ApiError::UsageError {},
    );
}

#[test]
fn ambiguous_batch_slot_reads_as_success_first() {
    // The wire gives no discriminator: a slot carrying both a valid post and
    // an error text must decode as the success shape.
    let c = coll(Some(authed()));
    let resp = ok(
        r#"{"code":200,"data":[{"code":200,"post":{"id":"1","body":"a","rtl":false,"tags":[]},"error_msg":"ignored"}]}"#,
    );
    let outcomes = c.take_posts_result(&resp).unwrap();
    assert!(matches!(&outcomes[0], Ok(MoveResult::Success { .. })));
}

#[test]
fn pin_results_tag_success_and_error() {
    let c = coll(Some(authed()));
    let resp = ok(
        r#"{"code":200,"data":[{"code":200,"id":"1"},{"code":500,"error_msg":"bad"}]}"#,
    );
    let outcomes = c.pin_posts_result(&resp).unwrap();
    assert_eq!(outcomes.len(), 2);
    assert!(matches!(&outcomes[0], Ok(PinResult::Success { code: 200, .. })));
    assert!(matches!(&outcomes[1], Err(PinResult::Error { code: 500, .. })));
}

#[test]
fn undecodable_batch_slot_is_parse_error() {
    let c = coll(Some(authed()));
    let resp = ok(r#"{"code":200,"data":[{"code":"not a number"}]}"#);
    assert!(matches!(c.take_posts_result(&resp).unwrap_err(), ApiError::ParseError { .. }));
}

#[test]
fn move_to_resolves_collection_then_collects() {
    let post = bare_post(Some(authed()), "42", None);
    let plan = post.move_to("blog").unwrap();
    assert_eq!(plan.url, "http://example.test:8080/api/collections/blog".to_string());

    let coll_resp = ok(r#"{"code":200,"data":{"alias":"blog","title":"Blog","public":true}}"#);
    let plan = post.move_to_send(&coll_resp).unwrap();
    assert_eq!(plan.url, "http://example.test:8080/api/collections/blog/collect".to_string());
    let body: serde_json::Value = serde_json::from_str(&plan.body.unwrap()).unwrap();
    assert_eq!(body.as_array().unwrap().len(), 1);
    assert_eq!(body[0]["id"].as_str(), Some("42"));
    assert!(body[0]["token"].is_null());

    let resp = ok(
        r#"{"code":200,"data":[{"code":200,"post":{"id":"42","body":"hi","rtl":false,"tags":[]}}]}"#,
    );
    match post.move_to_result(&resp).unwrap() {
        MoveResult::Success { code, post } => {
            assert_eq!(code, 200);
            assert_eq!(post.id, "42".to_string());
            assert!(post.client.is_some());
        },
        other => panic!("expected a success, got {:?}", other),
    }
}

#[test]
fn move_to_uses_post_token_when_anonymous() {
    let post = bare_post(
        Some(Client::new("http://example.test:8080".to_string())),
        "42",
        Some("secret"),
    );
    let coll_resp = ok(r#"{"code":200,"data":{"alias":"blog","title":"Blog","public":true}}"#);
    let plan = post.move_to_send(&coll_resp).unwrap();
    let body: serde_json::Value = serde_json::from_str(&plan.body.unwrap()).unwrap();
    assert_eq!(body[0]["token"].as_str(), Some("secret"));
}

#[test]
fn move_to_failure_slot_is_still_a_result() {
    let post = bare_post(Some(authed()), "42", None);
    let resp = ok(r#"{"code":200,"data":[{"code":409,"error_msg":"already there"}]}"#);
    match post.move_to_result(&resp).unwrap() {
        MoveResult::Error { code, error_msg } => {
            assert_eq!(code, 409);
            assert_eq!(error_msg, "already there".to_string());
        },
        other => panic!("expected the error slot, got {:?}", other),
    }
}

#[test]
fn move_to_empty_answer_is_unknown_error() {
    let post = bare_post(Some(authed()), "42", None);
    let resp = ok(r#"{"code":200,"data":[]}"#);
    assert_eq!(post.move_to_result(&resp).unwrap_err(), ApiError::UnknownError {});
}
