use writefreely::builders::PostCreationBuilder;
use writefreely::builders::PostUpdateBuilder;
use writefreely::client::Auth;
use writefreely::client::Client;
use writefreely::errors::ApiError;
use writefreely::http::HttpResponse;
use writefreely::models::CollectionVisibility;
use writefreely::models::MovePost;
use writefreely::models::PinPost;
use writefreely::models::Post;
use writefreely::models::PostAppearance;
use writefreely::models::appearance_of;
use writefreely::models::appearance_text;
use writefreely::models::visibility_code;
use writefreely::models::visibility_of;

fn authed() -> Client {
    let mut c = Client::new("http://example.test:8080".to_string());
    c.authenticate(Auth::Token("abc".to_string())).unwrap();
    c
}

#[test]
fn appearance_wire_names_round_trip() {
    let all = [
        (PostAppearance::SansSerif, "sans"),
        (PostAppearance::Serif, "serif"),
        (PostAppearance::Wrap, "wrap"),
        (PostAppearance::Mono, "mono"),
        (PostAppearance::Code, "code"),
    ];
    for (a, name) in all {
        assert_eq!(appearance_text(&a), name);
        assert_eq!(appearance_of(name), Some(a));
    }
    assert_eq!(appearance_of("norm"), Some(PostAppearance::Serif));
    assert_eq!(appearance_of("gothic"), None);
}

#[test]
fn visibility_wire_codes_round_trip() {
    let all = [
        (CollectionVisibility::Unlisted, 0),
        (CollectionVisibility::Public, 1),
        (CollectionVisibility::Private, 2),
        (CollectionVisibility::Password, 4),
    ];
    for (v, code) in all {
        assert_eq!(visibility_code(&v), code);
        assert_eq!(visibility_of(code), Some(v));
    }
    assert_eq!(visibility_of(3), None);
}

#[test]
fn move_post_constructors() {
    let plain = MovePost::new("1");
    assert_eq!(plain.id, "1".to_string());
    assert_eq!(plain.token, None);
    let with_token = MovePost::new_with_token("2", "tok");
    assert_eq!(with_token.id, "2".to_string());
    assert_eq!(with_token.token, Some("tok".to_string()));
}

#[test]
fn pin_post_constructors() {
    let plain = PinPost::new("1");
    assert_eq!(plain.id, "1".to_string());
    assert_eq!(plain.postion, None);
    let positioned = PinPost::new_at_position("2", 5);
    assert_eq!(positioned.id, "2".to_string());
    assert_eq!(positioned.postion, Some(5));
}

#[test]
fn builder_refuses_incomplete_draft() {
    let r = PostCreationBuilder::default().body("hello".to_string()).build();
    assert_eq!(r.unwrap_err(), ApiError::UsageError {});
}

#[test]
fn builder_builds_complete_draft() {
    let draft = PostCreationBuilder::default()
        .client(None)
        .collection(None)
        .body("hello".to_string())
        .title(Some("Hi".to_string()))
        .font(None)
        .lang(Some("en".to_string()))
        .rtl(Some(false))
        .created(None)
        .build()
        .unwrap();
    assert_eq!(draft.body, "hello".to_string());
    assert_eq!(draft.title, Some("Hi".to_string()));
    assert_eq!(draft.lang, Some("en".to_string()));
    assert_eq!(draft.rtl, Some(false));
}

#[test]
fn build_update_is_prepopulated() {
    let client = authed();
    let resp = Some(HttpResponse {
        status: 200,
        reason: None,
        body: r#"{"code":200,"data":{"id":"42","body":"hi","rtl":false,"tags":[]}}"#.to_string(),
    });
    let post = client.posts().get_result(&resp).unwrap();
    let update = post
        .build_update("new body".to_string())
        .token(None)
        .title(Some("T2".to_string()))
        .font(None)
        .lang(None)
        .rtl(false)
        .build()
        .unwrap();
    assert_eq!(update.id, "42".to_string());
    assert_eq!(update.body, "new body".to_string());
    assert!(update.client.is_some());

    let plan = update.update().unwrap();
    assert_eq!(plan.url, "http://example.test:8080/api/posts/42".to_string());
    let body: serde_json::Value = serde_json::from_str(&plan.body.unwrap()).unwrap();
    assert_eq!(body["body"].as_str(), Some("new body"));
    assert_eq!(body["title"].as_str(), Some("T2"));
    assert_eq!(body["rtl"].as_bool(), Some(false));
    assert!(body.get("id").is_none());
    assert!(body.get("client").is_none());
}

#[test]
fn update_builder_refuses_missing_fields() {
    let r = PostUpdateBuilder::default().id("1".to_string()).body("b".to_string()).build();
    assert_eq!(r.unwrap_err(), ApiError::UsageError {});
}

#[test]
fn publish_roundtrip_preserves_body_and_title() {
    let handler = authed().posts();
    let draft = handler
        .create("round trip body".to_string())
        .collection(None)
        .title(Some("Round".to_string()))
        .font(None)
        .lang(None)
        .rtl(None)
        .created(None)
        .build()
        .unwrap();
    let plan = handler.publish(&draft).unwrap();
    // Play the server: wrap the echoed draft fields in a created post.
    let sent: serde_json::Value = serde_json::from_str(&plan.body.unwrap()).unwrap();
    let echoed = format!(
        r#"{{"code":201,"data":{{"id":"9","rtl":false,"tags":[],"body":{},"title":{}}}}}"#,
        sent["body"], sent["title"],
    );
    let resp = Some(HttpResponse { status: 201, reason: None, body: echoed });
    let post = handler.publish_result(&resp).unwrap();
    assert_eq!(post.body, draft.body);
    assert_eq!(post.title, draft.title);
}

#[test]
fn with_client_attaches_exactly_once() {
    let mut post = Post {
        client: None,
        id: "42".to_string(),
        slug: None,
        appearance: None,
        language: None,
        rtl: true,
        created: Some("2024-01-01T00:00:00Z".to_string()),
        title: None,
        body: "hi".to_string(),
        tags: vec!["x".to_string()],
        views: None,
        collection: None,
        token: None,
    };
    let attached = post.with_client(authed());
    assert!(attached.client.is_some());
    assert_eq!(attached.id, post.id);
    assert_eq!(attached.tags, post.tags);
    assert_eq!(attached.created, post.created);
    assert!(post.client.is_some());
}
