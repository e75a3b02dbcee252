use writefreely::client::Auth;
use writefreely::client::AuthFlow;
use writefreely::client::Client;
use writefreely::errors::ApiError;
use writefreely::http::HttpMethod;
use writefreely::http::HttpResponse;

fn anon() -> Client {
    Client::new("http://0.0.0.0:8080".to_string())
}

#[test]
fn eq_url() {
    assert_eq!(anon().url(), "http://0.0.0.0:8080".to_string());
}

#[test]
fn anon_no_token() {
    assert!(!anon().is_authenticated());
}

#[test]
fn token_auth_has_token() {
    let mut client = anon();
    let flow = client.authenticate(Auth::Token("abc".to_string())).unwrap();
    assert!(client.is_authenticated());
    assert_eq!(client.token(), Some("abc".to_string()));
    match flow {
        AuthFlow::Authenticated(snapshot) => {
            assert!(snapshot.is_authenticated());
            assert_eq!(snapshot.token(), Some("abc".to_string()));
        },
        AuthFlow::Exchange(_) => panic!("a literal token needs no exchange"),
    }
}

#[test]
fn logout_while_logged_out_fails() {
    let client = anon();
    let r = client.logout();
    assert_eq!(r.unwrap_err(), ApiError::LoggedOut {});
    assert!(!client.is_authenticated());
    assert_eq!(client.token(), None);
}

#[test]
fn logout_builds_session_delete() {
    let mut client = anon();
    client.authenticate(Auth::Token("abc".to_string())).unwrap();
    let plan = client.logout().unwrap();
    assert_eq!(plan.method, HttpMethod::Delete);
    assert_eq!(plan.url, "http://0.0.0.0:8080/api/auth/me".to_string());
    assert_eq!(plan.auth_header, Some("Token abc".to_string()));
    assert!(plan.body.is_none());
}

#[test]
fn finish_logout_clears_token() {
    let mut client = anon();
    client.authenticate(Auth::Token("abc".to_string())).unwrap();
    client.logout().unwrap();
    let resp = Some(HttpResponse { status: 204, reason: None, body: String::new() });
    let snapshot = client.finish_logout(&resp).unwrap();
    assert!(!client.is_authenticated());
    assert!(!snapshot.is_authenticated());
}

#[test]
fn login_builds_exchange_request() {
    let mut client = anon();
    let flow = client
        .authenticate(Auth::Login { username: "user".to_string(), password: "pw".to_string() })
        .unwrap();
    assert!(!client.is_authenticated());
    match flow {
        AuthFlow::Exchange(plan) => {
            assert_eq!(plan.method, HttpMethod::Post);
            assert_eq!(plan.url, "http://0.0.0.0:8080/api/auth/login".to_string());
            assert_eq!(plan.auth_header, None);
            let body: serde_json::Value = serde_json::from_str(&plan.body.unwrap()).unwrap();
            assert_eq!(body["alias"].as_str(), Some("user"));
            assert_eq!(body["pass"].as_str(), Some("pw"));
        },
        AuthFlow::Authenticated(_) => panic!("a credential pair needs an exchange"),
    }
}

#[test]
fn auth_bad_login() {
    let mut client = anon();
    client
        .authenticate(Auth::Login {
            username: "usernameee".to_string(),
            password: "passwordeee".to_string(),
        })
        .unwrap();
    let rejected = Some(HttpResponse {
        status: 401,
        reason: Some("401 Unauthorized".to_string()),
        body: String::new(),
    });
    let r = client.finish_login(&rejected);
    assert_eq!(r.unwrap_err(), ApiError::AuthenticationError {});
    assert!(!client.is_authenticated());
    assert_eq!(client.token(), None);
}

#[test]
fn finish_login_other_error_propagates() {
    let mut client = anon();
    let resp = Some(HttpResponse {
        status: 500,
        reason: Some("500 Internal Server Error".to_string()),
        body: String::new(),
    });
    let r = client.finish_login(&resp);
    match r.unwrap_err() {
        ApiError::Request { error } => {
            assert_eq!(error.code, 500);
            assert_eq!(error.reason, Some("500 Internal Server Error".to_string()));
        },
        other => panic!("expected a request error, got {:?}", other),
    }
    assert!(!client.is_authenticated());
}

#[test]
fn finish_login_stores_issued_token() {
    let mut client = anon();
    client
        .authenticate(Auth::Login { username: "user".to_string(), password: "pw".to_string() })
        .unwrap();
    let resp = Some(HttpResponse {
        status: 200,
        reason: None,
        body: r#"{"code":200,"data":{"access_token":"tok1","user":{"username":"user"}}}"#
            .to_string(),
    });
    let snapshot = client.finish_login(&resp).unwrap();
    assert!(client.is_authenticated());
    assert_eq!(client.token(), Some("tok1".to_string()));
    assert_eq!(snapshot.token(), Some("tok1".to_string()));
}

#[test]
fn finish_login_transport_failure() {
    let mut client = anon();
    let r = client.finish_login(&None);
    assert_eq!(r.unwrap_err(), ApiError::ConnectionError {});
    assert!(!client.is_authenticated());
}
