use ruma_client_api::r0::session::login;
use std::convert::{TryFrom, TryInto};
use irc_matrix_gateway::matrix_client::Client;
use irc_matrix_gateway::session::Credential;
use irc_matrix_gateway::ClientError;

fn cred(token: &str) -> Credential {
    Credential::new(token.to_string(), "dev".to_string())
}

#[test]
fn invalid_homeserver_is_an_error() {
    match Client::create("not a url") {
        Err(ClientError::Homeserver(_)) => {}
        _ => panic!("expected a homeserver error"),
    }
    assert_eq!(
        ClientError::AuthenticationRequired.message(),
        "The queried endpoint requires authentication but was called with an anonymous client."
    );
}

#[test]
fn target_carries_token_only_when_required() {
    let anonymous = Client::create("https://example.org").unwrap();
    assert!(anonymous.access_token().is_none());
    let client = anonymous.with_credential(cred("abc"));
    assert_eq!(client.homeserver(), anonymous.homeserver());
    assert_eq!(client.access_token(), Some("abc"));

    let open = client.target("/_matrix/client/r0/login", None, false).unwrap();
    assert_eq!(open.path, "/_matrix/client/r0/login");
    assert!(open.query.is_none());
    assert!(open.access_token.is_none());

    let closed = client.target("/_matrix/client/r0/sync", Some("since=s1"), true).unwrap();
    assert_eq!(closed.query.as_deref(), Some("since=s1"));
    assert_eq!(closed.access_token.as_deref(), Some("abc"));

    match anonymous.target("/_matrix/client/r0/sync", None, true) {
        Err(ClientError::AuthenticationRequired) => {}
        _ => panic!("expected authentication to be required"),
    }
}

#[test]
fn request_uri_appends_token_only_when_required() {
    let client = Client::create("https://example.org").unwrap().with_credential(cred("abc"));
    assert_eq!(client.homeserver(), "https://example.org/");
    let uri = client.request_uri("/_matrix/client/r0/sync", Some("since=s1"), true).unwrap();
    assert_eq!(uri.text, "https://example.org/_matrix/client/r0/sync?since=s1&access_token=abc");
    assert_eq!(uri.uri.to_string(), uri.text);
    let uri = client.request_uri("/_matrix/client/r0/login", None, false).unwrap();
    assert_eq!(uri.text, "https://example.org/_matrix/client/r0/login");
    assert!(!uri.uri.to_string().contains("access_token"));
    let uri = client.request_uri("/a b", None, true).unwrap();
    assert_eq!(uri.text, "https://example.org/a%20b?access_token=abc");
    let uri = client.request_uri("/x", None, true).unwrap();
    assert_eq!(uri.text, "https://example.org/x?access_token=abc");

    let anonymous = Client::create("https://example.org").unwrap();
    match anonymous.request_uri("/_matrix/client/r0/sync", None, true) {
        Err(ClientError::AuthenticationRequired) => {}
        _ => panic!("expected authentication to be required"),
    }
    let uri = anonymous.request_uri("/_matrix/client/r0/login", None, false).unwrap();
    assert_eq!(uri.uri.path(), "/_matrix/client/r0/login");
}

#[test]
fn credential_is_set_once() {
    let mut client = Client::create("https://example.org").unwrap();
    assert_eq!(client.homeserver(), "https://example.org/");
    assert!(client.authenticate(cred("first")));
    assert!(!client.authenticate(cred("second")));
    assert_eq!(client.access_token(), Some("first"));
}

#[test]
fn error_conversions_and_messages() {
    let invalid: http::uri::InvalidUri = "a b".parse::<http::Uri>().unwrap_err();
    let e = ClientError::from(invalid);
    assert!(matches!(e, ClientError::Url(_)));
    assert_eq!(e.message(), "Invalid URL");
    let parse = url::Url::parse("nope").unwrap_err();
    assert_eq!(ClientError::Homeserver(parse).message(), "Invalid homeserver URL");
    assert_eq!(ClientError::TimedOut.message(), "The request timed out");
    assert_eq!(e.with_cause("bad"), "Invalid URL: bad");
}

#[test]
fn login_request_and_response_round_trip() {
    let request = login::Request {
        user: login::UserInfo::MatrixId("alice".to_string()),
        login_info: login::LoginInfo::Token { token: "tok-123".to_string() },
        device_id: None,
        initial_device_display_name: None,
    };
    let http_request: http::Request<Vec<u8>> = request.try_into().unwrap();
    assert_eq!(http_request.uri().path(), "/_matrix/client/r0/login");
    let decoded = login::Request::try_from(http_request).unwrap();
    assert_eq!(decoded.user, login::UserInfo::MatrixId("alice".to_string()));
    assert_eq!(decoded.login_info, login::LoginInfo::Token { token: "tok-123".to_string() });

    let response = http::Response::builder()
        .status(200)
        .body(
            br#"{"user_id":"@alice:example.org","access_token":"abc","device_id":"dev1"}"#
                .to_vec(),
        )
        .unwrap();
    let decoded = login::Response::try_from(response).unwrap();
    let credential = Credential::new(decoded.access_token, decoded.device_id);
    assert_eq!(credential.access_token, "abc");
    assert_eq!(credential.device_id, "dev1");
}
