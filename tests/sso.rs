use irc_matrix_gateway::session::Credential;
use irc_matrix_gateway::sso::{
    callback_step, callback_token, exchange_response, login_token, redirect_location,
    CallbackStep,
};
use irc_matrix_gateway::ClientError;

#[test]
fn callback_exchanges_the_token_once_and_returns_the_access_token() {
    let mut exchanged: Vec<String> = Vec::new();
    let response = match callback_step("loginToken=xyz") {
        CallbackStep::Exchange(token) => {
            exchanged.push(token.clone());
            exchange_response(Ok(Credential::new("access-1".to_string(), "dev".to_string())))
        }
        CallbackStep::Respond(r) => r,
    };
    assert_eq!(exchanged, vec!["xyz".to_string()]);
    assert_eq!(response.status, 200);
    assert_eq!(response.body, "access-1");
}

#[test]
fn callback_without_token_is_rejected() {
    match callback_step("state=1") {
        CallbackStep::Respond(r) => {
            assert_eq!(r.status, 400);
            assert_eq!(r.body, "missing loginToken");
        }
        CallbackStep::Exchange(_) => panic!("no token was given"),
    }
    assert!(callback_token("").is_none());
}

#[test]
fn callback_token_is_decoded_and_first_wins() {
    assert_eq!(callback_token("a=1&loginToken=x%20y&loginToken=z").as_deref(), Some("x y"));
    assert_eq!(callback_token("loginToken=a+b").as_deref(), Some("a b"));
    let pairs = vec![
        ("other".to_string(), "1".to_string()),
        ("loginToken".to_string(), "t".to_string()),
    ];
    assert_eq!(login_token(&pairs).as_deref(), Some("t"));
    assert!(login_token(&Vec::new()).is_none());
}

#[test]
fn failed_exchange_is_a_gateway_error() {
    let r = exchange_response(Err(ClientError::AuthenticationRequired));
    assert_eq!(r.status, 502);
    assert_eq!(
        r.body,
        "The queried endpoint requires authentication but was called with an anonymous client."
    );
}

#[test]
fn redirect_goes_to_the_sso_endpoint() {
    assert_eq!(
        redirect_location("https://hs.example", "http://localhost:8080/callback"),
        "https://hs.example/_matrix/client/r0/login/sso/redirect/?redirectUrl=http://localhost:8080/callback"
    );
}
