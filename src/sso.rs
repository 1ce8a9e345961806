//! The SSO callback: the browser comes back from the identity provider with a
//! one-time login token, which is exchanged for an access token.

use vstd::prelude::*;
use vstd::string::StringExecFns;
use crate::error::ClientError;
use crate::matrix_client::string_text;
use crate::session::Credential;

verus! {

/// The name/value pairs that `url::form_urlencoded::parse` decodes from a
/// query string.
pub uninterp spec fn form_pairs(query: Seq<char>) -> Seq<(Seq<char>, Seq<char>)>;

/// Relies on `url::form_urlencoded::parse`, which decodes the pairs of a query
/// string in order; the result depends on the text alone.
#[verifier::external_body]
fn decode_query(query: &str) -> (r: Vec<(String, String)>)
    ensures
        r.deep_view() == form_pairs(query@),
{
    url::form_urlencoded::parse(query.as_bytes()).map(|(k, v)| (k.into_owned(), v.into_owned())).collect()
}

/// The value of the first pair with this name.
pub open spec fn first_value(pairs: Seq<(Seq<char>, Seq<char>)>, name: Seq<char>) -> Option<
    Seq<char>,
>
    decreases pairs.len(),
{
    if pairs.len() == 0 {
        None
    } else if pairs[0].0 == name {
        Some(pairs[0].1)
    } else {
        first_value(pairs.drop_first(), name)
    }
}

/// The query parameter that carries the one-time login token.
pub const LOGIN_TOKEN_PARAMETER: &'static str = "loginToken";

/// The path of the homeserver's SSO redirect endpoint.
pub const SSO_REDIRECT_PATH: &'static str = "/_matrix/client/r0/login/sso/redirect/?redirectUrl=";

/// The login token among decoded query pairs: the value of the first pair
/// named `loginToken`.
pub fn login_token(pairs: &Vec<(String, String)>) -> (r: Option<String>)
    ensures
        string_text(r) == first_value(pairs.deep_view(), LOGIN_TOKEN_PARAMETER@),
{
    let name = String::from_str(LOGIN_TOKEN_PARAMETER);
    let mut i: usize = 0;
    assert(pairs.deep_view().skip(0) =~= pairs.deep_view());
    while i < pairs.len()
        invariant
            0 <= i <= pairs.len(),
            name@ == LOGIN_TOKEN_PARAMETER@,
            first_value(pairs.deep_view(), name@) == first_value(
                pairs.deep_view().skip(i as int),
                name@,
            ),
        decreases pairs.len() - i,
    {
        let ghost rest = pairs.deep_view().skip(i as int);
        assert(rest[0] == pairs.deep_view()[i as int]);
        assert(rest.drop_first() =~= pairs.deep_view().skip(i as int + 1));
        if pairs[i].0 == name {
            return Some(pairs[i].1.clone());
        }
        i = i + 1;
    }
    None
}

/// The login token in the query string of a callback request.
pub fn callback_token(query: &str) -> (r: Option<String>)
    ensures
        string_text(r) == first_value(form_pairs(query@), LOGIN_TOKEN_PARAMETER@),
{
    let pairs = decode_query(query);
    login_token(&pairs)
}

/// Where the bridge sends the browser to log in: the homeserver's SSO
/// redirect endpoint, which returns it to `callback_url`.
pub fn redirect_location(homeserver: &str, callback_url: &str) -> (r: String)
    ensures
        r@ == homeserver@ + SSO_REDIRECT_PATH@ + callback_url@,
{
    let mut location = String::from_str(homeserver);
    location.append(SSO_REDIRECT_PATH);
    location.append(callback_url);
    location
}

/// An HTTP response of the bridge.
#[derive(Clone, Debug)]
pub struct CallbackResponse {
    pub status: u16,
    pub body: String,
}

/// What a callback request leads to.
#[derive(Clone, Debug)]
pub enum CallbackStep {
    /// Exchange this login token for an access token, once, and answer with
    /// `exchange_response` of the outcome.
    Exchange(String),
    /// Answer at once.
    Respond(CallbackResponse),
}

pub const MISSING_TOKEN_BODY: &'static str = "missing loginToken";

/// The first step of a callback request with this query string.
pub fn callback_step(query: &str) -> (r: CallbackStep)
    ensures
        match first_value(form_pairs(query@), LOGIN_TOKEN_PARAMETER@) {
            Some(token) => r matches CallbackStep::Exchange(t) && t@ == token,
            None => r matches CallbackStep::Respond(resp) && resp.status == 400 && resp.body@
                == MISSING_TOKEN_BODY@,
        },
{
    match callback_token(query) {
        Some(token) => CallbackStep::Exchange(token),
        None => CallbackStep::Respond(
            CallbackResponse { status: 400, body: String::from_str(MISSING_TOKEN_BODY) },
        ),
    }
}

/// The answer to a callback once the token exchange is done: the access
/// token on success, else a gateway error that says what failed.
pub fn exchange_response(result: Result<Credential, ClientError>) -> (r: CallbackResponse)
    ensures
        match result {
            Ok(c) => r.status == 200 && r.body@ == c.access_token@,
            Err(e) => r.status == 502 && r.body@ == e.message_spec(),
        },
{
    match result {
        Ok(c) => CallbackResponse { status: 200, body: c.access_token },
        Err(e) => CallbackResponse { status: 502, body: String::from_str(e.message()) },
    }
}

} // verus!
