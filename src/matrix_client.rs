//! A Matrix client: the homeserver it talks to, the credential it holds, and
//! how an endpoint call becomes the URL that is sent.

use vstd::prelude::*;
use crate::error::{ClientError, UrlError};
use crate::session::Credential;

verus! {

#[verifier::external_type_specification]
#[verifier::external_body]
pub struct ExUrl(url::Url);

#[verifier::external_type_specification]
#[verifier::external_body]
pub struct ExUri(http::Uri);

/// A parsed URL together with its serialization. `text` is always
/// `url.as_str()`: only the functions below build or change an address, and
/// each of them reads the text back from the URL it has just changed.
pub struct Address {
    url: url::Url,
    text: String,
}

impl View for Address {
    type V = Seq<char>;

    closed spec fn view(&self) -> Seq<char> {
        self.text@
    }
}

/// The serialization of what `url::Url::parse` makes of a text, or `None`
/// where it refuses the text.
pub uninterp spec fn parsed_url(s: Seq<char>) -> Option<Seq<char>>;

/// The serialization after `url::Url::set_path`, on the URL serialized as
/// `url`.
pub uninterp spec fn path_set(url: Seq<char>, path: Seq<char>) -> Seq<char>;

/// The serialization after `url::Url::set_query`, on the URL serialized as
/// `url`.
pub uninterp spec fn query_set(url: Seq<char>, query: Option<Seq<char>>) -> Seq<char>;

/// The serialization after appending one name/value pair through
/// `url::Url::query_pairs_mut`, on the URL serialized as `url`.
pub uninterp spec fn pair_appended(url: Seq<char>, name: Seq<char>, value: Seq<char>) -> Seq<char>;

/// Whether `http::Uri::from_str` accepts a text.
pub uninterp spec fn uri_accepts(s: Seq<char>) -> bool;

/// Relies on `url::Url::parse`, whose result depends on the text alone, and
/// on `url::Url::as_str` for its serialization.
#[verifier::external_body]
fn parse_address(s: &str) -> (r: Result<Address, url::ParseError>)
    ensures
        r is Ok == parsed_url(s@) is Some,
        r matches Ok(a) ==> parsed_url(s@) == Some(a@),
{
    let url = url::Url::parse(s)?;
    let text = url.as_str().to_string();
    Ok(Address { url, text })
}

/// Relies on `url::Url::clone`, which copies the URL.
#[verifier::external_body]
fn clone_address(a: &Address) -> (r: Address)
    ensures
        r@ == a@,
{
    Address { url: a.url.clone(), text: a.text.clone() }
}

/// Relies on `url::Url::set_path`, which replaces the path; a URL is
/// determined by its serialization, so the new one depends on the old one and
/// the path alone.
#[verifier::external_body]
fn set_address_path(a: &mut Address, path: &str)
    ensures
        final(a)@ == path_set(old(a)@, path@),
{
    a.url.set_path(path);
    a.text = a.url.as_str().to_string();
}

/// Relies on `url::Url::set_query`, which replaces the query.
#[verifier::external_body]
fn set_address_query(a: &mut Address, query: Option<&str>)
    ensures
        final(a)@ == query_set(old(a)@, text_of(query)),
{
    a.url.set_query(query);
    a.text = a.url.as_str().to_string();
}

/// Relies on `url::form_urlencoded::Serializer::append_pair`, reached through
/// `url::Url::query_pairs_mut`: it appends one encoded name/value pair to the
/// query.
#[verifier::external_body]
fn append_address_pair(a: &mut Address, name: &str, value: &str)
    ensures
        final(a)@ == pair_appended(old(a)@, name@, value@),
{
    a.url.query_pairs_mut().append_pair(name, value);
    a.text = a.url.as_str().to_string();
}

/// Relies on `http::Uri::from_str`, whose result depends on the text alone.
#[verifier::external_body]
fn parse_uri(s: &str) -> (r: Result<http::Uri, http::uri::InvalidUri>)
    ensures
        r is Ok == uri_accepts(s@),
{
    <http::Uri as std::str::FromStr>::from_str(s)
}

pub open spec fn text_of(o: Option<&str>) -> Option<Seq<char>> {
    match o {
        Some(s) => Some(s@),
        None => None,
    }
}

pub open spec fn string_text(o: Option<String>) -> Option<Seq<char>> {
    match o {
        Some(s) => Some(s@),
        None => None,
    }
}

/// Where a request goes: the path and query of the endpoint, and the access
/// token that is appended to the query, if any.
#[derive(Clone, Debug)]
pub struct Target {
    pub path: String,
    pub query: Option<String>,
    pub access_token: Option<String>,
}

/// The name of the query parameter that carries the access token.
pub const ACCESS_TOKEN_PARAMETER: &'static str = "access_token";

/// The text of the URL of a call: the homeserver URL with its path replaced,
/// its query set, and the access token appended where one is given.
pub open spec fn resolved_text(
    homeserver: Seq<char>,
    path: Seq<char>,
    query: Option<Seq<char>>,
    access_token: Option<Seq<char>>,
) -> Seq<char> {
    let with_query = query_set(path_set(homeserver, path), query);
    match access_token {
        Some(token) => pair_appended(with_query, ACCESS_TOKEN_PARAMETER@, token),
        None => with_query,
    }
}

/// The URI of a call, with the text it was parsed from.
#[derive(Debug)]
pub struct RequestUri {
    pub uri: http::Uri,
    pub text: String,
}

pub struct Client {
    homeserver_url: Address,
    credential: Option<Credential>,
}

impl Client {
    /// The credential that the client sends with authenticated requests.
    pub closed spec fn credential_view(&self) -> Option<(Seq<char>, Seq<char>)> {
        match self.credential {
            Some(c) => Some(c@),
            None => None,
        }
    }

    /// The serialization of the homeserver URL.
    pub closed spec fn homeserver_view(&self) -> Seq<char> {
        self.homeserver_url@
    }

    /// The homeserver URL, as the URL parser serializes it.
    pub fn homeserver(&self) -> (r: &str)
        ensures
            r@ == self.homeserver_view(),
    {
        self.homeserver_url.text.as_str()
    }

    /// An anonymous client of the homeserver at `homeserver_url`.
    pub fn create(homeserver_url: &str) -> (r: Result<Client, ClientError>)
        ensures
            r is Ok <==> parsed_url(homeserver_url@) is Some,
            r matches Ok(c) ==> c.credential_view() is None && Some(c.homeserver_view())
                == parsed_url(homeserver_url@),
            r matches Err(e) ==> e is Homeserver,
    {
        match parse_address(homeserver_url) {
            Ok(u) => Ok(Client { homeserver_url: u, credential: None }),
            Err(e) => Err(ClientError::Homeserver(e)),
        }
    }

    /// A client of the same homeserver that holds `credential`.
    pub fn with_credential(&self, credential: Credential) -> (r: Client)
        ensures
            r.credential_view() == Some(credential@),
            r.homeserver_view() == self.homeserver_view(),
    {
        Client { homeserver_url: clone_address(&self.homeserver_url), credential: Some(credential) }
    }

    /// Stores the credential of a successful login. A credential, once set, is
    /// never replaced: the call then returns `false` and changes nothing.
    pub fn authenticate(&mut self, credential: Credential) -> (r: bool)
        ensures
            r == (old(self).credential_view() is None),
            r ==> final(self).credential_view() == Some(credential@),
            !r ==> final(self).credential_view() == old(self).credential_view(),
            final(self).homeserver_view() == old(self).homeserver_view(),
    {
        if self.credential.is_some() {
            false
        } else {
            self.credential = Some(credential);
            true
        }
    }

    /// The access token, once the client holds a credential.
    pub fn access_token(&self) -> (r: Option<&str>)
        ensures
            match self.credential_view() {
                Some(c) => r matches Some(t) && t@ == c.0,
                None => r is None,
            },
    {
        match &self.credential {
            Some(c) => Some(c.access_token.as_str()),
            None => None,
        }
    }

    /// Where a call of an endpoint with this path and query goes. The access
    /// token is appended exactly when the endpoint requires authentication; a
    /// call that requires it on an anonymous client is refused.
    pub fn target(&self, path: &str, query: Option<&str>, requires_authentication: bool) -> (r:
        Result<Target, ClientError>)
        ensures
            r is Err <==> requires_authentication && self.credential_view() is None,
            r matches Err(e) ==> e is AuthenticationRequired,
            r matches Ok(t) ==> {
                &&& t.path@ == path@
                &&& string_text(t.query) == text_of(query)
                &&& !requires_authentication ==> t.access_token is None
                &&& requires_authentication ==> string_text(t.access_token) == Some(
                    self.credential_view()->Some_0.0,
                )
            },
    {
        let access_token = if requires_authentication {
            match &self.credential {
                Some(c) => Some(c.access_token.clone()),
                None => {
                    return Err(ClientError::AuthenticationRequired);
                },
            }
        } else {
            None
        };
        let query = match query {
            Some(q) => Some(q.to_string()),
            None => None,
        };
        Ok(Target { path: path.to_string(), query, access_token })
    }

    /// The URI of a call of an endpoint with this path and query on the
    /// homeserver, with the access token appended where the endpoint requires
    /// authentication.
    pub fn request_uri(&self, path: &str, query: Option<&str>, requires_authentication: bool) -> (r:
        Result<RequestUri, ClientError>)
        ensures
            requires_authentication && self.credential_view() is None ==> r matches Err(
                ClientError::AuthenticationRequired,
            ),
            !(requires_authentication && self.credential_view() is None) ==> {
                let text = resolved_text(
                    self.homeserver_view(),
                    path@,
                    text_of(query),
                    if requires_authentication {
                        Some(self.credential_view()->Some_0.0)
                    } else {
                        None
                    },
                );
                &&& r is Ok <==> uri_accepts(text)
                &&& r matches Ok(u) ==> u.text@ == text
                &&& r matches Err(e) ==> e is Url
            },
    {
        let target = match self.target(path, query, requires_authentication) {
            Ok(t) => t,
            Err(e) => {
                return Err(e);
            },
        };
        let mut address = clone_address(&self.homeserver_url);
        set_address_path(&mut address, target.path.as_str());
        match &target.query {
            Some(q) => set_address_query(&mut address, Some(q.as_str())),
            None => set_address_query(&mut address, None),
        }
        match &target.access_token {
            Some(token) => append_address_pair(&mut address, ACCESS_TOKEN_PARAMETER, token.as_str()),
            None => {},
        }
        match parse_uri(address.text.as_str()) {
            Ok(uri) => Ok(RequestUri { uri, text: address.text }),
            Err(e) => Err(ClientError::Url(UrlError(e))),
        }
    }
}

} // verus!
