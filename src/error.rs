//! Error conditions.

use vstd::prelude::*;
use vstd::string::StringExecFns;

verus! {

#[verifier::external_type_specification]
#[verifier::external_body]
pub struct ExIntoHttpError(ruma_api::error::IntoHttpError);

#[verifier::external_type_specification]
#[verifier::external_body]
#[verifier::reject_recursive_types(E)]
pub struct ExFromHttpResponseError<E>(ruma_api::error::FromHttpResponseError<E>);

#[verifier::external_type_specification]
#[verifier::external_body]
pub struct ExClientApiError(ruma_client_api::Error);

#[verifier::external_type_specification]
#[verifier::external_body]
pub struct ExInvalidUri(http::uri::InvalidUri);

#[verifier::external_type_specification]
#[verifier::external_body]
pub struct ExHyperError(hyper::Error);

#[verifier::external_type_specification]
#[verifier::external_body]
pub struct ExUrlParseError(url::ParseError);

/// The error that a Matrix endpoint reports in its response.
pub type ResponseConversionError = ruma_api::error::FromHttpResponseError<ruma_client_api::Error>;

/// An error that can occur during client operations.
#[derive(Debug)]
#[non_exhaustive]
pub enum ClientError {
    /// Queried endpoint requires authentication but was called on an anonymous client.
    AuthenticationRequired,
    /// Construction of the HTTP request failed.
    IntoHttp(ruma_api::error::IntoHttpError),
    /// The request's URL is invalid.
    Url(UrlError),
    /// Couldn't obtain an HTTP response (e.g. due to network or DNS issues).
    Response(ResponseError),
    /// Converting the HTTP response to one of ruma's types failed.
    FromHttpResponse(ResponseConversionError),
    /// No response came within the time allowed for a request.
    TimedOut,
    /// The homeserver address is not a URL.
    Homeserver(url::ParseError),
}

#[derive(Debug)]
pub struct UrlError(pub http::uri::InvalidUri);

#[derive(Debug)]
pub struct ResponseError(pub hyper::Error);

impl ClientError {
    /// The description of this kind of error, without the details of the
    /// underlying cause.
    pub fn message(&self) -> (r: &'static str)
        ensures
            r@ == self.message_spec(),
    {
        match self {
            ClientError::AuthenticationRequired => "The queried endpoint requires authentication but was called with an anonymous client.",
            ClientError::IntoHttp(_) => "HTTP request construction failed",
            ClientError::Url(_) => "Invalid URL",
            ClientError::Response(_) => "Couldn't obtain a response",
            ClientError::FromHttpResponse(_) => "HTTP response conversion failed",
            ClientError::Homeserver(_) => "Invalid homeserver URL",
            ClientError::TimedOut => "The request timed out",
        }
    }

    /// The description of this error followed by the text of its underlying
    /// cause.
    pub fn with_cause(&self, cause: &str) -> (r: String)
        ensures
            r@ == self.message_spec() + ": "@ + cause@,
    {
        let mut text = String::from_str(self.message());
        text.append(": ");
        text.append(cause);
        text
    }

    pub open spec fn message_spec(&self) -> Seq<char> {
        match self {
            ClientError::AuthenticationRequired => "The queried endpoint requires authentication but was called with an anonymous client."@,
            ClientError::IntoHttp(_) => "HTTP request construction failed"@,
            ClientError::Url(_) => "Invalid URL"@,
            ClientError::Response(_) => "Couldn't obtain a response"@,
            ClientError::FromHttpResponse(_) => "HTTP response conversion failed"@,
            ClientError::Homeserver(_) => "Invalid homeserver URL"@,
            ClientError::TimedOut => "The request timed out"@,
        }
    }
}

impl From<ruma_api::error::IntoHttpError> for ClientError {
    fn from(err: ruma_api::error::IntoHttpError) -> (r: ClientError)
        ensures
            r == ClientError::IntoHttp(err),
    {
        ClientError::IntoHttp(err)
    }
}

impl vstd::std_specs::convert::FromSpecImpl<ruma_api::error::IntoHttpError> for ClientError {
    open spec fn obeys_from_spec() -> bool {
        true
    }

    open spec fn from_spec(err: ruma_api::error::IntoHttpError) -> ClientError {
        ClientError::IntoHttp(err)
    }
}

impl From<http::uri::InvalidUri> for ClientError {
    fn from(err: http::uri::InvalidUri) -> (r: ClientError)
        ensures
            r == ClientError::Url(UrlError(err)),
    {
        ClientError::Url(UrlError(err))
    }
}

impl vstd::std_specs::convert::FromSpecImpl<http::uri::InvalidUri> for ClientError {
    open spec fn obeys_from_spec() -> bool {
        true
    }

    open spec fn from_spec(err: http::uri::InvalidUri) -> ClientError {
        ClientError::Url(UrlError(err))
    }
}

impl From<hyper::Error> for ClientError {
    fn from(err: hyper::Error) -> (r: ClientError)
        ensures
            r == ClientError::Response(ResponseError(err)),
    {
        ClientError::Response(ResponseError(err))
    }
}

impl vstd::std_specs::convert::FromSpecImpl<hyper::Error> for ClientError {
    open spec fn obeys_from_spec() -> bool {
        true
    }

    open spec fn from_spec(err: hyper::Error) -> ClientError {
        ClientError::Response(ResponseError(err))
    }
}

impl From<ResponseConversionError> for ClientError {
    fn from(err: ResponseConversionError) -> (r: ClientError)
        ensures
            r == ClientError::FromHttpResponse(err),
    {
        ClientError::FromHttpResponse(err)
    }
}

impl vstd::std_specs::convert::FromSpecImpl<ResponseConversionError> for ClientError {
    open spec fn obeys_from_spec() -> bool {
        true
    }

    open spec fn from_spec(err: ResponseConversionError) -> ClientError {
        ClientError::FromHttpResponse(err)
    }
}

} // verus!
