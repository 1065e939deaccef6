//! The identity platform: its token endpoint, and the two ways to a first
//! token.
pub mod device;
pub mod grant;

use crate::authentication::error::{
    spec_into_result, BadResponseOrError, InternalError, JsonFault, Provider, ResponseError,
};
use crate::authentication::transport::{
    spec_expected_schema, spec_schema_of, Endpoint, HttpReply, HttpRequest, HttpRequestView,
    Payload,
};
use crate::authentication::utils::query_string_builder::{QueryString, spec_build};
use crate::authentication::AuthenticationClient;
use vstd::prelude::*;
use vstd::string::*;

verus! {

/// The token endpoint's answer where it grants a token.
#[derive(Debug, Clone)]
pub struct AuthorizationTokenResponse {
    pub token_type: String,
    pub scope: String,
    /// What is presented to the console identity broker.
    pub access_token: String,
    /// What a later token is asked for with.
    pub refresh_token: String,
    /// The lifetime of `access_token`, in seconds.
    pub expires_in: i64,
}

/// A rejection by the identity platform, with the status it came with.
#[derive(Debug, Clone)]
pub struct MicrosoftError {
    pub inner: InnerMicrosoftError,
    pub status_code: u16,
}

/// The body of a rejection by the identity platform.
#[derive(Debug, Clone)]
pub struct InnerMicrosoftError {
    pub error_codes: Vec<i64>,
    /// The code of the rejection.
    pub error: String,
    pub error_description: String,
    pub timestamp: String,
    pub trace_id: String,
    pub correlation_id: String,
}

impl ResponseError for MicrosoftError {
    open spec fn spec_provider() -> Provider {
        Provider::Microsoft
    }

    open spec fn spec_status_code(&self) -> u16 {
        self.status_code
    }

    open spec fn spec_code(&self) -> Seq<char> {
        self.inner.error@
    }

    open spec fn spec_description(&self) -> Seq<char> {
        self.inner.error_description@
    }

    open spec fn spec_from_err(status: u16, payload: Payload) -> Result<Self, InternalError> {
        match payload {
            Payload::MicrosoftError(inner) => Ok(MicrosoftError { inner, status_code: status }),
            Payload::Malformed(message) => Err(
                InternalError::JSONError(JsonFault::Malformed(message)),
            ),
            _ => Err(InternalError::JSONError(JsonFault::WrongSchema)),
        }
    }

    fn provider() -> (provider: Provider) {
        Provider::Microsoft
    }

    fn status_code(&self) -> (code: u16) {
        self.status_code
    }

    fn code(&self) -> (code: &str) {
        self.inner.error.as_str()
    }

    fn description(&self) -> (description: &str) {
        self.inner.error_description.as_str()
    }

    fn from_err(status: u16, payload: Payload) -> (read: Result<Self, InternalError>) {
        match payload {
            Payload::MicrosoftError(inner) => Ok(MicrosoftError { inner, status_code: status }),
            Payload::Malformed(message) => Err(
                InternalError::JSONError(JsonFault::Malformed(message)),
            ),
            _ => Err(InternalError::JSONError(JsonFault::WrongSchema)),
        }
    }
}

/// The base of the identity platform's endpoints for personal accounts.
pub const MICROSOFT_LOGIN_URL: &'static str = "https://login.microsoftonline.com/consumers";

/// The scope that is asked for: signing in to the console identity broker,
/// and a refresh token. It is written as it goes into a form.
pub const MICROSOFT_SCOPE: &'static str = "XboxLive.signin%20offline_access";

/// The path of the token endpoint below [`MICROSOFT_LOGIN_URL`].
pub const TOKEN_PATH: &'static str = "/oauth2/v2.0/token";

/// The ways in which the identity platform is asked for a token.
pub trait MicrosoftAuthorizationType {

}

/// Asking with a refresh token.
#[derive(Debug, Clone, Copy)]
pub struct RefreshToken;

impl RefreshToken {
    /// A request builder that asks with refresh tokens.
    pub fn new(api_client: AuthenticationClient) -> (authorization: MicrosoftAuthorization<
        RefreshToken,
    >)
        ensures
            authorization.client == api_client,
    {
        MicrosoftAuthorization { client: api_client, internal: RefreshToken }
    }
}

impl MicrosoftAuthorizationType for RefreshToken {

}

/// A way of asking the identity platform for a token, with the client's
/// settings.
#[derive(Debug, Clone)]
pub struct MicrosoftAuthorization<T: MicrosoftAuthorizationType> {
    pub client: AuthenticationClient,
    pub internal: T,
}

/// The text of a request to the identity platform: `content` as a form, to
/// `url`, with JSON asked for in return.
pub open spec fn spec_form_request(url: Seq<char>, content: Seq<char>) -> HttpRequestView {
    HttpRequestView {
        url,
        content_type: "application/x-www-form-urlencoded"@,
        accept: "application/json"@,
        body: content,
    }
}

/// The entries of the form that asks for a token with a refresh token.
pub open spec fn spec_refresh_form(client_id: Seq<char>, refresh_token: Seq<char>) -> Seq<
    (Seq<char>, Seq<char>),
> {
    seq![
        ("client_id"@, client_id),
        ("scope"@, MICROSOFT_SCOPE@),
        ("refresh_token"@, refresh_token),
        ("grant_type"@, "refresh_token"@),
    ]
}

/// The token that an answer of the token endpoint comes to: the granted
/// token on success, else the failure as [`spec_into_result`] reads it; a
/// success whose body is no token is a `JSONError`.
pub open spec fn spec_token_result(reply: HttpReply) -> Result<
    AuthorizationTokenResponse,
    BadResponseOrError<MicrosoftError>,
> {
    match spec_into_result::<MicrosoftError>(reply) {
        Err(error) => Err(BadResponseOrError::Error(error)),
        Ok(Err(rejection)) => Err(BadResponseOrError::ResponseError(rejection)),
        Ok(Ok(Payload::Token(token))) => Ok(token),
        Ok(Ok(Payload::Malformed(message))) => Err(
            BadResponseOrError::Error(InternalError::JSONError(JsonFault::Malformed(message))),
        ),
        Ok(Ok(_)) => Err(
            BadResponseOrError::Error(InternalError::JSONError(JsonFault::WrongSchema)),
        ),
    }
}

/// The URL of the token endpoint.
pub fn token_url() -> (url: String)
    ensures
        url@ == MICROSOFT_LOGIN_URL@ + TOKEN_PATH@,
{
    String::from_str(MICROSOFT_LOGIN_URL).concat(TOKEN_PATH)
}

/// Reads an answer of the token endpoint: see [`spec_token_result`].
pub fn token_result(reply: HttpReply) -> (read: Result<
    AuthorizationTokenResponse,
    BadResponseOrError<MicrosoftError>,
>)
    ensures
        read == spec_token_result(reply),
{
    match reply.into_result::<MicrosoftError>() {
        Err(error) => Err(BadResponseOrError::Error(error)),
        Ok(Err(rejection)) => Err(BadResponseOrError::ResponseError(rejection)),
        Ok(Ok(Payload::Token(token))) => Ok(token),
        Ok(Ok(Payload::Malformed(message))) => Err(
            BadResponseOrError::Error(InternalError::JSONError(JsonFault::Malformed(message))),
        ),
        Ok(Ok(_)) => Err(
            BadResponseOrError::Error(InternalError::JSONError(JsonFault::WrongSchema)),
        ),
    }
}

impl<T: MicrosoftAuthorizationType> MicrosoftAuthorization<T> {
    /// The request that asks the token endpoint for a new token with
    /// `refresh_token`.
    pub fn refresh_token(&self, refresh_token: &str) -> (request: HttpRequest)
        ensures
            request@ == spec_form_request(
                MICROSOFT_LOGIN_URL@ + TOKEN_PATH@,
                spec_build(
                    spec_refresh_form(
                        self.client.auth_properties.azura_microsoft_client@,
                        refresh_token@,
                    ),
                ),
            ),
    {
        let query_string = QueryString::default().add_str(
            "client_id",
            self.client.auth_properties.azura_microsoft_client.as_str(),
        ).add_str("scope", MICROSOFT_SCOPE).add_str("refresh_token", refresh_token).add_str(
            "grant_type",
            "refresh_token",
        );
        assert(query_string@ =~= spec_refresh_form(
            self.client.auth_properties.azura_microsoft_client@,
            refresh_token@,
        ));
        self.make_request(token_url(), query_string.build())
    }

    /// The request that carries the form `content` to `url`.
    pub fn make_request(&self, url: String, content: String) -> (request: HttpRequest)
        ensures
            request@ == spec_form_request(url@, content@),
            request.url == url,
            request.body == content,
    {
        HttpRequest {
            url,
            content_type: String::from_str("application/x-www-form-urlencoded"),
            accept: String::from_str("application/json"),
            body: content,
        }
    }
}

/// An answer of the token endpoint whose body was decoded as the schema
/// that its status calls for is never taken for a body of another schema.
pub proof fn lemma_expected_token_body_is_taken(status: u16, payload: Payload)
    requires
        spec_schema_of(payload) == Some(spec_expected_schema(Endpoint::Token, status)),
    ensures
        spec_token_result(HttpReply::Answered { status, payload }) != Err::<
            AuthorizationTokenResponse,
            BadResponseOrError<MicrosoftError>,
        >(BadResponseOrError::Error(InternalError::JSONError(JsonFault::WrongSchema))),
{
}

} // verus!
