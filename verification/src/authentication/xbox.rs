//! The console identity broker: it trades a token of the identity platform
//! for a console identity token, and that one for a security token.
use crate::authentication::error::{
    spec_into_result, BadResponseOrError, InternalError, JsonFault, Provider, ResponseError,
};
use crate::authentication::transport::{
    spec_expected_schema, spec_schema_of, Endpoint, HttpReply, HttpRequest, HttpRequestView,
    Payload,
};
use crate::authentication::utils::json::{quote, spec_json_string};
use crate::authentication::utils::time::Timestamp;
use crate::authentication::AuthenticationClient;
use vstd::prelude::*;
use vstd::string::*;

verus! {

/// A rejection by the broker, with the status it came with.
#[derive(Debug, Clone)]
pub struct XSTSError {
    pub status_code: u16,
    pub response: XSTSErrorResponse,
}

/// The body of a rejection by the broker.
#[derive(Debug, Clone)]
pub struct XSTSErrorResponse {
    pub identity: String,
    pub message: String,
    pub redirect: String,
    /// The code of the rejection.
    pub error_code: String,
}

impl ResponseError for XSTSError {
    open spec fn spec_provider() -> Provider {
        Provider::XboxLive
    }

    open spec fn spec_status_code(&self) -> u16 {
        self.status_code
    }

    open spec fn spec_code(&self) -> Seq<char> {
        self.response.error_code@
    }

    open spec fn spec_description(&self) -> Seq<char> {
        self.response.message@
    }

    open spec fn spec_from_err(status: u16, payload: Payload) -> Result<Self, InternalError> {
        match payload {
            Payload::XstsError(response) => Ok(XSTSError { status_code: status, response }),
            Payload::Malformed(message) => Err(
                InternalError::JSONError(JsonFault::Malformed(message)),
            ),
            _ => Err(InternalError::JSONError(JsonFault::WrongSchema)),
        }
    }

    fn provider() -> (provider: Provider) {
        Provider::XboxLive
    }

    fn status_code(&self) -> (code: u16) {
        self.status_code
    }

    fn code(&self) -> (code: &str) {
        self.response.error_code.as_str()
    }

    fn description(&self) -> (description: &str) {
        self.response.message.as_str()
    }

    fn from_err(status: u16, payload: Payload) -> (read: Result<Self, InternalError>) {
        match payload {
            Payload::XstsError(response) => Ok(XSTSError { status_code: status, response }),
            Payload::Malformed(message) => Err(
                InternalError::JSONError(JsonFault::Malformed(message)),
            ),
            _ => Err(InternalError::JSONError(JsonFault::WrongSchema)),
        }
    }
}

/// The claims that come with a token of the broker.
#[derive(Debug, Clone)]
pub struct XboxDisplayClaims {
    pub x_ui: Vec<XUI>,
}

/// One claim.
#[derive(Debug, Clone)]
pub struct XUI {
    /// Identifies the account; goes into what is presented to the game
    /// service.
    pub user_hash: String,
}

/// The broker's answer where it grants a token.
#[derive(Debug, Clone)]
pub struct XboxLiveResponse {
    pub issue_instance: Timestamp,
    /// The instant from which the token is no longer good.
    pub not_after: Timestamp,
    pub token: String,
    pub display_claims: XboxDisplayClaims,
}

impl XboxLiveResponse {
    /// The user hash: that of the first claim, and none where there is no
    /// claim.
    pub open spec fn spec_user_hash(&self) -> Option<String> {
        if self.display_claims.x_ui@.len() > 0 {
            Some(self.display_claims.x_ui@[0].user_hash)
        } else {
            None
        }
    }

    /// The user hash, from an answer that is known to hold a claim.
    pub fn get_user_hash_unsafe(&self) -> (user_hash: &String)
        requires
            self.display_claims.x_ui@.len() > 0,
        ensures
            Some(*user_hash) == self.spec_user_hash(),
    {
        &self.display_claims.x_ui[0].user_hash
    }

    /// The user hash: that of the first claim, and `None` where the answer
    /// holds no claim.
    pub fn get_user_hash(&self) -> (user_hash: Option<&String>)
        ensures
            match user_hash {
                Some(found) => Some(*found) == self.spec_user_hash(),
                None => self.spec_user_hash() is None,
            },
    {
        if self.display_claims.x_ui.len() > 0 {
            Some(&self.display_claims.x_ui[0].user_hash)
        } else {
            None
        }
    }
}

/// Where the broker hands out console identity tokens.
pub const XBL_URL: &'static str = "https://user.auth.xboxlive.com/user/authenticate";

/// Where the broker hands out security tokens.
pub const XSTS_URL: &'static str = "https://xsts.auth.xboxlive.com/xsts/authorize";

/// What stands before the ticket in a token of the identity platform that is
/// presented to the broker.
pub const RPS_TICKET_PREFIX: &'static str = "d=";

/// The body that asks for a console identity token, up to the ticket.
pub const XBL_BODY_HEAD: &'static str =
    "{\"Properties\":{\"AuthMethod\":\"RPS\",\"RpsTicket\":";

/// The body that asks for a console identity token, after the ticket. The
/// relying party is the broker itself.
pub const XBL_BODY_TAIL: &'static str =
    ",\"SiteName\":\"user.auth.xboxlive.com\"},\"RelyingParty\":\"http://auth.xboxlive.com\",\"TokenType\":\"JWT\"}";

/// The body that asks for a security token, up to the console identity
/// token.
pub const XSTS_BODY_HEAD: &'static str = "{\"Properties\":{\"SandboxId\":\"RETAIL\",\"UserTokens\":[";

/// The body that asks for a security token, after the console identity
/// token. The relying party is the game service.
pub const XSTS_BODY_TAIL: &'static str =
    "]},\"RelyingParty\":\"rp://api.minecraftservices.com/\",\"TokenType\":\"JWT\"}";

/// The text of a request that carries the JSON `content` to `url`, with JSON
/// asked for in return.
pub open spec fn spec_json_request(url: Seq<char>, content: Seq<char>) -> HttpRequestView {
    HttpRequestView {
        url,
        content_type: "application/json"@,
        accept: "application/json"@,
        body: content,
    }
}

/// The body that asks for a console identity token, around the ticket as a
/// JSON string.
pub open spec fn spec_xbl_body(quoted_ticket: Seq<char>) -> Seq<char> {
    XBL_BODY_HEAD@ + quoted_ticket + XBL_BODY_TAIL@
}

/// The body that asks for a security token, around the console identity token
/// as a JSON string.
pub open spec fn spec_xsts_body(quoted_token: Seq<char>) -> Seq<char> {
    XSTS_BODY_HEAD@ + quoted_token + XSTS_BODY_TAIL@
}

/// The request that presents `authorization_token` to the broker as a
/// ticket; `None` where the ticket cannot be written as JSON.
pub open spec fn spec_xbl_request(authorization_token: Seq<char>) -> Option<HttpRequestView> {
    match spec_json_string(RPS_TICKET_PREFIX@ + authorization_token) {
        Some(quoted) => Some(spec_json_request(XBL_URL@, spec_xbl_body(quoted))),
        None => None,
    }
}

/// The request that presents `xbox_live_token` for a security token; `None`
/// where the token cannot be written as JSON.
pub open spec fn spec_xsts_request(xbox_live_token: Seq<char>) -> Option<HttpRequestView> {
    match spec_json_string(xbox_live_token) {
        Some(quoted) => Some(spec_json_request(XSTS_URL@, spec_xsts_body(quoted))),
        None => None,
    }
}

/// The token that an answer of the broker comes to: the granted token on
/// success, else the failure as [`spec_into_result`] reads it; a success whose
/// body is no token is a `JSONError`.
pub open spec fn spec_xbox_live_result(reply: HttpReply) -> Result<
    XboxLiveResponse,
    BadResponseOrError<XSTSError>,
> {
    match spec_into_result::<XSTSError>(reply) {
        Err(error) => Err(BadResponseOrError::Error(error)),
        Ok(Err(rejection)) => Err(BadResponseOrError::ResponseError(rejection)),
        Ok(Ok(Payload::XboxLive(token))) => Ok(token),
        Ok(Ok(Payload::Malformed(message))) => Err(
            BadResponseOrError::Error(InternalError::JSONError(JsonFault::Malformed(message))),
        ),
        Ok(Ok(_)) => Err(
            BadResponseOrError::Error(InternalError::JSONError(JsonFault::WrongSchema)),
        ),
    }
}

/// The body that asks for a console identity token, around
/// `quoted_ticket`, which is the ticket as a JSON string.
pub fn xbl_body(quoted_ticket: &str) -> (body: String)
    ensures
        body@ == spec_xbl_body(quoted_ticket@),
{
    String::from_str(XBL_BODY_HEAD).concat(quoted_ticket).concat(XBL_BODY_TAIL)
}

/// The body that asks for a security token, around `quoted_token`, which is
/// the console identity token as a JSON string.
pub fn xsts_body(quoted_token: &str) -> (body: String)
    ensures
        body@ == spec_xsts_body(quoted_token@),
{
    String::from_str(XSTS_BODY_HEAD).concat(quoted_token).concat(XSTS_BODY_TAIL)
}

/// Reads an answer of the broker: see [`spec_xbox_live_result`].
pub fn xbox_live_result(reply: HttpReply) -> (read: Result<
    XboxLiveResponse,
    BadResponseOrError<XSTSError>,
>)
    ensures
        read == spec_xbox_live_result(reply),
{
    match reply.into_result::<XSTSError>() {
        Err(error) => Err(BadResponseOrError::Error(error)),
        Ok(Err(rejection)) => Err(BadResponseOrError::ResponseError(rejection)),
        Ok(Ok(Payload::XboxLive(token))) => Ok(token),
        Ok(Ok(Payload::Malformed(message))) => Err(
            BadResponseOrError::Error(InternalError::JSONError(JsonFault::Malformed(message))),
        ),
        Ok(Ok(_)) => Err(
            BadResponseOrError::Error(InternalError::JSONError(JsonFault::WrongSchema)),
        ),
    }
}

impl AuthenticationClient {
    /// The request that presents a token of the identity platform to the
    /// broker, as a ticket, for a console identity token. It fails only where
    /// the ticket cannot be written as JSON.
    pub fn authenticate_xbl(&self, authorization_token: &str) -> (request: Result<
        HttpRequest,
        InternalError,
    >)
        ensures
            match request {
                Ok(built) => spec_xbl_request(authorization_token@) == Some(built@),
                Err(error) => spec_xbl_request(authorization_token@) is None && error
                    == InternalError::JSONError(JsonFault::Unencodable),
            },
    {
        let rps = String::from_str(RPS_TICKET_PREFIX).concat(authorization_token);
        match quote(rps.as_str()) {
            Ok(quoted) => Ok(
                self.make_request(String::from_str(XBL_URL), xbl_body(quoted.as_str())),
            ),
            Err(error) => Err(error),
        }
    }

    /// The request that presents a console identity token to the broker for
    /// a security token that the game service takes. It fails only where the
    /// token cannot be written as JSON.
    pub fn authenticate_xsts(&self, xbox_live_token: &str) -> (request: Result<
        HttpRequest,
        InternalError,
    >)
        ensures
            match request {
                Ok(built) => spec_xsts_request(xbox_live_token@) == Some(built@),
                Err(error) => spec_xsts_request(xbox_live_token@) is None && error
                    == InternalError::JSONError(JsonFault::Unencodable),
            },
    {
        match quote(xbox_live_token) {
            Ok(quoted) => Ok(
                self.make_request(String::from_str(XSTS_URL), xsts_body(quoted.as_str())),
            ),
            Err(error) => Err(error),
        }
    }

    /// The request that carries the JSON `content` to `url`.
    pub fn make_request(&self, url: String, content: String) -> (request: HttpRequest)
        ensures
            request@ == spec_json_request(url@, content@),
            request.url == url,
            request.body == content,
    {
        HttpRequest {
            url,
            content_type: String::from_str("application/json"),
            accept: String::from_str("application/json"),
            body: content,
        }
    }
}

/// An answer of the broker, to either of the two calls, whose body was
/// decoded as the schema that its status calls for is never taken for a body
/// of another schema.
pub proof fn lemma_expected_broker_body_is_taken(endpoint: Endpoint, status: u16, payload: Payload)
    requires
        endpoint == Endpoint::XboxLive || endpoint == Endpoint::Xsts,
        spec_schema_of(payload) == Some(spec_expected_schema(endpoint, status)),
    ensures
        spec_xbox_live_result(HttpReply::Answered { status, payload }) != Err::<
            XboxLiveResponse,
            BadResponseOrError<XSTSError>,
        >(BadResponseOrError::Error(InternalError::JSONError(JsonFault::WrongSchema))),
{
}

} // verus!
