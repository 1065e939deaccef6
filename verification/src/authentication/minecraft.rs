//! The game service: it trades a security token of the console identity
//! broker for a session token.
use crate::authentication::error::{InternalError, JsonFault};
use crate::authentication::transport::{
    is_redirection, is_success, spec_expected_schema, spec_is_redirection, spec_is_success,
    spec_schema_of, Endpoint, HttpReply, HttpRequest, HttpRequestView, Payload,
};
use crate::authentication::utils::json::{quote, spec_json_string};
use crate::authentication::xbox::spec_json_request;
use crate::authentication::AuthenticationClient;
use vstd::prelude::*;
use vstd::string::*;

verus! {

/// Where the game service hands out session tokens.
pub const LOGIN_WITH_XBOX: &'static str =
    "https://api.minecraftservices.com/authentication/login_with_xbox";

/// What an identity assertion begins with: the scheme, and the mark of the
/// user hash.
pub const IDENTITY_TOKEN_SCHEME: &'static str = "XBL3.0 x=";

/// The body that asks for a session token, up to the identity assertion.
pub const LOGIN_BODY_HEAD: &'static str = "{\"identityToken\":";

/// The body that asks for a session token, after the identity assertion.
pub const LOGIN_BODY_TAIL: &'static str = "}";

/// The game service's answer where it grants a session.
#[derive(Debug, Clone)]
pub struct MinecraftLoginResponse {
    /// The session token.
    pub access_token: String,
    pub token_type: String,
    /// The lifetime of the session, in seconds.
    pub expires_in: i64,
    pub username: String,
    pub roles: Vec<String>,
}

/// What is presented to the game service: a user hash and the security
/// token that belongs to it.
#[derive(Debug, Clone, Copy)]
pub struct IdentityToken<'a> {
    pub user_hash: &'a str,
    pub xsts_token: &'a str,
}

/// The identity assertion: the scheme, `x=`, the user hash, `;`, the
/// security token.
pub open spec fn spec_identity_token(user_hash: Seq<char>, xsts_token: Seq<char>) -> Seq<char> {
    IDENTITY_TOKEN_SCHEME@ + user_hash + seq![';'] + xsts_token
}

/// The body that asks for a session token, around the identity assertion as
/// a JSON string.
pub open spec fn spec_login_body(quoted_assertion: Seq<char>) -> Seq<char> {
    LOGIN_BODY_HEAD@ + quoted_assertion + LOGIN_BODY_TAIL@
}

/// The request that presents a user hash and its security token to the game
/// service; `None` where the assertion cannot be written as JSON.
pub open spec fn spec_login_request(user_hash: Seq<char>, xsts_token: Seq<char>) -> Option<
    HttpRequestView,
> {
    match spec_json_string(spec_identity_token(user_hash, xsts_token)) {
        Some(quoted) => Some(spec_json_request(LOGIN_WITH_XBOX@, spec_login_body(quoted))),
        None => None,
    }
}

/// The session that an answer of the game service comes to. No answer is a
/// transport failure, and a redirection is a `Redirection`. The game service
/// has no schema for its rejections: every other status but one of success
/// is a `BadResponse` with that status, and the body is not read. A success
/// whose body is no session is a `JSONError`.
pub open spec fn spec_minecraft_result(reply: HttpReply) -> Result<
    MinecraftLoginResponse,
    InternalError,
> {
    match reply {
        HttpReply::Failed(message) => Err(InternalError::ReqwestError(message)),
        HttpReply::Answered { status, payload } => {
            if spec_is_redirection(status) {
                Err(InternalError::Redirection(status))
            } else if !spec_is_success(status) {
                Err(InternalError::BadResponse(status))
            } else {
                match payload {
                    Payload::MinecraftLogin(session) => Ok(session),
                    Payload::Malformed(message) => Err(
                        InternalError::JSONError(JsonFault::Malformed(message)),
                    ),
                    _ => Err(InternalError::JSONError(JsonFault::WrongSchema)),
                }
            }
        },
    }
}

impl<'a> IdentityToken<'a> {
    /// The identity assertion as text.
    pub fn to_string(&self) -> (text: String)
        ensures
            text@ == spec_identity_token(self.user_hash@, self.xsts_token@),
    {
        let text = String::from_str(IDENTITY_TOKEN_SCHEME).concat(self.user_hash).concat(
            ";",
        ).concat(self.xsts_token);
        proof {
            reveal_strlit(";");
            assert(";"@ =~= seq![';']);
        }
        text
    }

    /// The body that asks for a session token: a JSON object whose one
    /// member, `identityToken`, is the identity assertion. It fails only
    /// where the assertion cannot be written as JSON.
    pub fn to_json(&self) -> (body: Result<String, InternalError>)
        ensures
            match spec_json_string(spec_identity_token(self.user_hash@, self.xsts_token@)) {
                Some(quoted) => body matches Ok(text) && text@ == spec_login_body(quoted),
                None => body matches Err(error) && error == InternalError::JSONError(
                    JsonFault::Unencodable,
                ),
            },
    {
        match quote(self.to_string().as_str()) {
            Ok(quoted) => Ok(login_body(quoted.as_str())),
            Err(error) => Err(error),
        }
    }
}

/// The body that asks for a session token, around `quoted_assertion`, which
/// is the identity assertion as a JSON string.
pub fn login_body(quoted_assertion: &str) -> (body: String)
    ensures
        body@ == spec_login_body(quoted_assertion@),
{
    String::from_str(LOGIN_BODY_HEAD).concat(quoted_assertion).concat(LOGIN_BODY_TAIL)
}

/// Reads an answer of the game service: see [`spec_minecraft_result`].
pub fn minecraft_result(reply: HttpReply) -> (read: Result<MinecraftLoginResponse, InternalError>)
    ensures
        read == spec_minecraft_result(reply),
{
    match reply {
        HttpReply::Failed(message) => Err(InternalError::ReqwestError(message)),
        HttpReply::Answered { status, payload } => {
            if is_redirection(status) {
                Err(InternalError::Redirection(status))
            } else if !is_success(status) {
                Err(InternalError::BadResponse(status))
            } else {
                match payload {
                    Payload::MinecraftLogin(session) => Ok(session),
                    Payload::Malformed(message) => Err(
                        InternalError::JSONError(JsonFault::Malformed(message)),
                    ),
                    _ => Err(InternalError::JSONError(JsonFault::WrongSchema)),
                }
            }
        },
    }
}

impl AuthenticationClient {
    /// The request that presents `user_hash` and the security token
    /// `xsts_token` to the game service for a session token. It fails only
    /// where the assertion cannot be written as JSON.
    pub fn authenticate_minecraft(&self, user_hash: &str, xsts_token: &str) -> (request: Result<
        HttpRequest,
        InternalError,
    >)
        ensures
            match request {
                Ok(built) => spec_login_request(user_hash@, xsts_token@) == Some(built@),
                Err(error) => spec_login_request(user_hash@, xsts_token@) is None && error
                    == InternalError::JSONError(JsonFault::Unencodable),
            },
    {
        let identity_token = IdentityToken { user_hash, xsts_token };
        match quote(identity_token.to_string().as_str()) {
            Ok(quoted) => Ok(
                self.make_request(String::from_str(LOGIN_WITH_XBOX), login_body(quoted.as_str())),
            ),
            Err(error) => Err(error),
        }
    }
}

/// An answer of the game service whose body was decoded as the schema that
/// its status calls for is never taken for a body of another schema.
pub proof fn lemma_expected_session_body_is_taken(status: u16, payload: Payload)
    requires
        spec_schema_of(payload) == Some(spec_expected_schema(Endpoint::Minecraft, status)),
    ensures
        spec_minecraft_result(HttpReply::Answered { status, payload }) != Err::<
            MinecraftLoginResponse,
            InternalError,
        >(InternalError::JSONError(JsonFault::WrongSchema)),
{
}

} // verus!
