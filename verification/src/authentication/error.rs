//! The kinds of failure, and the reading of an answer's status.
use crate::authentication::transport::{
    is_redirection, is_server_error, is_success, spec_is_redirection, spec_is_server_error,
    spec_is_success, HttpReply, Payload,
};
use vstd::prelude::*;

verus! {

/// `url::ParseError`: why a text is no URL. It is carried as it comes.
#[verifier::external_type_specification]
#[verifier::external_body]
pub struct ExParseError(url::ParseError);

/// Why a body was not taken for what it should have been.
#[derive(Debug, Clone, PartialEq, Eq)]
pub enum JsonFault {
    /// The decoder refused the text; with its message.
    Malformed(String),
    /// The body is of another schema than the one that was called for.
    WrongSchema,
    /// A console identity answer came without any claim, so without a user
    /// hash.
    NoClaims,
    /// A lifetime in the body leads to an instant that cannot be held.
    ExpiryOutOfRange,
    /// A text of the request could not be written as JSON.
    Unencodable,
}

/// A failure that no provider reported.
#[derive(Debug, PartialEq)]
pub enum InternalError {
    /// The transport failed: no answer, or none that could be read.
    ReqwestError(String),
    /// A body did not decode.
    JSONError(JsonFault),
    /// The server answered with a fault of its own; with the status. The body
    /// of such an answer is not read.
    BadResponse(u16),
    /// The server answered with a redirection; with the status. No service
    /// of the chain is expected to redirect: the redirection is not
    /// followed, and its body is not read.
    Redirection(u16),
    /// A URL could not be parsed.
    URLParse(url::ParseError),
}

/// Either a failure that no provider reported, or a provider's rejection.
#[derive(Debug)]
pub enum BadResponseOrError<E> {
    Error(InternalError),
    ResponseError(E),
}

/// The providers that reject with a body of their own.
#[derive(Debug, Clone, Copy, PartialEq, Eq, Structural)]
pub enum Provider {
    /// The identity platform.
    Microsoft,
    /// The console identity broker.
    XboxLive,
}

/// A provider's rejection: who rejected, the status, the code and the
/// description it came with, and how it is read from a body.
pub trait ResponseError: Sized {
    /// The provider that rejects in this way.
    spec fn spec_provider() -> Provider;

    /// The status with which the rejection came.
    spec fn spec_status_code(&self) -> u16;

    /// The provider's code for the rejection.
    spec fn spec_code(&self) -> Seq<char>;

    /// The provider's words on the rejection.
    spec fn spec_description(&self) -> Seq<char>;

    /// The rejection that a body with `status` holds.
    spec fn spec_from_err(status: u16, payload: Payload) -> Result<Self, InternalError>;

    /// The provider that rejects in this way.
    fn provider() -> (provider: Provider)
        ensures
            provider == Self::spec_provider(),
    ;

    /// The status with which the rejection came.
    fn status_code(&self) -> (code: u16)
        ensures
            code == self.spec_status_code(),
    ;

    /// The provider's code for the rejection.
    fn code(&self) -> (code: &str)
        ensures
            code@ == self.spec_code(),
    ;

    /// The provider's words on the rejection.
    fn description(&self) -> (description: &str)
        ensures
            description@ == self.spec_description(),
    ;

    /// Reads the rejection out of the body of an answer with `status`. A body
    /// that could not be decoded, or that is of another schema than the
    /// provider's, is a `JSONError`.
    fn from_err(status: u16, payload: Payload) -> (read: Result<Self, InternalError>)
        ensures
            read == Self::spec_from_err(status, payload),
    ;
}

/// What an answer comes to, by its status alone where that decides:
/// - no answer is a transport failure;
/// - a status of success hands the body on;
/// - a redirection is a `Redirection`, whatever the body;
/// - a server fault is a `BadResponse`, whatever the body;
/// - any other status is read as the provider's rejection.
pub open spec fn spec_into_result<E: ResponseError>(reply: HttpReply) -> Result<
    Result<Payload, E>,
    InternalError,
> {
    match reply {
        HttpReply::Failed(message) => Err(InternalError::ReqwestError(message)),
        HttpReply::Answered { status, payload } => {
            if spec_is_success(status) {
                Ok(Ok(payload))
            } else if spec_is_redirection(status) {
                Err(InternalError::Redirection(status))
            } else if spec_is_server_error(status) {
                Err(InternalError::BadResponse(status))
            } else {
                match E::spec_from_err(status, payload) {
                    Ok(rejection) => Ok(Err(rejection)),
                    Err(error) => Err(error),
                }
            }
        },
    }
}

impl HttpReply {
    /// Reads the answer by its status: see [`spec_into_result`].
    pub fn into_result<E: ResponseError>(self) -> (read: Result<Result<Payload, E>, InternalError>)
        ensures
            read == spec_into_result::<E>(self),
    {
        match self {
            HttpReply::Failed(message) => Err(InternalError::ReqwestError(message)),
            HttpReply::Answered { status, payload } => {
                if is_success(status) {
                    Ok(Ok(payload))
                } else if is_redirection(status) {
                    Err(InternalError::Redirection(status))
                } else if is_server_error(status) {
                    Err(InternalError::BadResponse(status))
                } else {
                    match E::from_err(status, payload) {
                        Ok(rejection) => Ok(Err(rejection)),
                        Err(error) => Err(error),
                    }
                }
            },
        }
    }
}

/// The body of a server fault or of a redirection is never read: what such
/// an answer comes to is fixed by its status, whatever its body.
pub proof fn lemma_unread_statuses_ignore_body<E: ResponseError>(
    status: u16,
    one: Payload,
    other: Payload,
)
    requires
        spec_is_server_error(status) || spec_is_redirection(status),
    ensures
        spec_into_result::<E>(HttpReply::Answered { status, payload: one }) == spec_into_result::<
            E,
        >(HttpReply::Answered { status, payload: other }),
        spec_is_server_error(status) ==> spec_into_result::<E>(
            HttpReply::Answered { status, payload: one },
        ) == Err::<Result<Payload, E>, InternalError>(InternalError::BadResponse(status)),
        spec_is_redirection(status) ==> spec_into_result::<E>(
            HttpReply::Answered { status, payload: one },
        ) == Err::<Result<Payload, E>, InternalError>(InternalError::Redirection(status)),
{
}

/// A provider's rejection is read only out of an answer that is neither a
/// success, nor a redirection, nor a server fault.
pub proof fn lemma_rejection_only_from_other_statuses<E: ResponseError>(reply: HttpReply)
    requires
        spec_into_result::<E>(reply) matches Ok(Err(_)),
    ensures
        reply matches HttpReply::Answered { status, .. } && !spec_is_success(status)
            && !spec_is_redirection(status) && !spec_is_server_error(status),
{
}

} // verus!
