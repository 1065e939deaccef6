//! Requests as the caller is to send them, and answers as the caller hands
//! them back.
use crate::authentication::microsoft::device::PendingApprovalResponse;
use crate::authentication::microsoft::{AuthorizationTokenResponse, InnerMicrosoftError};
use crate::authentication::minecraft::MinecraftLoginResponse;
use crate::authentication::xbox::{XSTSErrorResponse, XboxLiveResponse};
use vstd::prelude::*;

verus! {

/// A `POST` request: where it goes, its two headers and its body.
#[derive(Debug, Clone, PartialEq, Eq)]
pub struct HttpRequest {
    pub url: String,
    /// The value of the `Content-Type` header.
    pub content_type: String,
    /// The value of the `Accept` header.
    pub accept: String,
    pub body: String,
}

/// A request as text.
pub struct HttpRequestView {
    pub url: Seq<char>,
    pub content_type: Seq<char>,
    pub accept: Seq<char>,
    pub body: Seq<char>,
}

impl View for HttpRequest {
    type V = HttpRequestView;

    open spec fn view(&self) -> HttpRequestView {
        HttpRequestView {
            url: self.url@,
            content_type: self.content_type@,
            accept: self.accept@,
            body: self.body@,
        }
    }
}

/// The services that the chain calls.
#[derive(Debug, Clone, Copy, PartialEq, Eq, Structural)]
pub enum Endpoint {
    /// The identity platform, asked for a device code.
    DeviceCode,
    /// The identity platform, asked for a token.
    Token,
    /// The console identity broker, asked for a console identity token.
    XboxLive,
    /// The console identity broker, asked for a security token.
    Xsts,
    /// The game service, asked for a session token.
    Minecraft,
}

/// The shapes that the body of an answer can have.
#[derive(Debug, Clone, Copy, PartialEq, Eq, Structural)]
pub enum Schema {
    /// The body is not read.
    Nothing,
    Token,
    DeviceCode,
    MicrosoftError,
    XboxLive,
    XstsError,
    MinecraftLogin,
}

/// The body of an answer, decoded as the schema that its status called for.
#[derive(Debug, Clone)]
pub enum Payload {
    /// The body was not read.
    Unread,
    /// The body is not of the schema that was called for; with the decoder's
    /// message.
    Malformed(String),
    Token(AuthorizationTokenResponse),
    DeviceCode(PendingApprovalResponse),
    MicrosoftError(InnerMicrosoftError),
    XboxLive(XboxLiveResponse),
    XstsError(XSTSErrorResponse),
    MinecraftLogin(MinecraftLoginResponse),
}

/// What came of sending a request.
#[derive(Debug, Clone)]
pub enum HttpReply {
    /// No answer: the request could not be sent, or the answer could not be
    /// read; with the transport's message.
    Failed(String),
    /// An answer with this status.
    Answered { status: u16, payload: Payload },
}

/// What a run of calls asks of its caller next.
#[derive(Debug)]
pub enum Step<R, T> {
    /// Send `request`, and hand the answer to `run`.
    Call { run: R, request: HttpRequest },
    /// The run is over, with this outcome.
    Done(T),
}

/// A step with its request as text.
pub enum StepView<R, T> {
    Call { run: R, request: HttpRequestView },
    Done(T),
}

impl<R, T> View for Step<R, T> {
    type V = StepView<R, T>;

    open spec fn view(&self) -> StepView<R, T> {
        match *self {
            Step::Call { run, request } => StepView::Call { run, request: request@ },
            Step::Done(outcome) => StepView::Done(outcome),
        }
    }
}

/// The status is one of success.
pub open spec fn spec_is_success(status: u16) -> bool {
    200 <= status < 300
}

/// The status is a redirection. None is expected from any service of the
/// chain: one that arrives is to be reported, and is not followed.
pub open spec fn spec_is_redirection(status: u16) -> bool {
    300 <= status < 400
}

/// The status is a fault of the server.
pub open spec fn spec_is_server_error(status: u16) -> bool {
    500 <= status < 600
}

/// The schema of the body with which `endpoint` answers where it grants what
/// was asked.
pub open spec fn spec_success_schema(endpoint: Endpoint) -> Schema {
    match endpoint {
        Endpoint::DeviceCode => Schema::DeviceCode,
        Endpoint::Token => Schema::Token,
        Endpoint::XboxLive => Schema::XboxLive,
        Endpoint::Xsts => Schema::XboxLive,
        Endpoint::Minecraft => Schema::MinecraftLogin,
    }
}

/// The schema of the body with which `endpoint` answers where it rejects what
/// was asked. The game service has none.
pub open spec fn spec_error_schema(endpoint: Endpoint) -> Schema {
    match endpoint {
        Endpoint::DeviceCode => Schema::MicrosoftError,
        Endpoint::Token => Schema::MicrosoftError,
        Endpoint::XboxLive => Schema::XstsError,
        Endpoint::Xsts => Schema::XstsError,
        Endpoint::Minecraft => Schema::Nothing,
    }
}

/// The schema as which the body of an answer of `endpoint` with `status` is to
/// be decoded: on success the endpoint's own, on a redirection or a server
/// fault none, and on any other status that of the provider's errors.
pub open spec fn spec_expected_schema(endpoint: Endpoint, status: u16) -> Schema {
    if spec_is_success(status) {
        spec_success_schema(endpoint)
    } else if spec_is_redirection(status) || spec_is_server_error(status) {
        Schema::Nothing
    } else {
        spec_error_schema(endpoint)
    }
}

/// The schema that `payload` was decoded as; `None` for a body that could not
/// be decoded.
pub open spec fn spec_schema_of(payload: Payload) -> Option<Schema> {
    match payload {
        Payload::Unread => Some(Schema::Nothing),
        Payload::Malformed(_) => None,
        Payload::Token(_) => Some(Schema::Token),
        Payload::DeviceCode(_) => Some(Schema::DeviceCode),
        Payload::MicrosoftError(_) => Some(Schema::MicrosoftError),
        Payload::XboxLive(_) => Some(Schema::XboxLive),
        Payload::XstsError(_) => Some(Schema::XstsError),
        Payload::MinecraftLogin(_) => Some(Schema::MinecraftLogin),
    }
}

/// Whether `status` is one of success.
pub fn is_success(status: u16) -> (b: bool)
    ensures
        b == spec_is_success(status),
{
    200 <= status && status < 300
}

/// Whether `status` is a redirection.
pub fn is_redirection(status: u16) -> (b: bool)
    ensures
        b == spec_is_redirection(status),
{
    300 <= status && status < 400
}

/// Whether `status` is a fault of the server.
pub fn is_server_error(status: u16) -> (b: bool)
    ensures
        b == spec_is_server_error(status),
{
    500 <= status && status < 600
}

/// The schema as which the body of an answer of `endpoint` with `status` is to
/// be decoded.
pub fn expected_schema(endpoint: Endpoint, status: u16) -> (schema: Schema)
    ensures
        schema == spec_expected_schema(endpoint, status),
{
    if is_success(status) {
        match endpoint {
            Endpoint::DeviceCode => Schema::DeviceCode,
            Endpoint::Token => Schema::Token,
            Endpoint::XboxLive => Schema::XboxLive,
            Endpoint::Xsts => Schema::XboxLive,
            Endpoint::Minecraft => Schema::MinecraftLogin,
        }
    } else if is_redirection(status) || is_server_error(status) {
        Schema::Nothing
    } else {
        match endpoint {
            Endpoint::DeviceCode => Schema::MicrosoftError,
            Endpoint::Token => Schema::MicrosoftError,
            Endpoint::XboxLive => Schema::XstsError,
            Endpoint::Xsts => Schema::XstsError,
            Endpoint::Minecraft => Schema::Nothing,
        }
    }
}

/// The body of a redirection or of a server fault is never read: whatever
/// the endpoint, no schema is expected of it.
pub proof fn lemma_unread_statuses_have_no_schema(endpoint: Endpoint, status: u16)
    requires
        spec_is_redirection(status) || spec_is_server_error(status),
    ensures
        spec_expected_schema(endpoint, status) == Schema::Nothing,
{
}

} // verus!
