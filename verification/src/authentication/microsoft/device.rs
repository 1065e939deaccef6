//! The device-code flow: the user signs in on another device with a short
//! code, while the token endpoint is polled for the outcome.
use crate::authentication::error::{BadResponseOrError, InternalError, JsonFault, spec_into_result};
use crate::authentication::microsoft::{
    spec_form_request, spec_token_result, token_result, token_url, AuthorizationTokenResponse,
    MicrosoftAuthorization, MicrosoftAuthorizationType, MicrosoftError, MICROSOFT_LOGIN_URL,
    MICROSOFT_SCOPE, TOKEN_PATH,
};
use crate::authentication::transport::{
    spec_expected_schema, spec_schema_of, Endpoint, HttpReply, HttpRequest, Payload, Step,
    StepView,
};
use crate::authentication::utils::query_string_builder::{spec_build, QueryString};
use crate::authentication::utils::time::Timestamp;
use crate::authentication::AuthenticationClient;
use crate::text::same_text;
use vstd::prelude::*;
use vstd::string::*;

verus! {

/// The grant type with which the token endpoint is polled.
pub const DEVICE_CODE_GRANT_TYPE: &'static str = "urn:ietf:params:oauth:grant-type:device_code";

/// The path of the device-code endpoint below [`MICROSOFT_LOGIN_URL`].
pub const DEVICE_CODE_PATH: &'static str = "/oauth2/v2.0/devicecode";

/// The code with which the token endpoint rejects a poll while the user has
/// not decided.
pub const AUTHORIZATION_PENDING: &'static str = "authorization_pending";

/// The code with which the token endpoint rejects a poll once the user has
/// declined.
pub const AUTHORIZATION_DECLINED: &'static str = "authorization_declined";

/// Asking for a device code: the start of the flow.
#[derive(Debug)]
pub struct DeviceCode;

impl DeviceCode {
    /// A request builder for the start of the device-code flow.
    pub fn new(client: AuthenticationClient) -> (authorization: MicrosoftAuthorization<
        DeviceCode,
    >)
        ensures
            authorization.client == client,
    {
        MicrosoftAuthorization { client, internal: DeviceCode }
    }
}

impl MicrosoftAuthorizationType for DeviceCode {

}

/// What a poll of the token endpoint found.
#[derive(Debug, Clone)]
pub enum CheckTokenResponse {
    /// The user approved: here is the token.
    Approved(AuthorizationTokenResponse),
    /// The user declined. The flow is over and has to be started again.
    Declined,
    /// The user has not decided yet.
    Pending,
}

/// The answer to the request for a device code.
#[derive(Debug, Clone)]
pub struct PendingApprovalResponse {
    /// What the token endpoint is polled with.
    pub device_code: String,
    /// What the user types in.
    pub user_code: String,
    /// Where the user types it in.
    pub verification_uri: String,
    /// The lifetime of the codes, in seconds.
    pub expires_in: i64,
    /// The time to leave between two polls, in seconds.
    pub interval: i64,
    /// The instructions for the user.
    pub message: String,
}

/// A device-code flow that waits for the user.
#[derive(Debug, Clone)]
pub struct PendingApproval {
    pub response: PendingApprovalResponse,
    /// When the token endpoint was last polled; before the first poll, when
    /// the codes were handed out.
    pub last_check: Timestamp,
    /// When the codes were handed out.
    pub created: Timestamp,
}

impl PendingApproval {
    /// The flow as it stands when `value` has just arrived, at `now`.
    pub fn from(value: PendingApprovalResponse, now: Timestamp) -> (pending: Self)
        ensures
            pending.response == value,
            pending.last_check == now,
            pending.created == now,
    {
        PendingApproval { response: value, last_check: now, created: now }
    }

    /// The provider's interval has not passed at `now` since the last poll.
    pub open spec fn spec_throttled(self, now: Timestamp) -> bool {
        !now.spec_reached(self.last_check, self.response.interval as int)
    }

    /// The lifetime of the codes has passed at `now`.
    pub open spec fn spec_expired(self, now: Timestamp) -> bool {
        now.spec_reached(self.created, self.response.expires_in as int)
    }

    /// Whether the lifetime of the codes has passed at `now`. The token
    /// endpoint rejects a poll with expired codes; this tells beforehand.
    pub fn is_expired(&self, now: Timestamp) -> (expired: bool)
        ensures
            expired == self.spec_expired(now),
    {
        now.has_reached(&self.created, self.response.expires_in)
    }
}

impl MicrosoftAuthorizationType for PendingApproval {

}

/// The entries of the form that asks for a device code.
pub open spec fn spec_device_code_form(client_id: Seq<char>) -> Seq<(Seq<char>, Seq<char>)> {
    seq![("client_id"@, client_id), ("response_type"@, "code"@), ("scope"@, MICROSOFT_SCOPE@)]
}

/// The entries of the form that polls the token endpoint.
pub open spec fn spec_poll_form(client_id: Seq<char>, device_code: Seq<char>) -> Seq<
    (Seq<char>, Seq<char>),
> {
    seq![
        ("client_id"@, client_id),
        ("grant_type"@, DEVICE_CODE_GRANT_TYPE@),
        ("device_code"@, device_code),
    ]
}

/// The device code that an answer of the device-code endpoint comes to: the
/// codes on success, else the failure as [`spec_into_result`] reads it; a
/// success whose body holds no codes is a `JSONError`.
pub open spec fn spec_device_code_result(reply: HttpReply) -> Result<
    PendingApprovalResponse,
    BadResponseOrError<MicrosoftError>,
> {
    match spec_into_result::<MicrosoftError>(reply) {
        Err(error) => Err(BadResponseOrError::Error(error)),
        Ok(Err(rejection)) => Err(BadResponseOrError::ResponseError(rejection)),
        Ok(Ok(Payload::DeviceCode(codes))) => Ok(codes),
        Ok(Ok(Payload::Malformed(message))) => Err(
            BadResponseOrError::Error(InternalError::JSONError(JsonFault::Malformed(message))),
        ),
        Ok(Ok(_)) => Err(
            BadResponseOrError::Error(InternalError::JSONError(JsonFault::WrongSchema)),
        ),
    }
}

/// What the answer to a poll comes to. A granted token is the approval. A
/// rejection with the code `authorization_pending` means that the user has
/// not decided, one with `authorization_declined` that the user declined.
/// Every other rejection, and every other failure, stays the failure it is.
pub open spec fn spec_poll_result(reply: HttpReply) -> Result<
    CheckTokenResponse,
    BadResponseOrError<MicrosoftError>,
> {
    match spec_token_result(reply) {
        Ok(token) => Ok(CheckTokenResponse::Approved(token)),
        Err(BadResponseOrError::ResponseError(rejection)) => {
            if rejection.inner.error@ == AUTHORIZATION_PENDING@ {
                Ok(CheckTokenResponse::Pending)
            } else if rejection.inner.error@ == AUTHORIZATION_DECLINED@ {
                Ok(CheckTokenResponse::Declined)
            } else {
                Err(BadResponseOrError::ResponseError(rejection))
            }
        },
        Err(BadResponseOrError::Error(error)) => Err(BadResponseOrError::Error(error)),
    }
}

/// Reads an answer of the device-code endpoint: see
/// [`spec_device_code_result`].
pub fn device_code_result(reply: HttpReply) -> (read: Result<
    PendingApprovalResponse,
    BadResponseOrError<MicrosoftError>,
>)
    ensures
        read == spec_device_code_result(reply),
{
    match reply.into_result::<MicrosoftError>() {
        Err(error) => Err(BadResponseOrError::Error(error)),
        Ok(Err(rejection)) => Err(BadResponseOrError::ResponseError(rejection)),
        Ok(Ok(Payload::DeviceCode(codes))) => Ok(codes),
        Ok(Ok(Payload::Malformed(message))) => Err(
            BadResponseOrError::Error(InternalError::JSONError(JsonFault::Malformed(message))),
        ),
        Ok(Ok(_)) => Err(
            BadResponseOrError::Error(InternalError::JSONError(JsonFault::WrongSchema)),
        ),
    }
}

impl MicrosoftAuthorization<DeviceCode> {
    /// The request that asks for a device code.
    pub fn create_authorize_request(&self) -> (request: HttpRequest)
        ensures
            request@ == spec_form_request(
                MICROSOFT_LOGIN_URL@ + DEVICE_CODE_PATH@,
                spec_build(
                    spec_device_code_form(self.client.auth_properties.azura_microsoft_client@),
                ),
            ),
    {
        let query_string = QueryString::new_with_capacity(4).add_str(
            "client_id",
            self.client.auth_properties.azura_microsoft_client.as_str(),
        ).add_str("response_type", "code").add_str("scope", MICROSOFT_SCOPE);
        assert(query_string@ =~= spec_device_code_form(
            self.client.auth_properties.azura_microsoft_client@,
        ));
        let url = String::from_str(MICROSOFT_LOGIN_URL).concat(DEVICE_CODE_PATH);
        self.make_request(url, query_string.build())
    }

    /// Takes the answer to the request for a device code, which arrived at
    /// `now`: on success the flow goes on to wait for the user, with the
    /// codes of the answer and `now` as the time of the last poll.
    pub fn pending_approval(self, reply: HttpReply, now: Timestamp) -> (started: Result<
        MicrosoftAuthorization<PendingApproval>,
        BadResponseOrError<MicrosoftError>,
    >)
        ensures
            match spec_device_code_result(reply) {
                Ok(codes) => started == Ok::<
                    MicrosoftAuthorization<PendingApproval>,
                    BadResponseOrError<MicrosoftError>,
                >(
                    MicrosoftAuthorization {
                        client: self.client,
                        internal: PendingApproval {
                            response: codes,
                            last_check: now,
                            created: now,
                        },
                    },
                ),
                Err(error) => started == Err::<
                    MicrosoftAuthorization<PendingApproval>,
                    BadResponseOrError<MicrosoftError>,
                >(error),
            },
    {
        let codes = match device_code_result(reply) {
            Ok(codes) => codes,
            Err(error) => {
                return Err(error);
            },
        };
        Ok(MicrosoftAuthorization { client: self.client, internal: PendingApproval::from(codes, now) })
    }
}

impl MicrosoftAuthorization<PendingApproval> {
    /// Decides, at `now`, whether the token endpoint may be polled.
    ///
    /// Before the provider's interval has passed since the last poll, the
    /// outcome is `Pending` at once: no request is made, and the time of the
    /// last poll stays. Otherwise `now` becomes the time of the last poll, and
    /// the step is the poll request, which goes to the token endpoint and
    /// whose answer [`Self::poll_result`] reads.
    pub fn check_if_ready(&mut self, now: Timestamp) -> (step: Step<
        (),
        Result<CheckTokenResponse, BadResponseOrError<MicrosoftError>>,
    >)
        ensures
            old(self).internal.spec_throttled(now) ==> {
                &&& step@ == StepView::<
                    (),
                    Result<CheckTokenResponse, BadResponseOrError<MicrosoftError>>,
                >::Done(Ok(CheckTokenResponse::Pending))
                &&& *final(self) == *old(self)
            },
            !old(self).internal.spec_throttled(now) ==> {
                &&& step@ == StepView::<
                    (),
                    Result<CheckTokenResponse, BadResponseOrError<MicrosoftError>>,
                >::Call {
                    run: (),
                    request: spec_form_request(
                        MICROSOFT_LOGIN_URL@ + TOKEN_PATH@,
                        spec_build(
                            spec_poll_form(
                                old(self).client.auth_properties.azura_microsoft_client@,
                                old(self).internal.response.device_code@,
                            ),
                        ),
                    ),
                }
                &&& final(self).internal.last_check == now
                &&& final(self).internal.response == old(self).internal.response
                &&& final(self).internal.created == old(self).internal.created
                &&& final(self).client == old(self).client
            },
    {
        if !now.has_reached(&self.internal.last_check, self.internal.response.interval) {
            return Step::Done(Ok(CheckTokenResponse::Pending));
        }
        self.internal.last_check = now;
        let query_string = QueryString::new_with_capacity(4).add_str(
            "client_id",
            self.client.auth_properties.azura_microsoft_client.as_str(),
        ).add_str("grant_type", DEVICE_CODE_GRANT_TYPE).add_string(
            "device_code",
            self.internal.response.device_code.clone(),
        );
        assert(query_string@ =~= spec_poll_form(
            self.client.auth_properties.azura_microsoft_client@,
            self.internal.response.device_code@,
        ));
        let request = self.make_request(token_url(), query_string.build());
        Step::Call { run: (), request }
    }

    /// Reads the answer to a poll: see [`spec_poll_result`].
    pub fn poll_result(reply: HttpReply) -> (outcome: Result<
        CheckTokenResponse,
        BadResponseOrError<MicrosoftError>,
    >)
        ensures
            outcome == spec_poll_result(reply),
    {
        match token_result(reply) {
            Ok(token) => Ok(CheckTokenResponse::Approved(token)),
            Err(BadResponseOrError::ResponseError(rejection)) => {
                if same_text(rejection.inner.error.as_str(), AUTHORIZATION_PENDING) {
                    Ok(CheckTokenResponse::Pending)
                } else if same_text(rejection.inner.error.as_str(), AUTHORIZATION_DECLINED) {
                    Ok(CheckTokenResponse::Declined)
                } else {
                    Err(BadResponseOrError::ResponseError(rejection))
                }
            },
            Err(BadResponseOrError::Error(error)) => Err(BadResponseOrError::Error(error)),
        }
    }
}

/// An answer of the device-code endpoint whose body was decoded as the
/// schema that its status calls for is never taken for a body of another
/// schema.
pub proof fn lemma_expected_device_code_body_is_taken(status: u16, payload: Payload)
    requires
        spec_schema_of(payload) == Some(spec_expected_schema(Endpoint::DeviceCode, status)),
    ensures
        spec_device_code_result(HttpReply::Answered { status, payload }) != Err::<
            PendingApprovalResponse,
            BadResponseOrError<MicrosoftError>,
        >(BadResponseOrError::Error(InternalError::JSONError(JsonFault::WrongSchema))),
{
}

} // verus!
