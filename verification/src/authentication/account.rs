//! The credential bundle: what is kept of a run through the chain, and how it
//! is brought up to date with as few calls as its expiries allow.
use crate::authentication::error::{BadResponseOrError, InternalError, JsonFault};
use crate::authentication::microsoft::{
    spec_form_request, spec_refresh_form, spec_token_result, token_result,
    AuthorizationTokenResponse, MicrosoftError, RefreshToken, MICROSOFT_LOGIN_URL, TOKEN_PATH,
};
use crate::authentication::minecraft::{
    spec_login_request, spec_minecraft_result, minecraft_result, MinecraftLoginResponse,
};
use crate::authentication::transport::{
    Endpoint, HttpReply, HttpRequest, HttpRequestView, Step, StepView,
};
use crate::authentication::utils::query_string_builder::spec_build;
use crate::authentication::utils::time::Timestamp;
use crate::authentication::xbox::{
    spec_xbl_request, spec_xbox_live_result, spec_xsts_request, xbox_live_result, XSTSError,
    XboxLiveResponse,
};
use crate::authentication::AuthenticationClient;
use vstd::prelude::*;
use vstd::std_specs::convert::FromSpecImpl;

verus! {

/// The credential bundle. It holds what outlives a run through the chain: the
/// refresh token of the identity platform, the console identity token, and
/// the session token of the game service. The security token is not kept: it
/// lives no longer than the session token that it is traded for.
#[derive(Debug, Clone, PartialEq)]
pub struct AccountSave {
    pub microsoft_token: MicrosoftToken,
    pub xbox: XboxUserSave,
    pub minecraft_save: MinecraftSave,
}

/// How a call of the chain failed.
#[derive(Debug)]
pub enum AccountLoadError {
    /// No provider reported the failure.
    InternalError(InternalError),
    /// The console identity broker rejected the call.
    XboxLiveError(XSTSError),
    /// The identity platform rejected the call.
    MicrosoftError(MicrosoftError),
}

/// The failure of a run through the chain: the call at which it stopped, and
/// how that call failed.
#[derive(Debug)]
pub struct ExchangeError {
    pub endpoint: Endpoint,
    pub error: AccountLoadError,
}

/// What is kept of a token of the identity platform.
#[derive(Debug, Clone, PartialEq)]
pub struct MicrosoftToken {
    pub refresh_token: String,
}

/// The console identity token.
#[derive(Debug, Clone, PartialEq)]
pub struct XboxUserSave {
    /// The instant from which the token is no longer good.
    pub expires: Timestamp,
    pub token: String,
    pub user_hash: String,
}

/// The session token of the game service.
#[derive(Debug, Clone, PartialEq)]
pub struct MinecraftSave {
    /// The instant from which the token is no longer good.
    pub expires: Timestamp,
    pub token: String,
}

/// A failure at the identity platform, as a failure of the chain.
pub open spec fn spec_microsoft_failure(value: BadResponseOrError<MicrosoftError>) -> AccountLoadError {
    match value {
        BadResponseOrError::Error(err) => AccountLoadError::InternalError(err),
        BadResponseOrError::ResponseError(micro) => AccountLoadError::MicrosoftError(micro),
    }
}

/// A failure at the console identity broker, as a failure of the chain.
pub open spec fn spec_broker_failure(value: BadResponseOrError<XSTSError>) -> AccountLoadError {
    match value {
        BadResponseOrError::Error(err) => AccountLoadError::InternalError(err),
        BadResponseOrError::ResponseError(xsts) => AccountLoadError::XboxLiveError(xsts),
    }
}

/// The console identity token as it is persisted.
#[derive(Debug, Clone, PartialEq)]
pub struct ConsoleIdentity {
    pub token: String,
    pub user_hash: String,
    pub expires_at: Timestamp,
}

/// The session token as it is persisted.
#[derive(Debug, Clone, PartialEq)]
pub struct GameSession {
    pub token: String,
    pub expires_at: Timestamp,
}

/// The bundle as it is persisted: a record under names that stay the same
/// from one run of the program to the next.
#[derive(Debug, Clone, PartialEq)]
pub struct CredentialBundle {
    pub refresh_token: String,
    pub console_identity: ConsoleIdentity,
    pub game_session: GameSession,
}

impl AccountSave {
    /// The bundle as it is persisted.
    pub open spec fn spec_persisted(self) -> CredentialBundle {
        CredentialBundle {
            refresh_token: self.microsoft_token.refresh_token,
            console_identity: ConsoleIdentity {
                token: self.xbox.token,
                user_hash: self.xbox.user_hash,
                expires_at: self.xbox.expires,
            },
            game_session: GameSession {
                token: self.minecraft_save.token,
                expires_at: self.minecraft_save.expires,
            },
        }
    }

    /// The bundle as it is persisted: every field of it, under its
    /// persisted name.
    pub fn persisted(self) -> (record: CredentialBundle)
        ensures
            record == self.spec_persisted(),
    {
        CredentialBundle {
            refresh_token: self.microsoft_token.refresh_token,
            console_identity: ConsoleIdentity {
                token: self.xbox.token,
                user_hash: self.xbox.user_hash,
                expires_at: self.xbox.expires,
            },
            game_session: GameSession {
                token: self.minecraft_save.token,
                expires_at: self.minecraft_save.expires,
            },
        }
    }
}

impl CredentialBundle {
    /// The bundle that was persisted as this record.
    pub open spec fn spec_restored(self) -> AccountSave {
        AccountSave {
            microsoft_token: MicrosoftToken { refresh_token: self.refresh_token },
            xbox: XboxUserSave {
                expires: self.console_identity.expires_at,
                token: self.console_identity.token,
                user_hash: self.console_identity.user_hash,
            },
            minecraft_save: MinecraftSave {
                expires: self.game_session.expires_at,
                token: self.game_session.token,
            },
        }
    }

    /// The bundle that was persisted as this record.
    pub fn restored(self) -> (account: AccountSave)
        ensures
            account == self.spec_restored(),
    {
        AccountSave {
            microsoft_token: MicrosoftToken { refresh_token: self.refresh_token },
            xbox: XboxUserSave {
                expires: self.console_identity.expires_at,
                token: self.console_identity.token,
                user_hash: self.console_identity.user_hash,
            },
            minecraft_save: MinecraftSave {
                expires: self.game_session.expires_at,
                token: self.game_session.token,
            },
        }
    }
}

/// A bundle that is persisted and restored is the bundle it was, in every
/// field; and so is a record that is restored and persisted.
pub proof fn lemma_persisted_round_trip(account: AccountSave, record: CredentialBundle)
    ensures
        account.spec_persisted().spec_restored() == account,
        record.spec_restored().spec_persisted() == record,
{
}

impl From<InternalError> for AccountLoadError {
    fn from(value: InternalError) -> (error: Self) {
        AccountLoadError::InternalError(value)
    }
}

impl FromSpecImpl<InternalError> for AccountLoadError {
    open spec fn obeys_from_spec() -> bool {
        true
    }

    open spec fn from_spec(value: InternalError) -> Self {
        AccountLoadError::InternalError(value)
    }
}

impl From<BadResponseOrError<MicrosoftError>> for AccountLoadError {
    fn from(value: BadResponseOrError<MicrosoftError>) -> (error: Self) {
        match value {
            BadResponseOrError::Error(err) => AccountLoadError::InternalError(err),
            BadResponseOrError::ResponseError(micro) => AccountLoadError::MicrosoftError(micro),
        }
    }
}

impl FromSpecImpl<BadResponseOrError<MicrosoftError>> for AccountLoadError {
    open spec fn obeys_from_spec() -> bool {
        true
    }

    open spec fn from_spec(value: BadResponseOrError<MicrosoftError>) -> Self {
        spec_microsoft_failure(value)
    }
}

impl From<BadResponseOrError<XSTSError>> for AccountLoadError {
    fn from(value: BadResponseOrError<XSTSError>) -> (error: Self) {
        match value {
            BadResponseOrError::Error(err) => AccountLoadError::InternalError(err),
            BadResponseOrError::ResponseError(xsts) => AccountLoadError::XboxLiveError(xsts),
        }
    }
}

impl FromSpecImpl<BadResponseOrError<XSTSError>> for AccountLoadError {
    open spec fn obeys_from_spec() -> bool {
        true
    }

    open spec fn from_spec(value: BadResponseOrError<XSTSError>) -> Self {
        spec_broker_failure(value)
    }
}

impl From<AuthorizationTokenResponse> for MicrosoftToken {
    fn from(value: AuthorizationTokenResponse) -> (token: Self) {
        MicrosoftToken { refresh_token: value.refresh_token }
    }
}

impl FromSpecImpl<AuthorizationTokenResponse> for MicrosoftToken {
    open spec fn obeys_from_spec() -> bool {
        true
    }

    open spec fn from_spec(value: AuthorizationTokenResponse) -> Self {
        MicrosoftToken { refresh_token: value.refresh_token }
    }
}

impl XboxUserSave {
    /// What is kept of an answer of the broker: its token, the instant from
    /// which it is no longer good, and the user hash of its first claim. An
    /// answer without any claim has no user hash: it is a `JSONError`.
    pub open spec fn spec_from(value: XboxLiveResponse) -> Result<XboxUserSave, InternalError> {
        match value.spec_user_hash() {
            Some(user_hash) => Ok(
                XboxUserSave { expires: value.not_after, token: value.token, user_hash },
            ),
            None => Err(InternalError::JSONError(JsonFault::NoClaims)),
        }
    }

    /// What is kept of an answer of the broker: see [`Self::spec_from`].
    pub fn from(value: XboxLiveResponse) -> (kept: Result<XboxUserSave, InternalError>)
        ensures
            kept == Self::spec_from(value),
    {
        let mut value = value;
        if value.display_claims.x_ui.len() == 0 {
            return Err(InternalError::JSONError(JsonFault::NoClaims));
        }
        let first = value.display_claims.x_ui.remove(0);
        Ok(XboxUserSave { expires: value.not_after, token: value.token, user_hash: first.user_hash })
    }
}

impl MinecraftSave {
    /// What is kept of an answer of the game service that arrived at `now`:
    /// its token, good until its lifetime has passed since `now`. A lifetime
    /// that leads to an instant that cannot be held is a `JSONError`.
    pub open spec fn spec_from(value: MinecraftLoginResponse, now: Timestamp) -> Result<
        MinecraftSave,
        InternalError,
    > {
        match now.spec_checked_add_seconds(value.expires_in as int) {
            Some(expires) => Ok(MinecraftSave { expires, token: value.access_token }),
            None => Err(InternalError::JSONError(JsonFault::ExpiryOutOfRange)),
        }
    }

    /// What is kept of an answer of the game service that arrived at `now`:
    /// see [`Self::spec_from`].
    pub fn from(value: MinecraftLoginResponse, now: Timestamp) -> (kept: Result<
        MinecraftSave,
        InternalError,
    >)
        ensures
            kept == Self::spec_from(value, now),
    {
        match now.checked_add_seconds(value.expires_in) {
            Some(expires) => Ok(MinecraftSave { expires, token: value.access_token }),
            None => Err(InternalError::JSONError(JsonFault::ExpiryOutOfRange)),
        }
    }
}

/// A session token made from a positive lifetime is good at the instant at
/// which it is made.
pub proof fn lemma_new_session_is_good(value: MinecraftLoginResponse, now: Timestamp)
    requires
        value.expires_in > 0,
        MinecraftSave::spec_from(value, now) is Ok,
    ensures
        now.spec_lt(MinecraftSave::spec_from(value, now).unwrap().expires),
        MinecraftSave::spec_from(value, now).unwrap().expires.seconds == now.seconds
            + value.expires_in,
        MinecraftSave::spec_from(value, now).unwrap().expires.nanos == now.nanos,
{
}

/// The calls of a run that brings a bundle up to date, by what they await.
#[derive(Debug, Clone, Copy, PartialEq, Eq, Structural)]
pub enum LoadStage {
    /// A token of the identity platform, asked for with the refresh token.
    RefreshToken,
    /// A console identity token.
    XboxLive,
    /// A security token.
    Xsts,
    /// A session token.
    Minecraft,
}

impl LoadStage {
    /// The service that the call goes to.
    pub open spec fn spec_endpoint(self) -> Endpoint {
        match self {
            LoadStage::RefreshToken => Endpoint::Token,
            LoadStage::XboxLive => Endpoint::XboxLive,
            LoadStage::Xsts => Endpoint::Xsts,
            LoadStage::Minecraft => Endpoint::Minecraft,
        }
    }

    /// The service that the call goes to.
    pub fn endpoint(&self) -> (endpoint: Endpoint)
        ensures
            endpoint == self.spec_endpoint(),
    {
        match self {
            LoadStage::RefreshToken => Endpoint::Token,
            LoadStage::XboxLive => Endpoint::XboxLive,
            LoadStage::Xsts => Endpoint::Xsts,
            LoadStage::Minecraft => Endpoint::Minecraft,
        }
    }
}

/// A run that brings a bundle up to date, waiting for the answer to one call.
#[derive(Debug)]
pub struct AccountLoad {
    pub client: AuthenticationClient,
    /// The call whose answer the run waits for.
    pub awaiting: LoadStage,
}

/// The request that asks the token endpoint for a new token with
/// `refresh_token`.
pub open spec fn spec_refresh_request(client: AuthenticationClient, refresh_token: Seq<char>) -> HttpRequestView {
    spec_form_request(
        MICROSOFT_LOGIN_URL@ + TOKEN_PATH@,
        spec_build(spec_refresh_form(client.auth_properties.azura_microsoft_client@, refresh_token)),
    )
}

/// The step that makes the call `awaiting` with `request`; where there is no
/// request, because it could not be written as JSON, the run ends at that
/// call.
pub open spec fn spec_load_call(
    client: AuthenticationClient,
    awaiting: LoadStage,
    request: Option<HttpRequestView>,
) -> StepView<AccountLoad, Result<bool, ExchangeError>> {
    match request {
        Some(request) => StepView::Call { run: AccountLoad { client, awaiting }, request },
        None => StepView::Done(
            Err(
                ExchangeError {
                    endpoint: awaiting.spec_endpoint(),
                    error: AccountLoadError::InternalError(
                        InternalError::JSONError(JsonFault::Unencodable),
                    ),
                },
            ),
        ),
    }
}

/// How bringing `account` up to date begins at `now`, most sparing first:
/// 1. while the session token is good, nothing is called and nothing has
///    changed;
/// 2. else, while the console identity token is good, it is presented for a
///    security token;
/// 3. else the refresh token is presented for a new token of the identity
///    platform.
pub open spec fn spec_load_account(
    client: AuthenticationClient,
    account: AccountSave,
    now: Timestamp,
) -> StepView<AccountLoad, Result<bool, ExchangeError>> {
    if now.spec_lt(account.minecraft_save.expires) {
        StepView::Done(Ok(false))
    } else if now.spec_lt(account.xbox.expires) {
        spec_load_call(client, LoadStage::Xsts, spec_xsts_request(account.xbox.token@))
    } else {
        StepView::Call {
            run: AccountLoad { client, awaiting: LoadStage::RefreshToken },
            request: spec_refresh_request(client, account.microsoft_token.refresh_token@),
        }
    }
}

/// The run has failed at the call it waited for.
pub open spec fn spec_load_failed(awaiting: LoadStage, error: AccountLoadError) -> StepView<
    AccountLoad,
    Result<bool, ExchangeError>,
> {
    StepView::Done(Err(ExchangeError { endpoint: awaiting.spec_endpoint(), error }))
}

/// What the answer `reply`, which arrived at `now`, does to the run and to
/// `account`. A failure ends the run at the call that failed and leaves the
/// bundle as it is. Otherwise:
/// - the new token of the identity platform gives the bundle its refresh
///   token, and is presented for a console identity token;
/// - the console identity token goes into the bundle, and is presented for a
///   security token;
/// - the security token is presented, with its user hash, for a session
///   token;
/// - the session token goes into the bundle, good until its lifetime has
///   passed since `now`, and the run is over: the bundle has changed.
pub open spec fn spec_load_on_reply(
    run: AccountLoad,
    account: AccountSave,
    reply: HttpReply,
    now: Timestamp,
) -> (AccountSave, StepView<AccountLoad, Result<bool, ExchangeError>>) {
    match run.awaiting {
        LoadStage::RefreshToken => match spec_token_result(reply) {
            Err(error) => (account, spec_load_failed(run.awaiting, spec_microsoft_failure(error))),
            Ok(token) => (
                AccountSave {
                    microsoft_token: MicrosoftToken { refresh_token: token.refresh_token },
                    ..account
                },
                spec_load_call(
                    run.client,
                    LoadStage::XboxLive,
                    spec_xbl_request(token.access_token@),
                ),
            ),
        },
        LoadStage::XboxLive => match spec_xbox_live_result(reply) {
            Err(error) => (account, spec_load_failed(run.awaiting, spec_broker_failure(error))),
            Ok(granted) => match XboxUserSave::spec_from(granted) {
                Err(error) => (
                    account,
                    spec_load_failed(run.awaiting, AccountLoadError::InternalError(error)),
                ),
                Ok(xbox) => (
                    AccountSave { xbox, ..account },
                    spec_load_call(run.client, LoadStage::Xsts, spec_xsts_request(xbox.token@)),
                ),
            },
        },
        LoadStage::Xsts => match spec_xbox_live_result(reply) {
            Err(error) => (account, spec_load_failed(run.awaiting, spec_broker_failure(error))),
            Ok(granted) => match granted.spec_user_hash() {
                None => (
                    account,
                    spec_load_failed(
                        run.awaiting,
                        AccountLoadError::InternalError(
                            InternalError::JSONError(JsonFault::NoClaims),
                        ),
                    ),
                ),
                Some(user_hash) => (
                    account,
                    spec_load_call(
                        run.client,
                        LoadStage::Minecraft,
                        spec_login_request(user_hash@, granted.token@),
                    ),
                ),
            },
        },
        LoadStage::Minecraft => match spec_minecraft_result(reply) {
            Err(error) => (
                account,
                spec_load_failed(run.awaiting, AccountLoadError::InternalError(error)),
            ),
            Ok(session) => match MinecraftSave::spec_from(session, now) {
                Err(error) => (
                    account,
                    spec_load_failed(run.awaiting, AccountLoadError::InternalError(error)),
                ),
                Ok(minecraft_save) => (
                    AccountSave { minecraft_save, ..account },
                    StepView::Done(Ok(true)),
                ),
            },
        },
    }
}

/// The step that makes the call `awaiting` with the request `built`, or ends
/// the run at that call where the request could not be built.
fn load_call(
    client: AuthenticationClient,
    awaiting: LoadStage,
    built: Result<HttpRequest, InternalError>,
) -> (step: Step<AccountLoad, Result<bool, ExchangeError>>)
    requires
        built matches Err(error) ==> error == InternalError::JSONError(JsonFault::Unencodable),
    ensures
        step@ == spec_load_call(
            client,
            awaiting,
            match built {
                Ok(request) => Some(request@),
                Err(_) => None,
            },
        ),
{
    match built {
        Ok(request) => Step::Call { run: AccountLoad { client, awaiting }, request },
        Err(error) => Step::Done(
            Err(
                ExchangeError {
                    endpoint: awaiting.endpoint(),
                    error: AccountLoadError::InternalError(error),
                },
            ),
        ),
    }
}

impl AuthenticationClient {
    /// Begins to bring `account` up to date at `now`: see
    /// [`spec_load_account`]. While the session token is good the run is
    /// over at once, with `Ok(false)` and without any call.
    pub fn load_account(&self, account: &AccountSave, now: Timestamp) -> (step: Step<
        AccountLoad,
        Result<bool, ExchangeError>,
    >)
        ensures
            step@ == spec_load_account(*self, *account, now),
    {
        if now.is_before(&account.minecraft_save.expires) {
            Step::Done(Ok(false))
        } else if now.is_before(&account.xbox.expires) {
            let built = self.authenticate_xsts(account.xbox.token.as_str());
            load_call(self.clone(), LoadStage::Xsts, built)
        } else {
            let request = RefreshToken::new(self.clone()).refresh_token(
                account.microsoft_token.refresh_token.as_str(),
            );
            Step::Call {
                run: AccountLoad { client: self.clone(), awaiting: LoadStage::RefreshToken },
                request,
            }
        }
    }
}

impl AccountLoad {
    /// Takes the answer to the call that the run waited for, which arrived at
    /// `now`: see [`spec_load_on_reply`].
    pub fn on_reply(self, account: &mut AccountSave, reply: HttpReply, now: Timestamp) -> (step:
        Step<AccountLoad, Result<bool, ExchangeError>>)
        ensures
            (*final(account), step@) == spec_load_on_reply(self, *old(account), reply, now),
    {
        let endpoint = self.awaiting.endpoint();
        match self.awaiting {
            LoadStage::RefreshToken => match token_result(reply) {
                Err(error) => Step::Done(
                    Err(ExchangeError { endpoint, error: AccountLoadError::from(error) }),
                ),
                Ok(token) => {
                    let built = self.client.authenticate_xbl(token.access_token.as_str());
                    account.microsoft_token.refresh_token = token.refresh_token;
                    load_call(self.client, LoadStage::XboxLive, built)
                },
            },
            LoadStage::XboxLive => match xbox_live_result(reply) {
                Err(error) => Step::Done(
                    Err(ExchangeError { endpoint, error: AccountLoadError::from(error) }),
                ),
                Ok(granted) => match XboxUserSave::from(granted) {
                    Err(error) => Step::Done(
                        Err(ExchangeError { endpoint, error: AccountLoadError::InternalError(error) }),
                    ),
                    Ok(xbox) => {
                        let built = self.client.authenticate_xsts(xbox.token.as_str());
                        account.xbox = xbox;
                        load_call(self.client, LoadStage::Xsts, built)
                    },
                },
            },
            LoadStage::Xsts => match xbox_live_result(reply) {
                Err(error) => Step::Done(
                    Err(ExchangeError { endpoint, error: AccountLoadError::from(error) }),
                ),
                Ok(granted) => match granted.get_user_hash() {
                    None => Step::Done(
                        Err(
                            ExchangeError {
                                endpoint,
                                error: AccountLoadError::InternalError(
                                    InternalError::JSONError(JsonFault::NoClaims),
                                ),
                            },
                        ),
                    ),
                    Some(user_hash) => {
                        let built = self.client.authenticate_minecraft(
                            user_hash.as_str(),
                            granted.token.as_str(),
                        );
                        load_call(self.client, LoadStage::Minecraft, built)
                    },
                },
            },
            LoadStage::Minecraft => match minecraft_result(reply) {
                Err(error) => Step::Done(
                    Err(ExchangeError { endpoint, error: AccountLoadError::InternalError(error) }),
                ),
                Ok(session) => match MinecraftSave::from(session, now) {
                    Err(error) => Step::Done(
                        Err(ExchangeError { endpoint, error: AccountLoadError::InternalError(error) }),
                    ),
                    Ok(minecraft_save) => {
                        account.minecraft_save = minecraft_save;
                        Step::Done(Ok(true))
                    },
                },
            },
        }
    }
}

/// The calls of a run that builds a bundle, by what they await; with what
/// the run has gathered by then.
#[derive(Debug)]
pub enum CreationStage {
    /// A console identity token.
    XboxLive,
    /// A security token; the console identity token is in hand.
    Xsts { xbox: XboxUserSave },
    /// A session token; the console identity token is in hand.
    Minecraft { xbox: XboxUserSave },
}

impl CreationStage {
    /// The service that the call goes to.
    pub open spec fn spec_endpoint(self) -> Endpoint {
        match self {
            CreationStage::XboxLive => Endpoint::XboxLive,
            CreationStage::Xsts { .. } => Endpoint::Xsts,
            CreationStage::Minecraft { .. } => Endpoint::Minecraft,
        }
    }

    /// The service that the call goes to.
    pub fn endpoint(&self) -> (endpoint: Endpoint)
        ensures
            endpoint == self.spec_endpoint(),
    {
        match self {
            CreationStage::XboxLive => Endpoint::XboxLive,
            CreationStage::Xsts { .. } => Endpoint::Xsts,
            CreationStage::Minecraft { .. } => Endpoint::Minecraft,
        }
    }
}

/// A run that builds a bundle from a token of the identity platform, waiting
/// for the answer to one call.
#[derive(Debug)]
pub struct AccountCreation {
    pub client: AuthenticationClient,
    /// The token of the identity platform that the run began with.
    pub auth: AuthorizationTokenResponse,
    /// The call whose answer the run waits for.
    pub awaiting: CreationStage,
}

/// The step that makes the call `awaiting` with `request`; where there is no
/// request, because it could not be written as JSON, the run ends at that
/// call.
pub open spec fn spec_creation_call(
    client: AuthenticationClient,
    auth: AuthorizationTokenResponse,
    awaiting: CreationStage,
    request: Option<HttpRequestView>,
) -> StepView<AccountCreation, Result<AccountSave, ExchangeError>> {
    match request {
        Some(request) => StepView::Call {
            run: AccountCreation { client, auth, awaiting },
            request,
        },
        None => StepView::Done(
            Err(
                ExchangeError {
                    endpoint: awaiting.spec_endpoint(),
                    error: AccountLoadError::InternalError(
                        InternalError::JSONError(JsonFault::Unencodable),
                    ),
                },
            ),
        ),
    }
}

/// How building a bundle from `auth` begins: its access token is presented
/// to the broker for a console identity token.
pub open spec fn spec_create_account(
    client: AuthenticationClient,
    auth: AuthorizationTokenResponse,
) -> StepView<AccountCreation, Result<AccountSave, ExchangeError>> {
    spec_creation_call(client, auth, CreationStage::XboxLive, spec_xbl_request(auth.access_token@))
}

/// The run has failed at the call it waited for.
pub open spec fn spec_creation_failed(awaiting: CreationStage, error: AccountLoadError) -> StepView<
    AccountCreation,
    Result<AccountSave, ExchangeError>,
> {
    StepView::Done(Err(ExchangeError { endpoint: awaiting.spec_endpoint(), error }))
}

/// What the answer `reply`, which arrived at `now`, does to the run. A
/// failure ends the run at the call that failed. Otherwise the three calls
/// follow one another, each presenting what the one before was answered with:
/// - the console identity token is presented for a security token;
/// - the security token is presented, with its user hash, for a session
///   token;
/// - the session token, good until its lifetime has passed since `now`,
///   completes the bundle: with it go the refresh token that the run began
///   with and the console identity token.
pub open spec fn spec_creation_on_reply(
    run: AccountCreation,
    reply: HttpReply,
    now: Timestamp,
) -> StepView<AccountCreation, Result<AccountSave, ExchangeError>> {
    match run.awaiting {
        CreationStage::XboxLive => match spec_xbox_live_result(reply) {
            Err(error) => spec_creation_failed(run.awaiting, spec_broker_failure(error)),
            Ok(granted) => match XboxUserSave::spec_from(granted) {
                Err(error) => spec_creation_failed(
                    run.awaiting,
                    AccountLoadError::InternalError(error),
                ),
                Ok(xbox) => spec_creation_call(
                    run.client,
                    run.auth,
                    CreationStage::Xsts { xbox },
                    spec_xsts_request(xbox.token@),
                ),
            },
        },
        CreationStage::Xsts { xbox } => match spec_xbox_live_result(reply) {
            Err(error) => spec_creation_failed(run.awaiting, spec_broker_failure(error)),
            Ok(granted) => match granted.spec_user_hash() {
                None => spec_creation_failed(
                    run.awaiting,
                    AccountLoadError::InternalError(InternalError::JSONError(JsonFault::NoClaims)),
                ),
                Some(user_hash) => spec_creation_call(
                    run.client,
                    run.auth,
                    CreationStage::Minecraft { xbox },
                    spec_login_request(user_hash@, granted.token@),
                ),
            },
        },
        CreationStage::Minecraft { xbox } => match spec_minecraft_result(reply) {
            Err(error) => spec_creation_failed(run.awaiting, AccountLoadError::InternalError(error)),
            Ok(session) => match MinecraftSave::spec_from(session, now) {
                Err(error) => spec_creation_failed(
                    run.awaiting,
                    AccountLoadError::InternalError(error),
                ),
                Ok(minecraft_save) => StepView::Done(
                    Ok(
                        AccountSave {
                            microsoft_token: MicrosoftToken {
                                refresh_token: run.auth.refresh_token,
                            },
                            xbox,
                            minecraft_save,
                        },
                    ),
                ),
            },
        },
    }
}

/// The step that makes the call `awaiting` with the request `built`, or ends
/// the run at that call where the request could not be built.
fn creation_call(
    client: AuthenticationClient,
    auth: AuthorizationTokenResponse,
    awaiting: CreationStage,
    built: Result<HttpRequest, InternalError>,
) -> (step: Step<AccountCreation, Result<AccountSave, ExchangeError>>)
    requires
        built matches Err(error) ==> error == InternalError::JSONError(JsonFault::Unencodable),
    ensures
        step@ == spec_creation_call(
            client,
            auth,
            awaiting,
            match built {
                Ok(request) => Some(request@),
                Err(_) => None,
            },
        ),
{
    match built {
        Ok(request) => Step::Call { run: AccountCreation { client, auth, awaiting }, request },
        Err(error) => Step::Done(
            Err(
                ExchangeError {
                    endpoint: awaiting.endpoint(),
                    error: AccountLoadError::InternalError(error),
                },
            ),
        ),
    }
}

impl AuthenticationClient {
    /// Begins to build a bundle from `auth`, a token of the identity
    /// platform: see [`spec_create_account`].
    pub fn create_account(&self, auth: AuthorizationTokenResponse) -> (step: Step<
        AccountCreation,
        Result<AccountSave, ExchangeError>,
    >)
        ensures
            step@ == spec_create_account(*self, auth),
    {
        let built = self.authenticate_xbl(auth.access_token.as_str());
        creation_call(self.clone(), auth, CreationStage::XboxLive, built)
    }
}

impl AccountCreation {
    /// Takes the answer to the call that the run waited for, which arrived at
    /// `now`: see [`spec_creation_on_reply`].
    pub fn on_reply(self, reply: HttpReply, now: Timestamp) -> (step: Step<
        AccountCreation,
        Result<AccountSave, ExchangeError>,
    >)
        ensures
            step@ == spec_creation_on_reply(self, reply, now),
    {
        let endpoint = self.awaiting.endpoint();
        match self.awaiting {
            CreationStage::XboxLive => match xbox_live_result(reply) {
                Err(error) => Step::Done(
                    Err(ExchangeError { endpoint, error: AccountLoadError::from(error) }),
                ),
                Ok(granted) => match XboxUserSave::from(granted) {
                    Err(error) => Step::Done(
                        Err(ExchangeError { endpoint, error: AccountLoadError::InternalError(error) }),
                    ),
                    Ok(xbox) => {
                        let built = self.client.authenticate_xsts(xbox.token.as_str());
                        creation_call(self.client, self.auth, CreationStage::Xsts { xbox }, built)
                    },
                },
            },
            CreationStage::Xsts { xbox } => match xbox_live_result(reply) {
                Err(error) => Step::Done(
                    Err(ExchangeError { endpoint, error: AccountLoadError::from(error) }),
                ),
                Ok(granted) => match granted.get_user_hash() {
                    None => Step::Done(
                        Err(
                            ExchangeError {
                                endpoint,
                                error: AccountLoadError::InternalError(
                                    InternalError::JSONError(JsonFault::NoClaims),
                                ),
                            },
                        ),
                    ),
                    Some(user_hash) => {
                        let built = self.client.authenticate_minecraft(
                            user_hash.as_str(),
                            granted.token.as_str(),
                        );
                        creation_call(
                            self.client,
                            self.auth,
                            CreationStage::Minecraft { xbox },
                            built,
                        )
                    },
                },
            },
            CreationStage::Minecraft { xbox } => match minecraft_result(reply) {
                Err(error) => Step::Done(
                    Err(ExchangeError { endpoint, error: AccountLoadError::InternalError(error) }),
                ),
                Ok(session) => match MinecraftSave::from(session, now) {
                    Err(error) => Step::Done(
                        Err(ExchangeError { endpoint, error: AccountLoadError::InternalError(error) }),
                    ),
                    Ok(minecraft_save) => Step::Done(
                        Ok(
                            AccountSave {
                                microsoft_token: MicrosoftToken::from(self.auth),
                                xbox,
                                minecraft_save,
                            },
                        ),
                    ),
                },
            },
        }
    }
}

/// What a run that brings a bundle up to date has come to once some answers
/// have been handed to it.
pub struct LoadTrace {
    /// The calls that were made, in their order.
    pub calls: Seq<LoadStage>,
    /// The bundle as the run left it.
    pub account: AccountSave,
    /// How the run ended; `None` while it waits for an answer.
    pub outcome: Option<Result<bool, ExchangeError>>,
}

/// The run from `step` on, with `account` as the bundle, where every call is
/// answered by the next of `replies`, each with the instant at which it
/// arrived.
pub open spec fn spec_load_run(
    step: StepView<AccountLoad, Result<bool, ExchangeError>>,
    account: AccountSave,
    replies: Seq<(HttpReply, Timestamp)>,
) -> LoadTrace
    decreases replies.len(),
{
    match step {
        StepView::Done(outcome) => LoadTrace { calls: Seq::empty(), account, outcome: Some(outcome) },
        StepView::Call { run, request } => {
            if replies.len() == 0 {
                LoadTrace { calls: seq![run.awaiting], account, outcome: None }
            } else {
                let (changed, next) = spec_load_on_reply(run, account, replies[0].0, replies[0].1);
                let rest = spec_load_run(next, changed, replies.drop_first());
                LoadTrace {
                    calls: seq![run.awaiting] + rest.calls,
                    account: rest.account,
                    outcome: rest.outcome,
                }
            }
        },
    }
}

/// While the session token is good, bringing the bundle up to date makes no
/// call, ends with `Ok(false)`, and leaves the bundle as it is, whatever
/// answers stand ready.
pub proof fn lemma_fresh_bundle_makes_no_call(
    client: AuthenticationClient,
    account: AccountSave,
    now: Timestamp,
    replies: Seq<(HttpReply, Timestamp)>,
)
    requires
        now.spec_lt(account.minecraft_save.expires),
    ensures
        spec_load_run(spec_load_account(client, account, now), account, replies) == (LoadTrace {
            calls: Seq::empty(),
            account,
            outcome: Some(Ok(false)),
        }),
{
}

/// After the call `awaiting`, a run either is over or makes the call that
/// follows it in the chain; and only the answer to the refresh call touches
/// the refresh token.
pub proof fn lemma_load_steps_in_order(
    run: AccountLoad,
    account: AccountSave,
    reply: HttpReply,
    now: Timestamp,
)
    ensures
        ({
            let (changed, next) = spec_load_on_reply(run, account, reply, now);
            &&& next matches StepView::Call { run: then, .. } ==> {
                &&& run.awaiting != LoadStage::Minecraft
                &&& then.awaiting == spec_following(run.awaiting)
                &&& then.client == run.client
            }
            &&& next matches StepView::Done(Ok(updated)) ==> updated && run.awaiting
                == LoadStage::Minecraft
            &&& next matches StepView::Done(Err(error)) ==> spec_stopped_at(
                error,
                run.awaiting.spec_endpoint(),
                spec_following(run.awaiting).spec_endpoint(),
            )
            &&& run.awaiting != LoadStage::RefreshToken ==> changed.microsoft_token
                == account.microsoft_token
        }),
{
}

/// `error` is the failure of a run that stopped after the call to `called`:
/// it names `called`, whose answer was a failure, or it names `following`,
/// the request to which could not be written.
pub open spec fn spec_stopped_at(error: ExchangeError, called: Endpoint, following: Endpoint) -> bool {
    ||| error.endpoint == called && error.error != AccountLoadError::InternalError(
        InternalError::JSONError(JsonFault::Unencodable),
    )
    ||| error.endpoint == following && error.error == AccountLoadError::InternalError(
        InternalError::JSONError(JsonFault::Unencodable),
    )
}

/// The call that follows `stage` in the chain; the last call follows itself.
pub open spec fn spec_following(stage: LoadStage) -> LoadStage {
    match stage {
        LoadStage::RefreshToken => LoadStage::XboxLive,
        LoadStage::XboxLive => LoadStage::Xsts,
        LoadStage::Xsts => LoadStage::Minecraft,
        LoadStage::Minecraft => LoadStage::Minecraft,
    }
}

/// The calls of the chain from `stage` on, in their order.
pub open spec fn spec_calls_from(stage: LoadStage) -> Seq<LoadStage> {
    match stage {
        LoadStage::RefreshToken => seq![
            LoadStage::RefreshToken,
            LoadStage::XboxLive,
            LoadStage::Xsts,
            LoadStage::Minecraft,
        ],
        LoadStage::XboxLive => seq![LoadStage::XboxLive, LoadStage::Xsts, LoadStage::Minecraft],
        LoadStage::Xsts => seq![LoadStage::Xsts, LoadStage::Minecraft],
        LoadStage::Minecraft => seq![LoadStage::Minecraft],
    }
}

/// A run that waits for the answer to the call `run.awaiting` makes the calls
/// of the chain from that call on, in their order, and stops at the first
/// that fails or is not answered: its calls are the first of
/// [`spec_calls_from`]. It makes all of them where it ends with `Ok`, and
/// then the bundle has changed. Where it ends with a failure, the failure
/// names the call at which the run stopped: see [`spec_stopped_at`]. Unless
/// the refresh call is among them, the refresh token stays.
pub proof fn lemma_load_run_from(
    run: AccountLoad,
    request: HttpRequestView,
    account: AccountSave,
    replies: Seq<(HttpReply, Timestamp)>,
)
    ensures
        ({
            let trace = spec_load_run(StepView::Call { run, request }, account, replies);
            let chain = spec_calls_from(run.awaiting);
            &&& 1 <= trace.calls.len() <= chain.len()
            &&& trace.calls == chain.take(trace.calls.len() as int)
            &&& trace.calls.len() <= replies.len() + 1
            &&& trace.outcome matches Some(Ok(updated)) ==> updated && trace.calls == chain
            &&& trace.outcome matches Some(Err(error)) ==> spec_stopped_at(
                error,
                trace.calls.last().spec_endpoint(),
                spec_following(trace.calls.last()).spec_endpoint(),
            )
            &&& trace.outcome is None ==> trace.calls.len() == replies.len() + 1
            &&& run.awaiting != LoadStage::RefreshToken ==> trace.account.microsoft_token
                == account.microsoft_token
        }),
    decreases replies.len(),
{
    let trace = spec_load_run(StepView::Call { run, request }, account, replies);
    let chain = spec_calls_from(run.awaiting);
    if replies.len() == 0 {
        assert(trace.calls =~= chain.take(1));
    } else {
        let (changed, next) = spec_load_on_reply(run, account, replies[0].0, replies[0].1);
        lemma_load_steps_in_order(run, account, replies[0].0, replies[0].1);
        let rest = spec_load_run(next, changed, replies.drop_first());
        match next {
            StepView::Done(outcome) => {
                assert(rest.calls =~= Seq::<LoadStage>::empty());
                assert(trace.calls =~= seq![run.awaiting]);
                assert(trace.calls =~= chain.take(1));
                if outcome is Ok {
                    assert(chain =~= seq![run.awaiting]);
                }
            },
            StepView::Call { run: then, request: following } => {
                lemma_load_run_from(then, following, changed, replies.drop_first());
                let tail = spec_calls_from(then.awaiting);
                assert(chain =~= seq![run.awaiting] + tail);
                assert(rest.calls == tail.take(rest.calls.len() as int));
                assert(trace.calls =~= chain.take(trace.calls.len() as int));
                assert(trace.calls.last() == rest.calls.last());
                if rest.outcome matches Some(Ok(_)) {
                    assert(rest.calls == tail);
                    assert(trace.calls =~= chain);
                }
            },
        }
    }
}

/// Once the session token has run out, while the console identity token is
/// good, bringing the bundle up to date makes at most two calls: for a
/// security token, then for a session token. Where it succeeds it has made
/// exactly these two, in this order. The refresh token is left as it is,
/// however the run ends.
pub proof fn lemma_stale_session_makes_two_calls(
    client: AuthenticationClient,
    account: AccountSave,
    now: Timestamp,
    replies: Seq<(HttpReply, Timestamp)>,
)
    requires
        account.minecraft_save.expires.spec_le(now),
        now.spec_lt(account.xbox.expires),
    ensures
        ({
            let trace = spec_load_run(spec_load_account(client, account, now), account, replies);
            &&& trace.calls == seq![LoadStage::Xsts, LoadStage::Minecraft].take(
                trace.calls.len() as int,
            )
            &&& trace.calls.len() <= 2
            &&& trace.outcome matches Some(Ok(updated)) ==> updated && trace.calls
                == seq![LoadStage::Xsts, LoadStage::Minecraft]
            &&& trace.account.microsoft_token.refresh_token
                == account.microsoft_token.refresh_token
        }),
{
    match spec_load_account(client, account, now) {
        StepView::Done(outcome) => {
            let trace = spec_load_run(spec_load_account(client, account, now), account, replies);
            assert(trace.calls =~= seq![LoadStage::Xsts, LoadStage::Minecraft].take(0));
        },
        StepView::Call { run, request } => {
            lemma_load_run_from(run, request, account, replies);
        },
    }
}

/// Once both the session token and the console identity token have run out,
/// bringing the bundle up to date makes at most four calls: with the refresh
/// token for a token of the identity platform, then for a console identity
/// token, for a security token, and for a session token. Where it succeeds it
/// has made exactly these four, in this order.
pub proof fn lemma_stale_bundle_makes_four_calls(
    client: AuthenticationClient,
    account: AccountSave,
    now: Timestamp,
    replies: Seq<(HttpReply, Timestamp)>,
)
    requires
        account.minecraft_save.expires.spec_le(now),
        account.xbox.expires.spec_le(now),
    ensures
        ({
            let trace = spec_load_run(spec_load_account(client, account, now), account, replies);
            let chain = seq![
                LoadStage::RefreshToken,
                LoadStage::XboxLive,
                LoadStage::Xsts,
                LoadStage::Minecraft,
            ];
            &&& 1 <= trace.calls.len() <= 4
            &&& trace.calls == chain.take(trace.calls.len() as int)
            &&& trace.outcome matches Some(Ok(updated)) ==> updated && trace.calls == chain
        }),
{
    match spec_load_account(client, account, now) {
        StepView::Done(outcome) => {},
        StepView::Call { run, request } => {
            lemma_load_run_from(run, request, account, replies);
        },
    }
}

/// The answer `reply`, which arrived at `now`, grants a security token with
/// the user hash `user_hash` and the token `token`.
pub open spec fn spec_grants_security_token(
    reply: HttpReply,
    user_hash: Seq<char>,
    token: Seq<char>,
) -> bool {
    spec_xbox_live_result(reply) matches Ok(granted) && granted.spec_user_hash() matches Some(hash)
        && hash@ == user_hash && granted.token@ == token
}

/// The answer `reply`, which arrived at `now`, grants the session `session`.
pub open spec fn spec_grants_session(reply: HttpReply, now: Timestamp, session: MinecraftSave) -> bool {
    spec_minecraft_result(reply) matches Ok(granted) && MinecraftSave::spec_from(granted, now) == Ok::<
        MinecraftSave,
        InternalError,
    >(session)
}

/// The two answers `replies` grant a security token for the console
/// identity token of `account`, with `user_hash` and `token`, and then the
/// session `session`; and both requests can be written as JSON.
pub open spec fn spec_two_calls_granted(
    account: AccountSave,
    replies: Seq<(HttpReply, Timestamp)>,
    user_hash: Seq<char>,
    token: Seq<char>,
    session: MinecraftSave,
) -> bool {
    &&& replies.len() == 2
    &&& spec_xsts_request(account.xbox.token@) is Some
    &&& spec_grants_security_token(replies[0].0, user_hash, token)
    &&& spec_login_request(user_hash, token) is Some
    &&& spec_grants_session(replies[1].0, replies[1].1, session)
}

/// The four answers `replies` grant the token `granted` of the identity
/// platform, then the console identity token `xbox`, then a security token
/// with `user_hash` and `token`, and then the session `session`; and the
/// three requests that follow the first can be written as JSON.
pub open spec fn spec_four_calls_granted(
    replies: Seq<(HttpReply, Timestamp)>,
    granted: AuthorizationTokenResponse,
    xbox: XboxUserSave,
    user_hash: Seq<char>,
    token: Seq<char>,
    session: MinecraftSave,
) -> bool {
    &&& replies.len() == 4
    &&& spec_token_result(replies[0].0) == Ok::<
        AuthorizationTokenResponse,
        BadResponseOrError<MicrosoftError>,
    >(granted)
    &&& spec_xbl_request(granted.access_token@) is Some
    &&& spec_xbox_live_result(replies[1].0) matches Ok(identity) && XboxUserSave::spec_from(
        identity,
    ) == Ok::<XboxUserSave, InternalError>(xbox)
    &&& spec_xsts_request(xbox.token@) is Some
    &&& spec_grants_security_token(replies[2].0, user_hash, token)
    &&& spec_login_request(user_hash, token) is Some
    &&& spec_grants_session(replies[3].0, replies[3].1, session)
}

/// Once the session token has run out, while the console identity token is
/// good, a run whose two calls are both granted makes exactly these two
/// calls and ends with `Ok(true)`: the bundle then holds the new session
/// token, and everything else of it is as it was. This is said of requests
/// that can be written as JSON.
pub proof fn lemma_stale_session_is_renewed_by_two_calls(
    client: AuthenticationClient,
    account: AccountSave,
    now: Timestamp,
    replies: Seq<(HttpReply, Timestamp)>,
    user_hash: Seq<char>,
    token: Seq<char>,
    session: MinecraftSave,
)
    requires
        account.minecraft_save.expires.spec_le(now),
        now.spec_lt(account.xbox.expires),
    ensures
        spec_two_calls_granted(account, replies, user_hash, token, session) ==> spec_load_run(spec_load_account(client, account, now), account, replies)
            == (LoadTrace {
            calls: seq![LoadStage::Xsts, LoadStage::Minecraft],
            account: AccountSave { minecraft_save: session, ..account },
            outcome: Some(Ok(true)),
        }),
{
    if spec_two_calls_granted(account, replies, user_hash, token, session) {
        let first = spec_load_account(client, account, now);
        let run = AccountLoad { client, awaiting: LoadStage::Xsts };
        let (kept, second) = spec_load_on_reply(run, account, replies[0].0, replies[0].1);
        let then = AccountLoad { client, awaiting: LoadStage::Minecraft };
        let (changed, third) = spec_load_on_reply(then, kept, replies[1].0, replies[1].1);
        let rest = replies.drop_first();
        assert(rest[0] == replies[1]);
        assert(rest.drop_first().len() == 0);
        let last = spec_load_run(third, changed, rest.drop_first());
        assert(last.calls =~= Seq::<LoadStage>::empty());
        let middle = spec_load_run(second, kept, rest);
        assert(middle.calls =~= seq![LoadStage::Minecraft]);
        let whole = spec_load_run(first, account, replies);
        assert(whole.calls =~= seq![LoadStage::Xsts, LoadStage::Minecraft]);
    }
}

/// Once both the session token and the console identity token have run out,
/// a run whose four calls are all granted makes exactly these four calls, in
/// their order, and ends with `Ok(true)`: the bundle then holds the refresh
/// token of the new token of the identity platform, the new console
/// identity token, and the new session token. This is said of requests that
/// can be written as JSON.
pub proof fn lemma_stale_bundle_is_renewed_by_four_calls(
    client: AuthenticationClient,
    account: AccountSave,
    now: Timestamp,
    replies: Seq<(HttpReply, Timestamp)>,
    granted: AuthorizationTokenResponse,
    xbox: XboxUserSave,
    user_hash: Seq<char>,
    token: Seq<char>,
    session: MinecraftSave,
)
    requires
        account.minecraft_save.expires.spec_le(now),
        account.xbox.expires.spec_le(now),
    ensures
        spec_four_calls_granted(replies, granted, xbox, user_hash, token, session)
            ==> spec_load_run(spec_load_account(client, account, now), account, replies)
            == (LoadTrace {
            calls: seq![
                LoadStage::RefreshToken,
                LoadStage::XboxLive,
                LoadStage::Xsts,
                LoadStage::Minecraft,
            ],
            account: AccountSave {
                microsoft_token: MicrosoftToken { refresh_token: granted.refresh_token },
                xbox,
                minecraft_save: session,
            },
            outcome: Some(Ok(true)),
        }),
{
    if spec_four_calls_granted(replies, granted, xbox, user_hash, token, session) {
        let step0 = spec_load_account(client, account, now);
        let run0 = AccountLoad { client, awaiting: LoadStage::RefreshToken };
        let (account1, step1) = spec_load_on_reply(run0, account, replies[0].0, replies[0].1);
        let run1 = AccountLoad { client, awaiting: LoadStage::XboxLive };
        let (account2, step2) = spec_load_on_reply(run1, account1, replies[1].0, replies[1].1);
        let run2 = AccountLoad { client, awaiting: LoadStage::Xsts };
        let (account3, step3) = spec_load_on_reply(run2, account2, replies[2].0, replies[2].1);
        let run3 = AccountLoad { client, awaiting: LoadStage::Minecraft };
        let (account4, step4) = spec_load_on_reply(run3, account3, replies[3].0, replies[3].1);
        let rest1 = replies.drop_first();
        let rest2 = rest1.drop_first();
        let rest3 = rest2.drop_first();
        let rest4 = rest3.drop_first();
        assert(rest1[0] == replies[1]);
        assert(rest2[0] == replies[2]);
        assert(rest3[0] == replies[3]);
        assert(rest4.len() == 0);
        let trace4 = spec_load_run(step4, account4, rest4);
        assert(trace4.calls =~= Seq::<LoadStage>::empty());
        let trace3 = spec_load_run(step3, account3, rest3);
        assert(trace3.calls =~= seq![LoadStage::Minecraft]);
        let trace2 = spec_load_run(step2, account2, rest2);
        assert(trace2.calls =~= seq![LoadStage::Xsts, LoadStage::Minecraft]);
        let trace1 = spec_load_run(step1, account1, rest1);
        assert(trace1.calls =~= seq![LoadStage::XboxLive, LoadStage::Xsts, LoadStage::Minecraft]);
        let trace0 = spec_load_run(step0, account, replies);
        assert(trace0.calls =~= seq![
            LoadStage::RefreshToken,
            LoadStage::XboxLive,
            LoadStage::Xsts,
            LoadStage::Minecraft,
        ]);
    }
}

/// A bundle that was brought up to date with a session token of a positive
/// lifetime is not brought up to date again at once: at the instant at which
/// the session token arrived, the next run makes no call and ends with
/// `Ok(false)`.
pub proof fn lemma_second_load_makes_no_call(
    client: AuthenticationClient,
    run: AccountLoad,
    account: AccountSave,
    reply: HttpReply,
    now: Timestamp,
)
    requires
        run.awaiting == LoadStage::Minecraft,
        spec_load_on_reply(run, account, reply, now).1 == StepView::<
            AccountLoad,
            Result<bool, ExchangeError>,
        >::Done(Ok(true)),
        spec_minecraft_result(reply) matches Ok(session) && session.expires_in > 0,
    ensures
        spec_load_account(client, spec_load_on_reply(run, account, reply, now).0, now)
            == StepView::<AccountLoad, Result<bool, ExchangeError>>::Done(Ok(false)),
{
}

/// What a run that builds a bundle has come to once some answers have been
/// handed to it.
pub struct CreationTrace {
    /// The services that were called, in the order of the calls.
    pub calls: Seq<Endpoint>,
    /// How the run ended; `None` while it waits for an answer.
    pub outcome: Option<Result<AccountSave, ExchangeError>>,
}

/// The run from `step` on, where every call is answered by the next of
/// `replies`, each with the instant at which it arrived.
pub open spec fn spec_creation_run(
    step: StepView<AccountCreation, Result<AccountSave, ExchangeError>>,
    replies: Seq<(HttpReply, Timestamp)>,
) -> CreationTrace
    decreases replies.len(),
{
    match step {
        StepView::Done(outcome) => CreationTrace { calls: Seq::empty(), outcome: Some(outcome) },
        StepView::Call { run, request } => {
            if replies.len() == 0 {
                CreationTrace { calls: seq![run.awaiting.spec_endpoint()], outcome: None }
            } else {
                let next = spec_creation_on_reply(run, replies[0].0, replies[0].1);
                let rest = spec_creation_run(next, replies.drop_first());
                CreationTrace {
                    calls: seq![run.awaiting.spec_endpoint()] + rest.calls,
                    outcome: rest.outcome,
                }
            }
        },
    }
}

/// The services that a run calls from the call to `endpoint` on, in the
/// order of the calls.
pub open spec fn spec_endpoints_from(endpoint: Endpoint) -> Seq<Endpoint> {
    match endpoint {
        Endpoint::XboxLive => seq![Endpoint::XboxLive, Endpoint::Xsts, Endpoint::Minecraft],
        Endpoint::Xsts => seq![Endpoint::Xsts, Endpoint::Minecraft],
        Endpoint::Minecraft => seq![Endpoint::Minecraft],
        _ => Seq::empty(),
    }
}

/// The service that is called after `endpoint` in the chain; the last is
/// followed by itself.
pub open spec fn spec_endpoint_after(endpoint: Endpoint) -> Endpoint {
    match endpoint {
        Endpoint::Token => Endpoint::XboxLive,
        Endpoint::XboxLive => Endpoint::Xsts,
        _ => Endpoint::Minecraft,
    }
}

/// After the call that it waited for, a run that builds a bundle either is
/// over or makes the call that follows in the chain, with the token that it
/// began with; and where it is over with a failure, the failure names the
/// call at which the run stopped.
pub proof fn lemma_creation_steps_in_order(run: AccountCreation, reply: HttpReply, now: Timestamp)
    ensures
        ({
            let next = spec_creation_on_reply(run, reply, now);
            let called = run.awaiting.spec_endpoint();
            &&& next matches StepView::Call { run: then, .. } ==> {
                &&& called != Endpoint::Minecraft
                &&& then.awaiting.spec_endpoint() == spec_endpoint_after(called)
                &&& then.auth == run.auth
            }
            &&& next matches StepView::Done(Ok(account)) ==> called == Endpoint::Minecraft
                && account.microsoft_token.refresh_token == run.auth.refresh_token
            &&& next matches StepView::Done(Err(error)) ==> spec_stopped_at(
                error,
                called,
                spec_endpoint_after(called),
            )
        }),
{
}

/// A run that builds a bundle and waits for the answer to a call makes the
/// calls of the chain from that call on, one after the other, and stops at
/// the first that fails or is not answered. Where it ends with a bundle it
/// has made all of them, and the bundle holds the refresh token that the run
/// began with. Where it ends with a failure, the failure names the call at
/// which the run stopped: see [`spec_stopped_at`].
pub proof fn lemma_creation_run_from(
    run: AccountCreation,
    request: HttpRequestView,
    replies: Seq<(HttpReply, Timestamp)>,
)
    ensures
        ({
            let trace = spec_creation_run(StepView::Call { run, request }, replies);
            let chain = spec_endpoints_from(run.awaiting.spec_endpoint());
            &&& 1 <= trace.calls.len() <= chain.len()
            &&& trace.calls == chain.take(trace.calls.len() as int)
            &&& trace.outcome matches Some(Ok(account)) ==> trace.calls == chain
                && account.microsoft_token.refresh_token == run.auth.refresh_token
            &&& trace.outcome matches Some(Err(error)) ==> spec_stopped_at(
                error,
                trace.calls.last(),
                spec_endpoint_after(trace.calls.last()),
            )
            &&& trace.outcome is None ==> trace.calls.len() == replies.len() + 1
        }),
    decreases replies.len(),
{
    let trace = spec_creation_run(StepView::Call { run, request }, replies);
    let chain = spec_endpoints_from(run.awaiting.spec_endpoint());
    if replies.len() == 0 {
        assert(trace.calls =~= chain.take(1));
    } else {
        let next = spec_creation_on_reply(run, replies[0].0, replies[0].1);
        lemma_creation_steps_in_order(run, replies[0].0, replies[0].1);
        let rest = spec_creation_run(next, replies.drop_first());
        match next {
            StepView::Done(outcome) => {
                assert(rest.calls =~= Seq::<Endpoint>::empty());
                assert(trace.calls =~= seq![run.awaiting.spec_endpoint()]);
                assert(trace.calls =~= chain.take(1));
                if outcome is Ok {
                    assert(chain =~= seq![run.awaiting.spec_endpoint()]);
                }
            },
            StepView::Call { run: then, request: following } => {
                lemma_creation_run_from(then, following, replies.drop_first());
                let tail = spec_endpoints_from(then.awaiting.spec_endpoint());
                assert(chain =~= seq![run.awaiting.spec_endpoint()] + tail);
                assert(rest.calls == tail.take(rest.calls.len() as int));
                assert(trace.calls =~= chain.take(trace.calls.len() as int));
                assert(trace.calls.last() == rest.calls.last());
                if rest.outcome matches Some(Ok(_)) {
                    assert(rest.calls == tail);
                    assert(trace.calls =~= chain);
                }
            },
        }
    }
}

/// Building a bundle makes at most three calls: for a console identity
/// token, for a security token, and for a session token, in this order.
/// Where it ends with a bundle it has made exactly these three. Where it
/// fails after a call, the failure names the call at which the run stopped:
/// see [`spec_stopped_at`].
pub proof fn lemma_creation_makes_three_calls(
    client: AuthenticationClient,
    auth: AuthorizationTokenResponse,
    replies: Seq<(HttpReply, Timestamp)>,
)
    ensures
        ({
            let trace = spec_creation_run(spec_create_account(client, auth), replies);
            let chain = seq![Endpoint::XboxLive, Endpoint::Xsts, Endpoint::Minecraft];
            &&& trace.calls.len() <= 3
            &&& trace.calls == chain.take(trace.calls.len() as int)
            &&& trace.outcome matches Some(Ok(account)) ==> trace.calls == chain
                && account.microsoft_token.refresh_token == auth.refresh_token
            &&& trace.calls.len() > 0 ==> (trace.outcome matches Some(Err(error))
                ==> spec_stopped_at(
                error,
                trace.calls.last(),
                spec_endpoint_after(trace.calls.last()),
            ))
        }),
{
    let chain = seq![Endpoint::XboxLive, Endpoint::Xsts, Endpoint::Minecraft];
    match spec_create_account(client, auth) {
        StepView::Done(outcome) => {
            let trace = spec_creation_run(spec_create_account(client, auth), replies);
            assert(trace.calls =~= chain.take(0));
        },
        StepView::Call { run, request } => {
            lemma_creation_run_from(run, request, replies);
        },
    }
}

/// A bundle that a run has built holds a session token that is good until
/// its lifetime has passed since its arrival: its expiry is the instant of
/// the arrival, moved by the lifetime.
pub proof fn lemma_created_session_expires_after_its_lifetime(
    run: AccountCreation,
    reply: HttpReply,
    now: Timestamp,
)
    requires
        run.awaiting is Minecraft,
        spec_creation_on_reply(run, reply, now) matches StepView::Done(Ok(_)),
    ensures
        spec_minecraft_result(reply) matches Ok(session) && spec_creation_on_reply(run, reply, now)
            matches StepView::Done(Ok(account)) && account.minecraft_save.token
            == session.access_token && account.minecraft_save.expires.seconds == now.seconds
            + session.expires_in && account.minecraft_save.expires.nanos == now.nanos,
{
}

} // verus!
