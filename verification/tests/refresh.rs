use minecraft_rs::authentication::account::{
    AccountLoad, AccountLoadError, AccountSave, ExchangeError, LoadStage, MicrosoftToken,
    MinecraftSave, XboxUserSave,
};
use minecraft_rs::authentication::error::InternalError;
use minecraft_rs::authentication::microsoft::{AuthorizationTokenResponse, InnerMicrosoftError};
use minecraft_rs::authentication::minecraft::MinecraftLoginResponse;
use minecraft_rs::authentication::transport::{Endpoint, HttpReply, HttpRequest, Payload, Step};
use minecraft_rs::authentication::utils::time::Timestamp;
use minecraft_rs::authentication::xbox::{XboxDisplayClaims, XboxLiveResponse, XUI};
use minecraft_rs::authentication::{AuthProperties, AuthenticationClient};

fn refresh_client() -> AuthenticationClient {
    AuthenticationClient::new(AuthProperties { azura_microsoft_client: "client-1".to_string() })
}

fn refresh_bundle(console_expires: Timestamp, session_expires: Timestamp) -> AccountSave {
    AccountSave {
        microsoft_token: MicrosoftToken { refresh_token: "OLD-REFRESH".to_string() },
        xbox: XboxUserSave { expires: console_expires, token: "OLD-XBL".to_string(), user_hash: "OLD-UHS".to_string() },
        minecraft_save: MinecraftSave { expires: session_expires, token: "OLD-MC".to_string() },
    }
}

fn refresh_token_reply() -> HttpReply {
    HttpReply::Answered {
        status: 200,
        payload: Payload::Token(AuthorizationTokenResponse {
            token_type: "Bearer".to_string(),
            scope: "XboxLive.signin".to_string(),
            access_token: "NEW-ACCESS".to_string(),
            refresh_token: "NEW-REFRESH".to_string(),
            expires_in: 3600,
        }),
    }
}

fn refresh_broker_reply(token: &str, hash: &str, not_after: Timestamp) -> HttpReply {
    HttpReply::Answered {
        status: 200,
        payload: Payload::XboxLive(XboxLiveResponse {
            issue_instance: Timestamp::new(0, 0),
            not_after,
            token: token.to_string(),
            display_claims: XboxDisplayClaims { x_ui: vec![XUI { user_hash: hash.to_string() }] },
        }),
    }
}

fn refresh_session_reply(token: &str, expires_in: i64) -> HttpReply {
    HttpReply::Answered {
        status: 200,
        payload: Payload::MinecraftLogin(MinecraftLoginResponse {
            access_token: token.to_string(),
            token_type: "Bearer".to_string(),
            expires_in,
            username: "u".to_string(),
            roles: vec![],
        }),
    }
}

/// Runs the refresh with the answers at hand, and tells the calls that were made.
fn refresh_drive(
    account: &mut AccountSave,
    now: Timestamp,
    replies: Vec<HttpReply>,
) -> (Vec<(LoadStage, HttpRequest)>, Option<Result<bool, ExchangeError>>) {
    let mut calls = Vec::new();
    let mut step: Step<AccountLoad, Result<bool, ExchangeError>> = refresh_client().load_account(account, now);
    let mut replies = replies.into_iter();
    loop {
        match step {
            Step::Done(outcome) => return (calls, Some(outcome)),
            Step::Call { run, request } => {
                calls.push((run.awaiting, request));
                match replies.next() {
                    Some(reply) => step = run.on_reply(account, reply, now),
                    None => return (calls, None),
                }
            }
        }
    }
}

#[test]
fn ensure_fresh_with_a_good_session_makes_no_call() {
    let now = Timestamp::new(1_700_000_000, 0);
    for session_expires in [Timestamp::new(1_700_000_000, 1), Timestamp::new(1_700_000_001, 0), Timestamp::new(i64::MAX, 0)] {
        // whatever the console identity: expired or not
        for console_expires in [Timestamp::new(0, 0), Timestamp::new(1_800_000_000, 0)] {
            let mut account = refresh_bundle(console_expires, session_expires);
            let before = account.clone();
            let (calls, outcome) = refresh_drive(&mut account, now, vec![refresh_token_reply()]);
            assert_eq!(calls.len(), 0);
            assert!(matches!(outcome, Some(Ok(false))));
            assert_eq!(account, before);
        }
    }
}

#[test]
fn ensure_fresh_with_a_stale_session_makes_two_calls() {
    let now = Timestamp::new(1_700_000_000, 0);
    // the session expires at `now` exactly: it is stale
    let mut account = refresh_bundle(Timestamp::new(1_700_000_000, 1), now);
    let (calls, outcome) = refresh_drive(
        &mut account,
        now,
        vec![
            refresh_broker_reply("XSTS-TOKEN", "XSTS-UHS", Timestamp::new(1_700_086_400, 0)),
            refresh_session_reply("NEW-MC", 86400),
        ],
    );
    assert!(matches!(outcome, Some(Ok(true))));
    assert_eq!(calls.len(), 2);
    assert_eq!(calls[0].0, LoadStage::Xsts);
    assert_eq!(calls[0].0.endpoint(), Endpoint::Xsts);
    assert_eq!(calls[0].1.url, "https://xsts.auth.xboxlive.com/xsts/authorize");
    assert_eq!(
        calls[0].1.body,
        "{\"Properties\":{\"SandboxId\":\"RETAIL\",\"UserTokens\":[\"OLD-XBL\"]},\"RelyingParty\":\"rp://api.minecraftservices.com/\",\"TokenType\":\"JWT\"}"
    );
    assert_eq!(calls[1].0, LoadStage::Minecraft);
    assert_eq!(calls[1].1.url, "https://api.minecraftservices.com/authentication/login_with_xbox");
    assert_eq!(calls[1].1.body, "{\"identityToken\":\"XBL3.0 x=XSTS-UHS;XSTS-TOKEN\"}");
    assert_eq!(account.microsoft_token.refresh_token, "OLD-REFRESH");
    assert_eq!(account.xbox, refresh_bundle(Timestamp::new(1_700_000_000, 1), now).xbox);
    assert_eq!(
        account.minecraft_save,
        MinecraftSave { expires: Timestamp::new(1_700_086_400, 0), token: "NEW-MC".to_string() }
    );
}

#[test]
fn ensure_fresh_with_a_stale_bundle_makes_four_calls_in_order() {
    let now = Timestamp::new(1_700_000_000, 250);
    let mut account = refresh_bundle(Timestamp::new(1_700_000_000, 250), Timestamp::new(1_600_000_000, 0));
    let (calls, outcome) = refresh_drive(
        &mut account,
        now,
        vec![
            refresh_token_reply(),
            refresh_broker_reply("NEW-XBL", "NEW-UHS", Timestamp::new(1_701_209_600, 0)),
            refresh_broker_reply("XSTS-TOKEN", "XSTS-UHS", Timestamp::new(1_700_086_400, 0)),
            refresh_session_reply("NEW-MC", 86400),
        ],
    );
    assert!(matches!(outcome, Some(Ok(true))));
    let stages: Vec<LoadStage> = calls.iter().map(|call| call.0).collect();
    assert_eq!(stages, vec![LoadStage::RefreshToken, LoadStage::XboxLive, LoadStage::Xsts, LoadStage::Minecraft]);
    assert_eq!(calls[0].1.url, "https://login.microsoftonline.com/consumers/oauth2/v2.0/token");
    assert_eq!(
        calls[0].1.body,
        "client_id=client-1&scope=XboxLive.signin%20offline_access&refresh_token=OLD-REFRESH&grant_type=refresh_token"
    );
    assert_eq!(calls[1].1.url, "https://user.auth.xboxlive.com/user/authenticate");
    assert_eq!(
        calls[1].1.body,
        "{\"Properties\":{\"AuthMethod\":\"RPS\",\"RpsTicket\":\"d=NEW-ACCESS\",\"SiteName\":\"user.auth.xboxlive.com\"},\"RelyingParty\":\"http://auth.xboxlive.com\",\"TokenType\":\"JWT\"}"
    );
    assert_eq!(
        calls[2].1.body,
        "{\"Properties\":{\"SandboxId\":\"RETAIL\",\"UserTokens\":[\"NEW-XBL\"]},\"RelyingParty\":\"rp://api.minecraftservices.com/\",\"TokenType\":\"JWT\"}"
    );
    assert_eq!(calls[3].1.body, "{\"identityToken\":\"XBL3.0 x=XSTS-UHS;XSTS-TOKEN\"}");
    assert_eq!(
        account,
        AccountSave {
            microsoft_token: MicrosoftToken { refresh_token: "NEW-REFRESH".to_string() },
            xbox: XboxUserSave {
                expires: Timestamp::new(1_701_209_600, 0),
                token: "NEW-XBL".to_string(),
                user_hash: "NEW-UHS".to_string(),
            },
            minecraft_save: MinecraftSave { expires: Timestamp::new(1_700_086_400, 250), token: "NEW-MC".to_string() },
        }
    );
}

#[test]
fn ensure_fresh_twice_in_succession_calls_at_most_once() {
    let now = Timestamp::new(1_700_000_000, 0);
    let mut account = refresh_bundle(Timestamp::new(1_800_000_000, 0), Timestamp::new(1_600_000_000, 0));
    let (calls, outcome) = refresh_drive(
        &mut account,
        now,
        vec![
            refresh_broker_reply("XSTS-TOKEN", "XSTS-UHS", Timestamp::new(1_700_086_400, 0)),
            refresh_session_reply("NEW-MC", 86400),
        ],
    );
    assert!(matches!(outcome, Some(Ok(true))));
    assert_eq!(calls.len(), 2);
    let (calls, outcome) = refresh_drive(&mut account, now, vec![]);
    assert_eq!(calls.len(), 0);
    assert!(matches!(outcome, Some(Ok(false))));
}

#[test]
fn ensure_fresh_stops_at_the_first_failure_and_keeps_what_it_has() {
    let now = Timestamp::new(1_700_000_000, 0);
    let mut account = refresh_bundle(Timestamp::new(1_600_000_000, 0), Timestamp::new(1_600_000_000, 0));
    let (calls, outcome) = refresh_drive(
        &mut account,
        now,
        vec![refresh_token_reply(), HttpReply::Answered { status: 500, payload: Payload::Unread }, refresh_session_reply("X", 1)],
    );
    assert_eq!(calls.len(), 2);
    match outcome {
        Some(Err(ExchangeError { endpoint, error })) => {
            assert_eq!(endpoint, Endpoint::XboxLive);
            assert!(matches!(error, AccountLoadError::InternalError(InternalError::BadResponse(500))));
        }
        other => panic!("{other:?}"),
    }
    // the refresh token has rotated and is kept; the rest is as it was
    assert_eq!(account.microsoft_token.refresh_token, "NEW-REFRESH");
    assert_eq!(account.xbox.token, "OLD-XBL");
    assert_eq!(account.minecraft_save.token, "OLD-MC");
}

#[test]
fn ensure_fresh_reports_a_rejected_refresh_token() {
    let now = Timestamp::new(1_700_000_000, 0);
    let mut account = refresh_bundle(Timestamp::new(1_600_000_000, 0), Timestamp::new(1_600_000_000, 0));
    let before = account.clone();
    let rejected = HttpReply::Answered {
        status: 400,
        payload: Payload::MicrosoftError(InnerMicrosoftError {
            error_codes: vec![70000],
            error: "invalid_grant".to_string(),
            error_description: "expired".to_string(),
            timestamp: "".to_string(),
            trace_id: "".to_string(),
            correlation_id: "".to_string(),
        }),
    };
    let (calls, outcome) = refresh_drive(&mut account, now, vec![rejected]);
    assert_eq!(calls.len(), 1);
    assert_eq!(calls[0].0, LoadStage::RefreshToken);
    match outcome {
        Some(Err(ExchangeError { endpoint, error })) => {
            assert_eq!(endpoint, Endpoint::Token);
            assert!(matches!(error, AccountLoadError::MicrosoftError(ref rejection) if rejection.inner.error == "invalid_grant"));
        }
        other => panic!("{other:?}"),
    }
    assert_eq!(account, before);
}

#[test]
fn load_stage_names_its_endpoint() {
    assert_eq!(LoadStage::RefreshToken.endpoint(), Endpoint::Token);
    assert_eq!(LoadStage::XboxLive.endpoint(), Endpoint::XboxLive);
    assert_eq!(LoadStage::Xsts.endpoint(), Endpoint::Xsts);
    assert_eq!(LoadStage::Minecraft.endpoint(), Endpoint::Minecraft);
}
