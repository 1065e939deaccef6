use minecraft_rs::authentication::error::{
    BadResponseOrError, InternalError, JsonFault, Provider, ResponseError,
};
use minecraft_rs::authentication::microsoft::{
    token_result, AuthorizationTokenResponse, InnerMicrosoftError, MicrosoftError,
};
use minecraft_rs::authentication::minecraft::{minecraft_result, MinecraftLoginResponse};
use minecraft_rs::authentication::transport::{
    expected_schema, is_redirection, is_server_error, is_success, Endpoint, HttpReply, Payload,
    Schema,
};
use minecraft_rs::authentication::utils::time::Timestamp;
use minecraft_rs::authentication::xbox::{
    xbox_live_result, XSTSError, XSTSErrorResponse, XboxDisplayClaims, XboxLiveResponse, XUI,
};

fn reply_token() -> AuthorizationTokenResponse {
    AuthorizationTokenResponse {
        token_type: "Bearer".to_string(),
        scope: "XboxLive.signin".to_string(),
        access_token: "ACCESS".to_string(),
        refresh_token: "REFRESH".to_string(),
        expires_in: 3600,
    }
}

fn reply_microsoft_error() -> InnerMicrosoftError {
    InnerMicrosoftError {
        error_codes: vec![70000],
        error: "invalid_grant".to_string(),
        error_description: "The grant is expired".to_string(),
        timestamp: "2024-01-01 00:00:00Z".to_string(),
        trace_id: "t".to_string(),
        correlation_id: "c".to_string(),
    }
}

fn reply_xsts_error() -> XSTSErrorResponse {
    XSTSErrorResponse {
        identity: "0".to_string(),
        message: "No Xbox account".to_string(),
        redirect: "https://start.ui.xboxlive.com/CreateAccount".to_string(),
        error_code: "2148916233".to_string(),
    }
}

fn reply_xbox() -> XboxLiveResponse {
    XboxLiveResponse {
        issue_instance: Timestamp::new(100, 0),
        not_after: Timestamp::new(200, 0),
        token: "XBL".to_string(),
        display_claims: XboxDisplayClaims { x_ui: vec![XUI { user_hash: "HASH".to_string() }] },
    }
}

fn reply_session() -> MinecraftLoginResponse {
    MinecraftLoginResponse {
        access_token: "MC".to_string(),
        token_type: "Bearer".to_string(),
        expires_in: 86400,
        username: "uuid".to_string(),
        roles: vec![],
    }
}

#[test]
fn status_classes_have_exact_bounds() {
    for (status, success, redirection, server) in [
        (100u16, false, false, false),
        (199, false, false, false),
        (200, true, false, false),
        (204, true, false, false),
        (299, true, false, false),
        (300, false, true, false),
        (399, false, true, false),
        (400, false, false, false),
        (401, false, false, false),
        (499, false, false, false),
        (500, false, false, true),
        (599, false, false, true),
        (600, false, false, false),
        (0, false, false, false),
        (u16::MAX, false, false, false),
    ] {
        assert_eq!(is_success(status), success, "{status}");
        assert_eq!(is_redirection(status), redirection, "{status}");
        assert_eq!(is_server_error(status), server, "{status}");
    }
}

#[test]
fn expected_schema_follows_endpoint_and_status() {
    assert_eq!(expected_schema(Endpoint::Token, 200), Schema::Token);
    assert_eq!(expected_schema(Endpoint::DeviceCode, 200), Schema::DeviceCode);
    assert_eq!(expected_schema(Endpoint::XboxLive, 200), Schema::XboxLive);
    assert_eq!(expected_schema(Endpoint::Xsts, 201), Schema::XboxLive);
    assert_eq!(expected_schema(Endpoint::Minecraft, 200), Schema::MinecraftLogin);
    assert_eq!(expected_schema(Endpoint::Token, 400), Schema::MicrosoftError);
    assert_eq!(expected_schema(Endpoint::DeviceCode, 401), Schema::MicrosoftError);
    assert_eq!(expected_schema(Endpoint::XboxLive, 401), Schema::XstsError);
    assert_eq!(expected_schema(Endpoint::Xsts, 403), Schema::XstsError);
    assert_eq!(expected_schema(Endpoint::Minecraft, 403), Schema::Nothing);
    for endpoint in [Endpoint::Token, Endpoint::DeviceCode, Endpoint::XboxLive, Endpoint::Xsts, Endpoint::Minecraft] {
        assert_eq!(expected_schema(endpoint, 500), Schema::Nothing);
        assert_eq!(expected_schema(endpoint, 503), Schema::Nothing);
        assert_eq!(expected_schema(endpoint, 302), Schema::Nothing);
    }
}

#[test]
fn into_result_hands_a_success_body_on() {
    let reply = HttpReply::Answered { status: 200, payload: Payload::Token(reply_token()) };
    match reply.into_result::<MicrosoftError>() {
        Ok(Ok(Payload::Token(token))) => assert_eq!(token.access_token, "ACCESS"),
        other => panic!("{other:?}"),
    }
}

#[test]
fn into_result_reads_a_rejection_with_its_status() {
    let reply = HttpReply::Answered { status: 400, payload: Payload::MicrosoftError(reply_microsoft_error()) };
    match reply.into_result::<MicrosoftError>() {
        Ok(Err(rejection)) => {
            assert_eq!(rejection.status_code(), 400);
            assert_eq!(rejection.code(), "invalid_grant");
            assert_eq!(rejection.description(), "The grant is expired");
            assert_eq!(MicrosoftError::provider(), Provider::Microsoft);
        }
        other => panic!("{other:?}"),
    }
    let reply = HttpReply::Answered { status: 401, payload: Payload::XstsError(reply_xsts_error()) };
    match reply.into_result::<XSTSError>() {
        Ok(Err(rejection)) => {
            assert_eq!(rejection.status_code(), 401);
            assert_eq!(rejection.code(), "2148916233");
            assert_eq!(rejection.description(), "No Xbox account");
            assert_eq!(XSTSError::provider(), Provider::XboxLive);
        }
        other => panic!("{other:?}"),
    }
}

#[test]
fn into_result_never_reads_the_body_of_a_server_fault() {
    for payload in [
        Payload::Unread,
        Payload::MicrosoftError(reply_microsoft_error()),
        Payload::Token(reply_token()),
        Payload::Malformed("eof".to_string()),
    ] {
        let reply = HttpReply::Answered { status: 503, payload };
        assert!(matches!(reply.into_result::<MicrosoftError>(), Err(InternalError::BadResponse(503))));
    }
}

#[test]
fn into_result_flags_a_redirection() {
    for payload in [Payload::Unread, Payload::MicrosoftError(reply_microsoft_error())] {
        let reply = HttpReply::Answered { status: 302, payload };
        assert!(matches!(reply.into_result::<MicrosoftError>(), Err(InternalError::Redirection(302))));
    }
    assert!(matches!(
        minecraft_result(HttpReply::Answered { status: 307, payload: Payload::Unread }),
        Err(InternalError::Redirection(307))
    ));
}

#[test]
fn into_result_takes_an_undecodable_rejection_for_a_decode_failure() {
    let reply = HttpReply::Answered { status: 400, payload: Payload::Malformed("expected value at line 1".to_string()) };
    assert!(matches!(
        reply.into_result::<MicrosoftError>(),
        Err(InternalError::JSONError(JsonFault::Malformed(message))) if message == "expected value at line 1"
    ));
    let reply = HttpReply::Answered { status: 400, payload: Payload::XstsError(reply_xsts_error()) };
    assert!(matches!(reply.into_result::<MicrosoftError>(), Err(InternalError::JSONError(JsonFault::WrongSchema))));
    let reply = HttpReply::Answered { status: 400, payload: Payload::MicrosoftError(reply_microsoft_error()) };
    assert!(matches!(reply.into_result::<XSTSError>(), Err(InternalError::JSONError(JsonFault::WrongSchema))));
    let reply = HttpReply::Answered { status: 404, payload: Payload::Unread };
    assert!(matches!(reply.into_result::<XSTSError>(), Err(InternalError::JSONError(JsonFault::WrongSchema))));
}

#[test]
fn into_result_takes_no_answer_for_a_transport_failure() {
    assert!(matches!(
        HttpReply::Failed("dns".to_string()).into_result::<XSTSError>(),
        Err(InternalError::ReqwestError(message)) if message == "dns"
    ));
}

#[test]
fn token_result_wants_a_token_on_success() {
    assert!(matches!(
        token_result(HttpReply::Answered { status: 200, payload: Payload::Token(reply_token()) }),
        Ok(token) if token.refresh_token == "REFRESH"
    ));
    assert!(matches!(
        token_result(HttpReply::Answered { status: 200, payload: Payload::XboxLive(reply_xbox()) }),
        Err(BadResponseOrError::Error(InternalError::JSONError(JsonFault::WrongSchema)))
    ));
    assert!(matches!(
        token_result(HttpReply::Answered { status: 200, payload: Payload::Malformed("missing field".to_string()) }),
        Err(BadResponseOrError::Error(InternalError::JSONError(JsonFault::Malformed(message)))) if message == "missing field"
    ));
    assert!(matches!(
        token_result(HttpReply::Answered { status: 400, payload: Payload::MicrosoftError(reply_microsoft_error()) }),
        Err(BadResponseOrError::ResponseError(rejection)) if rejection.inner.error == "invalid_grant" && rejection.status_code == 400
    ));
}

#[test]
fn xbox_live_result_wants_a_broker_token_on_success() {
    assert!(matches!(
        xbox_live_result(HttpReply::Answered { status: 200, payload: Payload::XboxLive(reply_xbox()) }),
        Ok(granted) if granted.token == "XBL"
    ));
    assert!(matches!(
        xbox_live_result(HttpReply::Answered { status: 200, payload: Payload::Token(reply_token()) }),
        Err(BadResponseOrError::Error(InternalError::JSONError(JsonFault::WrongSchema)))
    ));
    assert!(matches!(
        xbox_live_result(HttpReply::Answered { status: 401, payload: Payload::XstsError(reply_xsts_error()) }),
        Err(BadResponseOrError::ResponseError(rejection)) if rejection.response.error_code == "2148916233" && rejection.status_code == 401
    ));
    assert!(matches!(
        xbox_live_result(HttpReply::Answered { status: 500, payload: Payload::XstsError(reply_xsts_error()) }),
        Err(BadResponseOrError::Error(InternalError::BadResponse(500)))
    ));
}

#[test]
fn minecraft_result_has_no_rejection_schema() {
    assert!(matches!(
        minecraft_result(HttpReply::Answered { status: 200, payload: Payload::MinecraftLogin(reply_session()) }),
        Ok(session) if session.access_token == "MC" && session.expires_in == 86400
    ));
    assert!(matches!(
        minecraft_result(HttpReply::Answered { status: 403, payload: Payload::Unread }),
        Err(InternalError::BadResponse(403))
    ));
    assert!(matches!(
        minecraft_result(HttpReply::Answered { status: 500, payload: Payload::MinecraftLogin(reply_session()) }),
        Err(InternalError::BadResponse(500))
    ));
    assert!(matches!(
        minecraft_result(HttpReply::Answered { status: 200, payload: Payload::Unread }),
        Err(InternalError::JSONError(JsonFault::WrongSchema))
    ));
    assert!(matches!(
        minecraft_result(HttpReply::Answered { status: 200, payload: Payload::Malformed("bad".to_string()) }),
        Err(InternalError::JSONError(JsonFault::Malformed(message))) if message == "bad"
    ));
    assert!(matches!(
        minecraft_result(HttpReply::Failed("timeout".to_string())),
        Err(InternalError::ReqwestError(message)) if message == "timeout"
    ));
}

#[test]
fn user_hash_is_that_of_the_first_claim() {
    let mut granted = reply_xbox();
    granted.display_claims.x_ui.push(XUI { user_hash: "SECOND".to_string() });
    assert_eq!(granted.get_user_hash(), Some(&"HASH".to_string()));
    assert_eq!(granted.get_user_hash_unsafe(), "HASH");
    granted.display_claims.x_ui.clear();
    assert_eq!(granted.get_user_hash(), None);
}
