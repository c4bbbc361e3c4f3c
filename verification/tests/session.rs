//! The token exchange, the session it yields, and the client's session slot.

use questrade::{
    get_url, ApiError, AuthenticationInfo, DateTime, FromJson, Instant, Json, Method, Number,
    OrderStateFilter, Questrade, Request, RequestError, Response, TokenResponse, TransportError,
};

fn exchange(refresh_token: &str, url: &str) -> Request {
    Request {
        method: Method::Post,
        url: url.to_string(),
        query: vec![
            ("grant_type".to_string(), "refresh_token".to_string()),
            ("refresh_token".to_string(), refresh_token.to_string()),
        ],
        headers: vec![
            ("content-length".to_string(), "0".to_string()),
            ("accept".to_string(), "application/json".to_string()),
        ],
    }
}

fn granted(api_server: &str, expires_in: u64) -> Result<Response, TransportError> {
    Ok(Response {
        status: 200,
        body: format!(
            "{{\"access_token\": \"C3lTUKuNQrAAmSD\", \"token_type\": \"Bearer\", \
             \"expires_in\": {}, \"refresh_token\": \"aSBe7wAAdx88QTbwut0tiu3SYic3ox8F\", \
             \"api_server\": \"{}\"}}",
            expires_in, api_server
        ),
    })
}

fn session(api_server: &str, expires_at: Instant, is_demo: bool) -> AuthenticationInfo {
    AuthenticationInfo {
        refresh_token: "aSBe7wAAdx88QTbwut0tiu3SYic3ox8F".to_string(),
        access_token: "C3lTUKuNQrAAmSD".to_string(),
        expires_at,
        api_server: api_server.to_string(),
        is_demo,
    }
}

#[test]
fn login_url_follows_the_practice_flag() {
    assert_eq!(get_url(true), "https://practicelogin.questrade.com/oauth2/token");
    assert_eq!(get_url(false), "https://login.questrade.com/oauth2/token");
}

#[test]
fn exchange_request_for_a_live_account() {
    assert_eq!(
        AuthenticationInfo::authenticate("my-token", false),
        exchange("my-token", "https://login.questrade.com/oauth2/token")
    );
    assert_eq!(
        AuthenticationInfo::refresh_access_token("my-token", false),
        exchange("my-token", "https://login.questrade.com/oauth2/token")
    );
}

#[test]
fn exchange_request_for_a_practice_account() {
    assert_eq!(
        AuthenticationInfo::authenticate("my-token", true),
        exchange("my-token", "https://practicelogin.questrade.com/oauth2/token")
    );
    assert_eq!(
        Questrade::new().authenticate("other", true),
        exchange("other", "https://practicelogin.questrade.com/oauth2/token")
    );
}

#[test]
fn refresh_keeps_token_and_practice_flag() {
    let demo = session("https://api01.iq.questrade.com", Instant { secs: 1, nanos: 0 }, true);
    assert_eq!(
        demo.refresh(),
        exchange(
            "aSBe7wAAdx88QTbwut0tiu3SYic3ox8F",
            "https://practicelogin.questrade.com/oauth2/token"
        )
    );
    let live = session("https://api01.iq.questrade.com", Instant { secs: 1, nanos: 0 }, false);
    assert_eq!(
        live.refresh(),
        exchange("aSBe7wAAdx88QTbwut0tiu3SYic3ox8F", "https://login.questrade.com/oauth2/token")
    );
}

#[test]
fn session_expires_after_the_reported_lifetime() {
    let received_at = Instant { secs: 100, nanos: 7 };
    assert_eq!(
        AuthenticationInfo::from_response(
            granted("https://api01.iq.questrade.com/", 1800),
            false,
            received_at
        ),
        Ok(session("https://api01.iq.questrade.com", Instant { secs: 1900, nanos: 7 }, false))
    );
}

#[test]
fn server_url_loses_its_trailing_slashes() {
    let at = Instant { secs: 0, nanos: 0 };
    for sent in [
        "https://api01.iq.questrade.com",
        "https://api01.iq.questrade.com/",
        "https://api01.iq.questrade.com///",
    ] {
        let got = AuthenticationInfo::from_response(granted(sent, 0), true, at).unwrap();
        assert_eq!(got.api_server, "https://api01.iq.questrade.com");
        assert_eq!(got.expires_at, at);
        assert!(got.is_demo);
    }
    let got = AuthenticationInfo::from_response(granted("///", 0), true, at).unwrap();
    assert_eq!(got.api_server, "");
    let got = AuthenticationInfo::from_response(granted("", 0), true, at).unwrap();
    assert_eq!(got.api_server, "");
    let got = AuthenticationInfo::from_response(granted("a/b/", 0), true, at).unwrap();
    assert_eq!(got.api_server, "a/b");
    let got = AuthenticationInfo::from_response(granted("h\u{e9}/\u{20ac}/", 0), true, at).unwrap();
    assert_eq!(got.api_server, "h\u{e9}/\u{20ac}");
}

#[test]
fn session_from_a_token_response() {
    let token = TokenResponse {
        refresh_token: "R".to_string(),
        access_token: "A".to_string(),
        expires_in: 5,
        api_server: "https://x/".to_string(),
    };
    assert_eq!(
        AuthenticationInfo::from_token(token, true, Instant { secs: u64::MAX - 5, nanos: 1 }),
        Ok(AuthenticationInfo {
            refresh_token: "R".to_string(),
            access_token: "A".to_string(),
            expires_at: Instant { secs: u64::MAX, nanos: 1 },
            api_server: "https://x".to_string(),
            is_demo: true,
        })
    );
}

#[test]
fn lifetime_past_the_end_of_the_clock_is_refused() {
    let token = TokenResponse {
        refresh_token: "R".to_string(),
        access_token: "A".to_string(),
        expires_in: 6,
        api_server: "https://x/".to_string(),
    };
    assert_eq!(
        AuthenticationInfo::from_token(token, true, Instant { secs: u64::MAX - 5, nanos: 1 }),
        Err(ApiError::InvalidTypeError("expires_in", "lifetime"))
    );
    assert_eq!(
        AuthenticationInfo::from_response(
            granted("https://x", u64::MAX),
            false,
            Instant { secs: 1, nanos: 0 }
        ),
        Err(RequestError::Api(ApiError::InvalidTypeError("expires_in", "lifetime")))
    );
}

#[test]
fn instant_addition() {
    let at = Instant { secs: 10, nanos: 999_999_999 };
    assert_eq!(at.checked_add_secs(0), Some(at));
    assert_eq!(at.checked_add_secs(5), Some(Instant { secs: 15, nanos: 999_999_999 }));
    assert_eq!(
        at.checked_add_secs(u64::MAX - 10),
        Some(Instant { secs: u64::MAX, nanos: 999_999_999 })
    );
    assert_eq!(at.checked_add_secs(u64::MAX - 9), None);
}

#[test]
fn failed_exchange_is_not_reclassified() {
    let at = Instant { secs: 0, nanos: 0 };
    for status in [400u16, 401, 403, 500, 302, 199] {
        let outcome = Ok(Response { status, body: "{}".to_string() });
        assert_eq!(
            AuthenticationInfo::from_response(outcome, false, at),
            Err(RequestError::Transport(TransportError::Status(status)))
        );
    }
    let lost = TransportError::Other("connection reset".to_string());
    assert_eq!(
        AuthenticationInfo::from_response(Err(lost.clone()), false, at),
        Err(RequestError::Transport(lost))
    );
}

#[test]
fn token_response_needs_all_four_members() {
    let at = Instant { secs: 0, nanos: 0 };
    let body = |text: &str| Ok(Response { status: 200, body: text.to_string() });
    assert_eq!(
        AuthenticationInfo::from_response(body("{}"), false, at),
        Err(RequestError::Api(ApiError::MissingFieldError("refresh_token")))
    );
    assert_eq!(
        AuthenticationInfo::from_response(body(r#"{"refresh_token": "R"}"#), false, at),
        Err(RequestError::Api(ApiError::MissingFieldError("access_token")))
    );
    assert_eq!(
        AuthenticationInfo::from_response(
            body(r#"{"refresh_token": "R", "access_token": "A"}"#),
            false,
            at
        ),
        Err(RequestError::Api(ApiError::MissingFieldError("expires_in")))
    );
    assert_eq!(
        AuthenticationInfo::from_response(
            body(r#"{"refresh_token": "R", "access_token": "A", "expires_in": 1}"#),
            false,
            at
        ),
        Err(RequestError::Api(ApiError::MissingFieldError("api_server")))
    );
    assert_eq!(
        AuthenticationInfo::from_response(
            body(r#"{"refresh_token": "R", "access_token": "A", "expires_in": -1, "api_server": "s"}"#),
            false,
            at
        ),
        Err(RequestError::Api(ApiError::InvalidTypeError("expires_in", "u64")))
    );
    assert_eq!(
        AuthenticationInfo::from_response(
            body(r#"{"refresh_token": 5, "access_token": "A", "expires_in": 1, "api_server": "s"}"#),
            false,
            at
        ),
        Err(RequestError::Api(ApiError::InvalidTypeError("refresh_token", "string")))
    );
    assert_eq!(
        AuthenticationInfo::from_response(body("[]"), false, at),
        Err(RequestError::Api(ApiError::InvalidTypeError("TokenResponse", "object")))
    );
    assert_eq!(
        AuthenticationInfo::from_response(body("not json"), false, at),
        Err(RequestError::Transport(TransportError::Decode))
    );
}

#[test]
fn token_response_from_json() {
    let j = Json::Object(vec![
        ("api_server".to_string(), Json::String("https://x/".to_string())),
        ("expires_in".to_string(), Json::Number(Number::PosInt(1800))),
        ("access_token".to_string(), Json::String("A".to_string())),
        ("refresh_token".to_string(), Json::String("R".to_string())),
    ]);
    assert_eq!(
        TokenResponse::from_json(&j),
        Ok(TokenResponse {
            refresh_token: "R".to_string(),
            access_token: "A".to_string(),
            expires_in: 1800,
            api_server: "https://x/".to_string(),
        })
    );
}

#[test]
fn new_client_has_no_session() {
    let api = Questrade::new();
    assert_eq!(api.get_auth_info(), None);
    assert_eq!(api.get_active_auth(), Err(ApiError::NotAuthenticatedError(401)));
}

#[test]
fn client_hands_out_its_session() {
    let held = session("https://api01.iq.questrade.com", Instant { secs: 3, nanos: 4 }, true);
    let api = Questrade::with_authentication(held.clone());
    assert_eq!(api.get_auth_info(), Some(held.clone()));
    assert_eq!(api.get_active_auth(), Ok(held));
}

#[test]
fn expired_session_is_still_used() {
    let held = session("https://api01.iq.questrade.com", Instant { secs: 0, nanos: 0 }, false);
    let api = Questrade::with_authentication(held);
    assert!(api.time().is_ok());
}

#[test]
fn successful_exchange_replaces_the_session() {
    let old = AuthenticationInfo {
        refresh_token: "old-refresh".to_string(),
        access_token: "old-access".to_string(),
        expires_at: Instant { secs: 1, nanos: 1 },
        api_server: "https://old".to_string(),
        is_demo: false,
    };
    let mut api = Questrade::with_authentication(old);
    let at = Instant { secs: 50, nanos: 0 };
    assert_eq!(
        api.authenticate_response(granted("https://api07.iq.questrade.com/", 60), true, at),
        Ok(())
    );
    assert_eq!(
        api.get_auth_info(),
        Some(session("https://api07.iq.questrade.com", Instant { secs: 110, nanos: 0 }, true))
    );

    let mut fresh = Questrade::new();
    assert_eq!(fresh.authenticate_response(granted("https://a", 1), false, at), Ok(()));
    assert_eq!(
        fresh.get_auth_info(),
        Some(session("https://a", Instant { secs: 51, nanos: 0 }, false))
    );
}

#[test]
fn failed_exchange_keeps_the_session() {
    let old = session("https://old", Instant { secs: 1, nanos: 1 }, false);
    let mut api = Questrade::with_authentication(old.clone());
    let at = Instant { secs: 50, nanos: 0 };
    assert_eq!(
        api.authenticate_response(Ok(Response { status: 400, body: "".to_string() }), true, at),
        Err(RequestError::Transport(TransportError::Status(400)))
    );
    assert_eq!(api.get_auth_info(), Some(old.clone()));
    assert_eq!(
        api.authenticate_response(Ok(Response { status: 200, body: "{}".to_string() }), true, at),
        Err(RequestError::Api(ApiError::MissingFieldError("refresh_token")))
    );
    assert_eq!(api.get_auth_info(), Some(old));

    let mut fresh = Questrade::new();
    assert!(fresh
        .authenticate_response(Err(TransportError::Other("timeout".to_string())), true, at)
        .is_err());
    assert_eq!(fresh.get_auth_info(), None);
}

#[test]
fn without_a_session_every_endpoint_fails_with_401() {
    let api = Questrade::new();
    let denied = Err(ApiError::NotAuthenticatedError(401));
    let at = DateTime { secs: 0, nanos: 0 };
    let never = DateTime { secs: i64::MAX, nanos: 0 };
    assert_eq!(api.get_request_builder("anything"), denied);
    assert_eq!(api.accounts(), denied);
    assert_eq!(api.account_activity("1", at, at), denied);
    assert_eq!(api.account_activity("1", never, never), denied);
    assert_eq!(api.account_orders("1", None, None, None), denied);
    assert_eq!(api.account_orders("1", Some(never), Some(at), Some(OrderStateFilter::All)), denied);
    assert_eq!(api.account_order("1", 2), denied);
    assert_eq!(api.account_executions("1", Some(at), Some(never)), denied);
    assert_eq!(api.account_balance("1"), denied);
    assert_eq!(api.account_positions("1"), denied);
    assert_eq!(api.market_quote(&[1, 2]), denied);
    assert_eq!(api.symbol_search("V", 0), denied);
    assert_eq!(api.time(), denied);
}
