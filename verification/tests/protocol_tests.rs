use snatch::envelope::{parse_envelope, EnvelopeError};
use snatch::gateway::{classify_codes, route, CallPhase, CallResult, Directive, GatewayOutcome};
use snatch::machine::CallFailure;
use snatch::payload::{create_order_payload, join, submit_order_payload};
use snatch::sign::{build, digest_str, u64_to_decimal, EndpointMeta};
use snatch::task::PurchaseTask;
use snatch::token_store::{Session, SessionError, TokenStore};
use snatch::Client;

fn meta() -> EndpointMeta {
    EndpointMeta {
        api: String::from("mtop.trade.order.create.h5"),
        version: String::from("4.0"),
    }
}

#[test]
fn signature_is_deterministic() {
    let a = build(&meta(), "tok123", 1_699_999_999_999, "{\"a\":1}");
    let b = build(&meta(), "tok123", 1_699_999_999_999, "{\"a\":1}");
    assert_eq!(a.sign, b.sign);
    assert_eq!(a.sign, 9040225847592923777u64);
    assert_eq!(a.timestamp_ms, 1_699_999_999_999);
    assert_eq!(a.app_key, "12574478");
    assert_eq!(a.api_version, "4.0");
    assert_eq!(a.data, "{\"a\":1}");
}

#[test]
fn single_character_changes_change_the_signature() {
    let base = build(&meta(), "t", 5, "p").sign;
    assert_eq!(base, 3210391497675413902u64);
    assert_ne!(build(&meta(), "u", 5, "p").sign, base);
    assert_ne!(build(&meta(), "t", 6, "p").sign, base);
    assert_ne!(build(&meta(), "t", 5, "q").sign, base);
}

#[test]
fn digest_has_its_pinned_values() {
    assert_eq!(digest_str(""), 5381);
    assert_eq!(digest_str("abc"), 12098655225u64);
}

#[test]
fn decimal_rendering() {
    assert_eq!(u64_to_decimal(0), "0");
    assert_eq!(u64_to_decimal(7), "7");
    assert_eq!(u64_to_decimal(1000050), "1000050");
    assert_eq!(u64_to_decimal(u64::MAX), "18446744073709551615");
}

#[test]
fn payloads_are_canonical() {
    let p = create_order_payload("779", "223", "541", 2);
    assert_eq!(p, "{\"itemId\":\"779\",\"performId\":\"223\",\"skuId\":\"541\",\"buyNum\":2}");
    let names = vec![String::from("alice"), String::from("bob")];
    let s = submit_order_payload("tok", &names);
    assert_eq!(s, "{\"orderToken\":\"tok\",\"buyerNames\":\"alice,bob\"}");
    assert_eq!(join(&names, ","), "alice,bob");
    assert_eq!(join(&Vec::new(), ","), "");
    assert_eq!(join(&vec![String::from("solo")], ","), "solo");
}

#[test]
fn token_store_extracts_leading_segment() {
    let store =
        TokenStore::new("cna=abc;_m_h5_tk=7a51bfe4ddd_1699;_m_h5_tk_enc=xyz;").unwrap();
    assert_eq!(store.current(), "7a51bfe4ddd");
}

#[test]
fn token_store_without_token_field_is_invalid_session() {
    // no token-bearing field: construction fails before any network call
    let r = TokenStore::new("cna=abc;other=1;");
    assert!(matches!(r, Err(SessionError::InvalidSession)));
}

#[test]
fn token_store_rotation_replaces_token() {
    let mut store = TokenStore::new("_m_h5_tk=oldtoken_1;").unwrap();
    assert_eq!(store.current(), "oldtoken");
    assert!(store.rotate("_m_h5_tk=newtoken_2;"));
    assert_eq!(store.current(), "newtoken");
    // a fragment without a token field leaves the store unchanged
    assert!(!store.rotate("cna=zz;"));
    assert_eq!(store.current(), "newtoken");
}

#[test]
fn token_runs_to_end_without_delimiter() {
    let store = TokenStore::new("_m_h5_tk=bare").unwrap();
    assert_eq!(store.current(), "bare");
}

#[test]
fn session_validity_follows_the_cookie_header() {
    let good = Session {
        cookie_header: String::from("cna=1;_m_h5_tk=tok_9;"),
        nickname: String::from("fan"),
    };
    assert!(good.is_valid());
    let store = TokenStore::from_session(&good).unwrap();
    assert_eq!(store.current(), "tok");
    let bad = Session {
        cookie_header: String::from("cna=1;"),
        nickname: String::from("fan"),
    };
    assert!(!bad.is_valid());
    assert!(matches!(
        TokenStore::from_session(&bad),
        Err(SessionError::InvalidSession)
    ));
}

#[test]
fn classification_covers_the_taxonomy() {
    let one = |c: &str| classify_codes(&vec![String::from(c)]);
    assert_eq!(one("SUCCESS::ok"), GatewayOutcome::Success);
    assert_eq!(one("FAIL_SYS_SESSION_EXPIRED::expired"), GatewayOutcome::SessionExpired);
    assert_eq!(one("FAIL_SYS_TRAFFIC_LIMIT::slow down"), GatewayOutcome::RateLimited);
    assert_eq!(one("FAIL_BIZ_SOLD_OUT::gone"), GatewayOutcome::SoldOut);
    assert_eq!(one("FAIL_BIZ_EXHAUSTED::gone"), GatewayOutcome::SoldOut);
    assert_eq!(one("FAIL_SYS_ILLEGAL_ACCESS::sign"), GatewayOutcome::MalformedRequest);
    assert_eq!(one("SOMETHING_ELSE"), GatewayOutcome::Unknown);
    assert_eq!(classify_codes(&Vec::new()), GatewayOutcome::Unknown);
}

#[test]
fn session_expiry_rotates_once_then_gives_up() {
    // first exchange: rotate and replay
    assert!(matches!(
        route(CallPhase::First, GatewayOutcome::SessionExpired),
        Directive::RotateAndRetry
    ));
    // replayed exchange expired again: the session is gone
    assert!(matches!(
        route(CallPhase::Retried, GatewayOutcome::SessionExpired),
        Directive::Deliver { result: CallResult::Failed { failure: CallFailure::SessionInvalid } }
    ));
    // everything else never asks for a rotation
    assert!(matches!(
        route(CallPhase::First, GatewayOutcome::Success),
        Directive::Deliver { result: CallResult::Granted }
    ));
    assert!(matches!(
        route(CallPhase::First, GatewayOutcome::MalformedRequest),
        Directive::Deliver { result: CallResult::Failed { failure: CallFailure::Fatal } }
    ));
    for transient in [
        GatewayOutcome::RateLimited,
        GatewayOutcome::SoldOut,
        GatewayOutcome::TransportError,
        GatewayOutcome::Unknown,
    ] {
        assert!(matches!(
            route(CallPhase::Retried, transient),
            Directive::Deliver { result: CallResult::Failed { failure: CallFailure::Transient } }
        ));
    }
}

#[test]
fn envelope_parses_codes_and_payload() {
    let body = "{\"api\":\"mtop.trade.order.create.h5\",\"data\":{\"orderToken\":\"tk-77\",\"orderId\":\"oid-5\"},\"ret\":[\"SUCCESS::ok\"],\"v\":\"4.0\"}";
    let env = parse_envelope(body).unwrap();
    assert_eq!(env.outcome_codes, vec![String::from("SUCCESS::ok")]);
    assert_eq!(env.order_token, Some(String::from("tk-77")));
    assert_eq!(env.order_ref, Some(String::from("oid-5")));
    assert_eq!(classify_codes(&env.outcome_codes), GatewayOutcome::Success);
    let bare = parse_envelope("{\"ret\":[\"FAIL_BIZ_SOLD_OUT::gone\"]}").unwrap();
    assert_eq!(bare.order_token, None);
    assert_eq!(bare.order_ref, None);
}

#[test]
fn envelope_rejects_non_json() {
    assert!(matches!(parse_envelope("<html>busy</html>"), Err(EnvelopeError::NotJson)));
}

#[test]
fn envelope_without_ret_is_missing_outcome() {
    assert!(matches!(parse_envelope("{\"data\":{}}"), Err(EnvelopeError::MissingOutcome)));
    assert!(matches!(parse_envelope("{\"ret\":\"no\"}"), Err(EnvelopeError::MissingOutcome)));
    assert!(matches!(parse_envelope("{\"ret\":[1]}"), Err(EnvelopeError::MissingOutcome)));
}

#[test]
fn wait_target_formula() {
    let task = PurchaseTask {
        ticket_id: String::from("t"),
        perform_id: String::from("p"),
        sku_id: String::from("s"),
        quantity: 1,
        sale_time: 1_000_000,
        priority_window_minutes: 0,
        clock_offset_ms: 50,
        think_time_ms: 10,
        retry_count: 1,
        retry_interval_ms: 10,
        real_names: Vec::new(),
    };
    assert!(task.is_valid());
    assert_eq!(task.wait_target(), 1_000_050);
    let early = PurchaseTask { priority_window_minutes: 15, clock_offset_ms: -100, ..task };
    assert_eq!(early.wait_target(), 1_000_000 - 15 * 60_000 - 100);
}

#[test]
fn task_range_validation() {
    let mut task = PurchaseTask {
        ticket_id: String::from("t"),
        perform_id: String::from("p"),
        sku_id: String::from("s"),
        quantity: 4,
        sale_time: 0,
        priority_window_minutes: 60,
        clock_offset_ms: -100,
        think_time_ms: 10,
        retry_count: 10,
        retry_interval_ms: 1000,
        real_names: Vec::new(),
    };
    assert!(task.is_valid());
    task.quantity = 5;
    assert!(!task.is_valid());
    task.quantity = 1;
    task.retry_count = 0;
    assert!(!task.is_valid());
    task.retry_count = 1;
    task.think_time_ms = 9;
    assert!(!task.is_valid());
}

#[test]
fn client_keeps_its_webdriver_url() {
    let c = Client::new(String::from("http://localhost:9515"));
    assert_eq!(c.webdriver_url(), "http://localhost:9515");
}
