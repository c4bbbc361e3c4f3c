//! The requests that the client builds, and the text forms they rest on.

use chrono::{SecondsFormat, TimeZone, Utc};
use questrade::client::{add_range, add_time, numeral_strings, take_first};
use questrade::text::{decimal_string, trim_trailing_slashes};
use questrade::{
    ApiError, AuthenticationInfo, DateTime, Instant, Method, OrderStateFilter, Questrade, Request,
};

fn api() -> Questrade {
    Questrade::with_authentication(AuthenticationInfo {
        refresh_token: "refresh".to_string(),
        access_token: "access".to_string(),
        expires_at: Instant { secs: 0, nanos: 0 },
        api_server: "https://api05.iq.questrade.com".to_string(),
        is_demo: true,
    })
}

fn get(path: &str, query: &[(&str, &str)]) -> Request {
    Request {
        method: Method::Get,
        url: format!("https://api05.iq.questrade.com{}", path),
        query: query.iter().map(|(k, v)| (k.to_string(), v.to_string())).collect(),
        headers: vec![("authorization".to_string(), "Bearer access".to_string())],
    }
}

fn at(y: i32, mo: u32, d: u32, h: u32, mi: u32, s: u32) -> DateTime {
    let t = Utc.with_ymd_and_hms(y, mo, d, h, mi, s).unwrap();
    DateTime { secs: t.timestamp(), nanos: t.timestamp_subsec_nanos() }
}

#[test]
fn request_for_an_endpoint() {
    assert_eq!(api().get_request_builder("time"), Ok(get("/v1/time", &[])));
    assert_eq!(api().get_request_builder(""), Ok(get("/v1/", &[])));
    assert_eq!(api().time(), Ok(get("/v1/time", &[])));
    assert_eq!(
        Request::get("http://localhost:1234", "t0k3n", "accounts"),
        Request {
            method: Method::Get,
            url: "http://localhost:1234/v1/accounts".to_string(),
            query: vec![],
            headers: vec![("authorization".to_string(), "Bearer t0k3n".to_string())],
        }
    );
}

#[test]
fn activities_between_two_times() {
    assert_eq!(
        api().account_activity("26598145", at(2011, 2, 1, 0, 0, 0), at(2011, 2, 28, 23, 59, 59)),
        Ok(get(
            "/v1/accounts/26598145/activities",
            &[
                ("startTime", "2011-02-01T00:00:00+00:00"),
                ("endTime", "2011-02-28T23:59:59+00:00"),
            ]
        ))
    );
}

#[test]
fn orders_with_optional_parameters() {
    let start = Some(at(2014, 3, 31, 13, 38, 29));
    let end = Some(DateTime { secs: 1414108800, nanos: 120_000_000 });
    assert_eq!(
        api().account_orders("123456", start, None, None),
        Ok(get("/v1/accounts/123456/orders", &[("startTime", "2014-03-31T13:38:29+00:00")]))
    );
    assert_eq!(
        api().account_orders("123456", None, end, None),
        Ok(get("/v1/accounts/123456/orders", &[("endTime", "2014-10-24T00:00:00.120+00:00")]))
    );
    assert_eq!(
        api().account_orders("123456", start, end, Some(OrderStateFilter::Open)),
        Ok(get(
            "/v1/accounts/123456/orders",
            &[
                ("startTime", "2014-03-31T13:38:29+00:00"),
                ("endTime", "2014-10-24T00:00:00.120+00:00"),
                ("stateFilter", "Open"),
            ]
        ))
    );
    assert_eq!(
        api().account_orders("123456", None, None, Some(OrderStateFilter::All)),
        Ok(get("/v1/accounts/123456/orders", &[("stateFilter", "All")]))
    );
    assert_eq!(
        api().account_orders("123456", None, None, Some(OrderStateFilter::Closed)),
        Ok(get("/v1/accounts/123456/orders", &[("stateFilter", "Closed")]))
    );
}

#[test]
fn executions_with_optional_parameters() {
    let start = Some(at(2014, 3, 31, 13, 38, 29));
    let end = Some(at(2014, 4, 1, 0, 0, 0));
    assert_eq!(
        api().account_executions("26598145", start, end),
        Ok(get(
            "/v1/accounts/26598145/executions",
            &[
                ("startTime", "2014-03-31T13:38:29+00:00"),
                ("endTime", "2014-04-01T00:00:00+00:00"),
            ]
        ))
    );
    assert_eq!(
        api().account_executions("26598145", None, end),
        Ok(get("/v1/accounts/26598145/executions", &[("endTime", "2014-04-01T00:00:00+00:00")]))
    );
}

#[test]
fn a_time_without_a_date_is_refused() {
    let never = DateTime { secs: i64::MAX, nanos: 0 };
    let odd = DateTime { secs: 0, nanos: 2_000_000_000 };
    let now = at(2020, 1, 1, 0, 0, 0);
    assert_eq!(
        api().account_activity("1", never, now),
        Err(ApiError::InvalidTypeError("startTime", "DateTime"))
    );
    assert_eq!(
        api().account_activity("1", now, odd),
        Err(ApiError::InvalidTypeError("endTime", "DateTime"))
    );
    assert_eq!(
        api().account_orders("1", Some(never), Some(never), None),
        Err(ApiError::InvalidTypeError("startTime", "DateTime"))
    );
    assert_eq!(
        api().account_executions("1", None, Some(never)),
        Err(ApiError::InvalidTypeError("endTime", "DateTime"))
    );
    assert_eq!(never.to_rfc3339(), None);
    assert_eq!(never.to_json_text(), None);
    assert_eq!(odd.to_rfc3339(), None);
}

#[test]
fn range_helpers() {
    let request = get("/v1/x", &[]);
    assert_eq!(
        add_time(request.clone(), "startTime", Some("T".to_string())),
        Ok(get("/v1/x", &[("startTime", "T")]))
    );
    assert_eq!(
        add_time(request.clone(), "startTime", None),
        Err(ApiError::InvalidTypeError("startTime", "DateTime"))
    );
    assert_eq!(add_range(request.clone(), None, None), Ok(request));
}

#[test]
fn one_order_by_its_id() {
    assert_eq!(api().account_order("123456", 0), Ok(get("/v1/accounts/123456/orders/0", &[])));
    assert_eq!(
        api().account_order("123456", u32::MAX),
        Ok(get("/v1/accounts/123456/orders/4294967295", &[]))
    );
}

#[test]
fn first_or_absent() {
    assert_eq!(take_first::<u32>(vec![]), None);
    assert_eq!(take_first(vec![7]), Some(7));
    assert_eq!(take_first(vec![7, 8, 9]), Some(7));
}

#[test]
fn quotes_for_symbol_ids() {
    assert_eq!(api().market_quote(&[]), Ok(get("/v1/markets/quotes", &[("ids", "")])));
    assert_eq!(api().market_quote(&[8049]), Ok(get("/v1/markets/quotes", &[("ids", "8049")])));
    assert_eq!(
        api().market_quote(&[0, 10, 4294967295, 7]),
        Ok(get("/v1/markets/quotes", &[("ids", "0,10,4294967295,7")]))
    );
    assert_eq!(numeral_strings(&[3, 20, 100]), vec!["3", "20", "100"]);
}

#[test]
fn symbol_search_parameters() {
    assert_eq!(
        api().symbol_search("BMO", 25),
        Ok(get("/v1/symbols/search", &[("prefix", "BMO"), ("offset", "25")]))
    );
    assert_eq!(
        api().symbol_search("", u32::MAX),
        Ok(get("/v1/symbols/search", &[("prefix", ""), ("offset", "4294967295")]))
    );
}

#[test]
fn balances_and_positions_paths() {
    assert_eq!(api().account_balance("1"), Ok(get("/v1/accounts/1/balances", &[])));
    assert_eq!(api().account_positions("1"), Ok(get("/v1/accounts/1/positions", &[])));
}

#[test]
fn decimal_numerals() {
    for n in [0u32, 1, 9, 10, 11, 99, 100, 101, 1000, 65535, 1234567890, u32::MAX] {
        assert_eq!(decimal_string(n), n.to_string());
    }
}

#[test]
fn trailing_slashes() {
    for s in ["", "/", "//", "a", "a/", "a//", "/a", "/a/", "a/b", "a/b//", "\u{20ac}/", "/\u{20ac}"] {
        assert_eq!(trim_trailing_slashes(s), s.trim_end_matches('/'));
    }
}

#[test]
fn time_texts_are_chronos() {
    for (secs, nanos) in [
        (0i64, 0u32),
        (1414108800, 0),
        (1414108800, 120_000_000),
        (1414108800, 120_300_000),
        (1414108800, 120_300_001),
        (-1, 999_999_999),
        (253402300799, 0),
        (253402300800, 0),
        (-62167219200, 0),
        (-62167219201, 0),
        (1483228799, 1_500_000_000),
    ] {
        let theirs = chrono::DateTime::<Utc>::from_timestamp(secs, nanos).unwrap();
        let ours = DateTime { secs, nanos };
        assert_eq!(ours.to_rfc3339(), Some(theirs.to_rfc3339()));
        let text = theirs.to_rfc3339_opts(SecondsFormat::AutoSi, true);
        assert_eq!(ours.to_json_text(), Some(text.clone()));
        assert_eq!(DateTime::parse(&text), Some(ours));
        assert_eq!(DateTime::parse(&theirs.to_rfc3339()), Some(ours));
    }
}

#[test]
fn time_parsing() {
    assert_eq!(
        DateTime::parse("2014-10-23T20:03:41.636000-04:00"),
        Some(DateTime { secs: 1414109021, nanos: 636_000_000 })
    );
    assert_eq!(DateTime::parse("1970-01-01T00:00:00Z"), Some(DateTime { secs: 0, nanos: 0 }));
    assert_eq!(DateTime::parse("1970-01-01 00:00:00Z"), Some(DateTime { secs: 0, nanos: 0 }));
    assert_eq!(DateTime::parse("1970-01-01T01:00:00+01:00"), Some(DateTime { secs: 0, nanos: 0 }));
    assert_eq!(DateTime::parse("1970-01-01"), None);
    assert_eq!(DateTime::parse("1970-01-01T00:00:00"), None);
    assert_eq!(DateTime::parse("1970-13-01T00:00:00Z"), None);
    assert_eq!(DateTime::parse(""), None);
}
