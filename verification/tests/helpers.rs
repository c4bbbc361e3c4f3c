//! The small public building blocks of requests and responses.

use questrade::client::{
    account_path_string, add_optional_time, list_response, read_server_time,
};
use questrade::decode::read_list_member;
use questrade::request::{push_pair, status_is_success};
use questrade::{
    Account, ApiError, Currency, DateTime, Json, Method, Number, Request, RequestError, Response,
    SearchEquitySymbol, TransportError,
};

fn bare(url: &str) -> Request {
    Request { method: Method::Get, url: url.to_string(), query: vec![], headers: vec![] }
}

#[test]
fn account_paths() {
    assert_eq!(account_path_string("26598145", "/orders"), "accounts/26598145/orders");
    assert_eq!(account_path_string("", ""), "accounts/");
    assert_eq!(account_path_string("a b", "/x/y"), "accounts/a b/x/y");
}

#[test]
fn pairs_are_appended_in_order() {
    let mut pairs = vec![];
    push_pair(&mut pairs, "a", "1".to_string());
    push_pair(&mut pairs, "a", "2".to_string());
    push_pair(&mut pairs, "", "".to_string());
    assert_eq!(
        pairs,
        vec![
            ("a".to_string(), "1".to_string()),
            ("a".to_string(), "2".to_string()),
            ("".to_string(), "".to_string()),
        ]
    );
}

#[test]
fn query_parameters_are_appended_in_order() {
    let mut request = bare("https://x/v1/time");
    request.add_query("b", "2".to_string());
    request.add_query("a", "1".to_string());
    assert_eq!(request.url, "https://x/v1/time");
    assert_eq!(request.method, Method::Get);
    assert_eq!(request.headers, vec![]);
    assert_eq!(
        request.query,
        vec![("b".to_string(), "2".to_string()), ("a".to_string(), "1".to_string())]
    );
}

#[test]
fn optional_time_parameter() {
    assert_eq!(add_optional_time(bare("u"), "startTime", None), Ok(bare("u")));
    let mut expected = bare("u");
    expected.query.push(("startTime".to_string(), "1970-01-01T00:00:01.500+00:00".to_string()));
    assert_eq!(
        add_optional_time(bare("u"), "startTime", Some(DateTime { secs: 1, nanos: 500_000_000 })),
        Ok(expected)
    );
    assert_eq!(
        add_optional_time(bare("u"), "endTime", Some(DateTime { secs: i64::MIN, nanos: 0 })),
        Err(ApiError::InvalidTypeError("endTime", "DateTime"))
    );
}

#[test]
fn success_is_200_to_299() {
    for status in 0..=u16::MAX {
        assert_eq!(status_is_success(status), (200..300).contains(&status));
    }
}

#[test]
fn list_in_an_envelope() {
    let body = r#"{"symbols": [{"symbol": "V", "symbolId": 40825, "description": "VISA INC",
        "securityType": "Stock", "listingExchange": "", "isTradable": true, "isQuotable": true,
        "currency": "CAD"}]}"#;
    let got =
        list_response::<SearchEquitySymbol>(Ok(Response { status: 200, body: body.to_string() }), "symbols")
            .unwrap();
    assert_eq!(got.len(), 1);
    assert_eq!(got[0].listing_exchange, questrade::ListingExchange::Absent);
    assert_eq!(got[0].currency, Currency::CAD);
    assert_eq!(
        list_response::<Account>(Ok(Response { status: 200, body: body.to_string() }), "accounts"),
        Err(RequestError::Api(ApiError::MissingFieldError("accounts")))
    );
    assert_eq!(
        list_response::<Account>(Ok(Response { status: 403, body: body.to_string() }), "symbols"),
        Err(RequestError::Api(ApiError::NotAuthenticatedError(403)))
    );
    assert_eq!(
        list_response::<Account>(Err(TransportError::Decode), "symbols"),
        Err(RequestError::Transport(TransportError::Decode))
    );
}

#[test]
fn list_member() {
    assert_eq!(
        read_list_member::<Account>(None, "accounts"),
        Err(ApiError::MissingFieldError("accounts"))
    );
    assert_eq!(
        read_list_member::<Account>(Some(&Json::Number(Number::PosInt(1))), "accounts"),
        Err(ApiError::InvalidTypeError("accounts", "array"))
    );
    assert_eq!(read_list_member::<Account>(Some(&Json::Array(vec![])), "accounts"), Ok(vec![]));
    assert_eq!(
        read_list_member::<Account>(Some(&Json::Array(vec![Json::Null])), "accounts"),
        Err(ApiError::InvalidTypeError("Account", "object"))
    );
}

#[test]
fn server_time_member() {
    let j = Json::Object(vec![
        ("zone".to_string(), Json::Null),
        ("time".to_string(), Json::String("2014-10-24T12:14:42.730000-04:00".to_string())),
    ]);
    assert_eq!(read_server_time(&j), Ok(DateTime { secs: 1414167282, nanos: 730_000_000 }));
    assert_eq!(
        read_server_time(&Json::Object(vec![])),
        Err(ApiError::MissingFieldError("time"))
    );
    assert_eq!(
        read_server_time(&Json::Null),
        Err(ApiError::InvalidTypeError("response", "object"))
    );
}
