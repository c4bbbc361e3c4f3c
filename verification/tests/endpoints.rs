//! Every endpoint, end to end: the request that the client builds and the
//! records that it reads from the server's answer.

use chrono::{FixedOffset, NaiveDate};
use questrade::{
    Account, AccountBalance, AccountBalances, AccountExecution, AccountOrder, AccountPosition,
    AccountStatus, AccountType, AuthenticationInfo, ClientAccountType, Currency, DateTime, Instant,
    ListingExchange, MarketQuote, Method, Number, OrderSide, OrderState, OrderTimeInForce,
    OrderType, Questrade, Request, Response, SearchEquitySymbol, SecurityType, TickType,
};

const SERVER: &str = "https://api01.iq.questrade.com";

fn get_api() -> Questrade {
    let auth_info = AuthenticationInfo {
        access_token: "mock-access-token".to_string(),
        api_server: SERVER.to_string(),
        refresh_token: "".to_string(),
        expires_at: Instant { secs: 0, nanos: 0 },
        is_demo: false,
    };

    Questrade::with_authentication(auth_info)
}

fn ok(body: &str) -> Result<Response, questrade::TransportError> {
    Ok(Response { status: 200, body: body.to_string() })
}

fn get(path: &str, query: &[(&str, &str)]) -> Request {
    Request {
        method: Method::Get,
        url: format!("{}{}", SERVER, path),
        query: query.iter().map(|(k, v)| (k.to_string(), v.to_string())).collect(),
        headers: vec![("authorization".to_string(), "Bearer mock-access-token".to_string())],
    }
}

fn whole(n: u64) -> Number {
    Number::PosInt(n)
}

fn num(x: f64) -> Number {
    Number::Float(serde_json::Number::from_f64(x).unwrap().to_string())
}

/// A wall-clock time four hours west of Greenwich.
fn edt(y: i32, mo: u32, d: u32, h: u32, mi: u32, s: u32, micro: u32) -> DateTime {
    let local = NaiveDate::from_ymd_opt(y, mo, d).unwrap().and_hms_micro_opt(h, mi, s, micro).unwrap();
    let at = local.and_local_timezone(FixedOffset::west_opt(4 * 3600).unwrap()).unwrap();
    DateTime { secs: at.timestamp(), nanos: at.timestamp_subsec_nanos() }
}

const ACCOUNTS: &str = r#"{
  "accounts": [
    {
      "type": "Margin",
      "number": "123456",
      "status": "Active",
      "isPrimary": false,
      "isBilling": false,
      "clientAccountType": "Joint"
    },
    {
      "type": "Cash",
      "number": "26598145",
      "status": "Active",
      "isPrimary": true,
      "isBilling": true,
      "clientAccountType": "Individual"
    }
  ],
  "userId": 3000124
}"#;

#[test]
fn accounts() {
    assert_eq!(get_api().accounts(), Ok(get("/v1/accounts", &[])));

    let result = Questrade::accounts_response(ok(ACCOUNTS));

    assert_eq!(
        result,
        Ok(vec![
            Account {
                account_type: AccountType::Margin,
                number: "123456".to_string(),
                status: AccountStatus::Active,
                is_primary: false,
                is_billing: false,
                client_account_type: ClientAccountType::Joint,
            },
            Account {
                account_type: AccountType::Cash,
                number: "26598145".to_string(),
                status: AccountStatus::Active,
                is_primary: true,
                is_billing: true,
                client_account_type: ClientAccountType::Individual,
            },
        ])
    );
}

const ORDER_173577870: &str = r#"{
      "id": 173577870,
      "symbol": "AAPL",
      "symbolId": 8049,
      "totalQuantity": 100,
      "openQuantity": 100,
      "filledQuantity": 0,
      "canceledQuantity": 0,
      "side": "Buy",
      "type": "Limit",
      "limitPrice": 500.95,
      "stopPrice": null,
      "isAllOrNone": false,
      "isAnonymous": false,
      "icebergQty": null,
      "minQuantity": null,
      "avgExecPrice": null,
      "lastExecPrice": null,
      "source": "TradingAPI",
      "timeInForce": "Day",
      "gtdDate": null,
      "state": "Canceled",
      "clientReasonStr": "",
      "chainId": 173577870,
      "creationTime": "2014-10-23T20:03:41.636000-04:00",
      "updateTime": "2014-10-23T20:03:42.890000-04:00",
      "notes": "",
      "primaryRoute": "AUTO",
      "secondaryRoute": "",
      "orderRoute": "LAMP",
      "venueHoldingOrder": "",
      "comissionCharged": 0,
      "exchangeOrderId": "XS173577870",
      "isSignificantShareHolder": false,
      "isInsider": false,
      "isLimitOffsetInDollar": false,
      "userId": 3000124,
      "placementCommission": null,
      "legs": [],
      "strategyType": "SingleLeg",
      "triggerStopPrice": null,
      "orderGroupId": 0,
      "orderClass": null,
      "mainChainId": 0
    }"#;

const ORDER_173567569: &str = r#"{
      "id": 173567569,
      "symbol": "XSP",
      "symbolId": 12873,
      "totalQuantity": 3,
      "openQuantity": null,
      "filledQuantity": null,
      "canceledQuantity": 0,
      "side": "Buy",
      "orderType": "Limit",
      "limitPrice": 35.05,
      "stopPrice": null,
      "isAllOrNone": false,
      "isAnonymous": false,
      "icebergQty": null,
      "minQuantity": null,
      "avgExecPrice": null,
      "lastExecPrice": null,
      "source": "QuestradeIQEdge",
      "timeInForce": "Day",
      "gtdDate": null,
      "state": "Replaced",
      "rejectionReason": "",
      "chainId": 173567569,
      "creationTime": "2015-08-12T11:02:37.086000-04:00",
      "updateTime": "2015-08-12T11:02:41.241000-04:00",
      "notes": "",
      "primaryRoute": "AUTO",
      "secondaryRoute": "AUTO",
      "orderRoute": "ITSR",
      "venueHoldingOrder": "",
      "comissionCharged": null,
      "exchangeOrderId": "XS173577869",
      "isSignificantShareHolder": false,
      "isInsider": false,
      "isLimitOffsetInDollar": false,
      "userId": 3000124,
      "placementCommission": null,
      "legs": [],
      "strategyType": "SingleLeg",
      "triggerStopPrice": null,
      "orderGroupId": 0,
      "orderClass": null,
      "mainChainId": 0
    }"#;

const ORDER_173567570: &str = r#"{
      "id": 173567570,
      "symbol": "XSP",
      "symbolId": 12873,
      "totalQuantity": 3,
      "openQuantity": null,
      "filledQuantity": 3,
      "canceledQuantity": 0,
      "side": "Buy",
      "orderType": "Limit",
      "limitPrice": 15.52,
      "stopPrice": null,
      "isAllOrNone": false,
      "isAnonymous": false,
      "icebergQty": null,
      "minQuantity": null,
      "avgExecPrice": 15.52,
      "lastExecPrice": null,
      "source": "QuestradeIQEdge",
      "timeInForce": "Day",
      "gtdDate": null,
      "state": "Executed",
      "clientReasonStr": "",
      "chainId": 173567570,
      "creationTime": "2015-08-12T11:03:37.086000-04:00",
      "updateTime": "2015-08-12T11:03:41.241000-04:00",
      "notes": "",
      "primaryRoute": "AUTO",
      "secondaryRoute": "AUTO",
      "orderRoute": "ITSR",
      "venueHoldingOrder": "ITSR",
      "comissionCharged": 0.0105,
      "exchangeOrderId": "XS173577870",
      "isSignificantShareHolder": false,
      "isInsider": false,
      "isLimitOffsetInDollar": false,
      "userId": 3000124,
      "placementCommission": null,
      "legs": [],
      "strategyType": "SingleLeg",
      "triggerStopPrice": null,
      "orderGroupId": 0,
      "orderClass": null,
      "mainChainId": 0
    }"#;

fn order_173577870() -> AccountOrder {
    AccountOrder {
        id: 173577870,
        symbol: "AAPL".to_string(),
        symbol_id: 8049,
        total_quantity: whole(100),
        open_quantity: whole(100),
        filled_quantity: whole(0),
        canceled_quantity: whole(0),
        side: OrderSide::Buy,
        order_type: OrderType::Limit,
        limit_price: Some(num(500.95)),
        stop_price: None,
        is_all_or_none: false,
        is_anonymous: false,
        iceberg_quantity: None,
        min_quantity: None,
        avg_execution_price: None,
        last_execution_price: None,
        source: "TradingAPI".to_string(),
        time_in_force: OrderTimeInForce::Day,
        good_till_date: None,
        state: OrderState::Canceled,
        rejection_reason: None,
        chain_id: 173577870,
        creation_time: edt(2014, 10, 23, 20, 3, 41, 636000),
        update_time: edt(2014, 10, 23, 20, 3, 42, 890000),
        notes: None,
        primary_route: "AUTO".to_string(),
        secondary_route: None,
        order_route: "LAMP".to_string(),
        venue_holding_order: None,
        commission_charged: whole(0),
        exchange_order_id: "XS173577870".to_string(),
        is_significant_shareholder: false,
        is_insider: false,
        is_limit_offset_in_dollars: false,
        user_id: 3000124,
        placement_commission: whole(0),
        strategy_type: "SingleLeg".to_string(),
        trigger_stop_price: None,
        order_group_id: 0,
        order_class: None,
    }
}

#[test]
fn account_orders() {
    assert_eq!(
        get_api().account_orders("123456", None, None, None),
        Ok(get("/v1/accounts/123456/orders", &[]))
    );

    let body = format!(
        "{{\"orders\": [{}, {}, {}]}}",
        ORDER_173577870, ORDER_173567569, ORDER_173567570
    );
    let result = Questrade::account_orders_response(ok(&body));

    assert_eq!(
        result,
        Ok(vec![
            order_173577870(),
            AccountOrder {
                id: 173567569,
                symbol: "XSP".to_string(),
                symbol_id: 12873,
                total_quantity: whole(3),
                open_quantity: whole(0),
                filled_quantity: whole(0),
                canceled_quantity: whole(0),
                side: OrderSide::Buy,
                order_type: OrderType::Limit,
                limit_price: Some(num(35.05)),
                stop_price: None,
                is_all_or_none: false,
                is_anonymous: false,
                iceberg_quantity: None,
                min_quantity: None,
                avg_execution_price: None,
                last_execution_price: None,
                source: "QuestradeIQEdge".to_string(),
                time_in_force: OrderTimeInForce::Day,
                good_till_date: None,
                state: OrderState::Replaced,
                rejection_reason: None,
                chain_id: 173567569,
                creation_time: edt(2015, 08, 12, 11, 2, 37, 86000),
                update_time: edt(2015, 08, 12, 11, 2, 41, 241000),
                notes: None,
                primary_route: "AUTO".to_string(),
                secondary_route: Some("AUTO".to_string()),
                order_route: "ITSR".to_string(),
                venue_holding_order: None,
                commission_charged: whole(0),
                exchange_order_id: "XS173577869".to_string(),
                is_significant_shareholder: false,
                is_insider: false,
                is_limit_offset_in_dollars: false,
                user_id: 3000124,
                placement_commission: whole(0),
                strategy_type: "SingleLeg".to_string(),
                trigger_stop_price: None,
                order_group_id: 0,
                order_class: None,
            },
            AccountOrder {
                id: 173567570,
                symbol: "XSP".to_string(),
                symbol_id: 12873,
                total_quantity: whole(3),
                open_quantity: whole(0),
                filled_quantity: whole(3),
                canceled_quantity: whole(0),
                side: OrderSide::Buy,
                order_type: OrderType::Limit,
                limit_price: Some(num(15.52)),
                stop_price: None,
                is_all_or_none: false,
                is_anonymous: false,
                iceberg_quantity: None,
                min_quantity: None,
                avg_execution_price: Some(num(15.52)),
                last_execution_price: None,
                source: "QuestradeIQEdge".to_string(),
                time_in_force: OrderTimeInForce::Day,
                good_till_date: None,
                state: OrderState::Executed,
                rejection_reason: None,
                chain_id: 173567570,
                creation_time: edt(2015, 08, 12, 11, 3, 37, 86000),
                update_time: edt(2015, 08, 12, 11, 03, 41, 241000),
                notes: None,
                primary_route: "AUTO".to_string(),
                secondary_route: Some("AUTO".to_string()),
                order_route: "ITSR".to_string(),
                venue_holding_order: Some("ITSR".to_string()),
                commission_charged: num(0.0105),
                exchange_order_id: "XS173577870".to_string(),
                is_significant_shareholder: false,
                is_insider: false,
                is_limit_offset_in_dollars: false,
                user_id: 3000124,
                placement_commission: whole(0),
                strategy_type: "SingleLeg".to_string(),
                trigger_stop_price: None,
                order_group_id: 0,
                order_class: None,
            },
        ])
    );
}

#[test]
fn account_order() {
    assert_eq!(
        get_api().account_order("123456", 173577870),
        Ok(get("/v1/accounts/123456/orders/173577870", &[]))
    );

    let body = format!("{{\"orders\": [{}]}}", ORDER_173577870);
    let result = Questrade::account_order_response(ok(&body));

    assert_eq!(result, Ok(Some(order_173577870())));
}

#[test]
fn account_order_empty() {
    assert_eq!(
        get_api().account_order("123456", 123456),
        Ok(get("/v1/accounts/123456/orders/123456", &[]))
    );

    let result = Questrade::account_order_response(ok(r#"{"orders": []}"#));

    assert_eq!(result, Ok(None));
}

const EXECUTIONS: &str = r#"{
  "executions": [
    {
      "symbol": "AAPL",
      "symbolId": 8049,
      "quantity": 10,
      "side": "Buy",
      "price": 536.87,
      "id": 53817310,
      "orderId": 177106005,
      "orderChainId": 17710600,
      "exchangeExecId": "XS1771060050147",
      "timestamp": "2014-03-31T13:38:29.000000-04:00",
      "notes": "",
      "venue": "LAMP",
      "totalCost": 5368.7,
      "orderPlacementCommission": 0,
      "commission": 4.95,
      "executionFee": 0,
      "secFee": 0,
      "canadianExecutionFee": 0,
      "parentId": 0
    },
    {
      "symbol": "XSP.TO",
      "symbolId": 23963,
      "quantity": 3,
      "side": "Buy",
      "price": 36.52,
      "id": 710654134,
      "orderId": 700046545,
      "orderChainId": 700065471,
      "exchangeExecId": "XS1771060050147",
      "timestamp": "2015-08-19T11:03:41.000000-04:00",
      "notes": "",
      "venue": "ITSR",
      "totalCost": 109.56,
      "orderPlacementCommission": 0,
      "commission": 0,
      "executionFee": 0.0105,
      "secFee": 0,
      "canadianExecutionFee": 0,
      "parentId": 710651321
    }
  ]
}"#;

#[test]
fn account_executions() {
    assert_eq!(
        get_api().account_executions("26598145", None, None),
        Ok(get("/v1/accounts/26598145/executions", &[]))
    );

    let result = Questrade::account_executions_response(ok(EXECUTIONS));

    assert_eq!(
        result,
        Ok(vec![
            AccountExecution {
                id: 53817310,
                order_id: 177106005,
                symbol: "AAPL".to_string(),
                symbol_id: 8049,
                quantity: whole(10),
                side: OrderSide::Buy,
                price: num(536.87),
                order_chain_id: 17710600,
                timestamp: edt(2014, 03, 31, 13, 38, 29, 0),
                notes: None,
                commission: num(4.95),
                execution_fee: whole(0),
                sec_fee: whole(0),
                canadian_execution_fee: whole(0),
                parent_id: 0,
            },
            AccountExecution {
                id: 710654134,
                order_id: 700046545,
                symbol: "XSP.TO".to_string(),
                symbol_id: 23963,
                quantity: whole(3),
                side: OrderSide::Buy,
                price: num(36.52),
                order_chain_id: 700065471,
                timestamp: edt(2015, 08, 19, 11, 03, 41, 0),
                notes: None,
                commission: whole(0),
                execution_fee: num(0.0105),
                sec_fee: whole(0),
                canadian_execution_fee: whole(0),
                parent_id: 710651321,
            },
        ])
    );
}

const BALANCES: &str = r#"{
  "perCurrencyBalances": [
    {"currency": "CAD", "cash": 322.7015, "marketValue": 6239.64, "totalEquity": 6562.3415,
     "buyingPower": 15473.182995, "maintenanceExcess": 4646.6015, "isRealTime": true},
    {"currency": "USD", "cash": 0, "marketValue": 0, "totalEquity": 0,
     "buyingPower": 0, "maintenanceExcess": 0, "isRealTime": true}
  ],
  "combinedBalances": [
    {"currency": "CAD", "cash": 322.7015, "marketValue": 6239.64, "totalEquity": 6562.3415,
     "buyingPower": 15473.182995, "maintenanceExcess": 4646.6015, "isRealTime": true},
    {"currency": "USD", "cash": 242.541526, "marketValue": 4689.695603,
     "totalEquity": 4932.237129, "buyingPower": 11629.600147,
     "maintenanceExcess": 3492.372416, "isRealTime": true}
  ],
  "sodPerCurrencyBalances": [
    {"currency": "CAD", "cash": 322.7015, "marketValue": 6177, "totalEquity": 6499.7015,
     "buyingPower": 15473.182995, "maintenanceExcess": 4646.6015, "isRealTime": true},
    {"currency": "USD", "cash": 0, "marketValue": 0, "totalEquity": 0,
     "buyingPower": 0, "maintenanceExcess": 0, "isRealTime": true}
  ],
  "sodCombinedBalances": [
    {"currency": "CAD", "cash": 322.7015, "marketValue": 6177, "totalEquity": 6499.7015,
     "buyingPower": 15473.182995, "maintenanceExcess": 4646.6015, "isRealTime": true},
    {"currency": "USD", "cash": 242.541526, "marketValue": 4642.615558,
     "totalEquity": 4885.157084, "buyingPower": 11629.600147,
     "maintenanceExcess": 3492.372416, "isRealTime": true}
  ]
}"#;

#[test]
fn account_balance() {
    assert_eq!(
        get_api().account_balance("26598145"),
        Ok(get("/v1/accounts/26598145/balances", &[]))
    );

    let result = Questrade::account_balance_response(ok(BALANCES));

    assert_eq!(
        result,
        Ok(AccountBalances {
            per_currency_balances: vec![
                AccountBalance {
                    currency: Currency::CAD,
                    cash: num(322.7015),
                    market_value: num(6239.64),
                    total_equity: num(6562.3415),
                    buying_power: num(15473.182995),
                    maintenance_excess: num(4646.6015),
                    is_real_time: true,
                },
                AccountBalance {
                    currency: Currency::USD,
                    cash: whole(0),
                    market_value: whole(0),
                    total_equity: whole(0),
                    buying_power: whole(0),
                    maintenance_excess: whole(0),
                    is_real_time: true,
                },
            ],
            combined_balances: vec![
                AccountBalance {
                    currency: Currency::CAD,
                    cash: num(322.7015),
                    market_value: num(6239.64),
                    total_equity: num(6562.3415),
                    buying_power: num(15473.182995),
                    maintenance_excess: num(4646.6015),
                    is_real_time: true,
                },
                AccountBalance {
                    currency: Currency::USD,
                    cash: num(242.541526),
                    market_value: num(4689.695603),
                    total_equity: num(4932.237129),
                    buying_power: num(11629.600147),
                    maintenance_excess: num(3492.372416),
                    is_real_time: true,
                },
            ],
            sod_per_currency_balances: vec![
                AccountBalance {
                    currency: Currency::CAD,
                    cash: num(322.7015),
                    market_value: whole(6177),
                    total_equity: num(6499.7015),
                    buying_power: num(15473.182995),
                    maintenance_excess: num(4646.6015),
                    is_real_time: true,
                },
                AccountBalance {
                    currency: Currency::USD,
                    cash: whole(0),
                    market_value: whole(0),
                    total_equity: whole(0),
                    buying_power: whole(0),
                    maintenance_excess: whole(0),
                    is_real_time: true,
                },
            ],
            sod_combined_balances: vec![
                AccountBalance {
                    currency: Currency::CAD,
                    cash: num(322.7015),
                    market_value: whole(6177),
                    total_equity: num(6499.7015),
                    buying_power: num(15473.182995),
                    maintenance_excess: num(4646.6015),
                    is_real_time: true,
                },
                AccountBalance {
                    currency: Currency::USD,
                    cash: num(242.541526),
                    market_value: num(4642.615558),
                    total_equity: num(4885.157084),
                    buying_power: num(11629.600147),
                    maintenance_excess: num(3492.372416),
                    is_real_time: true,
                },
            ],
        })
    );
}

const POSITIONS: &str = r#"{
  "positions": [
    {"symbol": "THI.TO", "symbolId": 38738, "openQuantity": 100, "closedQuantity": 0,
     "currentMarketValue": 6017, "currentPrice": 60.17, "averageEntryPrice": 60.23,
     "closedPnl": 0, "openPnl": -6, "totalCost": 6023, "isRealTime": true,
     "isUnderReorg": false},
    {"symbol": "XSP.TO", "symbolId": 38738, "openQuantity": 100, "closedQuantity": 0,
     "currentMarketValue": 3571, "currentPrice": 35.71, "averageEntryPrice": 32.831898,
     "closedPnl": 0, "openPnl": 500.789748, "totalCost": 3070.750252, "isRealTime": false,
     "isUnderReorg": false}
  ]
}"#;

#[test]
fn account_positions() {
    assert_eq!(
        get_api().account_positions("26598145"),
        Ok(get("/v1/accounts/26598145/positions", &[]))
    );

    let result = Questrade::account_positions_response(ok(POSITIONS));

    assert_eq!(
        result,
        Ok(vec![
            AccountPosition {
                symbol: "THI.TO".to_string(),
                symbol_id: 38738,
                open_quantity: whole(100),
                closed_quantity: whole(0),
                current_market_value: whole(6017),
                current_price: num(60.17),
                average_entry_price: num(60.23),
                closed_profit_and_loss: whole(0),
                open_profit_and_loss: Number::NegInt(-6),
                total_cost: whole(6023),
                is_real_time: true,
                is_under_reorg: false,
            },
            AccountPosition {
                symbol: "XSP.TO".to_string(),
                symbol_id: 38738,
                open_quantity: whole(100),
                closed_quantity: whole(0),
                current_market_value: whole(3571),
                current_price: num(35.71),
                average_entry_price: num(32.831898),
                closed_profit_and_loss: whole(0),
                open_profit_and_loss: num(500.789748),
                total_cost: num(3070.750252),
                is_real_time: false,
                is_under_reorg: false,
            },
        ])
    );
}

const QUOTES: &str = r#"{
  "quotes": [
    {"symbol": "XMU.TO", "symbolId": 2434553, "tier": "", "bidPrice": 57.01, "bidSize": 24,
     "askPrice": 57.13, "askSize": 33, "lastTradePriceTrHrs": 57.15, "lastTradePrice": 57.15,
     "lastTradeSize": 100, "lastTradeTick": "Up", "lastTradeTime": "2021-01-08T15:59:59.666000-05:00",
     "volume": 2728, "openPrice": 55.76, "highPrice": 57.15, "lowPrice": 55.76, "delay": 0,
     "isHalted": false, "high52w": 57.15, "low52w": 43.0, "VWAP": 56.82},
    {"symbol": "XMU.U.TO", "symbolId": 27725609, "tier": "", "bidPrice": 42.65, "bidSize": 10,
     "askPrice": 42.79, "askSize": 10, "lastTradePriceTrHrs": 44.22, "lastTradePrice": 44.22,
     "lastTradeSize": 0, "lastTradeTick": "Equal", "lastTradeTime": "2021-01-06T09:30:00.000000-05:00",
     "volume": 0, "openPrice": 0, "highPrice": 0, "lowPrice": 0, "delay": 0,
     "isHalted": false, "high52w": 44.58, "low52w": 33.95, "VWAP": 0}
  ]
}"#;

#[test]
fn market_quote() {
    assert_eq!(
        get_api().market_quote(&[2434553, 27725609]),
        Ok(get("/v1/markets/quotes", &[("ids", "2434553,27725609")]))
    );

    let result = Questrade::market_quote_response(ok(QUOTES));

    assert_eq!(
        result,
        Ok(vec![
            MarketQuote {
                symbol: "XMU.TO".to_string(),
                symbol_id: 2434553,
                tier: None,
                bid_price: Some(num(57.01)),
                bid_size: 24,
                ask_price: Some(num(57.13)),
                ask_size: 33,
                last_trade_price_tr_hrs: num(57.15),
                last_trade_price: num(57.15),
                last_trade_size: 100,
                last_trade_tick: TickType::Up,
                volume: 2728,
                open_price: num(55.76),
                high_price: num(57.15),
                low_price: num(55.76),
                delay: false,
                is_halted: false,
            },
            MarketQuote {
                symbol: "XMU.U.TO".to_string(),
                symbol_id: 27725609,
                tier: None,
                bid_price: Some(num(42.65)),
                bid_size: 10,
                ask_price: Some(num(42.79)),
                ask_size: 10,
                last_trade_price_tr_hrs: num(44.22),
                last_trade_price: num(44.22),
                last_trade_size: 0,
                last_trade_tick: TickType::Equal,
                volume: 0,
                open_price: whole(0),
                high_price: whole(0),
                low_price: whole(0),
                delay: false,
                is_halted: false,
            },
        ])
    );
}

const SYMBOLS: &str = r#"{
  "symbols": [
    {"symbol": "V", "symbolId": 40825, "description": "VISA INC", "securityType": "Stock",
     "listingExchange": "NYSE", "isTradable": true, "isQuotable": true, "currency": "USD"},
    {"symbol": "VA.TO", "symbolId": 11419773,
     "description": "VANGUARD FTSE DEV ASIA PAC ALL CAP IDX", "securityType": "Stock",
     "listingExchange": "TSX", "isTradable": true, "isQuotable": true, "currency": "CAD"},
    {"symbol": "VABB", "symbolId": 40790, "description": "VIRGINIA BANK BANKSHARES INC",
     "securityType": "Stock", "listingExchange": "PINX", "isTradable": true,
     "isQuotable": true, "currency": "USD"},
    {"symbol": "VAC", "symbolId": 1261992, "description": "MARRIOTT VACATIONS WORLDWIDE CORP",
     "securityType": "Stock", "listingExchange": "NYSE", "isTradable": true,
     "isQuotable": true, "currency": "USD"},
    {"symbol": "VACNY", "symbolId": 20491473, "description": "VAT GROUP AG",
     "securityType": "Stock", "listingExchange": "PINX", "isTradable": true,
     "isQuotable": true, "currency": "USD"},
    {"symbol": "VACQU", "symbolId": 32441174,
     "description": "VECTOR ACQUISITION CORP UNITS(1 ORD A & 1/3 WT)30/09/2027",
     "securityType": "Stock", "listingExchange": "NASDAQ", "isTradable": true,
     "isQuotable": true, "currency": "USD"},
    {"symbol": "VAEEM.IN", "symbolId": 1630037, "description": "CBOE VXEEM Ask Index",
     "securityType": "Index", "listingExchange": "S&P", "isTradable": false,
     "isQuotable": true, "currency": "USD"}
  ]
}"#;

fn symbol(
    symbol: &str,
    symbol_id: u32,
    description: &str,
    security_type: SecurityType,
    listing_exchange: ListingExchange,
    is_tradable: bool,
    currency: Currency,
) -> SearchEquitySymbol {
    SearchEquitySymbol {
        symbol: symbol.into(),
        symbol_id,
        description: description.into(),
        security_type,
        listing_exchange,
        is_quotable: true,
        is_tradable,
        currency,
    }
}

#[test]
fn symbol_search() {
    assert_eq!(
        get_api().symbol_search("V", 0),
        Ok(get("/v1/symbols/search", &[("prefix", "V"), ("offset", "0")]))
    );

    let result = Questrade::symbol_search_response(ok(SYMBOLS));

    let stock = SecurityType::Stock;
    assert_eq!(
        result,
        Ok(vec![
            symbol("V", 40825, "VISA INC", stock, ListingExchange::NYSE, true, Currency::USD),
            symbol(
                "VA.TO",
                11419773,
                "VANGUARD FTSE DEV ASIA PAC ALL CAP IDX",
                stock,
                ListingExchange::TSX,
                true,
                Currency::CAD
            ),
            symbol(
                "VABB",
                40790,
                "VIRGINIA BANK BANKSHARES INC",
                stock,
                ListingExchange::PinkSheets,
                true,
                Currency::USD
            ),
            symbol(
                "VAC",
                1261992,
                "MARRIOTT VACATIONS WORLDWIDE CORP",
                stock,
                ListingExchange::NYSE,
                true,
                Currency::USD
            ),
            symbol(
                "VACNY",
                20491473,
                "VAT GROUP AG",
                stock,
                ListingExchange::PinkSheets,
                true,
                Currency::USD
            ),
            symbol(
                "VACQU",
                32441174,
                "VECTOR ACQUISITION CORP UNITS(1 ORD A & 1/3 WT)30/09/2027",
                stock,
                ListingExchange::NASDAQ,
                true,
                Currency::USD
            ),
            symbol(
                "VAEEM.IN",
                1630037,
                "CBOE VXEEM Ask Index",
                SecurityType::Index,
                ListingExchange::SP,
                false,
                Currency::USD
            ),
        ])
    );
}
