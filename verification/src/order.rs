//! Orders and their executions.

use crate::decode::{
    absent_if_empty, bool_from, empty_as_none_from, find_either, lookup_either, named_from,
    nullable_number_from, number_from, optional_number_from, optional_string_from,
    optional_time_from, read_bool, read_empty_as_none, read_named, read_nullable_number,
    read_number, read_optional_number, read_optional_string, read_optional_time, read_string,
    read_time, read_u32, string_from, time_from, u32_from, FromJson, Members, Named, ToJson,
};
use crate::encode::{
    is_label_json, is_optional_time_json, is_present_text, is_time_json, named_json, number_json,
    optional_number, optional_number_json, optional_text, optional_text_json, optional_time_json,
    present_text, text_json, time_json, u32_json, whole_number,
};
use crate::error::ApiError;
use crate::json::{find, lemma_lookup_by_name, lookup, names_of, put, Json, Number};
use crate::text::{lemma_outline, same_text};
use crate::time::DateTime;
use vstd::prelude::*;

verus! {

/// An order placed in an account.
#[derive(Clone, Debug, PartialEq, Eq)]
pub struct AccountOrder {
    /// Internal order identifier.
    pub id: u32,
    /// Symbol that follows Questrade symbology (e.g., "TD.TO").
    pub symbol: String,
    /// Internal symbol identifier.
    pub symbol_id: u32,
    /// Total quantity of the order.
    pub total_quantity: Number,
    /// Unfilled portion of the order quantity; zero where the server sends `null`.
    pub open_quantity: Number,
    /// Filled portion of the order quantity; zero where the server sends `null`.
    pub filled_quantity: Number,
    /// Unfilled portion of the order quantity after cancellation; zero where the server sends
    /// `null`.
    pub canceled_quantity: Number,
    /// Client view of the order side (e.g., "Buy-To-Open").
    pub side: OrderSide,
    /// Order price type (e.g., "Market"); also read from a member called `type`.
    pub order_type: OrderType,
    /// Limit price.
    pub limit_price: Option<Number>,
    /// Stop price.
    pub stop_price: Option<Number>,
    /// Specifies all-or-none special instruction.
    pub is_all_or_none: bool,
    /// Specifies Anonymous special instruction.
    pub is_anonymous: bool,
    /// Specifies Iceberg special instruction.
    pub iceberg_quantity: Option<Number>,
    /// Specifies Minimum special instruction.
    pub min_quantity: Option<Number>,
    /// Average price of all executions received for this order.
    pub avg_execution_price: Option<Number>,
    /// Price of the last execution received for the order in question.
    pub last_execution_price: Option<Number>,
    /// Identifies the software / gateway where the order originated.
    pub source: String,
    /// How long the order stays in force.
    pub time_in_force: OrderTimeInForce,
    /// Good-Till-Date marker and date parameter.
    pub good_till_date: Option<DateTime>,
    /// Current order state.
    pub state: OrderState,
    /// Human readable order rejection reason message; absent where the server sends the empty
    /// string. Also read from a member called `rejectionReason`.
    pub rejection_reason: Option<String>,
    /// Internal identifier of a chain to which the order belongs.
    pub chain_id: u32,
    /// Order creation time.
    pub creation_time: DateTime,
    /// Time of the last update.
    pub update_time: DateTime,
    /// Notes that may have been manually added by Questrade staff; absent where the server sends
    /// the empty string.
    pub notes: Option<String>,
    /// Primary route of the order.
    pub primary_route: String,
    /// Secondary route of the order; absent where the server sends the empty string.
    pub secondary_route: Option<String>,
    /// Order route name.
    pub order_route: String,
    /// Venue where non-marketable portion of the order was booked; absent where the server sends
    /// the empty string.
    pub venue_holding_order: Option<String>,
    /// Total commission amount charged for this order; zero where the server sends `null`.
    pub commission_charged: Number,
    /// Identifier assigned to this order by exchange where it was routed.
    pub exchange_order_id: String,
    /// Whether user that placed the order is a significant shareholder.
    pub is_significant_shareholder: bool,
    /// Whether user that placed the order is an insider.
    pub is_insider: bool,
    /// Whether limit offset is specified in dollars (vs. percent).
    pub is_limit_offset_in_dollars: bool,
    /// Internal identifier of user that placed the order.
    pub user_id: u32,
    /// Commission for placing the order via the Trade Desk over the phone; zero where the server
    /// sends `null`.
    pub placement_commission: Number,
    /// Multi-leg strategy to which the order belongs.
    pub strategy_type: String,
    /// Stop price at which order was triggered.
    pub trigger_stop_price: Option<Number>,
    /// Internal identifier of the order group.
    pub order_group_id: u32,
    /// Bracket Order class. Primary, Profit or Loss.
    pub order_class: Option<String>,
}

impl FromJson for AccountOrder {
    open spec fn wf(&self) -> bool {
        &&& present_text(self.rejection_reason)
        &&& present_text(self.notes)
        &&& present_text(self.secondary_route)
        &&& present_text(self.venue_holding_order)
    }

    open spec fn decoded(j: Json) -> Result<AccountOrder, ApiError> {
        match j {
            Json::Object(members) => {
                let m = members@;
                let id = u32_from(lookup(m, "id"@), "id");
                let symbol = string_from(lookup(m, "symbol"@), "symbol");
                let symbol_id = u32_from(lookup(m, "symbolId"@), "symbolId");
                let total_quantity = number_from(lookup(m, "totalQuantity"@), "totalQuantity");
                let open_quantity = nullable_number_from(
                    lookup(m, "openQuantity"@),
                    "openQuantity",
                );
                let filled_quantity = nullable_number_from(
                    lookup(m, "filledQuantity"@),
                    "filledQuantity",
                );
                let canceled_quantity = nullable_number_from(
                    lookup(m, "canceledQuantity"@),
                    "canceledQuantity",
                );
                let side = named_from::<OrderSide>(lookup(m, "side"@), "side");
                let order_type = named_from::<OrderType>(
                    lookup_either(m, "orderType"@, "type"@),
                    "orderType",
                );
                let limit_price = optional_number_from(lookup(m, "limitPrice"@), "limitPrice");
                let stop_price = optional_number_from(lookup(m, "stopPrice"@), "stopPrice");
                let is_all_or_none = bool_from(lookup(m, "isAllOrNone"@), "isAllOrNone");
                let is_anonymous = bool_from(lookup(m, "isAnonymous"@), "isAnonymous");
                let iceberg_quantity = optional_number_from(
                    lookup(m, "icebergQuantity"@),
                    "icebergQuantity",
                );
                let min_quantity = optional_number_from(lookup(m, "minQuantity"@), "minQuantity");
                let avg_execution_price = optional_number_from(
                    lookup(m, "avgExecPrice"@),
                    "avgExecPrice",
                );
                let last_execution_price = optional_number_from(
                    lookup(m, "lastExecPrice"@),
                    "lastExecPrice",
                );
                let source = string_from(lookup(m, "source"@), "source");
                let time_in_force = named_from::<OrderTimeInForce>(
                    lookup(m, "timeInForce"@),
                    "timeInForce",
                );
                let good_till_date = optional_time_from(lookup(m, "gtdDate"@), "gtdDate");
                let state = named_from::<OrderState>(lookup(m, "state"@), "state");
                let rejection_reason = empty_as_none_from(
                    lookup_either(m, "clientReasonStr"@, "rejectionReason"@),
                    "clientReasonStr",
                );
                let chain_id = u32_from(lookup(m, "chainId"@), "chainId");
                let creation_time = time_from(lookup(m, "creationTime"@), "creationTime");
                let update_time = time_from(lookup(m, "updateTime"@), "updateTime");
                let notes = empty_as_none_from(lookup(m, "notes"@), "notes");
                let primary_route = string_from(lookup(m, "primaryRoute"@), "primaryRoute");
                let secondary_route = empty_as_none_from(
                    lookup(m, "secondaryRoute"@),
                    "secondaryRoute",
                );
                let order_route = string_from(lookup(m, "orderRoute"@), "orderRoute");
                let venue_holding_order = empty_as_none_from(
                    lookup(m, "venueHoldingOrder"@),
                    "venueHoldingOrder",
                );
                let commission_charged = nullable_number_from(
                    lookup(m, "comissionCharged"@),
                    "comissionCharged",
                );
                let exchange_order_id = string_from(
                    lookup(m, "exchangeOrderId"@),
                    "exchangeOrderId",
                );
                let is_significant_shareholder = bool_from(
                    lookup(m, "isSignificantShareHolder"@),
                    "isSignificantShareHolder",
                );
                let is_insider = bool_from(lookup(m, "isInsider"@), "isInsider");
                let is_limit_offset_in_dollars = bool_from(
                    lookup(m, "isLimitOffsetInDollar"@),
                    "isLimitOffsetInDollar",
                );
                let user_id = u32_from(lookup(m, "userId"@), "userId");
                let placement_commission = nullable_number_from(
                    lookup(m, "placementCommission"@),
                    "placementCommission",
                );
                let strategy_type = string_from(lookup(m, "strategyType"@), "strategyType");
                let trigger_stop_price = optional_number_from(
                    lookup(m, "triggerStopPrice"@),
                    "triggerStopPrice",
                );
                let order_group_id = u32_from(lookup(m, "orderGroupId"@), "orderGroupId");
                let order_class = optional_string_from(lookup(m, "orderClass"@), "orderClass");
                if id is Err {
                    Err(id->Err_0)
                } else if symbol is Err {
                    Err(symbol->Err_0)
                } else if symbol_id is Err {
                    Err(symbol_id->Err_0)
                } else if total_quantity is Err {
                    Err(total_quantity->Err_0)
                } else if open_quantity is Err {
                    Err(open_quantity->Err_0)
                } else if filled_quantity is Err {
                    Err(filled_quantity->Err_0)
                } else if canceled_quantity is Err {
                    Err(canceled_quantity->Err_0)
                } else if side is Err {
                    Err(side->Err_0)
                } else if order_type is Err {
                    Err(order_type->Err_0)
                } else if limit_price is Err {
                    Err(limit_price->Err_0)
                } else if stop_price is Err {
                    Err(stop_price->Err_0)
                } else if is_all_or_none is Err {
                    Err(is_all_or_none->Err_0)
                } else if is_anonymous is Err {
                    Err(is_anonymous->Err_0)
                } else if iceberg_quantity is Err {
                    Err(iceberg_quantity->Err_0)
                } else if min_quantity is Err {
                    Err(min_quantity->Err_0)
                } else if avg_execution_price is Err {
                    Err(avg_execution_price->Err_0)
                } else if last_execution_price is Err {
                    Err(last_execution_price->Err_0)
                } else if source is Err {
                    Err(source->Err_0)
                } else if time_in_force is Err {
                    Err(time_in_force->Err_0)
                } else if good_till_date is Err {
                    Err(good_till_date->Err_0)
                } else if state is Err {
                    Err(state->Err_0)
                } else if rejection_reason is Err {
                    Err(rejection_reason->Err_0)
                } else if chain_id is Err {
                    Err(chain_id->Err_0)
                } else if creation_time is Err {
                    Err(creation_time->Err_0)
                } else if update_time is Err {
                    Err(update_time->Err_0)
                } else if notes is Err {
                    Err(notes->Err_0)
                } else if primary_route is Err {
                    Err(primary_route->Err_0)
                } else if secondary_route is Err {
                    Err(secondary_route->Err_0)
                } else if order_route is Err {
                    Err(order_route->Err_0)
                } else if venue_holding_order is Err {
                    Err(venue_holding_order->Err_0)
                } else if commission_charged is Err {
                    Err(commission_charged->Err_0)
                } else if exchange_order_id is Err {
                    Err(exchange_order_id->Err_0)
                } else if is_significant_shareholder is Err {
                    Err(is_significant_shareholder->Err_0)
                } else if is_insider is Err {
                    Err(is_insider->Err_0)
                } else if is_limit_offset_in_dollars is Err {
                    Err(is_limit_offset_in_dollars->Err_0)
                } else if user_id is Err {
                    Err(user_id->Err_0)
                } else if placement_commission is Err {
                    Err(placement_commission->Err_0)
                } else if strategy_type is Err {
                    Err(strategy_type->Err_0)
                } else if trigger_stop_price is Err {
                    Err(trigger_stop_price->Err_0)
                } else if order_group_id is Err {
                    Err(order_group_id->Err_0)
                } else if order_class is Err {
                    Err(order_class->Err_0)
                } else {
                    Ok(AccountOrder {
                        id: id->Ok_0,
                        symbol: symbol->Ok_0,
                        symbol_id: symbol_id->Ok_0,
                        total_quantity: total_quantity->Ok_0,
                        open_quantity: open_quantity->Ok_0,
                        filled_quantity: filled_quantity->Ok_0,
                        canceled_quantity: canceled_quantity->Ok_0,
                        side: side->Ok_0,
                        order_type: order_type->Ok_0,
                        limit_price: limit_price->Ok_0,
                        stop_price: stop_price->Ok_0,
                        is_all_or_none: is_all_or_none->Ok_0,
                        is_anonymous: is_anonymous->Ok_0,
                        iceberg_quantity: iceberg_quantity->Ok_0,
                        min_quantity: min_quantity->Ok_0,
                        avg_execution_price: avg_execution_price->Ok_0,
                        last_execution_price: last_execution_price->Ok_0,
                        source: source->Ok_0,
                        time_in_force: time_in_force->Ok_0,
                        good_till_date: good_till_date->Ok_0,
                        state: state->Ok_0,
                        rejection_reason: rejection_reason->Ok_0,
                        chain_id: chain_id->Ok_0,
                        creation_time: creation_time->Ok_0,
                        update_time: update_time->Ok_0,
                        notes: notes->Ok_0,
                        primary_route: primary_route->Ok_0,
                        secondary_route: secondary_route->Ok_0,
                        order_route: order_route->Ok_0,
                        venue_holding_order: venue_holding_order->Ok_0,
                        commission_charged: commission_charged->Ok_0,
                        exchange_order_id: exchange_order_id->Ok_0,
                        is_significant_shareholder: is_significant_shareholder->Ok_0,
                        is_insider: is_insider->Ok_0,
                        is_limit_offset_in_dollars: is_limit_offset_in_dollars->Ok_0,
                        user_id: user_id->Ok_0,
                        placement_commission: placement_commission->Ok_0,
                        strategy_type: strategy_type->Ok_0,
                        trigger_stop_price: trigger_stop_price->Ok_0,
                        order_group_id: order_group_id->Ok_0,
                        order_class: order_class->Ok_0,
                    })
                }
            },
            _ => Err(ApiError::InvalidTypeError("AccountOrder", "object")),
        }
    }

    fn from_json(j: &Json) -> (r: Result<AccountOrder, ApiError>) {
        match j {
            Json::Object(members) => {
                let id = read_u32(find(members, "id"), "id")?;
                let symbol = read_string(find(members, "symbol"), "symbol")?;
                let symbol_id = read_u32(find(members, "symbolId"), "symbolId")?;
                let total_quantity = read_number(find(members, "totalQuantity"), "totalQuantity")?;
                let open_quantity = read_nullable_number(
                    find(members, "openQuantity"),
                    "openQuantity",
                )?;
                let filled_quantity = read_nullable_number(
                    find(members, "filledQuantity"),
                    "filledQuantity",
                )?;
                let canceled_quantity = read_nullable_number(
                    find(members, "canceledQuantity"),
                    "canceledQuantity",
                )?;
                let side = read_named::<OrderSide>(find(members, "side"), "side")?;
                let order_type = read_named::<OrderType>(
                    find_either(members, "orderType", "type"),
                    "orderType",
                )?;
                let limit_price = read_optional_number(find(members, "limitPrice"), "limitPrice")?;
                let stop_price = read_optional_number(find(members, "stopPrice"), "stopPrice")?;
                let is_all_or_none = read_bool(find(members, "isAllOrNone"), "isAllOrNone")?;
                let is_anonymous = read_bool(find(members, "isAnonymous"), "isAnonymous")?;
                let iceberg_quantity = read_optional_number(
                    find(members, "icebergQuantity"),
                    "icebergQuantity",
                )?;
                let min_quantity = read_optional_number(
                    find(members, "minQuantity"),
                    "minQuantity",
                )?;
                let avg_execution_price = read_optional_number(
                    find(members, "avgExecPrice"),
                    "avgExecPrice",
                )?;
                let last_execution_price = read_optional_number(
                    find(members, "lastExecPrice"),
                    "lastExecPrice",
                )?;
                let source = read_string(find(members, "source"), "source")?;
                let time_in_force = read_named::<OrderTimeInForce>(
                    find(members, "timeInForce"),
                    "timeInForce",
                )?;
                let good_till_date = read_optional_time(find(members, "gtdDate"), "gtdDate")?;
                let state = read_named::<OrderState>(find(members, "state"), "state")?;
                let rejection_reason = read_empty_as_none(
                    find_either(members, "clientReasonStr", "rejectionReason"),
                    "clientReasonStr",
                )?;
                let chain_id = read_u32(find(members, "chainId"), "chainId")?;
                let creation_time = read_time(find(members, "creationTime"), "creationTime")?;
                let update_time = read_time(find(members, "updateTime"), "updateTime")?;
                let notes = read_empty_as_none(find(members, "notes"), "notes")?;
                let primary_route = read_string(find(members, "primaryRoute"), "primaryRoute")?;
                let secondary_route = read_empty_as_none(
                    find(members, "secondaryRoute"),
                    "secondaryRoute",
                )?;
                let order_route = read_string(find(members, "orderRoute"), "orderRoute")?;
                let venue_holding_order = read_empty_as_none(
                    find(members, "venueHoldingOrder"),
                    "venueHoldingOrder",
                )?;
                let commission_charged = read_nullable_number(
                    find(members, "comissionCharged"),
                    "comissionCharged",
                )?;
                let exchange_order_id = read_string(
                    find(members, "exchangeOrderId"),
                    "exchangeOrderId",
                )?;
                let is_significant_shareholder = read_bool(
                    find(members, "isSignificantShareHolder"),
                    "isSignificantShareHolder",
                )?;
                let is_insider = read_bool(find(members, "isInsider"), "isInsider")?;
                let is_limit_offset_in_dollars = read_bool(
                    find(members, "isLimitOffsetInDollar"),
                    "isLimitOffsetInDollar",
                )?;
                let user_id = read_u32(find(members, "userId"), "userId")?;
                let placement_commission = read_nullable_number(
                    find(members, "placementCommission"),
                    "placementCommission",
                )?;
                let strategy_type = read_string(find(members, "strategyType"), "strategyType")?;
                let trigger_stop_price = read_optional_number(
                    find(members, "triggerStopPrice"),
                    "triggerStopPrice",
                )?;
                let order_group_id = read_u32(find(members, "orderGroupId"), "orderGroupId")?;
                let order_class = read_optional_string(find(members, "orderClass"), "orderClass")?;
                Ok(AccountOrder {
                    id,
                    symbol,
                    symbol_id,
                    total_quantity,
                    open_quantity,
                    filled_quantity,
                    canceled_quantity,
                    side,
                    order_type,
                    limit_price,
                    stop_price,
                    is_all_or_none,
                    is_anonymous,
                    iceberg_quantity,
                    min_quantity,
                    avg_execution_price,
                    last_execution_price,
                    source,
                    time_in_force,
                    good_till_date,
                    state,
                    rejection_reason,
                    chain_id,
                    creation_time,
                    update_time,
                    notes,
                    primary_route,
                    secondary_route,
                    order_route,
                    venue_holding_order,
                    commission_charged,
                    exchange_order_id,
                    is_significant_shareholder,
                    is_insider,
                    is_limit_offset_in_dollars,
                    user_id,
                    placement_commission,
                    strategy_type,
                    trigger_stop_price,
                    order_group_id,
                    order_class,
                })
            },
            _ => Err(ApiError::InvalidTypeError("AccountOrder", "object")),
        }
    }
}

impl AccountOrder {
    /// In an object with the member names of the JSON form, each name finds the
    /// member at its own place: no two of the names are the same.
    pub proof fn lemma_members_found(members: Seq<(String, Json)>)
        requires
            names_of(members) == Self::member_names(),
        ensures
            lookup(members, "id"@) == Some(members[0].1),
            lookup(members, "symbol"@) == Some(members[1].1),
            lookup(members, "symbolId"@) == Some(members[2].1),
            lookup(members, "totalQuantity"@) == Some(members[3].1),
            lookup(members, "openQuantity"@) == Some(members[4].1),
            lookup(members, "filledQuantity"@) == Some(members[5].1),
            lookup(members, "canceledQuantity"@) == Some(members[6].1),
            lookup(members, "side"@) == Some(members[7].1),
            lookup(members, "orderType"@) == Some(members[8].1),
            lookup(members, "limitPrice"@) == Some(members[9].1),
            lookup(members, "stopPrice"@) == Some(members[10].1),
            lookup(members, "isAllOrNone"@) == Some(members[11].1),
            lookup(members, "isAnonymous"@) == Some(members[12].1),
            lookup(members, "icebergQuantity"@) == Some(members[13].1),
            lookup(members, "minQuantity"@) == Some(members[14].1),
            lookup(members, "avgExecPrice"@) == Some(members[15].1),
            lookup(members, "lastExecPrice"@) == Some(members[16].1),
            lookup(members, "source"@) == Some(members[17].1),
            lookup(members, "timeInForce"@) == Some(members[18].1),
            lookup(members, "gtdDate"@) == Some(members[19].1),
            lookup(members, "state"@) == Some(members[20].1),
            lookup(members, "clientReasonStr"@) == Some(members[21].1),
            lookup(members, "chainId"@) == Some(members[22].1),
            lookup(members, "creationTime"@) == Some(members[23].1),
            lookup(members, "updateTime"@) == Some(members[24].1),
            lookup(members, "notes"@) == Some(members[25].1),
            lookup(members, "primaryRoute"@) == Some(members[26].1),
            lookup(members, "secondaryRoute"@) == Some(members[27].1),
            lookup(members, "orderRoute"@) == Some(members[28].1),
            lookup(members, "venueHoldingOrder"@) == Some(members[29].1),
            lookup(members, "comissionCharged"@) == Some(members[30].1),
            lookup(members, "exchangeOrderId"@) == Some(members[31].1),
            lookup(members, "isSignificantShareHolder"@) == Some(members[32].1),
            lookup(members, "isInsider"@) == Some(members[33].1),
            lookup(members, "isLimitOffsetInDollar"@) == Some(members[34].1),
            lookup(members, "userId"@) == Some(members[35].1),
            lookup(members, "placementCommission"@) == Some(members[36].1),
            lookup(members, "strategyType"@) == Some(members[37].1),
            lookup(members, "triggerStopPrice"@) == Some(members[38].1),
            lookup(members, "orderGroupId"@) == Some(members[39].1),
            lookup(members, "orderClass"@) == Some(members[40].1),
    {
        reveal_strlit("id");
        reveal_strlit("symbol");
        reveal_strlit("symbolId");
        reveal_strlit("totalQuantity");
        reveal_strlit("openQuantity");
        reveal_strlit("filledQuantity");
        reveal_strlit("canceledQuantity");
        reveal_strlit("side");
        reveal_strlit("orderType");
        reveal_strlit("limitPrice");
        reveal_strlit("stopPrice");
        reveal_strlit("isAllOrNone");
        reveal_strlit("isAnonymous");
        reveal_strlit("icebergQuantity");
        reveal_strlit("minQuantity");
        reveal_strlit("avgExecPrice");
        reveal_strlit("lastExecPrice");
        reveal_strlit("source");
        reveal_strlit("timeInForce");
        reveal_strlit("gtdDate");
        reveal_strlit("state");
        reveal_strlit("clientReasonStr");
        reveal_strlit("chainId");
        reveal_strlit("creationTime");
        reveal_strlit("updateTime");
        reveal_strlit("notes");
        reveal_strlit("primaryRoute");
        reveal_strlit("secondaryRoute");
        reveal_strlit("orderRoute");
        reveal_strlit("venueHoldingOrder");
        reveal_strlit("comissionCharged");
        reveal_strlit("exchangeOrderId");
        reveal_strlit("isSignificantShareHolder");
        reveal_strlit("isInsider");
        reveal_strlit("isLimitOffsetInDollar");
        reveal_strlit("userId");
        reveal_strlit("placementCommission");
        reveal_strlit("strategyType");
        reveal_strlit("triggerStopPrice");
        reveal_strlit("orderGroupId");
        reveal_strlit("orderClass");
        lemma_outline("id"@);
        lemma_outline("symbol"@);
        lemma_outline("symbolId"@);
        lemma_outline("totalQuantity"@);
        lemma_outline("openQuantity"@);
        lemma_outline("filledQuantity"@);
        lemma_outline("canceledQuantity"@);
        lemma_outline("side"@);
        lemma_outline("orderType"@);
        lemma_outline("limitPrice"@);
        lemma_outline("stopPrice"@);
        lemma_outline("isAllOrNone"@);
        lemma_outline("isAnonymous"@);
        lemma_outline("icebergQuantity"@);
        lemma_outline("minQuantity"@);
        lemma_outline("avgExecPrice"@);
        lemma_outline("lastExecPrice"@);
        lemma_outline("source"@);
        lemma_outline("timeInForce"@);
        lemma_outline("gtdDate"@);
        lemma_outline("state"@);
        lemma_outline("clientReasonStr"@);
        lemma_outline("chainId"@);
        lemma_outline("creationTime"@);
        lemma_outline("updateTime"@);
        lemma_outline("notes"@);
        lemma_outline("primaryRoute"@);
        lemma_outline("secondaryRoute"@);
        lemma_outline("orderRoute"@);
        lemma_outline("venueHoldingOrder"@);
        lemma_outline("comissionCharged"@);
        lemma_outline("exchangeOrderId"@);
        lemma_outline("isSignificantShareHolder"@);
        lemma_outline("isInsider"@);
        lemma_outline("isLimitOffsetInDollar"@);
        lemma_outline("userId"@);
        lemma_outline("placementCommission"@);
        lemma_outline("strategyType"@);
        lemma_outline("triggerStopPrice"@);
        lemma_outline("orderGroupId"@);
        lemma_outline("orderClass"@);
        let names = Self::member_names();
        assert forall|i: int, j: int|
            0 <= i < names.len() && 0 <= j < names.len() && i != j implies names[i]
            != names[j] by {}
        lemma_lookup_by_name(members, 0);
        lemma_lookup_by_name(members, 1);
        lemma_lookup_by_name(members, 2);
        lemma_lookup_by_name(members, 3);
        lemma_lookup_by_name(members, 4);
        lemma_lookup_by_name(members, 5);
        lemma_lookup_by_name(members, 6);
        lemma_lookup_by_name(members, 7);
        lemma_lookup_by_name(members, 8);
        lemma_lookup_by_name(members, 9);
        lemma_lookup_by_name(members, 10);
        lemma_lookup_by_name(members, 11);
        lemma_lookup_by_name(members, 12);
        lemma_lookup_by_name(members, 13);
        lemma_lookup_by_name(members, 14);
        lemma_lookup_by_name(members, 15);
        lemma_lookup_by_name(members, 16);
        lemma_lookup_by_name(members, 17);
        lemma_lookup_by_name(members, 18);
        lemma_lookup_by_name(members, 19);
        lemma_lookup_by_name(members, 20);
        lemma_lookup_by_name(members, 21);
        lemma_lookup_by_name(members, 22);
        lemma_lookup_by_name(members, 23);
        lemma_lookup_by_name(members, 24);
        lemma_lookup_by_name(members, 25);
        lemma_lookup_by_name(members, 26);
        lemma_lookup_by_name(members, 27);
        lemma_lookup_by_name(members, 28);
        lemma_lookup_by_name(members, 29);
        lemma_lookup_by_name(members, 30);
        lemma_lookup_by_name(members, 31);
        lemma_lookup_by_name(members, 32);
        lemma_lookup_by_name(members, 33);
        lemma_lookup_by_name(members, 34);
        lemma_lookup_by_name(members, 35);
        lemma_lookup_by_name(members, 36);
        lemma_lookup_by_name(members, 37);
        lemma_lookup_by_name(members, 38);
        lemma_lookup_by_name(members, 39);
        lemma_lookup_by_name(members, 40);
    }

    /// The members that say what is ordered, and how much of it, read back as they were written.
    pub proof fn lemma_size_read(&self, members: Seq<(String, Json)>)
        requires
            self.wf(),
            names_of(members) == Self::member_names(),
            self.written(members),
        ensures
            u32_from(lookup(members, "id"@), "id") == Ok::<u32, ApiError>(self.id),
            string_from(
                lookup(members, "symbol"@),
                "symbol",
            ) == Ok::<String, ApiError>(self.symbol),
            u32_from(
                lookup(members, "symbolId"@),
                "symbolId",
            ) == Ok::<u32, ApiError>(self.symbol_id),
            number_from(
                lookup(members, "totalQuantity"@),
                "totalQuantity",
            ) == Ok::<Number, ApiError>(self.total_quantity),
            nullable_number_from(
                lookup(members, "openQuantity"@),
                "openQuantity",
            ) == Ok::<Number, ApiError>(self.open_quantity),
            nullable_number_from(
                lookup(members, "filledQuantity"@),
                "filledQuantity",
            ) == Ok::<Number, ApiError>(self.filled_quantity),
            nullable_number_from(
                lookup(members, "canceledQuantity"@),
                "canceledQuantity",
            ) == Ok::<Number, ApiError>(self.canceled_quantity),
            named_from::<OrderSide>(
                lookup(members, "side"@),
                "side",
            ) == Ok::<OrderSide, ApiError>(self.side),
            named_from::<OrderType>(
                lookup_either(members, "orderType"@, "type"@),
                "orderType",
            ) == Ok::<OrderType, ApiError>(self.order_type),
    {
        self.side.lemma_label_names();
        self.order_type.lemma_label_names();
        Self::lemma_members_found(members);
    }

    /// The prices and the special instructions read back as they were written.
    pub proof fn lemma_pricing_read(&self, members: Seq<(String, Json)>)
        requires
            self.wf(),
            names_of(members) == Self::member_names(),
            self.written(members),
        ensures
            optional_number_from(
                lookup(members, "limitPrice"@),
                "limitPrice",
            ) == Ok::<Option<Number>, ApiError>(self.limit_price),
            optional_number_from(
                lookup(members, "stopPrice"@),
                "stopPrice",
            ) == Ok::<Option<Number>, ApiError>(self.stop_price),
            bool_from(
                lookup(members, "isAllOrNone"@),
                "isAllOrNone",
            ) == Ok::<bool, ApiError>(self.is_all_or_none),
            bool_from(
                lookup(members, "isAnonymous"@),
                "isAnonymous",
            ) == Ok::<bool, ApiError>(self.is_anonymous),
            optional_number_from(
                lookup(members, "icebergQuantity"@),
                "icebergQuantity",
            ) == Ok::<Option<Number>, ApiError>(self.iceberg_quantity),
            optional_number_from(
                lookup(members, "minQuantity"@),
                "minQuantity",
            ) == Ok::<Option<Number>, ApiError>(self.min_quantity),
            optional_number_from(
                lookup(members, "avgExecPrice"@),
                "avgExecPrice",
            ) == Ok::<Option<Number>, ApiError>(self.avg_execution_price),
            optional_number_from(
                lookup(members, "lastExecPrice"@),
                "lastExecPrice",
            ) == Ok::<Option<Number>, ApiError>(self.last_execution_price),
            string_from(
                lookup(members, "source"@),
                "source",
            ) == Ok::<String, ApiError>(self.source),
            named_from::<OrderTimeInForce>(
                lookup(members, "timeInForce"@),
                "timeInForce",
            ) == Ok::<OrderTimeInForce, ApiError>(self.time_in_force),
            optional_time_from(
                lookup(members, "gtdDate"@),
                "gtdDate",
            ) == Ok::<Option<DateTime>, ApiError>(self.good_till_date),
    {
        self.time_in_force.lemma_label_names();
        Self::lemma_members_found(members);
    }

    /// The state of the order, its times and its routes read back as they were written.
    pub proof fn lemma_progress_read(&self, members: Seq<(String, Json)>)
        requires
            self.wf(),
            names_of(members) == Self::member_names(),
            self.written(members),
        ensures
            named_from::<OrderState>(
                lookup(members, "state"@),
                "state",
            ) == Ok::<OrderState, ApiError>(self.state),
            empty_as_none_from(
                lookup_either(members, "clientReasonStr"@, "rejectionReason"@),
                "clientReasonStr",
            ) == Ok::<Option<String>, ApiError>(self.rejection_reason),
            u32_from(lookup(members, "chainId"@), "chainId") == Ok::<u32, ApiError>(self.chain_id),
            time_from(
                lookup(members, "creationTime"@),
                "creationTime",
            ) == Ok::<DateTime, ApiError>(self.creation_time),
            time_from(
                lookup(members, "updateTime"@),
                "updateTime",
            ) == Ok::<DateTime, ApiError>(self.update_time),
            empty_as_none_from(
                lookup(members, "notes"@),
                "notes",
            ) == Ok::<Option<String>, ApiError>(self.notes),
            string_from(
                lookup(members, "primaryRoute"@),
                "primaryRoute",
            ) == Ok::<String, ApiError>(self.primary_route),
            empty_as_none_from(
                lookup(members, "secondaryRoute"@),
                "secondaryRoute",
            ) == Ok::<Option<String>, ApiError>(self.secondary_route),
            string_from(
                lookup(members, "orderRoute"@),
                "orderRoute",
            ) == Ok::<String, ApiError>(self.order_route),
            empty_as_none_from(
                lookup(members, "venueHoldingOrder"@),
                "venueHoldingOrder",
            ) == Ok::<Option<String>, ApiError>(self.venue_holding_order),
    {
        self.state.lemma_label_names();
        Self::lemma_members_found(members);
    }

    /// The commissions, and what the order belongs to, read back as they were written.
    pub proof fn lemma_charges_read(&self, members: Seq<(String, Json)>)
        requires
            self.wf(),
            names_of(members) == Self::member_names(),
            self.written(members),
        ensures
            nullable_number_from(
                lookup(members, "comissionCharged"@),
                "comissionCharged",
            ) == Ok::<Number, ApiError>(self.commission_charged),
            string_from(
                lookup(members, "exchangeOrderId"@),
                "exchangeOrderId",
            ) == Ok::<String, ApiError>(self.exchange_order_id),
            bool_from(
                lookup(members, "isSignificantShareHolder"@),
                "isSignificantShareHolder",
            ) == Ok::<bool, ApiError>(self.is_significant_shareholder),
            bool_from(
                lookup(members, "isInsider"@),
                "isInsider",
            ) == Ok::<bool, ApiError>(self.is_insider),
            bool_from(
                lookup(members, "isLimitOffsetInDollar"@),
                "isLimitOffsetInDollar",
            ) == Ok::<bool, ApiError>(self.is_limit_offset_in_dollars),
            u32_from(lookup(members, "userId"@), "userId") == Ok::<u32, ApiError>(self.user_id),
            nullable_number_from(
                lookup(members, "placementCommission"@),
                "placementCommission",
            ) == Ok::<Number, ApiError>(self.placement_commission),
            string_from(
                lookup(members, "strategyType"@),
                "strategyType",
            ) == Ok::<String, ApiError>(self.strategy_type),
            optional_number_from(
                lookup(members, "triggerStopPrice"@),
                "triggerStopPrice",
            ) == Ok::<Option<Number>, ApiError>(self.trigger_stop_price),
            u32_from(
                lookup(members, "orderGroupId"@),
                "orderGroupId",
            ) == Ok::<u32, ApiError>(self.order_group_id),
            optional_string_from(
                lookup(members, "orderClass"@),
                "orderClass",
            ) == Ok::<Option<String>, ApiError>(self.order_class),
    {
        Self::lemma_members_found(members);
    }
}

impl ToJson for AccountOrder {
    open spec fn encodable(&self) -> bool {
        &&& self.wf()
        &&& self.good_till_date matches Some(at) ==> at.survives_json()
        &&& self.creation_time.survives_json()
        &&& self.update_time.survives_json()
    }

    open spec fn member_names() -> Seq<Seq<char>> {
        seq![
            "id"@,
            "symbol"@,
            "symbolId"@,
            "totalQuantity"@,
            "openQuantity"@,
            "filledQuantity"@,
            "canceledQuantity"@,
            "side"@,
            "orderType"@,
            "limitPrice"@,
            "stopPrice"@,
            "isAllOrNone"@,
            "isAnonymous"@,
            "icebergQuantity"@,
            "minQuantity"@,
            "avgExecPrice"@,
            "lastExecPrice"@,
            "source"@,
            "timeInForce"@,
            "gtdDate"@,
            "state"@,
            "clientReasonStr"@,
            "chainId"@,
            "creationTime"@,
            "updateTime"@,
            "notes"@,
            "primaryRoute"@,
            "secondaryRoute"@,
            "orderRoute"@,
            "venueHoldingOrder"@,
            "comissionCharged"@,
            "exchangeOrderId"@,
            "isSignificantShareHolder"@,
            "isInsider"@,
            "isLimitOffsetInDollar"@,
            "userId"@,
            "placementCommission"@,
            "strategyType"@,
            "triggerStopPrice"@,
            "orderGroupId"@,
            "orderClass"@,
        ]
    }

    open spec fn written(&self, members: Seq<(String, Json)>) -> bool {
        &&& members.len() == 41
        &&& members[0].1 == whole_number(self.id)
        &&& members[1].1 == Json::String(self.symbol)
        &&& members[2].1 == whole_number(self.symbol_id)
        &&& members[3].1 == Json::Number(self.total_quantity)
        &&& members[4].1 == Json::Number(self.open_quantity)
        &&& members[5].1 == Json::Number(self.filled_quantity)
        &&& members[6].1 == Json::Number(self.canceled_quantity)
        &&& is_label_json(members[7].1, self.side.label())
        &&& is_label_json(members[8].1, self.order_type.label())
        &&& members[9].1 == optional_number(self.limit_price)
        &&& members[10].1 == optional_number(self.stop_price)
        &&& members[11].1 == Json::Bool(self.is_all_or_none)
        &&& members[12].1 == Json::Bool(self.is_anonymous)
        &&& members[13].1 == optional_number(self.iceberg_quantity)
        &&& members[14].1 == optional_number(self.min_quantity)
        &&& members[15].1 == optional_number(self.avg_execution_price)
        &&& members[16].1 == optional_number(self.last_execution_price)
        &&& members[17].1 == Json::String(self.source)
        &&& is_label_json(members[18].1, self.time_in_force.label())
        &&& is_optional_time_json(members[19].1, self.good_till_date)
        &&& is_label_json(members[20].1, self.state.label())
        &&& members[21].1 == optional_text(self.rejection_reason)
        &&& members[22].1 == whole_number(self.chain_id)
        &&& is_time_json(members[23].1, self.creation_time)
        &&& is_time_json(members[24].1, self.update_time)
        &&& members[25].1 == optional_text(self.notes)
        &&& members[26].1 == Json::String(self.primary_route)
        &&& members[27].1 == optional_text(self.secondary_route)
        &&& members[28].1 == Json::String(self.order_route)
        &&& members[29].1 == optional_text(self.venue_holding_order)
        &&& members[30].1 == Json::Number(self.commission_charged)
        &&& members[31].1 == Json::String(self.exchange_order_id)
        &&& members[32].1 == Json::Bool(self.is_significant_shareholder)
        &&& members[33].1 == Json::Bool(self.is_insider)
        &&& members[34].1 == Json::Bool(self.is_limit_offset_in_dollars)
        &&& members[35].1 == whole_number(self.user_id)
        &&& members[36].1 == Json::Number(self.placement_commission)
        &&& members[37].1 == Json::String(self.strategy_type)
        &&& members[38].1 == optional_number(self.trigger_stop_price)
        &&& members[39].1 == whole_number(self.order_group_id)
        &&& members[40].1 == optional_text(self.order_class)
    }

    proof fn lemma_round_trip(&self, j: Json) {
        self.lemma_size_read(j->Object_0@);
        self.lemma_pricing_read(j->Object_0@);
        self.lemma_progress_read(j->Object_0@);
        self.lemma_charges_read(j->Object_0@);
    }

    fn to_json(&self) -> (r: Option<Json>) {
        if !is_present_text(&self.rejection_reason) {
            return None;
        }
        if !is_present_text(&self.notes) {
            return None;
        }
        if !is_present_text(&self.secondary_route) {
            return None;
        }
        if !is_present_text(&self.venue_holding_order) {
            return None;
        }
        let good_till_date = match optional_time_json(&self.good_till_date) {
            Some(text) => text,
            None => {
                return None;
            },
        };
        let creation_time = match time_json(&self.creation_time) {
            Some(text) => text,
            None => {
                return None;
            },
        };
        let update_time = match time_json(&self.update_time) {
            Some(text) => text,
            None => {
                return None;
            },
        };
        let mut members: Members = Vec::new();
        put(&mut members, "id", u32_json(self.id));
        put(&mut members, "symbol", text_json(&self.symbol));
        put(&mut members, "symbolId", u32_json(self.symbol_id));
        put(&mut members, "totalQuantity", number_json(&self.total_quantity));
        put(&mut members, "openQuantity", number_json(&self.open_quantity));
        put(&mut members, "filledQuantity", number_json(&self.filled_quantity));
        put(&mut members, "canceledQuantity", number_json(&self.canceled_quantity));
        put(&mut members, "side", named_json(&self.side));
        put(&mut members, "orderType", named_json(&self.order_type));
        put(&mut members, "limitPrice", optional_number_json(&self.limit_price));
        put(&mut members, "stopPrice", optional_number_json(&self.stop_price));
        put(&mut members, "isAllOrNone", Json::Bool(self.is_all_or_none));
        put(&mut members, "isAnonymous", Json::Bool(self.is_anonymous));
        put(&mut members, "icebergQuantity", optional_number_json(&self.iceberg_quantity));
        put(&mut members, "minQuantity", optional_number_json(&self.min_quantity));
        put(&mut members, "avgExecPrice", optional_number_json(&self.avg_execution_price));
        put(&mut members, "lastExecPrice", optional_number_json(&self.last_execution_price));
        put(&mut members, "source", text_json(&self.source));
        put(&mut members, "timeInForce", named_json(&self.time_in_force));
        put(&mut members, "gtdDate", good_till_date);
        put(&mut members, "state", named_json(&self.state));
        put(&mut members, "clientReasonStr", optional_text_json(&self.rejection_reason));
        put(&mut members, "chainId", u32_json(self.chain_id));
        put(&mut members, "creationTime", creation_time);
        put(&mut members, "updateTime", update_time);
        put(&mut members, "notes", optional_text_json(&self.notes));
        put(&mut members, "primaryRoute", text_json(&self.primary_route));
        put(&mut members, "secondaryRoute", optional_text_json(&self.secondary_route));
        put(&mut members, "orderRoute", text_json(&self.order_route));
        put(&mut members, "venueHoldingOrder", optional_text_json(&self.venue_holding_order));
        put(&mut members, "comissionCharged", number_json(&self.commission_charged));
        put(&mut members, "exchangeOrderId", text_json(&self.exchange_order_id));
        put(&mut members, "isSignificantShareHolder", Json::Bool(self.is_significant_shareholder));
        put(&mut members, "isInsider", Json::Bool(self.is_insider));
        put(&mut members, "isLimitOffsetInDollar", Json::Bool(self.is_limit_offset_in_dollars));
        put(&mut members, "userId", u32_json(self.user_id));
        put(&mut members, "placementCommission", number_json(&self.placement_commission));
        put(&mut members, "strategyType", text_json(&self.strategy_type));
        put(&mut members, "triggerStopPrice", optional_number_json(&self.trigger_stop_price));
        put(&mut members, "orderGroupId", u32_json(self.order_group_id));
        put(&mut members, "orderClass", optional_text_json(&self.order_class));
        let j = Json::Object(members);
        proof {
            assert(names_of(j->Object_0@) =~= Self::member_names());
            self.lemma_round_trip(j);
        }
        Some(j)
    }
}

impl AccountOrder {
    /// Where `j` decodes to a record, each of the numeric members that may be `null` is taken as it
    /// is where it is a number, and as zero where it is `null`: it is never left out and never a
    /// reason to fail.
    pub proof fn lemma_null_is_zero(j: Json)
        requires
            Self::decoded(j) is Ok,
        ensures
            j is Object,
            ({
                let m = j->Object_0@;
                let record = Self::decoded(j)->Ok_0;
                let open_quantity = lookup(m, "openQuantity"@);
                let filled_quantity = lookup(m, "filledQuantity"@);
                let canceled_quantity = lookup(m, "canceledQuantity"@);
                let commission_charged = lookup(m, "comissionCharged"@);
                let placement_commission = lookup(m, "placementCommission"@);
                &&& open_quantity == Some(Json::Null) ==> record.open_quantity
                    == Number::zero()
                &&& open_quantity matches Some(Json::Number(n)) ==> record.open_quantity == n
                &&& filled_quantity == Some(Json::Null) ==> record.filled_quantity
                    == Number::zero()
                &&& filled_quantity matches Some(Json::Number(n)) ==> record.filled_quantity == n
                &&& canceled_quantity == Some(Json::Null) ==> record.canceled_quantity
                    == Number::zero()
                &&& canceled_quantity matches Some(Json::Number(n)) ==> record.canceled_quantity == n
                &&& commission_charged == Some(Json::Null) ==> record.commission_charged
                    == Number::zero()
                &&& commission_charged matches Some(Json::Number(n)) ==> record.commission_charged == n
                &&& placement_commission == Some(Json::Null) ==> record.placement_commission
                    == Number::zero()
                &&& placement_commission matches Some(Json::Number(n)) ==> record.placement_commission == n
            }),
    {
    }

    /// Where `j` decodes to a record, each of the text members in which the empty string stands for
    /// no value is absent where it is the empty string or `null`, and present with its text where
    /// it is any other string.
    pub proof fn lemma_empty_is_absent(j: Json)
        requires
            Self::decoded(j) is Ok,
        ensures
            j is Object,
            ({
                let m = j->Object_0@;
                let record = Self::decoded(j)->Ok_0;
                let rejection_reason = lookup_either(m, "clientReasonStr"@, "rejectionReason"@);
                let notes = lookup(m, "notes"@);
                let secondary_route = lookup(m, "secondaryRoute"@);
                let venue_holding_order = lookup(m, "venueHoldingOrder"@);
                &&& rejection_reason == Some(Json::Null) ==> record.rejection_reason is None
                &&& rejection_reason matches Some(Json::String(text)) ==> record.rejection_reason
                    == absent_if_empty(text)
                &&& notes == Some(Json::Null) ==> record.notes is None
                &&& notes matches Some(Json::String(text)) ==> record.notes
                    == absent_if_empty(text)
                &&& secondary_route == Some(Json::Null) ==> record.secondary_route is None
                &&& secondary_route matches Some(Json::String(text)) ==> record.secondary_route
                    == absent_if_empty(text)
                &&& venue_holding_order == Some(Json::Null) ==> record.venue_holding_order is None
                &&& venue_holding_order matches Some(Json::String(text)) ==> record.venue_holding_order
                    == absent_if_empty(text)
            }),
    {
    }
}

/// Client view of the side of an order.
#[derive(Clone, Copy, Debug, PartialEq, Eq, Structural)]
pub enum OrderSide {
    Buy,
    Sell,
    /// Sell short.
    Short,
    Cover,
    BuyToOpen,
    SellToClose,
    SellToOpen,
    BuyToClose,
}

impl Named for OrderSide {
    open spec fn kind() -> &'static str {
        "OrderSide"
    }

    open spec fn label(self) -> Seq<char> {
        match self {
            OrderSide::Buy => "Buy"@,
            OrderSide::Sell => "Sell"@,
            OrderSide::Short => "Short"@,
            OrderSide::Cover => "Cov"@,
            OrderSide::BuyToOpen => "BTO"@,
            OrderSide::SellToClose => "STC"@,
            OrderSide::SellToOpen => "STO"@,
            OrderSide::BuyToClose => "BTC"@,
        }
    }

    open spec fn named(text: Seq<char>) -> Option<OrderSide> {
        if text == "Buy"@ {
            Some(OrderSide::Buy)
        } else if text == "Sell"@ {
            Some(OrderSide::Sell)
        } else if text == "Short"@ {
            Some(OrderSide::Short)
        } else if text == "Cov"@ {
            Some(OrderSide::Cover)
        } else if text == "BTO"@ {
            Some(OrderSide::BuyToOpen)
        } else if text == "STC"@ {
            Some(OrderSide::SellToClose)
        } else if text == "STO"@ {
            Some(OrderSide::SellToOpen)
        } else if text == "BTC"@ {
            Some(OrderSide::BuyToClose)
        } else {
            None
        }
    }

    proof fn lemma_label_names(self) {
        reveal_strlit("Buy");
        reveal_strlit("Sell");
        reveal_strlit("Short");
        reveal_strlit("Cov");
        reveal_strlit("BTO");
        reveal_strlit("STC");
        reveal_strlit("STO");
        reveal_strlit("BTC");
        lemma_outline("Buy"@);
        lemma_outline("Sell"@);
        lemma_outline("Short"@);
        lemma_outline("Cov"@);
        lemma_outline("BTO"@);
        lemma_outline("STC"@);
        lemma_outline("STO"@);
        lemma_outline("BTC"@);
    }

    fn kind_name() -> (r: &'static str) {
        "OrderSide"
    }

    fn name(&self) -> (r: &'static str) {
        match self {
            OrderSide::Buy => "Buy",
            OrderSide::Sell => "Sell",
            OrderSide::Short => "Short",
            OrderSide::Cover => "Cov",
            OrderSide::BuyToOpen => "BTO",
            OrderSide::SellToClose => "STC",
            OrderSide::SellToOpen => "STO",
            OrderSide::BuyToClose => "BTC",
        }
    }

    fn from_name(text: &str) -> (r: Option<OrderSide>) {
        if same_text(text, "Buy") {
            Some(OrderSide::Buy)
        } else if same_text(text, "Sell") {
            Some(OrderSide::Sell)
        } else if same_text(text, "Short") {
            Some(OrderSide::Short)
        } else if same_text(text, "Cov") {
            Some(OrderSide::Cover)
        } else if same_text(text, "BTO") {
            Some(OrderSide::BuyToOpen)
        } else if same_text(text, "STC") {
            Some(OrderSide::SellToClose)
        } else if same_text(text, "STO") {
            Some(OrderSide::SellToOpen)
        } else if same_text(text, "BTC") {
            Some(OrderSide::BuyToClose)
        } else {
            None
        }
    }
}

/// Price type of an order.
#[derive(Clone, Copy, Debug, PartialEq, Eq, Structural)]
pub enum OrderType {
    Market,
    Limit,
    Stop,
    StopLimit,
    TrailStopInPercentage,
    TrailStopInDollar,
    TrailStopLimitInPercentage,
    TrailStopLimitInDollar,
    LimitOnOpen,
    LimitOnClose,
}

impl Named for OrderType {
    open spec fn kind() -> &'static str {
        "OrderType"
    }

    open spec fn label(self) -> Seq<char> {
        match self {
            OrderType::Market => "Market"@,
            OrderType::Limit => "Limit"@,
            OrderType::Stop => "Stop"@,
            OrderType::StopLimit => "StopLimit"@,
            OrderType::TrailStopInPercentage => "TrailStopInPercentage"@,
            OrderType::TrailStopInDollar => "TrailStopInDollar"@,
            OrderType::TrailStopLimitInPercentage => "TrailStopLimitInPercentage"@,
            OrderType::TrailStopLimitInDollar => "TrailStopLimitInDollar"@,
            OrderType::LimitOnOpen => "LimitOnOpen"@,
            OrderType::LimitOnClose => "LimitOnClose"@,
        }
    }

    open spec fn named(text: Seq<char>) -> Option<OrderType> {
        if text == "Market"@ {
            Some(OrderType::Market)
        } else if text == "Limit"@ {
            Some(OrderType::Limit)
        } else if text == "Stop"@ {
            Some(OrderType::Stop)
        } else if text == "StopLimit"@ {
            Some(OrderType::StopLimit)
        } else if text == "TrailStopInPercentage"@ {
            Some(OrderType::TrailStopInPercentage)
        } else if text == "TrailStopInDollar"@ {
            Some(OrderType::TrailStopInDollar)
        } else if text == "TrailStopLimitInPercentage"@ {
            Some(OrderType::TrailStopLimitInPercentage)
        } else if text == "TrailStopLimitInDollar"@ {
            Some(OrderType::TrailStopLimitInDollar)
        } else if text == "LimitOnOpen"@ {
            Some(OrderType::LimitOnOpen)
        } else if text == "LimitOnClose"@ {
            Some(OrderType::LimitOnClose)
        } else {
            None
        }
    }

    proof fn lemma_label_names(self) {
        reveal_strlit("Market");
        reveal_strlit("Limit");
        reveal_strlit("Stop");
        reveal_strlit("StopLimit");
        reveal_strlit("TrailStopInPercentage");
        reveal_strlit("TrailStopInDollar");
        reveal_strlit("TrailStopLimitInPercentage");
        reveal_strlit("TrailStopLimitInDollar");
        reveal_strlit("LimitOnOpen");
        reveal_strlit("LimitOnClose");
        lemma_outline("Market"@);
        lemma_outline("Limit"@);
        lemma_outline("Stop"@);
        lemma_outline("StopLimit"@);
        lemma_outline("TrailStopInPercentage"@);
        lemma_outline("TrailStopInDollar"@);
        lemma_outline("TrailStopLimitInPercentage"@);
        lemma_outline("TrailStopLimitInDollar"@);
        lemma_outline("LimitOnOpen"@);
        lemma_outline("LimitOnClose"@);
    }

    fn kind_name() -> (r: &'static str) {
        "OrderType"
    }

    fn name(&self) -> (r: &'static str) {
        match self {
            OrderType::Market => "Market",
            OrderType::Limit => "Limit",
            OrderType::Stop => "Stop",
            OrderType::StopLimit => "StopLimit",
            OrderType::TrailStopInPercentage => "TrailStopInPercentage",
            OrderType::TrailStopInDollar => "TrailStopInDollar",
            OrderType::TrailStopLimitInPercentage => "TrailStopLimitInPercentage",
            OrderType::TrailStopLimitInDollar => "TrailStopLimitInDollar",
            OrderType::LimitOnOpen => "LimitOnOpen",
            OrderType::LimitOnClose => "LimitOnClose",
        }
    }

    fn from_name(text: &str) -> (r: Option<OrderType>) {
        if same_text(text, "Market") {
            Some(OrderType::Market)
        } else if same_text(text, "Limit") {
            Some(OrderType::Limit)
        } else if same_text(text, "Stop") {
            Some(OrderType::Stop)
        } else if same_text(text, "StopLimit") {
            Some(OrderType::StopLimit)
        } else if same_text(text, "TrailStopInPercentage") {
            Some(OrderType::TrailStopInPercentage)
        } else if same_text(text, "TrailStopInDollar") {
            Some(OrderType::TrailStopInDollar)
        } else if same_text(text, "TrailStopLimitInPercentage") {
            Some(OrderType::TrailStopLimitInPercentage)
        } else if same_text(text, "TrailStopLimitInDollar") {
            Some(OrderType::TrailStopLimitInDollar)
        } else if same_text(text, "LimitOnOpen") {
            Some(OrderType::LimitOnOpen)
        } else if same_text(text, "LimitOnClose") {
            Some(OrderType::LimitOnClose)
        } else {
            None
        }
    }
}

/// How long an order stays in force.
#[derive(Clone, Copy, Debug, PartialEq, Eq, Structural)]
pub enum OrderTimeInForce {
    Day,
    GoodTillCanceled,
    GoodTillExtendedDay,
    GoodTillDate,
    ImmediateOrCancel,
    FillOrKill,
}

impl Named for OrderTimeInForce {
    open spec fn kind() -> &'static str {
        "OrderTimeInForce"
    }

    open spec fn label(self) -> Seq<char> {
        match self {
            OrderTimeInForce::Day => "Day"@,
            OrderTimeInForce::GoodTillCanceled => "GoodTillCanceled"@,
            OrderTimeInForce::GoodTillExtendedDay => "GoodTillExtendedDay"@,
            OrderTimeInForce::GoodTillDate => "GoodTillDate"@,
            OrderTimeInForce::ImmediateOrCancel => "ImmediateOrCancel"@,
            OrderTimeInForce::FillOrKill => "FillOrKill"@,
        }
    }

    open spec fn named(text: Seq<char>) -> Option<OrderTimeInForce> {
        if text == "Day"@ {
            Some(OrderTimeInForce::Day)
        } else if text == "GoodTillCanceled"@ {
            Some(OrderTimeInForce::GoodTillCanceled)
        } else if text == "GoodTillExtendedDay"@ {
            Some(OrderTimeInForce::GoodTillExtendedDay)
        } else if text == "GoodTillDate"@ {
            Some(OrderTimeInForce::GoodTillDate)
        } else if text == "ImmediateOrCancel"@ {
            Some(OrderTimeInForce::ImmediateOrCancel)
        } else if text == "FillOrKill"@ {
            Some(OrderTimeInForce::FillOrKill)
        } else {
            None
        }
    }

    proof fn lemma_label_names(self) {
        reveal_strlit("Day");
        reveal_strlit("GoodTillCanceled");
        reveal_strlit("GoodTillExtendedDay");
        reveal_strlit("GoodTillDate");
        reveal_strlit("ImmediateOrCancel");
        reveal_strlit("FillOrKill");
        lemma_outline("Day"@);
        lemma_outline("GoodTillCanceled"@);
        lemma_outline("GoodTillExtendedDay"@);
        lemma_outline("GoodTillDate"@);
        lemma_outline("ImmediateOrCancel"@);
        lemma_outline("FillOrKill"@);
    }

    fn kind_name() -> (r: &'static str) {
        "OrderTimeInForce"
    }

    fn name(&self) -> (r: &'static str) {
        match self {
            OrderTimeInForce::Day => "Day",
            OrderTimeInForce::GoodTillCanceled => "GoodTillCanceled",
            OrderTimeInForce::GoodTillExtendedDay => "GoodTillExtendedDay",
            OrderTimeInForce::GoodTillDate => "GoodTillDate",
            OrderTimeInForce::ImmediateOrCancel => "ImmediateOrCancel",
            OrderTimeInForce::FillOrKill => "FillOrKill",
        }
    }

    fn from_name(text: &str) -> (r: Option<OrderTimeInForce>) {
        if same_text(text, "Day") {
            Some(OrderTimeInForce::Day)
        } else if same_text(text, "GoodTillCanceled") {
            Some(OrderTimeInForce::GoodTillCanceled)
        } else if same_text(text, "GoodTillExtendedDay") {
            Some(OrderTimeInForce::GoodTillExtendedDay)
        } else if same_text(text, "GoodTillDate") {
            Some(OrderTimeInForce::GoodTillDate)
        } else if same_text(text, "ImmediateOrCancel") {
            Some(OrderTimeInForce::ImmediateOrCancel)
        } else if same_text(text, "FillOrKill") {
            Some(OrderTimeInForce::FillOrKill)
        } else {
            None
        }
    }
}

/// State of an order.
#[derive(Clone, Copy, Debug, PartialEq, Eq, Structural)]
pub enum OrderState {
    Failed,
    Pending,
    Accepted,
    Rejected,
    CancelPending,
    Canceled,
    PartialCanceled,
    Partial,
    Executed,
    ReplacePending,
    Replaced,
    Stopped,
    Suspended,
    Expired,
    Queued,
    Triggered,
    Activated,
    PendingRiskReview,
    ContingentOrder,
}

impl Named for OrderState {
    open spec fn kind() -> &'static str {
        "OrderState"
    }

    open spec fn label(self) -> Seq<char> {
        match self {
            OrderState::Failed => "Failed"@,
            OrderState::Pending => "Pending"@,
            OrderState::Accepted => "Accepted"@,
            OrderState::Rejected => "Rejected"@,
            OrderState::CancelPending => "CancelPending"@,
            OrderState::Canceled => "Canceled"@,
            OrderState::PartialCanceled => "PartialCanceled"@,
            OrderState::Partial => "Partial"@,
            OrderState::Executed => "Executed"@,
            OrderState::ReplacePending => "ReplacePending"@,
            OrderState::Replaced => "Replaced"@,
            OrderState::Stopped => "Stopped"@,
            OrderState::Suspended => "Suspended"@,
            OrderState::Expired => "Expired"@,
            OrderState::Queued => "Queued"@,
            OrderState::Triggered => "Triggered"@,
            OrderState::Activated => "Activated"@,
            OrderState::PendingRiskReview => "PendingRiskReview"@,
            OrderState::ContingentOrder => "ContingentOrder"@,
        }
    }

    open spec fn named(text: Seq<char>) -> Option<OrderState> {
        if text == "Failed"@ {
            Some(OrderState::Failed)
        } else if text == "Pending"@ {
            Some(OrderState::Pending)
        } else if text == "Accepted"@ {
            Some(OrderState::Accepted)
        } else if text == "Rejected"@ {
            Some(OrderState::Rejected)
        } else if text == "CancelPending"@ {
            Some(OrderState::CancelPending)
        } else if text == "Canceled"@ {
            Some(OrderState::Canceled)
        } else if text == "PartialCanceled"@ {
            Some(OrderState::PartialCanceled)
        } else if text == "Partial"@ {
            Some(OrderState::Partial)
        } else if text == "Executed"@ {
            Some(OrderState::Executed)
        } else if text == "ReplacePending"@ {
            Some(OrderState::ReplacePending)
        } else if text == "Replaced"@ {
            Some(OrderState::Replaced)
        } else if text == "Stopped"@ {
            Some(OrderState::Stopped)
        } else if text == "Suspended"@ {
            Some(OrderState::Suspended)
        } else if text == "Expired"@ {
            Some(OrderState::Expired)
        } else if text == "Queued"@ {
            Some(OrderState::Queued)
        } else if text == "Triggered"@ {
            Some(OrderState::Triggered)
        } else if text == "Activated"@ {
            Some(OrderState::Activated)
        } else if text == "PendingRiskReview"@ {
            Some(OrderState::PendingRiskReview)
        } else if text == "ContingentOrder"@ {
            Some(OrderState::ContingentOrder)
        } else {
            None
        }
    }

    proof fn lemma_label_names(self) {
        reveal_strlit("Failed");
        reveal_strlit("Pending");
        reveal_strlit("Accepted");
        reveal_strlit("Rejected");
        reveal_strlit("CancelPending");
        reveal_strlit("Canceled");
        reveal_strlit("PartialCanceled");
        reveal_strlit("Partial");
        reveal_strlit("Executed");
        reveal_strlit("ReplacePending");
        reveal_strlit("Replaced");
        reveal_strlit("Stopped");
        reveal_strlit("Suspended");
        reveal_strlit("Expired");
        reveal_strlit("Queued");
        reveal_strlit("Triggered");
        reveal_strlit("Activated");
        reveal_strlit("PendingRiskReview");
        reveal_strlit("ContingentOrder");
        lemma_outline("Failed"@);
        lemma_outline("Pending"@);
        lemma_outline("Accepted"@);
        lemma_outline("Rejected"@);
        lemma_outline("CancelPending"@);
        lemma_outline("Canceled"@);
        lemma_outline("PartialCanceled"@);
        lemma_outline("Partial"@);
        lemma_outline("Executed"@);
        lemma_outline("ReplacePending"@);
        lemma_outline("Replaced"@);
        lemma_outline("Stopped"@);
        lemma_outline("Suspended"@);
        lemma_outline("Expired"@);
        lemma_outline("Queued"@);
        lemma_outline("Triggered"@);
        lemma_outline("Activated"@);
        lemma_outline("PendingRiskReview"@);
        lemma_outline("ContingentOrder"@);
    }

    fn kind_name() -> (r: &'static str) {
        "OrderState"
    }

    fn name(&self) -> (r: &'static str) {
        match self {
            OrderState::Failed => "Failed",
            OrderState::Pending => "Pending",
            OrderState::Accepted => "Accepted",
            OrderState::Rejected => "Rejected",
            OrderState::CancelPending => "CancelPending",
            OrderState::Canceled => "Canceled",
            OrderState::PartialCanceled => "PartialCanceled",
            OrderState::Partial => "Partial",
            OrderState::Executed => "Executed",
            OrderState::ReplacePending => "ReplacePending",
            OrderState::Replaced => "Replaced",
            OrderState::Stopped => "Stopped",
            OrderState::Suspended => "Suspended",
            OrderState::Expired => "Expired",
            OrderState::Queued => "Queued",
            OrderState::Triggered => "Triggered",
            OrderState::Activated => "Activated",
            OrderState::PendingRiskReview => "PendingRiskReview",
            OrderState::ContingentOrder => "ContingentOrder",
        }
    }

    fn from_name(text: &str) -> (r: Option<OrderState>) {
        if same_text(text, "Failed") {
            Some(OrderState::Failed)
        } else if same_text(text, "Pending") {
            Some(OrderState::Pending)
        } else if same_text(text, "Accepted") {
            Some(OrderState::Accepted)
        } else if same_text(text, "Rejected") {
            Some(OrderState::Rejected)
        } else if same_text(text, "CancelPending") {
            Some(OrderState::CancelPending)
        } else if same_text(text, "Canceled") {
            Some(OrderState::Canceled)
        } else if same_text(text, "PartialCanceled") {
            Some(OrderState::PartialCanceled)
        } else if same_text(text, "Partial") {
            Some(OrderState::Partial)
        } else if same_text(text, "Executed") {
            Some(OrderState::Executed)
        } else if same_text(text, "ReplacePending") {
            Some(OrderState::ReplacePending)
        } else if same_text(text, "Replaced") {
            Some(OrderState::Replaced)
        } else if same_text(text, "Stopped") {
            Some(OrderState::Stopped)
        } else if same_text(text, "Suspended") {
            Some(OrderState::Suspended)
        } else if same_text(text, "Expired") {
            Some(OrderState::Expired)
        } else if same_text(text, "Queued") {
            Some(OrderState::Queued)
        } else if same_text(text, "Triggered") {
            Some(OrderState::Triggered)
        } else if same_text(text, "Activated") {
            Some(OrderState::Activated)
        } else if same_text(text, "PendingRiskReview") {
            Some(OrderState::PendingRiskReview)
        } else if same_text(text, "ContingentOrder") {
            Some(OrderState::ContingentOrder)
        } else {
            None
        }
    }
}

/// Which orders a search returns, by their state.
#[derive(Clone, Copy, Debug, PartialEq, Eq, Structural)]
pub enum OrderStateFilter {
    All,
    Open,
    Closed,
}

impl Named for OrderStateFilter {
    open spec fn kind() -> &'static str {
        "OrderStateFilter"
    }

    open spec fn label(self) -> Seq<char> {
        match self {
            OrderStateFilter::All => "All"@,
            OrderStateFilter::Open => "Open"@,
            OrderStateFilter::Closed => "Closed"@,
        }
    }

    open spec fn named(text: Seq<char>) -> Option<OrderStateFilter> {
        if text == "All"@ {
            Some(OrderStateFilter::All)
        } else if text == "Open"@ {
            Some(OrderStateFilter::Open)
        } else if text == "Closed"@ {
            Some(OrderStateFilter::Closed)
        } else {
            None
        }
    }

    proof fn lemma_label_names(self) {
        reveal_strlit("All");
        reveal_strlit("Open");
        reveal_strlit("Closed");
        lemma_outline("All"@);
        lemma_outline("Open"@);
        lemma_outline("Closed"@);
    }

    fn kind_name() -> (r: &'static str) {
        "OrderStateFilter"
    }

    fn name(&self) -> (r: &'static str) {
        match self {
            OrderStateFilter::All => "All",
            OrderStateFilter::Open => "Open",
            OrderStateFilter::Closed => "Closed",
        }
    }

    fn from_name(text: &str) -> (r: Option<OrderStateFilter>) {
        if same_text(text, "All") {
            Some(OrderStateFilter::All)
        } else if same_text(text, "Open") {
            Some(OrderStateFilter::Open)
        } else if same_text(text, "Closed") {
            Some(OrderStateFilter::Closed)
        } else {
            None
        }
    }
}

/// An account execution.
#[derive(Clone, Debug, PartialEq, Eq)]
pub struct AccountExecution {
    /// Internal identifier of the execution.
    pub id: u32,
    /// Internal identifier of the order to which the execution belongs.
    pub order_id: u32,
    /// Symbol that follows Questrade symbology (e.g., "TD.TO").
    pub symbol: String,
    /// Internal symbol identifier.
    pub symbol_id: u32,
    /// Execution quantity.
    pub quantity: Number,
    /// Client view of the order side (e.g., "Buy-To-Open").
    pub side: OrderSide,
    /// Execution price.
    pub price: Number,
    /// Internal identifier of the order chain to which the execution belongs.
    pub order_chain_id: u32,
    /// Execution timestamp.
    pub timestamp: DateTime,
    /// Notes that may have been manually added by Questrade staff; absent where the server sends
    /// the empty string.
    pub notes: Option<String>,
    /// Questrade commission.
    pub commission: Number,
    /// Liquidity fee charged by execution venue.
    pub execution_fee: Number,
    /// SEC fee charged on all sales of US securities.
    pub sec_fee: Number,
    /// Additional execution fee charged by TSX (if applicable).
    pub canadian_execution_fee: Number,
    /// Internal identifier of the parent order.
    pub parent_id: u32,
}

impl FromJson for AccountExecution {
    open spec fn wf(&self) -> bool {
        &&& present_text(self.notes)
    }

    open spec fn decoded(j: Json) -> Result<AccountExecution, ApiError> {
        match j {
            Json::Object(members) => {
                let m = members@;
                let id = u32_from(lookup(m, "id"@), "id");
                let order_id = u32_from(lookup(m, "orderId"@), "orderId");
                let symbol = string_from(lookup(m, "symbol"@), "symbol");
                let symbol_id = u32_from(lookup(m, "symbolId"@), "symbolId");
                let quantity = number_from(lookup(m, "quantity"@), "quantity");
                let side = named_from::<OrderSide>(lookup(m, "side"@), "side");
                let price = number_from(lookup(m, "price"@), "price");
                let order_chain_id = u32_from(lookup(m, "orderChainId"@), "orderChainId");
                let timestamp = time_from(lookup(m, "timestamp"@), "timestamp");
                let notes = empty_as_none_from(lookup(m, "notes"@), "notes");
                let commission = number_from(lookup(m, "commission"@), "commission");
                let execution_fee = number_from(lookup(m, "executionFee"@), "executionFee");
                let sec_fee = number_from(lookup(m, "secFee"@), "secFee");
                let canadian_execution_fee = number_from(
                    lookup(m, "canadianExecutionFee"@),
                    "canadianExecutionFee",
                );
                let parent_id = u32_from(lookup(m, "parentId"@), "parentId");
                if id is Err {
                    Err(id->Err_0)
                } else if order_id is Err {
                    Err(order_id->Err_0)
                } else if symbol is Err {
                    Err(symbol->Err_0)
                } else if symbol_id is Err {
                    Err(symbol_id->Err_0)
                } else if quantity is Err {
                    Err(quantity->Err_0)
                } else if side is Err {
                    Err(side->Err_0)
                } else if price is Err {
                    Err(price->Err_0)
                } else if order_chain_id is Err {
                    Err(order_chain_id->Err_0)
                } else if timestamp is Err {
                    Err(timestamp->Err_0)
                } else if notes is Err {
                    Err(notes->Err_0)
                } else if commission is Err {
                    Err(commission->Err_0)
                } else if execution_fee is Err {
                    Err(execution_fee->Err_0)
                } else if sec_fee is Err {
                    Err(sec_fee->Err_0)
                } else if canadian_execution_fee is Err {
                    Err(canadian_execution_fee->Err_0)
                } else if parent_id is Err {
                    Err(parent_id->Err_0)
                } else {
                    Ok(AccountExecution {
                        id: id->Ok_0,
                        order_id: order_id->Ok_0,
                        symbol: symbol->Ok_0,
                        symbol_id: symbol_id->Ok_0,
                        quantity: quantity->Ok_0,
                        side: side->Ok_0,
                        price: price->Ok_0,
                        order_chain_id: order_chain_id->Ok_0,
                        timestamp: timestamp->Ok_0,
                        notes: notes->Ok_0,
                        commission: commission->Ok_0,
                        execution_fee: execution_fee->Ok_0,
                        sec_fee: sec_fee->Ok_0,
                        canadian_execution_fee: canadian_execution_fee->Ok_0,
                        parent_id: parent_id->Ok_0,
                    })
                }
            },
            _ => Err(ApiError::InvalidTypeError("AccountExecution", "object")),
        }
    }

    fn from_json(j: &Json) -> (r: Result<AccountExecution, ApiError>) {
        match j {
            Json::Object(members) => {
                let id = read_u32(find(members, "id"), "id")?;
                let order_id = read_u32(find(members, "orderId"), "orderId")?;
                let symbol = read_string(find(members, "symbol"), "symbol")?;
                let symbol_id = read_u32(find(members, "symbolId"), "symbolId")?;
                let quantity = read_number(find(members, "quantity"), "quantity")?;
                let side = read_named::<OrderSide>(find(members, "side"), "side")?;
                let price = read_number(find(members, "price"), "price")?;
                let order_chain_id = read_u32(find(members, "orderChainId"), "orderChainId")?;
                let timestamp = read_time(find(members, "timestamp"), "timestamp")?;
                let notes = read_empty_as_none(find(members, "notes"), "notes")?;
                let commission = read_number(find(members, "commission"), "commission")?;
                let execution_fee = read_number(find(members, "executionFee"), "executionFee")?;
                let sec_fee = read_number(find(members, "secFee"), "secFee")?;
                let canadian_execution_fee = read_number(
                    find(members, "canadianExecutionFee"),
                    "canadianExecutionFee",
                )?;
                let parent_id = read_u32(find(members, "parentId"), "parentId")?;
                Ok(AccountExecution {
                    id,
                    order_id,
                    symbol,
                    symbol_id,
                    quantity,
                    side,
                    price,
                    order_chain_id,
                    timestamp,
                    notes,
                    commission,
                    execution_fee,
                    sec_fee,
                    canadian_execution_fee,
                    parent_id,
                })
            },
            _ => Err(ApiError::InvalidTypeError("AccountExecution", "object")),
        }
    }
}

impl AccountExecution {
    /// In an object with the member names of the JSON form, each name finds the
    /// member at its own place: no two of the names are the same.
    pub proof fn lemma_members_found(members: Seq<(String, Json)>)
        requires
            names_of(members) == Self::member_names(),
        ensures
            lookup(members, "id"@) == Some(members[0].1),
            lookup(members, "orderId"@) == Some(members[1].1),
            lookup(members, "symbol"@) == Some(members[2].1),
            lookup(members, "symbolId"@) == Some(members[3].1),
            lookup(members, "quantity"@) == Some(members[4].1),
            lookup(members, "side"@) == Some(members[5].1),
            lookup(members, "price"@) == Some(members[6].1),
            lookup(members, "orderChainId"@) == Some(members[7].1),
            lookup(members, "timestamp"@) == Some(members[8].1),
            lookup(members, "notes"@) == Some(members[9].1),
            lookup(members, "commission"@) == Some(members[10].1),
            lookup(members, "executionFee"@) == Some(members[11].1),
            lookup(members, "secFee"@) == Some(members[12].1),
            lookup(members, "canadianExecutionFee"@) == Some(members[13].1),
            lookup(members, "parentId"@) == Some(members[14].1),
    {
        reveal_strlit("id");
        reveal_strlit("orderId");
        reveal_strlit("symbol");
        reveal_strlit("symbolId");
        reveal_strlit("quantity");
        reveal_strlit("side");
        reveal_strlit("price");
        reveal_strlit("orderChainId");
        reveal_strlit("timestamp");
        reveal_strlit("notes");
        reveal_strlit("commission");
        reveal_strlit("executionFee");
        reveal_strlit("secFee");
        reveal_strlit("canadianExecutionFee");
        reveal_strlit("parentId");
        lemma_outline("id"@);
        lemma_outline("orderId"@);
        lemma_outline("symbol"@);
        lemma_outline("symbolId"@);
        lemma_outline("quantity"@);
        lemma_outline("side"@);
        lemma_outline("price"@);
        lemma_outline("orderChainId"@);
        lemma_outline("timestamp"@);
        lemma_outline("notes"@);
        lemma_outline("commission"@);
        lemma_outline("executionFee"@);
        lemma_outline("secFee"@);
        lemma_outline("canadianExecutionFee"@);
        lemma_outline("parentId"@);
        let names = Self::member_names();
        assert forall|i: int, j: int|
            0 <= i < names.len() && 0 <= j < names.len() && i != j implies names[i]
            != names[j] by {}
        lemma_lookup_by_name(members, 0);
        lemma_lookup_by_name(members, 1);
        lemma_lookup_by_name(members, 2);
        lemma_lookup_by_name(members, 3);
        lemma_lookup_by_name(members, 4);
        lemma_lookup_by_name(members, 5);
        lemma_lookup_by_name(members, 6);
        lemma_lookup_by_name(members, 7);
        lemma_lookup_by_name(members, 8);
        lemma_lookup_by_name(members, 9);
        lemma_lookup_by_name(members, 10);
        lemma_lookup_by_name(members, 11);
        lemma_lookup_by_name(members, 12);
        lemma_lookup_by_name(members, 13);
        lemma_lookup_by_name(members, 14);
    }
}

impl ToJson for AccountExecution {
    open spec fn encodable(&self) -> bool {
        &&& self.wf()
        &&& self.timestamp.survives_json()
    }

    open spec fn member_names() -> Seq<Seq<char>> {
        seq![
            "id"@,
            "orderId"@,
            "symbol"@,
            "symbolId"@,
            "quantity"@,
            "side"@,
            "price"@,
            "orderChainId"@,
            "timestamp"@,
            "notes"@,
            "commission"@,
            "executionFee"@,
            "secFee"@,
            "canadianExecutionFee"@,
            "parentId"@,
        ]
    }

    open spec fn written(&self, members: Seq<(String, Json)>) -> bool {
        &&& members.len() == 15
        &&& members[0].1 == whole_number(self.id)
        &&& members[1].1 == whole_number(self.order_id)
        &&& members[2].1 == Json::String(self.symbol)
        &&& members[3].1 == whole_number(self.symbol_id)
        &&& members[4].1 == Json::Number(self.quantity)
        &&& is_label_json(members[5].1, self.side.label())
        &&& members[6].1 == Json::Number(self.price)
        &&& members[7].1 == whole_number(self.order_chain_id)
        &&& is_time_json(members[8].1, self.timestamp)
        &&& members[9].1 == optional_text(self.notes)
        &&& members[10].1 == Json::Number(self.commission)
        &&& members[11].1 == Json::Number(self.execution_fee)
        &&& members[12].1 == Json::Number(self.sec_fee)
        &&& members[13].1 == Json::Number(self.canadian_execution_fee)
        &&& members[14].1 == whole_number(self.parent_id)
    }

    proof fn lemma_round_trip(&self, j: Json) {
        self.side.lemma_label_names();
        Self::lemma_members_found(j->Object_0@);
    }

    fn to_json(&self) -> (r: Option<Json>) {
        if !is_present_text(&self.notes) {
            return None;
        }
        let timestamp = match time_json(&self.timestamp) {
            Some(text) => text,
            None => {
                return None;
            },
        };
        let mut members: Members = Vec::new();
        put(&mut members, "id", u32_json(self.id));
        put(&mut members, "orderId", u32_json(self.order_id));
        put(&mut members, "symbol", text_json(&self.symbol));
        put(&mut members, "symbolId", u32_json(self.symbol_id));
        put(&mut members, "quantity", number_json(&self.quantity));
        put(&mut members, "side", named_json(&self.side));
        put(&mut members, "price", number_json(&self.price));
        put(&mut members, "orderChainId", u32_json(self.order_chain_id));
        put(&mut members, "timestamp", timestamp);
        put(&mut members, "notes", optional_text_json(&self.notes));
        put(&mut members, "commission", number_json(&self.commission));
        put(&mut members, "executionFee", number_json(&self.execution_fee));
        put(&mut members, "secFee", number_json(&self.sec_fee));
        put(&mut members, "canadianExecutionFee", number_json(&self.canadian_execution_fee));
        put(&mut members, "parentId", u32_json(self.parent_id));
        let j = Json::Object(members);
        proof {
            assert(names_of(j->Object_0@) =~= Self::member_names());
            self.lemma_round_trip(j);
        }
        Some(j)
    }
}

impl AccountExecution {
    /// Where `j` decodes to a record, each of the text members in which the empty string stands for
    /// no value is absent where it is the empty string or `null`, and present with its text where
    /// it is any other string.
    pub proof fn lemma_empty_is_absent(j: Json)
        requires
            Self::decoded(j) is Ok,
        ensures
            j is Object,
            ({
                let m = j->Object_0@;
                let record = Self::decoded(j)->Ok_0;
                let notes = lookup(m, "notes"@);
                &&& notes == Some(Json::Null) ==> record.notes is None
                &&& notes matches Some(Json::String(text)) ==> record.notes
                    == absent_if_empty(text)
            }),
    {
    }
}

} // verus!
