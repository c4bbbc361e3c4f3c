//! Market quotes and symbol search.

use crate::account::Currency;
use crate::decode::{
    absent_if_empty, bool_from, empty_as_none_from, flag_from, named_from, number_from,
    optional_number_from, read_bool, read_empty_as_none, read_flag, read_named, read_number,
    read_optional_number, read_string, read_u32, string_from, u32_from, FromJson, Members, Named,
    ToJson,
};
use crate::encode::{
    flag_json, flag_number, is_label_json, is_present_text, named_json, number_json,
    optional_number, optional_number_json, optional_text, optional_text_json, present_text,
    text_json, u32_json, whole_number,
};
use crate::error::ApiError;
use crate::json::{find, lemma_lookup_by_name, lookup, names_of, put, Json, Number};
use crate::text::{lemma_outline, same_text};
use vstd::prelude::*;

verus! {

/// Spot quote for a certain equity.
#[derive(Clone, Debug, PartialEq, Eq)]
pub struct MarketQuote {
    /// Symbol name following Questrade's symbology.
    pub symbol: String,
    /// Internal symbol identifier.
    pub symbol_id: u32,
    /// Market tier; absent where the server sends the empty string.
    pub tier: Option<String>,
    /// Bid price.
    pub bid_price: Option<Number>,
    /// Bid quantity.
    pub bid_size: u32,
    /// Ask price.
    pub ask_price: Option<Number>,
    /// Ask quantity.
    pub ask_size: u32,
    /// Price of the last trade during regular trade hours: the closing price.
    pub last_trade_price_tr_hrs: Number,
    /// Price of the last trade. May include after-hours trading.
    pub last_trade_price: Number,
    /// Quantity of the last trade.
    pub last_trade_size: u32,
    /// Trade direction.
    pub last_trade_tick: TickType,
    /// Daily trading volume.
    pub volume: u32,
    /// Opening trade price.
    pub open_price: Number,
    /// Daily high price.
    pub high_price: Number,
    /// Daily low price.
    pub low_price: Number,
    /// Whether a quote is delayed or real-time. If `true` then the quote is delayed 15 minutes.
    /// Sent as the integer 0 or 1.
    pub delay: bool,
    /// Whether trading in the symbol is currently halted.
    pub is_halted: bool,
}

impl FromJson for MarketQuote {
    open spec fn wf(&self) -> bool {
        &&& present_text(self.tier)
    }

    open spec fn decoded(j: Json) -> Result<MarketQuote, ApiError> {
        match j {
            Json::Object(members) => {
                let m = members@;
                let symbol = string_from(lookup(m, "symbol"@), "symbol");
                let symbol_id = u32_from(lookup(m, "symbolId"@), "symbolId");
                let tier = empty_as_none_from(lookup(m, "tier"@), "tier");
                let bid_price = optional_number_from(lookup(m, "bidPrice"@), "bidPrice");
                let bid_size = u32_from(lookup(m, "bidSize"@), "bidSize");
                let ask_price = optional_number_from(lookup(m, "askPrice"@), "askPrice");
                let ask_size = u32_from(lookup(m, "askSize"@), "askSize");
                let last_trade_price_tr_hrs = number_from(
                    lookup(m, "lastTradePriceTrHrs"@),
                    "lastTradePriceTrHrs",
                );
                let last_trade_price = number_from(lookup(m, "lastTradePrice"@), "lastTradePrice");
                let last_trade_size = u32_from(lookup(m, "lastTradeSize"@), "lastTradeSize");
                let last_trade_tick = named_from::<TickType>(
                    lookup(m, "lastTradeTick"@),
                    "lastTradeTick",
                );
                let volume = u32_from(lookup(m, "volume"@), "volume");
                let open_price = number_from(lookup(m, "openPrice"@), "openPrice");
                let high_price = number_from(lookup(m, "highPrice"@), "highPrice");
                let low_price = number_from(lookup(m, "lowPrice"@), "lowPrice");
                let delay = flag_from(lookup(m, "delay"@), "delay");
                let is_halted = bool_from(lookup(m, "isHalted"@), "isHalted");
                if symbol is Err {
                    Err(symbol->Err_0)
                } else if symbol_id is Err {
                    Err(symbol_id->Err_0)
                } else if tier is Err {
                    Err(tier->Err_0)
                } else if bid_price is Err {
                    Err(bid_price->Err_0)
                } else if bid_size is Err {
                    Err(bid_size->Err_0)
                } else if ask_price is Err {
                    Err(ask_price->Err_0)
                } else if ask_size is Err {
                    Err(ask_size->Err_0)
                } else if last_trade_price_tr_hrs is Err {
                    Err(last_trade_price_tr_hrs->Err_0)
                } else if last_trade_price is Err {
                    Err(last_trade_price->Err_0)
                } else if last_trade_size is Err {
                    Err(last_trade_size->Err_0)
                } else if last_trade_tick is Err {
                    Err(last_trade_tick->Err_0)
                } else if volume is Err {
                    Err(volume->Err_0)
                } else if open_price is Err {
                    Err(open_price->Err_0)
                } else if high_price is Err {
                    Err(high_price->Err_0)
                } else if low_price is Err {
                    Err(low_price->Err_0)
                } else if delay is Err {
                    Err(delay->Err_0)
                } else if is_halted is Err {
                    Err(is_halted->Err_0)
                } else {
                    Ok(MarketQuote {
                        symbol: symbol->Ok_0,
                        symbol_id: symbol_id->Ok_0,
                        tier: tier->Ok_0,
                        bid_price: bid_price->Ok_0,
                        bid_size: bid_size->Ok_0,
                        ask_price: ask_price->Ok_0,
                        ask_size: ask_size->Ok_0,
                        last_trade_price_tr_hrs: last_trade_price_tr_hrs->Ok_0,
                        last_trade_price: last_trade_price->Ok_0,
                        last_trade_size: last_trade_size->Ok_0,
                        last_trade_tick: last_trade_tick->Ok_0,
                        volume: volume->Ok_0,
                        open_price: open_price->Ok_0,
                        high_price: high_price->Ok_0,
                        low_price: low_price->Ok_0,
                        delay: delay->Ok_0,
                        is_halted: is_halted->Ok_0,
                    })
                }
            },
            _ => Err(ApiError::InvalidTypeError("MarketQuote", "object")),
        }
    }

    fn from_json(j: &Json) -> (r: Result<MarketQuote, ApiError>) {
        match j {
            Json::Object(members) => {
                let symbol = read_string(find(members, "symbol"), "symbol")?;
                let symbol_id = read_u32(find(members, "symbolId"), "symbolId")?;
                let tier = read_empty_as_none(find(members, "tier"), "tier")?;
                let bid_price = read_optional_number(find(members, "bidPrice"), "bidPrice")?;
                let bid_size = read_u32(find(members, "bidSize"), "bidSize")?;
                let ask_price = read_optional_number(find(members, "askPrice"), "askPrice")?;
                let ask_size = read_u32(find(members, "askSize"), "askSize")?;
                let last_trade_price_tr_hrs = read_number(
                    find(members, "lastTradePriceTrHrs"),
                    "lastTradePriceTrHrs",
                )?;
                let last_trade_price = read_number(
                    find(members, "lastTradePrice"),
                    "lastTradePrice",
                )?;
                let last_trade_size = read_u32(find(members, "lastTradeSize"), "lastTradeSize")?;
                let last_trade_tick = read_named::<TickType>(
                    find(members, "lastTradeTick"),
                    "lastTradeTick",
                )?;
                let volume = read_u32(find(members, "volume"), "volume")?;
                let open_price = read_number(find(members, "openPrice"), "openPrice")?;
                let high_price = read_number(find(members, "highPrice"), "highPrice")?;
                let low_price = read_number(find(members, "lowPrice"), "lowPrice")?;
                let delay = read_flag(find(members, "delay"), "delay")?;
                let is_halted = read_bool(find(members, "isHalted"), "isHalted")?;
                Ok(MarketQuote {
                    symbol,
                    symbol_id,
                    tier,
                    bid_price,
                    bid_size,
                    ask_price,
                    ask_size,
                    last_trade_price_tr_hrs,
                    last_trade_price,
                    last_trade_size,
                    last_trade_tick,
                    volume,
                    open_price,
                    high_price,
                    low_price,
                    delay,
                    is_halted,
                })
            },
            _ => Err(ApiError::InvalidTypeError("MarketQuote", "object")),
        }
    }
}

impl MarketQuote {
    /// In an object with the member names of the JSON form, each name finds the
    /// member at its own place: no two of the names are the same.
    pub proof fn lemma_members_found(members: Seq<(String, Json)>)
        requires
            names_of(members) == Self::member_names(),
        ensures
            lookup(members, "symbol"@) == Some(members[0].1),
            lookup(members, "symbolId"@) == Some(members[1].1),
            lookup(members, "tier"@) == Some(members[2].1),
            lookup(members, "bidPrice"@) == Some(members[3].1),
            lookup(members, "bidSize"@) == Some(members[4].1),
            lookup(members, "askPrice"@) == Some(members[5].1),
            lookup(members, "askSize"@) == Some(members[6].1),
            lookup(members, "lastTradePriceTrHrs"@) == Some(members[7].1),
            lookup(members, "lastTradePrice"@) == Some(members[8].1),
            lookup(members, "lastTradeSize"@) == Some(members[9].1),
            lookup(members, "lastTradeTick"@) == Some(members[10].1),
            lookup(members, "volume"@) == Some(members[11].1),
            lookup(members, "openPrice"@) == Some(members[12].1),
            lookup(members, "highPrice"@) == Some(members[13].1),
            lookup(members, "lowPrice"@) == Some(members[14].1),
            lookup(members, "delay"@) == Some(members[15].1),
            lookup(members, "isHalted"@) == Some(members[16].1),
    {
        reveal_strlit("symbol");
        reveal_strlit("symbolId");
        reveal_strlit("tier");
        reveal_strlit("bidPrice");
        reveal_strlit("bidSize");
        reveal_strlit("askPrice");
        reveal_strlit("askSize");
        reveal_strlit("lastTradePriceTrHrs");
        reveal_strlit("lastTradePrice");
        reveal_strlit("lastTradeSize");
        reveal_strlit("lastTradeTick");
        reveal_strlit("volume");
        reveal_strlit("openPrice");
        reveal_strlit("highPrice");
        reveal_strlit("lowPrice");
        reveal_strlit("delay");
        reveal_strlit("isHalted");
        lemma_outline("symbol"@);
        lemma_outline("symbolId"@);
        lemma_outline("tier"@);
        lemma_outline("bidPrice"@);
        lemma_outline("bidSize"@);
        lemma_outline("askPrice"@);
        lemma_outline("askSize"@);
        lemma_outline("lastTradePriceTrHrs"@);
        lemma_outline("lastTradePrice"@);
        lemma_outline("lastTradeSize"@);
        lemma_outline("lastTradeTick"@);
        lemma_outline("volume"@);
        lemma_outline("openPrice"@);
        lemma_outline("highPrice"@);
        lemma_outline("lowPrice"@);
        lemma_outline("delay"@);
        lemma_outline("isHalted"@);
        let names = Self::member_names();
        assert forall|i: int, j: int|
            0 <= i < names.len() && 0 <= j < names.len() && i != j implies names[i]
            != names[j] by {}
        lemma_lookup_by_name(members, 0);
        lemma_lookup_by_name(members, 1);
        lemma_lookup_by_name(members, 2);
        lemma_lookup_by_name(members, 3);
        lemma_lookup_by_name(members, 4);
        lemma_lookup_by_name(members, 5);
        lemma_lookup_by_name(members, 6);
        lemma_lookup_by_name(members, 7);
        lemma_lookup_by_name(members, 8);
        lemma_lookup_by_name(members, 9);
        lemma_lookup_by_name(members, 10);
        lemma_lookup_by_name(members, 11);
        lemma_lookup_by_name(members, 12);
        lemma_lookup_by_name(members, 13);
        lemma_lookup_by_name(members, 14);
        lemma_lookup_by_name(members, 15);
        lemma_lookup_by_name(members, 16);
    }
}

impl ToJson for MarketQuote {
    open spec fn encodable(&self) -> bool {
        &&& self.wf()
    }

    open spec fn member_names() -> Seq<Seq<char>> {
        seq![
            "symbol"@,
            "symbolId"@,
            "tier"@,
            "bidPrice"@,
            "bidSize"@,
            "askPrice"@,
            "askSize"@,
            "lastTradePriceTrHrs"@,
            "lastTradePrice"@,
            "lastTradeSize"@,
            "lastTradeTick"@,
            "volume"@,
            "openPrice"@,
            "highPrice"@,
            "lowPrice"@,
            "delay"@,
            "isHalted"@,
        ]
    }

    open spec fn written(&self, members: Seq<(String, Json)>) -> bool {
        &&& members.len() == 17
        &&& members[0].1 == Json::String(self.symbol)
        &&& members[1].1 == whole_number(self.symbol_id)
        &&& members[2].1 == optional_text(self.tier)
        &&& members[3].1 == optional_number(self.bid_price)
        &&& members[4].1 == whole_number(self.bid_size)
        &&& members[5].1 == optional_number(self.ask_price)
        &&& members[6].1 == whole_number(self.ask_size)
        &&& members[7].1 == Json::Number(self.last_trade_price_tr_hrs)
        &&& members[8].1 == Json::Number(self.last_trade_price)
        &&& members[9].1 == whole_number(self.last_trade_size)
        &&& is_label_json(members[10].1, self.last_trade_tick.label())
        &&& members[11].1 == whole_number(self.volume)
        &&& members[12].1 == Json::Number(self.open_price)
        &&& members[13].1 == Json::Number(self.high_price)
        &&& members[14].1 == Json::Number(self.low_price)
        &&& members[15].1 == flag_number(self.delay)
        &&& members[16].1 == Json::Bool(self.is_halted)
    }

    proof fn lemma_round_trip(&self, j: Json) {
        self.last_trade_tick.lemma_label_names();
        Self::lemma_members_found(j->Object_0@);
    }

    fn to_json(&self) -> (r: Option<Json>) {
        if !is_present_text(&self.tier) {
            return None;
        }
        let mut members: Members = Vec::new();
        put(&mut members, "symbol", text_json(&self.symbol));
        put(&mut members, "symbolId", u32_json(self.symbol_id));
        put(&mut members, "tier", optional_text_json(&self.tier));
        put(&mut members, "bidPrice", optional_number_json(&self.bid_price));
        put(&mut members, "bidSize", u32_json(self.bid_size));
        put(&mut members, "askPrice", optional_number_json(&self.ask_price));
        put(&mut members, "askSize", u32_json(self.ask_size));
        put(&mut members, "lastTradePriceTrHrs", number_json(&self.last_trade_price_tr_hrs));
        put(&mut members, "lastTradePrice", number_json(&self.last_trade_price));
        put(&mut members, "lastTradeSize", u32_json(self.last_trade_size));
        put(&mut members, "lastTradeTick", named_json(&self.last_trade_tick));
        put(&mut members, "volume", u32_json(self.volume));
        put(&mut members, "openPrice", number_json(&self.open_price));
        put(&mut members, "highPrice", number_json(&self.high_price));
        put(&mut members, "lowPrice", number_json(&self.low_price));
        put(&mut members, "delay", flag_json(self.delay));
        put(&mut members, "isHalted", Json::Bool(self.is_halted));
        let j = Json::Object(members);
        proof {
            assert(names_of(j->Object_0@) =~= Self::member_names());
            self.lemma_round_trip(j);
        }
        Some(j)
    }
}

impl MarketQuote {
    /// Where `j` decodes to a record, each of the text members in which the empty string stands for
    /// no value is absent where it is the empty string or `null`, and present with its text where
    /// it is any other string.
    pub proof fn lemma_empty_is_absent(j: Json)
        requires
            Self::decoded(j) is Ok,
        ensures
            j is Object,
            ({
                let m = j->Object_0@;
                let record = Self::decoded(j)->Ok_0;
                let tier = lookup(m, "tier"@);
                &&& tier == Some(Json::Null) ==> record.tier is None
                &&& tier matches Some(Json::String(text)) ==> record.tier
                    == absent_if_empty(text)
            }),
    {
    }

    /// Where `j` decodes to a record, each flag that is sent as an integer is 0 or 1 in `j`, and
    /// set in the record exactly where it is 1: no other integer is taken for a flag.
    pub proof fn lemma_flag_is_zero_or_one(j: Json)
        requires
            Self::decoded(j) is Ok,
        ensures
            j is Object,
            ({
                let m = j->Object_0@;
                let record = Self::decoded(j)->Ok_0;
                let delay = lookup(m, "delay"@);
                &&& delay matches Some(Json::Number(Number::PosInt(n))) && {
                    &&& n == 0 || n == 1
                    &&& record.delay == (n == 1)
                }
            }),
    {
    }
}

/// Direction of trading.
#[derive(Clone, Copy, Debug, PartialEq, Eq, Structural)]
pub enum TickType {
    /// Designates an uptick.
    Up,
    /// Designates a downtick.
    Down,
    /// Designates a tick that took place at the same price as a previous one.
    Equal,
}

impl Named for TickType {
    open spec fn kind() -> &'static str {
        "TickType"
    }

    open spec fn label(self) -> Seq<char> {
        match self {
            TickType::Up => "Up"@,
            TickType::Down => "Down"@,
            TickType::Equal => "Equal"@,
        }
    }

    open spec fn named(text: Seq<char>) -> Option<TickType> {
        if text == "Up"@ {
            Some(TickType::Up)
        } else if text == "Down"@ {
            Some(TickType::Down)
        } else if text == "Equal"@ {
            Some(TickType::Equal)
        } else {
            None
        }
    }

    proof fn lemma_label_names(self) {
        reveal_strlit("Up");
        reveal_strlit("Down");
        reveal_strlit("Equal");
        lemma_outline("Up"@);
        lemma_outline("Down"@);
        lemma_outline("Equal"@);
    }

    fn kind_name() -> (r: &'static str) {
        "TickType"
    }

    fn name(&self) -> (r: &'static str) {
        match self {
            TickType::Up => "Up",
            TickType::Down => "Down",
            TickType::Equal => "Equal",
        }
    }

    fn from_name(text: &str) -> (r: Option<TickType>) {
        if same_text(text, "Up") {
            Some(TickType::Up)
        } else if same_text(text, "Down") {
            Some(TickType::Down)
        } else if same_text(text, "Equal") {
            Some(TickType::Equal)
        } else {
            None
        }
    }
}

/// Equity details from a search query.
#[derive(Clone, Debug, PartialEq, Eq)]
pub struct SearchEquitySymbol {
    /// Symbol name. (EG: BMO)
    pub symbol: String,
    /// Internal unique symbol identifier.
    pub symbol_id: u32,
    /// Symbol description.
    pub description: String,
    /// Symbol security type.
    pub security_type: SecurityType,
    /// Primary listing exchange of the symbol.
    pub listing_exchange: ListingExchange,
    /// Whether a symbol has live market data.
    pub is_quotable: bool,
    /// Whether a symbol is tradable on the platform.
    pub is_tradable: bool,
    /// Symbol currency.
    pub currency: Currency,
}

impl FromJson for SearchEquitySymbol {
    open spec fn wf(&self) -> bool {
        true
    }

    open spec fn decoded(j: Json) -> Result<SearchEquitySymbol, ApiError> {
        match j {
            Json::Object(members) => {
                let m = members@;
                let symbol = string_from(lookup(m, "symbol"@), "symbol");
                let symbol_id = u32_from(lookup(m, "symbolId"@), "symbolId");
                let description = string_from(lookup(m, "description"@), "description");
                let security_type = named_from::<SecurityType>(
                    lookup(m, "securityType"@),
                    "securityType",
                );
                let listing_exchange = named_from::<ListingExchange>(
                    lookup(m, "listingExchange"@),
                    "listingExchange",
                );
                let is_quotable = bool_from(lookup(m, "isQuotable"@), "isQuotable");
                let is_tradable = bool_from(lookup(m, "isTradable"@), "isTradable");
                let currency = named_from::<Currency>(lookup(m, "currency"@), "currency");
                if symbol is Err {
                    Err(symbol->Err_0)
                } else if symbol_id is Err {
                    Err(symbol_id->Err_0)
                } else if description is Err {
                    Err(description->Err_0)
                } else if security_type is Err {
                    Err(security_type->Err_0)
                } else if listing_exchange is Err {
                    Err(listing_exchange->Err_0)
                } else if is_quotable is Err {
                    Err(is_quotable->Err_0)
                } else if is_tradable is Err {
                    Err(is_tradable->Err_0)
                } else if currency is Err {
                    Err(currency->Err_0)
                } else {
                    Ok(SearchEquitySymbol {
                        symbol: symbol->Ok_0,
                        symbol_id: symbol_id->Ok_0,
                        description: description->Ok_0,
                        security_type: security_type->Ok_0,
                        listing_exchange: listing_exchange->Ok_0,
                        is_quotable: is_quotable->Ok_0,
                        is_tradable: is_tradable->Ok_0,
                        currency: currency->Ok_0,
                    })
                }
            },
            _ => Err(ApiError::InvalidTypeError("SearchEquitySymbol", "object")),
        }
    }

    fn from_json(j: &Json) -> (r: Result<SearchEquitySymbol, ApiError>) {
        match j {
            Json::Object(members) => {
                let symbol = read_string(find(members, "symbol"), "symbol")?;
                let symbol_id = read_u32(find(members, "symbolId"), "symbolId")?;
                let description = read_string(find(members, "description"), "description")?;
                let security_type = read_named::<SecurityType>(
                    find(members, "securityType"),
                    "securityType",
                )?;
                let listing_exchange = read_named::<ListingExchange>(
                    find(members, "listingExchange"),
                    "listingExchange",
                )?;
                let is_quotable = read_bool(find(members, "isQuotable"), "isQuotable")?;
                let is_tradable = read_bool(find(members, "isTradable"), "isTradable")?;
                let currency = read_named::<Currency>(find(members, "currency"), "currency")?;
                Ok(SearchEquitySymbol {
                    symbol,
                    symbol_id,
                    description,
                    security_type,
                    listing_exchange,
                    is_quotable,
                    is_tradable,
                    currency,
                })
            },
            _ => Err(ApiError::InvalidTypeError("SearchEquitySymbol", "object")),
        }
    }
}

impl SearchEquitySymbol {
    /// In an object with the member names of the JSON form, each name finds the
    /// member at its own place: no two of the names are the same.
    pub proof fn lemma_members_found(members: Seq<(String, Json)>)
        requires
            names_of(members) == Self::member_names(),
        ensures
            lookup(members, "symbol"@) == Some(members[0].1),
            lookup(members, "symbolId"@) == Some(members[1].1),
            lookup(members, "description"@) == Some(members[2].1),
            lookup(members, "securityType"@) == Some(members[3].1),
            lookup(members, "listingExchange"@) == Some(members[4].1),
            lookup(members, "isQuotable"@) == Some(members[5].1),
            lookup(members, "isTradable"@) == Some(members[6].1),
            lookup(members, "currency"@) == Some(members[7].1),
    {
        reveal_strlit("symbol");
        reveal_strlit("symbolId");
        reveal_strlit("description");
        reveal_strlit("securityType");
        reveal_strlit("listingExchange");
        reveal_strlit("isQuotable");
        reveal_strlit("isTradable");
        reveal_strlit("currency");
        lemma_outline("symbol"@);
        lemma_outline("symbolId"@);
        lemma_outline("description"@);
        lemma_outline("securityType"@);
        lemma_outline("listingExchange"@);
        lemma_outline("isQuotable"@);
        lemma_outline("isTradable"@);
        lemma_outline("currency"@);
        let names = Self::member_names();
        assert forall|i: int, j: int|
            0 <= i < names.len() && 0 <= j < names.len() && i != j implies names[i]
            != names[j] by {}
        lemma_lookup_by_name(members, 0);
        lemma_lookup_by_name(members, 1);
        lemma_lookup_by_name(members, 2);
        lemma_lookup_by_name(members, 3);
        lemma_lookup_by_name(members, 4);
        lemma_lookup_by_name(members, 5);
        lemma_lookup_by_name(members, 6);
        lemma_lookup_by_name(members, 7);
    }
}

impl ToJson for SearchEquitySymbol {
    open spec fn encodable(&self) -> bool {
        &&& self.wf()
    }

    open spec fn member_names() -> Seq<Seq<char>> {
        seq![
            "symbol"@,
            "symbolId"@,
            "description"@,
            "securityType"@,
            "listingExchange"@,
            "isQuotable"@,
            "isTradable"@,
            "currency"@,
        ]
    }

    open spec fn written(&self, members: Seq<(String, Json)>) -> bool {
        &&& members.len() == 8
        &&& members[0].1 == Json::String(self.symbol)
        &&& members[1].1 == whole_number(self.symbol_id)
        &&& members[2].1 == Json::String(self.description)
        &&& is_label_json(members[3].1, self.security_type.label())
        &&& is_label_json(members[4].1, self.listing_exchange.label())
        &&& members[5].1 == Json::Bool(self.is_quotable)
        &&& members[6].1 == Json::Bool(self.is_tradable)
        &&& is_label_json(members[7].1, self.currency.label())
    }

    proof fn lemma_round_trip(&self, j: Json) {
        self.security_type.lemma_label_names();
        self.listing_exchange.lemma_label_names();
        self.currency.lemma_label_names();
        Self::lemma_members_found(j->Object_0@);
    }

    fn to_json(&self) -> (r: Option<Json>) {
        let mut members: Members = Vec::new();
        put(&mut members, "symbol", text_json(&self.symbol));
        put(&mut members, "symbolId", u32_json(self.symbol_id));
        put(&mut members, "description", text_json(&self.description));
        put(&mut members, "securityType", named_json(&self.security_type));
        put(&mut members, "listingExchange", named_json(&self.listing_exchange));
        put(&mut members, "isQuotable", Json::Bool(self.is_quotable));
        put(&mut members, "isTradable", Json::Bool(self.is_tradable));
        put(&mut members, "currency", named_json(&self.currency));
        let j = Json::Object(members);
        proof {
            assert(names_of(j->Object_0@) =~= Self::member_names());
            self.lemma_round_trip(j);
        }
        Some(j)
    }
}

/// Exchange where a security is listed.
#[derive(Clone, Copy, Debug, PartialEq, Eq, Structural)]
pub enum ListingExchange {
    /// Toronto Stock Exchange.
    TSX,
    /// Toronto Stock Exchange Index.
    TSXI,
    /// Toronto Venture Exchange.
    TSXV,
    /// Canadian National Stock Exchange.
    CNSX,
    /// Montreal Exchange.
    MX,
    /// NASDAQ.
    NASDAQ,
    /// NASDAQ Index Feed.
    NASDAQI,
    /// New York Stock Exchange.
    NYSE,
    /// NYSE AMERICAN.
    NYSEAM,
    /// NYSE Global Index Feed.
    NYSEGIF,
    /// NYSE Arca.
    ARCA,
    /// Option Reporting Authority.
    OPRA,
    /// Pink Sheets.
    PinkSheets,
    /// OTC Bulletin Board.
    OTCBB,
    /// BATS Exchange.
    BATS,
    /// Dow Jones Industrial Average.
    DowJonesAverage,
    /// S&P 500.
    SP,
    /// NEO Exchange.
    NEO,
    /// Russell Indexes.
    RUSSELL,
    /// Absent exchange: the server names none.
    Absent,
}

impl Named for ListingExchange {
    open spec fn kind() -> &'static str {
        "ListingExchange"
    }

    open spec fn label(self) -> Seq<char> {
        match self {
            ListingExchange::TSX => "TSX"@,
            ListingExchange::TSXI => "TSXI"@,
            ListingExchange::TSXV => "TSXV"@,
            ListingExchange::CNSX => "CNSX"@,
            ListingExchange::MX => "MX"@,
            ListingExchange::NASDAQ => "NASDAQ"@,
            ListingExchange::NASDAQI => "NASDAQI"@,
            ListingExchange::NYSE => "NYSE"@,
            ListingExchange::NYSEAM => "NYSEAM"@,
            ListingExchange::NYSEGIF => "NYSEGIF"@,
            ListingExchange::ARCA => "ARCA"@,
            ListingExchange::OPRA => "OPRA"@,
            ListingExchange::PinkSheets => "PINX"@,
            ListingExchange::OTCBB => "OTCBB"@,
            ListingExchange::BATS => "BATS"@,
            ListingExchange::DowJonesAverage => "DJI"@,
            ListingExchange::SP => "S&P"@,
            ListingExchange::NEO => "NEO"@,
            ListingExchange::RUSSELL => "RUSSELL"@,
            ListingExchange::Absent => ""@,
        }
    }

    open spec fn named(text: Seq<char>) -> Option<ListingExchange> {
        if text == "TSX"@ {
            Some(ListingExchange::TSX)
        } else if text == "TSXI"@ {
            Some(ListingExchange::TSXI)
        } else if text == "TSXV"@ {
            Some(ListingExchange::TSXV)
        } else if text == "CNSX"@ {
            Some(ListingExchange::CNSX)
        } else if text == "MX"@ {
            Some(ListingExchange::MX)
        } else if text == "NASDAQ"@ {
            Some(ListingExchange::NASDAQ)
        } else if text == "NASDAQI"@ {
            Some(ListingExchange::NASDAQI)
        } else if text == "NYSE"@ {
            Some(ListingExchange::NYSE)
        } else if text == "NYSEAM"@ {
            Some(ListingExchange::NYSEAM)
        } else if text == "NYSEGIF"@ {
            Some(ListingExchange::NYSEGIF)
        } else if text == "ARCA"@ {
            Some(ListingExchange::ARCA)
        } else if text == "OPRA"@ {
            Some(ListingExchange::OPRA)
        } else if text == "PINX"@ {
            Some(ListingExchange::PinkSheets)
        } else if text == "OTCBB"@ {
            Some(ListingExchange::OTCBB)
        } else if text == "BATS"@ {
            Some(ListingExchange::BATS)
        } else if text == "DJI"@ {
            Some(ListingExchange::DowJonesAverage)
        } else if text == "S&P"@ {
            Some(ListingExchange::SP)
        } else if text == "NEO"@ {
            Some(ListingExchange::NEO)
        } else if text == "RUSSELL"@ {
            Some(ListingExchange::RUSSELL)
        } else if text == ""@ {
            Some(ListingExchange::Absent)
        } else {
            None
        }
    }

    proof fn lemma_label_names(self) {
        reveal_strlit("TSX");
        reveal_strlit("TSXI");
        reveal_strlit("TSXV");
        reveal_strlit("CNSX");
        reveal_strlit("MX");
        reveal_strlit("NASDAQ");
        reveal_strlit("NASDAQI");
        reveal_strlit("NYSE");
        reveal_strlit("NYSEAM");
        reveal_strlit("NYSEGIF");
        reveal_strlit("ARCA");
        reveal_strlit("OPRA");
        reveal_strlit("PINX");
        reveal_strlit("OTCBB");
        reveal_strlit("BATS");
        reveal_strlit("DJI");
        reveal_strlit("S&P");
        reveal_strlit("NEO");
        reveal_strlit("RUSSELL");
        reveal_strlit("");
        lemma_outline("TSX"@);
        lemma_outline("TSXI"@);
        lemma_outline("TSXV"@);
        lemma_outline("CNSX"@);
        lemma_outline("MX"@);
        lemma_outline("NASDAQ"@);
        lemma_outline("NASDAQI"@);
        lemma_outline("NYSE"@);
        lemma_outline("NYSEAM"@);
        lemma_outline("NYSEGIF"@);
        lemma_outline("ARCA"@);
        lemma_outline("OPRA"@);
        lemma_outline("PINX"@);
        lemma_outline("OTCBB"@);
        lemma_outline("BATS"@);
        lemma_outline("DJI"@);
        lemma_outline("S&P"@);
        lemma_outline("NEO"@);
        lemma_outline("RUSSELL"@);
        lemma_outline(""@);
    }

    fn kind_name() -> (r: &'static str) {
        "ListingExchange"
    }

    fn name(&self) -> (r: &'static str) {
        match self {
            ListingExchange::TSX => "TSX",
            ListingExchange::TSXI => "TSXI",
            ListingExchange::TSXV => "TSXV",
            ListingExchange::CNSX => "CNSX",
            ListingExchange::MX => "MX",
            ListingExchange::NASDAQ => "NASDAQ",
            ListingExchange::NASDAQI => "NASDAQI",
            ListingExchange::NYSE => "NYSE",
            ListingExchange::NYSEAM => "NYSEAM",
            ListingExchange::NYSEGIF => "NYSEGIF",
            ListingExchange::ARCA => "ARCA",
            ListingExchange::OPRA => "OPRA",
            ListingExchange::PinkSheets => "PINX",
            ListingExchange::OTCBB => "OTCBB",
            ListingExchange::BATS => "BATS",
            ListingExchange::DowJonesAverage => "DJI",
            ListingExchange::SP => "S&P",
            ListingExchange::NEO => "NEO",
            ListingExchange::RUSSELL => "RUSSELL",
            ListingExchange::Absent => "",
        }
    }

    fn from_name(text: &str) -> (r: Option<ListingExchange>) {
        if same_text(text, "TSX") {
            Some(ListingExchange::TSX)
        } else if same_text(text, "TSXI") {
            Some(ListingExchange::TSXI)
        } else if same_text(text, "TSXV") {
            Some(ListingExchange::TSXV)
        } else if same_text(text, "CNSX") {
            Some(ListingExchange::CNSX)
        } else if same_text(text, "MX") {
            Some(ListingExchange::MX)
        } else if same_text(text, "NASDAQ") {
            Some(ListingExchange::NASDAQ)
        } else if same_text(text, "NASDAQI") {
            Some(ListingExchange::NASDAQI)
        } else if same_text(text, "NYSE") {
            Some(ListingExchange::NYSE)
        } else if same_text(text, "NYSEAM") {
            Some(ListingExchange::NYSEAM)
        } else if same_text(text, "NYSEGIF") {
            Some(ListingExchange::NYSEGIF)
        } else if same_text(text, "ARCA") {
            Some(ListingExchange::ARCA)
        } else if same_text(text, "OPRA") {
            Some(ListingExchange::OPRA)
        } else if same_text(text, "PINX") {
            Some(ListingExchange::PinkSheets)
        } else if same_text(text, "OTCBB") {
            Some(ListingExchange::OTCBB)
        } else if same_text(text, "BATS") {
            Some(ListingExchange::BATS)
        } else if same_text(text, "DJI") {
            Some(ListingExchange::DowJonesAverage)
        } else if same_text(text, "S&P") {
            Some(ListingExchange::SP)
        } else if same_text(text, "NEO") {
            Some(ListingExchange::NEO)
        } else if same_text(text, "RUSSELL") {
            Some(ListingExchange::RUSSELL)
        } else if same_text(text, "") {
            Some(ListingExchange::Absent)
        } else {
            None
        }
    }
}

/// Type of security.
#[derive(Clone, Copy, Debug, PartialEq, Eq, Structural)]
pub enum SecurityType {
    /// Common and preferred equities, ETFs, ETNs, units, ADRs, etc.
    Stock,
    /// Equity and index options.
    Option,
    /// Debentures, notes, bonds, both corporate and government.
    Bond,
    /// Equity or bond rights and warrants.
    Right,
    /// Physical gold (coins, wafers, bars).
    Gold,
    /// Canadian or US mutual funds.
    MutualFund,
    /// Stock indices (e.g., Dow Jones).
    Index,
}

impl Named for SecurityType {
    open spec fn kind() -> &'static str {
        "SecurityType"
    }

    open spec fn label(self) -> Seq<char> {
        match self {
            SecurityType::Stock => "Stock"@,
            SecurityType::Option => "Option"@,
            SecurityType::Bond => "Bond"@,
            SecurityType::Right => "Right"@,
            SecurityType::Gold => "Gold"@,
            SecurityType::MutualFund => "MutualFund"@,
            SecurityType::Index => "Index"@,
        }
    }

    open spec fn named(text: Seq<char>) -> Option<SecurityType> {
        if text == "Stock"@ {
            Some(SecurityType::Stock)
        } else if text == "Option"@ {
            Some(SecurityType::Option)
        } else if text == "Bond"@ {
            Some(SecurityType::Bond)
        } else if text == "Right"@ {
            Some(SecurityType::Right)
        } else if text == "Gold"@ {
            Some(SecurityType::Gold)
        } else if text == "MutualFund"@ {
            Some(SecurityType::MutualFund)
        } else if text == "Index"@ {
            Some(SecurityType::Index)
        } else {
            None
        }
    }

    proof fn lemma_label_names(self) {
        reveal_strlit("Stock");
        reveal_strlit("Option");
        reveal_strlit("Bond");
        reveal_strlit("Right");
        reveal_strlit("Gold");
        reveal_strlit("MutualFund");
        reveal_strlit("Index");
        lemma_outline("Stock"@);
        lemma_outline("Option"@);
        lemma_outline("Bond"@);
        lemma_outline("Right"@);
        lemma_outline("Gold"@);
        lemma_outline("MutualFund"@);
        lemma_outline("Index"@);
    }

    fn kind_name() -> (r: &'static str) {
        "SecurityType"
    }

    fn name(&self) -> (r: &'static str) {
        match self {
            SecurityType::Stock => "Stock",
            SecurityType::Option => "Option",
            SecurityType::Bond => "Bond",
            SecurityType::Right => "Right",
            SecurityType::Gold => "Gold",
            SecurityType::MutualFund => "MutualFund",
            SecurityType::Index => "Index",
        }
    }

    fn from_name(text: &str) -> (r: Option<SecurityType>) {
        if same_text(text, "Stock") {
            Some(SecurityType::Stock)
        } else if same_text(text, "Option") {
            Some(SecurityType::Option)
        } else if same_text(text, "Bond") {
            Some(SecurityType::Bond)
        } else if same_text(text, "Right") {
            Some(SecurityType::Right)
        } else if same_text(text, "Gold") {
            Some(SecurityType::Gold)
        } else if same_text(text, "MutualFund") {
            Some(SecurityType::MutualFund)
        } else if same_text(text, "Index") {
            Some(SecurityType::Index)
        } else {
            None
        }
    }
}

} // verus!
