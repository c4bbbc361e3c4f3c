//! The client: one session slot, and for every endpoint the request to send
//! and the meaning of the answer.
//!
//! Each endpoint comes as two functions. The method named after the endpoint
//! looks for the session and builds the request; the function with
//! `_response` in its name classifies what the transport reports and decodes
//! the body. Sending is the caller's part, and nothing is retried.

use crate::account::{
    Account, AccountActivity, AccountBalances, AccountBalancesView, AccountPosition,
};
use crate::auth::{exchanged, token_exchange, AuthenticationInfo};
use crate::decode::{enveloped, list_is, read_envelope, read_time, time_from, FromJson, Named};
use crate::error::{ApiError, RequestError, UNAUTHORIZED};
use crate::json::{find, lookup, Json};
use crate::market::{MarketQuote, SearchEquitySymbol};
use crate::order::{AccountExecution, AccountOrder, OrderStateFilter};
use crate::request::{authenticated_get, dispatch, dispatched, Outcome, Request, RequestView};
use crate::text::{decimal, decimal_string, join, joined, texts};
use crate::time::{rfc3339_text, DateTime, Instant};
use vstd::prelude::*;

verus! {

/// Questrade client.
pub struct Questrade {
    auth_info: Option<AuthenticationInfo>,
}

/// What a client without a session has in place of a request: the failure
/// that carries status 401.
pub open spec fn unauthenticated() -> Result<RequestView, ApiError> {
    Err(ApiError::NotAuthenticatedError(UNAUTHORIZED))
}

/// The request for the endpoint `suffix` in the session `auth`; without a
/// session there is none.
pub open spec fn session_get(auth: Option<AuthenticationInfo>, suffix: Seq<char>) -> Result<
    RequestView,
    ApiError,
> {
    match auth {
        None => unauthenticated(),
        Some(session) => Ok(authenticated_get(session.api_server@, session.access_token@, suffix)),
    }
}

/// Whether `r` holds exactly the request, or the failure, that `expected`
/// names.
pub open spec fn request_is(r: Result<Request, ApiError>, expected: Result<RequestView, ApiError>)
    -> bool {
    match expected {
        Ok(request) => r is Ok && r->Ok_0@ == request,
        Err(e) => r == Err::<Request, ApiError>(e),
    }
}

/// The path of what an account holds under `tail`.
pub open spec fn account_path(account_number: Seq<char>, tail: Seq<char>) -> Seq<char> {
    "accounts/"@ + account_number + tail
}

/// `request` with the point in time `at` as the query parameter `name`.
pub open spec fn timed(request: RequestView, name: &'static str, at: DateTime) -> Result<
    RequestView,
    ApiError,
> {
    match rfc3339_text(at.secs, at.nanos) {
        Some(text) => Ok(request.with_query(name@, text)),
        None => Err(ApiError::InvalidTypeError(name, "DateTime")),
    }
}

/// `request` with the point in time `at`, where there is one, as the query
/// parameter `name`.
pub open spec fn maybe_timed(request: RequestView, name: &'static str, at: Option<DateTime>)
    -> Result<RequestView, ApiError> {
    match at {
        Some(at) => timed(request, name, at),
        None => Ok(request),
    }
}

/// `request` with the bounds of a time range, each where it is given, as the
/// query parameters `startTime` and `endTime`.
pub open spec fn ranged(
    request: Result<RequestView, ApiError>,
    start_time: Option<DateTime>,
    end_time: Option<DateTime>,
) -> Result<RequestView, ApiError> {
    match request {
        Err(e) => Err(e),
        Ok(request) => match maybe_timed(request, "startTime", start_time) {
            Err(e) => Err(e),
            Ok(request) => maybe_timed(request, "endTime", end_time),
        },
    }
}

/// The request for the activities of an account between two points in time.
pub open spec fn activity_request(
    auth: Option<AuthenticationInfo>,
    account_number: Seq<char>,
    start_time: DateTime,
    end_time: DateTime,
) -> Result<RequestView, ApiError> {
    ranged(
        session_get(auth, account_path(account_number, "/activities"@)),
        Some(start_time),
        Some(end_time),
    )
}

/// The request for the orders of an account: the bounds of the time range and
/// the state filter are sent where they are given, the filter as one of
/// `All`, `Open` and `Closed`.
pub open spec fn orders_request(
    auth: Option<AuthenticationInfo>,
    account_number: Seq<char>,
    start_time: Option<DateTime>,
    end_time: Option<DateTime>,
    state: Option<OrderStateFilter>,
) -> Result<RequestView, ApiError> {
    let request = session_get(auth, account_path(account_number, "/orders"@));
    match ranged(request, start_time, end_time) {
        Err(e) => Err(e),
        Ok(request) => match state {
            Some(filter) => Ok(request.with_query("stateFilter"@, filter.label())),
            None => Ok(request),
        },
    }
}

/// The request for one order of an account.
pub open spec fn order_request(
    auth: Option<AuthenticationInfo>,
    account_number: Seq<char>,
    order_id: u32,
) -> Result<RequestView, ApiError> {
    session_get(auth, account_path(account_number, "/orders/"@ + decimal(order_id as nat)))
}

/// The decimal numeral of each identifier in `ids`.
pub open spec fn numerals(ids: Seq<u32>) -> Seq<Seq<char>> {
    ids.map_values(|id: u32| decimal(id as nat))
}

/// The request for the quotes of the symbols `ids`: their identifiers are
/// sent in one parameter, separated by commas.
pub open spec fn quote_request(auth: Option<AuthenticationInfo>, ids: Seq<u32>) -> Result<
    RequestView,
    ApiError,
> {
    match session_get(auth, "markets/quotes"@) {
        Err(e) => Err(e),
        Ok(request) => Ok(request.with_query("ids"@, joined(numerals(ids), ","@))),
    }
}

/// The request for the symbols that start with `prefix`, from the record
/// number `offset` of the result on.
pub open spec fn search_request(auth: Option<AuthenticationInfo>, prefix: Seq<char>, offset: u32)
    -> Result<RequestView, ApiError> {
    match session_get(auth, "symbols/search"@) {
        Err(e) => Err(e),
        Ok(request) => Ok(
            request.with_query("prefix"@, prefix).with_query("offset"@, decimal(offset as nat)),
        ),
    }
}

/// The records that an outcome carries in the envelope member `name`.
pub open spec fn listed<T: FromJson>(outcome: Outcome, name: &'static str) -> Result<
    Seq<T>,
    RequestError,
> {
    match dispatched(outcome) {
        Err(e) => Err(e),
        Ok(j) => match enveloped::<T>(j, name) {
            Err(e) => Err(RequestError::Api(e)),
            Ok(records) => Ok(records),
        },
    }
}

/// The first of `records`, if there is one.
pub open spec fn first_of<T>(records: Seq<T>) -> Option<T> {
    if records.len() == 0 {
        None
    } else {
        Some(records[0])
    }
}

/// The order that an outcome carries: the first of the orders in its
/// envelope. An empty envelope means that there is no such order, which is
/// no failure.
pub open spec fn order_found(outcome: Outcome) -> Result<Option<AccountOrder>, RequestError> {
    match listed::<AccountOrder>(outcome, "orders") {
        Err(e) => Err(e),
        Ok(orders) => Ok(first_of(orders)),
    }
}

/// The balances that an outcome carries: its whole body, without an envelope.
pub open spec fn balances_found(outcome: Outcome) -> Result<AccountBalancesView, RequestError> {
    match dispatched(outcome) {
        Err(e) => Err(e),
        Ok(j) => match AccountBalances::decoded(j) {
            Err(e) => Err(RequestError::Api(e)),
            Ok(balances) => Ok(balances),
        },
    }
}

/// The server time that a document carries in its member `time`.
pub open spec fn time_in(j: Json) -> Result<DateTime, ApiError> {
    match j {
        Json::Object(members) => time_from(lookup(members@, "time"@), "time"),
        _ => Err(ApiError::InvalidTypeError("response", "object")),
    }
}

/// The server time that an outcome carries.
pub open spec fn time_found(outcome: Outcome) -> Result<DateTime, RequestError> {
    match dispatched(outcome) {
        Err(e) => Err(e),
        Ok(j) => match time_in(j) {
            Err(e) => Err(RequestError::Api(e)),
            Ok(at) => Ok(at),
        },
    }
}

/// Without a session no endpoint has a request: each one fails with
/// `NotAuthenticatedError(401)`, whatever its parameters, so that nothing is
/// sent.
pub proof fn lemma_no_session_no_request(
    suffix: Seq<char>,
    account_number: Seq<char>,
    start_time: DateTime,
    end_time: DateTime,
    from: Option<DateTime>,
    to: Option<DateTime>,
    state: Option<OrderStateFilter>,
    order_id: u32,
    ids: Seq<u32>,
    prefix: Seq<char>,
    offset: u32,
)
    ensures
        unauthenticated() == Err::<RequestView, ApiError>(ApiError::NotAuthenticatedError(401)),
        session_get(None, suffix) == unauthenticated(),
        activity_request(None, account_number, start_time, end_time) == unauthenticated(),
        orders_request(None, account_number, from, to, state) == unauthenticated(),
        order_request(None, account_number, order_id) == unauthenticated(),
        ranged(session_get(None, suffix), from, to) == unauthenticated(),
        quote_request(None, ids) == unauthenticated(),
        search_request(None, prefix, offset) == unauthenticated(),
{
}

/// A lookup of one order yields the order where the envelope holds exactly
/// one, and no order, without a failure, where the envelope is empty.
pub proof fn lemma_single_order(outcome: Outcome)
    requires
        listed::<AccountOrder>(outcome, "orders") is Ok,
    ensures
        ({
            let orders = listed::<AccountOrder>(outcome, "orders")->Ok_0;
            &&& orders.len() == 0 ==> order_found(outcome) == Ok::<
                Option<AccountOrder>,
                RequestError,
            >(None)
            &&& orders.len() == 1 ==> order_found(outcome) == Ok::<
                Option<AccountOrder>,
                RequestError,
            >(Some(orders[0]))
            &&& orders.len() > 0 ==> order_found(outcome) == Ok::<
                Option<AccountOrder>,
                RequestError,
            >(Some(orders.first()))
        }),
{
}

/// Builds the path of what an account holds under `tail`.
pub fn account_path_string(account_number: &str, tail: &str) -> (r: String)
    ensures
        r@ == account_path(account_number@, tail@),
{
    let mut path = String::from_str("accounts/");
    path.append(account_number);
    path.append(tail);
    path
}

/// Adds the RFC 3339 text of a point in time as the query parameter `name`;
/// `text` is `None` where the point in time has no such text.
pub fn add_time(request: Request, name: &'static str, text: Option<String>) -> (r: Result<
    Request,
    ApiError,
>)
    ensures
        request_is(
            r,
            match text {
                Some(t) => Ok(request@.with_query(name@, t@)),
                None => Err(ApiError::InvalidTypeError(name, "DateTime")),
            },
        ),
{
    match text {
        Some(t) => {
            let mut request = request;
            request.add_query(name, t);
            Ok(request)
        },
        None => Err(ApiError::InvalidTypeError(name, "DateTime")),
    }
}

/// Adds a point in time, where there is one, as the query parameter `name`.
pub fn add_optional_time(request: Request, name: &'static str, at: Option<DateTime>) -> (r: Result<
    Request,
    ApiError,
>)
    ensures
        request_is(r, maybe_timed(request@, name, at)),
{
    match at {
        Some(at) => add_time(request, name, at.to_rfc3339()),
        None => Ok(request),
    }
}

/// Adds the bounds of a time range, each where it is given.
pub fn add_range(request: Request, start_time: Option<DateTime>, end_time: Option<DateTime>) -> (r:
    Result<Request, ApiError>)
    ensures
        request_is(r, ranged(Ok(request@), start_time, end_time)),
{
    let request = add_optional_time(request, "startTime", start_time)?;
    add_optional_time(request, "endTime", end_time)
}

/// Writes each identifier as a decimal numeral.
pub fn numeral_strings(ids: &[u32]) -> (r: Vec<String>)
    ensures
        texts(r@) == numerals(ids@),
{
    let mut out: Vec<String> = Vec::new();
    let mut i: usize = 0;
    assert(texts(out@) =~= numerals(ids@.take(0)));
    while i < ids.len()
        invariant
            i <= ids.len(),
            texts(out@) == numerals(ids@.take(i as int)),
        decreases ids.len() - i,
    {
        let ghost before = out@;
        out.push(decimal_string(ids[i]));
        proof {
            let numeral = decimal(ids@[i as int] as nat);
            assert(texts(out@) =~= texts(before).push(numeral));
            assert(ids@.take(i + 1) =~= ids@.take(i as int).push(ids@[i as int]));
            assert(numerals(ids@.take(i + 1)) =~= numerals(ids@.take(i as int)).push(numeral));
        }
        i += 1;
    }
    proof {
        assert(ids@.take(i as int) =~= ids@);
    }
    out
}

/// Classifies an outcome and decodes the records in its envelope member
/// `name`.
pub fn list_response<T: FromJson>(outcome: Outcome, name: &'static str) -> (r: Result<
    Vec<T>,
    RequestError,
>)
    ensures
        list_is(r, listed::<T>(outcome, name)),
{
    match dispatch(outcome) {
        Err(e) => Err(e),
        Ok(j) => match read_envelope::<T>(&j, name) {
            Err(e) => Err(RequestError::Api(e)),
            Ok(records) => Ok(records),
        },
    }
}

/// Takes the first record out of a list.
pub fn take_first<T>(records: Vec<T>) -> (r: Option<T>)
    ensures
        r == first_of(records@),
{
    let mut records = records;
    if records.len() == 0 {
        None
    } else {
        Some(records.remove(0))
    }
}

/// Reads the server time out of a document.
pub fn read_server_time(j: &Json) -> (r: Result<DateTime, ApiError>)
    ensures
        r == time_in(*j),
{
    match j {
        Json::Object(members) => read_time(find(members, "time"), "time"),
        _ => Err(ApiError::InvalidTypeError("response", "object")),
    }
}

impl Questrade {
    /// The session that the client holds, if it holds one.
    pub closed spec fn auth(&self) -> Option<AuthenticationInfo> {
        self.auth_info
    }

    /// Creates a new API instance, without a session.
    pub fn new() -> (r: Questrade)
        ensures
            r.auth() is None,
    {
        Questrade { auth_info: None }
    }

    /// Creates a new API instance with the specified auth info.
    pub fn with_authentication(auth_info: AuthenticationInfo) -> (r: Questrade)
        ensures
            r.auth() == Some(auth_info),
    {
        Questrade { auth_info: Some(auth_info) }
    }

    /// Builds the request that authenticates with the supplied token. It
    /// needs no session, and the session that the client holds stays as it
    /// is until the answer is handed to `authenticate_response`.
    pub fn authenticate(&self, refresh_token: &str, is_demo: bool) -> (r: Request)
        ensures
            r@ == token_exchange(refresh_token@, is_demo),
    {
        AuthenticationInfo::authenticate(refresh_token, is_demo)
    }

    /// Takes the session that the outcome of a token exchange grants. On
    /// success it replaces the session that the client held, as a whole; on
    /// failure the client keeps what it held.
    pub fn authenticate_response(
        &mut self,
        outcome: Outcome,
        is_demo: bool,
        received_at: Instant,
    ) -> (r: Result<(), RequestError>)
        ensures
            match exchanged(outcome, is_demo, received_at) {
                Ok(session) => {
                    &&& r is Ok
                    &&& final(self).auth() is Some
                    &&& final(self).auth()->Some_0@ == session
                },
                Err(e) => r == Err::<(), RequestError>(e) && final(self).auth() == old(self).auth(),
            },
    {
        match AuthenticationInfo::from_response(outcome, is_demo, received_at) {
            Ok(session) => {
                self.auth_info = Some(session);
                Ok(())
            },
            Err(e) => Err(e),
        }
    }

    /// Retrieves the current authentication info (if set).
    pub fn get_auth_info(&self) -> (r: Option<AuthenticationInfo>)
        ensures
            r == self.auth(),
    {
        match &self.auth_info {
            Some(session) => Some(session.duplicate()),
            None => None,
        }
    }

    /// Obtains an active authentication token or raises an error. Whether
    /// the token has expired is not looked at: that is for the server to say.
    pub fn get_active_auth(&self) -> (r: Result<AuthenticationInfo, ApiError>)
        ensures
            r == match self.auth() {
                Some(session) => Ok::<AuthenticationInfo, ApiError>(session),
                None => Err(ApiError::NotAuthenticatedError(UNAUTHORIZED)),
            },
    {
        match &self.auth_info {
            Some(session) => Ok(session.duplicate()),
            None => Err(ApiError::NotAuthenticatedError(UNAUTHORIZED)),
        }
    }

    /// Builds the `GET` request for the endpoint `url_suffix`.
    pub fn get_request_builder(&self, url_suffix: &str) -> (r: Result<Request, ApiError>)
        ensures
            request_is(r, session_get(self.auth(), url_suffix@)),
    {
        let auth_info = self.get_active_auth()?;
        Ok(
            Request::get(
                auth_info.api_server.as_str(),
                auth_info.access_token.as_str(),
                url_suffix,
            ),
        )
    }

    /// List all accounts associated with the authenticated user.
    pub fn accounts(&self) -> (r: Result<Request, ApiError>)
        ensures
            request_is(r, session_get(self.auth(), "accounts"@)),
    {
        self.get_request_builder("accounts")
    }

    /// What the server answered to `accounts`.
    pub fn accounts_response(outcome: Outcome) -> (r: Result<Vec<Account>, RequestError>)
        ensures
            list_is(r, listed::<Account>(outcome, "accounts")),
    {
        list_response::<Account>(outcome, "accounts")
    }

    /// Retrieve account activities, including cash transactions, dividends,
    /// trades, etc.
    pub fn account_activity(
        &self,
        account_number: &str,
        start_time: DateTime,
        end_time: DateTime,
    ) -> (r: Result<Request, ApiError>)
        ensures
            request_is(r, activity_request(self.auth(), account_number@, start_time, end_time)),
    {
        let path = account_path_string(account_number, "/activities");
        let request = self.get_request_builder(path.as_str())?;
        add_range(request, Some(start_time), Some(end_time))
    }

    /// What the server answered to `account_activity`.
    pub fn account_activity_response(outcome: Outcome) -> (r: Result<
        Vec<AccountActivity>,
        RequestError,
    >)
        ensures
            list_is(r, listed::<AccountActivity>(outcome, "activities")),
    {
        list_response::<AccountActivity>(outcome, "activities")
    }

    /// Search for account orders.
    ///
    /// Parameters:
    ///     - `start_time` optional start of time range. Defaults to start of today, 12:00am
    ///     - `end_time` optional end of time range. Defaults to end of today, 11:59pm
    ///     - `state` optionally filters order states
    pub fn account_orders(
        &self,
        account_number: &str,
        start_time: Option<DateTime>,
        end_time: Option<DateTime>,
        state: Option<OrderStateFilter>,
    ) -> (r: Result<Request, ApiError>)
        ensures
            request_is(
                r,
                orders_request(self.auth(), account_number@, start_time, end_time, state),
            ),
    {
        let path = account_path_string(account_number, "/orders");
        let request = self.get_request_builder(path.as_str())?;
        let mut request = add_range(request, start_time, end_time)?;
        match state {
            Some(filter) => {
                request.add_query("stateFilter", String::from_str(filter.name()));
            },
            None => {},
        }
        Ok(request)
    }

    /// What the server answered to `account_orders`.
    pub fn account_orders_response(outcome: Outcome) -> (r: Result<Vec<AccountOrder>, RequestError>)
        ensures
            list_is(r, listed::<AccountOrder>(outcome, "orders")),
    {
        list_response::<AccountOrder>(outcome, "orders")
    }

    /// Retrieve details for an order with a specific id.
    pub fn account_order(&self, account_number: &str, order_id: u32) -> (r: Result<
        Request,
        ApiError,
    >)
        ensures
            request_is(r, order_request(self.auth(), account_number@, order_id)),
    {
        let mut tail = String::from_str("/orders/");
        tail.append(decimal_string(order_id).as_str());
        let path = account_path_string(account_number, tail.as_str());
        self.get_request_builder(path.as_str())
    }

    /// What the server answered to `account_order`: the order, or `None`
    /// where the server knows no order of that id.
    pub fn account_order_response(outcome: Outcome) -> (r: Result<
        Option<AccountOrder>,
        RequestError,
    >)
        ensures
            r == order_found(outcome),
    {
        match list_response::<AccountOrder>(outcome, "orders") {
            Err(e) => Err(e),
            Ok(orders) => Ok(take_first(orders)),
        }
    }

    /// Retrieves executions for a specific account.
    ///
    /// Parameters:
    ///     - `start_time` optional start of time range. Defaults to start of today, 12:00am
    ///     - `end_time` optional end of time range. Defaults to end of today, 11:59pm
    pub fn account_executions(
        &self,
        account_number: &str,
        start_time: Option<DateTime>,
        end_time: Option<DateTime>,
    ) -> (r: Result<Request, ApiError>)
        ensures
            request_is(
                r,
                ranged(
                    session_get(self.auth(), account_path(account_number@, "/executions"@)),
                    start_time,
                    end_time,
                ),
            ),
    {
        let path = account_path_string(account_number, "/executions");
        let request = self.get_request_builder(path.as_str())?;
        add_range(request, start_time, end_time)
    }

    /// What the server answered to `account_executions`.
    pub fn account_executions_response(outcome: Outcome) -> (r: Result<
        Vec<AccountExecution>,
        RequestError,
    >)
        ensures
            list_is(r, listed::<AccountExecution>(outcome, "executions")),
    {
        list_response::<AccountExecution>(outcome, "executions")
    }

    /// Retrieves per-currency and combined balances for a specified account.
    pub fn account_balance(&self, account_number: &str) -> (r: Result<Request, ApiError>)
        ensures
            request_is(
                r,
                session_get(self.auth(), account_path(account_number@, "/balances"@)),
            ),
    {
        let path = account_path_string(account_number, "/balances");
        self.get_request_builder(path.as_str())
    }

    /// What the server answered to `account_balance`.
    pub fn account_balance_response(outcome: Outcome) -> (r: Result<AccountBalances, RequestError>)
        ensures
            match balances_found(outcome) {
                Ok(balances) => r is Ok && r->Ok_0@ == balances,
                Err(e) => r == Err::<AccountBalances, RequestError>(e),
            },
    {
        match dispatch(outcome) {
            Err(e) => Err(e),
            Ok(j) => match AccountBalances::from_json(&j) {
                Err(e) => Err(RequestError::Api(e)),
                Ok(balances) => Ok(balances),
            },
        }
    }

    /// Retrieves positions in a specified account.
    pub fn account_positions(&self, account_number: &str) -> (r: Result<Request, ApiError>)
        ensures
            request_is(
                r,
                session_get(self.auth(), account_path(account_number@, "/positions"@)),
            ),
    {
        let path = account_path_string(account_number, "/positions");
        self.get_request_builder(path.as_str())
    }

    /// What the server answered to `account_positions`.
    pub fn account_positions_response(outcome: Outcome) -> (r: Result<
        Vec<AccountPosition>,
        RequestError,
    >)
        ensures
            list_is(r, listed::<AccountPosition>(outcome, "positions")),
    {
        list_response::<AccountPosition>(outcome, "positions")
    }

    /// Retrieves a single Level 1 market data quote for one or more symbols.
    ///
    /// A user that is not subscribed to a real-time data package is served
    /// snap quotes, whose limit per market is reached quickly; after that
    /// the server sends delayed data. Always check `delay` in the answer.
    pub fn market_quote(&self, ids: &[u32]) -> (r: Result<Request, ApiError>)
        ensures
            request_is(r, quote_request(self.auth(), ids@)),
    {
        let mut request = self.get_request_builder("markets/quotes")?;
        let ids = join(&numeral_strings(ids), ",");
        request.add_query("ids", ids);
        Ok(request)
    }

    /// What the server answered to `market_quote`.
    pub fn market_quote_response(outcome: Outcome) -> (r: Result<Vec<MarketQuote>, RequestError>)
        ensures
            list_is(r, listed::<MarketQuote>(outcome, "quotes")),
    {
        list_response::<MarketQuote>(outcome, "quotes")
    }

    /// Searches for the specified symbol.
    ///
    /// * `prefix` Prefix of a symbol or any word in the description.
    /// * `offset` Offset in number of records from the beginning of a result set.
    pub fn symbol_search(&self, prefix: &str, offset: u32) -> (r: Result<Request, ApiError>)
        ensures
            request_is(r, search_request(self.auth(), prefix@, offset)),
    {
        let mut request = self.get_request_builder("symbols/search")?;
        request.add_query("prefix", String::from_str(prefix));
        request.add_query("offset", decimal_string(offset));
        Ok(request)
    }

    /// What the server answered to `symbol_search`.
    pub fn symbol_search_response(outcome: Outcome) -> (r: Result<
        Vec<SearchEquitySymbol>,
        RequestError,
    >)
        ensures
            list_is(r, listed::<SearchEquitySymbol>(outcome, "symbols")),
    {
        list_response::<SearchEquitySymbol>(outcome, "symbols")
    }

    /// Retrieves current server time.
    pub fn time(&self) -> (r: Result<Request, ApiError>)
        ensures
            request_is(r, session_get(self.auth(), "time"@)),
    {
        self.get_request_builder("time")
    }

    /// What the server answered to `time`.
    pub fn time_response(outcome: Outcome) -> (r: Result<DateTime, RequestError>)
        ensures
            r == time_found(outcome),
    {
        match dispatch(outcome) {
            Err(e) => Err(e),
            Ok(j) => match read_server_time(&j) {
                Err(e) => Err(RequestError::Api(e)),
                Ok(at) => Ok(at),
            },
        }
    }
}

} // verus!
