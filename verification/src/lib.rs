//! A typed, transport-agnostic client core for the Questrade REST trading API.
//!
//! The crate decides what to send and what an answer means; it never touches
//! the network. For every endpoint, [`Questrade`] builds a [`Request`] from
//! the session it holds; the caller performs it with the HTTP stack of its
//! choice and hands the outcome back, to be classified and decoded into
//! typed records.

pub mod account;
pub mod auth;
pub mod client;
pub mod decode;
pub mod encode;
pub mod error;
pub mod json;
pub mod market;
pub mod order;
pub mod request;
pub mod text;
pub mod time;

pub use crate::account::{
    Account, AccountActivity, AccountBalance, AccountBalances, AccountPosition, AccountStatus,
    AccountType, ClientAccountType, Currency,
};
pub use crate::auth::{get_url, AuthenticationInfo, TokenResponse};
pub use crate::client::Questrade;
pub use crate::decode::{FromJson, Named, ToJson};
pub use crate::error::{wrap_error, ApiError, RequestError, TransportError};
pub use crate::json::{Json, Number};
pub use crate::market::{ListingExchange, MarketQuote, SearchEquitySymbol, SecurityType, TickType};
pub use crate::order::{
    AccountExecution, AccountOrder, OrderSide, OrderState, OrderStateFilter, OrderTimeInForce,
    OrderType,
};
pub use crate::request::{dispatch, receive, Method, Outcome, Request, Response};
pub use crate::time::{DateTime, Instant};
