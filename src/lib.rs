//! Trading-risk gate: account-relative limits and a circuit breaker that
//! halts trading when a limit is breached.
//!
//! Money is held in whole cents and every rate in millionths of the account
//! balance, so every comparison against a limit is exact.
//!
//! The breaker's state lives in a store shared by every process, as the text
//! `"true"` (OPEN) or `"false"` (CLOSED). Each write to it must be a single
//! atomic replace that hands back the previous text: the decisions around
//! that write (`CircuitBreaker::begin_trade`, `finish_trade`,
//! `complete_write`) take the store's replies as arguments, and `laws` states
//! what holds of any run of such writes.

pub mod amount_codec;
pub mod breaker_codec;
pub mod circuit_breaker;
pub mod laws;
pub mod risk_management;

pub use risk_management::{RiskParameters, RiskParamsUpdate, UpdateError, ValidationError, RATE_SCALE};
pub use breaker_codec::{decode_breaker_state, encode_breaker_state, read_breaker_state, StoreError};
pub use circuit_breaker::{
    complete_write, finish_trade, transition_alert, AlertKind, CircuitBreaker, LimitCheck,
    TradeStep, TradeVerdict,
};
pub use amount_codec::{format_amount, parse_amount};
