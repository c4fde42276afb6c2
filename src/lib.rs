//! Event-stream message model of a brokerage API client: the records
//! pushed over the `account_updates` and `trade_updates` streams, their
//! decoders over a JSON value, and the binding of each stream tag to its
//! wire stream identifier.

pub mod json;
pub mod timestamp;
pub mod decimal;
pub mod error;
pub mod status;
pub mod members;
pub mod events;
