//! Wallet inspection for Ethereum addresses: request shapes, response-field
//! extraction, exact unit conversion, aggregation and CSV records.
//!
//! Transport is left to the caller: each query has a function that builds
//! what is to be sent and a function that reads what came back, so every
//! decision between the two is made here.

pub mod date;
pub mod display;
pub mod enums;
pub mod error;
pub mod export;
pub mod fraction;
pub mod json;
pub mod numeric;
pub mod query;
pub mod stats;
pub mod structs;
pub mod text;
