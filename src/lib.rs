//! Typed, verified core of a binding to the Trans2QUIK trading-terminal library.
//!
//! The vendor library speaks a C interface: integer result codes, fixed-size
//! message buffers in the Windows-1251 encoding, and packed `YYYYMMDD` /
//! `HHMMSS` integers. This crate holds everything that turns those raw values
//! into typed records, and the registry of event sinks that the callbacks
//! deliver into.
pub mod codes;
pub mod datetime;
pub mod error;
pub mod events;
pub mod sinks;
pub mod text;

pub use codes::{IsSell, Mode, Status, Trans2QuikResult, TransId};
pub use error::Trans2QuikError;
pub use events::{OrderInfo, TradeInfo, TransactionInfo};
