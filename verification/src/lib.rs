//! Normalization of exchange market data.
//!
//! Raw frames from cryptocurrency exchanges are read into a small set of
//! normalized messages: trades and order-book snapshots and updates, with
//! exact decimal prices and quantities and canonical `BASE/QUOTE` pairs.
//!
//! - `decimal`, `text`: exact numbers and the texts they are read from.
//! - `json`, `fields`: decoding with `serde_json` and typed reads from a
//!   decoded document.
//! - `pair`: canonical pairs, by the fixed rules of `crypto_pair` and by a
//!   table of spot quotes.
//! - `message`, `book`: the normalized messages and their price levels.
//! - `exchanges`, `parser`: one reader per exchange and the table that
//!   routes a frame to its reader.
//! - `contract_value`, `markets`: contract values and market listings read
//!   from the exchanges' responses.
//! - `dispatch`, `crawler`, `ws`: what to do with each frame of a stream,
//!   and which connection and channels a stream needs.

pub mod book;
pub mod contract_value;
pub mod crawler;
pub mod decimal;
pub mod dispatch;
pub mod exchanges;
pub mod fields;
pub mod json;
pub mod markets;
pub mod message;
pub mod pair;
pub mod parser;
pub mod text;
pub mod ws;
