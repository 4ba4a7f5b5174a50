pub mod binance;
pub mod bybit;
pub mod market;

use vstd::prelude::*;
use crate::json::{json_parse, Json};
use crate::markets::market::{Market, MarketView};
use crate::message::{MarketType, ParseError};
use crate::text::same_text;

verus! {

/// The symbols of an exchange's market type in a response, given what its
/// text decodes to.
pub open spec fn symbols_in(
    exchange: Seq<char>,
    market_type: MarketType,
    doc: Option<Json>,
) -> Result<Seq<Seq<char>>, ParseError> {
    if exchange == "binance"@ {
        if market_type == MarketType::Spot {
            binance::symbols_in(doc)
        } else {
            Err(ParseError::UnsupportedMessageType)
        }
    } else if exchange == "bybit"@ {
        bybit::symbols_in(doc, market_type)
    } else {
        Err(ParseError::UnsupportedMessageType)
    }
}

/// Reads the symbols that an exchange lists under a market type from the
/// response of its symbol query.
///
/// An exchange or market type without a reader gives
/// `UnsupportedMessageType`, whatever the response holds.
pub fn fetch_symbols(exchange: &str, market_type: MarketType, response: &str) -> (r: Result<
    Vec<String>,
    ParseError,
>)
    ensures
        binance::symbols_outcome(r) == symbols_in(exchange@, market_type, json_parse(response@)),
{
    if same_text(exchange, "binance") {
        match market_type {
            MarketType::Spot => binance::fetch_spot_symbols(response),
            _ => Err(ParseError::UnsupportedMessageType),
        }
    } else if same_text(exchange, "bybit") {
        bybit::fetch_symbols(market_type, response)
    } else {
        Err(ParseError::UnsupportedMessageType)
    }
}

/// The markets of an exchange's market type in a response, in the common
/// schema, given what its text decodes to.
pub open spec fn markets_in(
    exchange: Seq<char>,
    market_type: MarketType,
    doc: Option<Json>,
) -> Result<Seq<MarketView>, ParseError> {
    if exchange == "binance"@ && market_type == MarketType::Spot {
        binance::common_markets_in(doc)
    } else {
        Err(ParseError::UnsupportedMessageType)
    }
}

/// Reads the markets that an exchange lists under a market type from the
/// response of its market query, in the common schema.
///
/// An exchange or market type without a reader gives
/// `UnsupportedMessageType`, whatever the response holds.
pub fn fetch_markets(exchange: &str, market_type: MarketType, response: &str) -> (r: Result<
    Vec<Market>,
    ParseError,
>)
    ensures
        binance::common_outcome(r) == markets_in(exchange@, market_type, json_parse(response@)),
{
    if same_text(exchange, "binance") {
        match market_type {
            MarketType::Spot => binance::fetch_spot_markets(response),
            _ => Err(ParseError::UnsupportedMessageType),
        }
    } else {
        Err(ParseError::UnsupportedMessageType)
    }
}

} // verus!
