//! KuCoin spot: trades and level-2 order-book updates.
//!
//! Every frame is `{"subject": .., "topic": .., "type": .., "data": ..}`.
//! An order-book update carries no event time, so its timestamp is the time
//! of receipt, which the caller hands in: an approximation that does not
//! order updates by event time.

use vstd::prelude::*;
use crate::book::{lemma_levels_error, levels_consistent, levels_of, read_levels};
use crate::fields::{
    decimal_at, decimal_field, get, int_at, int_field, items_at, items_field, text_at, text_field,
};
use crate::json::{copy_of, decode, docs_of, json_of, json_parse, member, Json};
use crate::message::{
    about_the_frame, book_outcome, book_views, books_outcome, side_for, side_of, trade_outcome,
    trade_views, trades_consistent, trades_outcome, MarketType, MessageType, OrderBookMsg,
    OrderBookView, ParseError, TradeMsg, TradeSide, TradeView,
};
use crate::pair::{fixed_outcome, normalize_fixed, pair_outcome};
use crate::text::same_text;

verus! {

/// The `data` member of a frame that has the three header texts.
pub open spec fn envelope_data(doc: Json) -> Option<Json> {
    match (text_at(doc, "subject"@), text_at(doc, "topic"@), text_at(doc, "type"@)) {
        (Some(_), Some(_), Some(_)) => get(doc, "data"@),
        _ => None,
    }
}

/// Nanoseconds cut down to whole milliseconds, rounding toward zero.
pub open spec fn nanos_to_millis(t: i64) -> i64 {
    if t >= 0 {
        (t / 1_000_000) as i64
    } else {
        (-((-t) / 1_000_000)) as i64
    }
}

/// The symbol that a frame's data names.
pub open spec fn frame_symbol(doc: Json) -> Option<Seq<char>> {
    match envelope_data(doc) {
        Some(data) => text_at(data, "symbol"@),
        None => None,
    }
}

/// The pair of a frame's symbol.
pub open spec fn pair_for(doc: Json) -> Result<Seq<char>, ParseError> {
    match frame_symbol(doc) {
        Some(symbol) => fixed_outcome(symbol, "kucoin"@),
        None => Err(ParseError::MalformedPayload),
    }
}

/// The trade of a decoded frame, given the outcome of normalizing its
/// symbol.
pub open spec fn trade_given(doc: Json, pair: Result<Seq<char>, ParseError>) -> Result<
    TradeView,
    ParseError,
> {
    match envelope_data(doc) {
        Some(data) => match (
            text_at(data, "symbol"@),
            text_at(data, "sequence"@),
            text_at(data, "side"@),
            decimal_at(data, "size"@),
            decimal_at(data, "price"@),
            int_at(data, "time"@),
        ) {
            (
                Some(symbol),
                Some(sequence),
                Some(side),
                Some(size),
                Some(price),
                Some(time),
            ) => match pair {
                Ok(p) => Ok(
                    TradeView {
                        exchange: "kucoin"@,
                        market_type: MarketType::Spot,
                        symbol,
                        pair: p,
                        msg_type: MessageType::Trade,
                        timestamp: nanos_to_millis(time),
                        price,
                        quantity_base: size,
                        quantity_quote: price.spec_times(size),
                        quantity_contract: None,
                        side: side_for(side, "sell"@),
                        trade_id: sequence,
                        raw: data,
                    },
                ),
                Err(e) => Err(e),
            },
            _ => Err(ParseError::MalformedPayload),
        },
        None => Err(ParseError::MalformedPayload),
    }
}

/// The trades of a frame, given what its text decodes to.
pub open spec fn trades_in(doc: Option<Json>) -> Result<Seq<TradeView>, ParseError> {
    match doc {
        Some(d) => match trade_given(d, pair_for(d)) {
            Ok(trade) => Ok(seq![trade]),
            Err(e) => Err(e),
        },
        None => Err(ParseError::MalformedPayload),
    }
}

/// The update of a decoded frame received at `received_at`, given the
/// outcome of normalizing its symbol. Each level is written as price, size
/// and sequence; levels stay in wire order.
pub open spec fn book_given(
    doc: Json,
    pair: Result<Seq<char>, ParseError>,
    received_at: i64,
) -> Result<OrderBookView, ParseError> {
    match envelope_data(doc) {
        Some(data) => if text_at(doc, "subject"@) == Some("trade.l2update"@) {
            match (text_at(data, "symbol"@), get(data, "changes"@)) {
                (Some(symbol), Some(changes)) => match (
                    items_at(changes, "asks"@),
                    items_at(changes, "bids"@),
                ) {
                    (Some(ask_rows), Some(bid_rows)) => match pair {
                        Ok(p) => match (levels_of(ask_rows, 3), levels_of(bid_rows, 3)) {
                            (Ok(asks), Ok(bids)) => Ok(
                                OrderBookView {
                                    exchange: "kucoin"@,
                                    market_type: MarketType::Spot,
                                    symbol,
                                    pair: p,
                                    msg_type: MessageType::L2Event,
                                    timestamp: received_at,
                                    asks,
                                    bids,
                                    snapshot: false,
                                    raw: doc,
                                },
                            ),
                            _ => Err(ParseError::MalformedPayload),
                        },
                        Err(e) => Err(e),
                    },
                    _ => Err(ParseError::MalformedPayload),
                },
                _ => Err(ParseError::MalformedPayload),
            }
        } else {
            Err(ParseError::MalformedPayload)
        },
        None => Err(ParseError::MalformedPayload),
    }
}

/// The books of a frame received at `received_at`, given what its text decodes to.
pub open spec fn books_in(doc: Option<Json>, received_at: i64) -> Result<
    Seq<OrderBookView>,
    ParseError,
> {
    match doc {
        Some(d) => match book_given(d, pair_for(d), received_at) {
            Ok(book) => Ok(seq![book]),
            Err(e) => Err(e),
        },
        None => Err(ParseError::MalformedPayload),
    }
}

/// A trade is a sell exactly when its side is `sell`.
pub proof fn trade_side_follows_token(doc: Json, pair: Result<Seq<char>, ParseError>)
    requires
        trade_given(doc, pair) is Ok,
    ensures
        trade_given(doc, pair)->Ok_0.side == TradeSide::Sell <==> text_at(
            envelope_data(doc)->0,
            "side"@,
        ) == Some("sell"@),
        trade_given(doc, pair)->Ok_0.side == TradeSide::Buy <==> text_at(
            envelope_data(doc)->0,
            "side"@,
        ) != Some("sell"@),
{
}

fn data_of(doc: &serde_json::Value) -> (r: Option<&serde_json::Value>)
    ensures
        r is Some <==> envelope_data(json_of(*doc)) is Some,
        r matches Some(data) ==> envelope_data(json_of(*doc)) == Some(json_of(*data)),
{
    match (text_field(doc, "subject"), text_field(doc, "topic"), text_field(doc, "type")) {
        (Some(_), Some(_), Some(_)) => member(doc, "data"),
        _ => None,
    }
}

fn to_millis(t: i64) -> (r: i64)
    ensures
        r == nanos_to_millis(t),
{
    if t >= 0 {
        t / 1_000_000
    } else {
        let magnitude: u64 = if t == i64::MIN {
            9223372036854775808
        } else {
            (-t) as u64
        };
        -((magnitude / 1_000_000) as i64)
    }
}

/// Normalizes the symbol of a decoded frame.
pub fn pair_of_frame(doc: &serde_json::Value) -> (r: Result<String, ParseError>)
    ensures
        r matches Err(e) ==> about_the_frame(e),
        pair_outcome(r) == pair_for(json_of(*doc)),
{
    let symbol = match data_of(doc) {
        Some(data) => text_field(data, "symbol"),
        None => None,
    };
    match symbol {
        Some(symbol) => normalize_fixed(symbol, "kucoin"),
        None => Err(ParseError::MalformedPayload),
    }
}

/// Reads the trade of a decoded frame. `pair` is the outcome of normalizing
/// the frame's symbol.
pub fn trade_from(doc: &serde_json::Value, pair: Result<String, ParseError>) -> (r: Result<
    TradeMsg,
    ParseError,
>)
    ensures
        trade_outcome(r) == trade_given(json_of(*doc), pair_outcome(pair)),
        r matches Ok(t) ==> t@.consistent(),
{
    let data = match data_of(doc) {
        Some(data) => data,
        None => {
            return Err(ParseError::MalformedPayload);
        },
    };
    match (
        text_field(data, "symbol"),
        text_field(data, "sequence"),
        text_field(data, "side"),
        decimal_field(data, "size"),
        decimal_field(data, "price"),
        int_field(data, "time"),
    ) {
        (
            Some(symbol),
            Some(sequence),
            Some(side),
            Some(size),
            Some(price),
            Some(time),
        ) => match pair {
            Ok(p) => Ok(
                TradeMsg {
                    exchange: "kucoin".to_owned(),
                    market_type: MarketType::Spot,
                    symbol: symbol.to_owned(),
                    pair: p,
                    msg_type: MessageType::Trade,
                    timestamp: to_millis(time),
                    price,
                    quantity_base: size,
                    quantity_quote: price.times(&size),
                    quantity_contract: None,
                    side: side_of(side, "sell"),
                    trade_id: sequence.to_owned(),
                    raw: copy_of(data),
                },
            ),
            Err(e) => Err(e),
        },
        _ => Err(ParseError::MalformedPayload),
    }
}

/// Reads the update of a decoded frame received at `received_at`. `pair` is the
/// outcome of normalizing the frame's symbol.
pub fn book_from(
    doc: &serde_json::Value,
    pair: Result<String, ParseError>,
    received_at: i64,
) -> (r: Result<OrderBookMsg, ParseError>)
    ensures
        book_outcome(r) == book_given(json_of(*doc), pair_outcome(pair), received_at),
        r matches Ok(book) ==> !book.snapshot && levels_consistent(book.asks@)
            && levels_consistent(book.bids@),
{
    let data = match data_of(doc) {
        Some(data) => data,
        None => {
            return Err(ParseError::MalformedPayload);
        },
    };
    match text_field(doc, "subject") {
        Some(subject) => {
            if !same_text(subject, "trade.l2update") {
                return Err(ParseError::MalformedPayload);
            }
        },
        None => {
            return Err(ParseError::MalformedPayload);
        },
    }
    let (symbol, changes) = match (text_field(data, "symbol"), member(data, "changes")) {
        (Some(symbol), Some(changes)) => (symbol, changes),
        _ => {
            return Err(ParseError::MalformedPayload);
        },
    };
    match (items_field(changes, "asks"), items_field(changes, "bids")) {
        (Some(ask_rows), Some(bid_rows)) => match pair {
            Ok(p) => {
                proof {
                    lemma_levels_error(docs_of(ask_rows@), 3);
                    lemma_levels_error(docs_of(bid_rows@), 3);
                }
                let asks = match read_levels(ask_rows, 3) {
                    Ok(asks) => asks,
                    Err(e) => {
                        return Err(e);
                    },
                };
                let bids = match read_levels(bid_rows, 3) {
                    Ok(bids) => bids,
                    Err(e) => {
                        return Err(e);
                    },
                };
                Ok(
                    OrderBookMsg {
                        exchange: "kucoin".to_owned(),
                        market_type: MarketType::Spot,
                        symbol: symbol.to_owned(),
                        pair: p,
                        msg_type: MessageType::L2Event,
                        timestamp: received_at,
                        asks,
                        bids,
                        snapshot: false,
                        raw: copy_of(doc),
                    },
                )
            },
            Err(e) => Err(e),
        },
        _ => Err(ParseError::MalformedPayload),
    }
}

/// Reads the books of a decoded frame received at `received_at`.
pub fn books_from(doc: &serde_json::Value, received_at: i64) -> (r: Result<
    Vec<OrderBookMsg>,
    ParseError,
>)
    ensures
        r matches Err(e) ==> about_the_frame(e),
        books_outcome(r) == books_in(Some(json_of(*doc)), received_at),
        r matches Ok(books) ==> books@.len() == 1 && !books@[0].snapshot && levels_consistent(
            books@[0].asks@,
        ) && levels_consistent(books@[0].bids@),
{
    let pair = pair_of_frame(doc);
    match book_from(doc, pair, received_at) {
        Ok(book) => {
            let ghost view = book@;
            let mut out: Vec<OrderBookMsg> = Vec::new();
            out.push(book);
            assert(book_views(out@) =~= seq![view]);
            Ok(out)
        },
        Err(e) => Err(e),
    }
}

/// Reads the trade of a frame; the result holds one trade.
///
/// A text that is not JSON, or a frame of another shape, gives
/// `MalformedPayload`; a symbol outside KuCoin's grammar gives
/// `UnrecognizedSymbol`.
pub fn parse_trade(msg: &str) -> (r: Result<Vec<TradeMsg>, ParseError>)
    ensures
        r matches Err(e) ==> about_the_frame(e),
        trades_outcome(r) == trades_in(json_parse(msg@)),
        r matches Ok(trades) ==> trades@.len() == 1 && trades_consistent(trades@),
{
    match decode(msg) {
        Ok(doc) => {
            let pair = pair_of_frame(&doc);
            match trade_from(&doc, pair) {
                Ok(trade) => {
                    let ghost view = trade@;
                    let mut out: Vec<TradeMsg> = Vec::new();
                    out.push(trade);
                    assert(trade_views(out@) =~= seq![view]);
                    Ok(out)
                },
                Err(e) => Err(e),
            }
        },
        Err(_) => Err(ParseError::MalformedPayload),
    }
}

/// Reads the order-book update of a frame and stamps it with
/// `received_at`, the time of receipt in milliseconds; the result holds one
/// book, never a snapshot.
///
/// Errors are as for `parse_trade`; a frame whose subject is not
/// `trade.l2update` is malformed.
pub fn parse_l2(msg: &str, received_at: i64) -> (r: Result<Vec<OrderBookMsg>, ParseError>)
    ensures
        r matches Err(e) ==> about_the_frame(e),
        books_outcome(r) == books_in(json_parse(msg@), received_at),
        r matches Ok(books) ==> books@.len() == 1 && !books@[0].snapshot && levels_consistent(
            books@[0].asks@,
        ) && levels_consistent(books@[0].bids@),
{
    match decode(msg) {
        Ok(doc) => books_from(&doc, received_at),
        Err(_) => Err(ParseError::MalformedPayload),
    }
}

} // verus!
