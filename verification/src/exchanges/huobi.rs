//! Huobi spot: trades and level-2 order-book updates.
//!
//! Every frame is `{"ch": "market.<symbol>.<topic>", "ts": .., "tick": ..}`.
//! The symbol is the second dot-separated part of the channel name.

use vstd::prelude::*;
use crate::book::{
    collect, lemma_collect_fails, lemma_collect_step, lemma_levels_error, levels_consistent,
    levels_of, read_levels,
};
use crate::fields::{
    decimal_at, decimal_field, get, int_at, int_field, items_at, items_field, text_at, text_field,
};
use crate::json::{copy_of, decode, docs_of, json_of, json_parse, member, Json};
use crate::message::{
    about_the_frame, book_outcome, book_views, books_outcome, side_for, side_of, trade_outcome,
    trade_views, trades_consistent, trades_outcome, MarketType, MessageType, OrderBookMsg,
    OrderBookView, ParseError, TradeMsg, TradeSide, TradeView,
};
use crate::pair::{normalize, pair_of, pair_outcome};
use crate::text::{
    chars_of, find_char, index_of, int_text, render_i64, string_of_range, string_views,
};

verus! {

/// The second dot-separated part of a channel name.
pub open spec fn channel_symbol(ch: Seq<char>) -> Option<Seq<char>> {
    let first = index_of(ch, '.', 0);
    if first < ch.len() {
        Some(ch.subrange(first + 1, index_of(ch, '.', first + 1)))
    } else {
        None
    }
}

/// The symbol of a frame: that of its channel, when the frame has a channel
/// name, a timestamp and a tick.
pub open spec fn frame_symbol(doc: Json) -> Option<Seq<char>> {
    match (text_at(doc, "ch"@), int_at(doc, "ts"@), get(doc, "tick"@)) {
        (Some(ch), Some(_), Some(_)) => channel_symbol(ch),
        _ => None,
    }
}

/// The trade that one element of `tick.data` holds.
pub open spec fn trade_of(item: Json, symbol: Seq<char>, pair: Seq<char>) -> Result<
    TradeView,
    ParseError,
> {
    match (
        int_at(item, "ts"@),
        int_at(item, "tradeId"@),
        decimal_at(item, "amount"@),
        decimal_at(item, "price"@),
        text_at(item, "direction"@),
    ) {
        (Some(timestamp), Some(id), Some(amount), Some(price), Some(direction)) => Ok(
            TradeView {
                exchange: "huobi"@,
                market_type: MarketType::Spot,
                symbol,
                pair,
                msg_type: MessageType::Trade,
                timestamp,
                price,
                quantity_base: amount,
                quantity_quote: price.spec_times(amount),
                quantity_contract: None,
                side: side_for(direction, "sell"@),
                trade_id: int_text(id as int),
                raw: item,
            },
        ),
        _ => Err(ParseError::MalformedPayload),
    }
}

/// The trades of a decoded frame, given the outcome of normalizing its
/// symbol.
pub open spec fn trades_given(doc: Json, pair: Result<Seq<char>, ParseError>) -> Result<
    Seq<TradeView>,
    ParseError,
> {
    match frame_symbol(doc) {
        Some(symbol) => {
            let tick = get(doc, "tick"@)->0;
            match (int_at(tick, "id"@), int_at(tick, "ts"@), items_at(tick, "data"@)) {
                (Some(_), Some(_), Some(items)) => match pair {
                    Ok(p) => collect(items, |item: Json| trade_of(item, symbol, p)),
                    Err(e) => Err(e),
                },
                _ => Err(ParseError::MalformedPayload),
            }
        },
        None => Err(ParseError::MalformedPayload),
    }
}

/// The update of a decoded frame, given the outcome of normalizing its
/// symbol. Levels stay in wire order.
pub open spec fn book_given(doc: Json, pair: Result<Seq<char>, ParseError>) -> Result<
    OrderBookView,
    ParseError,
> {
    match frame_symbol(doc) {
        Some(symbol) => {
            let tick = get(doc, "tick"@)->0;
            match (
                int_at(tick, "seqNum"@),
                int_at(tick, "prevSeqNum"@),
                items_at(tick, "asks"@),
                items_at(tick, "bids"@),
            ) {
                (Some(_), Some(_), Some(ask_rows), Some(bid_rows)) => match pair {
                    Ok(p) => match (levels_of(ask_rows, 2), levels_of(bid_rows, 2)) {
                        (Ok(asks), Ok(bids)) => Ok(
                            OrderBookView {
                                exchange: "huobi"@,
                                market_type: MarketType::Spot,
                                symbol,
                                pair: p,
                                msg_type: MessageType::L2Event,
                                timestamp: int_at(doc, "ts"@)->0,
                                asks,
                                bids,
                                snapshot: false,
                                raw: doc,
                            },
                        ),
                        _ => Err(ParseError::MalformedPayload),
                    },
                    Err(e) => Err(e),
                },
                _ => Err(ParseError::MalformedPayload),
            }
        },
        None => Err(ParseError::MalformedPayload),
    }
}

/// The pair of a frame's symbol under a table of spot quotes.
pub open spec fn pair_for(doc: Json, quotes: Seq<Seq<char>>) -> Result<Seq<char>, ParseError> {
    match frame_symbol(doc) {
        Some(symbol) => pair_of(symbol, "huobi"@, quotes),
        None => Err(ParseError::MalformedPayload),
    }
}

/// The trades of a frame, given what its text decodes to and the table of
/// spot quotes.
pub open spec fn trades_in(doc: Option<Json>, quotes: Seq<Seq<char>>) -> Result<
    Seq<TradeView>,
    ParseError,
> {
    match doc {
        Some(d) => trades_given(d, pair_for(d, quotes)),
        None => Err(ParseError::MalformedPayload),
    }
}

/// The books of a frame, given what its text decodes to and the table of
/// spot quotes.
pub open spec fn books_in(doc: Option<Json>, quotes: Seq<Seq<char>>) -> Result<
    Seq<OrderBookView>,
    ParseError,
> {
    match doc {
        Some(d) => match book_given(d, pair_for(d, quotes)) {
            Ok(book) => Ok(seq![book]),
            Err(e) => Err(e),
        },
        None => Err(ParseError::MalformedPayload),
    }
}

/// A trade is a sell exactly when its direction is `sell`.
pub proof fn trade_side_follows_token(item: Json, symbol: Seq<char>, pair: Seq<char>)
    requires
        trade_of(item, symbol, pair) is Ok,
    ensures
        trade_of(item, symbol, pair)->Ok_0.side == TradeSide::Sell <==> text_at(
            item,
            "direction"@,
        ) == Some("sell"@),
        trade_of(item, symbol, pair)->Ok_0.side == TradeSide::Buy <==> text_at(
            item,
            "direction"@,
        ) != Some("sell"@),
{
}

/// The symbol in a channel name.
pub fn symbol_of_channel(ch: &str) -> (r: Option<String>)
    ensures
        r is Some <==> channel_symbol(ch@) is Some,
        r matches Some(symbol) ==> channel_symbol(ch@) == Some(symbol@),
{
    let text = chars_of(ch);
    let first = find_char(&text, '.', 0);
    if first < text.len() {
        let second = find_char(&text, '.', first + 1);
        Some(string_of_range(&text, first + 1, second))
    } else {
        None
    }
}

/// The symbol of a decoded frame.
pub fn symbol_of_frame(doc: &serde_json::Value) -> (r: Option<String>)
    ensures
        r is Some <==> frame_symbol(json_of(*doc)) is Some,
        r matches Some(symbol) ==> frame_symbol(json_of(*doc)) == Some(symbol@),
{
    match (text_field(doc, "ch"), int_field(doc, "ts"), member(doc, "tick")) {
        (Some(ch), Some(_), Some(_)) => symbol_of_channel(ch),
        _ => None,
    }
}

/// Reads the trade of one element of `tick.data`.
pub fn read_trade(item: &serde_json::Value, symbol: &str, pair: &str) -> (r: Result<
    TradeMsg,
    ParseError,
>)
    ensures
        trade_outcome(r) == trade_of(json_of(*item), symbol@, pair@),
        r matches Ok(t) ==> t@.consistent(),
{
    match (
        int_field(item, "ts"),
        int_field(item, "tradeId"),
        decimal_field(item, "amount"),
        decimal_field(item, "price"),
        text_field(item, "direction"),
    ) {
        (Some(timestamp), Some(id), Some(amount), Some(price), Some(direction)) => Ok(
            TradeMsg {
                exchange: "huobi".to_owned(),
                market_type: MarketType::Spot,
                symbol: symbol.to_owned(),
                pair: pair.to_owned(),
                msg_type: MessageType::Trade,
                timestamp,
                price,
                quantity_base: amount,
                quantity_quote: price.times(&amount),
                quantity_contract: None,
                side: side_of(direction, "sell"),
                trade_id: render_i64(id),
                raw: copy_of(item),
            },
        ),
        _ => Err(ParseError::MalformedPayload),
    }
}

/// Reads the trades of a decoded frame. `pair` is the outcome of normalizing
/// the frame's symbol.
pub fn trades_from(doc: &serde_json::Value, pair: Result<String, ParseError>) -> (r: Result<
    Vec<TradeMsg>,
    ParseError,
>)
    ensures
        r matches Err(e) ==> about_the_frame(e) || pair_outcome(pair) == Err::<
            Seq<char>,
            ParseError,
        >(e),
        trades_outcome(r) == trades_given(json_of(*doc), pair_outcome(pair)),
        r matches Ok(trades) ==> trades_consistent(trades@),
{
    let symbol = match symbol_of_frame(doc) {
        Some(symbol) => symbol,
        None => {
            return Err(ParseError::MalformedPayload);
        },
    };
    let tick = match member(doc, "tick") {
        Some(tick) => tick,
        None => {
            return Err(ParseError::MalformedPayload);
        },
    };
    let rows = match (int_field(tick, "id"), int_field(tick, "ts"), items_field(tick, "data")) {
        (Some(_), Some(_), Some(rows)) => rows,
        _ => {
            return Err(ParseError::MalformedPayload);
        },
    };
    let ghost expected = trades_given(json_of(*doc), pair_outcome(pair));
    let p = match pair {
        Ok(p) => p,
        Err(e) => {
            return Err(e);
        },
    };
    let ghost docs = docs_of(rows@);
    let ghost read = |item: Json| trade_of(item, symbol@, p@);
    assert(expected == collect(docs, read));
    let mut out: Vec<TradeMsg> = Vec::new();
    let mut i: usize = 0;
    proof {
        assert(docs.take(0) =~= Seq::<Json>::empty());
        assert(trade_views(out@) =~= Seq::<TradeView>::empty());
    }
    while i < rows.len()
        invariant
            i <= rows.len(),
            docs == docs_of(rows@),
            read == (|item: Json| trade_of(item, symbol@, p@)),
            expected == collect(docs, read),
            expected == trades_given(json_of(*doc), pair_outcome(pair)),
            collect(docs.take(i as int), read) == Ok::<Seq<TradeView>, ParseError>(
                trade_views(out@),
            ),
            trades_consistent(out@),
        decreases rows.len() - i,
    {
        proof {
            lemma_collect_step(docs, read, i as int);
            assert(docs[i as int] == json_of(rows@[i as int]));
        }
        match read_trade(&rows[i], symbol.as_str(), p.as_str()) {
            Ok(trade) => {
                let ghost before = trade_views(out@);
                let ghost view = trade@;
                out.push(trade);
                assert(trade_views(out@) =~= before.push(view));
            },
            Err(e) => {
                proof {
                    lemma_collect_fails(docs, read, i + 1);
                }
                return Err(e);
            },
        }
        i = i + 1;
    }
    proof {
        assert(docs.take(rows.len() as int) == docs);
    }
    Ok(out)
}

/// Reads the update of a decoded frame. `pair` is the outcome of normalizing
/// the frame's symbol.
pub fn book_from(doc: &serde_json::Value, pair: Result<String, ParseError>) -> (r: Result<
    OrderBookMsg,
    ParseError,
>)
    ensures
        r matches Err(e) ==> about_the_frame(e) || pair_outcome(pair) == Err::<
            Seq<char>,
            ParseError,
        >(e),
        book_outcome(r) == book_given(json_of(*doc), pair_outcome(pair)),
        r matches Ok(book) ==> !book.snapshot && levels_consistent(book.asks@)
            && levels_consistent(book.bids@),
{
    let symbol = match symbol_of_frame(doc) {
        Some(symbol) => symbol,
        None => {
            return Err(ParseError::MalformedPayload);
        },
    };
    let tick = match member(doc, "tick") {
        Some(tick) => tick,
        None => {
            return Err(ParseError::MalformedPayload);
        },
    };
    let timestamp = match int_field(doc, "ts") {
        Some(timestamp) => timestamp,
        None => {
            return Err(ParseError::MalformedPayload);
        },
    };
    match (
        int_field(tick, "seqNum"),
        int_field(tick, "prevSeqNum"),
        items_field(tick, "asks"),
        items_field(tick, "bids"),
    ) {
        (Some(_), Some(_), Some(ask_rows), Some(bid_rows)) => match pair {
            Ok(p) => {
                proof {
                    lemma_levels_error(docs_of(ask_rows@), 2);
                    lemma_levels_error(docs_of(bid_rows@), 2);
                }
                let asks = match read_levels(ask_rows, 2) {
                    Ok(asks) => asks,
                    Err(e) => {
                        return Err(e);
                    },
                };
                let bids = match read_levels(bid_rows, 2) {
                    Ok(bids) => bids,
                    Err(e) => {
                        return Err(e);
                    },
                };
                Ok(
                    OrderBookMsg {
                        exchange: "huobi".to_owned(),
                        market_type: MarketType::Spot,
                        symbol,
                        pair: p,
                        msg_type: MessageType::L2Event,
                        timestamp,
                        asks,
                        bids,
                        snapshot: false,
                        raw: copy_of(doc),
                    },
                )
            },
            Err(e) => Err(e),
        },
        _ => Err(ParseError::MalformedPayload),
    }
}

/// Normalizes the symbol of a decoded frame against a table of spot quotes.
pub fn pair_of_frame(doc: &serde_json::Value, quotes: &Vec<String>) -> (r: Result<
    String,
    ParseError,
>)
    ensures
        r matches Err(e) ==> about_the_frame(e),
        pair_outcome(r) == pair_for(json_of(*doc), string_views(quotes@)),
{
    match symbol_of_frame(doc) {
        Some(symbol) => normalize(symbol.as_str(), "huobi", quotes),
        None => Err(ParseError::MalformedPayload),
    }
}

/// Reads the trades of a frame; spot symbols are split against `quotes`.
///
/// A text that is not JSON, or a frame of another shape, gives
/// `MalformedPayload`; a symbol without a pair gives `UnrecognizedSymbol`.
pub fn parse_trade(msg: &str, quotes: &Vec<String>) -> (r: Result<Vec<TradeMsg>, ParseError>)
    ensures
        r matches Err(e) ==> about_the_frame(e),
        trades_outcome(r) == trades_in(json_parse(msg@), string_views(quotes@)),
        r matches Ok(trades) ==> trades_consistent(trades@),
{
    match decode(msg) {
        Ok(doc) => {
            let pair = pair_of_frame(&doc, quotes);
            trades_from(&doc, pair)
        },
        Err(_) => Err(ParseError::MalformedPayload),
    }
}

/// Reads the order-book update of a frame; the result holds one book, never
/// a snapshot. Spot symbols are split against `quotes`.
///
/// Errors are as for `parse_trade`.
pub fn parse_l2(msg: &str, quotes: &Vec<String>) -> (r: Result<Vec<OrderBookMsg>, ParseError>)
    ensures
        r matches Err(e) ==> about_the_frame(e),
        books_outcome(r) == books_in(json_parse(msg@), string_views(quotes@)),
        r matches Ok(books) ==> books@.len() == 1 && !books@[0].snapshot && levels_consistent(
            books@[0].asks@,
        ) && levels_consistent(books@[0].bids@),
{
    match decode(msg) {
        Ok(doc) => {
            let pair = pair_of_frame(&doc, quotes);
            match book_from(&doc, pair) {
                Ok(book) => {
                    let ghost view = book@;
                    let mut out: Vec<OrderBookMsg> = Vec::new();
                    out.push(book);
                    assert(book_views(out@) =~= seq![view]);
                    Ok(out)
                },
                Err(e) => Err(e),
            }
        },
        Err(_) => Err(ParseError::MalformedPayload),
    }
}

} // verus!
