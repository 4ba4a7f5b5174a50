//! ZBG spot: trades and level-2 order books.
//!
//! Trades arrive as `["T", id, seconds, symbol, side, price, quantity]`, alone
//! or as an array of such rows. A book arrives either as a snapshot,
//! `[["AE", id, symbol, seconds, {"asks": ..}, {"bids": ..}]]`, or as a
//! single-level update, `["E", id, seconds, symbol, side, price, quantity]`.

use vstd::prelude::*;
use crate::book::{
    ascending, books_well_formed, collect, lemma_collect_fails, lemma_collect_ok,
    lemma_collect_step, lemma_levels_error, levels_consistent, levels_of, read_levels,
    sort_by_price, sorted_by_price, sorted_by_price_is_ascending,
};
use crate::decimal::{decimal_text_value, parse_decimal};
use crate::fields::{
    int_value, items_at, items_field, items_value, read_int, read_texts, text_value, text_views,
    texts_value,
};
use crate::json::{copy_of, decode, docs_of, items_of, json_of, json_parse, text_of, Json};
use crate::message::{
    about_the_frame, book_outcome, book_views, books_outcome, side_for, side_of, trade_outcome,
    trade_views, trades_consistent, trades_outcome, MarketType, MessageType, Order, OrderBookMsg,
    OrderBookView, ParseError, TradeMsg, TradeSide, TradeView,
};
use crate::pair::{fixed_outcome, normalize_fixed, pair_outcome};
use crate::text::{i64_text_value, parse_i64, same_text, starts_with};

verus! {

/// A frame that holds several trades.
pub open spec fn is_trade_batch(msg: Seq<char>) -> bool {
    "[[\"T\","@.is_prefix_of(msg)
}

/// A frame that holds one trade.
pub open spec fn is_trade_single(msg: Seq<char>) -> bool {
    "[\"T\","@.is_prefix_of(msg)
}

/// A frame that holds full books; every other book frame is an update.
pub open spec fn is_book_snapshot(msg: Seq<char>) -> bool {
    "[[\"AE\","@.is_prefix_of(msg)
}

/// Seconds turned into milliseconds, when they fit.
pub open spec fn millis(seconds: Option<i64>) -> Option<i64> {
    match seconds {
        Some(s) => if i64::MIN <= s * 1000 <= i64::MAX {
            Some((s * 1000) as i64)
        } else {
            None
        },
        None => None,
    }
}

/// The pair of a ZBG symbol.
pub open spec fn pair_for(symbol: Seq<char>) -> Result<Seq<char>, ParseError> {
    fixed_outcome(symbol, "zbg"@)
}

/// The trade that a row of texts holds, given the outcome of normalizing its
/// symbol.
pub open spec fn trade_from(
    cells: Seq<Seq<char>>,
    pair: Result<Seq<char>, ParseError>,
    raw: Json,
) -> Result<TradeView, ParseError> {
    if cells.len() >= 7 && cells[0] == "T"@ {
        match (
            millis(i64_text_value(cells[2])),
            decimal_text_value(cells[5]),
            decimal_text_value(cells[6]),
        ) {
            (Some(timestamp), Some(price), Some(quantity)) => match pair {
                Ok(p) => Ok(
                    TradeView {
                        exchange: "zbg"@,
                        market_type: MarketType::Spot,
                        symbol: cells[3],
                        pair: p,
                        msg_type: MessageType::Trade,
                        timestamp,
                        price,
                        quantity_base: quantity,
                        quantity_quote: price.spec_times(quantity),
                        quantity_contract: None,
                        side: side_for(cells[4], "ask"@),
                        trade_id: crate::text::int_text(timestamp as int),
                        raw,
                    },
                ),
                Err(e) => Err(e),
            },
            _ => Err(ParseError::MalformedPayload),
        }
    } else {
        Err(ParseError::MalformedPayload)
    }
}

/// The trade that a decoded row holds.
pub open spec fn trade_of(row: Json) -> Result<TradeView, ParseError> {
    match texts_value(row) {
        Some(cells) => trade_from(
            cells,
            if cells.len() > 3 {
                pair_for(cells[3])
            } else {
                Err(ParseError::MalformedPayload)
            },
            row,
        ),
        None => Err(ParseError::MalformedPayload),
    }
}

/// The trades of a frame, given what its text decodes to.
pub open spec fn trades_in(msg: Seq<char>, doc: Option<Json>) -> Result<
    Seq<TradeView>,
    ParseError,
> {
    match doc {
        Some(d) => if is_trade_batch(msg) {
            match items_value(d) {
                Some(rows) => collect(rows, |row: Json| trade_of(row)),
                None => Err(ParseError::MalformedPayload),
            }
        } else if is_trade_single(msg) {
            match trade_of(d) {
                Ok(t) => Ok(seq![t]),
                Err(e) => Err(e),
            }
        } else {
            Err(ParseError::MalformedPayload)
        },
        None => Err(ParseError::MalformedPayload),
    }
}

/// The update that a row of texts holds: one level on the bid side when the
/// side token is `BID`, on the ask side otherwise.
pub open spec fn delta_from(
    cells: Seq<Seq<char>>,
    pair: Result<Seq<char>, ParseError>,
    raw: Json,
) -> Result<OrderBookView, ParseError> {
    if cells.len() >= 7 {
        match (
            millis(i64_text_value(cells[2])),
            decimal_text_value(cells[5]),
            decimal_text_value(cells[6]),
        ) {
            (Some(timestamp), Some(price), Some(quantity)) => match pair {
                Ok(p) => Ok(
                    OrderBookView {
                        exchange: "zbg"@,
                        market_type: MarketType::Spot,
                        symbol: cells[3],
                        pair: p,
                        msg_type: MessageType::L2Event,
                        timestamp,
                        asks: if cells[4] == "BID"@ {
                            Seq::<Order>::empty()
                        } else {
                            seq![Order::spec_spot(price, quantity)]
                        },
                        bids: if cells[4] == "BID"@ {
                            seq![Order::spec_spot(price, quantity)]
                        } else {
                            Seq::<Order>::empty()
                        },
                        snapshot: false,
                        raw,
                    },
                ),
                Err(e) => Err(e),
            },
            _ => Err(ParseError::MalformedPayload),
        }
    } else {
        Err(ParseError::MalformedPayload)
    }
}

/// The update that a decoded frame holds.
pub open spec fn delta_of(doc: Json) -> Result<OrderBookView, ParseError> {
    match texts_value(doc) {
        Some(cells) => delta_from(
            cells,
            if cells.len() > 3 {
                pair_for(cells[3])
            } else {
                Err(ParseError::MalformedPayload)
            },
            doc,
        ),
        None => Err(ParseError::MalformedPayload),
    }
}

/// The symbol of a snapshot row.
pub open spec fn snapshot_symbol(row: Json) -> Option<Seq<char>> {
    match row {
        Json::Array(cells) => if cells.len() >= 6 {
            text_value(cells[2])
        } else {
            None
        },
        _ => None,
    }
}

/// The full book that a snapshot row holds, given the outcome of normalizing
/// its symbol. Asks come out in ascending order of price, bids in wire order.
pub open spec fn snapshot_from(row: Json, pair: Result<Seq<char>, ParseError>) -> Result<
    OrderBookView,
    ParseError,
> {
    match snapshot_symbol(row) {
        Some(symbol) => {
            let cells = row->Array_0;
            match (
                millis(int_value(cells[3])),
                items_at(cells[4], "asks"@),
                items_at(cells[5], "bids"@),
            ) {
                (Some(timestamp), Some(ask_rows), Some(bid_rows)) => match (
                    levels_of(ask_rows, 2),
                    levels_of(bid_rows, 2),
                ) {
                    (Ok(asks), Ok(bids)) => match pair {
                        Ok(p) => Ok(
                            OrderBookView {
                                exchange: "zbg"@,
                                market_type: MarketType::Spot,
                                symbol,
                                pair: p,
                                msg_type: MessageType::L2Event,
                                timestamp,
                                asks: sorted_by_price(asks),
                                bids,
                                snapshot: true,
                                raw: row,
                            },
                        ),
                        Err(e) => Err(e),
                    },
                    (Err(e), _) => Err(e),
                    (_, Err(e)) => Err(e),
                },
                _ => Err(ParseError::MalformedPayload),
            }
        },
        None => Err(ParseError::MalformedPayload),
    }
}

/// The full book that a decoded snapshot row holds.
pub open spec fn snapshot_of(row: Json) -> Result<OrderBookView, ParseError> {
    snapshot_from(
        row,
        match snapshot_symbol(row) {
            Some(symbol) => pair_for(symbol),
            None => Err(ParseError::MalformedPayload),
        },
    )
}

/// The books of a frame, given what its text decodes to.
pub open spec fn books_in(msg: Seq<char>, doc: Option<Json>) -> Result<
    Seq<OrderBookView>,
    ParseError,
> {
    match doc {
        Some(d) => if is_book_snapshot(msg) {
            match items_value(d) {
                Some(rows) => collect(rows, |row: Json| snapshot_of(row)),
                None => Err(ParseError::MalformedPayload),
            }
        } else {
            match delta_of(d) {
                Ok(book) => Ok(seq![book]),
                Err(e) => Err(e),
            }
        },
        None => Err(ParseError::MalformedPayload),
    }
}

/// A trade is a sell exactly when its side token is `ask`.
pub proof fn trade_side_follows_token(
    cells: Seq<Seq<char>>,
    pair: Result<Seq<char>, ParseError>,
    raw: Json,
)
    requires
        trade_from(cells, pair, raw) is Ok,
    ensures
        trade_from(cells, pair, raw)->Ok_0.side == TradeSide::Sell <==> cells[4] == "ask"@,
        trade_from(cells, pair, raw)->Ok_0.side == TradeSide::Buy <==> cells[4] != "ask"@,
{
}

/// An update holds one level: on the bid side exactly when its side token
/// is `BID`, on the ask side otherwise.
pub proof fn delta_side_follows_token(
    cells: Seq<Seq<char>>,
    pair: Result<Seq<char>, ParseError>,
    raw: Json,
)
    requires
        delta_from(cells, pair, raw) is Ok,
    ensures
        cells[4] == "BID"@ ==> delta_from(cells, pair, raw)->Ok_0.bids.len() == 1 && delta_from(
            cells,
            pair,
            raw,
        )->Ok_0.asks.len() == 0,
        cells[4] != "BID"@ ==> delta_from(cells, pair, raw)->Ok_0.asks.len() == 1 && delta_from(
            cells,
            pair,
            raw,
        )->Ok_0.bids.len() == 0,
{
}

/// Every book read from a frame is a snapshot exactly when the frame starts
/// as one, and the asks of a snapshot ascend in price.
pub proof fn snapshot_follows_prefix(msg: Seq<char>, doc: Option<Json>)
    requires
        books_in(msg, doc) is Ok,
    ensures
        forall|i: int|
            0 <= i < books_in(msg, doc)->Ok_0.len() ==> {
                &&& (#[trigger] books_in(msg, doc)->Ok_0[i]).snapshot == is_book_snapshot(msg)
                &&& is_book_snapshot(msg) ==> ascending(books_in(msg, doc)->Ok_0[i].asks)
            },
{
    let books = books_in(msg, doc)->Ok_0;
    if is_book_snapshot(msg) {
        let rows = items_value(doc->0)->0;
        let read = |row: Json| snapshot_of(row);
        lemma_collect_ok(rows, read);
        assert forall|i: int| 0 <= i < books.len() implies (#[trigger] books[i]).snapshot
            && ascending(books[i].asks) by {
            assert(read(rows[i]) == Ok::<OrderBookView, ParseError>(books[i]));
            let cells = rows[i]->Array_0;
            let asks = levels_of(items_at(cells[4], "asks"@)->0, 2)->Ok_0;
            sorted_by_price_is_ascending(asks);
        }
    }
}

fn to_millis(seconds: Option<i64>) -> (r: Option<i64>)
    ensures
        r == millis(seconds),
{
    match seconds {
        Some(s) => s.checked_mul(1000),
        None => None,
    }
}

fn pair_of(symbol: &str) -> (r: Result<String, ParseError>)
    ensures
        pair_outcome(r) == pair_for(symbol@),
{
    normalize_fixed(symbol, "zbg")
}

/// Builds the trade of a row of texts. `pair` is the outcome of normalizing
/// the row's symbol and `raw` the decoded row.
pub fn trade_from_cells(
    cells: &Vec<&str>,
    pair: Result<String, ParseError>,
    raw: serde_json::Value,
) -> (r: Result<TradeMsg, ParseError>)
    ensures
        trade_outcome(r) == trade_from(text_views(cells@), pair_outcome(pair), json_of(raw)),
        r matches Ok(t) ==> t@.consistent(),
{
    let ghost texts = text_views(cells@);
    if cells.len() < 7 {
        return Err(ParseError::MalformedPayload);
    }
    assert(texts[0] == cells@[0]@);
    if !same_text(cells[0], "T") {
        return Err(ParseError::MalformedPayload);
    }
    assert(texts[0] == cells@[0]@ && texts[2] == cells@[2]@ && texts[3] == cells@[3]@ && texts[4]
        == cells@[4]@ && texts[5] == cells@[5]@ && texts[6] == cells@[6]@);
    let timestamp = to_millis(parse_i64(cells[2]));
    let price = parse_decimal(cells[5]);
    let quantity = parse_decimal(cells[6]);
    match (timestamp, price, quantity) {
        (Some(timestamp), Some(price), Some(quantity)) => match pair {
            Ok(p) => Ok(
                TradeMsg {
                    exchange: "zbg".to_owned(),
                    market_type: MarketType::Spot,
                    symbol: cells[3].to_owned(),
                    pair: p,
                    msg_type: MessageType::Trade,
                    timestamp,
                    price,
                    quantity_base: quantity,
                    quantity_quote: price.times(&quantity),
                    quantity_contract: None,
                    side: side_of(cells[4], "ask"),
                    trade_id: crate::text::render_i64(timestamp),
                    raw,
                },
            ),
            Err(e) => Err(e),
        },
        _ => Err(ParseError::MalformedPayload),
    }
}

/// Reads the trade of one decoded row.
pub fn read_trade(row: &serde_json::Value) -> (r: Result<TradeMsg, ParseError>)
    ensures
        r matches Err(e) ==> about_the_frame(e),
        trade_outcome(r) == trade_of(json_of(*row)),
        r matches Ok(t) ==> t@.consistent(),
{
    match read_texts(row) {
        Some(cells) => {
            assert(cells@.len() > 3 ==> text_views(cells@)[3] == cells@[3]@);
            let pair = if cells.len() > 3 {
                pair_of(cells[3])
            } else {
                Err(ParseError::MalformedPayload)
            };
            trade_from_cells(&cells, pair, copy_of(row))
        },
        None => Err(ParseError::MalformedPayload),
    }
}

/// Reads the trades of a frame whose text has been decoded into `doc`.
pub fn trades_from(msg: &str, doc: &serde_json::Value) -> (r: Result<Vec<TradeMsg>, ParseError>)
    ensures
        r matches Err(e) ==> about_the_frame(e),
        trades_outcome(r) == trades_in(msg@, Some(json_of(*doc))),
        r matches Ok(trades) ==> trades_consistent(trades@),
{
    if starts_with(msg, "[[\"T\",") {
        match items_of(doc) {
            Some(rows) => {
                let ghost docs = json_of(*doc)->Array_0;
                let ghost read = |row: Json| trade_of(row);
                let mut out: Vec<TradeMsg> = Vec::new();
                let mut i: usize = 0;
                proof {
                    assert(docs.take(0) =~= Seq::<Json>::empty());
                    assert(trade_views(out@) =~= Seq::<TradeView>::empty());
                }
                while i < rows.len()
                    invariant
                        i <= rows.len(),
                        is_trade_batch(msg@),
                        json_of(*doc) == Json::Array(docs),
                        docs_of(rows@) == docs,
                        read == (|row: Json| trade_of(row)),
                        collect(docs.take(i as int), read) == Ok::<Seq<TradeView>, ParseError>(
                            trade_views(out@),
                        ),
                        trades_consistent(out@),
                    decreases rows.len() - i,
                {
                    proof {
                        lemma_collect_step(docs, read, i as int);
                        assert(docs_of(rows@)[i as int] == json_of(rows@[i as int]));
                    }
                    match read_trade(&rows[i]) {
                        Ok(trade) => {
                            let ghost before = trade_views(out@);
                            out.push(trade);
                            assert(trade_views(out@) =~= before.push(trade@));
                        },
                        Err(e) => {
                            proof {
                                lemma_collect_fails(docs, read, i + 1);
                            }
                            return Err(e);
                        },
                    }
                    i = i + 1;
                }
                proof {
                    assert(docs.take(rows.len() as int) == docs);
                }
                Ok(out)
            },
            None => Err(ParseError::MalformedPayload),
        }
    } else if starts_with(msg, "[\"T\",") {
        match read_trade(doc) {
            Ok(trade) => {
                let mut out: Vec<TradeMsg> = Vec::new();
                out.push(trade);
                assert(trade_views(out@) =~= seq![trade@]);
                Ok(out)
            },
            Err(e) => Err(e),
        }
    } else {
        Err(ParseError::MalformedPayload)
    }
}

/// Reads the trades of a frame. A text that is not JSON, or that has
/// neither trade shape, gives `MalformedPayload`.
pub fn parse_trade(msg: &str) -> (r: Result<Vec<TradeMsg>, ParseError>)
    ensures
        r matches Err(e) ==> about_the_frame(e),
        trades_outcome(r) == trades_in(msg@, json_parse(msg@)),
        r matches Ok(trades) ==> trades_consistent(trades@),
{
    match decode(msg) {
        Ok(doc) => trades_from(msg, &doc),
        Err(_) => Err(ParseError::MalformedPayload),
    }
}

/// Builds the update of a row of texts. `pair` is the outcome of
/// normalizing the row's symbol and `raw` the decoded frame.
pub fn delta_from_cells(
    cells: &Vec<&str>,
    pair: Result<String, ParseError>,
    raw: serde_json::Value,
) -> (r: Result<OrderBookMsg, ParseError>)
    ensures
        book_outcome(r) == delta_from(text_views(cells@), pair_outcome(pair), json_of(raw)),
        r matches Ok(book) ==> levels_consistent(book.asks@) && levels_consistent(book.bids@),
{
    let ghost texts = text_views(cells@);
    if cells.len() < 7 {
        return Err(ParseError::MalformedPayload);
    }
    assert(texts[2] == cells@[2]@ && texts[3] == cells@[3]@ && texts[4] == cells@[4]@ && texts[5]
        == cells@[5]@ && texts[6] == cells@[6]@);
    let timestamp = to_millis(parse_i64(cells[2]));
    let price = parse_decimal(cells[5]);
    let quantity = parse_decimal(cells[6]);
    match (timestamp, price, quantity) {
        (Some(timestamp), Some(price), Some(quantity)) => match pair {
            Ok(p) => {
                let level = Order::spot(price, quantity);
                let mut asks: Vec<Order> = Vec::new();
                let mut bids: Vec<Order> = Vec::new();
                if same_text(cells[4], "BID") {
                    bids.push(level);
                } else {
                    asks.push(level);
                }
                assert(asks@ =~= if texts[4] == "BID"@ {
                    Seq::<Order>::empty()
                } else {
                    seq![level]
                });
                assert(bids@ =~= if texts[4] == "BID"@ {
                    seq![level]
                } else {
                    Seq::<Order>::empty()
                });
                Ok(
                    OrderBookMsg {
                        exchange: "zbg".to_owned(),
                        market_type: MarketType::Spot,
                        symbol: cells[3].to_owned(),
                        pair: p,
                        msg_type: MessageType::L2Event,
                        timestamp,
                        asks,
                        bids,
                        snapshot: false,
                        raw,
                    },
                )
            },
            Err(e) => Err(e),
        },
        _ => Err(ParseError::MalformedPayload),
    }
}

/// Reads the update that a decoded frame holds.
pub fn read_delta(doc: &serde_json::Value) -> (r: Result<OrderBookMsg, ParseError>)
    ensures
        r matches Err(e) ==> about_the_frame(e),
        book_outcome(r) == delta_of(json_of(*doc)),
        r matches Ok(book) ==> !book.snapshot && levels_consistent(book.asks@)
            && levels_consistent(book.bids@),
{
    match read_texts(doc) {
        Some(cells) => {
            assert(cells@.len() > 3 ==> text_views(cells@)[3] == cells@[3]@);
            let pair = if cells.len() > 3 {
                pair_of(cells[3])
            } else {
                Err(ParseError::MalformedPayload)
            };
            delta_from_cells(&cells, pair, copy_of(doc))
        },
        None => Err(ParseError::MalformedPayload),
    }
}

/// Builds the full book of a decoded snapshot row. `pair` is the outcome of
/// normalizing the row's symbol.
pub fn snapshot_from_row(row: &serde_json::Value, pair: Result<String, ParseError>) -> (r: Result<
    OrderBookMsg,
    ParseError,
>)
    ensures
        r matches Err(e) ==> about_the_frame(e) || pair_outcome(pair) == Err::<
            Seq<char>,
            ParseError,
        >(e),
        book_outcome(r) == snapshot_from(json_of(*row), pair_outcome(pair)),
        r matches Ok(book) ==> book.snapshot && ascending(book.asks@) && levels_consistent(
            book.asks@,
        ) && levels_consistent(book.bids@),
{
    let cells = match items_of(row) {
        Some(cells) => cells,
        None => {
            return Err(ParseError::MalformedPayload);
        },
    };
    assert(docs_of(cells@).len() == cells@.len());
    if cells.len() < 6 {
        return Err(ParseError::MalformedPayload);
    }
    assert(docs_of(cells@)[2] == json_of(cells@[2]));
    assert(docs_of(cells@)[3] == json_of(cells@[3]));
    assert(docs_of(cells@)[4] == json_of(cells@[4]));
    assert(docs_of(cells@)[5] == json_of(cells@[5]));
    let symbol = match text_of(&cells[2]) {
        Some(symbol) => symbol,
        None => {
            return Err(ParseError::MalformedPayload);
        },
    };
    let timestamp = to_millis(read_int(&cells[3]));
    let ask_rows = items_field(&cells[4], "asks");
    let bid_rows = items_field(&cells[5], "bids");
    match (timestamp, ask_rows, bid_rows) {
        (Some(timestamp), Some(ask_rows), Some(bid_rows)) => {
            proof {
                lemma_levels_error(docs_of(ask_rows@), 2);
                lemma_levels_error(docs_of(bid_rows@), 2);
            }
            let asks = match read_levels(ask_rows, 2) {
                Ok(asks) => asks,
                Err(e) => {
                    return Err(e);
                },
            };
            let bids = match read_levels(bid_rows, 2) {
                Ok(bids) => bids,
                Err(e) => {
                    return Err(e);
                },
            };
            match pair {
                Ok(p) => Ok(
                    OrderBookMsg {
                        exchange: "zbg".to_owned(),
                        market_type: MarketType::Spot,
                        symbol: symbol.to_owned(),
                        pair: p,
                        msg_type: MessageType::L2Event,
                        timestamp,
                        asks: sort_by_price(asks),
                        bids,
                        snapshot: true,
                        raw: copy_of(row),
                    },
                ),
                Err(e) => Err(e),
            }
        },
        _ => Err(ParseError::MalformedPayload),
    }
}

/// Reads the full book of one decoded snapshot row.
pub fn read_snapshot(row: &serde_json::Value) -> (r: Result<OrderBookMsg, ParseError>)
    ensures
        r matches Err(e) ==> about_the_frame(e),
        book_outcome(r) == snapshot_of(json_of(*row)),
        r matches Ok(book) ==> book.snapshot && ascending(book.asks@) && levels_consistent(
            book.asks@,
        ) && levels_consistent(book.bids@),
{
    let pair = match items_of(row) {
        Some(cells) => {
            assert(docs_of(cells@).len() == cells@.len());
            if cells.len() >= 6 {
                assert(docs_of(cells@)[2] == json_of(cells@[2]));
                match text_of(&cells[2]) {
                    Some(symbol) => pair_of(symbol),
                    None => Err(ParseError::MalformedPayload),
                }
            } else {
                Err(ParseError::MalformedPayload)
            }
        },
        None => Err(ParseError::MalformedPayload),
    };
    snapshot_from_row(row, pair)
}

/// Reads the books of a frame whose text has been decoded into `doc`.
pub fn books_from(msg: &str, doc: &serde_json::Value) -> (r: Result<
    Vec<OrderBookMsg>,
    ParseError,
>)
    ensures
        r matches Err(e) ==> about_the_frame(e),
        books_outcome(r) == books_in(msg@, Some(json_of(*doc))),
        r matches Ok(books) ==> books_well_formed(books@),
        r matches Ok(books) ==> forall|i: int|
            0 <= i < books@.len() ==> (#[trigger] books@[i]).snapshot == is_book_snapshot(msg@),
{
    if starts_with(msg, "[[\"AE\",") {
        match items_of(doc) {
            Some(rows) => {
                let ghost docs = json_of(*doc)->Array_0;
                let ghost read = |row: Json| snapshot_of(row);
                let mut out: Vec<OrderBookMsg> = Vec::new();
                let mut i: usize = 0;
                proof {
                    assert(docs.take(0) =~= Seq::<Json>::empty());
                    assert(book_views(out@) =~= Seq::<OrderBookView>::empty());
                }
                while i < rows.len()
                    invariant
                        i <= rows.len(),
                        is_book_snapshot(msg@),
                        json_of(*doc) == Json::Array(docs),
                        docs_of(rows@) == docs,
                        read == (|row: Json| snapshot_of(row)),
                        collect(docs.take(i as int), read) == Ok::<
                            Seq<OrderBookView>,
                            ParseError,
                        >(book_views(out@)),
                        books_well_formed(out@),
                        forall|k: int| 0 <= k < out@.len() ==> (#[trigger] out@[k]).snapshot,
                    decreases rows.len() - i,
                {
                    proof {
                        lemma_collect_step(docs, read, i as int);
                        assert(docs_of(rows@)[i as int] == json_of(rows@[i as int]));
                    }
                    match read_snapshot(&rows[i]) {
                        Ok(book) => {
                            let ghost before = book_views(out@);
                            let ghost view = book@;
                            out.push(book);
                            assert(book_views(out@) =~= before.push(view));
                        },
                        Err(e) => {
                            proof {
                                lemma_collect_fails(docs, read, i + 1);
                            }
                            return Err(e);
                        },
                    }
                    i = i + 1;
                }
                proof {
                    assert(docs.take(rows.len() as int) == docs);
                }
                Ok(out)
            },
            None => Err(ParseError::MalformedPayload),
        }
    } else {
        match read_delta(doc) {
            Ok(book) => {
                let ghost view = book@;
                let mut out: Vec<OrderBookMsg> = Vec::new();
                out.push(book);
                assert(book_views(out@) =~= seq![view]);
                Ok(out)
            },
            Err(e) => Err(e),
        }
    }
}

/// Reads the books of a frame: full books from a snapshot frame, one
/// single-level book from every other frame. A text that is not JSON, or
/// that has not the shape its prefix announces, gives `MalformedPayload`.
pub fn parse_l2(msg: &str) -> (r: Result<Vec<OrderBookMsg>, ParseError>)
    ensures
        r matches Err(e) ==> about_the_frame(e),
        books_outcome(r) == books_in(msg@, json_parse(msg@)),
        r matches Ok(books) ==> books_well_formed(books@),
        r matches Ok(books) ==> forall|i: int|
            0 <= i < books@.len() ==> (#[trigger] books@[i]).snapshot == is_book_snapshot(msg@),
{
    match decode(msg) {
        Ok(doc) => books_from(msg, &doc),
        Err(_) => Err(ParseError::MalformedPayload),
    }
}

} // verus!
