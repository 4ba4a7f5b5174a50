//! The routing table from exchange, market type and message type to a
//! reader.

use vstd::prelude::*;
use crate::book::books_well_formed;
use crate::exchanges::{huobi, kucoin, zbg};
use crate::json::json_parse;
use crate::message::{
    about_the_frame, books_outcome, trades_consistent, trades_outcome, MarketType, MessageType,
    OrderBookMsg, OrderBookView, ParseError, TradeMsg, TradeView,
};
use crate::pair::lemma_exchanges_differ;
use crate::text::{same_text, string_views};

verus! {

/// The exchanges that have readers.
pub open spec fn known_exchange(exchange: Seq<char>) -> bool {
    exchange == "huobi"@ || exchange == "kucoin"@ || exchange == "zbg"@
}

/// Whether a combination has a reader: trades and level-2 events of the spot
/// markets of the known exchanges.
pub open spec fn has_reader(
    exchange: Seq<char>,
    market_type: MarketType,
    msg_type: MessageType,
) -> bool {
    &&& known_exchange(exchange)
    &&& market_type == MarketType::Spot
    &&& (msg_type == MessageType::Trade || msg_type == MessageType::L2Event)
}

/// Whether a combination has a reader.
pub fn supports(exchange: &str, market_type: MarketType, msg_type: MessageType) -> (r: bool)
    ensures
        r == has_reader(exchange@, market_type, msg_type),
{
    let known = same_text(exchange, "huobi") || same_text(exchange, "kucoin") || same_text(
        exchange,
        "zbg",
    );
    let spot = match market_type {
        MarketType::Spot => true,
        _ => false,
    };
    let read = match msg_type {
        MessageType::Trade => true,
        MessageType::L2Event => true,
        _ => false,
    };
    known && spot && read
}

/// The trades that are read from a frame.
///
/// A combination without a reader gives `UnsupportedMessageType` whatever
/// the frame holds, and a text that is not JSON gives `MalformedPayload`.
/// Otherwise the outcome is that of the exchange's reader; only Huobi's
/// looks at the table of spot quotes.
pub open spec fn trades_of(
    exchange: Seq<char>,
    market_type: MarketType,
    msg: Seq<char>,
    quotes: Seq<Seq<char>>,
) -> Result<Seq<TradeView>, ParseError> {
    if !has_reader(exchange, market_type, MessageType::Trade) {
        Err(ParseError::UnsupportedMessageType)
    } else if json_parse(msg) is None {
        Err(ParseError::MalformedPayload)
    } else if exchange == "zbg"@ {
        zbg::trades_in(msg, json_parse(msg))
    } else if exchange == "kucoin"@ {
        kucoin::trades_in(json_parse(msg))
    } else {
        huobi::trades_in(json_parse(msg), quotes)
    }
}

/// Whether `outcome` is what reading the trades of a frame gives.
pub open spec fn trades_read(
    exchange: Seq<char>,
    market_type: MarketType,
    msg: Seq<char>,
    quotes: Seq<Seq<char>>,
    outcome: Result<Seq<TradeView>, ParseError>,
) -> bool {
    outcome == trades_of(exchange, market_type, msg, quotes)
}

/// The order books that are read from a frame received at `received_at`.
///
/// Errors are as for trades. Only KuCoin's reader looks at the time of
/// receipt: its updates carry no time of their own.
pub open spec fn books_of(
    exchange: Seq<char>,
    market_type: MarketType,
    msg: Seq<char>,
    quotes: Seq<Seq<char>>,
    received_at: i64,
) -> Result<Seq<OrderBookView>, ParseError> {
    if !has_reader(exchange, market_type, MessageType::L2Event) {
        Err(ParseError::UnsupportedMessageType)
    } else if json_parse(msg) is None {
        Err(ParseError::MalformedPayload)
    } else if exchange == "zbg"@ {
        zbg::books_in(msg, json_parse(msg))
    } else if exchange == "kucoin"@ {
        kucoin::books_in(json_parse(msg), received_at)
    } else {
        huobi::books_in(json_parse(msg), quotes)
    }
}

/// Whether `outcome` is what reading the order books of a frame gives.
pub open spec fn books_read(
    exchange: Seq<char>,
    market_type: MarketType,
    msg: Seq<char>,
    quotes: Seq<Seq<char>>,
    received_at: i64,
    outcome: Result<Seq<OrderBookView>, ParseError>,
) -> bool {
    outcome == books_of(exchange, market_type, msg, quotes, received_at)
}

/// Whether a frame is read as a snapshot: only a ZBG frame that starts as
/// one is.
pub open spec fn reads_as_snapshot(exchange: Seq<char>, msg: Seq<char>) -> bool {
    exchange == "zbg"@ && zbg::is_book_snapshot(msg)
}

/// A text that is not JSON is a malformed payload for every reader, of
/// trades and of order books alike.
pub proof fn unreadable_text_is_malformed(
    exchange: Seq<char>,
    market_type: MarketType,
    msg: Seq<char>,
    quotes: Seq<Seq<char>>,
    received_at: i64,
)
    requires
        json_parse(msg) is None,
    ensures
        has_reader(exchange, market_type, MessageType::Trade) ==> trades_of(
            exchange,
            market_type,
            msg,
            quotes,
        ) == Err::<Seq<TradeView>, ParseError>(ParseError::MalformedPayload),
        has_reader(exchange, market_type, MessageType::L2Event) ==> books_of(
            exchange,
            market_type,
            msg,
            quotes,
            received_at,
        ) == Err::<Seq<OrderBookView>, ParseError>(ParseError::MalformedPayload),
{
}

/// What trades are read from a frame depends on the frame and the table of
/// quotes alone: any two outcomes of reading it are equal, whatever was
/// read before.
pub proof fn trades_depend_on_frame_alone(
    exchange: Seq<char>,
    market_type: MarketType,
    msg: Seq<char>,
    quotes: Seq<Seq<char>>,
    first: Result<Seq<TradeView>, ParseError>,
    second: Result<Seq<TradeView>, ParseError>,
)
    requires
        trades_read(exchange, market_type, msg, quotes, first),
        trades_read(exchange, market_type, msg, quotes, second),
    ensures
        first == second,
{
}

/// What books are read from a frame depends on the frame, the table of
/// quotes and the time of receipt alone.
pub proof fn books_depend_on_frame_alone(
    exchange: Seq<char>,
    market_type: MarketType,
    msg: Seq<char>,
    quotes: Seq<Seq<char>>,
    received_at: i64,
    first: Result<Seq<OrderBookView>, ParseError>,
    second: Result<Seq<OrderBookView>, ParseError>,
)
    requires
        books_read(exchange, market_type, msg, quotes, received_at, first),
        books_read(exchange, market_type, msg, quotes, received_at, second),
    ensures
        first == second,
{
}

/// Of ZBG's and Huobi's books not even the time of receipt is of account.
pub proof fn books_are_stamped_by_the_exchange(
    exchange: Seq<char>,
    market_type: MarketType,
    msg: Seq<char>,
    quotes: Seq<Seq<char>>,
    one_time: i64,
    other_time: i64,
)
    requires
        exchange != "kucoin"@,
    ensures
        books_of(exchange, market_type, msg, quotes, one_time) == books_of(
            exchange,
            market_type,
            msg,
            quotes,
            other_time,
        ),
{
}

/// Reads the trades of a frame with the reader of its exchange. `quotes`
/// is the table by which Huobi's spot symbols are split.
///
/// Every trade read has a quote quantity that is exactly price times base
/// quantity.
pub fn parse_trade(
    exchange: &str,
    market_type: MarketType,
    msg: &str,
    quotes: &Vec<String>,
) -> (r: Result<Vec<TradeMsg>, ParseError>)
    ensures
        trades_outcome(r) == trades_of(exchange@, market_type, msg@, string_views(quotes@)),
        r matches Ok(trades) ==> trades_consistent(trades@),
        r matches Err(e) ==> (about_the_frame(e) <==> has_reader(
            exchange@,
            market_type,
            MessageType::Trade,
        )),
{
    proof {
        lemma_exchanges_differ();
    }
    if !supports(exchange, market_type, MessageType::Trade) {
        return Err(ParseError::UnsupportedMessageType);
    }
    if same_text(exchange, "huobi") {
        huobi::parse_trade(msg, quotes)
    } else if same_text(exchange, "kucoin") {
        kucoin::parse_trade(msg)
    } else {
        zbg::parse_trade(msg)
    }
}

/// Reads the order books of a frame with the reader of its exchange.
/// `quotes` is the table by which Huobi's spot symbols are split, and
/// `received_at` the time of receipt, with which KuCoin's updates are
/// stamped.
///
/// Every book read holds consistent levels; a snapshot's asks ascend in
/// price.
pub fn parse_l2(
    exchange: &str,
    market_type: MarketType,
    msg: &str,
    quotes: &Vec<String>,
    received_at: i64,
) -> (r: Result<Vec<OrderBookMsg>, ParseError>)
    ensures
        books_outcome(r) == books_of(
            exchange@,
            market_type,
            msg@,
            string_views(quotes@),
            received_at,
        ),
        r matches Ok(books) ==> books_well_formed(books@),
        r matches Err(e) ==> (about_the_frame(e) <==> has_reader(
            exchange@,
            market_type,
            MessageType::L2Event,
        )),
        r matches Ok(books) ==> forall|i: int|
            0 <= i < books@.len() ==> (#[trigger] books@[i]).snapshot == reads_as_snapshot(
                exchange@,
                msg@,
            ),
{
    proof {
        lemma_exchanges_differ();
    }
    if !supports(exchange, market_type, MessageType::L2Event) {
        return Err(ParseError::UnsupportedMessageType);
    }
    if same_text(exchange, "huobi") {
        huobi::parse_l2(msg, quotes)
    } else if same_text(exchange, "kucoin") {
        kucoin::parse_l2(msg, received_at)
    } else {
        zbg::parse_l2(msg)
    }
}

} // verus!
