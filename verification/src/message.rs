//! The normalized messages and the vocabulary they share.

use vstd::prelude::*;
use crate::decimal::{times_is_exact, Decimal};
use crate::json::{json_of, Json};
use crate::text::same_text;

verus! {

/// Whether an error tells of the frame itself: its shape or its symbol.
/// The third error tells of the combination, before any frame is looked at.
pub open spec fn about_the_frame(e: ParseError) -> bool {
    e == ParseError::MalformedPayload || e == ParseError::UnrecognizedSymbol
}

/// The kind of market an instrument trades in.
#[derive(Clone, Copy, Debug, PartialEq, Eq, Hash, Structural)]
pub enum MarketType {
    Unknown,
    Spot,
    LinearFuture,
    InverseFuture,
    LinearSwap,
    InverseSwap,
    AmericanOption,
    EuropeanOption,
    QuantoFuture,
    QuantoSwap,
    Move,
    BVOL,
}

/// The kind of message a feed carries.
#[derive(Clone, Copy, Debug, PartialEq, Eq, Hash, Structural)]
pub enum MessageType {
    Trade,
    L2Event,
    L2Snapshot,
    L3Event,
    L3Snapshot,
    Ticker,
    FundingRate,
}

/// Which side took liquidity.
#[derive(Clone, Copy, Debug, PartialEq, Eq, Hash, Structural)]
pub enum TradeSide {
    Buy,
    Sell,
}

/// Why a frame could not be turned into messages.
#[derive(Clone, Copy, Debug, PartialEq, Eq, Hash, Structural)]
pub enum ParseError {
    /// The symbol on the wire is not one the exchange's grammar knows.
    UnrecognizedSymbol,
    /// The payload does not have the shape of its declared message type.
    MalformedPayload,
    /// The exchange and market type have no reader for this message type.
    UnsupportedMessageType,
}

impl MarketType {
    /// The name used in paths and keys.
    pub open spec fn spec_name(self) -> Seq<char> {
        match self {
            MarketType::Unknown => "unknown"@,
            MarketType::Spot => "spot"@,
            MarketType::LinearFuture => "linear_future"@,
            MarketType::InverseFuture => "inverse_future"@,
            MarketType::LinearSwap => "linear_swap"@,
            MarketType::InverseSwap => "inverse_swap"@,
            MarketType::AmericanOption => "american_option"@,
            MarketType::EuropeanOption => "european_option"@,
            MarketType::QuantoFuture => "quanto_future"@,
            MarketType::QuantoSwap => "quanto_swap"@,
            MarketType::Move => "move"@,
            MarketType::BVOL => "bvol"@,
        }
    }

    /// The name used in paths, keys and channel names.
    pub fn name(&self) -> (r: &'static str)
        ensures
            r@ == self.spec_name(),
    {
        match self {
            MarketType::Unknown => "unknown",
            MarketType::Spot => "spot",
            MarketType::LinearFuture => "linear_future",
            MarketType::InverseFuture => "inverse_future",
            MarketType::LinearSwap => "linear_swap",
            MarketType::InverseSwap => "inverse_swap",
            MarketType::AmericanOption => "american_option",
            MarketType::EuropeanOption => "european_option",
            MarketType::QuantoFuture => "quanto_future",
            MarketType::QuantoSwap => "quanto_swap",
            MarketType::Move => "move",
            MarketType::BVOL => "bvol",
        }
    }

    /// The market type with the given name, if there is one.
    pub open spec fn spec_from_name(name: Seq<char>) -> Option<MarketType> {
        if name == "unknown"@ {
            Some(MarketType::Unknown)
        } else if name == "spot"@ {
            Some(MarketType::Spot)
        } else if name == "linear_future"@ {
            Some(MarketType::LinearFuture)
        } else if name == "inverse_future"@ {
            Some(MarketType::InverseFuture)
        } else if name == "linear_swap"@ {
            Some(MarketType::LinearSwap)
        } else if name == "inverse_swap"@ {
            Some(MarketType::InverseSwap)
        } else if name == "american_option"@ {
            Some(MarketType::AmericanOption)
        } else if name == "european_option"@ {
            Some(MarketType::EuropeanOption)
        } else if name == "quanto_future"@ {
            Some(MarketType::QuantoFuture)
        } else if name == "quanto_swap"@ {
            Some(MarketType::QuantoSwap)
        } else if name == "move"@ {
            Some(MarketType::Move)
        } else if name == "bvol"@ {
            Some(MarketType::BVOL)
        } else {
            None
        }
    }

    /// The value with the given name, if there is one.
    pub fn from_name(name: &str) -> (r: Option<MarketType>)
        ensures
            r == Self::spec_from_name(name@),
    {
        if same_text(name, "unknown") {
            Some(MarketType::Unknown)
        } else if same_text(name, "spot") {
            Some(MarketType::Spot)
        } else if same_text(name, "linear_future") {
            Some(MarketType::LinearFuture)
        } else if same_text(name, "inverse_future") {
            Some(MarketType::InverseFuture)
        } else if same_text(name, "linear_swap") {
            Some(MarketType::LinearSwap)
        } else if same_text(name, "inverse_swap") {
            Some(MarketType::InverseSwap)
        } else if same_text(name, "american_option") {
            Some(MarketType::AmericanOption)
        } else if same_text(name, "european_option") {
            Some(MarketType::EuropeanOption)
        } else if same_text(name, "quanto_future") {
            Some(MarketType::QuantoFuture)
        } else if same_text(name, "quanto_swap") {
            Some(MarketType::QuantoSwap)
        } else if same_text(name, "move") {
            Some(MarketType::Move)
        } else if same_text(name, "bvol") {
            Some(MarketType::BVOL)
        } else {
            None
        }
    }
}

impl MessageType {
    /// The name used in paths, keys and channel names.
    pub open spec fn spec_name(self) -> Seq<char> {
        match self {
            MessageType::Trade => "trade"@,
            MessageType::L2Event => "l2_event"@,
            MessageType::L2Snapshot => "l2_snapshot"@,
            MessageType::L3Event => "l3_event"@,
            MessageType::L3Snapshot => "l3_snapshot"@,
            MessageType::Ticker => "ticker"@,
            MessageType::FundingRate => "funding_rate"@,
        }
    }

    /// The name used in paths, keys and channel names.
    pub fn name(&self) -> (r: &'static str)
        ensures
            r@ == self.spec_name(),
    {
        match self {
            MessageType::Trade => "trade",
            MessageType::L2Event => "l2_event",
            MessageType::L2Snapshot => "l2_snapshot",
            MessageType::L3Event => "l3_event",
            MessageType::L3Snapshot => "l3_snapshot",
            MessageType::Ticker => "ticker",
            MessageType::FundingRate => "funding_rate",
        }
    }

    /// The message type with the given name, if there is one.
    pub open spec fn spec_from_name(name: Seq<char>) -> Option<MessageType> {
        if name == "trade"@ {
            Some(MessageType::Trade)
        } else if name == "l2_event"@ {
            Some(MessageType::L2Event)
        } else if name == "l2_snapshot"@ {
            Some(MessageType::L2Snapshot)
        } else if name == "l3_event"@ {
            Some(MessageType::L3Event)
        } else if name == "l3_snapshot"@ {
            Some(MessageType::L3Snapshot)
        } else if name == "ticker"@ {
            Some(MessageType::Ticker)
        } else if name == "funding_rate"@ {
            Some(MessageType::FundingRate)
        } else {
            None
        }
    }

    /// The value with the given name, if there is one.
    pub fn from_name(name: &str) -> (r: Option<MessageType>)
        ensures
            r == Self::spec_from_name(name@),
    {
        if same_text(name, "trade") {
            Some(MessageType::Trade)
        } else if same_text(name, "l2_event") {
            Some(MessageType::L2Event)
        } else if same_text(name, "l2_snapshot") {
            Some(MessageType::L2Snapshot)
        } else if same_text(name, "l3_event") {
            Some(MessageType::L3Event)
        } else if same_text(name, "l3_snapshot") {
            Some(MessageType::L3Snapshot)
        } else if same_text(name, "ticker") {
            Some(MessageType::Ticker)
        } else if same_text(name, "funding_rate") {
            Some(MessageType::FundingRate)
        } else {
            None
        }
    }
}

/// In a consistent trade without a contract quantity, the quote quantity is
/// price times base quantity as numbers.
pub proof fn quote_is_price_times_base(trade: TradeView)
    requires
        trade.consistent(),
        trade.quantity_contract is None,
    ensures
        trade.quantity_quote.is_product_of(trade.price, trade.quantity_base),
        trade.quantity_quote.mantissa == trade.price.mantissa * trade.quantity_base.mantissa,
        trade.quantity_quote.scale == trade.price.scale + trade.quantity_base.scale,
{
    times_is_exact(trade.price, trade.quantity_base);
}

/// In a consistent level, the quote quantity is price times base quantity
/// as numbers.
pub proof fn level_quote_is_price_times_base(level: Order)
    requires
        level.consistent(),
    ensures
        level.quantity_quote.is_product_of(level.price, level.quantity_base),
{
    times_is_exact(level.price, level.quantity_base);
}

/// The exchange's sell token, and no other, resolves to `Sell`; every other
/// token resolves to `Buy`.
pub proof fn sell_only_for_sell_token(token: Seq<char>, sell_token: Seq<char>)
    ensures
        side_for(token, sell_token) == TradeSide::Sell <==> token == sell_token,
        side_for(token, sell_token) == TradeSide::Buy <==> token != sell_token,
{
}

/// The side for a wire token: the exchange's sell token gives `Sell`, every
/// other token gives `Buy`.
pub open spec fn side_for(token: Seq<char>, sell_token: Seq<char>) -> TradeSide {
    if token == sell_token {
        TradeSide::Sell
    } else {
        TradeSide::Buy
    }
}

/// The side for a wire token.
pub fn side_of(token: &str, sell_token: &str) -> (r: TradeSide)
    ensures
        r == side_for(token@, sell_token@),
{
    if same_text(token, sell_token) {
        TradeSide::Sell
    } else {
        TradeSide::Buy
    }
}

/// One frame as the transport delivers it: the exchange's text, tagged with
/// where it came from and when it was received, in milliseconds since the
/// Unix epoch.
pub struct RawFrame {
    pub exchange: String,
    pub market_type: MarketType,
    pub msg_type: MessageType,
    pub received_at: i64,
    pub json: String,
}

/// What a `RawFrame` holds.
pub struct RawFrameView {
    pub exchange: Seq<char>,
    pub market_type: MarketType,
    pub msg_type: MessageType,
    pub received_at: i64,
    pub json: Seq<char>,
}

impl View for RawFrame {
    type V = RawFrameView;

    open spec fn view(&self) -> RawFrameView {
        RawFrameView {
            exchange: self.exchange@,
            market_type: self.market_type,
            msg_type: self.msg_type,
            received_at: self.received_at,
            json: self.json@,
        }
    }
}

impl RawFrame {
    /// Tags a text with its origin and time of receipt.
    pub fn new(
        exchange: String,
        market_type: MarketType,
        msg_type: MessageType,
        received_at: i64,
        json: String,
    ) -> (r: RawFrame)
        ensures
            r@ == (RawFrameView {
                exchange: exchange@,
                market_type,
                msg_type,
                received_at,
                json: json@,
            }),
    {
        RawFrame { exchange, market_type, msg_type, received_at, json }
    }
}

/// One price level of an order book.
#[derive(Clone, Copy, Debug, PartialEq, Eq, Structural)]
pub struct Order {
    pub price: Decimal,
    pub quantity_base: Decimal,
    pub quantity_quote: Decimal,
    pub quantity_contract: Option<Decimal>,
}

impl Order {
    /// The level with the given price and quantity on a market without
    /// contracts.
    pub open spec fn spec_spot(price: Decimal, quantity_base: Decimal) -> Order {
        Order {
            price,
            quantity_base,
            quantity_quote: price.spec_times(quantity_base),
            quantity_contract: None,
        }
    }

    /// Whether the fields agree with each other: price and base quantity in
    /// wire range and the quote quantity their exact product.
    pub open spec fn consistent(self) -> bool {
        &&& self.price.is_wire()
        &&& self.quantity_base.is_wire()
        &&& self.quantity_quote == self.price.spec_times(self.quantity_base)
    }

    /// The level with the given price and quantity on a market without
    /// contracts.
    pub fn spot(price: Decimal, quantity_base: Decimal) -> (r: Order)
        requires
            price.is_wire(),
            quantity_base.is_wire(),
        ensures
            r == Self::spec_spot(price, quantity_base),
            r.consistent(),
    {
        Order {
            price,
            quantity_base,
            quantity_quote: price.times(&quantity_base),
            quantity_contract: None,
        }
    }
}

/// A normalized trade.
///
/// `timestamp` is the exchange's event time in milliseconds. `raw` is the
/// decoded payload the trade was read from.
pub struct TradeMsg {
    pub exchange: String,
    pub market_type: MarketType,
    pub symbol: String,
    pub pair: String,
    pub msg_type: MessageType,
    pub timestamp: i64,
    pub price: Decimal,
    pub quantity_base: Decimal,
    pub quantity_quote: Decimal,
    pub quantity_contract: Option<Decimal>,
    pub side: TradeSide,
    pub trade_id: String,
    pub raw: serde_json::Value,
}

/// What a `TradeMsg` holds.
pub struct TradeView {
    pub exchange: Seq<char>,
    pub market_type: MarketType,
    pub symbol: Seq<char>,
    pub pair: Seq<char>,
    pub msg_type: MessageType,
    pub timestamp: i64,
    pub price: Decimal,
    pub quantity_base: Decimal,
    pub quantity_quote: Decimal,
    pub quantity_contract: Option<Decimal>,
    pub side: TradeSide,
    pub trade_id: Seq<char>,
    pub raw: Json,
}

impl View for TradeMsg {
    type V = TradeView;

    open spec fn view(&self) -> TradeView {
        TradeView {
            exchange: self.exchange@,
            market_type: self.market_type,
            symbol: self.symbol@,
            pair: self.pair@,
            msg_type: self.msg_type,
            timestamp: self.timestamp,
            price: self.price,
            quantity_base: self.quantity_base,
            quantity_quote: self.quantity_quote,
            quantity_contract: self.quantity_contract,
            side: self.side,
            trade_id: self.trade_id@,
            raw: json_of(self.raw),
        }
    }
}

impl TradeView {
    /// Whether the quantities agree: price and base quantity in wire range
    /// and, without a contract quantity, the quote quantity their exact
    /// product.
    pub open spec fn consistent(self) -> bool {
        &&& self.price.is_wire()
        &&& self.quantity_base.is_wire()
        &&& self.quantity_contract is None ==> self.quantity_quote == self.price.spec_times(
            self.quantity_base,
        )
    }
}

/// A normalized order-book message.
///
/// `timestamp` is the exchange's event time in milliseconds. Where the
/// exchange sends none (KuCoin's updates) it is the frame's time of
/// receipt: an approximation, by which updates cannot be ordered as the
/// exchange made them. `snapshot` tells a full book from an incremental update. In an
/// update a level with base quantity zero removes that price. `raw` is the
/// decoded payload the book was read from.
pub struct OrderBookMsg {
    pub exchange: String,
    pub market_type: MarketType,
    pub symbol: String,
    pub pair: String,
    pub msg_type: MessageType,
    pub timestamp: i64,
    pub asks: Vec<Order>,
    pub bids: Vec<Order>,
    pub snapshot: bool,
    pub raw: serde_json::Value,
}

/// What an `OrderBookMsg` holds.
pub struct OrderBookView {
    pub exchange: Seq<char>,
    pub market_type: MarketType,
    pub symbol: Seq<char>,
    pub pair: Seq<char>,
    pub msg_type: MessageType,
    pub timestamp: i64,
    pub asks: Seq<Order>,
    pub bids: Seq<Order>,
    pub snapshot: bool,
    pub raw: Json,
}

impl View for OrderBookMsg {
    type V = OrderBookView;

    open spec fn view(&self) -> OrderBookView {
        OrderBookView {
            exchange: self.exchange@,
            market_type: self.market_type,
            symbol: self.symbol@,
            pair: self.pair@,
            msg_type: self.msg_type,
            timestamp: self.timestamp,
            asks: self.asks@,
            bids: self.bids@,
            snapshot: self.snapshot,
            raw: json_of(self.raw),
        }
    }
}

/// The views of a list of trades.
pub open spec fn trade_views(trades: Seq<TradeMsg>) -> Seq<TradeView> {
    Seq::new(trades.len(), |i: int| trades[i]@)
}

/// The views of a list of order-book messages.
pub open spec fn book_views(books: Seq<OrderBookMsg>) -> Seq<OrderBookView> {
    Seq::new(books.len(), |i: int| books[i]@)
}

/// The view of a reader's result on trades.
pub open spec fn trades_outcome(r: Result<Vec<TradeMsg>, ParseError>) -> Result<
    Seq<TradeView>,
    ParseError,
> {
    match r {
        Ok(trades) => Ok(trade_views(trades@)),
        Err(e) => Err(e),
    }
}

/// The view of a reader's result on order books.
pub open spec fn books_outcome(r: Result<Vec<OrderBookMsg>, ParseError>) -> Result<
    Seq<OrderBookView>,
    ParseError,
> {
    match r {
        Ok(books) => Ok(book_views(books@)),
        Err(e) => Err(e),
    }
}

/// The view of one trade's result.
pub open spec fn trade_outcome(r: Result<TradeMsg, ParseError>) -> Result<TradeView, ParseError> {
    match r {
        Ok(t) => Ok(t@),
        Err(e) => Err(e),
    }
}

/// The view of one book's result.
pub open spec fn book_outcome(r: Result<OrderBookMsg, ParseError>) -> Result<
    OrderBookView,
    ParseError,
> {
    match r {
        Ok(b) => Ok(b@),
        Err(e) => Err(e),
    }
}

/// Whether every trade in the list has consistent quantities.
pub open spec fn trades_consistent(trades: Seq<TradeMsg>) -> bool {
    forall|i: int| 0 <= i < trades.len() ==> (#[trigger] trades[i])@.consistent()
}

} // verus!
