//! Which connection a crawl needs.
//!
//! For an exchange, a market type and a list of symbols, the functions of
//! this module name the client to connect with and what to follow on it.
//! Connecting and running the client is left to the caller.

pub mod binance;
pub mod deribit;
pub mod kucoin;

use vstd::prelude::*;
use crate::message::{MarketType, MessageType, ParseError};
use crate::text::{same_text, string_views};

verus! {

/// The clients that a crawl may connect with.
#[derive(Clone, Copy, Debug, PartialEq, Eq, Hash, Structural)]
pub enum Client {
    KuCoinSpot,
    KuCoinSwap,
    BinanceSpot,
    BinanceInverse,
    BinanceLinear,
    BinanceOption,
    Deribit,
}

/// What to follow on a connection.
#[derive(Debug)]
pub enum Feed {
    /// The message type's channel of each symbol the crawl was given, or of
    /// every symbol of the market when it was given none.
    PerSymbol,
    /// These raw channels, on one connection.
    Channels(Vec<String>),
}

/// What a `Feed` holds.
pub enum FeedView {
    PerSymbol,
    Channels(Seq<Seq<char>>),
}

impl View for Feed {
    type V = FeedView;

    open spec fn view(&self) -> FeedView {
        match self {
            Feed::PerSymbol => FeedView::PerSymbol,
            Feed::Channels(channels) => FeedView::Channels(string_views(channels@)),
        }
    }
}

/// The connection that a crawl needs.
#[derive(Debug)]
pub struct CrawlPlan {
    pub client: Client,
    pub msg_type: MessageType,
    pub feed: Feed,
    /// How many subscriptions one connection may carry.
    pub max_subscriptions: usize,
}

/// What a `CrawlPlan` holds.
pub struct PlanView {
    pub client: Client,
    pub msg_type: MessageType,
    pub feed: FeedView,
    pub max_subscriptions: usize,
}

impl View for CrawlPlan {
    type V = PlanView;

    open spec fn view(&self) -> PlanView {
        PlanView {
            client: self.client,
            msg_type: self.msg_type,
            feed: self.feed@,
            max_subscriptions: self.max_subscriptions,
        }
    }
}

/// The view of a planning result.
pub open spec fn plan_outcome(r: Result<CrawlPlan, ParseError>) -> Result<PlanView, ParseError> {
    match r {
        Ok(plan) => Ok(plan@),
        Err(e) => Err(e),
    }
}

/// Whether a crawl was given no symbol.
pub open spec fn none_given(symbols: Option<&Vec<String>>) -> bool {
    match symbols {
        Some(list) => list@.len() == 0,
        None => true,
    }
}

/// The symbols that a crawl was given.
pub open spec fn given(symbols: Option<&Vec<String>>) -> Seq<Seq<char>> {
    match symbols {
        Some(list) => string_views(list@),
        None => Seq::<Seq<char>>::empty(),
    }
}

/// Whether a crawl was given no symbol.
pub fn no_symbols(symbols: Option<&Vec<String>>) -> (r: bool)
    ensures
        r == none_given(symbols),
{
    match symbols {
        Some(list) => list.len() == 0,
        None => true,
    }
}

/// A plan that follows the message type's channel of each symbol.
pub fn per_symbol(client: Client, msg_type: MessageType, max_subscriptions: usize) -> (r: CrawlPlan)
    ensures
        r@ == (PlanView { client, msg_type, feed: FeedView::PerSymbol, max_subscriptions }),
{
    CrawlPlan { client, msg_type, feed: Feed::PerSymbol, max_subscriptions }
}

/// A plan that follows the given raw channels.
pub fn on_channels(
    client: Client,
    msg_type: MessageType,
    channels: Vec<String>,
    max_subscriptions: usize,
) -> (r: CrawlPlan)
    ensures
        r@ == (PlanView {
            client,
            msg_type,
            feed: FeedView::Channels(string_views(channels@)),
            max_subscriptions,
        }),
{
    CrawlPlan { client, msg_type, feed: Feed::Channels(channels), max_subscriptions }
}

/// The view of a plan that may be missing.
pub open spec fn planned_outcome(r: Option<Result<CrawlPlan, ParseError>>) -> Option<
    Result<PlanView, ParseError>,
> {
    match r {
        Some(plan) => Some(plan_outcome(plan)),
        None => None,
    }
}

/// The plan of a crawl by exchange and message type: KuCoin's trades,
/// level-2 and level-3 events and tickers; Binance's trades, level-2
/// events, tickers and funding rates; Deribit's trades. No other
/// combination has a plan here. Where there is one, the market type
/// decides whether it is a connection or a refusal.
pub open spec fn planned(
    exchange: Seq<char>,
    market_type: MarketType,
    msg_type: MessageType,
    symbols: Option<&Vec<String>>,
) -> Option<Result<PlanView, ParseError>> {
    if exchange == "kucoin"@ {
        match msg_type {
            MessageType::Trade => Some(kucoin::plan_of(market_type, msg_type)),
            MessageType::L2Event => Some(kucoin::plan_of(market_type, msg_type)),
            MessageType::L3Event => Some(kucoin::plan_of(market_type, msg_type)),
            MessageType::Ticker => Some(kucoin::plan_of(market_type, msg_type)),
            _ => None,
        }
    } else if exchange == "binance"@ {
        match msg_type {
            MessageType::Trade => Some(binance::trade_plan(market_type, none_given(symbols))),
            MessageType::L2Event => Some(binance::l2_plan(market_type)),
            MessageType::Ticker => Some(binance::ticker_plan(market_type, none_given(symbols))),
            MessageType::FundingRate => Some(binance::funding_plan(market_type, given(symbols))),
            _ => None,
        }
    } else if exchange == "deribit"@ {
        match msg_type {
            MessageType::Trade => Some(deribit::trade_plan(market_type, none_given(symbols))),
            _ => None,
        }
    } else {
        None
    }
}

/// Plans the crawl of an exchange's market for a message type and a list of
/// symbols. `None` where the exchange and message type have no plan here.
pub fn plan_for(
    exchange: &str,
    market_type: MarketType,
    msg_type: MessageType,
    symbols: Option<&Vec<String>>,
) -> (r: Option<Result<CrawlPlan, ParseError>>)
    ensures
        planned_outcome(r) == planned(exchange@, market_type, msg_type, symbols),
{
    if same_text(exchange, "kucoin") {
        match msg_type {
            MessageType::Trade => Some(kucoin::crawl_trade(market_type)),
            MessageType::L2Event => Some(kucoin::crawl_l2_event(market_type)),
            MessageType::L3Event => Some(kucoin::crawl_l3_event(market_type)),
            MessageType::Ticker => Some(kucoin::crawl_ticker(market_type)),
            _ => None,
        }
    } else if same_text(exchange, "binance") {
        match msg_type {
            MessageType::Trade => Some(binance::crawl_trade(market_type, symbols)),
            MessageType::L2Event => Some(binance::crawl_l2_event(market_type)),
            MessageType::Ticker => Some(binance::crawl_ticker(market_type, symbols)),
            MessageType::FundingRate => Some(binance::crawl_funding_rate(market_type, symbols)),
            _ => None,
        }
    } else if same_text(exchange, "deribit") {
        match msg_type {
            MessageType::Trade => Some(deribit::crawl_trade(market_type, symbols)),
            _ => None,
        }
    } else {
        None
    }
}

} // verus!
