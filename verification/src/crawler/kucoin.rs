//! KuCoin: one client for the spot market, one for swaps and futures.

use vstd::prelude::*;
use crate::crawler::{per_symbol, plan_outcome, Client, CrawlPlan, FeedView, PlanView};
use crate::message::{MarketType, MessageType, ParseError};

verus! {

/// A connection carries at most this many subscriptions.
pub const MAX_SUBSCRIPTIONS_PER_CONNECTION: usize = 300;

/// The client of a market type, if KuCoin has that market.
pub open spec fn client_of(market_type: MarketType) -> Option<Client> {
    match market_type {
        MarketType::Spot => Some(Client::KuCoinSpot),
        MarketType::InverseSwap => Some(Client::KuCoinSwap),
        MarketType::LinearSwap => Some(Client::KuCoinSwap),
        MarketType::InverseFuture => Some(Client::KuCoinSwap),
        _ => None,
    }
}

/// The plan of a crawl: the message type's channel of each symbol on the
/// market's client; a market that KuCoin does not have is refused.
pub open spec fn plan_of(market_type: MarketType, msg_type: MessageType) -> Result<
    PlanView,
    ParseError,
> {
    match client_of(market_type) {
        Some(client) => Ok(
            PlanView {
                client,
                msg_type,
                feed: FeedView::PerSymbol,
                max_subscriptions: MAX_SUBSCRIPTIONS_PER_CONNECTION,
            },
        ),
        None => Err(ParseError::UnsupportedMessageType),
    }
}

fn plan(market_type: MarketType, msg_type: MessageType) -> (r: Result<CrawlPlan, ParseError>)
    ensures
        plan_outcome(r) == plan_of(market_type, msg_type),
{
    match market_type {
        MarketType::Spot => Ok(
            per_symbol(Client::KuCoinSpot, msg_type, MAX_SUBSCRIPTIONS_PER_CONNECTION),
        ),
        MarketType::InverseSwap | MarketType::LinearSwap | MarketType::InverseFuture => Ok(
            per_symbol(Client::KuCoinSwap, msg_type, MAX_SUBSCRIPTIONS_PER_CONNECTION),
        ),
        _ => Err(ParseError::UnsupportedMessageType),
    }
}

/// Plans a trade crawl.
pub fn crawl_trade(market_type: MarketType) -> (r: Result<CrawlPlan, ParseError>)
    ensures
        plan_outcome(r) == plan_of(market_type, MessageType::Trade),
{
    plan(market_type, MessageType::Trade)
}

/// Plans a level-2 crawl.
pub fn crawl_l2_event(market_type: MarketType) -> (r: Result<CrawlPlan, ParseError>)
    ensures
        plan_outcome(r) == plan_of(market_type, MessageType::L2Event),
{
    plan(market_type, MessageType::L2Event)
}

/// Plans a level-3 crawl.
pub fn crawl_l3_event(market_type: MarketType) -> (r: Result<CrawlPlan, ParseError>)
    ensures
        plan_outcome(r) == plan_of(market_type, MessageType::L3Event),
{
    plan(market_type, MessageType::L3Event)
}

/// Plans a ticker crawl.
pub fn crawl_ticker(market_type: MarketType) -> (r: Result<CrawlPlan, ParseError>)
    ensures
        plan_outcome(r) == plan_of(market_type, MessageType::Ticker),
{
    plan(market_type, MessageType::Ticker)
}

} // verus!
