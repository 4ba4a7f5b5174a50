//! Deribit: one client; trades of a whole market on catch-all channels.

use vstd::prelude::*;
use crate::crawler::{
    no_symbols, none_given, on_channels, per_symbol, plan_outcome, Client, CrawlPlan, FeedView,
    PlanView,
};
use crate::message::{MarketType, MessageType, ParseError};

verus! {

/// A connection carries any number of subscriptions.
pub const MAX_SUBSCRIPTIONS_PER_CONNECTION: usize = usize::MAX;

/// The channels that carry every trade of a market.
pub open spec fn trade_channels(market_type: MarketType) -> Option<Seq<Seq<char>>> {
    match market_type {
        MarketType::InverseFuture => Some(seq!["trades.future.any.raw"@]),
        MarketType::InverseSwap => Some(
            seq!["trades.BTC-PERPETUAL.raw"@, "trades.ETH-PERPETUAL.raw"@],
        ),
        MarketType::EuropeanOption => Some(seq!["trades.option.any.raw"@]),
        _ => None,
    }
}

/// The plan of a trade crawl: with symbols, the trade channel of each;
/// without, the catch-all channels of the market, and a refusal for a
/// market that has none.
pub open spec fn trade_plan(market_type: MarketType, none_given: bool) -> Result<
    PlanView,
    ParseError,
> {
    if none_given {
        match trade_channels(market_type) {
            Some(channels) => Ok(
                PlanView {
                    client: Client::Deribit,
                    msg_type: MessageType::Trade,
                    feed: FeedView::Channels(channels),
                    max_subscriptions: MAX_SUBSCRIPTIONS_PER_CONNECTION,
                },
            ),
            None => Err(ParseError::UnsupportedMessageType),
        }
    } else {
        Ok(
            PlanView {
                client: Client::Deribit,
                msg_type: MessageType::Trade,
                feed: FeedView::PerSymbol,
                max_subscriptions: MAX_SUBSCRIPTIONS_PER_CONNECTION,
            },
        )
    }
}

/// Plans a trade crawl.
pub fn crawl_trade(market_type: MarketType, symbols: Option<&Vec<String>>) -> (r: Result<
    CrawlPlan,
    ParseError,
>)
    ensures
        plan_outcome(r) == trade_plan(market_type, none_given(symbols)),
{
    if !no_symbols(symbols) {
        return Ok(
            per_symbol(Client::Deribit, MessageType::Trade, MAX_SUBSCRIPTIONS_PER_CONNECTION),
        );
    }
    let mut channels: Vec<String> = Vec::new();
    match market_type {
        MarketType::InverseFuture => {
            channels.push("trades.future.any.raw".to_owned());
        },
        MarketType::InverseSwap => {
            channels.push("trades.BTC-PERPETUAL.raw".to_owned());
            channels.push("trades.ETH-PERPETUAL.raw".to_owned());
        },
        MarketType::EuropeanOption => {
            channels.push("trades.option.any.raw".to_owned());
        },
        _ => {
            return Err(ParseError::UnsupportedMessageType);
        },
    }
    assert(crate::text::string_views(channels@) =~= trade_channels(market_type)->0);
    Ok(
        on_channels(
            Client::Deribit,
            MessageType::Trade,
            channels,
            MAX_SUBSCRIPTIONS_PER_CONNECTION,
        ),
    )
}

} // verus!
