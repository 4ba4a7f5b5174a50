//! Binance: one client per product line; whole-market channels for tickers
//! and mark prices.

use vstd::prelude::*;
use vstd::string::StringExecFns;
use crate::crawler::{
    given, no_symbols, none_given, on_channels, per_symbol, plan_outcome, Client, CrawlPlan,
    FeedView, PlanView,
};
use crate::message::{MarketType, MessageType, ParseError};
use crate::text::string_views;

verus! {

/// A connection carries at most this many streams.
pub const MAX_SUBSCRIPTIONS_PER_CONNECTION: usize = 200;

/// The lower-case form of a text.
pub uninterp spec fn lowercase_of(text: Seq<char>) -> Seq<char>;

/// `str::to_lowercase`: the lower-case form of a text.
#[verifier::external_body]
fn lowercase(text: &str) -> (r: String)
    ensures
        r@ == lowercase_of(text@),
{
    text.to_lowercase()
}

/// The client of the spot, inverse and linear product lines.
pub open spec fn line_client(market_type: MarketType) -> Option<Client> {
    match market_type {
        MarketType::Spot => Some(Client::BinanceSpot),
        MarketType::InverseFuture => Some(Client::BinanceInverse),
        MarketType::InverseSwap => Some(Client::BinanceInverse),
        MarketType::LinearFuture => Some(Client::BinanceLinear),
        MarketType::LinearSwap => Some(Client::BinanceLinear),
        _ => None,
    }
}

/// The client of a market type, options included.
pub open spec fn client_of(market_type: MarketType) -> Option<Client> {
    match market_type {
        MarketType::EuropeanOption => Some(Client::BinanceOption),
        _ => line_client(market_type),
    }
}

/// A plan with Binance's limit on subscriptions.
pub open spec fn plan_view(client: Client, msg_type: MessageType, feed: FeedView) -> PlanView {
    PlanView { client, msg_type, feed, max_subscriptions: MAX_SUBSCRIPTIONS_PER_CONNECTION }
}

/// The plan of a trade crawl: the trade channel of each symbol on the
/// market's client; for options without symbols, the two channels that
/// carry every call and every put.
pub open spec fn trade_plan(market_type: MarketType, none_given: bool) -> Result<
    PlanView,
    ParseError,
> {
    match client_of(market_type) {
        Some(client) => Ok(
            plan_view(
                client,
                MessageType::Trade,
                if market_type == MarketType::EuropeanOption && none_given {
                    FeedView::Channels(seq!["BTCUSDT_C@TRADE_ALL"@, "BTCUSDT_P@TRADE_ALL"@])
                } else {
                    FeedView::PerSymbol
                },
            ),
        ),
        None => Err(ParseError::UnsupportedMessageType),
    }
}

/// The plan of a level-2 crawl: the order-book channel of each symbol on the
/// market's client.
pub open spec fn l2_plan(market_type: MarketType) -> Result<PlanView, ParseError> {
    match client_of(market_type) {
        Some(client) => Ok(plan_view(client, MessageType::L2Event, FeedView::PerSymbol)),
        None => Err(ParseError::UnsupportedMessageType),
    }
}

/// The plan of a ticker crawl: without symbols the channel of all tickers,
/// with symbols the ticker channel of each; options have no tickers.
pub open spec fn ticker_plan(market_type: MarketType, none_given: bool) -> Result<
    PlanView,
    ParseError,
> {
    match line_client(market_type) {
        Some(client) => Ok(
            plan_view(
                client,
                MessageType::Ticker,
                if none_given {
                    FeedView::Channels(seq!["!ticker@arr"@])
                } else {
                    FeedView::PerSymbol
                },
            ),
        ),
        None => Err(ParseError::UnsupportedMessageType),
    }
}

/// The mark-price channel of a symbol: its lower-case form and
/// `@markPrice`.
pub open spec fn mark_price_of(lowered: Seq<char>) -> Seq<char> {
    lowered + "@markPrice"@
}

/// The channels of a funding-rate crawl: without symbols the channel of all
/// mark prices, with symbols the mark-price channel of each.
pub open spec fn funding_channels(symbols: Seq<Seq<char>>) -> Seq<Seq<char>> {
    if symbols.len() == 0 {
        seq!["!markPrice@arr"@]
    } else {
        Seq::new(symbols.len(), |i: int| mark_price_of(lowercase_of(symbols[i])))
    }
}

/// The plan of a funding-rate crawl; only swaps have funding rates.
pub open spec fn funding_plan(market_type: MarketType, symbols: Seq<Seq<char>>) -> Result<
    PlanView,
    ParseError,
> {
    match market_type {
        MarketType::InverseSwap => Ok(
            plan_view(
                Client::BinanceInverse,
                MessageType::FundingRate,
                FeedView::Channels(funding_channels(symbols)),
            ),
        ),
        MarketType::LinearSwap => Ok(
            plan_view(
                Client::BinanceLinear,
                MessageType::FundingRate,
                FeedView::Channels(funding_channels(symbols)),
            ),
        ),
        _ => Err(ParseError::UnsupportedMessageType),
    }
}

fn line_client_of(market_type: MarketType) -> (r: Option<Client>)
    ensures
        r == line_client(market_type),
{
    match market_type {
        MarketType::Spot => Some(Client::BinanceSpot),
        MarketType::InverseFuture | MarketType::InverseSwap => Some(Client::BinanceInverse),
        MarketType::LinearFuture | MarketType::LinearSwap => Some(Client::BinanceLinear),
        _ => None,
    }
}

fn any_client_of(market_type: MarketType) -> (r: Option<Client>)
    ensures
        r == client_of(market_type),
{
    match market_type {
        MarketType::EuropeanOption => Some(Client::BinanceOption),
        _ => line_client_of(market_type),
    }
}

fn single(channel: &str) -> (r: Vec<String>)
    ensures
        string_views(r@) == seq![channel@],
{
    let mut channels: Vec<String> = Vec::new();
    channels.push(channel.to_owned());
    assert(string_views(channels@) =~= seq![channel@]);
    channels
}

/// Plans a trade crawl.
pub fn crawl_trade(market_type: MarketType, symbols: Option<&Vec<String>>) -> (r: Result<
    CrawlPlan,
    ParseError,
>)
    ensures
        plan_outcome(r) == trade_plan(market_type, none_given(symbols)),
{
    match any_client_of(market_type) {
        Some(client) => {
            let all_options = match market_type {
                MarketType::EuropeanOption => no_symbols(symbols),
                _ => false,
            };
            if all_options {
                let mut channels: Vec<String> = Vec::new();
                channels.push("BTCUSDT_C@TRADE_ALL".to_owned());
                channels.push("BTCUSDT_P@TRADE_ALL".to_owned());
                assert(string_views(channels@) =~= seq![
                    "BTCUSDT_C@TRADE_ALL"@,
                    "BTCUSDT_P@TRADE_ALL"@,
                ]);
                Ok(
                    on_channels(
                        client,
                        MessageType::Trade,
                        channels,
                        MAX_SUBSCRIPTIONS_PER_CONNECTION,
                    ),
                )
            } else {
                Ok(per_symbol(client, MessageType::Trade, MAX_SUBSCRIPTIONS_PER_CONNECTION))
            }
        },
        None => Err(ParseError::UnsupportedMessageType),
    }
}

/// Plans a level-2 crawl.
pub fn crawl_l2_event(market_type: MarketType) -> (r: Result<CrawlPlan, ParseError>)
    ensures
        plan_outcome(r) == l2_plan(market_type),
{
    match any_client_of(market_type) {
        Some(client) => Ok(
            per_symbol(client, MessageType::L2Event, MAX_SUBSCRIPTIONS_PER_CONNECTION),
        ),
        None => Err(ParseError::UnsupportedMessageType),
    }
}

/// Plans a ticker crawl.
pub fn crawl_ticker(market_type: MarketType, symbols: Option<&Vec<String>>) -> (r: Result<
    CrawlPlan,
    ParseError,
>)
    ensures
        plan_outcome(r) == ticker_plan(market_type, none_given(symbols)),
{
    match line_client_of(market_type) {
        Some(client) => {
            if no_symbols(symbols) {
                Ok(
                    on_channels(
                        client,
                        MessageType::Ticker,
                        single("!ticker@arr"),
                        MAX_SUBSCRIPTIONS_PER_CONNECTION,
                    ),
                )
            } else {
                Ok(per_symbol(client, MessageType::Ticker, MAX_SUBSCRIPTIONS_PER_CONNECTION))
            }
        },
        None => Err(ParseError::UnsupportedMessageType),
    }
}

/// The mark-price channel for the lower-case form of a symbol.
pub fn mark_price_channel(lowered: &str) -> (r: String)
    ensures
        r@ == mark_price_of(lowered@),
{
    let mut channel = lowered.to_owned();
    channel.append("@markPrice");
    channel
}

fn funding_channels_of(symbols: Option<&Vec<String>>) -> (r: Vec<String>)
    ensures
        string_views(r@) == funding_channels(given(symbols)),
{
    match symbols {
        Some(list) => {
            if list.len() == 0 {
                return single("!markPrice@arr");
            }
            let ghost target = funding_channels(string_views(list@));
            let mut channels: Vec<String> = Vec::new();
            let mut i: usize = 0;
            assert(string_views(channels@) =~= target.take(0));
            while i < list.len()
                invariant
                    i <= list.len(),
                    list.len() > 0,
                    target == funding_channels(string_views(list@)),
                    string_views(channels@) == target.take(i as int),
                decreases list.len() - i,
            {
                let lowered = lowercase(list[i].as_str());
                let channel = mark_price_channel(lowered.as_str());
                let ghost before = string_views(channels@);
                proof {
                    assert(string_views(list@)[i as int] == list@[i as int]@);
                    assert(target[i as int] == channel@);
                    assert(target.take(i + 1) =~= target.take(i as int).push(target[i as int]));
                }
                channels.push(channel);
                assert(string_views(channels@) =~= before.push(target[i as int]));
                i = i + 1;
            }
            assert(target.take(list.len() as int) =~= target);
            channels
        },
        None => single("!markPrice@arr"),
    }
}

/// Plans a funding-rate crawl.
pub fn crawl_funding_rate(market_type: MarketType, symbols: Option<&Vec<String>>) -> (r: Result<
    CrawlPlan,
    ParseError,
>)
    ensures
        plan_outcome(r) == funding_plan(market_type, given(symbols)),
{
    let client = match market_type {
        MarketType::InverseSwap => Client::BinanceInverse,
        MarketType::LinearSwap => Client::BinanceLinear,
        _ => {
            return Err(ParseError::UnsupportedMessageType);
        },
    };
    Ok(
        on_channels(
            client,
            MessageType::FundingRate,
            funding_channels_of(symbols),
            MAX_SUBSCRIPTIONS_PER_CONNECTION,
        ),
    )
}

} // verus!
