//! Bybit linear swaps: which raw channels a subscription stands for.
//!
//! The client here keeps the list of channels asked for; sending them over a
//! connection is left to the caller.

use vstd::prelude::*;
use vstd::string::StringExecFns;
use crate::message::ParseError;
use crate::text::{joined, string_views};

verus! {

/// The raw channel of a topic for one pair: `<topic>.<pair>`.
pub open spec fn raw_channel(topic: Seq<char>, pair: Seq<char>) -> Seq<char> {
    topic + "."@ + pair
}

/// The raw channels of a topic for a list of pairs, in the order of the
/// pairs.
pub open spec fn raw_channels(topic: Seq<char>, pairs: Seq<Seq<char>>) -> Seq<Seq<char>> {
    Seq::new(pairs.len(), |i: int| raw_channel(topic, pairs[i]))
}

/// Bybit's name for a candlestick interval given in seconds.
pub open spec fn interval_code(interval: u32) -> Option<Seq<char>> {
    if interval == 60 {
        Some("1"@)
    } else if interval == 180 {
        Some("3"@)
    } else if interval == 300 {
        Some("5"@)
    } else if interval == 900 {
        Some("15"@)
    } else if interval == 1800 {
        Some("30"@)
    } else if interval == 3600 {
        Some("60"@)
    } else if interval == 7200 {
        Some("120"@)
    } else if interval == 14400 {
        Some("240"@)
    } else if interval == 21600 {
        Some("360"@)
    } else if interval == 86400 {
        Some("D"@)
    } else if interval == 604800 {
        Some("W"@)
    } else if interval == 2592000 {
        Some("M"@)
    } else {
        None
    }
}

/// The candlestick channel of a pair: `candle.<code>.<pair>`.
pub open spec fn candlestick_channel(pair: Seq<char>, interval: u32) -> Option<Seq<char>> {
    match interval_code(interval) {
        Some(code) => Some("candle."@ + code + "."@ + pair),
        None => None,
    }
}

/// The candlestick channels of a list of pairs.
pub open spec fn candlestick_channels(pairs: Seq<Seq<char>>, interval: u32) -> Seq<Seq<char>> {
    Seq::new(pairs.len(), |i: int| candlestick_channel(pairs[i], interval)->0)
}

/// Bybit's name for a candlestick interval given in seconds, if it offers
/// that interval.
pub fn code_of_interval(interval: u32) -> (r: Option<&'static str>)
    ensures
        r is Some <==> interval_code(interval) is Some,
        r matches Some(code) ==> interval_code(interval) == Some(code@),
{
    match interval {
        60 => Some("1"),
        180 => Some("3"),
        300 => Some("5"),
        900 => Some("15"),
        1800 => Some("30"),
        3600 => Some("60"),
        7200 => Some("120"),
        14400 => Some("240"),
        21600 => Some("360"),
        86400 => Some("D"),
        604800 => Some("W"),
        2592000 => Some("M"),
        _ => None,
    }
}

/// The candlestick channel of a pair for an interval that Bybit offers.
pub fn to_candlestick_raw_channel(pair: &str, interval: u32) -> (r: String)
    requires
        interval_code(interval) is Some,
    ensures
        Some(r@) == candlestick_channel(pair@, interval),
{
    let code = match code_of_interval(interval) {
        Some(code) => code,
        None => "",
    };
    let mut channel = joined("candle.", code, ".");
    channel.append(pair);
    channel
}

/// The candlestick channel of a pair, or `None` for an interval that Bybit
/// does not offer.
pub fn candlestick_channel_of(pair: &str, interval: u32) -> (r: Option<String>)
    ensures
        r is Some <==> candlestick_channel(pair@, interval) is Some,
        r matches Some(channel) ==> candlestick_channel(pair@, interval) == Some(channel@),
{
    match code_of_interval(interval) {
        Some(_) => Some(to_candlestick_raw_channel(pair, interval)),
        None => None,
    }
}

/// The raw channel of a topic for one pair.
pub fn to_raw_channel(topic: &str, pair: &str) -> (r: String)
    ensures
        r@ == raw_channel(topic@, pair@),
{
    joined(topic, ".", pair)
}

/// A client for Bybit's linear swap market, seen as the list of raw channels
/// it has been asked to follow.
pub struct BybitLinearSwapWSClient {
    channels: Vec<String>,
}

impl View for BybitLinearSwapWSClient {
    type V = Seq<Seq<char>>;

    closed spec fn view(&self) -> Seq<Seq<char>> {
        string_views(self.channels@)
    }
}

impl BybitLinearSwapWSClient {
    /// A client that follows no channel.
    pub fn new() -> (r: Self)
        ensures
            r@ == Seq::<Seq<char>>::empty(),
    {
        let r = BybitLinearSwapWSClient { channels: Vec::new() };
        assert(r@ =~= Seq::<Seq<char>>::empty());
        r
    }

    /// The raw channels followed so far, oldest first.
    pub fn channels(&self) -> (r: &Vec<String>)
        ensures
            string_views(r@) == self@,
    {
        &self.channels
    }

    fn subscribe_topic(&mut self, topic: &str, pairs: &Vec<String>) -> (r: Vec<String>)
        ensures
            string_views(r@) == raw_channels(topic@, string_views(pairs@)),
            final(self)@ == old(self)@ + string_views(r@),
    {
        let mut added: Vec<String> = Vec::new();
        let mut i: usize = 0;
        while i < pairs.len()
            invariant
                i <= pairs.len(),
                string_views(added@) == raw_channels(topic@, string_views(pairs@)).take(i as int),
                self@ == old(self)@ + string_views(added@),
            decreases pairs.len() - i,
        {
            let channel = to_raw_channel(topic, pairs[i].as_str());
            let copy = channel.clone();
            let ghost before = string_views(added@);
            let ghost all_before = self@;
            added.push(channel);
            self.channels.push(copy);
            proof {
                let target = raw_channels(topic@, string_views(pairs@));
                assert(string_views(pairs@)[i as int] == pairs@[i as int]@);
                assert(string_views(added@) =~= before.push(channel@));
                assert(target.take(i + 1) =~= target.take(i as int).push(target[i as int]));
                assert(self@ =~= all_before.push(copy@));
                assert(self@ =~= old(self)@ + string_views(added@));
            }
            i = i + 1;
        }
        proof {
            let target = raw_channels(topic@, string_views(pairs@));
            assert(target.take(pairs.len() as int) =~= target);
        }
        added
    }

    /// Follows the trade channel of each pair; returns the raw channels.
    pub fn subscribe_trade(&mut self, pairs: &Vec<String>) -> (r: Vec<String>)
        ensures
            string_views(r@) == raw_channels("trade"@, string_views(pairs@)),
            final(self)@ == old(self)@ + string_views(r@),
    {
        self.subscribe_topic("trade", pairs)
    }

    /// Follows the best-bid-and-offer channel of each pair; returns the raw
    /// channels.
    pub fn subscribe_bbo(&mut self, pairs: &Vec<String>) -> (r: Vec<String>)
        ensures
            string_views(r@) == raw_channels("orderBookL2_25"@, string_views(pairs@)),
            final(self)@ == old(self)@ + string_views(r@),
    {
        self.subscribe_topic("orderBookL2_25", pairs)
    }

    /// Follows the order-book channel of each pair; returns the raw channels.
    pub fn subscribe_orderbook(&mut self, pairs: &Vec<String>) -> (r: Vec<String>)
        ensures
            string_views(r@) == raw_channels("orderBookL2_25"@, string_views(pairs@)),
            final(self)@ == old(self)@ + string_views(r@),
    {
        self.subscribe_topic("orderBookL2_25", pairs)
    }

    /// Follows the ticker channel of each pair; returns the raw channels.
    pub fn subscribe_ticker(&mut self, pairs: &Vec<String>) -> (r: Vec<String>)
        ensures
            string_views(r@) == raw_channels("instrument_info.100ms"@, string_views(pairs@)),
            final(self)@ == old(self)@ + string_views(r@),
    {
        self.subscribe_topic("instrument_info.100ms", pairs)
    }

    /// Bybit has no order-book snapshot channel: nothing is followed and the
    /// request is refused.
    pub fn subscribe_orderbook_snapshot(&mut self, pairs: &Vec<String>) -> (r: Result<
        Vec<String>,
        ParseError,
    >)
        ensures
            r == Err::<Vec<String>, ParseError>(ParseError::UnsupportedMessageType),
            final(self)@ == old(self)@,
    {
        Err(ParseError::UnsupportedMessageType)
    }

    /// Follows the candlestick channel of each pair for an interval given in
    /// seconds; returns the raw channels. An interval that Bybit does not
    /// offer is refused and nothing is followed.
    pub fn subscribe_candlestick(&mut self, pairs: &Vec<String>, interval: u32) -> (r: Result<
        Vec<String>,
        ParseError,
    >)
        ensures
            interval_code(interval) is None ==> r == Err::<Vec<String>, ParseError>(
                ParseError::UnsupportedMessageType,
            ) && final(self)@ == old(self)@,
            interval_code(interval) is Some ==> r is Ok && string_views(r->Ok_0@)
                == candlestick_channels(string_views(pairs@), interval) && final(self)@ == old(
                self,
            )@ + string_views(r->Ok_0@),
    {
        if code_of_interval(interval).is_none() {
            return Err(ParseError::UnsupportedMessageType);
        }
        let mut added: Vec<String> = Vec::new();
        let mut i: usize = 0;
        while i < pairs.len()
            invariant
                i <= pairs.len(),
                interval_code(interval) is Some,
                string_views(added@) == candlestick_channels(string_views(pairs@), interval).take(
                    i as int,
                ),
                self@ == old(self)@ + string_views(added@),
            decreases pairs.len() - i,
        {
            let channel = to_candlestick_raw_channel(pairs[i].as_str(), interval);
            let copy = channel.clone();
            let ghost before = string_views(added@);
            let ghost all_before = self@;
            added.push(channel);
            self.channels.push(copy);
            proof {
                let target = candlestick_channels(string_views(pairs@), interval);
                assert(string_views(pairs@)[i as int] == pairs@[i as int]@);
                assert(string_views(added@) =~= before.push(channel@));
                assert(target.take(i + 1) =~= target.take(i as int).push(target[i as int]));
                assert(self@ =~= all_before.push(copy@));
                assert(self@ =~= old(self)@ + string_views(added@));
            }
            i = i + 1;
        }
        proof {
            let target = candlestick_channels(string_views(pairs@), interval);
            assert(target.take(pairs.len() as int) =~= target);
        }
        Ok(added)
    }
}

} // verus!
