//! Contract values: how much of the underlying one derivative contract
//! stands for.
//!
//! A table starts from values fixed in the source and is overlaid with the
//! values of a live response, the live value winning where both name a
//! pair. A table is built once and only read afterwards.

pub mod bitget;
pub mod kucoin;

use vstd::prelude::*;
use crate::decimal::Decimal;
use crate::message::MarketType;
use crate::text::same_text;

verus! {

/// Contract values by pair.
pub struct ContractValues {
    entries: Vec<(String, Decimal)>,
}

/// The map that a list of entries stands for: a later entry replaces an
/// earlier one for the same pair.
pub open spec fn map_of(entries: Seq<(String, Decimal)>) -> Map<Seq<char>, Decimal>
    decreases entries.len(),
{
    if entries.len() == 0 {
        Map::<Seq<char>, Decimal>::empty()
    } else {
        map_of(entries.drop_last()).insert(entries.last().0@, entries.last().1)
    }
}

proof fn lemma_lookup(entries: Seq<(String, Decimal)>, key: Seq<char>, i: int)
    requires
        0 <= i <= entries.len(),
        forall|j: int| i <= j < entries.len() ==> (#[trigger] entries[j]).0@ != key,
    ensures
        map_of(entries).contains_key(key) == map_of(entries.take(i)).contains_key(key),
        map_of(entries).contains_key(key) ==> map_of(entries)[key] == map_of(entries.take(i))[key],
    decreases entries.len() - i,
{
    if i < entries.len() {
        let front = entries.drop_last();
        assert forall|j: int| i <= j < front.len() implies (#[trigger] front[j]).0@ != key by {
            assert(front[j] == entries[j]);
        }
        lemma_lookup(front, key, i);
        assert(front.take(i) == entries.take(i));
        assert(entries[entries.len() - 1].0@ != key);
    } else {
        assert(entries.take(i) == entries);
    }
}

impl View for ContractValues {
    type V = Map<Seq<char>, Decimal>;

    closed spec fn view(&self) -> Map<Seq<char>, Decimal> {
        map_of(self.entries@)
    }
}

impl ContractValues {
    /// The table without entries.
    pub fn new() -> (r: Self)
        ensures
            r@ == Map::<Seq<char>, Decimal>::empty(),
    {
        ContractValues { entries: Vec::new() }
    }

    /// Sets the value of a pair.
    pub fn insert(&mut self, pair: &str, value: Decimal)
        ensures
            final(self)@ == old(self)@.insert(pair@, value),
    {
        self.entries.push((pair.to_owned(), value));
        assert(self.entries@.drop_last() == old(self).entries@);
    }

    /// The value of a pair, if the table has one.
    pub fn get(&self, pair: &str) -> (r: Option<Decimal>)
        ensures
            r == if self@.contains_key(pair@) {
                Some(self@[pair@])
            } else {
                None
            },
    {
        let mut i: usize = self.entries.len();
        while i > 0
            invariant
                i <= self.entries.len(),
                forall|j: int|
                    i <= j < self.entries.len() ==> (#[trigger] self.entries@[j]).0@ != pair@,
            decreases i,
        {
            if same_text(self.entries[i - 1].0.as_str(), pair) {
                proof {
                    lemma_lookup(self.entries@, pair@, i as int);
                    assert(self.entries@.take(i as int).drop_last() == self.entries@.take(i - 1));
                }
                return Some(self.entries[i - 1].1);
            }
            i = i - 1;
        }
        proof {
            lemma_lookup(self.entries@, pair@, 0);
        }
        None
    }

    /// The entries in the order they were set. A pair that was set more than
    /// once appears each time; its last value is the one that stands.
    pub fn entries(&self) -> (r: &Vec<(String, Decimal)>)
        ensures
            map_of(r@) == self@,
    {
        &self.entries
    }

    /// Whether the table has a value for a pair.
    pub fn contains(&self, pair: &str) -> (r: bool)
        ensures
            r == self@.contains_key(pair@),
    {
        self.get(pair).is_some()
    }

    /// Lays `live` over the table: every pair of `live` takes the value it
    /// has there, every other pair keeps its own.
    pub fn overlay(&mut self, live: &ContractValues)
        ensures
            final(self)@ == old(self)@.union_prefer_right(live@),
    {
        let mut i: usize = 0;
        assert(live.entries@.take(0) =~= Seq::<(String, Decimal)>::empty());
        assert(self@ =~= old(self)@.union_prefer_right(map_of(live.entries@.take(0))));
        while i < live.entries.len()
            invariant
                i <= live.entries.len(),
                self@ == old(self)@.union_prefer_right(map_of(live.entries@.take(i as int))),
            decreases live.entries.len() - i,
        {
            let ghost before = self@;
            self.insert(live.entries[i].0.as_str(), live.entries[i].1);
            proof {
                let step = live.entries@.take(i + 1);
                assert(step.drop_last() == live.entries@.take(i as int));
                assert(step.last() == live.entries@[i as int]);
                assert(self@ =~= old(self)@.union_prefer_right(map_of(step)));
            }
            i = i + 1;
        }
        assert(live.entries@.take(live.entries.len() as int) == live.entries@);
    }
}

/// The value of one contract of an inverse market: one unit of quote.
pub open spec fn one() -> Decimal {
    Decimal { mantissa: 1, scale: 0 }
}

/// The tables of the exchanges whose linear contracts vary by pair.
pub struct Resolver {
    pub kucoin: ContractValues,
    pub bitget: ContractValues,
}

/// The contract value of a pair at an exchange: nothing outside the
/// derivative markets, one for inverse contracts, the table's value for
/// linear swaps.
pub open spec fn resolved(
    kucoin_table: Map<Seq<char>, Decimal>,
    bitget_table: Map<Seq<char>, Decimal>,
    exchange: Seq<char>,
    market_type: MarketType,
    pair: Seq<char>,
) -> Option<Decimal> {
    if exchange == "kucoin"@ {
        kucoin::contract_value(kucoin_table, market_type, pair)
    } else if exchange == "bitget"@ {
        bitget::contract_value(bitget_table, market_type, pair)
    } else {
        None
    }
}

impl Resolver {
    /// The contract value of a pair at an exchange. `None` for an exchange
    /// without a table, for a market without contracts, and for a linear
    /// swap that the table does not hold.
    pub fn resolve(&self, exchange: &str, market_type: MarketType, pair: &str) -> (r: Option<
        Decimal,
    >)
        ensures
            r == resolved(self.kucoin@, self.bitget@, exchange@, market_type, pair@),
    {
        if same_text(exchange, "kucoin") {
            kucoin::get_contract_value(&self.kucoin, market_type, pair)
        } else if same_text(exchange, "bitget") {
            bitget::get_contract_value(&self.bitget, market_type, pair)
        } else {
            None
        }
    }
}

} // verus!
