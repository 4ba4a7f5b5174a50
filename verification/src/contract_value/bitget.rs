//! Bitget contract values.
//!
//! A live response is `[ {"symbol": .., "contract_val": ..,
//! "forwardContractFlag": ..}, .. ]`; the contract value of each forward
//! market is taken.

use vstd::prelude::*;
use crate::book::{collect, lemma_collect_fails, lemma_collect_step};
use crate::contract_value::{one, ContractValues};
use crate::decimal::Decimal;
use crate::fields::{
    decimal_at, decimal_field, flag_at, flag_field, items_value, text_at, text_field,
};
use crate::json::{decode, docs_of, items_of, json_of, json_parse, Json};
use crate::message::{MarketType, ParseError};
use crate::pair::{fixed_outcome, normalize_fixed, pair_outcome};

verus! {

/// The values fixed in the source, used when the exchange cannot be asked.
pub open spec fn static_values() -> Map<Seq<char>, Decimal> {
    Map::<Seq<char>, Decimal>::empty()
        .insert("AAVE/USDT"@, Decimal { mantissa: 1, scale: 1 })
        .insert("ADA/USDT"@, Decimal { mantissa: 100, scale: 0 })
        .insert("ALGO/USDT"@, Decimal { mantissa: 10, scale: 0 })
        .insert("ATOM/USDT"@, Decimal { mantissa: 1, scale: 0 })
        .insert("BCH/USDT"@, Decimal { mantissa: 1, scale: 2 })
        .insert("BTC/USDT"@, Decimal { mantissa: 1, scale: 3 })
        .insert("COMP/USDT"@, Decimal { mantissa: 1, scale: 2 })
        .insert("DOGE/USDT"@, Decimal { mantissa: 10, scale: 0 })
        .insert("DOT/USDT"@, Decimal { mantissa: 1, scale: 0 })
        .insert("EOS/USDT"@, Decimal { mantissa: 1, scale: 0 })
        .insert("ETC/USDT"@, Decimal { mantissa: 1, scale: 0 })
        .insert("ETH/USDT"@, Decimal { mantissa: 1, scale: 1 })
        .insert("FIL/USDT"@, Decimal { mantissa: 1, scale: 1 })
        .insert("LINK/USDT"@, Decimal { mantissa: 1, scale: 0 })
        .insert("LTC/USDT"@, Decimal { mantissa: 1, scale: 1 })
        .insert("SUSHI/USDT"@, Decimal { mantissa: 1, scale: 0 })
        .insert("TRX/USDT"@, Decimal { mantissa: 100, scale: 0 })
        .insert("UNI/USDT"@, Decimal { mantissa: 1, scale: 0 })
        .insert("XLM/USDT"@, Decimal { mantissa: 10, scale: 0 })
        .insert("XRP/USDT"@, Decimal { mantissa: 10, scale: 0 })
        .insert("XTZ/USDT"@, Decimal { mantissa: 1, scale: 0 })
        .insert("YFI/USDT"@, Decimal { mantissa: 1, scale: 4 })
        .insert("ZEC/USDT"@, Decimal { mantissa: 1, scale: 1 })
}

/// The table of the values fixed in the source.
pub fn static_table() -> (table: ContractValues)
    ensures
        table@ == static_values(),
{
    let mut table = ContractValues::new();
    table.insert("AAVE/USDT", Decimal { mantissa: 1, scale: 1 });
    table.insert("ADA/USDT", Decimal { mantissa: 100, scale: 0 });
    table.insert("ALGO/USDT", Decimal { mantissa: 10, scale: 0 });
    table.insert("ATOM/USDT", Decimal { mantissa: 1, scale: 0 });
    table.insert("BCH/USDT", Decimal { mantissa: 1, scale: 2 });
    table.insert("BTC/USDT", Decimal { mantissa: 1, scale: 3 });
    table.insert("COMP/USDT", Decimal { mantissa: 1, scale: 2 });
    table.insert("DOGE/USDT", Decimal { mantissa: 10, scale: 0 });
    table.insert("DOT/USDT", Decimal { mantissa: 1, scale: 0 });
    table.insert("EOS/USDT", Decimal { mantissa: 1, scale: 0 });
    table.insert("ETC/USDT", Decimal { mantissa: 1, scale: 0 });
    table.insert("ETH/USDT", Decimal { mantissa: 1, scale: 1 });
    table.insert("FIL/USDT", Decimal { mantissa: 1, scale: 1 });
    table.insert("LINK/USDT", Decimal { mantissa: 1, scale: 0 });
    table.insert("LTC/USDT", Decimal { mantissa: 1, scale: 1 });
    table.insert("SUSHI/USDT", Decimal { mantissa: 1, scale: 0 });
    table.insert("TRX/USDT", Decimal { mantissa: 100, scale: 0 });
    table.insert("UNI/USDT", Decimal { mantissa: 1, scale: 0 });
    table.insert("XLM/USDT", Decimal { mantissa: 10, scale: 0 });
    table.insert("XRP/USDT", Decimal { mantissa: 10, scale: 0 });
    table.insert("XTZ/USDT", Decimal { mantissa: 1, scale: 0 });
    table.insert("YFI/USDT", Decimal { mantissa: 1, scale: 4 });
    table.insert("ZEC/USDT", Decimal { mantissa: 1, scale: 1 });
    table
}

/// The contract value of a pair: one for inverse contracts, the table's
/// value for a linear swap, nothing for any other market.
pub open spec fn contract_value(
    table: Map<Seq<char>, Decimal>,
    market_type: MarketType,
    pair: Seq<char>,
) -> Option<Decimal> {
    match market_type {
        MarketType::InverseSwap => Some(one()),
        MarketType::LinearSwap => if table.contains_key(pair) {
            Some(table[pair])
        } else {
            None
        },
        _ => None,
    }
}

/// The contract value of a pair: one for inverse contracts, the table's
/// value for a linear swap, and `None` for any other market and for a
/// linear swap that the table does not hold.
pub fn get_contract_value(
    table: &ContractValues,
    market_type: MarketType,
    pair: &str,
) -> (r: Option<Decimal>)
    ensures
        r == contract_value(table@, market_type, pair@),
{
    match market_type {
        MarketType::InverseSwap => Some(Decimal { mantissa: 1, scale: 0 }),
        MarketType::LinearSwap => table.get(pair),
        _ => None,
    }
}

/// What one market of a live response adds to the table: nothing for
/// a market that is not forward, else the value of its pair.
pub open spec fn entry_of(item: Json) -> Result<Option<(Seq<char>, Decimal)>, ParseError> {
    match (
        text_at(item, "symbol"@),
        decimal_at(item, "contract_val"@),
        flag_at(item, "forwardContractFlag"@),
    ) {
        (Some(symbol), Some(value), Some(flag)) => if !flag {
            Ok(None)
        } else {
            match fixed_outcome(symbol, "bitget"@) {
                Ok(pair) => Ok(Some((pair, value))),
                Err(e) => Err(e),
            }
        },
        _ => Err(ParseError::MalformedPayload),
    }
}

/// The table that a list of additions builds: a later addition replaces an
/// earlier one for the same pair.
pub open spec fn table_of(entries: Seq<Option<(Seq<char>, Decimal)>>) -> Map<Seq<char>, Decimal>
    decreases entries.len(),
{
    if entries.len() == 0 {
        Map::<Seq<char>, Decimal>::empty()
    } else {
        match entries.last() {
            Some((pair, value)) => table_of(entries.drop_last()).insert(pair, value),
            None => table_of(entries.drop_last()),
        }
    }
}

/// The markets of a decoded response.
pub open spec fn markets_of(doc: Json) -> Option<Seq<Json>> {
    items_value(doc)
}

/// The live values of a response, given what its text decodes to.
pub open spec fn live_values(doc: Option<Json>) -> Result<Map<Seq<char>, Decimal>, ParseError> {
    match doc {
        Some(d) => match markets_of(d) {
            Some(items) => match collect(items, |item: Json| entry_of(item)) {
                Ok(entries) => Ok(table_of(entries)),
                Err(e) => Err(e),
            },
            None => Err(ParseError::MalformedPayload),
        },
        None => Err(ParseError::MalformedPayload),
    }
}

/// The view of a result on a table.
pub open spec fn values_outcome(r: Result<ContractValues, ParseError>) -> Result<
    Map<Seq<char>, Decimal>,
    ParseError,
> {
    match r {
        Ok(table) => Ok(table@),
        Err(e) => Err(e),
    }
}

/// The table in use: the fixed values overlaid with the live ones; the fixed
/// values alone when there is no live response or it cannot be read.
pub open spec fn values_with(live: Option<Seq<char>>) -> Map<Seq<char>, Decimal> {
    match live {
        Some(text) => match live_values(json_parse(text)) {
            Ok(values) => static_values().union_prefer_right(values),
            Err(_) => static_values(),
        },
        None => static_values(),
    }
}

/// The view of an optional text.
pub open spec fn text_view(text: Option<&str>) -> Option<Seq<char>> {
    match text {
        Some(t) => Some(t@),
        None => None,
    }
}

fn pair_of(symbol: &str) -> (r: Result<String, ParseError>)
    ensures
        pair_outcome(r) == fixed_outcome(symbol@, "bitget"@),
{
    normalize_fixed(symbol, "bitget")
}

/// Reads what one market of a live response adds to the table.
pub fn read_entry(item: &serde_json::Value) -> (r: Result<Option<(String, Decimal)>, ParseError>)
    ensures
        match r {
            Ok(Some((pair, value))) => entry_of(json_of(*item)) == Ok::<
                Option<(Seq<char>, Decimal)>,
                ParseError,
            >(Some((pair@, value))),
            Ok(None) => entry_of(json_of(*item)) == Ok::<Option<(Seq<char>, Decimal)>, ParseError>(
                None,
            ),
            Err(e) => entry_of(json_of(*item)) == Err::<Option<(Seq<char>, Decimal)>, ParseError>(
                e,
            ),
        },
{
    match (
        text_field(item, "symbol"),
        decimal_field(item, "contract_val"),
        flag_field(item, "forwardContractFlag"),
    ) {
        (Some(symbol), Some(value), Some(flag)) => {
            if !flag {
                return Ok(None);
            }
            match pair_of(symbol) {
                Ok(pair) => Ok(Some((pair, value))),
                Err(e) => Err(e),
            }
        },
        _ => Err(ParseError::MalformedPayload),
    }
}

/// Reads the live values of a decoded response.
pub fn values_from(doc: &serde_json::Value) -> (r: Result<ContractValues, ParseError>)
    ensures
        values_outcome(r) == live_values(Some(json_of(*doc))),
{
    let rows = match items_of(doc) {
        Some(rows) => rows,
        None => {
            return Err(ParseError::MalformedPayload);
        },
    };
    let ghost docs = docs_of(rows@);
    let ghost read = |item: Json| entry_of(item);
    let ghost mut seen = Seq::<Option<(Seq<char>, Decimal)>>::empty();
    let mut table = ContractValues::new();
    let mut i: usize = 0;
    proof {
        assert(docs.take(0) =~= Seq::<Json>::empty());
    }
    while i < rows.len()
        invariant
            i <= rows.len(),
            docs == docs_of(rows@),
            read == (|item: Json| entry_of(item)),
            markets_of(json_of(*doc)) == Some(docs),
            collect(docs.take(i as int), read) == Ok::<
                Seq<Option<(Seq<char>, Decimal)>>,
                ParseError,
            >(seen),
            table@ == table_of(seen),
        decreases rows.len() - i,
    {
        proof {
            lemma_collect_step(docs, read, i as int);
            assert(docs[i as int] == json_of(rows@[i as int]));
        }
        match read_entry(&rows[i]) {
            Ok(Some((pair, value))) => {
                table.insert(pair.as_str(), value);
                proof {
                    let next = seen.push(Some((pair@, value)));
                    assert(next.drop_last() == seen);
                    seen = next;
                }
            },
            Ok(None) => {
                proof {
                    let next = seen.push(None);
                    assert(next.drop_last() == seen);
                    seen = next;
                }
            },
            Err(e) => {
                proof {
                    lemma_collect_fails(docs, read, i + 1);
                }
                return Err(e);
            },
        }
        i = i + 1;
    }
    proof {
        assert(docs.take(rows.len() as int) == docs);
    }
    Ok(table)
}

/// Reads the live values of a response: the contract value of every
/// forward market, by pair.
///
/// A text that is not JSON or a market that lacks a field gives
/// `MalformedPayload`; a symbol outside the exchange's grammar gives
/// `UnrecognizedSymbol`.
pub fn fetch_contract_val(response: &str) -> (r: Result<ContractValues, ParseError>)
    ensures
        values_outcome(r) == live_values(json_parse(response@)),
{
    match decode(response) {
        Ok(doc) => values_from(&doc),
        Err(_) => Err(ParseError::MalformedPayload),
    }
}

/// Builds the table in use from the fixed values and, when there is one,
/// the text of a live response. A response that cannot be read is passed
/// over and the fixed values stand alone.
pub fn contract_values(live: Option<&str>) -> (table: ContractValues)
    ensures
        table@ == values_with(text_view(live)),
{
    let mut table = static_table();
    match live {
        Some(text) => match fetch_contract_val(text) {
            Ok(values) => {
                table.overlay(&values);
            },
            Err(_) => {},
        },
        None => {},
    }
    table
}

} // verus!
