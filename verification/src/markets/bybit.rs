//! Bybit: the symbols listed in a symbol-query response.
//!
//! The response is `{"ret_code": 0, .., "result": [ {..market..}, .. ]}`. The
//! functions here take the text of a response that the caller has fetched.

use vstd::prelude::*;
use crate::book::{collect, lemma_collect_fails, lemma_collect_step};
use crate::fields::{int_at, int_field, items_at, items_field, text_at, text_field};
use crate::json::{copy_of, decode, docs_of, json_of, json_parse, Json};
use crate::message::{MarketType, ParseError};
use crate::pair::{ends_in_number, has_number_tail};
use crate::text::{chars_of, same_text, string_views};

verus! {

/// One market as the exchange describes it.
pub struct BybitMarket {
    pub name: String,
    pub alias: String,
    pub status: String,
    pub base_currency: String,
    pub quote_currency: String,
    /// The decoded description.
    pub raw: serde_json::Value,
}

/// What a `BybitMarket` holds.
pub struct BybitMarketView {
    pub name: Seq<char>,
    pub alias: Seq<char>,
    pub status: Seq<char>,
    pub base_currency: Seq<char>,
    pub quote_currency: Seq<char>,
    pub raw: Json,
}

impl View for BybitMarket {
    type V = BybitMarketView;

    open spec fn view(&self) -> BybitMarketView {
        BybitMarketView {
            name: self.name@,
            alias: self.alias@,
            status: self.status@,
            base_currency: self.base_currency@,
            quote_currency: self.quote_currency@,
            raw: json_of(self.raw),
        }
    }
}

/// The views of a list of markets.
pub open spec fn market_views(markets: Seq<BybitMarket>) -> Seq<BybitMarketView> {
    Seq::new(markets.len(), |i: int| markets[i]@)
}

/// The market that one element of `result` describes.
pub open spec fn market_of(item: Json) -> Result<BybitMarketView, ParseError> {
    match (
        text_at(item, "name"@),
        text_at(item, "alias"@),
        text_at(item, "status"@),
        text_at(item, "base_currency"@),
        text_at(item, "quote_currency"@),
    ) {
        (Some(name), Some(alias), Some(status), Some(base_currency), Some(quote_currency)) => Ok(
            BybitMarketView { name, alias, status, base_currency, quote_currency, raw: item },
        ),
        _ => Err(ParseError::MalformedPayload),
    }
}

/// The markets of a response, given what its text decodes to. A response
/// whose return code is not zero is malformed.
pub open spec fn markets_in(doc: Option<Json>) -> Result<Seq<BybitMarketView>, ParseError> {
    match doc {
        Some(d) => match (int_at(d, "ret_code"@), items_at(d, "result"@)) {
            (Some(code), Some(items)) => if code == 0 {
                collect(items, |item: Json| market_of(item))
            } else {
                Err(ParseError::MalformedPayload)
            },
            _ => Err(ParseError::MalformedPayload),
        },
        None => Err(ParseError::MalformedPayload),
    }
}

/// The market types that Bybit lists.
pub open spec fn offered(market_type: MarketType) -> bool {
    market_type == MarketType::InverseSwap || market_type == MarketType::LinearSwap || market_type
        == MarketType::InverseFuture
}

/// Whether a market trades and belongs to a market type: a swap carries its
/// own name as alias and is quoted in USD (inverse) or USDT (linear); an
/// inverse future is quoted in USD and its name ends in a number.
pub open spec fn listed(m: BybitMarketView, market_type: MarketType) -> bool {
    m.status == "Trading"@ && match market_type {
        MarketType::InverseSwap => m.name == m.alias && m.quote_currency == "USD"@,
        MarketType::LinearSwap => m.name == m.alias && m.quote_currency == "USDT"@,
        MarketType::InverseFuture => m.quote_currency == "USD"@ && ends_in_number(m.name),
        _ => false,
    }
}

/// The names of the markets listed under a market type, in the order of the
/// markets.
pub open spec fn listed_symbols(markets: Seq<BybitMarketView>, market_type: MarketType) -> Seq<
    Seq<char>,
>
    decreases markets.len(),
{
    if markets.len() == 0 {
        Seq::<Seq<char>>::empty()
    } else if listed(markets.last(), market_type) {
        listed_symbols(markets.drop_last(), market_type).push(markets.last().name)
    } else {
        listed_symbols(markets.drop_last(), market_type)
    }
}

/// The symbols of a market type in a response, given what its text decodes
/// to.
pub open spec fn symbols_in(doc: Option<Json>, market_type: MarketType) -> Result<
    Seq<Seq<char>>,
    ParseError,
> {
    if offered(market_type) {
        match markets_in(doc) {
            Ok(markets) => Ok(listed_symbols(markets, market_type)),
            Err(e) => Err(e),
        }
    } else {
        Err(ParseError::UnsupportedMessageType)
    }
}

/// The view of a result on markets.
pub open spec fn markets_outcome(r: Result<Vec<BybitMarket>, ParseError>) -> Result<
    Seq<BybitMarketView>,
    ParseError,
> {
    match r {
        Ok(markets) => Ok(market_views(markets@)),
        Err(e) => Err(e),
    }
}

/// The view of a result on symbols.
pub open spec fn symbols_outcome(r: Result<Vec<String>, ParseError>) -> Result<
    Seq<Seq<char>>,
    ParseError,
> {
    match r {
        Ok(symbols) => Ok(string_views(symbols@)),
        Err(e) => Err(e),
    }
}

/// Reads the market that one element of `result` describes.
pub fn read_market(item: &serde_json::Value) -> (r: Result<BybitMarket, ParseError>)
    ensures
        r is Ok <==> market_of(json_of(*item)) is Ok,
        r matches Ok(m) ==> market_of(json_of(*item)) == Ok::<BybitMarketView, ParseError>(m@),
        r matches Err(e) ==> market_of(json_of(*item)) == Err::<BybitMarketView, ParseError>(e),
{
    match (
        text_field(item, "name"),
        text_field(item, "alias"),
        text_field(item, "status"),
        text_field(item, "base_currency"),
        text_field(item, "quote_currency"),
    ) {
        (Some(name), Some(alias), Some(status), Some(base_currency), Some(quote_currency)) => Ok(
            BybitMarket {
                name: name.to_owned(),
                alias: alias.to_owned(),
                status: status.to_owned(),
                base_currency: base_currency.to_owned(),
                quote_currency: quote_currency.to_owned(),
                raw: copy_of(item),
            },
        ),
        _ => Err(ParseError::MalformedPayload),
    }
}

/// Reads the markets of a decoded response.
pub fn markets_from(doc: &serde_json::Value) -> (r: Result<Vec<BybitMarket>, ParseError>)
    ensures
        markets_outcome(r) == markets_in(Some(json_of(*doc))),
{
    let rows = match (int_field(doc, "ret_code"), items_field(doc, "result")) {
        (Some(code), Some(rows)) => {
            if code != 0 {
                return Err(ParseError::MalformedPayload);
            }
            rows
        },
        _ => {
            return Err(ParseError::MalformedPayload);
        },
    };
    let ghost docs = docs_of(rows@);
    let ghost read = |item: Json| market_of(item);
    let mut out: Vec<BybitMarket> = Vec::new();
    let mut i: usize = 0;
    proof {
        assert(docs.take(0) =~= Seq::<Json>::empty());
        assert(market_views(out@) =~= Seq::<BybitMarketView>::empty());
    }
    while i < rows.len()
        invariant
            i <= rows.len(),
            docs == docs_of(rows@),
            read == (|item: Json| market_of(item)),
            markets_in(Some(json_of(*doc))) == collect(docs, read),
            collect(docs.take(i as int), read) == Ok::<Seq<BybitMarketView>, ParseError>(
                market_views(out@),
            ),
        decreases rows.len() - i,
    {
        proof {
            lemma_collect_step(docs, read, i as int);
            assert(docs[i as int] == json_of(rows@[i as int]));
        }
        match read_market(&rows[i]) {
            Ok(market) => {
                let ghost before = market_views(out@);
                let ghost view = market@;
                out.push(market);
                assert(market_views(out@) =~= before.push(view));
            },
            Err(e) => {
                proof {
                    lemma_collect_fails(docs, read, i + 1);
                }
                return Err(e);
            },
        }
        i = i + 1;
    }
    proof {
        assert(docs.take(rows.len() as int) == docs);
    }
    Ok(out)
}

/// Whether a market trades and belongs to a market type.
pub fn is_listed(market: &BybitMarket, market_type: MarketType) -> (r: bool)
    ensures
        r == listed(market@, market_type),
{
    if !same_text(market.status.as_str(), "Trading") {
        return false;
    }
    match market_type {
        MarketType::InverseSwap => market.name == market.alias && same_text(
            market.quote_currency.as_str(),
            "USD",
        ),
        MarketType::LinearSwap => market.name == market.alias && same_text(
            market.quote_currency.as_str(),
            "USDT",
        ),
        MarketType::InverseFuture => {
            let name = chars_of(market.name.as_str());
            same_text(market.quote_currency.as_str(), "USD") && has_number_tail(&name)
        },
        _ => false,
    }
}

/// The names of the markets listed under a market type.
pub fn symbols_of(markets: &Vec<BybitMarket>, market_type: MarketType) -> (r: Vec<String>)
    ensures
        string_views(r@) == listed_symbols(market_views(markets@), market_type),
{
    let ghost views = market_views(markets@);
    let mut out: Vec<String> = Vec::new();
    let mut i: usize = 0;
    proof {
        assert(views.take(0) =~= Seq::<BybitMarketView>::empty());
        assert(string_views(out@) =~= Seq::<Seq<char>>::empty());
    }
    while i < markets.len()
        invariant
            i <= markets.len(),
            views == market_views(markets@),
            string_views(out@) == listed_symbols(views.take(i as int), market_type),
        decreases markets.len() - i,
    {
        let market = &markets[i];
        proof {
            assert(views.take(i + 1).drop_last() == views.take(i as int));
            assert(views.take(i + 1).last() == market@);
        }
        if is_listed(market, market_type) {
            let ghost before = string_views(out@);
            out.push(market.name.clone());
            assert(string_views(out@) =~= before.push(market.name@));
        }
        i = i + 1;
    }
    proof {
        assert(views.take(markets.len() as int) == views);
    }
    out
}

/// Reads the symbols of a market type from a response.
///
/// A market type that Bybit does not list gives `UnsupportedMessageType`; a
/// text that is not JSON, a return code other than zero, or a market that
/// lacks a field gives `MalformedPayload`.
pub fn fetch_symbols(market_type: MarketType, response: &str) -> (r: Result<
    Vec<String>,
    ParseError,
>)
    ensures
        symbols_outcome(r) == symbols_in(json_parse(response@), market_type),
{
    match market_type {
        MarketType::InverseSwap | MarketType::LinearSwap | MarketType::InverseFuture => {},
        _ => {
            return Err(ParseError::UnsupportedMessageType);
        },
    }
    let doc = match decode(response) {
        Ok(doc) => doc,
        Err(_) => {
            return Err(ParseError::MalformedPayload);
        },
    };
    match markets_from(&doc) {
        Ok(markets) => Ok(symbols_of(&markets, market_type)),
        Err(e) => Err(e),
    }
}

} // verus!
