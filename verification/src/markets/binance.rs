//! Binance spot: the markets listed in an exchange-information response.
//!
//! The response is `{"symbols": [ {..market..}, .. ]}`. The functions here
//! take the text of a response that the caller has fetched.

use vstd::prelude::*;
use crate::book::{collect, lemma_collect_fails, lemma_collect_step};
use crate::decimal::Decimal;
use crate::fields::{
    decimal_at, decimal_field, flag_at, flag_field, int_at, int_field, items_at, items_field,
    text_at, text_field,
};
use crate::markets::market::{
    calc_precision, magnitude, market_views as common_views, precision_of, Fees, Market, MarketView,
    MinQuantity, Precision,
};
use crate::json::{copy_of, decode, docs_of, is_object, json_of, json_parse, Json};
use crate::message::{MarketType, ParseError};
use crate::text::{joined, same_text, string_views};

verus! {

/// One market as the exchange describes it.
pub struct SpotMarket {
    pub symbol: String,
    pub status: String,
    pub base_asset: String,
    pub base_asset_precision: i64,
    pub quote_asset: String,
    pub quote_precision: i64,
    pub quote_asset_precision: i64,
    pub is_spot_trading_allowed: bool,
    pub is_margin_trading_allowed: bool,
    /// The decoded description, filters included.
    pub raw: serde_json::Value,
}

/// What a `SpotMarket` holds.
pub struct SpotMarketView {
    pub symbol: Seq<char>,
    pub status: Seq<char>,
    pub base_asset: Seq<char>,
    pub base_asset_precision: i64,
    pub quote_asset: Seq<char>,
    pub quote_precision: i64,
    pub quote_asset_precision: i64,
    pub is_spot_trading_allowed: bool,
    pub is_margin_trading_allowed: bool,
    pub raw: Json,
}

impl View for SpotMarket {
    type V = SpotMarketView;

    open spec fn view(&self) -> SpotMarketView {
        SpotMarketView {
            symbol: self.symbol@,
            status: self.status@,
            base_asset: self.base_asset@,
            base_asset_precision: self.base_asset_precision,
            quote_asset: self.quote_asset@,
            quote_precision: self.quote_precision,
            quote_asset_precision: self.quote_asset_precision,
            is_spot_trading_allowed: self.is_spot_trading_allowed,
            is_margin_trading_allowed: self.is_margin_trading_allowed,
            raw: json_of(self.raw),
        }
    }
}

/// The views of a list of markets.
pub open spec fn market_views(markets: Seq<SpotMarket>) -> Seq<SpotMarketView> {
    Seq::new(markets.len(), |i: int| markets[i]@)
}

/// Whether the member under `key` is an array of objects.
pub open spec fn objects_at(doc: Json, key: Seq<char>) -> bool {
    match items_at(doc, key) {
        Some(items) => forall|i: int| 0 <= i < items.len() ==> #[trigger] items[i] is Object,
        None => false,
    }
}

/// The market that one element of `symbols` describes.
pub open spec fn market_of(item: Json) -> Result<SpotMarketView, ParseError> {
    match (
        text_at(item, "symbol"@),
        text_at(item, "status"@),
        text_at(item, "baseAsset"@),
        int_at(item, "baseAssetPrecision"@),
        text_at(item, "quoteAsset"@),
        int_at(item, "quotePrecision"@),
        int_at(item, "quoteAssetPrecision"@),
        flag_at(item, "isSpotTradingAllowed"@),
        flag_at(item, "isMarginTradingAllowed"@),
    ) {
        (
            Some(symbol),
            Some(status),
            Some(base_asset),
            Some(base_asset_precision),
            Some(quote_asset),
            Some(quote_precision),
            Some(quote_asset_precision),
            Some(is_spot_trading_allowed),
            Some(is_margin_trading_allowed),
        ) => if objects_at(item, "filters"@) {
            Ok(
                SpotMarketView {
                    symbol,
                    status,
                    base_asset,
                    base_asset_precision,
                    quote_asset,
                    quote_precision,
                    quote_asset_precision,
                    is_spot_trading_allowed,
                    is_margin_trading_allowed,
                    raw: item,
                },
            )
        } else {
            Err(ParseError::MalformedPayload)
        },
        _ => Err(ParseError::MalformedPayload),
    }
}

/// The markets of a response, given what its text decodes to.
pub open spec fn markets_in(doc: Option<Json>) -> Result<Seq<SpotMarketView>, ParseError> {
    match doc {
        Some(d) => match items_at(d, "symbols"@) {
            Some(items) => collect(items, |item: Json| market_of(item)),
            None => Err(ParseError::MalformedPayload),
        },
        None => Err(ParseError::MalformedPayload),
    }
}

/// Whether a market is open for spot trading.
pub open spec fn is_trading(m: SpotMarketView) -> bool {
    m.status == "TRADING"@ && m.is_spot_trading_allowed
}

/// The symbols of the markets that are open for spot trading, in the order
/// of the markets.
pub open spec fn trading_symbols(markets: Seq<SpotMarketView>) -> Seq<Seq<char>>
    decreases markets.len(),
{
    if markets.len() == 0 {
        Seq::<Seq<char>>::empty()
    } else if is_trading(markets.last()) {
        trading_symbols(markets.drop_last()).push(markets.last().symbol)
    } else {
        trading_symbols(markets.drop_last())
    }
}

/// The trading symbols of a response, given what its text decodes to.
pub open spec fn symbols_in(doc: Option<Json>) -> Result<Seq<Seq<char>>, ParseError> {
    match markets_in(doc) {
        Ok(markets) => Ok(trading_symbols(markets)),
        Err(e) => Err(e),
    }
}

/// The view of a result on markets.
pub open spec fn markets_outcome(r: Result<Vec<SpotMarket>, ParseError>) -> Result<
    Seq<SpotMarketView>,
    ParseError,
> {
    match r {
        Ok(markets) => Ok(market_views(markets@)),
        Err(e) => Err(e),
    }
}

/// The view of a result on symbols.
pub open spec fn symbols_outcome(r: Result<Vec<String>, ParseError>) -> Result<
    Seq<Seq<char>>,
    ParseError,
> {
    match r {
        Ok(symbols) => Ok(string_views(symbols@)),
        Err(e) => Err(e),
    }
}

fn has_objects(v: &serde_json::Value, key: &str) -> (r: bool)
    ensures
        r == objects_at(json_of(*v), key@),
{
    match items_field(v, key) {
        Some(items) => {
            let ghost docs = docs_of(items@);
            let mut i: usize = 0;
            while i < items.len()
                invariant
                    i <= items.len(),
                    docs == docs_of(items@),
                    items_at(json_of(*v), key@) == Some(docs),
                    forall|k: int| 0 <= k < i ==> #[trigger] docs[k] is Object,
                decreases items.len() - i,
            {
                assert(docs[i as int] == json_of(items@[i as int]));
                if !is_object(&items[i]) {
                    return false;
                }
                i = i + 1;
            }
            true
        },
        None => false,
    }
}

/// Reads the market that one element of `symbols` describes.
pub fn read_market(item: &serde_json::Value) -> (r: Result<SpotMarket, ParseError>)
    ensures
        r is Ok <==> market_of(json_of(*item)) is Ok,
        r matches Ok(m) ==> market_of(json_of(*item)) == Ok::<SpotMarketView, ParseError>(m@),
        r matches Err(e) ==> market_of(json_of(*item)) == Err::<SpotMarketView, ParseError>(e),
{
    match (
        text_field(item, "symbol"),
        text_field(item, "status"),
        text_field(item, "baseAsset"),
        int_field(item, "baseAssetPrecision"),
        text_field(item, "quoteAsset"),
        int_field(item, "quotePrecision"),
        int_field(item, "quoteAssetPrecision"),
        flag_field(item, "isSpotTradingAllowed"),
        flag_field(item, "isMarginTradingAllowed"),
    ) {
        (
            Some(symbol),
            Some(status),
            Some(base_asset),
            Some(base_asset_precision),
            Some(quote_asset),
            Some(quote_precision),
            Some(quote_asset_precision),
            Some(is_spot_trading_allowed),
            Some(is_margin_trading_allowed),
        ) => {
            if !has_objects(item, "filters") {
                return Err(ParseError::MalformedPayload);
            }
            Ok(
                SpotMarket {
                    symbol: symbol.to_owned(),
                    status: status.to_owned(),
                    base_asset: base_asset.to_owned(),
                    base_asset_precision,
                    quote_asset: quote_asset.to_owned(),
                    quote_precision,
                    quote_asset_precision,
                    is_spot_trading_allowed,
                    is_margin_trading_allowed,
                    raw: copy_of(item),
                },
            )
        },
        _ => Err(ParseError::MalformedPayload),
    }
}

/// Reads the markets of a decoded response.
pub fn spot_markets_from(doc: &serde_json::Value) -> (r: Result<Vec<SpotMarket>, ParseError>)
    ensures
        markets_outcome(r) == markets_in(Some(json_of(*doc))),
{
    let rows = match items_field(doc, "symbols") {
        Some(rows) => rows,
        None => {
            return Err(ParseError::MalformedPayload);
        },
    };
    let ghost docs = docs_of(rows@);
    let ghost read = |item: Json| market_of(item);
    let mut out: Vec<SpotMarket> = Vec::new();
    let mut i: usize = 0;
    proof {
        assert(docs.take(0) =~= Seq::<Json>::empty());
        assert(market_views(out@) =~= Seq::<SpotMarketView>::empty());
    }
    while i < rows.len()
        invariant
            i <= rows.len(),
            docs == docs_of(rows@),
            read == (|item: Json| market_of(item)),
            markets_in(Some(json_of(*doc))) == collect(docs, read),
            collect(docs.take(i as int), read) == Ok::<Seq<SpotMarketView>, ParseError>(
                market_views(out@),
            ),
        decreases rows.len() - i,
    {
        proof {
            lemma_collect_step(docs, read, i as int);
            assert(docs[i as int] == json_of(rows@[i as int]));
        }
        match read_market(&rows[i]) {
            Ok(market) => {
                let ghost before = market_views(out@);
                let ghost view = market@;
                out.push(market);
                assert(market_views(out@) =~= before.push(view));
            },
            Err(e) => {
                proof {
                    lemma_collect_fails(docs, read, i + 1);
                }
                return Err(e);
            },
        }
        i = i + 1;
    }
    proof {
        assert(docs.take(rows.len() as int) == docs);
    }
    Ok(out)
}

/// The symbols of the markets that are open for spot trading.
pub fn symbols_of(markets: &Vec<SpotMarket>) -> (r: Vec<String>)
    ensures
        string_views(r@) == trading_symbols(market_views(markets@)),
{
    let ghost views = market_views(markets@);
    let mut out: Vec<String> = Vec::new();
    let mut i: usize = 0;
    proof {
        assert(views.take(0) =~= Seq::<SpotMarketView>::empty());
        assert(string_views(out@) =~= Seq::<Seq<char>>::empty());
    }
    while i < markets.len()
        invariant
            i <= markets.len(),
            views == market_views(markets@),
            string_views(out@) == trading_symbols(views.take(i as int)),
        decreases markets.len() - i,
    {
        let market = &markets[i];
        proof {
            assert(views.take(i + 1).drop_last() == views.take(i as int));
            assert(views.take(i + 1).last() == market@);
        }
        if same_text(market.status.as_str(), "TRADING") && market.is_spot_trading_allowed {
            let ghost before = string_views(out@);
            out.push(market.symbol.clone());
            assert(string_views(out@) =~= before.push(market.symbol@));
        }
        i = i + 1;
    }
    proof {
        assert(views.take(markets.len() as int) == views);
    }
    out
}

/// Reads the markets of a response.
///
/// A text that is not JSON, a response without `symbols`, or a market that
/// lacks a field gives `MalformedPayload`.
pub fn fetch_spot_markets_raw(response: &str) -> (r: Result<Vec<SpotMarket>, ParseError>)
    ensures
        markets_outcome(r) == markets_in(json_parse(response@)),
{
    match decode(response) {
        Ok(doc) => spot_markets_from(&doc),
        Err(_) => Err(ParseError::MalformedPayload),
    }
}

/// Reads the symbols of the markets of a response that are open for spot
/// trading: status `TRADING` and spot trading allowed.
pub fn fetch_spot_symbols(response: &str) -> (r: Result<Vec<String>, ParseError>)
    ensures
        symbols_outcome(r) == symbols_in(json_parse(response@)),
{
    match fetch_spot_markets_raw(response) {
        Ok(markets) => Ok(symbols_of(&markets)),
        Err(e) => Err(e),
    }
}

/// The value of `field` in the first filter of the given type.
pub open spec fn filter_value(
    filters: Seq<Json>,
    filter_type: Seq<char>,
    field: Seq<char>,
) -> Option<Decimal>
    decreases filters.len(),
{
    if filters.len() == 0 {
        None
    } else if text_at(filters[0], "filterType"@) == Some(filter_type) {
        decimal_at(filters[0], field)
    } else {
        filter_value(filters.drop_first(), filter_type, field)
    }
}

/// The precision that a step size asks for.
pub open spec fn digits_after_point(step: Decimal) -> i64 {
    precision_of(magnitude(step.mantissa as int), step.scale as nat) as i64
}

/// The fee that Binance charges makers and takers on the spot market.
pub open spec fn spot_fee() -> Decimal {
    Decimal { mantissa: 1, scale: 3 }
}

/// The market in the common schema that a listed market describes.
///
/// Price precision follows from the tick size, base precision from the step
/// size; the smallest order is taken from the lot-size and notional
/// filters. A market without one of these filters is malformed.
pub open spec fn common_market(m: SpotMarketView) -> Result<MarketView, ParseError> {
    match items_at(m.raw, "filters"@) {
        Some(filters) => match (
            filter_value(filters, "PRICE_FILTER"@, "tickSize"@),
            filter_value(filters, "LOT_SIZE"@, "stepSize"@),
            filter_value(filters, "LOT_SIZE"@, "minQty"@),
            filter_value(filters, "MIN_NOTIONAL"@, "minNotional"@),
        ) {
            (Some(tick), Some(step), Some(min_base), Some(min_quote)) => Ok(
                MarketView {
                    exchange: "binance"@,
                    market_type: MarketType::Spot,
                    symbol: m.symbol,
                    pair: m.base_asset + "/"@ + m.quote_asset,
                    base: m.base_asset,
                    quote: m.quote_asset,
                    settle: m.quote_asset,
                    base_id: m.base_asset,
                    quote_id: m.quote_asset,
                    active: is_trading(m),
                    margin: m.is_margin_trading_allowed,
                    fees: Fees { maker: spot_fee(), taker: spot_fee() },
                    precision: Precision {
                        price: digits_after_point(tick),
                        base: digits_after_point(step),
                        quote: None,
                    },
                    min_quantity: MinQuantity { base: Some(min_base), quote: Some(min_quote) },
                    contract_value: None,
                    delivery_date: None,
                    info: m.raw,
                },
            ),
            _ => Err(ParseError::MalformedPayload),
        },
        None => Err(ParseError::MalformedPayload),
    }
}

/// The markets of a response in the common schema, given what its text
/// decodes to.
pub open spec fn common_markets_in(doc: Option<Json>) -> Result<Seq<MarketView>, ParseError> {
    match markets_in(doc) {
        Ok(markets) => collect(markets, |m: SpotMarketView| common_market(m)),
        Err(e) => Err(e),
    }
}

/// The view of a result on markets in the common schema.
pub open spec fn common_outcome(r: Result<Vec<Market>, ParseError>) -> Result<
    Seq<MarketView>,
    ParseError,
> {
    match r {
        Ok(markets) => Ok(common_views(markets@)),
        Err(e) => Err(e),
    }
}

/// Reads the value of `field` in the first filter of the given type.
pub fn parse_filter(filters: &Vec<serde_json::Value>, filter_type: &str, field: &str) -> (r: Option<
    Decimal,
>)
    ensures
        r == filter_value(docs_of(filters@), filter_type@, field@),
        r matches Some(d) ==> d.is_wire(),
{
    let ghost docs = docs_of(filters@);
    let mut i: usize = 0;
    assert(docs.skip(0) =~= docs);
    while i < filters.len()
        invariant
            i <= filters.len(),
            docs == docs_of(filters@),
            filter_value(docs, filter_type@, field@) == filter_value(
                docs.skip(i as int),
                filter_type@,
                field@,
            ),
        decreases filters.len() - i,
    {
        proof {
            assert(docs.skip(i as int)[0] == json_of(filters@[i as int]));
            assert(docs.skip(i as int).drop_first() =~= docs.skip(i + 1));
        }
        let found = match text_field(&filters[i], "filterType") {
            Some(name) => same_text(name, filter_type),
            None => false,
        };
        if found {
            return decimal_field(&filters[i], field);
        }
        i = i + 1;
    }
    None
}

/// Puts a listed market into the common schema.
pub fn to_market(m: &SpotMarket) -> (r: Result<Market, ParseError>)
    ensures
        r is Ok <==> common_market(m@) is Ok,
        r matches Ok(market) ==> common_market(m@) == Ok::<MarketView, ParseError>(market@),
        r matches Err(e) ==> common_market(m@) == Err::<MarketView, ParseError>(e),
{
    let filters = match items_field(&m.raw, "filters") {
        Some(filters) => filters,
        None => {
            return Err(ParseError::MalformedPayload);
        },
    };
    match (
        parse_filter(filters, "PRICE_FILTER", "tickSize"),
        parse_filter(filters, "LOT_SIZE", "stepSize"),
        parse_filter(filters, "LOT_SIZE", "minQty"),
        parse_filter(filters, "MIN_NOTIONAL", "minNotional"),
    ) {
        (Some(tick), Some(step), Some(min_base), Some(min_quote)) => {
            let fee = Decimal { mantissa: 1, scale: 3 };
            let active = same_text(m.status.as_str(), "TRADING") && m.is_spot_trading_allowed;
            Ok(
                Market {
                    exchange: "binance".to_owned(),
                    market_type: MarketType::Spot,
                    symbol: m.symbol.clone(),
                    pair: joined(m.base_asset.as_str(), "/", m.quote_asset.as_str()),
                    base: m.base_asset.clone(),
                    quote: m.quote_asset.clone(),
                    settle: m.quote_asset.clone(),
                    base_id: m.base_asset.clone(),
                    quote_id: m.quote_asset.clone(),
                    active,
                    margin: m.is_margin_trading_allowed,
                    fees: Fees { maker: fee, taker: fee },
                    precision: Precision {
                        price: calc_precision(tick),
                        base: calc_precision(step),
                        quote: None,
                    },
                    min_quantity: MinQuantity { base: Some(min_base), quote: Some(min_quote) },
                    contract_value: None,
                    delivery_date: None,
                    info: copy_of(&m.raw),
                },
            )
        },
        _ => Err(ParseError::MalformedPayload),
    }
}

/// Puts the listed markets into the common schema.
pub fn to_markets(listed: &Vec<SpotMarket>) -> (r: Result<Vec<Market>, ParseError>)
    ensures
        common_outcome(r) == collect(
            market_views(listed@),
            |m: SpotMarketView| common_market(m),
        ),
{
    let ghost views = market_views(listed@);
    let ghost read = |m: SpotMarketView| common_market(m);
    let mut out: Vec<Market> = Vec::new();
    let mut i: usize = 0;
    proof {
        assert(views.take(0) =~= Seq::<SpotMarketView>::empty());
        assert(common_views(out@) =~= Seq::<MarketView>::empty());
    }
    while i < listed.len()
        invariant
            i <= listed.len(),
            views == market_views(listed@),
            read == (|m: SpotMarketView| common_market(m)),
            collect(views.take(i as int), read) == Ok::<Seq<MarketView>, ParseError>(
                common_views(out@),
            ),
        decreases listed.len() - i,
    {
        proof {
            lemma_collect_step(views, read, i as int);
            assert(views[i as int] == listed@[i as int]@);
        }
        match to_market(&listed[i]) {
            Ok(market) => {
                let ghost before = common_views(out@);
                let ghost view = market@;
                out.push(market);
                assert(common_views(out@) =~= before.push(view));
            },
            Err(e) => {
                proof {
                    lemma_collect_fails(views, read, i + 1);
                }
                return Err(e);
            },
        }
        i = i + 1;
    }
    proof {
        assert(views.take(listed.len() as int) == views);
    }
    Ok(out)
}

/// Reads the markets of a response into the common schema.
///
/// Errors are as for `fetch_spot_markets_raw`; a market without a price,
/// lot-size or notional filter is malformed as well.
pub fn fetch_spot_markets(response: &str) -> (r: Result<Vec<Market>, ParseError>)
    ensures
        common_outcome(r) == common_markets_in(json_parse(response@)),
{
    match fetch_spot_markets_raw(response) {
        Ok(listed) => to_markets(&listed),
        Err(e) => Err(e),
    }
}

} // verus!
