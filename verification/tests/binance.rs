use carbonbot::decimal::Decimal;
use carbonbot::markets::binance::{
    fetch_spot_markets, fetch_spot_markets_raw, fetch_spot_symbols, symbols_of,
};
use carbonbot::markets::fetch_symbols;
use carbonbot::markets::market::calc_precision;
use carbonbot::message::{MarketType, ParseError};

fn market(symbol: &str, status: &str, spot: bool, margin: bool, tick: &str, step: &str) -> String {
    format!(
        r#"{{"symbol":"{}","status":"{}","baseAsset":"{}","baseAssetPrecision":8,"quoteAsset":"USDT","quotePrecision":8,"quoteAssetPrecision":8,"orderTypes":["LIMIT","MARKET"],"icebergAllowed":true,"isSpotTradingAllowed":{},"isMarginTradingAllowed":{},"filters":[{{"filterType":"PRICE_FILTER","minPrice":"0.01000000","maxPrice":"1000000.00000000","tickSize":"{}"}},{{"filterType":"PERCENT_PRICE","multiplierUp":"5","multiplierDown":"0.2","avgPriceMins":5}},{{"filterType":"LOT_SIZE","minQty":"0.00000100","maxQty":"9000.00000000","stepSize":"{}"}},{{"filterType":"MIN_NOTIONAL","minNotional":"10.00000000","applyToMarket":true,"avgPriceMins":5}}],"permissions":["SPOT","MARGIN"]}}"#,
        symbol,
        status,
        &symbol[..symbol.len() - 4],
        spot,
        margin,
        tick,
        step
    )
}

fn response() -> String {
    format!(
        r#"{{"timezone":"UTC","serverTime":1616384937000,"symbols":[{},{},{},{}]}}"#,
        market("BTCUSDT", "TRADING", true, true, "0.01000000", "0.00000100"),
        market("ETHUSDT", "BREAK", true, true, "0.01000000", "0.00001000"),
        market("BNBUSDT", "TRADING", false, false, "0.00010000", "0.00100000"),
        market("DOGEUSDT", "TRADING", true, false, "0.00000100", "1.00000000"),
    )
}

#[test]
fn binance_spot_symbols() {
    assert_eq!(
        fetch_spot_symbols(&response()),
        Ok(vec!["BTCUSDT".to_string(), "DOGEUSDT".to_string()])
    );
    assert_eq!(
        fetch_symbols("binance", MarketType::Spot, &response()),
        Ok(vec!["BTCUSDT".to_string(), "DOGEUSDT".to_string()])
    );
    assert_eq!(fetch_spot_symbols(r#"{"symbols":[]}"#), Ok(vec![]));
}

#[test]
fn binance_other_market_types_are_refused() {
    assert_eq!(
        fetch_symbols("binance", MarketType::LinearSwap, &response()),
        Err(ParseError::UnsupportedMessageType)
    );
}

#[test]
fn binance_raw_markets() {
    let markets = fetch_spot_markets_raw(&response()).unwrap();
    assert_eq!(markets.len(), 4);
    assert_eq!(markets[1].symbol, "ETHUSDT");
    assert_eq!(markets[1].status, "BREAK");
    assert_eq!(markets[1].base_asset, "ETH");
    assert_eq!(markets[1].quote_asset, "USDT");
    assert_eq!(markets[1].base_asset_precision, 8);
    assert_eq!(markets[1].quote_precision, 8);
    assert_eq!(markets[1].quote_asset_precision, 8);
    assert!(markets[1].is_spot_trading_allowed);
    assert!(markets[1].is_margin_trading_allowed);
    assert!(!markets[2].is_spot_trading_allowed);
    assert_eq!(markets[0].raw["filters"][0]["tickSize"], "0.01000000");
    assert_eq!(symbols_of(&markets), vec!["BTCUSDT".to_string(), "DOGEUSDT".to_string()]);
}

#[test]
fn binance_malformed_responses() {
    for text in [
        "",
        "{\"symbols\":[",
        "{}",
        r#"{"symbols":{}}"#,
        r#"{"symbols":[{"symbol":"BTCUSDT"}]}"#,
        r#"{"symbols":[7]}"#,
    ] {
        assert_eq!(fetch_spot_symbols(text), Err(ParseError::MalformedPayload), "{}", text);
        assert!(matches!(fetch_spot_markets(text), Err(ParseError::MalformedPayload)));
    }
    // a truth value given as text
    let bad = response().replace("\"isSpotTradingAllowed\":true", "\"isSpotTradingAllowed\":\"true\"");
    assert_eq!(fetch_spot_symbols(&bad), Err(ParseError::MalformedPayload));
    // filters that are no objects
    let bad = response().replace("\"filters\":[{", "\"filters\":[1,{");
    assert_eq!(fetch_spot_symbols(&bad), Err(ParseError::MalformedPayload));
}

#[test]
fn binance_markets_in_the_common_schema() {
    let markets = fetch_spot_markets(&response()).unwrap();
    assert_eq!(markets.len(), 4);
    let m = &markets[0];
    assert_eq!(m.exchange, "binance");
    assert_eq!(m.market_type, MarketType::Spot);
    assert_eq!(m.symbol, "BTCUSDT");
    assert_eq!(m.pair, "BTC/USDT");
    assert_eq!(m.base, "BTC");
    assert_eq!(m.quote, "USDT");
    assert_eq!(m.settle, "USDT");
    assert_eq!(m.base_id, "BTC");
    assert_eq!(m.quote_id, "USDT");
    assert!(m.active);
    assert!(m.margin);
    assert_eq!(m.fees.maker, Decimal { mantissa: 1, scale: 3 });
    assert_eq!(m.fees.taker, Decimal { mantissa: 1, scale: 3 });
    assert_eq!(m.precision.price, 2);
    assert_eq!(m.precision.base, 6);
    assert_eq!(m.precision.quote, None);
    assert_eq!(m.min_quantity.base, Some(Decimal { mantissa: 100, scale: 8 }));
    assert_eq!(m.min_quantity.quote, Some(Decimal { mantissa: 1000000000, scale: 8 }));
    assert_eq!(m.contract_value, None);
    assert_eq!(m.delivery_date, None);
    assert_eq!(m.info["symbol"], "BTCUSDT");
    assert!(!markets[1].active);
    assert!(!markets[2].active);
    assert!(!markets[2].margin);
    assert_eq!(markets[2].precision.price, 4);
    assert_eq!(markets[2].precision.base, 3);
    assert_eq!(markets[3].precision.price, 6);
    assert_eq!(markets[3].precision.base, 0);
}

#[test]
fn binance_market_without_a_filter_is_malformed() {
    let bad = response().replace("MIN_NOTIONAL", "NOTIONAL");
    assert!(fetch_spot_markets_raw(&bad).is_ok());
    assert!(matches!(fetch_spot_markets(&bad), Err(ParseError::MalformedPayload)));
}

#[test]
fn precision_drops_trailing_zeros() {
    let d = |mantissa: i128, scale: u32| Decimal { mantissa, scale };
    assert_eq!(calc_precision(d(1000000, 8)), 2);
    assert_eq!(calc_precision(d(1, 2)), 2);
    assert_eq!(calc_precision(d(100000000, 8)), 0);
    assert_eq!(calc_precision(d(10, 0)), 0);
    assert_eq!(calc_precision(d(0, 5)), 0);
    assert_eq!(calc_precision(d(-2500, 6)), 4);
    assert_eq!(calc_precision(d(1, 18)), 18);
    assert_eq!(calc_precision(d(5, 1)), 1);
}

#[test]
fn markets_by_exchange() {
    let markets = carbonbot::markets::fetch_markets("binance", MarketType::Spot, &response()).unwrap();
    assert_eq!(markets.len(), 4);
    assert_eq!(markets[3].pair, "DOGE/USDT");
    assert!(matches!(
        carbonbot::markets::fetch_markets("binance", MarketType::LinearSwap, &response()),
        Err(ParseError::UnsupportedMessageType)
    ));
    assert!(matches!(
        carbonbot::markets::fetch_markets("bybit", MarketType::Spot, &response()),
        Err(ParseError::UnsupportedMessageType)
    ));
}
