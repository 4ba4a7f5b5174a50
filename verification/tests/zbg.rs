use carbonbot::decimal::Decimal;
use carbonbot::exchanges::zbg;
use carbonbot::message::{MarketType, MessageType, ParseError, TradeSide};

fn value(d: Decimal) -> f64 {
    d.mantissa as f64 / 10f64.powi(d.scale as i32)
}

fn decoded(text: &str) -> serde_json::Value {
    serde_json::from_str(text).unwrap()
}

fn pair(p: &str) -> Result<String, ParseError> {
    Ok(p.to_string())
}

#[test]
fn zbg_single_trade() {
    let raw = "[\"T\",\"329\",\"1616384937\",\"BTC_USDT\",\"bid\",\"57347.4\",\"0.048800\"]";
    let trades = zbg::parse_trade(raw).unwrap();
    assert_eq!(trades.len(), 1);
    let t = &trades[0];
    assert_eq!(t.exchange, "zbg");
    assert_eq!(t.market_type, MarketType::Spot);
    assert_eq!(t.msg_type, MessageType::Trade);
    assert_eq!(t.symbol, "BTC_USDT");
    assert_eq!(t.pair, "BTC/USDT");
    assert_eq!(t.timestamp, 1616384937000);
    assert_eq!(t.price, Decimal { mantissa: 573474, scale: 1 });
    assert_eq!(t.quantity_base, Decimal { mantissa: 48800, scale: 6 });
    assert_eq!(t.quantity_quote, Decimal { mantissa: 573474 * 48800, scale: 7 });
    assert!((value(t.quantity_quote) - 57347.4 * 0.0488).abs() < 1e-9);
    assert_eq!(t.quantity_contract, None);
    assert_eq!(t.side, TradeSide::Buy);
    assert_eq!(t.trade_id, "1616384937000");
    assert_eq!(t.raw, decoded(raw));
}

#[test]
fn zbg_trade_batch() {
    let raw = r#"[["T","329","1616384937","BTC_USDT","ask","57347.4","0.04"],["T","330","1616384938","eth_usdt","bid","1700","2"],["T","331","1616384939","BTC_USDT","ASK","57000","1"]]"#;
    let trades = zbg::parse_trade(raw).unwrap();
    assert_eq!(trades.len(), 3);
    assert_eq!(trades[0].side, TradeSide::Sell);
    assert_eq!(trades[1].side, TradeSide::Buy);
    // only the exact token sells
    assert_eq!(trades[2].side, TradeSide::Buy);
    assert_eq!(trades[1].symbol, "eth_usdt");
    assert_eq!(trades[1].pair, "ETH/USDT");
    assert_eq!(trades[1].timestamp, 1616384938000);
    assert_eq!(trades[1].quantity_quote, Decimal { mantissa: 3400, scale: 0 });
    assert_eq!(
        trades[1].raw,
        decoded(r#"["T","330","1616384938","eth_usdt","bid","1700","2"]"#)
    );
    for t in trades.iter() {
        assert_eq!(t.quantity_quote, t.price.times(&t.quantity_base));
    }
}

#[test]
fn zbg_empty_trade_batch() {
    // the prefix of a batch needs a first row; an empty array has neither shape
    assert!(matches!(zbg::parse_trade("[]"), Err(ParseError::MalformedPayload)));
    let doc = decoded("[]");
    let trades = zbg::trades_from("[[\"T\",", &doc).unwrap();
    assert!(trades.is_empty());
}

#[test]
fn zbg_truncated_trade_is_malformed() {
    let r = zbg::parse_trade("[\"T\",\"329\",\"1616384937\",\"BTC_USDT\"");
    assert!(matches!(r, Err(ParseError::MalformedPayload)));
}

#[test]
fn zbg_malformed_trades() {
    for raw in [
        // neither trade shape
        r#"{"T":1}"#,
        r#"["E","329","1616384937","BTC_USDT","bid","57347.4","0.048800"]"#,
        // too short
        r#"["T","329","1616384937","BTC_USDT","bid","57347.4"]"#,
        // a number where a string belongs
        r#"["T","329",1616384937,"BTC_USDT","bid","57347.4","0.048800"]"#,
        // seconds that are no integer
        r#"["T","329","16163849.37","BTC_USDT","bid","57347.4","0.048800"]"#,
        // seconds beyond what milliseconds can hold
        r#"["T","329","9223372036854775807","BTC_USDT","bid","57347.4","0.048800"]"#,
        // a price that is no number
        r#"["T","329","1616384937","BTC_USDT","bid","","0.048800"]"#,
        r#"["T","329","1616384937","BTC_USDT","bid","57347.4","NaN"]"#,
        // one bad row spoils the frame
        r#"[["T","329","1616384937","BTC_USDT","bid","57347.4","0.04"],["T","330"]]"#,
        r#"[["T","329","1616384937","BTC_USDT","bid","57347.4","0.04"],"T"]"#,
        r#"[["T","329","1616384937","BTC_USDT","bid","57347.4","0.04"],["X","3","1","BTC_USDT","bid","1","1"]]"#,
    ] {
        assert!(
            matches!(zbg::parse_trade(raw), Err(ParseError::MalformedPayload)),
            "{}",
            raw
        );
    }
}

#[test]
fn zbg_malformed_then_valid() {
    assert!(matches!(
        zbg::parse_trade("[\"T\",\"329\""),
        Err(ParseError::MalformedPayload)
    ));
    let raw = "[\"T\",\"329\",\"1616384937\",\"BTC_USDT\",\"ask\",\"57347.4\",\"0.048800\"]";
    let first = zbg::parse_trade(raw).unwrap();
    assert!(zbg::parse_trade("nonsense").is_err());
    let second = zbg::parse_trade(raw).unwrap();
    assert_eq!(first.len(), 1);
    assert_eq!(second.len(), 1);
    assert_eq!(first[0].price, second[0].price);
    assert_eq!(first[0].pair, second[0].pair);
    assert_eq!(first[0].side, TradeSide::Sell);
}

#[test]
fn zbg_trade_from_cells() {
    let cells = vec!["T", "1", "-2", "a_b", "ask", "1e-3", "-4"];
    let t = zbg::trade_from_cells(&cells, pair("A/B"), serde_json::Value::Null).unwrap();
    assert_eq!(t.timestamp, -2000);
    assert_eq!(t.trade_id, "-2000");
    assert_eq!(t.symbol, "a_b");
    assert_eq!(t.pair, "A/B");
    assert_eq!(t.side, TradeSide::Sell);
    assert_eq!(t.price, Decimal { mantissa: 1, scale: 3 });
    assert_eq!(t.quantity_base, Decimal { mantissa: -4, scale: 0 });
    assert_eq!(t.quantity_quote, Decimal { mantissa: -4, scale: 3 });
    assert_eq!(t.raw, serde_json::Value::Null);
    // the shape is judged before the pair
    let short = vec!["T", "1", "2", "a_b"];
    assert!(matches!(
        zbg::trade_from_cells(&short, Err(ParseError::UnrecognizedSymbol), serde_json::Value::Null),
        Err(ParseError::MalformedPayload)
    ));
    assert!(matches!(
        zbg::trade_from_cells(&cells, Err(ParseError::UnrecognizedSymbol), serde_json::Value::Null),
        Err(ParseError::UnrecognizedSymbol)
    ));
}

const SNAPSHOT: &str = r#"[["AE","329","BTC_USDT","1616384937",{"asks":[["57350.1","0.5"],["57347.4","0.0488"],["57350.1","0.25"],[57348.0,1.5]]},{"bids":[["57346","1"],["57347","2"],["57340.5","0.1"]]}]]"#;

#[test]
fn zbg_snapshot_is_detected_and_asks_ascend() {
    let books = zbg::parse_l2(SNAPSHOT).unwrap();
    assert_eq!(books.len(), 1);
    let b = &books[0];
    assert!(b.snapshot);
    assert_eq!(b.exchange, "zbg");
    assert_eq!(b.market_type, MarketType::Spot);
    assert_eq!(b.msg_type, MessageType::L2Event);
    assert_eq!(b.symbol, "BTC_USDT");
    assert_eq!(b.pair, "BTC/USDT");
    assert_eq!(b.timestamp, 1616384937000);
    let asks: Vec<(f64, f64)> =
        b.asks.iter().map(|o| (value(o.price), value(o.quantity_base))).collect();
    // ascending by price; equal prices keep their wire order
    assert_eq!(asks, vec![(57347.4, 0.0488), (57348.0, 1.5), (57350.1, 0.5), (57350.1, 0.25)]);
    for w in b.asks.windows(2) {
        assert!(w[0].price.le(&w[1].price));
    }
    // bids stay in wire order
    let bids: Vec<f64> = b.bids.iter().map(|o| value(o.price)).collect();
    assert_eq!(bids, vec![57346.0, 57347.0, 57340.5]);
    for o in b.asks.iter().chain(b.bids.iter()) {
        assert_eq!(o.quantity_quote, o.price.times(&o.quantity_base));
        assert_eq!(o.quantity_contract, None);
    }
    assert_eq!(b.raw, decoded(SNAPSHOT)[0]);
}

#[test]
fn zbg_delta_is_detected() {
    let raw = r#"["E","329","1616384937","BTC_USDT","BID","57347.4","0.048800"]"#;
    let books = zbg::parse_l2(raw).unwrap();
    assert_eq!(books.len(), 1);
    let b = &books[0];
    assert!(!b.snapshot);
    assert_eq!(b.symbol, "BTC_USDT");
    assert_eq!(b.pair, "BTC/USDT");
    assert_eq!(b.timestamp, 1616384937000);
    assert!(b.asks.is_empty());
    assert_eq!(b.bids.len(), 1);
    assert_eq!(b.bids[0].price, Decimal { mantissa: 573474, scale: 1 });
    assert_eq!(b.bids[0].quantity_base, Decimal { mantissa: 48800, scale: 6 });
    assert_eq!(b.bids[0].quantity_quote, Decimal { mantissa: 573474 * 48800, scale: 7 });
    assert_eq!(b.raw, decoded(raw));
}

#[test]
fn zbg_delta_sides() {
    for (token, on_bids) in [("BID", true), ("ASK", false), ("bid", false), ("", false)] {
        let cells = vec!["E", "329", "1616384937", "BTC_USDT", token, "1", "0"];
        let b = zbg::delta_from_cells(&cells, pair("BTC/USDT"), serde_json::Value::Null).unwrap();
        assert_eq!(b.bids.len(), if on_bids { 1 } else { 0 }, "{:?}", token);
        assert_eq!(b.asks.len(), if on_bids { 0 } else { 1 }, "{:?}", token);
        assert!(!b.snapshot);
    }
}

#[test]
fn zbg_malformed_books() {
    for raw in [
        r#"[["AE","329","BTC_USDT","1616384937",{"asks":[]}]]"#,
        r#"[["AE","329","BTC_USDT","1616384937",{"asks":[["1"]]},{"bids":[]}]]"#,
        r#"[["AE","329","BTC_USDT","1616384937",{"asks":[["1","2","3"]]},{"bids":[]}]]"#,
        r#"[["AE","329","BTC_USDT","1616384937",{"asks":[["1","x"]]},{"bids":[]}]]"#,
        r#"[["AE","329","BTC_USDT","1616384937",{"bids":[]},{"asks":[]}]]"#,
        r#"[["AE","329","BTC_USDT","soon",{"asks":[]},{"bids":[]}]]"#,
        r#"[["AE","329",7,"1616384937",{"asks":[]},{"bids":[]}]]"#,
        r#"[["AE","329","BTC_USDT","1616384937",{"asks":[]},{"bids":[]}"#,
        r#"["E","329","1616384937","BTC_USDT","BID","57347.4"]"#,
        r#"["E","329","1616384937","BTC_USDT","BID","57347.4",0.5]"#,
        r#"{"E":1}"#,
        "",
    ] {
        assert!(
            matches!(zbg::parse_l2(raw), Err(ParseError::MalformedPayload)),
            "{}",
            raw
        );
    }
}

#[test]
fn zbg_snapshot_row_with_given_pair() {
    let row = decoded(r#"["AE","329","BTC_USDT","1616384937",{"asks":[[2,1],[1,1]]},{"bids":[]}]"#);
    let b = zbg::snapshot_from_row(&row, pair("BTC/USDT")).unwrap();
    assert!(b.snapshot);
    assert_eq!(b.asks.len(), 2);
    assert_eq!(b.asks[0].price, Decimal { mantissa: 1, scale: 0 });
    assert_eq!(b.asks[1].price, Decimal { mantissa: 2, scale: 0 });
    assert!(b.bids.is_empty());
    assert!(matches!(
        zbg::snapshot_from_row(&row, Err(ParseError::UnrecognizedSymbol)),
        Err(ParseError::UnrecognizedSymbol)
    ));
}
