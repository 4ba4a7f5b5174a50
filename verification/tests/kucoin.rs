use carbonbot::decimal::Decimal;
use carbonbot::exchanges::kucoin;
use carbonbot::message::{MarketType, MessageType, ParseError, TradeSide};

fn value(d: Decimal) -> f64 {
    d.mantissa as f64 / 10f64.powi(d.scale as i32)
}

fn decoded(text: &str) -> serde_json::Value {
    serde_json::from_str(text).unwrap()
}

const TRADE: &str = r#"{"data":{"symbol":"BTC-USDT","sequence":"1614503482134","side":"sell","size":"0.00013064","price":"57659.6","takerOrderId":"605716eb4e7bf5000646fa09","time":"1616319211718180110","type":"match","makerOrderId":"605716e3ab5d4c0006a4cb0e","tradeId":"605716eb2e113d2923198c55"},"subject":"trade.l3match","topic":"/market/match:BTC-USDT","type":"message"}"#;

#[test]
fn kucoin_trade() {
    let trades = kucoin::parse_trade(TRADE).unwrap();
    assert_eq!(trades.len(), 1);
    let t = &trades[0];
    assert_eq!(t.exchange, "kucoin");
    assert_eq!(t.market_type, MarketType::Spot);
    assert_eq!(t.msg_type, MessageType::Trade);
    assert_eq!(t.symbol, "BTC-USDT");
    assert_eq!(t.pair, "BTC/USDT");
    assert_eq!(t.timestamp, 1616319211718);
    assert_eq!(t.side, TradeSide::Sell);
    assert_eq!(t.trade_id, "1614503482134");
    assert_eq!(t.price, Decimal { mantissa: 576596, scale: 1 });
    assert_eq!(t.quantity_base, Decimal { mantissa: 13064, scale: 8 });
    assert_eq!(t.quantity_quote, Decimal { mantissa: 576596 * 13064, scale: 9 });
    assert!((value(t.quantity_quote) - 57659.6 * 0.00013064).abs() < 1e-9);
    assert_eq!(t.quantity_contract, None);
    assert_eq!(t.raw, decoded(TRADE)["data"]);
}

#[test]
fn kucoin_trade_sides() {
    for (token, side) in [
        ("sell", TradeSide::Sell),
        ("buy", TradeSide::Buy),
        ("SELL", TradeSide::Buy),
        ("ask", TradeSide::Buy),
        ("", TradeSide::Buy),
    ] {
        let text = format!(
            r#"{{"data":{{"symbol":"BTC-USDT","sequence":"1","side":"{}","size":"1","price":"2","time":"3000000"}},"subject":"s","topic":"t","type":"message"}}"#,
            token
        );
        let trades = kucoin::parse_trade(&text).unwrap();
        assert_eq!(trades[0].side, side, "{:?}", token);
        assert_eq!(trades[0].timestamp, 3);
    }
}

#[test]
fn kucoin_trade_time_is_cut_toward_zero() {
    for (time, millis) in [
        ("0", 0i64),
        ("999999", 0),
        ("1000000", 1),
        ("1999999", 1),
        ("-1", 0),
        ("-999999", 0),
        ("-1000000", -1),
        ("-1999999", -1),
        ("9223372036854775807", 9223372036854),
        ("-9223372036854775808", -9223372036854),
    ] {
        let text = format!(
            r#"{{"data":{{"symbol":"BTC-USDT","sequence":"1","side":"buy","size":"1","price":"2","time":"{}"}},"subject":"s","topic":"t","type":"message"}}"#,
            time
        );
        let doc = decoded(&text);
        let t = kucoin::trade_from(&doc, Ok("BTC/USDT".to_string())).unwrap();
        assert_eq!(t.timestamp, millis, "{}", time);
    }
}

#[test]
fn kucoin_trade_errors() {
    // truncated
    assert!(matches!(
        kucoin::parse_trade(&TRADE[..40]),
        Err(ParseError::MalformedPayload)
    ));
    // a header text is missing
    assert!(matches!(
        kucoin::parse_trade(
            r#"{"data":{"symbol":"BTC-USDT","sequence":"1","side":"buy","size":"1","price":"2","time":"3"},"topic":"t","type":"message"}"#
        ),
        Err(ParseError::MalformedPayload)
    ));
    // the size is no number
    assert!(matches!(
        kucoin::parse_trade(
            r#"{"data":{"symbol":"BTC-USDT","sequence":"1","side":"buy","size":"much","price":"2","time":"3"},"subject":"s","topic":"t","type":"message"}"#
        ),
        Err(ParseError::MalformedPayload)
    ));
    // a symbol outside the grammar
    assert!(matches!(
        kucoin::parse_trade(
            r#"{"data":{"symbol":"BTCUSDT","sequence":"1","side":"buy","size":"1","price":"2","time":"3"},"subject":"s","topic":"t","type":"message"}"#
        ),
        Err(ParseError::UnrecognizedSymbol)
    ));
    // valid frames still read after the failures
    assert_eq!(kucoin::parse_trade(TRADE).unwrap().len(), 1);
}

const L2: &str = r#"{"data":{"sequenceStart":1617071937790,"symbol":"BTC-USDT","changes":{"asks":[["50000","0.1","1"]],"bids":[]},"sequenceEnd":1617071937790},"subject":"trade.l2update","topic":"/market/level2:BTC-USDT","type":"message"}"#;

#[test]
fn kucoin_l2_update_end_to_end() {
    let received_at = 1617071937999;
    let books = kucoin::parse_l2(L2, received_at).unwrap();
    assert_eq!(books.len(), 1);
    let b = &books[0];
    assert!(!b.snapshot);
    assert_eq!(b.exchange, "kucoin");
    assert_eq!(b.market_type, MarketType::Spot);
    assert_eq!(b.msg_type, MessageType::L2Event);
    assert_eq!(b.symbol, "BTC-USDT");
    assert_eq!(b.pair, "BTC/USDT");
    assert_eq!(b.timestamp, received_at);
    assert_eq!(b.asks.len(), 1);
    assert_eq!(value(b.asks[0].price), 50000.0);
    assert_eq!(value(b.asks[0].quantity_base), 0.1);
    assert_eq!(b.asks[0].price, Decimal { mantissa: 50000, scale: 0 });
    assert_eq!(b.asks[0].quantity_base, Decimal { mantissa: 1, scale: 1 });
    assert_eq!(b.asks[0].quantity_quote, Decimal { mantissa: 50000, scale: 1 });
    assert_eq!(b.asks[0].quantity_contract, None);
    assert!(b.bids.is_empty());
    assert_eq!(b.raw, decoded(L2));
}

#[test]
fn kucoin_l2_at_a_given_time() {
    let doc = decoded(
        r#"{"data":{"symbol":"ETH-USDT","changes":{"asks":[["3","1","10"],["2","0","11"]],"bids":[["1.5","4","12"]]}},"subject":"trade.l2update","topic":"t","type":"message"}"#,
    );
    let books = kucoin::books_from(&doc, 1234).unwrap();
    assert_eq!(books.len(), 1);
    assert_eq!(books[0].timestamp, 1234);
    assert_eq!(books[0].pair, "ETH/USDT");
    // wire order is kept
    assert_eq!(books[0].asks[0].price, Decimal { mantissa: 3, scale: 0 });
    assert_eq!(books[0].asks[1].price, Decimal { mantissa: 2, scale: 0 });
    assert_eq!(books[0].asks[1].quantity_base.mantissa, 0);
    assert_eq!(books[0].bids[0].quantity_quote, Decimal { mantissa: 60, scale: 1 });
}

#[test]
fn kucoin_l2_errors() {
    // another subject
    let other = L2.replace("trade.l2update", "trade.l3match");
    assert!(matches!(kucoin::parse_l2(&other, 7), Err(ParseError::MalformedPayload)));
    // levels of two values
    let narrow = L2.replace(r#"["50000","0.1","1"]"#, r#"["50000","0.1"]"#);
    assert!(matches!(kucoin::parse_l2(&narrow, 7), Err(ParseError::MalformedPayload)));
    // no changes
    assert!(matches!(
        kucoin::parse_l2(
            r#"{"data":{"symbol":"BTC-USDT"},"subject":"trade.l2update","topic":"t","type":"message"}"#,
            7
        ),
        Err(ParseError::MalformedPayload)
    ));
    assert!(matches!(kucoin::parse_l2("{", 7), Err(ParseError::MalformedPayload)));
    let unknown = L2.replace("\"symbol\":\"BTC-USDT\"", "\"symbol\":\"BTCUSDT\"");
    assert!(matches!(kucoin::parse_l2(&unknown, 7), Err(ParseError::UnrecognizedSymbol)));
    assert_eq!(kucoin::parse_l2(L2, 7).unwrap().len(), 1);
}

#[test]
fn kucoin_pair_of_frame() {
    assert_eq!(kucoin::pair_of_frame(&decoded(L2)), Ok("BTC/USDT".to_string()));
    assert_eq!(
        kucoin::pair_of_frame(&decoded(r#"{"data":{},"subject":"s","topic":"t","type":"m"}"#)),
        Err(ParseError::MalformedPayload)
    );
}

#[test]
fn kucoin_l2_carries_the_time_it_is_given() {
    for received_at in [0i64, -1, 1617071937999, i64::MAX, i64::MIN] {
        let books = kucoin::parse_l2(L2, received_at).unwrap();
        assert_eq!(books[0].timestamp, received_at);
    }
}
