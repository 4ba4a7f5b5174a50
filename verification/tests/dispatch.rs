use carbonbot::dispatch::{
    channel_name, check_config, file_name, file_path, output_directory, writer_key, ConfigError,
    Dispatcher, Records,
};
use carbonbot::message::{MarketType, MessageType, ParseError, RawFrame};
use carbonbot::pair::huobi_quotes;

fn frame(exchange: &str, msg_type: MessageType, json: &str) -> RawFrame {
    RawFrame::new(exchange.to_string(), MarketType::Spot, msg_type, 1616384937123, json.to_string())
}

#[test]
fn names_of_a_stream() {
    assert_eq!(
        writer_key(MessageType::Trade, "huobi", MarketType::Spot),
        "trade-huobi-spot"
    );
    assert_eq!(
        output_directory("/data", MessageType::L2Event, "kucoin", MarketType::LinearSwap),
        "/data/l2_event/kucoin/linear_swap"
    );
    assert_eq!(
        file_name("kucoin", MarketType::LinearSwap, MessageType::L2Event),
        "kucoin.linear_swap.l2_event"
    );
    assert_eq!(
        file_path("/data", MessageType::FundingRate, "binance", MarketType::InverseSwap),
        "/data/funding_rate/binance/inverse_swap/binance.inverse_swap.funding_rate"
    );
    assert_eq!(channel_name("carbonbot", MessageType::Trade), "carbonbot:trade");
    assert_eq!(channel_name("carbonbot", MessageType::L2Event), "carbonbot:l2_event");
    assert_eq!(channel_name("carbonbot", MessageType::FundingRate), "carbonbot:funding_rate");
    assert_eq!(channel_name("", MessageType::Ticker), ":ticker");
}

#[test]
fn a_stream_needs_a_sink() {
    assert_eq!(
        check_config("huobi", MarketType::Spot, MessageType::Trade, false, false, false),
        Err(ConfigError::NoSink)
    );
    assert_eq!(
        check_config("huobi", MarketType::Spot, MessageType::Trade, false, false, true),
        Err(ConfigError::NoSink)
    );
    for (dir, publishes) in [(true, false), (false, true), (true, true)] {
        assert_eq!(
            check_config("huobi", MarketType::Spot, MessageType::Trade, dir, publishes, true),
            Ok(())
        );
    }
    assert!(matches!(
        Dispatcher::new(
            "huobi",
            MarketType::Spot,
            MessageType::Trade,
            None,
            false,
            false,
            huobi_quotes()
        ),
        Err(ConfigError::NoSink)
    ));
}

#[test]
fn normalizing_needs_a_reader() {
    assert_eq!(
        check_config("huobi", MarketType::Spot, MessageType::Ticker, true, false, true),
        Err(ConfigError::NoReader)
    );
    assert_eq!(
        check_config("huobi", MarketType::LinearSwap, MessageType::Trade, true, false, true),
        Err(ConfigError::NoReader)
    );
    assert_eq!(
        check_config("binance", MarketType::Spot, MessageType::Trade, true, false, true),
        Err(ConfigError::NoReader)
    );
    // raw frames need none
    assert_eq!(
        check_config("binance", MarketType::Spot, MessageType::Ticker, true, false, false),
        Ok(())
    );
}

#[test]
fn file_is_opened_once() {
    let mut d = Dispatcher::new(
        "zbg",
        MarketType::Spot,
        MessageType::Trade,
        Some("/data".to_string()),
        false,
        false,
        huobi_quotes(),
    )
    .unwrap();
    let first = d.on_frame(&frame("zbg", MessageType::Trade, "anything"));
    let open = first.open.unwrap();
    assert_eq!(open.key, "trade-zbg-spot");
    assert_eq!(open.directory, "/data/trade/zbg/spot");
    assert_eq!(open.path, "/data/trade/zbg/spot/zbg.spot.trade");
    assert!(matches!(first.records, Ok(Records::Raw)));
    let second = d.on_frame(&frame("zbg", MessageType::Trade, "anything else"));
    assert!(second.open.is_none());
    assert!(matches!(second.records, Ok(Records::Raw)));
}

#[test]
fn no_file_without_a_data_directory() {
    let mut d =
        Dispatcher::new("zbg", MarketType::Spot, MessageType::Trade, None, true, false, vec![])
            .unwrap();
    assert!(d.on_frame(&frame("zbg", MessageType::Trade, "a")).open.is_none());
    assert!(d.on_frame(&frame("zbg", MessageType::Trade, "b")).open.is_none());
}

#[test]
fn frames_are_normalized_one_by_one() {
    let mut d = Dispatcher::new(
        "zbg",
        MarketType::Spot,
        MessageType::Trade,
        Some("/data".to_string()),
        true,
        true,
        huobi_quotes(),
    )
    .unwrap();
    let bad = d.on_frame(&frame("zbg", MessageType::Trade, "[\"T\",\"329\""));
    // the file is opened even though the first frame cannot be read
    assert!(bad.open.is_some());
    assert!(matches!(bad.records, Err(ParseError::MalformedPayload)));
    let good = d.on_frame(&frame(
        "zbg",
        MessageType::Trade,
        r#"["T","329","1616384937","BTC_USDT","ask","57347.4","0.0488"]"#,
    ));
    assert!(good.open.is_none());
    match good.records {
        Ok(Records::Trades(trades)) => {
            assert_eq!(trades.len(), 1);
            assert_eq!(trades[0].pair, "BTC/USDT");
        }
        _ => panic!("trades expected"),
    }

    let mut d = Dispatcher::new(
        "zbg",
        MarketType::Spot,
        MessageType::L2Event,
        None,
        true,
        true,
        huobi_quotes(),
    )
    .unwrap();
    let update = frame(
        "zbg",
        MessageType::L2Event,
        r#"["E","329","1616384937","BTC_USDT","BID","57347.4","0.0488"]"#,
    );
    match d.on_frame(&update).records {
        Ok(Records::Books(books)) => {
            assert_eq!(books.len(), 1);
            assert!(!books[0].snapshot);
        }
        _ => panic!("books expected"),
    }
}

#[test]
fn a_frame_is_read_by_its_own_tags() {
    let mut d =
        Dispatcher::new("zbg", MarketType::Spot, MessageType::Trade, None, true, true, vec![])
            .unwrap();
    // a frame tagged with an exchange that has no reader
    let stray = frame("okex", MessageType::Trade, "{}");
    assert!(matches!(d.on_frame(&stray).records, Err(ParseError::UnsupportedMessageType)));
    // a frame of another exchange is read by that exchange's reader
    let kucoin = frame(
        "kucoin",
        MessageType::Trade,
        r#"{"data":{"symbol":"BTC-USDT","sequence":"1","side":"buy","size":"0.5","price":"2","time":"3000000"},"subject":"trade.l3match","topic":"t","type":"message"}"#,
    );
    match d.on_frame(&kucoin).records {
        Ok(Records::Trades(trades)) => assert_eq!(trades[0].exchange, "kucoin"),
        _ => panic!("trades expected"),
    }
}

#[test]
fn raw_frames_keep_their_tags() {
    let f = RawFrame::new(
        "huobi".to_string(),
        MarketType::LinearSwap,
        MessageType::FundingRate,
        7,
        "{}".to_string(),
    );
    assert_eq!(f.exchange, "huobi");
    assert_eq!(f.market_type, MarketType::LinearSwap);
    assert_eq!(f.msg_type, MessageType::FundingRate);
    assert_eq!(f.received_at, 7);
    assert_eq!(f.json, "{}");
}

#[test]
fn huobi_frames_use_the_stream_table() {
    let text = r#"{"ch":"market.btcusdt.trade.detail","ts":1,"tick":{"id":1,"ts":1,"data":[{"ts":2,"tradeId":3,"amount":1,"price":2,"direction":"buy"}]}}"#;
    let mut d = Dispatcher::new(
        "huobi",
        MarketType::Spot,
        MessageType::Trade,
        None,
        true,
        true,
        huobi_quotes(),
    )
    .unwrap();
    match d.on_frame(&frame("huobi", MessageType::Trade, text)).records {
        Ok(Records::Trades(trades)) => assert_eq!(trades[0].pair, "BTC/USDT"),
        _ => panic!("trades expected"),
    }
    let mut d =
        Dispatcher::new("huobi", MarketType::Spot, MessageType::Trade, None, true, true, vec![])
            .unwrap();
    assert!(matches!(
        d.on_frame(&frame("huobi", MessageType::Trade, text)).records,
        Err(ParseError::UnrecognizedSymbol)
    ));
}

#[test]
fn kucoin_updates_are_stamped_with_the_time_of_receipt() {
    let mut d = Dispatcher::new(
        "kucoin",
        MarketType::Spot,
        MessageType::L2Event,
        None,
        true,
        true,
        vec![],
    )
    .unwrap();
    let update = RawFrame::new(
        "kucoin".to_string(),
        MarketType::Spot,
        MessageType::L2Event,
        1617071937999,
        r#"{"data":{"symbol":"BTC-USDT","changes":{"asks":[["50000","0.1","1"]],"bids":[]}},"subject":"trade.l2update","topic":"t","type":"message"}"#.to_string(),
    );
    match d.on_frame(&update).records {
        Ok(Records::Books(books)) => assert_eq!(books[0].timestamp, 1617071937999),
        _ => panic!("books expected"),
    }
}
