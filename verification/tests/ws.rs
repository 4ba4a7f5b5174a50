use carbonbot::message::ParseError;
use carbonbot::ws::bybit_linear_swap::{
    candlestick_channel_of, code_of_interval, to_candlestick_raw_channel, to_raw_channel,
    BybitLinearSwapWSClient,
};

fn pairs(list: &[&str]) -> Vec<String> {
    list.iter().map(|p| p.to_string()).collect()
}

#[test]
fn candlestick_channels_by_interval() {
    for (interval, code) in [
        (60u32, "1"),
        (180, "3"),
        (300, "5"),
        (900, "15"),
        (1800, "30"),
        (3600, "60"),
        (7200, "120"),
        (14400, "240"),
        (21600, "360"),
        (86400, "D"),
        (604800, "W"),
        (2592000, "M"),
    ] {
        assert_eq!(code_of_interval(interval), Some(code));
        assert_eq!(
            to_candlestick_raw_channel("BTCUSDT", interval),
            format!("candle.{}.BTCUSDT", code)
        );
        assert_eq!(
            candlestick_channel_of("BTCUSDT", interval),
            Some(format!("candle.{}.BTCUSDT", code))
        );
    }
}

#[test]
fn candlestick_intervals_that_are_not_offered() {
    for interval in [0u32, 1, 59, 61, 120, 600, 43200, 86401, u32::MAX] {
        assert_eq!(code_of_interval(interval), None);
        assert_eq!(candlestick_channel_of("BTCUSDT", interval), None);
    }
}

#[test]
fn raw_channels() {
    assert_eq!(to_raw_channel("trade", "BTCUSDT"), "trade.BTCUSDT");
    assert_eq!(to_raw_channel("instrument_info.100ms", "ETHUSDT"), "instrument_info.100ms.ETHUSDT");
    assert_eq!(to_raw_channel("", ""), ".");
}

#[test]
fn client_records_what_it_follows() {
    let mut client = BybitLinearSwapWSClient::new();
    assert!(client.channels().is_empty());
    assert_eq!(
        client.subscribe_trade(&pairs(&["BTCUSDT", "ETHUSDT"])),
        pairs(&["trade.BTCUSDT", "trade.ETHUSDT"])
    );
    assert_eq!(client.subscribe_bbo(&pairs(&["BTCUSDT"])), pairs(&["orderBookL2_25.BTCUSDT"]));
    assert_eq!(
        client.subscribe_orderbook(&pairs(&["ETHUSDT"])),
        pairs(&["orderBookL2_25.ETHUSDT"])
    );
    assert_eq!(
        client.subscribe_ticker(&pairs(&["BTCUSDT"])),
        pairs(&["instrument_info.100ms.BTCUSDT"])
    );
    assert_eq!(
        client.subscribe_candlestick(&pairs(&["BTCUSDT", "ETHUSDT"]), 3600),
        Ok(pairs(&["candle.60.BTCUSDT", "candle.60.ETHUSDT"]))
    );
    assert_eq!(client.subscribe_trade(&pairs(&[])), pairs(&[]));
    assert_eq!(
        client.channels(),
        &pairs(&[
            "trade.BTCUSDT",
            "trade.ETHUSDT",
            "orderBookL2_25.BTCUSDT",
            "orderBookL2_25.ETHUSDT",
            "instrument_info.100ms.BTCUSDT",
            "candle.60.BTCUSDT",
            "candle.60.ETHUSDT",
        ])
    );
}

#[test]
fn client_refusals_change_nothing() {
    let mut client = BybitLinearSwapWSClient::new();
    client.subscribe_trade(&pairs(&["BTCUSDT"]));
    assert_eq!(
        client.subscribe_candlestick(&pairs(&["BTCUSDT"]), 61),
        Err(ParseError::UnsupportedMessageType)
    );
    assert_eq!(
        client.subscribe_orderbook_snapshot(&pairs(&["BTCUSDT"])),
        Err(ParseError::UnsupportedMessageType)
    );
    assert_eq!(client.channels(), &pairs(&["trade.BTCUSDT"]));
}
