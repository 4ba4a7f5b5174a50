use carbonbot::crawler::{
    binance, deribit, kucoin, no_symbols, plan_for, Client, CrawlPlan, Feed,
};
use carbonbot::message::{MarketType, MessageType, ParseError};

const ALL: [MarketType; 12] = [
    MarketType::Unknown,
    MarketType::Spot,
    MarketType::LinearFuture,
    MarketType::InverseFuture,
    MarketType::LinearSwap,
    MarketType::InverseSwap,
    MarketType::AmericanOption,
    MarketType::EuropeanOption,
    MarketType::QuantoFuture,
    MarketType::QuantoSwap,
    MarketType::Move,
    MarketType::BVOL,
];

fn symbols(list: &[&str]) -> Vec<String> {
    list.iter().map(|p| p.to_string()).collect()
}

fn channels(plan: &CrawlPlan) -> Option<Vec<String>> {
    match &plan.feed {
        Feed::PerSymbol => None,
        Feed::Channels(list) => Some(list.clone()),
    }
}

fn refused(r: Result<CrawlPlan, ParseError>) -> bool {
    matches!(r, Err(ParseError::UnsupportedMessageType))
}

#[test]
fn kucoin_clients() {
    for m in ALL {
        let expected = match m {
            MarketType::Spot => Some(Client::KuCoinSpot),
            MarketType::InverseSwap | MarketType::LinearSwap | MarketType::InverseFuture => {
                Some(Client::KuCoinSwap)
            }
            _ => None,
        };
        for (r, msg_type) in [
            (kucoin::crawl_trade(m), MessageType::Trade),
            (kucoin::crawl_l2_event(m), MessageType::L2Event),
            (kucoin::crawl_l3_event(m), MessageType::L3Event),
            (kucoin::crawl_ticker(m), MessageType::Ticker),
        ] {
            match expected {
                Some(client) => {
                    let plan = r.unwrap();
                    assert_eq!(plan.client, client);
                    assert_eq!(plan.msg_type, msg_type);
                    assert_eq!(channels(&plan), None);
                    assert_eq!(plan.max_subscriptions, 300);
                }
                None => assert!(refused(r)),
            }
        }
    }
}

#[test]
fn binance_trade_plans() {
    let some = symbols(&["BTCUSDT"]);
    let none = symbols(&[]);
    for m in ALL {
        let expected = match m {
            MarketType::Spot => Some(Client::BinanceSpot),
            MarketType::InverseFuture | MarketType::InverseSwap => Some(Client::BinanceInverse),
            MarketType::LinearFuture | MarketType::LinearSwap => Some(Client::BinanceLinear),
            MarketType::EuropeanOption => Some(Client::BinanceOption),
            _ => None,
        };
        for given in [Some(&some), Some(&none), None] {
            let r = binance::crawl_trade(m, given);
            match expected {
                Some(client) => {
                    let plan = r.unwrap();
                    assert_eq!(plan.client, client);
                    assert_eq!(plan.msg_type, MessageType::Trade);
                    assert_eq!(plan.max_subscriptions, 200);
                    if m == MarketType::EuropeanOption && no_symbols(given) {
                        assert_eq!(
                            channels(&plan),
                            Some(symbols(&["BTCUSDT_C@TRADE_ALL", "BTCUSDT_P@TRADE_ALL"]))
                        );
                    } else {
                        assert_eq!(channels(&plan), None);
                    }
                }
                None => assert!(refused(r)),
            }
        }
        let r = binance::crawl_l2_event(m);
        match expected {
            Some(client) => {
                let plan = r.unwrap();
                assert_eq!(plan.client, client);
                assert_eq!(plan.msg_type, MessageType::L2Event);
                assert_eq!(channels(&plan), None);
            }
            None => assert!(refused(r)),
        }
    }
}

#[test]
fn binance_ticker_plans() {
    let some = symbols(&["BTCUSDT"]);
    for m in ALL {
        let expected = match m {
            MarketType::Spot => Some(Client::BinanceSpot),
            MarketType::InverseFuture | MarketType::InverseSwap => Some(Client::BinanceInverse),
            MarketType::LinearFuture | MarketType::LinearSwap => Some(Client::BinanceLinear),
            _ => None,
        };
        match expected {
            Some(client) => {
                let all = binance::crawl_ticker(m, None).unwrap();
                assert_eq!(all.client, client);
                assert_eq!(all.msg_type, MessageType::Ticker);
                assert_eq!(channels(&all), Some(symbols(&["!ticker@arr"])));
                let each = binance::crawl_ticker(m, Some(&some)).unwrap();
                assert_eq!(each.client, client);
                assert_eq!(channels(&each), None);
            }
            None => {
                assert!(refused(binance::crawl_ticker(m, None)));
                assert!(refused(binance::crawl_ticker(m, Some(&some))));
            }
        }
    }
}

#[test]
fn binance_funding_rate_plans() {
    let some = symbols(&["BTCUSDT", "ethusd_perp", "ÄB"]);
    let none = symbols(&[]);
    for m in ALL {
        let expected = match m {
            MarketType::InverseSwap => Some(Client::BinanceInverse),
            MarketType::LinearSwap => Some(Client::BinanceLinear),
            _ => None,
        };
        match expected {
            Some(client) => {
                for given in [None, Some(&none)] {
                    let all = binance::crawl_funding_rate(m, given).unwrap();
                    assert_eq!(all.client, client);
                    assert_eq!(all.msg_type, MessageType::FundingRate);
                    assert_eq!(channels(&all), Some(symbols(&["!markPrice@arr"])));
                }
                let each = binance::crawl_funding_rate(m, Some(&some)).unwrap();
                assert_eq!(each.client, client);
                assert_eq!(
                    channels(&each),
                    Some(symbols(&["btcusdt@markPrice", "ethusd_perp@markPrice", "äb@markPrice"]))
                );
            }
            None => assert!(refused(binance::crawl_funding_rate(m, Some(&some)))),
        }
    }
    assert_eq!(binance::mark_price_channel("btcusdt"), "btcusdt@markPrice");
}

#[test]
fn deribit_trade_plans() {
    let some = symbols(&["BTC-PERPETUAL"]);
    for m in ALL {
        let with = deribit::crawl_trade(m, Some(&some)).unwrap();
        assert_eq!(with.client, Client::Deribit);
        assert_eq!(with.msg_type, MessageType::Trade);
        assert_eq!(channels(&with), None);
        assert_eq!(with.max_subscriptions, usize::MAX);
        let expected = match m {
            MarketType::InverseFuture => Some(symbols(&["trades.future.any.raw"])),
            MarketType::InverseSwap => {
                Some(symbols(&["trades.BTC-PERPETUAL.raw", "trades.ETH-PERPETUAL.raw"]))
            }
            MarketType::EuropeanOption => Some(symbols(&["trades.option.any.raw"])),
            _ => None,
        };
        let r = deribit::crawl_trade(m, None);
        match expected {
            Some(list) => {
                let plan = r.unwrap();
                assert_eq!(plan.client, Client::Deribit);
                assert_eq!(channels(&plan), Some(list));
            }
            None => assert!(refused(r)),
        }
    }
}

#[test]
fn plans_by_exchange_and_message_type() {
    const TYPES: [MessageType; 7] = [
        MessageType::Trade,
        MessageType::L2Event,
        MessageType::L2Snapshot,
        MessageType::L3Event,
        MessageType::L3Snapshot,
        MessageType::Ticker,
        MessageType::FundingRate,
    ];
    let some = symbols(&["BTCUSDT"]);
    for t in TYPES {
        let kucoin = matches!(
            t,
            MessageType::Trade | MessageType::L2Event | MessageType::L3Event | MessageType::Ticker
        );
        let binance = matches!(
            t,
            MessageType::Trade
                | MessageType::L2Event
                | MessageType::Ticker
                | MessageType::FundingRate
        );
        let deribit = matches!(t, MessageType::Trade);
        for m in ALL {
            assert_eq!(plan_for("kucoin", m, t, None).is_some(), kucoin);
            assert_eq!(plan_for("binance", m, t, Some(&some)).is_some(), binance);
            assert_eq!(plan_for("deribit", m, t, None).is_some(), deribit);
            assert!(plan_for("huobi", m, t, None).is_none());
            assert!(plan_for("", m, t, None).is_none());
            assert!(plan_for("Binance", m, t, None).is_none());
        }
    }
    let plan = plan_for("kucoin", MarketType::Spot, MessageType::L3Event, None).unwrap().unwrap();
    assert_eq!(plan.client, Client::KuCoinSpot);
    assert_eq!(plan.msg_type, MessageType::L3Event);
    assert!(refused(plan_for("kucoin", MarketType::Move, MessageType::Trade, None).unwrap()));
    let plan =
        plan_for("binance", MarketType::LinearSwap, MessageType::FundingRate, Some(&some))
            .unwrap()
            .unwrap();
    assert_eq!(plan.client, Client::BinanceLinear);
    assert_eq!(channels(&plan), Some(symbols(&["btcusdt@markPrice"])));
    let plan = plan_for("binance", MarketType::Spot, MessageType::Ticker, None).unwrap().unwrap();
    assert_eq!(channels(&plan), Some(symbols(&["!ticker@arr"])));
    let plan = plan_for("binance", MarketType::Spot, MessageType::Ticker, Some(&some))
        .unwrap()
        .unwrap();
    assert_eq!(channels(&plan), None);
    let plan =
        plan_for("deribit", MarketType::InverseFuture, MessageType::Trade, None).unwrap().unwrap();
    assert_eq!(channels(&plan), Some(symbols(&["trades.future.any.raw"])));
    assert!(refused(plan_for("deribit", MarketType::Spot, MessageType::Trade, None).unwrap()));
}
