use carbonbot::message::ParseError;
use carbonbot::pair::{
    has_number_tail, huobi_quotes, is_accepted, normalize, normalize_fixed, normalize_spot,
    pair_from_answer,
};

fn ok(pair: &str) -> Result<String, ParseError> {
    Ok(pair.to_string())
}

const UNRECOGNIZED: Result<String, ParseError> = Err(ParseError::UnrecognizedSymbol);

#[test]
fn zbg_pairs() {
    assert_eq!(normalize("btc_usdt", "zbg", &huobi_quotes()), ok("BTC/USDT"));
    assert_eq!(normalize("BTC_USDT", "zbg", &huobi_quotes()), ok("BTC/USDT"));
    assert_eq!(normalize("BTC_USD-R", "zbg", &huobi_quotes()), ok("BTC/USD"));
}

#[test]
fn kucoin_pairs() {
    assert_eq!(normalize("BTC-USDT", "kucoin", &huobi_quotes()), ok("BTC/USDT"));
    assert_eq!(normalize("XBTUSDTM", "kucoin", &huobi_quotes()), ok("BTC/USDT"));
    assert_eq!(normalize("XBTUSDCM", "kucoin", &huobi_quotes()), ok("BTC/USDC"));
    assert_eq!(normalize("XBTUSDM", "kucoin", &huobi_quotes()), ok("BTC/USD"));
    assert_eq!(normalize("XBTMU21", "kucoin", &huobi_quotes()), ok("BTC/USD"));
    assert_eq!(normalize("ETH2-ETH", "kucoin", &huobi_quotes()), ok("KSETH/ETH"));
}

#[test]
fn kucoin_symbols_outside_the_grammar() {
    assert_eq!(normalize("BTCUSDT", "kucoin", &huobi_quotes()), UNRECOGNIZED);
    assert_eq!(normalize("", "kucoin", &huobi_quotes()), UNRECOGNIZED);
    assert_eq!(normalize("X", "kucoin", &huobi_quotes()), UNRECOGNIZED);
    assert_eq!(normalize("X1", "kucoin", &huobi_quotes()), UNRECOGNIZED);
    assert_eq!(normalize("A12", "kucoin", &huobi_quotes()), UNRECOGNIZED);
    assert_eq!(normalize("-1", "kucoin", &huobi_quotes()), UNRECOGNIZED);
    assert_eq!(normalize("ÀBTC€", "kucoin", &huobi_quotes()), UNRECOGNIZED);
    assert!(!is_accepted("BTCUSDT", "kucoin"));
    assert!(is_accepted("BTC-USDT", "kucoin"));
    assert!(is_accepted("€USDM", "kucoin"));
}

#[test]
fn bitget_pairs() {
    assert_eq!(normalize("cmt_btcusdt", "bitget", &huobi_quotes()), ok("BTC/USDT"));
    assert_eq!(normalize("btcusd", "bitget", &huobi_quotes()), ok("BTC/USD"));
    assert_eq!(normalize("btc_usdt", "bitget", &huobi_quotes()), ok("BTC/USDT"));
    assert_eq!(normalize("BTCUSDT_UMCBL", "bitget", &huobi_quotes()), ok("BTC/USDT"));
    assert_eq!(normalize("BTCUSD_DMCBL_221230", "bitget", &huobi_quotes()), ok("BTC/USD"));
    assert_eq!(normalize("BTCPERP_CMCBL", "bitget", &huobi_quotes()), ok("BTC/USDC"));
    assert_eq!(normalize("SBTCSUSDT_SPBL", "bitget", &huobi_quotes()), ok("SBTC/SUSDT"));
    assert_eq!(normalize("EOSUSDT_SPBL", "bitget", &huobi_quotes()), ok("EOS/USDT"));
}

#[test]
fn bitget_symbols_outside_the_grammar() {
    assert_eq!(normalize("cmt_btcusd", "bitget", &huobi_quotes()), UNRECOGNIZED);
    assert_eq!(normalize("cmt_", "bitget", &huobi_quotes()), UNRECOGNIZED);
    assert_eq!(normalize("XYZ_SPBL", "bitget", &huobi_quotes()), UNRECOGNIZED);
    assert_eq!(normalize("XYZ_UMCBL", "bitget", &huobi_quotes()), UNRECOGNIZED);
    // accepted, but the rules find no pair in it
    assert!(is_accepted("xyz", "bitget"));
    assert_eq!(normalize("xyz", "bitget", &huobi_quotes()), UNRECOGNIZED);
}

#[test]
fn huobi_spot_pairs() {
    let quotes = huobi_quotes();
    assert_eq!(quotes.len(), 18);
    assert_eq!(normalize("btcusdt", "huobi", &quotes), ok("BTC/USDT"));
    assert_eq!(normalize("mirust", "huobi", &quotes), ok("MIR/UST"));
    assert_eq!(normalize("btttrx", "huobi", &quotes), ok("BTT/TRX"));
    assert_eq!(normalize("etheuroc", "huobi", &quotes), ok("ETH/EUROC"));
    assert_eq!(normalize("etheur", "huobi", &quotes), ok("ETH/EUR"));
    assert_eq!(normalize("lunaustc", "huobi", &quotes), ok("LUNA/USTC"));
    assert_eq!(normalize("ethbtc", "huobi", &quotes), ok("ETH/BTC"));
    assert_eq!(normalize("htusdt", "huobi", &quotes), ok("HT/USDT"));
    // a quote alone leaves an empty base
    assert_eq!(normalize("usdt", "huobi", &quotes), ok("/USDT"));
    // no quote of the table
    assert_eq!(normalize("btcusd", "huobi", &quotes), UNRECOGNIZED);
    assert_eq!(normalize("BTCUSDT", "huobi", &quotes), UNRECOGNIZED);
    assert_eq!(normalize("", "huobi", &quotes), UNRECOGNIZED);
    assert_eq!(normalize("btcusdt", "huobi", &vec![]), UNRECOGNIZED);
    // spot symbols are not handed to the outside rules
    assert!(!is_accepted("btcusdt", "huobi"));
    assert_eq!(normalize_fixed("btcusdt", "huobi"), UNRECOGNIZED);
}

#[test]
fn spot_symbols_are_split_by_the_first_quote_that_fits() {
    let table = |list: &[&str]| list.iter().map(|q| q.to_string()).collect::<Vec<String>>();
    assert_eq!(normalize_spot("btcusdt", &table(&["usdt"])), ok("BTC/USDT"));
    assert_eq!(normalize_spot("btcusdt", &table(&["btc", "usdt", "t"])), ok("BTC/USDT"));
    // where one quote is the end of another, the earlier one wins
    assert_eq!(normalize_spot("btcusdt", &table(&["t", "usdt"])), ok("BTCUSD/T"));
    assert_eq!(normalize_spot("btcusdt", &table(&["usdt", "t"])), ok("BTC/USDT"));
    assert_eq!(normalize_spot("btcusdt", &table(&["usdt", "usdt"])), ok("BTC/USDT"));
    // a quote added by the caller
    assert_eq!(normalize_spot("btcusd", &table(&["usdt"])), UNRECOGNIZED);
    assert_eq!(normalize_spot("btcusd", &table(&["usdt", "usd"])), ok("BTC/USD"));
    // an empty quote fits every symbol
    assert_eq!(normalize_spot("btc", &table(&[""])), ok("BTC/"));
    // upper case is that of the whole character set
    assert_eq!(normalize_spot("straßeäb", &table(&["äb"])), ok("STRASSE/ÄB"));
    assert_eq!(normalize_spot("x", &table(&["xx"])), UNRECOGNIZED);
    assert_eq!(normalize_spot("", &table(&[])), UNRECOGNIZED);
    // the table of another exchange is of no account to fixed rules
    assert_eq!(normalize("BTC-USDT", "kucoin", &table(&["USDT"])), ok("BTC/USDT"));
    assert_eq!(normalize("BTC-USD", "huobi", &table(&[])), ok("BTC/USD"));
}

#[test]
fn huobi_contract_pairs() {
    assert_eq!(normalize_fixed("BTC-USD", "huobi"), ok("BTC/USD"));
    assert_eq!(normalize_fixed("BTC-USDT-210625-P-27000", "huobi"), ok("BTC/USDT"));
    assert_eq!(normalize("btc-usdt-210625-C-27000", "huobi", &vec![]), ok("BTC/USDT"));
    assert!(is_accepted("BTC_CW", "huobi"));
    assert!(is_accepted("x-C-", "huobi"));
    assert_eq!(normalize("BTC-USD", "huobi", &huobi_quotes()), ok("BTC/USD"));
    assert_eq!(normalize("BTC-USDT", "huobi", &huobi_quotes()), ok("BTC/USDT"));
    assert_eq!(normalize("BTC_CQ", "huobi", &huobi_quotes()), ok("BTC/USD"));
    assert_eq!(normalize("ETH_NW", "huobi", &huobi_quotes()), ok("ETH/USD"));
}

#[test]
fn unknown_exchange_is_refused() {
    assert!(!is_accepted("BTC-USDT", "nowhere"));
    assert_eq!(normalize("BTC-USDT", "nowhere", &huobi_quotes()), UNRECOGNIZED);
    assert_eq!(normalize("BTC-USDT", "", &huobi_quotes()), UNRECOGNIZED);
    assert_eq!(normalize("BTC-USDT", "KuCoin", &huobi_quotes()), UNRECOGNIZED);
}

#[test]
fn normalizing_twice_gives_the_same_pair() {
    for (symbol, exchange) in [
        ("btc_usdt", "zbg"),
        ("BTC-USDT", "kucoin"),
        ("XBTUSDTM", "kucoin"),
        ("cmt_btcusdt", "bitget"),
        ("BTC-USD", "huobi"),
        ("btcusdt", "huobi"),
        ("nothing", "huobi"),
        ("BTCUSDT", "kucoin"),
    ] {
        assert_eq!(
            normalize(symbol, exchange, &huobi_quotes()),
            normalize(symbol, exchange, &huobi_quotes())
        );
    }
}

#[test]
fn answers_become_outcomes() {
    assert_eq!(pair_from_answer(Some("BTC/USDT".to_string())), ok("BTC/USDT"));
    assert_eq!(pair_from_answer(None), UNRECOGNIZED);
}

#[test]
fn number_tails() {
    let chars = |t: &str| t.chars().collect::<Vec<char>>();
    assert!(has_number_tail(&chars("BTCUSDU21")));
    assert!(has_number_tail(&chars("X-1")));
    assert!(has_number_tail(&chars("+1")));
    assert!(!has_number_tail(&chars("BTCUSD")));
    assert!(!has_number_tail(&chars("1")));
    assert!(!has_number_tail(&chars("1-")));
    assert!(!has_number_tail(&chars("")));
}
