use carbonbot::text::{
    begins_with, chars_of, contains_char, contains_text, digits_capped, ends_with, find_char,
    is_ascii_only, joined, parse_i64, render_i64, run_end, same_text, starts_with, string_of,
    string_of_range,
};

fn chars(text: &str) -> Vec<char> {
    text.chars().collect()
}

#[test]
fn integers_are_read() {
    assert_eq!(parse_i64("0"), Some(0));
    assert_eq!(parse_i64("-0"), Some(0));
    assert_eq!(parse_i64("+5"), Some(5));
    assert_eq!(parse_i64("007"), Some(7));
    assert_eq!(parse_i64("1616384937"), Some(1616384937));
    assert_eq!(parse_i64("-42"), Some(-42));
    assert_eq!(parse_i64("9223372036854775807"), Some(i64::MAX));
    assert_eq!(parse_i64("-9223372036854775808"), Some(i64::MIN));
    assert_eq!(parse_i64("00000000000000000000000000000000000012"), Some(12));
}

#[test]
fn integers_out_of_range_or_shape() {
    assert_eq!(parse_i64("9223372036854775808"), None);
    assert_eq!(parse_i64("-9223372036854775809"), None);
    assert_eq!(parse_i64("99999999999999999999999999999999999999999"), None);
    for text in ["", "-", "+", "1.0", "1e3", " 1", "1 ", "--1", "12a", "a12", "١٢"] {
        assert_eq!(parse_i64(text), None, "{:?}", text);
    }
}

#[test]
fn integers_are_written() {
    assert_eq!(render_i64(0), "0");
    assert_eq!(render_i64(7), "7");
    assert_eq!(render_i64(-1), "-1");
    assert_eq!(render_i64(10), "10");
    assert_eq!(render_i64(1616384937000), "1616384937000");
    assert_eq!(render_i64(i64::MAX), "9223372036854775807");
    assert_eq!(render_i64(i64::MIN), "-9223372036854775808");
}

#[test]
fn written_integers_read_back() {
    for n in [0i64, 1, -1, 9, 10, 99, 100, -100, 123456789, i64::MAX, i64::MIN] {
        assert_eq!(parse_i64(&render_i64(n)), Some(n));
        assert_eq!(render_i64(n), n.to_string());
    }
}

#[test]
fn text_comparisons() {
    assert!(same_text("sell", "sell"));
    assert!(!same_text("sell", "Sell"));
    assert!(!same_text("sell", "sel"));
    assert!(same_text("", ""));
    assert!(starts_with("[[\"T\",\"1\"]]", "[[\"T\","));
    assert!(!starts_with("[\"T\",\"1\"]", "[[\"T\","));
    assert!(starts_with("abc", ""));
    assert!(!starts_with("ab", "abc"));
    assert!(starts_with("日本語", "日本"));
    assert!(ends_with(&chars("BTC-USDT"), "-USDT"));
    assert!(!ends_with(&chars("BTC-USD"), "-USDT"));
    assert!(ends_with(&chars("x"), ""));
    assert!(!ends_with(&chars("DT"), "USDT"));
    assert!(begins_with(&chars("cmt_btcusdt"), "cmt_"));
    assert!(!begins_with(&chars("cm"), "cmt_"));
}

#[test]
fn text_searches() {
    assert!(contains_char(&chars("BTC-USDT"), '-'));
    assert!(!contains_char(&chars("BTCUSDT"), '-'));
    assert!(contains_text(&chars("BTCUSDT_UMCBL"), "_UMCBL"));
    assert!(contains_text(&chars("BTCUSDT_UMCBL_230331"), "_UMCBL"));
    assert!(!contains_text(&chars("BTCUSDT_UMCB"), "_UMCBL"));
    assert!(contains_text(&chars("abc"), ""));
    assert!(contains_text(&chars(""), ""));
    assert!(!contains_text(&chars(""), "a"));
    assert_eq!(find_char(&chars("market.btcusdt.trade"), '.', 0), 6);
    assert_eq!(find_char(&chars("market.btcusdt.trade"), '.', 7), 14);
    assert_eq!(find_char(&chars("market"), '.', 0), 6);
    assert_eq!(find_char(&chars("a.b"), '.', 3), 3);
    assert!(is_ascii_only(&chars("BTC-USDT")));
    assert!(!is_ascii_only(&chars("BTC-USDT€")));
    assert!(is_ascii_only(&chars("")));
}

#[test]
fn text_digit_runs() {
    let text = chars("12.5e-3");
    assert_eq!(run_end(&text, 0), 2);
    assert_eq!(run_end(&text, 2), 2);
    assert_eq!(run_end(&text, 3), 4);
    assert_eq!(run_end(&text, 6), 7);
    assert_eq!(run_end(&text, 7), 7);
    assert_eq!(digits_capped(&text, 0, 2, 1000), 12);
    assert_eq!(digits_capped(&text, 0, 2, 10), 10);
    assert_eq!(digits_capped(&text, 0, 0, 10), 0);
    assert_eq!(digits_capped(&chars("0099"), 0, 4, 100), 99);
}

#[test]
fn text_building() {
    assert_eq!(chars_of("a€b"), vec!['a', '€', 'b']);
    assert_eq!(string_of(&chars("a€b")), "a€b");
    assert_eq!(string_of_range(&chars("market.btcusdt.trade"), 7, 14), "btcusdt");
    assert_eq!(string_of_range(&chars("abc"), 1, 1), "");
    assert_eq!(joined("trade", ".", "BTCUSDT"), "trade.BTCUSDT");
    assert_eq!(joined("", "", ""), "");
}
