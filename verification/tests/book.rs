use carbonbot::book::{read_level, read_levels, sort_by_price};
use carbonbot::decimal::Decimal;
use carbonbot::message::{Order, ParseError};

fn level(price: &str, quantity: &str) -> Order {
    Order::spot(
        carbonbot::decimal::parse_decimal(price).unwrap(),
        carbonbot::decimal::parse_decimal(quantity).unwrap(),
    )
}

fn decoded(text: &str) -> serde_json::Value {
    serde_json::from_str(text).unwrap()
}

#[test]
fn sorting_is_ascending_and_stable() {
    let levels = vec![
        level("3", "1"),
        level("1.0", "2"),
        level("2", "3"),
        level("1", "4"),
        level("1.00", "5"),
        level("0.5", "6"),
    ];
    let sorted = sort_by_price(levels.clone());
    let quantities: Vec<i128> = sorted.iter().map(|o| o.quantity_base.mantissa).collect();
    assert_eq!(quantities, vec![6, 2, 4, 5, 3, 1]);
    for w in sorted.windows(2) {
        assert!(w[0].price.le(&w[1].price));
    }
    // the same levels, each as often as before
    for o in levels.iter() {
        assert_eq!(
            sorted.iter().filter(|s| *s == o).count(),
            levels.iter().filter(|s| *s == o).count()
        );
    }
    assert_eq!(sort_by_price(vec![]), vec![]);
    assert_eq!(sort_by_price(vec![level("1", "1")]), vec![level("1", "1")]);
}

#[test]
fn sorting_sorted_levels_changes_nothing() {
    let levels = vec![level("1", "1"), level("1", "2"), level("2", "1"), level("10", "1")];
    assert_eq!(sort_by_price(levels.clone()), levels);
    assert_eq!(sort_by_price(sort_by_price(levels.clone())), levels);
}

#[test]
fn levels_are_read() {
    assert_eq!(read_level(&decoded(r#"["50000","0.1"]"#), 2), Ok(level("50000", "0.1")));
    assert_eq!(read_level(&decoded(r#"[50000.5,0.1]"#), 2), Ok(level("50000.5", "0.1")));
    assert_eq!(read_level(&decoded(r#"["50000",0.1,"7"]"#), 3), Ok(level("50000", "0.1")));
    assert_eq!(
        read_level(&decoded(r#"["50000","0.1"]"#), 2).unwrap().quantity_quote,
        Decimal { mantissa: 50000, scale: 1 }
    );
    for (text, width) in [
        (r#"["50000","0.1"]"#, 3),
        (r#"["50000","0.1","7"]"#, 2),
        (r#"["50000"]"#, 1),
        (r#"[]"#, 0),
        (r#"["50000",null]"#, 2),
        (r#"["50000",true]"#, 2),
        (r#"{"price":1}"#, 2),
        (r#""50000""#, 2),
    ] {
        assert_eq!(read_level(&decoded(text), width), Err(ParseError::MalformedPayload), "{}", text);
    }
}

#[test]
fn level_lists_are_read_in_wire_order() {
    let rows = decoded(r#"[["3","1"],["1","2"],["2","3"]]"#);
    let rows = rows.as_array().unwrap();
    assert_eq!(read_levels(rows, 2), Ok(vec![level("3", "1"), level("1", "2"), level("2", "3")]));
    assert_eq!(read_levels(&vec![], 2), Ok(vec![]));
    let rows = decoded(r#"[["3","1"],["1"],["2","3"]]"#);
    assert_eq!(read_levels(rows.as_array().unwrap(), 2), Err(ParseError::MalformedPayload));
}
