use carbonbot::decimal::{parse_decimal, pow10_of, Decimal, MANTISSA_MAX, SCALE_MAX};

fn dec(mantissa: i128, scale: u32) -> Option<Decimal> {
    Some(Decimal { mantissa, scale })
}

#[test]
fn decimal_plain_literals() {
    assert_eq!(parse_decimal("50000"), dec(50000, 0));
    assert_eq!(parse_decimal("0"), dec(0, 0));
    assert_eq!(parse_decimal("0.1"), dec(1, 1));
    assert_eq!(parse_decimal("57347.4"), dec(573474, 1));
    assert_eq!(parse_decimal("0.048800"), dec(48800, 6));
    assert_eq!(parse_decimal("50000.0"), dec(500000, 1));
    assert_eq!(parse_decimal("007.50"), dec(750, 2));
}

#[test]
fn decimal_point_first_or_last() {
    assert_eq!(parse_decimal(".5"), dec(5, 1));
    assert_eq!(parse_decimal("5."), dec(5, 0));
    assert_eq!(parse_decimal("-.25"), dec(-25, 2));
    assert_eq!(parse_decimal("+7."), dec(7, 0));
    assert_eq!(parse_decimal("1.e5"), dec(100000, 0));
    assert_eq!(parse_decimal(".5e1"), dec(5, 0));
    assert_eq!(parse_decimal(".5e-1"), dec(5, 2));
    assert_eq!(parse_decimal("0."), dec(0, 0));
    assert_eq!(parse_decimal(".0"), dec(0, 1));
    // as the standard reader of floats has them
    for text in [".5", "5.", "-.25", "1.e5", ".5e-1"] {
        let d = parse_decimal(text).unwrap();
        let float = d.mantissa as f64 / 10f64.powi(d.scale as i32);
        assert_eq!(float, text.parse::<f64>().unwrap(), "{}", text);
    }
}

#[test]
fn decimal_signs() {
    assert_eq!(parse_decimal("-1.50"), dec(-150, 2));
    assert_eq!(parse_decimal("+3"), dec(3, 0));
    assert_eq!(parse_decimal("-0"), dec(0, 0));
    assert_eq!(parse_decimal("-0.00025"), dec(-25, 5));
}

#[test]
fn decimal_exponents() {
    assert_eq!(parse_decimal("1e-7"), dec(1, 7));
    assert_eq!(parse_decimal("7.12e-6"), dec(712, 8));
    assert_eq!(parse_decimal("1e3"), dec(1000, 0));
    assert_eq!(parse_decimal("1.5E+2"), dec(150, 0));
    assert_eq!(parse_decimal("1.25e1"), dec(125, 1));
    assert_eq!(parse_decimal("1.25e2"), dec(125, 0));
    assert_eq!(parse_decimal("-2.5e-3"), dec(-25, 4));
    assert_eq!(parse_decimal("0e100"), dec(0, 0));
    assert_eq!(parse_decimal("0.0e99999999999999999999999999"), dec(0, 0));
    assert_eq!(parse_decimal("1e18"), dec(1_000_000_000_000_000_000, 0));
    assert_eq!(parse_decimal("1e-18"), dec(1, 18));
    assert_eq!(parse_decimal("1e0"), dec(1, 0));
    assert_eq!(parse_decimal("12e-0"), dec(12, 0));
}

#[test]
fn decimal_rejects_other_shapes() {
    for text in [
        "", "abc", ".", "-.", ".e5", "1e", "1e+", "1e-", "--1", "+-1", "1.2.3", "0x10", " 1", "1 ",
        "NaN", "nan", "inf", "-inf", "infinity", "-", "+", "e5", "1,5", "1e5.0", "5..", "..5", "١",
    ] {
        assert_eq!(parse_decimal(text), None, "{:?}", text);
    }
}

#[test]
fn decimal_wire_range() {
    assert_eq!(MANTISSA_MAX, 9223372036854775807);
    assert_eq!(SCALE_MAX, 18);
    assert_eq!(parse_decimal("9223372036854775807"), dec(9223372036854775807, 0));
    assert_eq!(parse_decimal("-9223372036854775807"), dec(-9223372036854775807, 0));
    assert_eq!(parse_decimal("9223372036854775808"), None);
    assert_eq!(parse_decimal("-9223372036854775808"), None);
    assert_eq!(parse_decimal("0.000000000000000001"), dec(1, 18));
    assert_eq!(parse_decimal("0.0000000000000000001"), None);
    assert_eq!(parse_decimal("0.0000000000000000000"), None);
    assert_eq!(parse_decimal("1e19"), None);
    assert_eq!(parse_decimal("1e-19"), None);
    assert_eq!(parse_decimal("9.3e18"), None);
    assert_eq!(parse_decimal("9.2e18"), dec(9_200_000_000_000_000_000, 0));
    assert_eq!(parse_decimal("1e99999999999999999999999999"), None);
    assert_eq!(parse_decimal("1e-99999999999999999999999999"), None);
    assert_eq!(parse_decimal("123456789012345678901234567890"), None);
    assert_eq!(parse_decimal("92233720368547758.07"), dec(9223372036854775807, 2));
}

#[test]
fn decimal_product_is_exact() {
    let price = parse_decimal("50000.0").unwrap();
    let amount = parse_decimal("0.5").unwrap();
    assert_eq!(price.times(&amount), Decimal { mantissa: 2500000, scale: 2 });
    let a = parse_decimal("0.1").unwrap();
    let b = parse_decimal("0.2").unwrap();
    // exactly 0.02, which binary floating point cannot say
    assert_eq!(a.times(&b), Decimal { mantissa: 2, scale: 2 });
    let big = Decimal { mantissa: 9223372036854775807, scale: 18 };
    assert_eq!(
        big.times(&big),
        Decimal { mantissa: 9223372036854775807i128 * 9223372036854775807i128, scale: 36 }
    );
    let neg = parse_decimal("-1.5").unwrap();
    assert_eq!(neg.times(&b), Decimal { mantissa: -30, scale: 2 });
}

#[test]
fn decimal_order_and_equality_of_values() {
    let a = parse_decimal("1.50").unwrap();
    let b = parse_decimal("1.5").unwrap();
    let c = parse_decimal("1.51").unwrap();
    let d = parse_decimal("-3").unwrap();
    assert!(a.le(&b) && b.le(&a));
    assert!(a.equals(&b));
    assert_ne!(a, b);
    assert!(a.le(&c) && !c.le(&a));
    assert!(!a.equals(&c));
    assert!(d.le(&a) && !a.le(&d));
    let tiny = parse_decimal("0.000000000000000001").unwrap();
    let huge = parse_decimal("9223372036854775807").unwrap();
    assert!(tiny.le(&huge) && !huge.le(&tiny));
    assert!(huge.equals(&huge));
}

#[test]
fn decimal_from_int_and_powers() {
    assert_eq!(Decimal::from_int(-7), Decimal { mantissa: -7, scale: 0 });
    assert_eq!(pow10_of(0), 1);
    assert_eq!(pow10_of(3), 1000);
    assert_eq!(pow10_of(19), 10_000_000_000_000_000_000);
}
