use cosmos_paging::charge::RequestCharge;

fn scaled(text: &str) -> Option<(u64, i64)> {
    RequestCharge::parse(text).expect("a numeral").scaled()
}

#[test]
fn charge_keeps_the_numeral_as_written() {
    let charge = RequestCharge::parse("2.5").unwrap();
    assert_eq!(charge.as_str(), "2.5");
    let charge = RequestCharge::parse("0.50").unwrap();
    assert_eq!(charge.as_str(), "0.50");
}

#[test]
fn charge_reads_back_as_the_same_number() {
    let charge = RequestCharge::parse("2.5").unwrap();
    let value: f64 = charge.as_str().parse().unwrap();
    assert_eq!(value, 2.5);
    assert!(value >= 0.0);
}

#[test]
fn charge_as_numerator_and_power_of_ten() {
    assert_eq!(scaled("2.5"), Some((25, -1)));
    assert_eq!(scaled("1"), Some((1, 0)));
    assert_eq!(scaled("0"), Some((0, 0)));
    assert_eq!(scaled("0.50"), Some((50, -2)));
    assert_eq!(scaled("12.345"), Some((12345, -3)));
    assert_eq!(scaled("007"), Some((7, 0)));
}

#[test]
fn charge_with_a_bare_point() {
    assert_eq!(scaled(".5"), Some((5, -1)));
    assert_eq!(scaled("5."), Some((5, 0)));
    assert_eq!(scaled("5.e2"), Some((5, 2)));
    assert_eq!(scaled(".5e2"), Some((5, 1)));
}

#[test]
fn charge_with_a_plus_sign() {
    assert_eq!(scaled("+2.5"), Some((25, -1)));
    assert_eq!(scaled("+0"), Some((0, 0)));
    assert_eq!(scaled("+.5"), Some((5, -1)));
    assert_eq!(RequestCharge::parse("+2.5").unwrap().as_str(), "+2.5");
}

#[test]
fn charge_with_an_exponent() {
    assert_eq!(scaled("1e3"), Some((1, 3)));
    assert_eq!(scaled("1E5"), Some((1, 5)));
    assert_eq!(scaled("1e5"), Some((1, 5)));
    assert_eq!(scaled("2.5E0"), Some((25, -1)));
    assert_eq!(scaled("25e-1"), Some((25, -1)));
    assert_eq!(scaled("1.5e+2"), Some((15, 1)));
    assert_eq!(scaled("+1.25E-3"), Some((125, -5)));
    assert_eq!(scaled("1e-0"), Some((1, 0)));
    assert_eq!(scaled("1e007"), Some((1, 7)));
    assert_eq!(scaled("0e0"), Some((0, 0)));
    assert_eq!(RequestCharge::parse("2.5E0").unwrap().as_str(), "2.5E0");
}

#[test]
fn charge_reads_back_as_the_number_that_it_spells() {
    let cases = [
        ("1e3", 1000.0),
        ("+2.5", 2.5),
        ("2.5E0", 2.5),
        ("25e-1", 2.5),
        ("1.5e+2", 150.0),
        ("0", 0.0),
        (".5", 0.5),
        ("5.", 5.0),
    ];
    for (text, expected) in cases {
        let charge = RequestCharge::parse(text).unwrap();
        let value: f64 = charge.as_str().parse().unwrap();
        assert_eq!(value, expected, "{:?}", text);
        assert!(value >= 0.0);
        let (n, p) = charge.scaled().unwrap();
        assert_eq!(n as f64 * 10f64.powi(p as i32), expected, "{:?}", text);
    }
}

#[test]
fn charge_at_the_limits_of_64_bits() {
    assert_eq!(scaled("18446744073709551615"), Some((u64::MAX, 0)));
    assert_eq!(scaled("1844674407370955161.5"), Some((u64::MAX, -1)));
    assert_eq!(scaled("18446744073709551616"), None);
    assert_eq!(scaled("99999999999999999999.9"), None);
    assert_eq!(scaled("184467440737095516150"), None);
    assert_eq!(scaled("1e9223372036854775807"), Some((1, i64::MAX)));
    assert_eq!(scaled("10e9223372036854775807"), Some((10, i64::MAX)));
    assert_eq!(scaled("1e9223372036854775808"), None);
    assert_eq!(scaled("1.0e9223372036854775808"), Some((10, i64::MAX)));
    assert_eq!(scaled("1e-9223372036854775808"), Some((1, i64::MIN)));
    assert_eq!(scaled("1.0e-9223372036854775808"), None);
    assert_eq!(scaled("1e-9223372036854775809"), None);
    assert_eq!(scaled("1e36893488147419103232"), None);
    assert_eq!(scaled("1e36893488147419103233"), None);
    assert_eq!(scaled("1e-99999999999999999999999999999999999999999999"), None);
    assert_eq!(scaled("18446744073709551616e1"), None);
}

#[test]
fn charge_rejects_what_is_no_numeral() {
    for text in [
        "", ".", "..", "1.2.3", "1..2", "abc", "NaN", "nan", "inf", "+inf", "infinity", " 1",
        "1 ", "1,5", "0x10", "2.5\n", "+", "++1", "e5", "E5", "+e1", ".e1", "1e", "1E", "1e+",
        "1e-", "1e5e5", "1e1.5", "1.5e1.5", "1e+-5", "1e++5", "1 e5", "1e 5", "1+1", "1e5+",
        "1_000", "1f",
    ] {
        assert!(RequestCharge::parse(text).is_none(), "{:?}", text);
    }
}

#[test]
fn charge_rejects_a_minus_sign_before_the_mantissa() {
    for text in ["-1", "-0", "-2.5", "-1e5", "+-1", "-+1", "-.5", "-1e-5"] {
        assert!(RequestCharge::parse(text).is_none(), "{:?}", text);
    }
}

#[test]
fn charge_is_a_number_to_the_float_parser() {
    for text in ["2.5", "+2.5", "1e3", "1E-3", "5.", ".5", "5.e+0", "0e99", "1e400"] {
        let charge = RequestCharge::parse(text).unwrap();
        let value: f64 = charge.as_str().parse().unwrap();
        assert!(value >= 0.0, "{:?}", text);
    }
}

#[test]
fn charge_rejects_digits_outside_ascii() {
    assert!(RequestCharge::parse("\u{ff11}").is_none());
    assert!(RequestCharge::parse("1\u{0660}").is_none());
    assert!(RequestCharge::parse("2\u{ff0e}5").is_none());
}

#[test]
fn charge_clone_is_equal() {
    let charge = RequestCharge::parse("3.14").unwrap();
    let copy = charge.clone();
    assert_eq!(copy, charge);
    assert_eq!(copy.as_str(), "3.14");
}
