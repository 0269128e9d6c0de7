use flute::money::{parse_amount, parse_rate, parse_txn_money, to_amount_number, DecimalValue, MoneyError};
use flute::json::{to_json_text, Json};
use rust_decimal::Decimal;
use std::str::FromStr;

fn dec(d: DecimalValue) -> Decimal {
    let mut v = Decimal::from_i128_with_scale(d.mantissa, d.scale);
    v.set_sign_negative(d.negative);
    v
}

#[test]
fn parses_two_decimal_amount() {
    assert_eq!(dec(parse_amount("100.00").unwrap()), Decimal::from_str("100.00").unwrap());
}

#[test]
fn rejects_negative() {
    assert!(parse_amount("-5.00").is_err());
}

#[test]
fn rejects_more_than_two_dp() {
    assert!(parse_amount("1.005").is_err());
}

#[test]
fn money_rejects_garbage() {
    assert!(parse_amount("abc").is_err());
}

#[test]
fn accepts_integer_amount() {
    assert_eq!(dec(parse_amount("100").unwrap()), Decimal::from_str("100").unwrap());
}

#[test]
fn accepts_zero_amount() {
    assert_eq!(dec(parse_amount("0.00").unwrap()), Decimal::from_str("0.00").unwrap());
    assert!(parse_amount("0").is_ok());
}

#[test]
fn rejects_scientific_notation() {
    assert!(parse_amount("1e2").is_err());
    assert!(parse_amount("1E2").is_err());
}

#[test]
fn rejects_leading_plus() {
    assert!(parse_amount("+5.00").is_err());
}

#[test]
fn parse_rate_accepts_two_dp() {
    assert_eq!(dec(parse_rate("18.5").unwrap()), Decimal::from_str("18.5").unwrap());
}

#[test]
fn parse_rate_accepts_four_dp() {
    assert_eq!(dec(parse_rate("0.185").unwrap()), Decimal::from_str("0.185").unwrap());
    assert_eq!(dec(parse_rate("0.1850").unwrap()), Decimal::from_str("0.1850").unwrap());
}

#[test]
fn parse_rate_rejects_negative() {
    assert!(parse_rate("-0.10").is_err());
}

#[test]
fn parse_rate_rejects_garbage() {
    assert!(parse_rate("not-a-rate").is_err());
}

#[test]
fn parse_rate_rejects_scientific_notation() {
    assert!(parse_rate("1e2").is_err());
    assert!(parse_rate("1E2").is_err());
}

#[test]
fn parse_rate_rejects_leading_plus() {
    assert!(parse_rate("+0.10").is_err());
}

#[test]
fn parse_rate_rejects_more_than_four_dp() {
    assert!(parse_rate("0.12345").is_err());
}

#[test]
fn money_errors_name_the_policy_broken() {
    assert_eq!(parse_amount(" 1e2 "), Err(MoneyError::Scientific(" 1e2 ".into())));
    assert_eq!(parse_amount("+5"), Err(MoneyError::LeadingPlus("+5".into())));
    assert_eq!(parse_amount("abc"), Err(MoneyError::Invalid("abc".into())));
    assert_eq!(parse_amount("-5.00"), Err(MoneyError::Negative("-5.00".into())));
    assert_eq!(parse_amount("1.005"), Err(MoneyError::TooManyPlaces("1.005".into())));
    assert_eq!(parse_amount(" 12.50 ").map(dec), Ok(Decimal::from_str("12.50").unwrap()));
}

#[test]
fn money_error_messages() {
    assert_eq!(parse_amount("abc").unwrap_err().describe("amount"), "invalid amount: abc");
    assert_eq!(
        parse_rate("0.12345").unwrap_err().describe("rate"),
        "rate must have at most 4 decimal places: 0.12345"
    );
    assert_eq!(
        parse_amount("1.005").unwrap_err().describe("amount"),
        "amount must have at most 2 decimal places: 1.005"
    );
    assert_eq!(
        parse_amount("1e2").unwrap_err().describe("amount"),
        "amount must be a plain decimal, not scientific notation: 1e2"
    );
}

#[test]
fn to_amount_number_is_a_json_number_not_a_string() {
    let v = to_amount_number(parse_amount("100.00").unwrap());
    assert!(matches!(v, Json::Number(_)), "expected a JSON number, got {v:?}");
}

#[test]
fn to_amount_number_preserves_exact_decimal() {
    let v = to_amount_number(parse_amount("100.00").unwrap());
    assert_eq!(to_json_text(&v), "100.00");
}

#[test]
fn to_amount_number_zero_point_ten_no_float_artifact() {
    let v = to_amount_number(parse_amount("0.10").unwrap());
    assert_eq!(to_json_text(&v), "0.10");
    assert!(matches!(v, Json::Number(_)));
}

#[test]
fn to_amount_number_prints_sign_and_leading_zero() {
    let neg = DecimalValue { negative: true, mantissa: -5, scale: 3 };
    assert_eq!(to_amount_number(neg), Json::Number("-0.005".into()));
    let whole = DecimalValue { negative: false, mantissa: 42, scale: 0 };
    assert_eq!(to_amount_number(whole), Json::Number("42".into()));
}

#[test]
fn txn_money_reads_three_amounts_in_order() {
    let m = parse_txn_money("10.00", Some("1.50"), None).unwrap();
    assert_eq!(dec(m.amount), Decimal::from_str("10.00").unwrap());
    assert_eq!(m.tip_amount.map(dec), Some(Decimal::from_str("1.5").unwrap()));
    assert!(m.l2_tax_rate.is_none());
    assert_eq!(parse_txn_money("x", Some("-1"), None), Err(MoneyError::Invalid("x".into())));
    assert_eq!(parse_txn_money("1", Some("-1"), Some("y")), Err(MoneyError::Negative("-1".into())));
    assert_eq!(parse_txn_money("1", None, Some("0.125")), Err(MoneyError::TooManyPlaces("0.125".into())));
}

#[test]
fn amount_text_keeps_every_place() {
    let cases = [("100.00", "100.00"), ("0.10", "0.10"), ("007.10", "7.10"), (".05", "0.05"), ("12", "12"), ("0", "0")];
    for (typed, sent) in cases {
        let d = parse_amount(typed).unwrap();
        assert_eq!(to_json_text(&to_amount_number(d)), sent, "typed {typed}");
    }
    let rate = parse_rate("0.0825").unwrap();
    assert_eq!(to_json_text(&to_amount_number(rate)), "0.0825");
}
