use flute::transactions::{parse_exp, ExpiryError};

#[test]
fn parses_mm_yy() {
    let (month, year) = parse_exp("12/26").unwrap();
    assert_eq!(month, 12);
    assert_eq!(year, 2026);
}

#[test]
fn parses_mm_yyyy() {
    let (month, year) = parse_exp("03/2027").unwrap();
    assert_eq!(month, 3);
    assert_eq!(year, 2027);
}

#[test]
fn rejects_bad_month() {
    assert!(parse_exp("13/26").is_err(), "month 13 must be rejected");
    assert!(parse_exp("00/26").is_err(), "month 0 must be rejected");
}

#[test]
fn transactions_rejects_garbage() {
    assert!(parse_exp("abc").is_err(), "no slash must be rejected");
    assert!(parse_exp("1226").is_err(), "no slash must be rejected");
    assert!(parse_exp("ab/cd").is_err(), "non-numeric must be rejected");
}

#[test]
fn rejects_malformed_year() {
    assert!(parse_exp("12/100").is_err(), "3-digit year must be rejected");
    assert!(parse_exp("12/1").is_err(), "1-digit year must be rejected");
    assert!(parse_exp("12/26").is_ok(), "MM/YY must still be accepted");
    assert!(parse_exp("12/2026").is_ok(), "MM/YYYY must still be accepted");
}

#[test]
fn expiry_errors_carry_the_input() {
    assert_eq!(parse_exp("1226"), Err(ExpiryError::MissingSlash("1226".into())));
    assert_eq!(parse_exp("13/26"), Err(ExpiryError::MonthOutOfRange(13, "13/26".into())));
    assert_eq!(parse_exp("12/100"), Err(ExpiryError::YearLength(3, "12/100".into())));
    assert_eq!(
        parse_exp("1226").unwrap_err().describe(),
        "expiry must be MM/YY or MM/YYYY (got '1226')"
    );
}

#[test]
fn signs_are_not_digits() {
    assert_eq!(parse_exp("12/+1"), Err(ExpiryError::InvalidYear("12/+1".into())));
    assert_eq!(parse_exp("+3/26"), Err(ExpiryError::InvalidMonth("+3/26".into())));
    assert_eq!(parse_exp("12/+026"), Err(ExpiryError::InvalidYear("12/+026".into())));
    assert_eq!(parse_exp("03/26"), Ok((3, 2026)));
}
