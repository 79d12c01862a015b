use attendance_backend::roll::parse_roll_number;

#[test]
fn accepts_positive_numerals() {
    assert_eq!(parse_roll_number("1"), Some(1));
    assert_eq!(parse_roll_number("12"), Some(12));
    assert_eq!(parse_roll_number("007"), Some(7));
    assert_eq!(parse_roll_number("4294967296"), Some(4294967296));
}

#[test]
fn accepts_the_largest_value() {
    assert_eq!(parse_roll_number("18446744073709551615"), Some(u64::MAX));
}

#[test]
fn rejects_zero() {
    assert_eq!(parse_roll_number("0"), None);
    assert_eq!(parse_roll_number("000"), None);
}

#[test]
fn rejects_non_numerals() {
    assert_eq!(parse_roll_number(""), None);
    assert_eq!(parse_roll_number("-5"), None);
    assert_eq!(parse_roll_number("+5"), None);
    assert_eq!(parse_roll_number("12a"), None);
    assert_eq!(parse_roll_number("1 2"), None);
    assert_eq!(parse_roll_number("twelve"), None);
}

#[test]
fn rejects_values_over_the_range() {
    assert_eq!(parse_roll_number("18446744073709551616"), None);
    assert_eq!(parse_roll_number("99999999999999999999999"), None);
}
