use home_client::interval::parse_seconds;

#[test]
fn parse_seconds_reads_decimal_digits() {
    assert_eq!(parse_seconds("0"), Some(0));
    assert_eq!(parse_seconds("7"), Some(7));
    assert_eq!(parse_seconds("10"), Some(10));
    assert_eq!(parse_seconds("007"), Some(7));
    assert_eq!(parse_seconds("3600"), Some(3600));
    assert_eq!(parse_seconds("18446744073709551615"), Some(u64::MAX));
}

#[test]
fn parse_seconds_allows_a_leading_plus() {
    assert_eq!(parse_seconds("+5"), Some(5));
    assert_eq!(parse_seconds("+0"), Some(0));
    assert_eq!(parse_seconds("+"), None);
    assert_eq!(parse_seconds("++5"), None);
    assert_eq!(parse_seconds("5+"), None);
}

#[test]
fn parse_seconds_refuses_what_is_no_number() {
    for text in ["", " ", "ten", "1.5", "-3", " 4", "4 ", "1_000", "0x10", "٣", "1e3"] {
        assert_eq!(parse_seconds(text), None, "{text:?}");
    }
}

#[test]
fn parse_seconds_refuses_what_does_not_fit() {
    assert_eq!(parse_seconds("18446744073709551616"), None);
    assert_eq!(parse_seconds("99999999999999999999999"), None);
    assert_eq!(parse_seconds("184467440737095516150"), None);
}

#[test]
fn parse_seconds_agrees_with_the_standard_reader() {
    let samples = [
        "", "+", "-", "0", "+0", "-0", "00", "12", "+12", "12a", "a12", "1 2", "18446744073709551615",
        "18446744073709551616", "+18446744073709551615", "000000000000000000000000001", "١٢",
    ];
    for text in samples {
        assert_eq!(parse_seconds(text), text.parse::<u64>().ok(), "{text:?}");
    }
}
