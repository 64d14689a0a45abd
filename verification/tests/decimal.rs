use gpubsub_consumer::decimal::parse_i64;

#[test]
fn digits_spell_a_number() {
    assert_eq!(parse_i64("0"), Some(0));
    assert_eq!(parse_i64("7"), Some(7));
    assert_eq!(parse_i64("1234567890"), Some(1_234_567_890));
    assert_eq!(parse_i64("007"), Some(7));
}

#[test]
fn a_sign_may_come_first() {
    assert_eq!(parse_i64("+19"), Some(19));
    assert_eq!(parse_i64("-19"), Some(-19));
    assert_eq!(parse_i64("-0"), Some(0));
    assert_eq!(parse_i64("+0"), Some(0));
}

#[test]
fn the_ends_of_the_range_are_read() {
    assert_eq!(parse_i64("9223372036854775807"), Some(i64::MAX));
    assert_eq!(parse_i64("-9223372036854775808"), Some(i64::MIN));
    assert_eq!(parse_i64("+9223372036854775807"), Some(i64::MAX));
    assert_eq!(parse_i64("-9223372036854775807"), Some(i64::MIN + 1));
}

#[test]
fn a_number_past_the_range_is_none() {
    assert_eq!(parse_i64("9223372036854775808"), None);
    assert_eq!(parse_i64("-9223372036854775809"), None);
    assert_eq!(parse_i64("99999999999999999999999999999999999999999999"), None);
    assert_eq!(parse_i64("-99999999999999999999999999999999999999999999"), None);
}

#[test]
fn anything_else_is_none() {
    assert_eq!(parse_i64(""), None);
    assert_eq!(parse_i64("+"), None);
    assert_eq!(parse_i64("-"), None);
    assert_eq!(parse_i64("--1"), None);
    assert_eq!(parse_i64("+-1"), None);
    assert_eq!(parse_i64("1-"), None);
    assert_eq!(parse_i64(" 1"), None);
    assert_eq!(parse_i64("1 "), None);
    assert_eq!(parse_i64("1_000"), None);
    assert_eq!(parse_i64("1.0"), None);
    assert_eq!(parse_i64("0x10"), None);
    assert_eq!(parse_i64("ten"), None);
    assert_eq!(parse_i64("\u{0661}\u{0662}"), None);
    assert_eq!(parse_i64("1\u{00e9}"), None);
    assert_eq!(parse_i64("99999999999999999999999999x"), None);
}

#[test]
fn the_reading_agrees_with_the_standard_library() {
    let texts = [
        "", "0", "-0", "+0", "1", "-1", "+1", "12", "0012", "-", "+", "a", "1a", "a1", "１２",
        "9223372036854775807", "9223372036854775808", "-9223372036854775808",
        "-9223372036854775809", "18446744073709551616", " 5", "5 ", "5\n", "+-5", "٣",
    ];
    for text in texts {
        assert_eq!(parse_i64(text), text.parse::<i64>().ok(), "on {:?}", text);
    }
}
