use sde_types::key::parse_key;

#[test]
fn a_plain_number_is_read() {
    assert_eq!(parse_key("100"), Some(100));
    assert_eq!(parse_key("0"), Some(0));
    assert_eq!(parse_key("7"), Some(7));
    assert_eq!(parse_key("34317"), Some(34317));
}

#[test]
fn a_sign_in_front_is_read() {
    assert_eq!(parse_key("-5"), Some(-5));
    assert_eq!(parse_key("+7"), Some(7));
    assert_eq!(parse_key("-0"), Some(0));
    assert_eq!(parse_key("+0"), Some(0));
}

#[test]
fn zeros_in_front_do_not_count() {
    assert_eq!(parse_key("0100"), Some(100));
    assert_eq!(parse_key("007"), Some(7));
    assert_eq!(parse_key("-007"), Some(-7));
    assert_eq!(parse_key("00000000000000000000000000000000000012"), Some(12));
}

#[test]
fn the_bounds_of_the_range_are_read() {
    assert_eq!(parse_key("2147483647"), Some(i32::MAX));
    assert_eq!(parse_key("+2147483647"), Some(i32::MAX));
    assert_eq!(parse_key("-2147483648"), Some(i32::MIN));
    assert_eq!(parse_key("-2147483647"), Some(-2147483647));
}

#[test]
fn a_value_out_of_range_is_no_key() {
    assert_eq!(parse_key("2147483648"), None);
    assert_eq!(parse_key("-2147483649"), None);
    assert_eq!(parse_key("4294967296"), None);
    assert_eq!(parse_key("21474836470"), None);
    assert_eq!(parse_key("99999999999999999999999999"), None);
    assert_eq!(parse_key("-99999999999999999999999999"), None);
}

#[test]
fn text_without_a_digit_is_no_key() {
    assert_eq!(parse_key(""), None);
    assert_eq!(parse_key("-"), None);
    assert_eq!(parse_key("+"), None);
    assert_eq!(parse_key("abc"), None);
}

#[test]
fn space_around_a_number_is_not_accepted() {
    assert_eq!(parse_key(" 100"), None);
    assert_eq!(parse_key("100 "), None);
    assert_eq!(parse_key("1 00"), None);
    assert_eq!(parse_key("\t100"), None);
    assert_eq!(parse_key("100\n"), None);
}

#[test]
fn other_ways_to_write_a_number_are_not_accepted() {
    assert_eq!(parse_key("0x64"), None);
    assert_eq!(parse_key("1_000"), None);
    assert_eq!(parse_key("1.0"), None);
    assert_eq!(parse_key("1e3"), None);
    assert_eq!(parse_key("--1"), None);
    assert_eq!(parse_key("+-1"), None);
    assert_eq!(parse_key("1-"), None);
    assert_eq!(parse_key("12a"), None);
    assert_eq!(parse_key("a12"), None);
}

#[test]
fn digits_of_other_scripts_are_not_accepted() {
    assert_eq!(parse_key("\u{ff11}\u{ff10}\u{ff10}"), None);
    assert_eq!(parse_key("\u{0661}"), None);
    assert_eq!(parse_key("1\u{00e9}"), None);
    assert_eq!(parse_key("\u{2212}5"), None);
}

#[test]
fn every_text_is_read_as_the_standard_library_reads_it() {
    let texts = vec![
        "", "0", "1", "9", "10", "-1", "+1", "-", "+", "00", "-00", "+00", "123456789",
        "1234567890", "12345678901", "2147483646", "2147483647", "2147483648", "2147483649",
        "-2147483647", "-2147483648", "-2147483649", "+2147483647", "+2147483648", " 1", "1 ",
        "a", "1a", "a1", "0x1", "1.5", "1,000", "++1", "--1", "-+1", "\u{ff11}", "٣", "１２",
        "18446744073709551616", "-18446744073709551616", "000000000002147483647",
        "000000000002147483648", "-000000000002147483648", "-000000000002147483649",
    ];
    for text in texts {
        assert_eq!(parse_key(text), text.parse::<i32>().ok(), "{:?}", text);
    }
}

#[test]
fn every_number_near_a_power_of_ten_is_read_back() {
    let mut power: i64 = 1;
    while power <= 1_000_000_000 {
        for delta in [-1i64, 0, 1] {
            for sign in [-1i64, 1] {
                let value = sign * (power + delta);
                let text = format!("{}", value);
                assert_eq!(parse_key(&text), Some(value as i32), "{}", text);
            }
        }
        power *= 10;
    }
}
