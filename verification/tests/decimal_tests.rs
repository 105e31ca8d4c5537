use beacon_node::decimal::parse_u16;
use beacon_node::decimal::parse_u64;
use beacon_node::decimal::parse_usize;

#[test]
fn reads_plain_numbers() {
    assert_eq!(parse_u64("0"), Some(0));
    assert_eq!(parse_u64("42"), Some(42));
    assert_eq!(parse_u64("007"), Some(7));
    assert_eq!(parse_u64("+15"), Some(15));
    assert_eq!(parse_u16("9000"), Some(9000));
    assert_eq!(parse_usize("16"), Some(16));
}

#[test]
fn reads_the_largest_numbers() {
    assert_eq!(parse_u16("65535"), Some(u16::MAX));
    assert_eq!(parse_u64("18446744073709551615"), Some(u64::MAX));
    assert_eq!(parse_usize(&usize::MAX.to_string()), Some(usize::MAX));
}

#[test]
fn refuses_numbers_beyond_the_bound() {
    assert_eq!(parse_u16("65536"), None);
    assert_eq!(parse_u16("100000"), None);
    assert_eq!(parse_u64("18446744073709551616"), None);
    assert_eq!(parse_u64("99999999999999999999999999"), None);
}

#[test]
fn refuses_what_is_no_numeral() {
    assert_eq!(parse_u64(""), None);
    assert_eq!(parse_u64("+"), None);
    assert_eq!(parse_u64("-1"), None);
    assert_eq!(parse_u64("1 "), None);
    assert_eq!(parse_u64(" 1"), None);
    assert_eq!(parse_u64("1_000"), None);
    assert_eq!(parse_u64("12a"), None);
    assert_eq!(parse_u64("++1"), None);
    assert_eq!(parse_u64("٣"), None);
    assert_eq!(parse_u64("0x10"), None);
}

#[test]
fn agrees_with_the_standard_reader() {
    let samples = [
        "0", "1", "+1", "-1", "", "+", "65535", "65536", "0065535", "18446744073709551615",
        "18446744073709551616", "1e3", "12 ", "٣", "+0", "00", "4294967296",
    ];
    for text in samples.iter() {
        assert_eq!(parse_u16(text), text.parse::<u16>().ok());
        assert_eq!(parse_u64(text), text.parse::<u64>().ok());
        assert_eq!(parse_usize(text), text.parse::<usize>().ok());
    }
}
