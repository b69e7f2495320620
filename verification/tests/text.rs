use async_fetch::text::{format_decimal, parse_decimal_usize};

#[test]
fn formats_decimal_numbers() {
    assert_eq!(format_decimal(0), "0");
    assert_eq!(format_decimal(7), "7");
    assert_eq!(format_decimal(1024), "1024");
    assert_eq!(format_decimal(usize::MAX), usize::MAX.to_string());
}

#[test]
fn parses_decimal_numbers() {
    assert_eq!(parse_decimal_usize("0"), Some(0));
    assert_eq!(parse_decimal_usize("+12"), Some(12));
    assert_eq!(parse_decimal_usize("0012"), Some(12));
    assert_eq!(parse_decimal_usize(""), None);
    assert_eq!(parse_decimal_usize("+"), None);
    assert_eq!(parse_decimal_usize("-1"), None);
    assert_eq!(parse_decimal_usize(" 1"), None);
    assert_eq!(parse_decimal_usize("1 "), None);
    assert_eq!(parse_decimal_usize("12a"), None);
    assert_eq!(parse_decimal_usize("١٢"), None);
    assert_eq!(parse_decimal_usize(&usize::MAX.to_string()), Some(usize::MAX));
    assert_eq!(parse_decimal_usize("99999999999999999999999999"), None);
}

#[test]
fn reading_a_written_number_gives_it_back() {
    for n in [0usize, 1, 9, 10, 11, 99, 100, 1023, 1024, 65535, 4294967296, usize::MAX - 1, usize::MAX] {
        assert_eq!(parse_decimal_usize(&format_decimal(n)), Some(n));
    }
}
