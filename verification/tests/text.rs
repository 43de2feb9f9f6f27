use bluefang_player::text::parse_u64;

#[test]
fn numbers_are_read() {
    assert_eq!(parse_u64("0"), Some(0));
    assert_eq!(parse_u64("7"), Some(7));
    assert_eq!(parse_u64("+7"), Some(7));
    assert_eq!(parse_u64("000000000000000000000000042"), Some(42));
    assert_eq!(parse_u64("18446744073709551615"), Some(u64::MAX));
    assert_eq!(parse_u64("+18446744073709551615"), Some(u64::MAX));
}

#[test]
fn other_texts_are_refused() {
    for text in [
        "",
        "+",
        "-0",
        "++1",
        "1+",
        " 1",
        "1 ",
        "1_000",
        "0x1",
        "18446744073709551616",
        "18446744073709551620",
        "99999999999999999999999",
        "99999999999999999999999x",
        "\u{0661}",
        "1\u{0661}",
    ] {
        assert_eq!(parse_u64(text), None, "{:?}", text);
    }
}

#[test]
fn numbers_are_read_as_std_reads_them() {
    for n in (0..=u64::MAX).step_by(0x0123_4567_89ab_cdef) {
        let text = format!("{}", n);
        assert_eq!(parse_u64(&text), Some(n));
        assert_eq!(parse_u64(&text), text.parse::<u64>().ok());
    }
}
