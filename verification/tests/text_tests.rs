use vvconvert::text::{
    concat2, concat3, concat4, debug_option_u64, decimal_i32, decimal_u64, decimal_usize,
    ends_with_char, first_line, header_is_text, parse_usize, str_eq,
};

#[test]
fn decimal_rendering_matches_format() {
    for n in [0u64, 1, 9, 10, 99, 100, 1234, 4096, u64::MAX] {
        assert_eq!(decimal_u64(n), format!("{}", n));
    }
    assert_eq!(decimal_u64(1234), "1234");
    assert_eq!(decimal_usize(0), "0");
    assert_eq!(decimal_i32(-42), "-42");
    assert_eq!(decimal_i32(i32::MIN), "-2147483648");
    assert_eq!(decimal_i32(i32::MAX), "2147483647");
    assert_eq!(decimal_i32(0), "0");
}

#[test]
fn debug_option_matches_format() {
    assert_eq!(debug_option_u64(Some(100)), "Some(100)");
    assert_eq!(debug_option_u64(None), "None");
    assert_eq!(debug_option_u64(Some(7)), format!("{:?}", Some(7u64)));
}

#[test]
fn parse_usize_accepts_what_std_accepts() {
    let cases: [&[u8]; 14] = [
        b"123", b"+7", b"+", b"", b"-1", b" 1", b"1 ", b"007", b"0", b"12a", b"++1",
        b"18446744073709551615", b"18446744073709551616", b"99999999999999999999999",
    ];
    for c in cases {
        let expected = std::str::from_utf8(c).unwrap().parse::<usize>().ok();
        assert_eq!(parse_usize(c), expected, "input {:?}", c);
    }
    assert_eq!(parse_usize(b"123"), Some(123));
    assert_eq!(parse_usize(b"+7"), Some(7));
    assert_eq!(parse_usize(b"-1"), None);
    assert_eq!(parse_usize(b""), None);
}

#[test]
fn parse_reads_back_decimal_rendering() {
    for n in [0usize, 5, 10, 65535, 1 << 20, usize::MAX] {
        let text = decimal_usize(n);
        assert_eq!(parse_usize(text.as_bytes()), Some(n));
    }
}

#[test]
fn first_line_matches_std_lines() {
    let cases = [
        "ffmpeg version 6.0 Copyright\nbuilt with gcc",
        "a\r\nb",
        "a\r",
        "",
        "\n",
        "single",
        "\r\n",
        "x\ry\nz",
        "é\nü",
    ];
    for c in cases {
        let expected = c.lines().next().map(|l| l.to_string());
        assert_eq!(first_line(c), expected, "input {:?}", c);
    }
    assert_eq!(first_line("ffmpeg version 6.0\nrest"), Some("ffmpeg version 6.0".to_string()));
    assert_eq!(first_line(""), None);
}

#[test]
fn string_helpers() {
    assert!(str_eq("ffmpeg", "ffmpeg"));
    assert!(!str_eq("ffmpeg", "ffprobe"));
    assert!(!str_eq("ffmpeg", "ffmpe"));
    assert!(ends_with_char("bin/", '/'));
    assert!(!ends_with_char("bin", '/'));
    assert!(!ends_with_char("", '/'));
    assert_eq!(concat2("a", "b"), "ab");
    assert_eq!(concat3("a", "b", "c"), "abc");
    assert_eq!(concat4("a", "b", "c", "d"), "abcd");
}

#[test]
fn header_text_check_follows_visible_ascii() {
    assert!(header_is_text(b"12345"));
    assert!(header_is_text(b"a\tb ~"));
    assert!(!header_is_text(b"1\x7f"));
    assert!(!header_is_text(b"\x00"));
    assert!(!header_is_text(&[0xc3, 0xa9]));
    assert!(header_is_text(b""));
}
