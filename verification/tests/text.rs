use presentation::text::{char_is_space, decimal_string, parse_unsigned, split, trim};

#[test]
fn trim_removes_surrounding_white_space() {
    assert_eq!(trim("  \t 3\n"), "3");
    assert_eq!(trim("a b"), "a b");
    assert_eq!(trim(" \u{a0}\u{3000}x y\u{2028} "), "x y");
    assert_eq!(trim(""), "");
    assert_eq!(trim(" \n\t"), "");
}

#[test]
fn decimal_string_writes_numbers() {
    assert_eq!(decimal_string(0), "0");
    assert_eq!(decimal_string(7), "7");
    assert_eq!(decimal_string(10), "10");
    assert_eq!(decimal_string(1234567890), "1234567890");
    assert_eq!(decimal_string(usize::MAX), usize::MAX.to_string());
}

#[test]
fn parse_unsigned_reads_numerals() {
    assert_eq!(parse_unsigned("0"), Some(0));
    assert_eq!(parse_unsigned("3"), Some(3));
    assert_eq!(parse_unsigned("+12"), Some(12));
    assert_eq!(parse_unsigned("007"), Some(7));
    assert_eq!(parse_unsigned(&usize::MAX.to_string()), Some(usize::MAX));
}

#[test]
fn parse_unsigned_refuses_what_is_no_numeral() {
    assert_eq!(parse_unsigned(""), None);
    assert_eq!(parse_unsigned("+"), None);
    assert_eq!(parse_unsigned("-1"), None);
    assert_eq!(parse_unsigned(" 3"), None);
    assert_eq!(parse_unsigned("3 "), None);
    assert_eq!(parse_unsigned("1+2"), None);
    assert_eq!(parse_unsigned("++2"), None);
    assert_eq!(parse_unsigned("12a"), None);
    assert_eq!(parse_unsigned("three"), None);
    assert_eq!(parse_unsigned("\u{664}"), None);
}

#[test]
fn parse_unsigned_refuses_what_does_not_fit() {
    let mut too_big = usize::MAX.to_string();
    too_big.push('0');
    assert_eq!(parse_unsigned(&too_big), None);
    assert_eq!(parse_unsigned("340282366920938463463374607431768211456"), None);
    let one_more = format!("{}", usize::MAX as u128 + 1);
    assert_eq!(parse_unsigned(&one_more), None);
}

#[test]
fn split_cuts_at_every_separator() {
    assert_eq!(split("a\x0cb\x0cc", '\x0c'), vec!["a", "b", "c"]);
    assert_eq!(split("", ','), vec![""]);
    assert_eq!(split(",", ','), vec!["", ""]);
    assert_eq!(split("a,,b,", ','), vec!["a", "", "b", ""]);
    assert_eq!(split("no separator", ','), vec!["no separator"]);
}

#[test]
fn white_space_is_what_unicode_says() {
    for code in 0..=0x10FFFFu32 {
        if let Some(c) = char::from_u32(code) {
            assert_eq!(char_is_space(c), c.is_whitespace(), "U+{:04X}", code);
        }
    }
}

#[test]
fn trim_agrees_with_the_standard_library() {
    let samples = [
        "",
        " ",
        "x",
        " x",
        "x ",
        "  Pages:   12  \n",
        "\u{feff} x",
        "\u{2003}wide\u{2003}",
        "\u{200b}zero width\u{200b}",
        "a\u{a0}b",
        "\r\n\t tabs and lines \x0b\x0c",
        "\u{1680}\u{2000}\u{200a}\u{202f}\u{205f}\u{85}z",
    ];
    for s in samples {
        assert_eq!(trim(s), s.trim(), "{:?}", s);
    }
}

#[test]
fn parse_unsigned_agrees_with_the_standard_library() {
    let samples = [
        "", "0", "00", "+0", "-0", "1", "+1", "++1", "+-1", " 1", "1 ", "1_000", "0x10", "1e3",
        "18446744073709551615", "18446744073709551616", "4294967295", "4294967296",
        "000000000000000000000000000001", "9999999999999999999", "99999999999999999999", "+", "٣",
        "1.0", "١٢٣",
    ];
    for s in samples {
        assert_eq!(parse_unsigned(s), s.parse::<usize>().ok(), "{:?}", s);
    }
}

#[test]
fn decimal_string_agrees_with_the_standard_library() {
    let mut n: usize = 1;
    for _ in 0..19 {
        for m in [n - 1, n, n + 1, n * 2 + 3] {
            assert_eq!(decimal_string(m), m.to_string());
        }
        n *= 10;
    }
}

#[test]
fn split_agrees_with_the_standard_library() {
    let samples = ["", "a", ",", ",,", "a,b", ",a", "a,", "a,,b", "é,ü,", "one\x0ctwo"];
    for s in samples {
        for sep in [',', '\x0c', 'é'] {
            let expected: Vec<String> = s.split(sep).map(|piece| piece.to_string()).collect();
            assert_eq!(split(s, sep), expected, "{:?} at {:?}", s, sep);
        }
    }
}

#[test]
fn what_is_written_in_decimal_reads_back() {
    for n in [0usize, 1, 9, 10, 11, 99, 100, 101, 65535, 4294967295, usize::MAX] {
        assert_eq!(parse_unsigned(&decimal_string(n)), Some(n));
    }
}
