use frame_probe::numeral::{chars_of, digit_of, is_space, parse_hex, push_hex};

#[test]
fn white_space_is_what_std_calls_white_space() {
    let mut code: u32 = 0;
    while code <= 0x10FFFF {
        if let Some(c) = char::from_u32(code) {
            assert_eq!(is_space(c), c.is_whitespace(), "U+{:04X}", code);
        }
        code += 1;
    }
}

#[test]
fn digits_of_either_case_have_their_value() {
    assert_eq!(digit_of('0'), Some(0));
    assert_eq!(digit_of('9'), Some(9));
    assert_eq!(digit_of('a'), Some(10));
    assert_eq!(digit_of('f'), Some(15));
    assert_eq!(digit_of('A'), Some(10));
    assert_eq!(digit_of('F'), Some(15));
}

#[test]
fn other_characters_are_no_digits() {
    for c in ['g', 'G', '/', ':', '@', '`', ' ', '+', '-', '_', 'x', '\u{ff11}', '\u{0661}'] {
        assert_eq!(digit_of(c), None, "{:?}", c);
    }
}

#[test]
fn digit_values_agree_with_std() {
    let mut code: u32 = 0;
    while code <= 0x10FFFF {
        if let Some(c) = char::from_u32(code) {
            assert_eq!(digit_of(c).map(u32::from), c.to_digit(16), "U+{:04X}", code);
        }
        code += 1;
    }
}

#[test]
fn text_is_split_into_its_characters() {
    assert_eq!(chars_of(""), Vec::<char>::new());
    assert_eq!(chars_of("a\u{e9}\u{3000}\u{1f600}"), vec!['a', '\u{e9}', '\u{3000}', '\u{1f600}']);
}

#[test]
fn plain_numerals_are_read() {
    assert_eq!(parse_hex("0"), Some(0));
    assert_eq!(parse_hex("00000000"), Some(0));
    assert_eq!(parse_hex("00000043"), Some(67));
    assert_eq!(parse_hex("0000004b"), Some(75));
    assert_eq!(parse_hex("0000004B"), Some(75));
    assert_eq!(parse_hex("DeadBeef"), Some(0xDEADBEEF));
    assert_eq!(parse_hex("ffffffff"), Some(0xFFFFFFFF));
}

#[test]
fn white_space_around_a_numeral_is_dropped() {
    assert_eq!(parse_hex("      1f"), Some(31));
    assert_eq!(parse_hex("1f      "), Some(31));
    assert_eq!(parse_hex("   1f   "), Some(31));
    assert_eq!(parse_hex("\t\n\r 1f\u{b}\u{c}"), Some(31));
    assert_eq!(parse_hex("\u{a0}1f\u{3000}"), Some(31));
    assert_eq!(parse_hex("\u{2003}\u{85}1f\u{2028}\u{2029}"), Some(31));
}

#[test]
fn a_sign_is_no_part_of_a_numeral() {
    for text in ["+1f", " +0000ff", "+0000001a", "+0", "-1f", "+", "-", " +1f ", "1f+", "+-1"] {
        assert_eq!(parse_hex(text), None, "{:?}", text);
    }
}

#[test]
fn case_and_padding_do_not_change_the_value() {
    assert_eq!(parse_hex("0000001a"), Some(26));
    assert_eq!(parse_hex("0000001A"), Some(26));
    assert_eq!(parse_hex("  1a    "), Some(26));
    assert_eq!(parse_hex("1a"), Some(26));
}

#[test]
fn what_is_no_numeral_is_refused() {
    for text in [
        "", " ", "        ", "+", " + ", "-1", "-", "++1", "+-1", "1+", "1 2", "1\t2", "0x10",
        "12g4", "1_000", "1.0", "\u{ff11}", "12\u{0}", "ab cd",
    ] {
        assert_eq!(parse_hex(text), None, "{:?}", text);
    }
}

#[test]
fn numbers_beyond_the_word_are_refused() {
    let digits = std::mem::size_of::<usize>() * 2;
    let largest = "f".repeat(digits);
    assert_eq!(parse_hex(&largest), Some(usize::MAX));
    assert_eq!(parse_hex(&format!("1{}", "0".repeat(digits))), None);
    assert_eq!(parse_hex(&format!("{}0", largest)), None);
    assert_eq!(parse_hex(&format!("{}g", largest)), None);
    assert_eq!(parse_hex(&format!("{}{}", "0".repeat(40), largest)), Some(usize::MAX));
}

#[test]
fn unsigned_text_is_read_as_std_reads_it() {
    for text in [
        "0", "7", "  7", "7  ", "", "-7", "00000043", "ABCDEF01", "abcdef01", "12 34",
        "\u{a0}12", "12\u{1680}", "\u{200b}12", "12\u{180e}", "\u{feff}12", "0012", "1,2",
        "ffffffffffffffff", "10000000000000000", "\n\n\n\n",
    ] {
        assert_eq!(parse_hex(text), usize::from_str_radix(text.trim(), 16).ok(), "{:?}", text);
    }
}

#[test]
fn text_with_a_plus_sign_is_refused_where_std_reads_it() {
    for text in ["+7", "+0012", " +12 ", "\u{a0}+ff"] {
        assert!(usize::from_str_radix(text.trim(), 16).is_ok(), "{:?}", text);
        assert_eq!(parse_hex(text), None, "{:?}", text);
    }
}

#[test]
fn digits_are_written_in_lower_case() {
    let mut written: Vec<u8> = Vec::new();
    for value in 0..16u32 {
        push_hex(&mut written, value, 1);
    }
    assert_eq!(written, b"0123456789abcdef".to_vec());
}

#[test]
fn numbers_are_written_with_fixed_width() {
    let mut out: Vec<u8> = Vec::new();
    push_hex(&mut out, 67, 8);
    assert_eq!(out, b"00000043".to_vec());
    push_hex(&mut out, 0xDEADBEEF, 8);
    assert_eq!(out, b"00000043deadbeef".to_vec());
    push_hex(&mut out, 0x1234, 2);
    assert_eq!(out, b"00000043deadbeef34".to_vec());
    push_hex(&mut out, 0x1234, 0);
    assert_eq!(out, b"00000043deadbeef34".to_vec());
}

#[test]
fn writing_agrees_with_formatting() {
    for n in [0u32, 1, 15, 16, 255, 256, 0xABCDEF, 0x7FFFFFFF, 0x80000000, u32::MAX] {
        let mut out: Vec<u8> = Vec::new();
        push_hex(&mut out, n, 8);
        assert_eq!(out, format!("{:08x}", n).into_bytes());
    }
}

#[test]
fn what_is_written_reads_back() {
    for n in [0u32, 9, 10, 0x43, 0x62, 0xFFFF, 0x10000, u32::MAX] {
        let mut out: Vec<u8> = Vec::new();
        push_hex(&mut out, n, 8);
        assert_eq!(parse_hex(std::str::from_utf8(&out).unwrap()), Some(n as usize));
    }
}
