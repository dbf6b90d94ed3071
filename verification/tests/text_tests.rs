use stock_vision::text::{decimal_string, is_whitespace, trim, trim_start_alphabetic, url_encode};

#[test]
fn url_encode_keeps_unreserved_bytes() {
    assert_eq!(url_encode("AZaz09-_.~"), "AZaz09-_.~");
}

#[test]
fn url_encode_spaces_and_symbols() {
    assert_eq!(url_encode("a b"), "a%20b");
    assert_eq!(url_encode("a+b&c"), "a%2Bb%26c");
    assert_eq!(url_encode(""), "");
}

#[test]
fn url_encode_utf8_bytes_upper_hex() {
    // "平安" is E5 B9 B3 E5 AE 89 in UTF-8.
    assert_eq!(url_encode("平安"), "%E5%B9%B3%E5%AE%89");
}

#[test]
fn trim_removes_outer_whitespace() {
    assert_eq!(trim("  000001 \t"), "000001");
    assert_eq!(trim("平安 银行"), "平安 银行");
    assert_eq!(trim("   "), "");
    assert_eq!(trim("\u{3000}中文\u{3000}"), "中文");
}

#[test]
fn trim_start_alphabetic_strips_letters() {
    assert_eq!(trim_start_alphabetic("SZ000001"), "000001");
    assert_eq!(trim_start_alphabetic("sh600519"), "600519");
    assert_eq!(trim_start_alphabetic("平安"), "");
    assert_eq!(trim_start_alphabetic("000001"), "000001");
}

#[test]
fn decimal_digits() {
    assert_eq!(decimal_string(0), "0");
    assert_eq!(decimal_string(7), "7");
    assert_eq!(decimal_string(2000), "2000");
    assert_eq!(decimal_string(u64::MAX), "18446744073709551615");
}

#[test]
fn url_encoding_length_and_alphabet() {
    let r = url_encode("平安 a~");
    // six UTF-8 bytes and a space take three characters each; "a" and "~" one.
    assert_eq!(r.len(), 6 * 3 + 3 + 1 + 1);
    assert!(r.chars().all(|c| c.is_ascii_alphanumeric() || "-_.~%".contains(c)));
    assert_eq!(r, "%E5%B9%B3%E5%AE%89%20a~");
}

#[test]
fn whitespace_agrees_with_std_on_every_char() {
    let mut count = 0;
    for v in 0..=0x10FFFFu32 {
        if let Some(c) = char::from_u32(v) {
            assert_eq!(is_whitespace(c), c.is_whitespace(), "U+{:04X}", v);
            if is_whitespace(c) {
                count += 1;
            }
        }
    }
    assert_eq!(count, 25);
}

#[test]
fn trim_removes_unicode_spaces() {
    assert_eq!(trim("\u{3000}\u{a0} 000001\u{2003}\n"), "000001");
    assert_eq!(trim("\u{200b}a"), "\u{200b}a");
}
