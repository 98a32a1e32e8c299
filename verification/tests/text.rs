use vproxy::text::{align_left, chars_of, joined, parse_u32, same_bytes, same_text, to_decimal, trim};

fn std_and_ours_read(text: &str) {
    let chars = chars_of(text);
    let expected: Option<u32> = text.trim().parse().ok();
    assert_eq!(parse_u32(trim(&chars)), expected, "{:?}", text);
}

#[test]
fn numbers_read_as_std_reads_them() {
    let texts = [
        "", " ", "0", "7", "42", "4294967295", "4294967296", "99999999999999999999", "+5", "+",
        "-1", "-0", "++1", "1 2", "12a", "a12", "\n12\r\n", "\u{3000}12\u{2003}", "1_000", "0x10",
        "00000000000000000000012", "\u{200b}12", "\u{85}9\u{a0}", "\u{1680}3\u{2028}", "١٢",
        "+ 5", "12\u{0}",
    ];
    for text in texts {
        std_and_ours_read(text);
    }
    assert_eq!(parse_u32(&chars_of("4294967295")), Some(u32::MAX));
    assert_eq!(parse_u32(&chars_of("4294967296")), None);
    assert_eq!(parse_u32(&chars_of(" 1")), None);
}

#[test]
fn white_space_is_that_of_unicode() {
    let mut p: u32 = 0;
    while p < 0x11000 {
        if let Some(c) = char::from_u32(p) {
            let text = [c, 'x', c];
            let trimmed = trim(&text);
            assert_eq!(trimmed.len() == 1, c.is_whitespace(), "{:x}", p);
        }
        p += 1;
    }
    assert_eq!(trim(&[' ', '\t', '\n']).len(), 0);
    assert_eq!(trim(&[' ', 'a', ' ', 'b', ' ']), &['a', ' ', 'b']);
}

#[test]
fn decimals_read_back() {
    for n in [0u32, 1, 9, 10, 99, 100, 12345, u32::MAX - 1, u32::MAX] {
        let written = to_decimal(n as u64);
        assert_eq!(written, n.to_string());
        let framed = joined(&joined(" \n", &written), "\t\r\n");
        assert_eq!(parse_u32(trim(&chars_of(&framed))), Some(n));
    }
    assert_eq!(to_decimal(u64::MAX), "18446744073709551615");
}

#[test]
fn cells_are_padded_as_format_pads_them() {
    for text in ["", "a", "daemon", "12345678", "123456789", "héé"] {
        assert_eq!(align_left(text, 8), format!("{:<8}", text));
    }
    assert_eq!(align_left("pm2", 10), "pm2       ");
}

#[test]
fn comparisons() {
    assert!(same_bytes(b"vproxy", b"vproxy"));
    assert!(!same_bytes(b"vproxy", b"vproxz"));
    assert!(!same_bytes(b"vproxy", b"vprox"));
    assert!(same_bytes(b"", b""));
    assert!(same_text("CONNECT", "CONNECT"));
    assert!(!same_text("CONNECT", "connect"));
    assert!(!same_text("é", "e"));
}
