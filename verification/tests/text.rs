use order_lookup::text::{is_blank, is_white_space};

#[test]
fn white_space_is_what_the_standard_library_trims() {
    let mut count = 0;
    for code in 0..=0x10FFFFu32 {
        if let Some(c) = char::from_u32(code) {
            assert_eq!(is_white_space(c), c.is_whitespace(), "U+{:04X}", code);
            if is_white_space(c) {
                count += 1;
            }
        }
    }
    assert_eq!(count, 25);
}

#[test]
fn blank_is_empty_after_trimming() {
    for s in ["", " ", "   ", "\t\n\r ", "\u{85}\u{a0}", "\u{2028}\u{2029}\u{202f}\u{205f}"] {
        assert!(is_blank(s), "{:?}", s);
        assert!(s.trim().is_empty());
    }
    for s in ["x", " x", "x ", " \u{200b} ", "\u{feff}", "\u{180e}", "0", "\u{0}"] {
        assert!(!is_blank(s), "{:?}", s);
        assert!(!s.trim().is_empty());
    }
}
