use huemidity::text::{chars_of, contains_str, push_decimal, starts_with, trim, white_space};

#[test]
fn white_space_agrees_with_the_standard_library_for_every_char() {
    for code in 0u32..=0x10FFFF {
        if let Some(c) = char::from_u32(code) {
            assert_eq!(white_space(c), c.is_whitespace(), "U+{:04X}", code);
        }
    }
}

#[test]
fn trim_agrees_with_the_standard_library() {
    let samples = [
        "", " ", "  a  ", "\t192.168.1.5\n", "\u{3000}ip\u{a0}", "a b", " \u{2028}x y\u{205f}", "x", "\u{85}\u{85}",
        "\u{200b}z\u{200b}",
    ];
    for s in samples {
        assert_eq!(trim(s), s.trim(), "{:?}", s);
    }
}

#[test]
fn decimal_rendering() {
    for n in 0u16..=255 {
        let mut s = String::from("#");
        push_decimal(&mut s, n as u8);
        assert_eq!(s, format!("#{}", n));
    }
}

#[test]
fn prefixes_and_substrings() {
    assert!(starts_with("CC 14", "CC"));
    assert!(!starts_with("Note 14", "CC"));
    assert!(!starts_with("C", "CC"));
    assert!(starts_with("anything", ""));
    assert!(contains_str("Live Input: Active", "Active"));
    assert!(!contains_str("Disconnected", "Connecting"));
    assert!(contains_str("abc", ""));
    assert!(!contains_str("", "a"));
    assert_eq!(chars_of("héllo"), vec!['h', 'é', 'l', 'l', 'o']);
}
