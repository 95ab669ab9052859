use scribe::text::{decimal_text, is_white_space, same_text, trim};

#[test]
fn white_space_is_what_std_takes_for_it() {
    for code in 0..=0x10ffff_u32 {
        if let Some(c) = char::from_u32(code) {
            assert_eq!(is_white_space(c), c.is_whitespace(), "{code:x}");
        }
    }
}

#[test]
fn trims_both_ends() {
    for text in ["", " ", "a", " a ", "\u{3000}\tä b\r\n", "a b", "\u{200b}x"] {
        assert_eq!(trim(text), text.trim());
    }
}

#[test]
fn decimals() {
    for n in [0, 7, 9, 10, 99, 100, 24_000, u64::MAX] {
        assert_eq!(decimal_text(n), n.to_string());
    }
}

#[test]
fn texts() {
    assert!(same_text("a", "a"));
    assert!(!same_text("a", "A"));
    assert!(!same_text("a", "ab"));
    assert_eq!(scribe::text::concat("ab", "c"), "abc");
}
