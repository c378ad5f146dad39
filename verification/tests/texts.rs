use telescope::cli::compact::compact_cell;
use telescope::text::{
    clipped, contains_text, decimal_text, is_blank, is_text_before, is_white_space, joined,
    lowered, replaced, signed_decimal_text, starts_with, trimmed,
};

#[test]
fn white_space_is_the_unicode_property() {
    for code in 0..=0x10ffffu32 {
        if let Some(c) = char::from_u32(code) {
            assert_eq!(is_white_space(c), c.is_whitespace(), "{code:x}");
        }
    }
}

#[test]
fn trimming_agrees_with_the_standard_library() {
    for text in ["", " ", "a", " a ", "\u{a0}a b\u{3000}", "\r\n\t x", "é\u{2003}"] {
        assert_eq!(trimmed(text), text.trim());
        assert_eq!(is_blank(text), text.trim().is_empty());
    }
}

#[test]
fn numbers_are_written_in_decimal() {
    assert_eq!(decimal_text(0), "0");
    assert_eq!(decimal_text(47639), "47639");
    assert_eq!(decimal_text(u64::MAX), u64::MAX.to_string());
    assert_eq!(signed_decimal_text(-900), "-900");
    assert_eq!(signed_decimal_text(i32::MIN), i32::MIN.to_string());
    assert_eq!(signed_decimal_text(0), "0");
}

#[test]
fn replacing_agrees_with_the_standard_library() {
    for (text, needle, with) in [
        ("a{q}b{q}", "{q}", "x"),
        ("aaaa", "aa", "b"),
        ("none", "zz", "b"),
        ("äbä", "ä", "ae"),
        ("", "x", "y"),
    ] {
        assert_eq!(replaced(text, needle, with), text.replace(needle, with));
    }
}

#[test]
fn texts_are_ordered_as_the_standard_library_orders_them() {
    let texts = ["", "a", "aa", "ab", "b", "Z", "é", "\u{ffff}", "\u{10000}"];
    for a in texts {
        for b in texts {
            assert_eq!(is_text_before(a, b), a < b, "{a:?} {b:?}");
        }
    }
}

#[test]
fn lower_case_and_searching_agree_with_the_standard_library() {
    assert_eq!(lowered("AuthoriZation É"), "AuthoriZation É".to_ascii_lowercase());
    assert!(starts_with("Bearer x", "Bearer "));
    assert!(!starts_with("Bear", "Bearer "));
    assert!(contains_text("rust: trait", "t: "));
    assert!(!contains_text("rust", "rusty"));
}

#[test]
fn joining_puts_separators_between() {
    assert_eq!(joined(&vec![], ","), "");
    assert_eq!(joined(&vec!["a".to_string()], ","), "a");
    assert_eq!(joined(&vec!["a".to_string(), "b".to_string()], ", "), "a, b");
}

#[test]
fn clipping_counts_characters() {
    assert_eq!(clipped("äöü".to_string(), 2), "äö");
    assert_eq!(clipped("äöü".to_string(), 3), "äöü");
}

#[test]
fn compact_cells_hold_one_line_of_bounded_length() {
    assert_eq!(compact_cell("  sign \n\t in  ", 80), "sign in");
    assert_eq!(compact_cell("abcdefghij", 10), "abcdefghij");
    assert_eq!(compact_cell("abcdefghijk", 10), "abcdefg...");
    assert_eq!(compact_cell("äöüß", 3), "...");
    assert_eq!(compact_cell("abcd", 2), "...");
    assert_eq!(compact_cell(" \n ", 5), "");
}
