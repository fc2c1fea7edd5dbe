use charge_control::text::{is_white_space, same_text, trim};

#[test]
fn white_space_is_what_unicode_says() {
    for code in 0..=0x10ffff_u32 {
        if let Some(c) = char::from_u32(code) {
            assert_eq!(c.is_whitespace(), is_white_space(c), "U+{code:04X}");
        }
    }
}

#[test]
fn white_space_characters_one_by_one() {
    for c in [
        '\t', '\n', '\u{b}', '\u{c}', '\r', ' ', '\u{85}', '\u{a0}', '\u{1680}', '\u{2000}',
        '\u{2005}', '\u{200a}', '\u{2028}', '\u{2029}', '\u{202f}', '\u{205f}', '\u{3000}',
    ] {
        assert!(is_white_space(c), "{c:?}");
    }
    for c in [
        'a', '0', '-', '\u{0}', '\u{8}', '\u{e}', '\u{1f}', '\u{7f}', '\u{180e}', '\u{200b}',
        '\u{2060}', '\u{feff}', '\u{1fff}', '\u{2027}', '\u{202a}', '\u{3001}',
    ] {
        assert!(!is_white_space(c), "{c:?}");
    }
}

#[test]
fn trim_removes_white_space_at_both_ends_only() {
    assert_eq!("", trim(""));
    assert_eq!("", trim(" \t\n"));
    assert_eq!("a", trim("a"));
    assert_eq!("a", trim(" a"));
    assert_eq!("a", trim("a "));
    assert_eq!("a b", trim("  a b  "));
    assert_eq!("a \n b", trim("\r\na \n b\n"));
    assert_eq!("Hello\tworld", trim("\n Hello\tworld\t\n"));
    assert_eq!("é\u{a0}ü", trim("\u{2003}é\u{a0}ü\u{3000}"));
    assert_eq!("\u{200b}", trim(" \u{200b} "));
}

#[test]
fn trim_agrees_with_std() {
    let pieces = ["", " ", "\n", "\u{a0}", "\u{3000}", "a", "é", "\u{200b}", "-7", "\u{1680}x"];
    for a in pieces {
        for b in pieces {
            for c in pieces {
                for d in pieces {
                    let s = format!("{a}{b}{c}{d}");
                    assert_eq!(s.trim(), trim(&s), "{s:?}");
                }
            }
        }
    }
}

#[test]
fn same_text_compares_character_by_character() {
    assert!(same_text("", ""));
    assert!(same_text("auto", "auto"));
    assert!(same_text("é\u{3000}", "é\u{3000}"));
    assert!(!same_text("auto", "Auto"));
    assert!(!same_text("auto", "auto "));
    assert!(!same_text("auto", "aut"));
    assert!(!same_text("", "a"));
    assert!(!same_text("e\u{301}", "é"));
}
