use pi_panel::text::{begins_with, chars_of, clean, is_white_space_char, same_text};

fn chars(s: &str) -> Vec<char> {
    s.chars().collect()
}

#[test]
fn characters_come_in_order() {
    assert_eq!(chars_of(""), Vec::<char>::new());
    assert_eq!(chars_of("a/盘 b"), vec!['a', '/', '盘', ' ', 'b']);
}

#[test]
fn same_text_compares_every_character() {
    assert!(same_text("", ""));
    assert!(same_text("usb", "usb"));
    assert!(!same_text("usb", "usB"));
    assert!(!same_text("usb", "usb "));
    assert!(!same_text("usb", ""));
}

#[test]
fn white_space_is_what_unicode_says() {
    let white = [
        '\u{9}', '\u{a}', '\u{b}', '\u{c}', '\u{d}', ' ', '\u{85}', '\u{a0}', '\u{1680}', '\u{2000}',
        '\u{2005}', '\u{200a}', '\u{2028}', '\u{2029}', '\u{202f}', '\u{205f}', '\u{3000}',
    ];
    for c in white {
        assert!(is_white_space_char(c));
    }
    let other = [
        '\u{0}', '\u{8}', '\u{e}', '\u{1f}', '!', '.', '/', 'a', '\u{84}', '\u{86}', '\u{9f}',
        '\u{a1}', '\u{167f}', '\u{1681}', '\u{180e}', '\u{1fff}', '\u{200b}', '\u{2027}', '\u{202a}',
        '\u{2060}', '\u{2fff}', '\u{3001}', '\u{feff}', '\u{10ffff}',
    ];
    for c in other {
        assert!(!is_white_space_char(c));
    }
}

#[test]
fn white_space_agrees_with_the_standard_library() {
    let mut code: u32 = 0;
    while code <= 0x10ffff {
        if let Some(c) = char::from_u32(code) {
            assert_eq!(is_white_space_char(c), c.is_whitespace());
        }
        code += 1;
    }
}

#[test]
fn cleaning_trims_then_drops_leading_dots() {
    assert_eq!(clean(""), "");
    assert_eq!(clean("usb1"), "usb1");
    assert_eq!(clean("  usb1\t\r\n"), "usb1");
    assert_eq!(clean("..usb1.."), "usb1..");
    assert_eq!(clean(" . usb1 . "), " usb1 .");
    assert_eq!(clean(" \u{2003} "), "");
    assert_eq!(clean("...."), "");
    assert_eq!(clean(".\u{a0}."), "\u{a0}.");
    assert_eq!(clean("a b"), "a b");
}

#[test]
fn cleaning_agrees_with_the_standard_library() {
    let inputs = [
        "", " ", ".", " .", ". ", "../x", " ./mnt/盘 ", "\u{85}x\u{85}", "x\u{200b}", "\n..\n",
        "...a...", " . . ", "\u{3000}.\u{3000}",
    ];
    for raw in inputs {
        assert_eq!(clean(raw), raw.trim().trim_start_matches('.'));
    }
}

#[test]
fn a_prefix_is_told_character_by_character() {
    assert!(begins_with(&chars("/mnt/usb"), &chars("/mnt/")));
    assert!(begins_with(&chars("/mnt/"), &chars("/mnt/")));
    assert!(begins_with(&chars("/mnt/"), &chars("")));
    assert!(begins_with(&chars(""), &chars("")));
    assert!(!begins_with(&chars("/mnt"), &chars("/mnt/")));
    assert!(!begins_with(&chars("/mnu/usb"), &chars("/mnt/")));
    assert!(!begins_with(&chars(""), &chars("/")));
}
