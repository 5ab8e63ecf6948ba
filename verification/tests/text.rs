use vps_monitor::text::{
    chars_of, decimal_text, ends_with, eq_ignore_ascii_case, hex_text, is_white_space, same_text,
    trim,
};

#[test]
fn white_space_is_that_of_unicode() {
    for code in 0..=0x10ffffu32 {
        if let Some(c) = char::from_u32(code) {
            assert_eq!(is_white_space(c), c.is_whitespace(), "U+{code:04X}");
        }
    }
}

#[test]
fn characters_are_taken_in_order() {
    assert_eq!(chars_of("a機\u{1f600}"), vec!['a', '機', '\u{1f600}']);
    assert!(chars_of("").is_empty());
}

#[test]
fn trimming_cuts_white_space_at_the_ends() {
    for s in [
        "",
        " ",
        "\t\n",
        "bob",
        " bob ",
        "\u{3000}機器 一\u{3000}",
        "\u{85}\u{a0}x y\r\n",
        "\u{200b}x",
    ] {
        assert_eq!(trim(s), s.trim());
        assert_eq!(trim(trim(s)), trim(s));
    }
    assert_eq!(trim("  a b\t"), "a b");
}

#[test]
fn decimal_notation() {
    for n in [0, 9, 10, 99, 100, 300, 4096, 1_000_000, u64::MAX] {
        assert_eq!(decimal_text(n), n.to_string());
    }
    assert_eq!(decimal_text(1203), "1203");
}

#[test]
fn hexadecimal_notation() {
    assert_eq!(hex_text(&[]), "");
    assert_eq!(hex_text(&[0x00, 0x0f, 0xa0, 0xff]), "000fa0ff");
    let all: Vec<u8> = (0..=255).collect();
    let expected: String = all.iter().map(|b| format!("{b:02x}")).collect();
    assert_eq!(hex_text(&all), expected);
}

#[test]
fn different_bytes_have_different_hexadecimal_notations() {
    assert_ne!(hex_text(&[1, 0]), hex_text(&[0, 1]));
    assert_ne!(hex_text(&[0]), hex_text(&[0, 0]));
}

#[test]
fn texts_are_compared_by_their_characters() {
    assert!(same_text("", ""));
    assert!(same_text("名", "名"));
    assert!(!same_text("a", "b"));
    assert!(!same_text("a", "aa"));
}

#[test]
fn suffixes() {
    assert!(ends_with("1234****", "****"));
    assert!(ends_with("****", "****"));
    assert!(ends_with("機器", "器"));
    assert!(ends_with("x", ""));
    assert!(!ends_with("***", "****"));
    assert!(!ends_with("****x", "****"));
}

#[test]
fn case_is_ignored_for_ascii_letters_alone() {
    assert!(eq_ignore_ascii_case("TrUe", "true"));
    assert!(eq_ignore_ascii_case("", ""));
    assert!(!eq_ignore_ascii_case("true", "tru"));
    assert!(!eq_ignore_ascii_case("@", "`"));
    assert!(!eq_ignore_ascii_case("É", "é"));
    for a in 0..128u8 {
        for b in 0..128u8 {
            let (x, y) = ((a as char).to_string(), (b as char).to_string());
            assert_eq!(eq_ignore_ascii_case(&x, &y), x.eq_ignore_ascii_case(&y));
        }
    }
}
