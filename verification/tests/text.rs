use copilot_provider::text::{
    characters, is_blank, is_white_space, join, same_text, same_text_ignoring_ascii_case, trim,
};

fn strings(parts: &[&str]) -> Vec<String> {
    parts.iter().map(|part| part.to_string()).collect()
}

#[test]
fn white_space_is_that_of_unicode() {
    for n in 0..=0x10ffffu32 {
        if let Some(c) = char::from_u32(n) {
            assert_eq!(is_white_space(c), c.is_whitespace(), "{n:x}");
        }
    }
}

#[test]
fn trimming_takes_white_space_off_both_ends() {
    let samples = [
        "", " ", "\u{a0}\u{2003}", "a", " a", "a ", "  a b\t\n", "\u{3000}\u{e9}\u{85}", "\u{200b}a",
        "\r\n x \u{1680}", "\u{1f600} ",
    ];
    for sample in samples {
        assert_eq!(trim(sample), sample.trim());
        assert_eq!(is_blank(sample), sample.trim().is_empty());
    }
    assert_eq!(trim("  auto "), "auto");
}

#[test]
fn ascii_case_is_set_aside() {
    let samples = ["auto", "AUTO", "aUtO", "aut", "auto ", "\u{c9}", "\u{e9}", "[", "{", "@", "`"];
    for a in samples {
        for b in samples {
            assert_eq!(same_text_ignoring_ascii_case(a, b), a.eq_ignore_ascii_case(b), "{a} {b}");
            assert_eq!(same_text(a, b), a == b);
        }
    }
}

#[test]
fn joining_puts_the_separator_between() {
    assert_eq!(join(&strings(&[]), "\n"), "");
    assert_eq!(join(&strings(&["a"]), "\n"), "a");
    assert_eq!(join(&strings(&["a", "", "b"]), "--"), "a----b");
}

#[test]
fn characters_of_a_text() {
    assert_eq!(characters("a\u{e9}\u{1f600}"), vec!['a', '\u{e9}', '\u{1f600}']);
}
