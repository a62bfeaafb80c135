use ebus_thermostat::text;

#[test]
fn split_keeps_every_stretch() {
    let parts: Vec<String> = text::split("a/bc//d/", '/')
        .into_iter()
        .map(|p| p.into_iter().collect())
        .collect();
    assert_eq!(parts, vec!["a", "bc", "", "d", ""]);
}

#[test]
fn split_of_nothing_is_one_empty_part() {
    let parts = text::split("", '/');
    assert_eq!(parts, vec![Vec::<char>::new()]);
}

#[test]
fn split_undoes_join() {
    let fields = vec!["0".to_string(), "60".to_string(), "".to_string(), "-".to_string()];
    let joined = text::join(&fields, ';');
    assert_eq!(joined, "0;60;;-");
    let parts: Vec<String> = text::split(&joined, ';')
        .into_iter()
        .map(|p| p.into_iter().collect())
        .collect();
    assert_eq!(parts, fields);
}

#[test]
fn join_of_nothing_is_empty() {
    assert_eq!(text::join(&Vec::new(), ';'), "");
}

#[test]
fn contains_finds_text_anywhere() {
    assert!(text::contains("done", "done"));
    assert!(text::contains("ok, done.", "done"));
    assert!(text::contains("abandoned", "done"));
    assert!(text::contains("anything", ""));
    assert!(text::contains("", ""));
    assert!(!text::contains("don", "done"));
    assert!(!text::contains("Done", "done"));
    assert!(!text::contains("", "done"));
}

#[test]
fn contains_starts_again_after_a_false_start() {
    assert!(text::contains("dodone", "done"));
    assert!(text::contains("aaab", "aab"));
}

#[test]
fn trim_agrees_with_std() {
    for s in [
        "",
        " ",
        "done",
        "  done\n\n",
        "\tERR: element not found\r\n",
        "a b",
        "\u{a0}x\u{3000}",
        "\u{200b}x\u{200b}",
        "\u{85}y\u{2028}\u{205f}",
        "\u{180e}z",
    ] {
        assert_eq!(text::trim(s), s.trim());
    }
}

#[test]
fn white_space_agrees_with_std() {
    for n in 0..=0x10ffffu32 {
        if let Some(c) = char::from_u32(n) {
            assert_eq!(text::is_white_space(c), c.is_whitespace(), "{n:x}");
        }
    }
}

#[test]
fn quotes_are_mended() {
    assert_eq!(
        text::to_double_quotes("[{'a': {'name': \"x\"}}]"),
        "[{\"a\": {\"name\": \"x\"}}]"
    );
}

#[test]
fn mending_keeps_length_and_is_done_once() {
    let s = "it's '\u{e9}'";
    let mended = text::to_double_quotes(s);
    assert_eq!(mended.chars().count(), s.chars().count());
    assert!(!mended.contains('\''));
    assert_eq!(text::to_double_quotes(&mended), mended);
}

#[test]
fn decimals_agree_with_std() {
    for n in 0..=255u8 {
        assert_eq!(text::decimal_text(n), format!("{}", n));
    }
}

#[test]
fn characters_are_compared() {
    assert!(text::spells(&vec!['s', 'e', 't'], "set"));
    assert!(!text::spells(&vec!['s', 'e'], "set"));
    assert!(!text::spells(&vec!['s', 'e', 'x'], "set"));
    assert!(text::holds_char("a/b", '/'));
    assert!(!text::holds_char("ab", '/'));
    assert!(text::same_text("mode", "mode"));
    assert!(!text::same_text("mode", "temp"));
}

#[test]
fn what_follows_a_prefix() {
    for (s, prefix) in [("abc", "ab"), ("abc", ""), ("abc", "abc"), ("abc", "abcd"), ("abc", "b"), ("", "a")] {
        assert_eq!(text::after_prefix(s, prefix), s.strip_prefix(prefix).map(|r| r.to_string()));
    }
    assert_eq!(text::after_prefix("\u{e9}x", "\u{e9}"), Some("x".to_string()));
}
