use system_uri::escape::escape_controls;

#[test]
fn escape_leaves_plain_uri_alone() {
    assert_eq!(escape_controls("myapp://host/path?q=1&r=2#frag"), "myapp://host/path?q=1&r=2#frag");
}

#[test]
fn escape_of_empty_is_empty() {
    assert_eq!(escape_controls(""), "");
}

#[test]
fn escape_replaces_line_feed() {
    assert_eq!(
        escape_controls("scheme://evil\nmalicious-command"),
        "scheme://evil%0Amalicious-command"
    );
}

#[test]
fn escape_replaces_every_line_feed() {
    assert_eq!(escape_controls("\na\n\nb\n"), "%0Aa%0A%0Ab%0A");
}

#[test]
fn escape_replaces_carriage_return() {
    assert_eq!(escape_controls("s://a\rb"), "s://a%0Db");
    assert_eq!(escape_controls("s://a\r\nb"), "s://a%0D%0Ab");
}

#[test]
fn escape_replaces_tab_nul_and_delete() {
    assert_eq!(escape_controls("a\tb"), "a%09b");
    assert_eq!(escape_controls("a\0b"), "a%00b");
    assert_eq!(escape_controls("a\u{7F}b"), "a%7Fb");
}

#[test]
fn escape_replaces_each_ascii_control_by_its_two_hex_digits() {
    for code in (0u32..=0x1F).chain(0x7F..=0x7F) {
        let c = char::from_u32(code).unwrap();
        assert_eq!(escape_controls(&c.to_string()), format!("%{:02X}", code));
    }
}

#[test]
fn escape_at_the_edges_of_the_control_range() {
    assert_eq!(escape_controls("\u{1F}"), "%1F");
    assert_eq!(escape_controls("\u{20}"), " ");
    assert_eq!(escape_controls("\u{7E}"), "~");
    assert_eq!(escape_controls("\u{7F}"), "%7F");
    assert_eq!(escape_controls("\u{80}"), "\u{80}");
}

#[test]
fn escape_keeps_every_character_that_is_no_ascii_control() {
    for code in (0x20u32..0x7F).chain(0x80..0x100) {
        let text = char::from_u32(code).unwrap().to_string();
        assert_eq!(escape_controls(&text), text);
    }
    assert_eq!(escape_controls("a b\"c%0A é😀\u{85}\u{2028}"), "a b\"c%0A é😀\u{85}\u{2028}");
}

#[test]
fn escape_leaves_no_ascii_control_behind() {
    for uri in ["\n", "\r\n", "x://a\0b\tc", "\u{1}\u{2}\u{1B}[0m", "ü\u{7F}ü"] {
        assert!(!escape_controls(uri).chars().any(|c| c.is_ascii_control()));
    }
}

#[test]
fn escape_agrees_with_replace_of_std_where_line_feed_is_the_only_control() {
    for uri in ["", "\n", "x://a\nb", "no line feed", "\n\n\n", "ü\nü"] {
        assert_eq!(escape_controls(uri), uri.replace("\n", "%0A"));
    }
}

#[test]
fn escape_grows_by_two_characters_per_control() {
    let uri = "one\ntwo\rthree\0";
    assert_eq!(escape_controls(uri).chars().count(), uri.chars().count() + 2 * 3);
}
