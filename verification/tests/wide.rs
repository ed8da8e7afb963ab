use system_uri::wide::to_wide_chars;

fn expected(s: &str) -> Vec<u16> {
    let mut units: Vec<u16> = s.encode_utf16().collect();
    units.push(0);
    units
}

#[test]
fn wide_ascii_is_zero_terminated() {
    assert_eq!(to_wide_chars("open"), vec![111, 112, 101, 110, 0]);
}

#[test]
fn wide_empty_is_a_single_zero() {
    assert_eq!(to_wide_chars(""), vec![0]);
}

#[test]
fn wide_matches_utf16_of_std() {
    for s in ["myapp://host/path?q=1", "héllo wörld", "日本語", "a😀b", "\u{FFFF}\u{10000}\u{10FFFF}"] {
        assert_eq!(to_wide_chars(s), expected(s));
    }
}

#[test]
fn wide_astral_character_is_a_surrogate_pair() {
    assert_eq!(to_wide_chars("😀"), vec![0xD83D, 0xDE00, 0]);
}

#[test]
fn wide_units_at_the_edges_of_the_planes() {
    assert_eq!(to_wide_chars("\u{7F}\u{80}"), vec![0x007F, 0x0080, 0]);
    assert_eq!(to_wide_chars("\u{D7FF}\u{E000}"), vec![0xD7FF, 0xE000, 0]);
    assert_eq!(to_wide_chars("\u{FFFF}"), vec![0xFFFF, 0]);
    assert_eq!(to_wide_chars("\u{10000}"), vec![0xD800, 0xDC00, 0]);
    assert_eq!(to_wide_chars("\u{103FF}\u{10400}"), vec![0xD800, 0xDFFF, 0xD801, 0xDC00, 0]);
    assert_eq!(to_wide_chars("\u{10FFFF}"), vec![0xDBFF, 0xDFFF, 0]);
}

#[test]
fn wide_has_its_only_zero_at_the_end() {
    for s in ["", "a", "myapp://x/y?z", "ü\u{10000}\n"] {
        let wide = to_wide_chars(s);
        assert_eq!(wide.iter().position(|unit| *unit == 0), Some(wide.len() - 1));
    }
}

#[test]
fn wide_keeps_a_nul_character_as_a_zero_unit() {
    assert_eq!(to_wide_chars("a\0b"), vec![0x61, 0, 0x62, 0]);
}

#[test]
fn wide_of_joined_texts_is_the_joined_encodings() {
    for (a, b) in [("", ""), ("a", ""), ("", "😀"), ("myapp://", "é😀\u{FFFF}"), ("😀", "😀")] {
        let joined = to_wide_chars(&format!("{}{}", a, b));
        let mut parts = to_wide_chars(a);
        parts.pop();
        parts.extend(to_wide_chars(b));
        assert_eq!(joined, parts);
    }
}

#[test]
fn wide_can_be_read_back() {
    for s in ["", "open", "myapp://søk?q=😀", "\u{D7FF}\u{E000}\u{FFFF}\u{10000}\u{10FFFF}"] {
        let wide = to_wide_chars(s);
        assert_eq!(String::from_utf16(&wide[..wide.len() - 1]).unwrap(), s);
    }
}
