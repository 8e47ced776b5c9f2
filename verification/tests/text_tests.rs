use rudeauth::text::{
    chars_of, decimal_text, find_in, hex_text_width, index_of, is_white_space, substring, trim,
    trim_end_matching, trim_matching, CharSet,
};

#[test]
fn white_space_matches_std() {
    for u in 0u32..0x3100 {
        if let Some(c) = char::from_u32(u) {
            assert_eq!(is_white_space(c), c.is_whitespace(), "U+{:04X}", u);
        }
    }
    for c in ['\u{feff}', '\u{200b}', '\u{10ffff}', 'x'] {
        assert_eq!(is_white_space(c), c.is_whitespace());
    }
}

#[test]
fn trims_match_std() {
    let samples = [
        "", " ", "  abc  ", "\tabc\r\n", "abc", "a b", "\u{3000}x\u{a0}", "\u{85}", "  é ü  ", "\n\n",
    ];
    for s in samples {
        assert_eq!(trim(s), s.trim());
        assert_eq!(trim_end_matching(s, CharSet::WhiteSpace), s.trim_end());
    }
    assert_eq!(trim_end_matching("https://x.com///", CharSet::Slash), "https://x.com");
    assert_eq!(trim_end_matching("///", CharSet::Slash), "");
    assert_eq!(trim_end_matching("Intel \0\0 ", CharSet::SpaceOrNul), "Intel");
    assert_eq!(trim_matching("\"C02X\"", CharSet::Quote), "C02X");
    assert_eq!(trim_matching("\"\"", CharSet::Quote), "");
}

#[test]
fn searching_and_slicing() {
    let v = chars_of("héllo:wörld");
    assert_eq!(v.len(), 11);
    assert_eq!(index_of(&v, ':', 0), 5);
    assert_eq!(index_of(&v, ':', 6), 11);
    assert_eq!(find_in(&v, &chars_of("wö"), 0), 6);
    assert_eq!(find_in(&v, &chars_of("zz"), 0), 11);
    assert_eq!(substring("héllo:wörld", 6, 11), "wörld");
}

#[test]
fn numbers_render_like_std() {
    for n in [0usize, 1, 2, 9, 10, 99, 100, 12345, usize::MAX] {
        assert_eq!(decimal_text(n), n.to_string());
    }
    for n in [0u32, 1, 0xabcdef, 0x1234_5678, u32::MAX] {
        assert_eq!(hex_text_width(n, 8), format!("{:08X}", n));
    }
}
