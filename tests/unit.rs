use unicode_width::{UnicodeWidthChar, UnicodeWidthStr};

#[test]
fn tests_test_str() {
    assert_eq!(UnicodeWidthStr::width("ｈｅｌｌｏ"), 10);
    assert_eq!("ｈｅｌｌｏ".width_cjk(), 10);
    assert_eq!(UnicodeWidthStr::width("\0\0\0\x01\x01"), 0);
    assert_eq!("\0\0\0\x01\x01".width_cjk(), 0);
    assert_eq!(UnicodeWidthStr::width(""), 0);
    assert_eq!("".width_cjk(), 0);
    assert_eq!(
        UnicodeWidthStr::width("\u{2081}\u{2082}\u{2083}\u{2084}"),
        4
    );
    assert_eq!("\u{2081}\u{2082}\u{2083}\u{2084}".width_cjk(), 8);
}

#[test]
fn tests_test_emoji() {
    assert_eq!(UnicodeWidthStr::width("👩"), 2); // Woman
    assert_eq!(UnicodeWidthStr::width("🔬"), 2); // Microscope
    assert_eq!(UnicodeWidthStr::width("👩‍🔬"), 4); // Woman scientist
}

#[test]
fn tests_test_char() {
    assert_eq!(UnicodeWidthChar::width('ｈ'), Some(2));
    assert_eq!('ｈ'.width_cjk(), Some(2));
    assert_eq!(UnicodeWidthChar::width('\x00'), Some(0));
    assert_eq!('\x00'.width_cjk(), Some(0));
    assert_eq!(UnicodeWidthChar::width('\x01'), None);
    assert_eq!('\x01'.width_cjk(), None);
    assert_eq!(UnicodeWidthChar::width('\u{2081}'), Some(1));
    assert_eq!('\u{2081}'.width_cjk(), Some(2));
}

#[test]
fn tests_test_char2() {
    assert_eq!(UnicodeWidthChar::width('\x00'), Some(0));
    assert_eq!('\x00'.width_cjk(), Some(0));

    assert_eq!(UnicodeWidthChar::width('\x0A'), None);
    assert_eq!('\x0A'.width_cjk(), None);

    assert_eq!(UnicodeWidthChar::width('w'), Some(1));
    assert_eq!('w'.width_cjk(), Some(1));

    assert_eq!(UnicodeWidthChar::width('ｈ'), Some(2));
    assert_eq!('ｈ'.width_cjk(), Some(2));

    assert_eq!(UnicodeWidthChar::width('\u{AD}'), Some(1));
    assert_eq!('\u{AD}'.width_cjk(), Some(1));

    assert_eq!(UnicodeWidthChar::width('\u{1160}'), Some(0));
    assert_eq!('\u{1160}'.width_cjk(), Some(0));

    assert_eq!(UnicodeWidthChar::width('\u{a1}'), Some(1));
    assert_eq!('\u{a1}'.width_cjk(), Some(2));

    assert_eq!(UnicodeWidthChar::width('\u{300}'), Some(0));
    assert_eq!('\u{300}'.width_cjk(), Some(0));
}

#[test]
fn tests_unicode_12() {
    assert_eq!(UnicodeWidthChar::width('\u{1F971}'), Some(2));
}

#[test]
fn tests_test_default_ignorable() {
    assert_eq!(UnicodeWidthChar::width('\u{E0000}'), Some(0));

    assert_eq!(UnicodeWidthChar::width('\u{1160}'), Some(0));
    assert_eq!(UnicodeWidthChar::width('\u{3164}'), Some(0));
    assert_eq!(UnicodeWidthChar::width('\u{FFA0}'), Some(0));
}

#[test]
fn tests_test_jamo() {
    assert_eq!(UnicodeWidthChar::width('\u{1100}'), Some(2));
    assert_eq!(UnicodeWidthChar::width('\u{A97C}'), Some(2));
    // Special case: U+115F HANGUL CHOSEONG FILLER
    assert_eq!(UnicodeWidthChar::width('\u{115F}'), Some(2));
    assert_eq!(UnicodeWidthChar::width('\u{1160}'), Some(0));
    assert_eq!(UnicodeWidthChar::width('\u{D7C6}'), Some(0));
    assert_eq!(UnicodeWidthChar::width('\u{11A8}'), Some(0));
    assert_eq!(UnicodeWidthChar::width('\u{D7FB}'), Some(0));
}

#[test]
fn tests_test_prepended_concatenation_marks() {
    assert_eq!(UnicodeWidthChar::width('\u{0600}'), Some(1));
    assert_eq!(UnicodeWidthChar::width('\u{070F}'), Some(1));
    assert_eq!(UnicodeWidthChar::width('\u{08E2}'), Some(1));
    assert_eq!(UnicodeWidthChar::width('\u{110BD}'), Some(1));
}

#[test]
fn tests_test_interlinear_annotation_chars() {
    assert_eq!(UnicodeWidthChar::width('\u{FFF9}'), Some(1));
    assert_eq!(UnicodeWidthChar::width('\u{FFFA}'), Some(1));
    assert_eq!(UnicodeWidthChar::width('\u{FFFB}'), Some(1));
}

#[test]
fn tests_test_hieroglyph_format_controls() {
    assert_eq!(UnicodeWidthChar::width('\u{13430}'), Some(1));
    assert_eq!(UnicodeWidthChar::width('\u{13436}'), Some(1));
    assert_eq!(UnicodeWidthChar::width('\u{1343C}'), Some(1));
}

#[test]
fn tests_test_marks() {
    // Nonspacing marks have 0 width
    assert_eq!(UnicodeWidthChar::width('\u{0301}'), Some(0));
    // Enclosing marks have 0 width
    assert_eq!(UnicodeWidthChar::width('\u{20DD}'), Some(0));
    // Some spacing marks have width 1
    assert_eq!(UnicodeWidthChar::width('\u{09CB}'), Some(1));
    // But others have width 0
    assert_eq!(UnicodeWidthChar::width('\u{09BE}'), Some(0));
}

#[test]
fn tests_test_canonical_equivalence() {
    for c in '\0'..='\u{10FFFF}' {
        // The Kirat Rai vowel signs decompose into two or three letters of
        // one column each, wider than any single character can be.
        if ('\u{16D68}'..='\u{16D6A}').contains(&c) {
            continue;
        }
        let mut nfd = String::new();
        unicode_normalization::char::decompose_canonical(c, |d| nfd.push(d));
        if nfd.chars().eq(std::iter::once(c)) {
            continue;
        }
        assert_eq!(
            c.width().unwrap_or(0),
            nfd.width(),
            "U+{:04X} '{c}' -> U+{:04X?} \"{nfd}\"",
            u32::from(c),
            nfd.chars().map(u32::from).collect::<Vec<_>>()
        );
    }
}
