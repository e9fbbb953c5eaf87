use unicode_width::{UnicodeWidthChar, UnicodeWidthStr};

fn check_str(s: &str, plain: usize, cjk: usize) {
    assert_eq!(s.width(), plain, "{:?} has the wrong width", s);
    assert_eq!(s.width_cjk(), cjk, "{:?} has the wrong width (CJK)", s);
}

fn check_char(c: char, plain: Option<usize>, cjk: Option<usize>) {
    assert_eq!(c.width(), plain, "{:?} has the wrong width", c);
    assert_eq!(c.width_cjk(), cjk, "{:?} has the wrong width (CJK)", c);
}

#[test]
fn test_str() {
    check_str("ｈｅｌｌｏ", 10, 10);
    check_str("\0\0\0\x01\x01", 0, 0);
    check_str("", 0, 0);
    check_str("\u{2081}\u{2082}\u{2083}\u{2084}", 4, 8);
}

#[test]
fn test_emoji() {
    // Example from the README.
    check_str("👩", 2, 2); // Woman
    check_str("🔬", 2, 2); // Microscope
    check_str("👩‍🔬", 4, 4); // Woman scientist
}

#[test]
fn test_char() {
    check_char('ｈ', Some(2), Some(2));
    check_char('\x00', Some(0), Some(0));
    check_char('\x01', None, None);
    check_char('\u{2081}', Some(1), Some(2));
}

#[test]
fn test_char2() {
    check_char('\x0A', None, None);
    check_char('w', Some(1), Some(1));
    check_char('ｈ', Some(2), Some(2));
    check_char('\u{AD}', Some(1), Some(1));
    check_char('\u{1160}', Some(0), Some(0));
    check_char('\u{a1}', Some(1), Some(2));
    check_char('\u{300}', Some(0), Some(0));
}

#[test]
fn unicode_12() {
    check_char('\u{1F971}', Some(2), Some(2));
}

#[test]
fn test_default_ignorable() {
    check_char('\u{1160}', Some(0), Some(0));
    check_char('\u{3164}', Some(0), Some(0));
    check_char('\u{FFA0}', Some(0), Some(0));
    check_char('\u{E0000}', Some(0), Some(0));
}

#[test]
fn test_jamo() {
    check_char('\u{1100}', Some(2), Some(2));
    check_char('\u{A97C}', Some(2), Some(2));
    // Special case: U+115F HANGUL CHOSEONG FILLER
    check_char('\u{115F}', Some(2), Some(2));
    check_char('\u{1160}', Some(0), Some(0));
    check_char('\u{D7C6}', Some(0), Some(0));
    check_char('\u{11A8}', Some(0), Some(0));
    check_char('\u{D7FB}', Some(0), Some(0));
}

#[test]
fn test_prepended_concatenation_marks() {
    // Prepended concatenation marks are not default ignorable: one column.
    for c in [
        '\u{0600}',
        '\u{0601}',
        '\u{0602}',
        '\u{0603}',
        '\u{0604}',
        '\u{06DD}',
        '\u{110BD}',
        '\u{110CD}',
    ] {
        check_char(c, Some(1), Some(1));
    }

    for c in ['\u{0605}', '\u{070F}', '\u{0890}', '\u{0891}', '\u{08E2}'] {
        check_char(c, Some(1), Some(1));
    }
}

#[test]
fn test_interlinear_annotation_chars() {
    check_char('\u{FFF9}', Some(1), Some(1));
    check_char('\u{FFFA}', Some(1), Some(1));
    check_char('\u{FFFB}', Some(1), Some(1));
}

#[test]
fn test_hieroglyph_format_controls() {
    check_char('\u{13430}', Some(1), Some(1));
    check_char('\u{13436}', Some(1), Some(1));
    check_char('\u{1343C}', Some(1), Some(1));
}

#[test]
fn test_marks() {
    // Nonspacing marks have 0 width
    check_char('\u{0301}', Some(0), Some(0));
    // Enclosing marks have 0 width
    check_char('\u{20DD}', Some(0), Some(0));
    // Some spacing marks have width 1
    check_char('\u{09CB}', Some(1), Some(1));
    // But others have width 0
    check_char('\u{09BE}', Some(0), Some(0));
}

#[test]
fn test_devanagari_caret() {
    check_char('\u{A8FA}', Some(1), Some(1));
}

#[test]
fn test_solidus_overlay() {
    check_str("<\u{338}", 1, 1);
    check_str("=\u{338}", 1, 1);
    check_str(">\u{338}", 1, 1);
    check_str("=\u{301}\u{338}", 1, 1);
    check_str("=\u{338}\u{301}", 1, 1);
    check_str("=\u{FE0F}\u{338}", 1, 1);
    check_str("#\u{FE0F}\u{338}", 2, 2);
    check_str("#\u{338}\u{FE0F}", 1, 1);

    check_str("\u{06B8}\u{338}\u{0627}", 2, 2);
    check_str("\u{06B8}\u{338}\u{FE0E}\u{0627}", 2, 2);
    check_str("\u{06B8}\u{338}\u{FE0F}\u{0627}", 2, 2);
    check_str("\u{06B8}\u{FE0E}\u{338}\u{0627}", 2, 2);
    check_str("\u{06B8}\u{FE0F}\u{338}\u{0627}", 2, 2);
}

#[test]
fn test_emoji_presentation() {
    check_char('\u{0023}', Some(1), Some(1));
    check_char('\u{FE0F}', Some(0), Some(0));
    check_str("\u{0023}\u{FE0F}", 2, 2);
    check_str("a\u{0023}\u{FE0F}a", 4, 4);
    check_str("\u{0023}a\u{FE0F}", 2, 2);
    check_str("a\u{FE0F}", 1, 1);
    check_str("\u{0023}\u{0023}\u{FE0F}a", 4, 4);
    check_str("\u{002A}\u{FE0F}", 2, 2);
    check_str("\u{23F9}\u{FE0F}", 2, 2);
    check_str("\u{24C2}\u{FE0F}", 2, 2);
    check_str("\u{1F6F3}\u{FE0F}", 2, 2);
    check_str("\u{1F700}\u{FE0F}", 1, 1);
    check_str("\u{002A}\u{301}\u{FE0F}", 1, 1);
    check_str("\u{002A}\u{200D}\u{FE0F}", 1, 1);
    check_str("\u{002A}\u{FE0E}\u{FE0F}", 1, 1);
}

#[test]
fn test_text_presentation() {
    check_char('\u{FE0E}', Some(0), Some(0));
    check_char('\u{2648}', Some(2), Some(2));
    check_str("\u{2648}\u{FE0E}", 1, 2);
    check_str("\u{1F21A}\u{FE0E}", 2, 2);
    check_str("\u{0301}\u{FE0E}", 0, 0);
    check_str("a\u{FE0E}", 1, 1);
    check_str("𘀀\u{FE0E}", 2, 2);
    check_str("\u{2648}\u{0301}\u{FE0E}", 2, 2);
    check_str("\u{2648}\u{200D}\u{FE0E}", 2, 2);
}

#[test]
fn test_control_line_break() {
    check_char('\u{2028}', Some(1), Some(1));
    check_char('\u{2029}', Some(1), Some(1));
    check_char('\r', None, None);
    check_char('\n', None, None);
    check_str("\r", 1, 1);
    check_str("\n", 1, 1);
    check_str("\r\n", 1, 1);
    check_str("\0", 0, 0);
    check_str("1\t2\r\n3\u{85}4", 5, 5);
    check_str("\r\u{FE0F}\n", 2, 2);
    check_str("\r\u{200D}\n", 2, 2);
}

#[test]
fn char_str_consistent() {
    // Inside a string a control character counts nothing, a line break one.
    let mut s = String::with_capacity(4);
    for c in '\0'..=char::MAX {
        s.clear();
        s.push(c);
        let (plain, cjk) = match c {
            '\r' | '\n' => (1, 1),
            _ => (c.width().unwrap_or(0), c.width_cjk().unwrap_or(0)),
        };
        assert_eq!(plain, s.width());
        assert_eq!(cjk, s.width_cjk());
    }
}

#[test]
fn test_lisu_tones() {
    for c in '\u{A4F8}'..='\u{A4FD}' {
        check_char(c, Some(1), Some(1));
        check_str(&String::from(c), 1, 1);
    }
    for c1 in '\u{A4F8}'..='\u{A4FD}' {
        for c2 in '\u{A4F8}'..='\u{A4FD}' {
            let mut s = String::with_capacity(8);
            s.push(c1);
            s.push(c2);
            // Two tone letters are two columns, whatever their order.
            check_str(&s, 2, 2);
        }
    }

    check_str("ꓪꓹ", 2, 2);
    check_str("ꓪꓹꓼ", 3, 3);
    check_str("ꓪꓹ\u{FE0F}ꓼ", 3, 3);
    check_str("ꓪꓹ\u{200D}ꓼ", 3, 3);
    check_str("ꓪꓹꓼ\u{FE0F}", 3, 3);
    check_str("ꓪꓹ\u{0301}ꓼ", 3, 3);
    check_str("ꓪꓹꓹ", 3, 3);
    check_str("ꓪꓼꓼ", 3, 3);
}

#[test]
fn test_hebrew_alef_lamed() {
    check_str("\u{05D0}", 1, 1);
    check_str("\u{05DC}", 1, 1);
    check_str("\u{05D0}\u{05DC}", 2, 2);
    check_str("\u{05D0}\u{200D}\u{05DC}", 2, 2);
    check_str("\u{05D0}\u{200D}\u{200D}\u{200D}\u{200D}\u{200D}\u{200D}\u{200D}\u{05DC}", 2, 2);
    check_str("\u{05D0}\u{05D0}\u{200D}\u{05DC}", 3, 3);
    check_str("\u{05D0}\u{05D0}\u{200D}\u{200D}\u{200D}\u{200D}\u{200D}\u{200D}\u{05DC}", 3, 3);
    check_str("\u{05D0}\u{FE0F}\u{200D}\u{FE0F}\u{05DC}\u{FE0F}", 2, 2);
    check_str("\u{05D0}\u{FE0E}\u{200D}\u{FE0E}\u{05DC}\u{FE0E}", 2, 2);
}

#[test]
fn test_arabic_lam_alef() {
    check_str("\u{0644}", 1, 1);
    check_str("\u{06B8}", 1, 1);

    check_str("\u{0623}", 1, 1);
    check_str("\u{0627}", 1, 1);

    check_str("\u{0644}\u{0623}", 2, 2);
    check_str("\u{0644}\u{0627}", 2, 2);
    check_str("\u{06B8}\u{0623}", 2, 2);
    check_str("\u{06B8}\u{0627}", 2, 2);

    check_str("\u{0644}\u{065F}\u{065E}\u{0623}", 2, 2);
    check_str("\u{0644}\u{065F}\u{065E}\u{0627}", 2, 2);
    check_str("\u{06B8}\u{065F}\u{065E}\u{0623}", 2, 2);
    check_str("\u{06B8}\u{065F}\u{065E}\u{0627}", 2, 2);

    check_str("\u{06B8}\u{FE0E}\u{0627}", 2, 2);
    check_str("\u{06B8}\u{FE0F}\u{0627}", 2, 2);
    check_str("\u{06B8}\u{17B5}\u{0627}", 2, 2);

    check_str("\u{0644}\u{0644}\u{0623}", 3, 3);
    check_str("\u{0644}\u{0644}\u{0627}", 3, 3);
    check_str("\u{06B8}\u{06B8}\u{0623}", 3, 3);
    check_str("\u{06B8}\u{06B8}\u{0627}", 3, 3);

    check_str("\u{0644}\u{200D}\u{0623}", 2, 2);
    check_str("\u{0644}\u{200D}\u{0627}", 2, 2);
    check_str("\u{06B8}\u{200D}\u{0623}", 2, 2);
    check_str("\u{06B8}\u{200D}\u{0627}", 2, 2);

    check_str("\u{0644}\u{1E94B}\u{0623}", 3, 3);
    check_str("\u{0644}\u{1E94B}\u{0627}", 3, 3);
    check_str("\u{06B8}\u{1E94B}\u{0623}", 3, 3);
    check_str("\u{06B8}\u{1E94B}\u{0627}", 3, 3);
}

#[test]
fn test_buginese_a_i_ya() {
    check_str("\u{1A15}", 1, 1);
    check_str("\u{1A17}", 0, 0);
    check_str("\u{1A10}", 1, 1);

    check_str("\u{1A15}\u{1A17}\u{200D}\u{1A10}", 2, 2);
    check_str("\u{1A15}\u{1A17}\u{200D}\u{200D}\u{200D}\u{200D}\u{1A10}", 2, 2);
    check_str("\u{1A15}\u{1A17}\u{200D}\u{338}", 1, 1);
    check_str("\u{1A15}\u{FE0E}\u{1A17}\u{200D}", 1, 1);
    check_str("\u{1A15}\u{FE0F}\u{1A17}\u{200D}", 1, 1);
    check_str("\u{1A15}\u{1A17}\u{FE0E}\u{200D}", 1, 1);
    check_str("\u{1A15}\u{1A17}\u{FE0F}\u{200D}", 1, 1);
    check_str("\u{1A15}\u{1A17}\u{200D}\u{FE0E}", 1, 1);
    check_str("\u{1A15}\u{1A17}\u{200D}\u{FE0F}", 1, 1);
    check_str("\u{1A15}\u{17B5}\u{200D}\u{FE0E}\u{1A17}\u{200D}\u{FE0F}\u{200D}\u{FE0F}", 1, 1);

    check_str("\u{1A15}\u{1A15}\u{1A17}\u{200D}\u{1A10}", 3, 3);
    check_str("\u{1A15}\u{1A15}\u{1A17}\u{200D}\u{200D}\u{200D}\u{200D}\u{1A10}", 3, 3);

    check_str("\u{1A15}\u{1A17}\u{1A10}", 2, 2);
    check_str("\u{1A15}\u{200D}\u{1A10}", 2, 2);
    check_str("\u{1A15}\u{1A10}", 2, 2);
    check_str("\u{1A15}\u{1A17}\u{1A17}\u{200D}\u{1A10}", 2, 2);
    check_str("\u{1A15}\u{1A17}\u{338}\u{200D}\u{1A10}", 2, 2);
}

#[test]
fn test_tifinagh_biconsonants() {
    check_str("\u{2D4F}", 1, 1);
    check_str("\u{2D3E}", 1, 1);
    check_str("\u{2D7F}", 0, 0);

    check_str("\u{2D4F}\u{200D}\u{2D3E}", 2, 2);
    check_str("\u{2D4F}\u{2D7F}\u{2D3E}", 2, 2);
    check_str("\u{2D4F}\u{200D}\u{2D3E}", 2, 2);
    check_str("\u{2D4F}\u{FE0F}\u{200D}\u{2D7F}\u{FE0E}\u{200D}\u{17B5}\u{2D3E}", 2, 2);

    check_str("\u{2D4F}\u{301}\u{2D7F}\u{2D3E}", 2, 2);
    check_str("\u{2D4F}\u{301}\u{200D}\u{2D3E}", 2, 2);
    check_str("\u{2D4F}\u{2D3E}", 2, 2);
    check_str("\u{2D4F}\u{2D7F}\u{2D7F}\u{2D3E}", 2, 2);
    check_str("\u{2D7F}\u{2D3E}", 1, 1);
    check_str("\u{2D7F}\u{2D7F}\u{2D66}", 1, 1);
    check_str("\u{2D66}\u{2D7F}\u{2D3E}", 2, 2);
}

#[test]
fn test_old_turkic_ligature() {
    check_str("\u{10C32}", 1, 1);
    check_str("\u{10C03}", 1, 1);
    check_str("\u{10C32}\u{10C03}", 2, 2);

    check_str("\u{10C32}\u{200D}\u{10C03}", 2, 2);
    check_str("\u{10C32}\u{FE0F}\u{200D}\u{FE0E}\u{10C03}", 2, 2);

    check_str("\u{10C32}\u{2D7F}\u{10C03}", 2, 2);
    check_str("\u{10C32}\u{0301}\u{200D}\u{10C03}", 2, 2);
    check_str("\u{10C03}\u{200D}\u{10C32}", 2, 2);
    check_str("\u{200D}\u{10C32}", 1, 1);
}

#[test]
fn test_emoji_modifier() {
    check_str("\u{1F46A}", 2, 2);
    check_str("\u{1F3FB}", 2, 2);
    check_str("\u{1F46A}\u{1F3FB}", 4, 4);
    check_str("\u{1F46A}\u{200D}\u{200D}\u{1F3FB}", 4, 4);
}
