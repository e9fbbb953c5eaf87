use unicode_width::display::layout;
use unicode_width::{
    chars_of, simple_width_if, simple_width_match, single_char_width, str_width, width_in_str,
    Alignment, FormatSpec, NextCharInfo, StrWithWidth, UnicodeWidthChar, UnicodeWidthStr,
    NUL_WIDTH, SOFT_HYPHEN_WIDTH, UNICODE_VERSION,
};

fn spec(min: Option<usize>, max: Option<usize>, align: Alignment, fill: char) -> FormatSpec {
    FormatSpec {
        min_width: min,
        max_width: max,
        align,
        fill,
    }
}

#[test]
fn scenario_plain_ascii() {
    assert_eq!("hello".width(), 5);
    assert_eq!("hello".width_cjk(), 5);
}

#[test]
fn scenario_nul_and_control() {
    assert_eq!('\u{0000}'.width(), Some(0));
    assert_eq!('\u{0001}'.width(), None);
    assert_eq!(NUL_WIDTH, 0);
    assert_eq!(SOFT_HYPHEN_WIDTH, 1);
}

#[test]
fn scenario_emoji_zwj_sequence() {
    assert_eq!("👩".width(), 2);
    assert_eq!("👩\u{200D}🔬".width(), 4);
}

#[test]
fn scenario_presentation_sequences() {
    assert_eq!("\u{0023}\u{FE0F}".width(), 2);
    assert_eq!("\u{0023}".width(), 1);
    assert_eq!("\u{2648}\u{FE0E}".width(), 1);
    assert_eq!("\u{2648}\u{FE0E}".width_cjk(), 2);
}

#[test]
fn scenario_render_center_wide() {
    let r = "字".using_width().render(&spec(Some(4), None, Alignment::Center, ' '));
    assert_eq!(r, " 字 ");
}

#[test]
fn scenario_render_truncates_by_cluster() {
    let r = "🇺🇳🇺🇳".using_width().render(&spec(None, Some(3), Alignment::Left, ' '));
    assert_eq!(r, "🇺🇳");
}

#[test]
fn char_width_context_only_ambiguous_differs() {
    // Ambiguous: one column, two in a CJK context.
    assert_eq!('\u{00A1}'.width(), Some(1));
    assert_eq!('\u{00A1}'.width_cjk(), Some(2));
    for c in ['a', '字', '\u{0301}', '\u{1F600}', '\u{0007}', '\u{00AD}'] {
        assert_eq!(c.width(), c.width_cjk());
    }
    for c in ['\u{0}', 'a', '字', '\u{0301}', '\u{2081}', '\u{10FFFF}'] {
        assert!(c.width().unwrap() <= 2);
        assert!(c.width_cjk().unwrap() <= 2);
    }
}

#[test]
fn width_is_char_sum_without_sequences() {
    let s = "a字\u{0301}\u{0007}\u{00A1}";
    let sum: usize = s.chars().map(|c| c.width().unwrap_or(0)).sum();
    assert_eq!(s.width(), sum);
    assert_eq!(sum, 4);
    let sum_cjk: usize = s.chars().map(|c| c.width_cjk().unwrap_or(0)).sum();
    assert_eq!(s.width_cjk(), sum_cjk);
    assert_eq!(sum_cjk, 5);
}

#[test]
fn overrides_each_rule() {
    // Emoji presentation: base of width 1 widened to 2.
    assert_eq!("\u{2764}\u{FE0F}".width(), 2);
    assert_eq!("\u{2764}".width(), 1);
    // Text presentation narrows only outside a CJK context.
    assert_eq!("\u{231A}\u{FE0E}".width(), 1);
    assert_eq!("\u{231A}\u{FE0E}".width_cjk(), 2);
    // Line breaks.
    assert_eq!("\r\n".width(), 1);
    assert_eq!("\n\r".width(), 2);
    assert_eq!("\r".width(), 1);
    assert_eq!("\n".width(), 1);
    // A selector alone, at the start, or after another selector.
    assert_eq!("\u{FE0F}".width(), 0);
    assert_eq!("\u{FE0F}#".width(), 1);
    assert_eq!("#\u{FE0E}\u{FE0F}".width(), 1);
    assert_eq!("#\u{FE0F}\u{FE0F}".width(), 2);
}

#[test]
fn render_unbounded_is_identity() {
    for s in ["", "abc", "字\u{0301}", "\r\n\u{0007}", "👩\u{200D}🔬"] {
        for align in [Alignment::Left, Alignment::Center, Alignment::Right] {
            assert_eq!(s.using_width().render(&spec(None, None, align, '*')), s);
            assert_eq!(s.using_width().render(&spec(Some(0), None, align, '*')), s);
        }
    }
}

#[test]
fn truncation_keeps_whole_clusters() {
    let s = "e\u{0301}字🇺🇳x";
    let expected = ["", "e\u{0301}", "e\u{0301}", "e\u{0301}字", "e\u{0301}字", "e\u{0301}字🇺🇳", "e\u{0301}字🇺🇳x"];
    for (max, prefix) in expected.iter().enumerate() {
        let r = s.using_width().render(&spec(None, Some(max), Alignment::Left, ' '));
        assert_eq!(&r, prefix);
        assert!(r.width() <= max);
    }
    let r = s.using_width().render(&spec(None, Some(100), Alignment::Left, ' '));
    assert_eq!(r, s);
}

#[test]
fn padding_columns_add_up() {
    assert_eq!(layout(6, 2, Alignment::Center), (1, 0, 0, 2));
    assert_eq!(layout(7, 2, Alignment::Center), (1, 1, 0, 2));
    assert_eq!(layout(5, 2, Alignment::Left), (0, 0, 1, 2));
    assert_eq!(layout(5, 2, Alignment::Right), (2, 1, 0, 0));
    assert_eq!(layout(5, 1, Alignment::Center), (2, 0, 0, 3));
    for p in 0..30usize {
        for fw in 1..4usize {
            for align in [Alignment::Left, Alignment::Center, Alignment::Right] {
                let (a, b, c, d) = layout(p, fw, align);
                assert_eq!(a * fw + b + c + d * fw, p);
                assert!(b < fw && c < fw);
            }
        }
    }
}

#[test]
fn control_fill_counts_one_column() {
    let r = "ab".using_width().render(&spec(Some(4), None, Alignment::Right, '\u{0007}'));
    assert_eq!(r, "\u{0007}\u{0007}ab");
}

#[test]
fn truncate_then_pad() {
    let r = "a字b".using_width().render(&spec(Some(4), Some(2), Alignment::Center, '-'));
    assert_eq!(r, "-a--");
    let r = "字字".using_width().render(&spec(Some(3), Some(0), Alignment::Left, '.'));
    assert_eq!(r, "...");
}

#[test]
fn free_functions_agree() {
    assert_eq!(single_char_width('\u{2081}', true), Some(2));
    assert_eq!(single_char_width('\u{2081}', false), Some(1));
    assert_eq!(str_width("\u{2081}\u{2082}", true), 4);
    assert_eq!(chars_of("a字\r\n"), vec!['a', '字', '\r', '\n']);
    assert_eq!(width_in_str('#', false, NextCharInfo::Vs16), (2, NextCharInfo::Default));
    assert_eq!(width_in_str('\r', false, NextCharInfo::LineFeed), (0, NextCharInfo::Default));
    assert_eq!(width_in_str('\n', false, NextCharInfo::Default), (1, NextCharInfo::LineFeed));
    assert_eq!(width_in_str('\u{FE0E}', false, NextCharInfo::Default), (0, NextCharInfo::Vs15));
    assert_eq!(width_in_str('\u{2648}', true, NextCharInfo::Vs15), (2, NextCharInfo::Default));
    for c in ['\0', '\u{1}', ' ', '~', '\u{7F}', '\u{A1}', '字', '\u{1F600}'] {
        assert_eq!(simple_width_if(c), c.width());
        assert_eq!(simple_width_match(c), c.width());
    }
}

#[test]
fn str_with_width_view() {
    let v = StrWithWidth("字a");
    assert_eq!(v.width(), 3);
    assert_eq!(v.as_str(), "字a");
    assert_eq!("字a".using_width().width(), 3);
}

#[test]
fn unicode_version_is_set() {
    assert_eq!(UNICODE_VERSION, (17, 0, 0));
}
