use unicode_width::Alignment::{Center, Left, Right};
use unicode_width::{Alignment, FormatSpec, UnicodeWidthStr};

fn render(s: &str, min: Option<usize>, max: Option<usize>, align: Alignment, fill: char) -> String {
    s.using_width().render(&FormatSpec {
        min_width: min,
        max_width: max,
        align,
        fill,
    })
}

fn plain(s: &str) -> String {
    render(s, None, None, Alignment::Left, ' ')
}

fn truncated(s: &str, max: usize) -> String {
    render(s, None, Some(max), Alignment::Left, ' ')
}

fn padded(s: &str, min: usize, align: Alignment, fill: char) -> String {
    render(s, Some(min), None, align, fill)
}

#[test]
fn basic() {
    for s in [
        "",
        "\0",
        "a",
        "abc",
        "¡Olé!",
        "kilimanjaro",
        "Κύριε, ἐλέησον",
    ] {
        assert_eq!(plain(s), s);
    }
}

#[test]
fn basic_with_args() {
    for min_width in 0..20 {
        for max_width in 0..20 {
            for s in ["", "a", "abc", "¡Olé!", "kilimanjaro", "Κύριε, ἐλέησον"] {
                assert_eq!(
                    render(s, Some(min_width), Some(max_width), Alignment::Left, 'a'),
                    format!("{:a<min$.max$}", s, min = min_width, max = max_width)
                );
                assert_eq!(
                    render(s, Some(min_width), Some(max_width), Alignment::Center, 'a'),
                    format!("{:a^min$.max$}", s, min = min_width, max = max_width)
                );
                assert_eq!(
                    render(s, Some(min_width), Some(max_width), Alignment::Right, 'a'),
                    format!("{:a>min$.max$}", s, min = min_width, max = max_width)
                );
            }
            // NUL takes no column, so it is never cut and all of the width is
            // padding.
            let left = min_width / 2;
            let right = min_width - left;
            assert_eq!(
                render("\0", Some(min_width), Some(max_width), Alignment::Left, 'a'),
                format!("\0{}", "a".repeat(min_width))
            );
            assert_eq!(
                render("\0", Some(min_width), Some(max_width), Alignment::Center, 'a'),
                format!("{}\0{}", "a".repeat(left), "a".repeat(right))
            );
            assert_eq!(
                render("\0", Some(min_width), Some(max_width), Alignment::Right, 'a'),
                format!("{}\0", "a".repeat(min_width))
            );
        }
    }
}

#[test]
fn trunc() {
    let smol_str = "汉字";
    let smol_prefixes = ["", "", "汉", "汉", "汉字", "汉字"];
    for (width, prefix) in smol_prefixes.into_iter().enumerate() {
        assert_eq!(truncated(smol_str, width), prefix, "width: {width}");
    }

    let med_str = "a汉字b";
    let med_prefixes = ["", "a", "a", "a汉", "a汉", "a汉字", "a汉字b", "a汉字b"];
    for (width, prefix) in med_prefixes.into_iter().enumerate() {
        assert_eq!(truncated(med_str, width), prefix, "width: {width}");
    }

    let huge_str =
        "\u{200B}\u{200E}a\u{0301}汉字\r\nb\u{2764}\u{FE0F}c\u{2648}\u{FE0E}\u{FF9E}";
    let huge_prefixes = [
        "\u{200B}\u{200E}",
        "\u{200B}\u{200E}a\u{0301}",
        "\u{200B}\u{200E}a\u{0301}",
        "\u{200B}\u{200E}a\u{0301}汉",
        "\u{200B}\u{200E}a\u{0301}汉",
        "\u{200B}\u{200E}a\u{0301}汉字",
        "\u{200B}\u{200E}a\u{0301}汉字\r\n",
        "\u{200B}\u{200E}a\u{0301}汉字\r\nb",
        "\u{200B}\u{200E}a\u{0301}汉字\r\nb",
        "\u{200B}\u{200E}a\u{0301}汉字\r\nb\u{2764}\u{FE0F}",
        "\u{200B}\u{200E}a\u{0301}汉字\r\nb\u{2764}\u{FE0F}c",
        "\u{200B}\u{200E}a\u{0301}汉字\r\nb\u{2764}\u{FE0F}c\u{2648}\u{FE0E}\u{FF9E}",
    ];

    for (width, prefix) in huge_prefixes.into_iter().enumerate() {
        assert_eq!(truncated(huge_str, width), prefix, "width: {width}");
    }
}

#[test]
fn pad() {

    let string = "\u{2764}\u{FE0F}a";

    assert_eq!(padded(string, 7, Left, 'q'), "\u{2764}\u{FE0F}aqqqq");
    assert_eq!(padded(string, 7, Center, 'q'), "qq\u{2764}\u{FE0F}aqq");
    assert_eq!(padded(string, 7, Right, 'q'), "qqqq\u{2764}\u{FE0F}a");

    assert_eq!(padded(string, 7, Left, '字'), "\u{2764}\u{FE0F}a字字");
    assert_eq!(padded(string, 7, Center, '字'), "字\u{2764}\u{FE0F}a字");
    assert_eq!(padded(string, 7, Right, '字'), "字字\u{2764}\u{FE0F}a");

    assert_eq!(padded(string, 7, Left, '\u{0301}'), "\u{2764}\u{FE0F}a    ");
    assert_eq!(padded(string, 7, Center, '\u{0301}'), "  \u{2764}\u{FE0F}a  ");
    assert_eq!(padded(string, 7, Right, '\u{0301}'), "    \u{2764}\u{FE0F}a");

    assert_eq!(padded(string, 8, Left, 'q'), "\u{2764}\u{FE0F}aqqqqq");
    assert_eq!(padded(string, 8, Center, 'q'), "qq\u{2764}\u{FE0F}aqqq");
    assert_eq!(padded(string, 8, Right, 'q'), "qqqqq\u{2764}\u{FE0F}a");

    assert_eq!(padded(string, 8, Left, '字'), "\u{2764}\u{FE0F}a 字字");
    assert_eq!(padded(string, 8, Center, '字'), "字\u{2764}\u{FE0F}a 字");
    assert_eq!(padded(string, 8, Right, '字'), "字字 \u{2764}\u{FE0F}a");

    assert_eq!(padded(string, 8, Left, '\u{0301}'), "\u{2764}\u{FE0F}a     ");
    assert_eq!(padded(string, 8, Center, '\u{0301}'), "  \u{2764}\u{FE0F}a   ");
    assert_eq!(padded(string, 8, Right, '\u{0301}'), "     \u{2764}\u{FE0F}a");

    let string = "a";
    assert_eq!(padded(string, 7, Center, '字'), "字a字字");

    let string = "字";
    assert_eq!(padded(string, 3, Left, ' '), "字 ");
    assert_eq!(padded(string, 3, Center, ' '), "字 ");
    assert_eq!(padded(string, 3, Right, ' '), " 字");
    assert_eq!(padded(string, 4, Left, ' '), "字  ");
    assert_eq!(padded(string, 4, Center, ' '), " 字 ");
    assert_eq!(padded(string, 4, Right, ' '), "  字");
}
