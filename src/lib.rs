//! Display width of Unicode characters and strings, after Unicode Standard
//! Annex #11 and the emoji and grapheme rules of the Unicode Standard.
//!
//! Rules, highest precedence first:
//! 1. An emoji presentation sequence (a base followed by U+FE0F) has width 2.
//! 2. Outside a CJK context, a text presentation sequence (a base with
//!    Emoji_Presentation, outside the Enclosed Ideographic Supplement,
//!    followed by U+FE0E) has width 1.
//! 3. The sequence `"\r\n"` has width 1; a lone `'\r'` or `'\n'` has width 1
//!    inside a string.
//! 4. U+115F HANGUL CHOSEONG FILLER has width 2.
//! 5. Default ignorable code points, grapheme extenders, eight vowel signs
//!    whose canonical decomposition is two extenders, and medial or final
//!    Hangul jamo have width 0.
//! 6. East Asian Wide and Fullwidth characters have width 2.
//! 7. East Asian Ambiguous characters have width 2 in a CJK context, else 1.
//! 8. Everything else has width 1.
//!
//! A single control character has no width (`None`); inside a string it
//! counts for nothing.
use vstd::prelude::*;

pub mod display;
pub mod tables;

pub use display::{Alignment, FormatSpec, StrWithWidth};
pub use tables::UNICODE_VERSION;

use tables::{
    is_emoji_presentation_base, is_text_presentation_base, lookup_emoji_presentation_base,
    lookup_text_presentation_base, lookup_width_class, width_class_of, WidthClass,
};

verus! {

broadcast use vstd::string::group_string_axioms;

/// Width of U+0000 NULL as a character of its own.
pub const NUL_WIDTH: usize = 0;

/// Width of U+00AD SOFT HYPHEN.
pub const SOFT_HYPHEN_WIDTH: usize = 1;

/// Width of a character on its own, or `None` for a control character.
pub open spec fn char_width_spec(c: char, is_cjk: bool) -> Option<usize> {
    let cp = c as u32;
    if 0x20 <= cp < 0x7F {
        Some(1)
    } else if cp == 0 {
        Some(NUL_WIDTH)
    } else if cp < 0xA0 {
        None
    } else if cp == 0xAD {
        Some(SOFT_HYPHEN_WIDTH)
    } else {
        match width_class_of(cp) {
            WidthClass::Zero => Some(0),
            WidthClass::One => Some(1),
            WidthClass::Two => Some(2),
            WidthClass::Ambiguous => if is_cjk {
                Some(2)
            } else {
                Some(1)
            },
        }
    }
}

/// What a character adds to a string's width when no sequence rule applies:
/// its own width, a control character nothing, a line break one column.
pub open spec fn scalar_contribution(c: char, is_cjk: bool) -> nat {
    if c == '\r' || c == '\n' {
        1
    } else {
        match char_width_spec(c, is_cjk) {
            Some(w) => w as nat,
            None => 0,
        }
    }
}

/// Whether the character at `i` begins an emoji presentation sequence.
pub open spec fn emoji_sequence_at(s: Seq<char>, i: int) -> bool {
    &&& i + 1 < s.len()
    &&& s[i + 1] == '\u{FE0F}'
    &&& is_emoji_presentation_base(s[i] as u32)
}

/// Whether the character at `i` begins a text presentation sequence that
/// narrows it (outside a CJK context only).
pub open spec fn text_sequence_at(s: Seq<char>, i: int, is_cjk: bool) -> bool {
    &&& !is_cjk
    &&& i + 1 < s.len()
    &&& s[i + 1] == '\u{FE0E}'
    &&& is_text_presentation_base(s[i] as u32)
}

/// Whether the character at `i` is a carriage return followed by a line feed.
pub open spec fn crlf_at(s: Seq<char>, i: int) -> bool {
    i + 1 < s.len() && s[i] == '\r' && s[i + 1] == '\n'
}

/// What the character at `i` adds to the width of `s`: the sequence rules
/// first, else its own contribution.
pub open spec fn contribution(s: Seq<char>, i: int, is_cjk: bool) -> nat {
    if emoji_sequence_at(s, i) {
        2
    } else if text_sequence_at(s, i, is_cjk) {
        1
    } else if crlf_at(s, i) {
        0
    } else {
        scalar_contribution(s[i], is_cjk)
    }
}

/// The width of the characters of `s` from index `i` on.
pub open spec fn width_from(s: Seq<char>, i: int, is_cjk: bool) -> nat
    decreases s.len() - i,
{
    if i < 0 || i >= s.len() {
        0
    } else {
        contribution(s, i, is_cjk) + width_from(s, i + 1, is_cjk)
    }
}

/// The display width of a string.
pub open spec fn str_width_spec(s: Seq<char>, is_cjk: bool) -> nat {
    width_from(s, 0, is_cjk)
}

/// What a character tells the character before it during a scan.
#[derive(Clone, Copy, Debug, PartialEq, Eq, Structural)]
pub enum NextCharInfo {
    /// Nothing that changes the width of the character before.
    Default,
    /// A line feed follows.
    LineFeed,
    /// VARIATION SELECTOR-15 follows.
    Vs15,
    /// VARIATION SELECTOR-16 follows.
    Vs16,
}

/// The information that `c` hands to the character before it.
pub open spec fn info_of(c: char) -> NextCharInfo {
    if c == '\n' {
        NextCharInfo::LineFeed
    } else if c == '\u{FE0E}' {
        NextCharInfo::Vs15
    } else if c == '\u{FE0F}' {
        NextCharInfo::Vs16
    } else {
        NextCharInfo::Default
    }
}

/// The width of `c` given what follows it.
pub open spec fn width_before(c: char, is_cjk: bool, next_info: NextCharInfo) -> nat {
    if next_info == NextCharInfo::Vs16 && is_emoji_presentation_base(c as u32) {
        2
    } else if next_info == NextCharInfo::Vs15 && !is_cjk && is_text_presentation_base(c as u32) {
        1
    } else if next_info == NextCharInfo::LineFeed && c == '\r' {
        0
    } else {
        scalar_contribution(c, is_cjk)
    }
}

/// Returns the width of `c`, or `None` if `c` is a control character.
/// Ambiguous characters are two columns wide if `is_cjk`, else one.
pub fn single_char_width(c: char, is_cjk: bool) -> (r: Option<usize>)
    ensures
        r == char_width_spec(c, is_cjk),
{
    let cp = c as u32;
    if cp < 0x7F {
        if cp >= 0x20 {
            Some(1)
        } else if cp == 0 {
            Some(NUL_WIDTH)
        } else {
            None
        }
    } else if cp >= 0xA0 {
        if cp == 0xAD {
            Some(SOFT_HYPHEN_WIDTH)
        } else {
            match lookup_width_class(cp) {
                WidthClass::Zero => Some(0),
                WidthClass::One => Some(1),
                WidthClass::Two => Some(2),
                WidthClass::Ambiguous => if is_cjk {
                    Some(2)
                } else {
                    Some(1)
                },
            }
        }
    } else {
        None
    }
}

/// Returns the width of `c` inside a string, given what the next character
/// told it, and what `c` in turn tells the character before it.
pub fn width_in_str(c: char, is_cjk: bool, next_info: NextCharInfo) -> (r: (usize, NextCharInfo))
    ensures
        r.0 as nat == width_before(c, is_cjk, next_info),
        r.0 <= 2,
        r.1 == info_of(c),
{
    let cp = c as u32;
    if next_info == NextCharInfo::Vs15 && !is_cjk && lookup_text_presentation_base(cp) {
        (1, NextCharInfo::Default)
    } else if next_info == NextCharInfo::Vs16 && lookup_emoji_presentation_base(cp) {
        (2, NextCharInfo::Default)
    } else if cp == 0x0A {
        (1, NextCharInfo::LineFeed)
    } else if cp == 0x0D {
        if next_info == NextCharInfo::LineFeed {
            (0, NextCharInfo::Default)
        } else {
            (1, NextCharInfo::Default)
        }
    } else if cp == 0xFE0E {
        (0, NextCharInfo::Vs15)
    } else if cp == 0xFE0F {
        (0, NextCharInfo::Vs16)
    } else {
        match single_char_width(c, is_cjk) {
            Some(w) => (w, NextCharInfo::Default),
            None => (0, NextCharInfo::Default),
        }
    }
}

/// The characters of `s`, in order.
pub fn chars_of(s: &str) -> (r: Vec<char>)
    ensures
        r@ == s@,
{
    let mut r: Vec<char> = Vec::new();
    for c in iter: s.chars()
        invariant
            iter.seq() == s@,
            r@ == iter.seq().take(iter.index() as int),
    {
        r.push(c);
    }
    r
}

/// One step of the scan: the width from `i` on, from the character at `i`
/// and the width from `i + 1` on.
proof fn lemma_width_step(s: Seq<char>, i: int, is_cjk: bool)
    requires
        0 <= i < s.len(),
    ensures
        width_from(s, i, is_cjk) == width_before(
            s[i],
            is_cjk,
            if i + 1 < s.len() {
                info_of(s[i + 1])
            } else {
                NextCharInfo::Default
            },
        ) + width_from(s, i + 1, is_cjk),
{
}

/// The width from `i` on is at most two columns per character.
proof fn lemma_width_from_bound(s: Seq<char>, i: int, is_cjk: bool)
    requires
        0 <= i <= s.len(),
    ensures
        width_from(s, i, is_cjk) <= 2 * (s.len() - i),
    decreases s.len() - i,
{
    if i < s.len() {
        lemma_width_from_bound(s, i + 1, is_cjk);
    }
}

/// The display width of the characters `s`, scanned from the end.
pub fn chars_width(s: &Vec<char>, is_cjk: bool) -> (r: usize)
    requires
        s@.len() <= isize::MAX,
    ensures
        r as nat == str_width_spec(s@, is_cjk),
{
    let mut i: usize = s.len();
    let mut sum: usize = 0;
    let mut info = NextCharInfo::Default;
    while i > 0
        invariant
            i <= s@.len() <= isize::MAX,
            sum as nat == width_from(s@, i as int, is_cjk),
            info == if i < s@.len() {
                info_of(s@[i as int])
            } else {
                NextCharInfo::Default
            },
        decreases i,
    {
        i = i - 1;
        proof {
            lemma_width_step(s@, i as int, is_cjk);
            lemma_width_from_bound(s@, i as int, is_cjk);
        }
        let (add, next) = width_in_str(s[i], is_cjk, info);
        sum = sum + add;
        info = next;
    }
    sum
}

/// Returns the display width of `s`.
pub fn str_width(s: &str, is_cjk: bool) -> (r: usize)
    requires
        s@.len() <= isize::MAX,
    ensures
        r as nat == str_width_spec(s@, is_cjk),
{
    let chars = chars_of(s);
    chars_width(&chars, is_cjk)
}

/// Methods for determining the displayed width of Unicode characters.
pub trait UnicodeWidthChar: Sized {
    /// The character's width in columns, or `None` for a control character;
    /// Ambiguous characters are one column wide (non-CJK context).
    fn width(self) -> Option<usize>;

    /// The character's width in columns, or `None` for a control character;
    /// Ambiguous characters are two columns wide (CJK context).
    fn width_cjk(self) -> Option<usize>;
}

impl UnicodeWidthChar for char {
    fn width(self) -> (r: Option<usize>)
        ensures
            r == char_width_spec(self, false),
    {
        single_char_width(self, false)
    }

    fn width_cjk(self) -> (r: Option<usize>)
        ensures
            r == char_width_spec(self, true),
    {
        single_char_width(self, true)
    }
}

/// Methods for determining the displayed width of Unicode strings.
pub trait UnicodeWidthStr: View<V = Seq<char>> {
    /// The string's width in columns; Ambiguous characters are one column
    /// wide (non-CJK context).
    fn width(&self) -> usize
        requires
            self@.len() <= isize::MAX,
    ;

    /// The string viewed for layout by display width.
    fn using_width(&self) -> StrWithWidth<'_>;

    /// The string's width in columns; Ambiguous characters are two columns
    /// wide (CJK context).
    fn width_cjk(&self) -> usize
        requires
            self@.len() <= isize::MAX,
    ;
}

impl UnicodeWidthStr for str {
    fn width(&self) -> (r: usize)
        ensures
            r as nat == str_width_spec(self@, false),
    {
        str_width(self, false)
    }

    fn using_width(&self) -> (r: StrWithWidth<'_>)
        ensures
            r.0 == self,
    {
        StrWithWidth(self)
    }

    fn width_cjk(&self) -> (r: usize)
        ensures
            r as nat == str_width_spec(self@, true),
    {
        str_width(self, true)
    }
}

/// The width of `c` with a fast path by comparisons for ASCII.
pub fn simple_width_if(c: char) -> (r: Option<usize>)
    ensures
        r == char_width_spec(c, false),
{
    let cu = c as u32;
    if cu < 127 {
        if cu > 31 {
            Some(1)
        } else if cu == 0 {
            Some(0)
        } else {
            None
        }
    } else {
        UnicodeWidthChar::width(c)
    }
}

/// The width of `c` with a fast path by a match for ASCII.
pub fn simple_width_match(c: char) -> (r: Option<usize>)
    ensures
        r == char_width_spec(c, false),
{
    let cu = c as u32;
    if cu == 0 {
        Some(0)
    } else if cu < 0x20 {
        None
    } else if cu < 0x7f {
        Some(1)
    } else {
        UnicodeWidthChar::width(c)
    }
}

/// The sum of the widths of the characters of `s` taken one by one, a
/// control character counting nothing.
pub open spec fn char_width_sum(s: Seq<char>, i: int, is_cjk: bool) -> nat
    decreases s.len() - i,
{
    if i < 0 || i >= s.len() {
        0
    } else {
        let w: nat = match char_width_spec(s[i], is_cjk) {
            Some(w) => w as nat,
            None => 0,
        };
        w + char_width_sum(s, i + 1, is_cjk)
    }
}

/// A character's width is `None` or at most two columns, and it differs
/// between the two contexts only for an East Asian Ambiguous character, which
/// is one column wide outside a CJK context and two inside.
pub proof fn lemma_char_width_context(c: char)
    ensures
        char_width_spec(c, false) is None <==> char_width_spec(c, true) is None,
        char_width_spec(c, false) is Some ==> char_width_spec(c, false)->0 <= 2,
        char_width_spec(c, true) is Some ==> char_width_spec(c, true)->0 <= 2,
        char_width_spec(c, false) != char_width_spec(c, true) ==> {
            &&& width_class_of(c as u32) == WidthClass::Ambiguous
            &&& char_width_spec(c, false) == Some(1usize)
            &&& char_width_spec(c, true) == Some(2usize)
        },
{
}

/// Where no presentation sequence and no line break occurs, the width of a
/// string is the sum of the widths of its characters, a control character
/// counting nothing.
pub proof fn lemma_width_is_char_sum(s: Seq<char>, is_cjk: bool)
    requires
        forall|i: int|
            0 <= i < s.len() ==> !emoji_sequence_at(s, i) && !text_sequence_at(s, i, is_cjk)
                && #[trigger] s[i] != '\r' && s[i] != '\n',
    ensures
        str_width_spec(s, is_cjk) == char_width_sum(s, 0, is_cjk),
{
    lemma_width_from_is_char_sum(s, 0, is_cjk);
}

proof fn lemma_width_from_is_char_sum(s: Seq<char>, i: int, is_cjk: bool)
    requires
        0 <= i <= s.len(),
        forall|j: int|
            0 <= j < s.len() ==> !emoji_sequence_at(s, j) && !text_sequence_at(s, j, is_cjk)
                && #[trigger] s[j] != '\r' && s[j] != '\n',
    ensures
        width_from(s, i, is_cjk) == char_width_sum(s, i, is_cjk),
    decreases s.len() - i,
{
    if i < s.len() {
        assert(s[i] != '\r' && s[i] != '\n');
        lemma_width_from_is_char_sum(s, i + 1, is_cjk);
    }
}

} // verus!
