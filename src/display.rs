//! Formatting of a string into a field by display width: truncation at a
//! grapheme cluster boundary, then padding with a fill character.
use unicode_segmentation::UnicodeSegmentation;
use vstd::prelude::*;

use crate::{char_width_spec, single_char_width, str_width, str_width_spec};

verus! {

broadcast use vstd::string::group_string_axioms;

/// Where the text stands in a field wider than itself.
#[derive(Clone, Copy, Debug, PartialEq, Eq, Structural)]
pub enum Alignment {
    /// Padding after the text.
    Left,
    /// Padding before the text.
    Right,
    /// Padding split around the text, the odd column after it.
    Center,
}

/// How a string is laid out in a field.
#[derive(Clone, Copy, Debug, PartialEq, Eq, Structural)]
pub struct FormatSpec {
    /// The least display width of the result, if any.
    pub min_width: Option<usize>,
    /// The most display width of the text kept, if any.
    pub max_width: Option<usize>,
    /// Where the text stands when it is padded.
    pub align: Alignment,
    /// The character that pads.
    pub fill: char,
}

/// A borrowed string that is laid out by its display width (non-CJK).
pub struct StrWithWidth<'a>(pub &'a str);

/// The extended grapheme clusters of a string, in order.
pub uninterp spec fn graphemes_of(s: Seq<char>) -> Seq<Seq<char>>;

/// The characters of each string of `v`.
pub open spec fn views_of(v: Seq<&str>) -> Seq<Seq<char>> {
    v.map_values(|g: &str| g@)
}

/// Relies on `UnicodeSegmentation::graphemes` (extended clusters): it hands
/// out consecutive non-empty slices of `s` that together make up `s`.
#[verifier::external_body]
fn grapheme_clusters<'a>(s: &'a str) -> (r: Vec<&'a str>)
    ensures
        views_of(r@) == graphemes_of(s@),
        views_of(r@).flatten() == s@,
        forall|i: int| 0 <= i < r@.len() ==> 0 < #[trigger] r@[i]@.len() <= s@.len(),
{
    s.graphemes(true).collect()
}

/// Relies on `String::push`: appends one character.
#[verifier::external_body]
fn push_char(s: &mut String, c: char)
    ensures
        final(s)@ == old(s)@.push(c),
{
    s.push(c)
}

/// `n` copies of `c`.
pub open spec fn repeat(c: char, n: nat) -> Seq<char> {
    Seq::new(n, |i: int| c)
}

/// The total width of a sequence of clusters, each measured on its own.
pub open spec fn clusters_width(gs: Seq<Seq<char>>) -> nat
    decreases gs.len(),
{
    if gs.len() == 0 {
        0
    } else {
        clusters_width(gs.drop_last()) + str_width_spec(gs.last(), false)
    }
}

/// How many clusters are kept from `k` on: the scan stops before the first
/// cluster whose width would bring the total over `max`.
pub open spec fn keep_from(gs: Seq<Seq<char>>, k: int, max: nat) -> nat
    decreases gs.len() - k,
{
    if k < 0 || k >= gs.len() || clusters_width(gs.take(k + 1)) > max {
        if k < 0 {
            0
        } else {
            k as nat
        }
    } else {
        keep_from(gs, k + 1, max)
    }
}

/// How many leading clusters of `gs` fit into `max` columns.
pub open spec fn keep_count(gs: Seq<Seq<char>>, max: nat) -> nat {
    keep_from(gs, 0, max)
}

/// The text that truncation keeps.
pub open spec fn truncated_text(s: Seq<char>, max_width: Option<usize>) -> Seq<char> {
    match max_width {
        None => s,
        Some(m) => graphemes_of(s).take(keep_count(graphemes_of(s), m as nat) as int).flatten(),
    }
}

/// The width of the text that truncation keeps, cluster by cluster.
pub open spec fn truncated_width(s: Seq<char>, max_width: Option<usize>) -> nat {
    match max_width {
        None => str_width_spec(s, false),
        Some(m) => clusters_width(
            graphemes_of(s).take(keep_count(graphemes_of(s), m as nat) as int),
        ),
    }
}

/// The fill character in use and its width: one of zero width gives way to
/// a space, and a control character counts one column.
pub open spec fn effective_fill(fill: char) -> (char, nat) {
    match char_width_spec(fill, false) {
        Some(w) => if w == 0 {
            (' ', 1)
        } else {
            (fill, w as nat)
        },
        None => (fill, 1),
    }
}

/// How `p` columns of padding are laid out with a fill of width `fw`:
/// fill characters before, spaces before, spaces after, fill characters after.
pub open spec fn pad_layout(p: nat, fw: nat, align: Alignment) -> (nat, nat, nat, nat)
    recommends
        fw > 0,
{
    match align {
        Alignment::Left => (0, 0, p % fw, p / fw),
        Alignment::Right => (p / fw, p % fw, 0, 0),
        Alignment::Center => {
            let left = p / 2;
            let right = (p - left) as nat;
            let pre_pre = left / fw;
            let pre = left % fw;
            let post = right % fw;
            let post_post = right / fw;
            if pre >= fw - post {
                (pre_pre, 0, (pre - (fw - post)) as nat, post_post + 1)
            } else {
                (pre_pre, pre, post, post_post)
            }
        },
    }
}

/// The text `s` laid out by `spec`.
pub open spec fn rendered(s: Seq<char>, spec: FormatSpec) -> Seq<char> {
    let text = truncated_text(s, spec.max_width);
    let tw = truncated_width(s, spec.max_width);
    let min = match spec.min_width {
        Some(m) => m as nat,
        None => 0,
    };
    if min <= tw {
        text
    } else {
        let fill = effective_fill(spec.fill);
        let layout = pad_layout((min - tw) as nat, fill.1, spec.align);
        repeat(fill.0, layout.0) + repeat(' ', layout.1) + text + repeat(' ', layout.2) + repeat(
            fill.0,
            layout.3,
        )
    }
}

/// Appends `n` copies of `c`.
fn push_repeated(out: &mut String, c: char, n: usize)
    ensures
        final(out)@ == old(out)@ + repeat(c, n as nat),
{
    let mut i: usize = 0;
    while i < n
        invariant
            i <= n,
            out@ == old(out)@ + repeat(c, i as nat),
        decreases n - i,
    {
        push_char(out, c);
        i = i + 1;
        assert(out@ =~= old(out)@ + repeat(c, i as nat));
    }
}

/// The flattening of one more cluster adds that cluster at the end.
proof fn lemma_flatten_take_step(gs: Seq<Seq<char>>, k: int)
    requires
        0 <= k < gs.len(),
    ensures
        gs.take(k + 1).flatten() == gs.take(k).flatten() + gs[k],
{
    let a = gs.take(k + 1);
    a.lemma_flatten_and_flatten_alt_are_equivalent();
    gs.take(k).lemma_flatten_and_flatten_alt_are_equivalent();
    assert(a.drop_last() =~= gs.take(k));
}

/// The width of one more cluster adds that cluster's width.
proof fn lemma_clusters_width_step(gs: Seq<Seq<char>>, k: int)
    requires
        0 <= k < gs.len(),
    ensures
        clusters_width(gs.take(k + 1)) == clusters_width(gs.take(k)) + str_width_spec(
            gs[k],
            false,
        ),
{
    assert(gs.take(k + 1).drop_last() =~= gs.take(k));
}

/// Where the scan stops once clusters up to `k` are known to fit.
proof fn lemma_keep_from_start(gs: Seq<Seq<char>>, k: int, max: nat)
    requires
        0 <= k <= gs.len(),
        forall|j: int| 0 < j <= k ==> clusters_width(#[trigger] gs.take(j)) <= max,
    ensures
        keep_from(gs, 0, max) == keep_from(gs, k, max),
    decreases k,
{
    if k > 0 {
        lemma_keep_from_start(gs, k - 1, max);
    }
}

impl<'a> StrWithWidth<'a> {
    /// The display width of the string (non-CJK).
    pub fn width(&self) -> (r: usize)
        requires
            self.0@.len() <= isize::MAX,
        ensures
            r as nat == str_width_spec(self.0@, false),
    {
        str_width(self.0, false)
    }

    /// The string viewed.
    pub fn as_str(&self) -> (r: &'a str)
        ensures
            r == self.0,
    {
        self.0
    }

    /// Truncates to `max` columns at a grapheme cluster boundary; returns
    /// the text kept and its width.
    fn truncate(&self, max: usize) -> (r: (String, usize))
        requires
            self.0@.len() <= isize::MAX,
        ensures
            r.0@ == truncated_text(self.0@, Some(max)),
            r.1 as nat == truncated_width(self.0@, Some(max)),
    {
        let gs = grapheme_clusters(self.0);
        truncate_clusters(&gs, max)
    }

    /// Lays the string out by `spec`: truncates it to `spec.max_width` at a
    /// grapheme cluster boundary, then pads it to `spec.min_width`.
    pub fn render(&self, spec: &FormatSpec) -> (r: String)
        requires
            self.0@.len() <= isize::MAX,
        ensures
            r@ == rendered(self.0@, *spec),
    {
        let (text, tw) = match spec.max_width {
            Some(max) => self.truncate(max),
            None => (self.0.to_owned(), str_width(self.0, false)),
        };
        let min = match spec.min_width {
            Some(m) => m,
            None => 0,
        };
        if min <= tw {
            return text;
        }
        let padding = min - tw;
        let (fill, fill_width) = match single_char_width(spec.fill, false) {
            Some(w) => if w == 0 {
                (' ', 1)
            } else {
                (spec.fill, w)
            },
            None => (spec.fill, 1),
        };
        let (pre_pre, pre, post, post_post) = layout(padding, fill_width, spec.align);
        let mut out = String::new();
        push_repeated(&mut out, fill, pre_pre);
        push_repeated(&mut out, ' ', pre);
        out.append(text.as_str());
        push_repeated(&mut out, ' ', post);
        push_repeated(&mut out, fill, post_post);
        out
    }
}

/// Keeps the leading clusters of `gs` while their total width stays within
/// `max`; returns their concatenation and that total.
pub fn truncate_clusters(gs: &Vec<&str>, max: usize) -> (r: (String, usize))
    requires
        forall|i: int| 0 <= i < gs@.len() ==> #[trigger] gs@[i]@.len() <= isize::MAX,
    ensures
        r.0@ == views_of(gs@).take(keep_count(views_of(gs@), max as nat) as int).flatten(),
        r.1 as nat == clusters_width(views_of(gs@).take(keep_count(views_of(gs@), max as nat) as int)),
{
    let ghost vs = views_of(gs@);
    let mut out = String::new();
    let mut tw: usize = 0;
    let mut k: usize = 0;
    while k < gs.len()
        invariant
            vs == views_of(gs@),
            forall|i: int| 0 <= i < gs@.len() ==> #[trigger] gs@[i]@.len() <= isize::MAX,
            k <= gs.len(),
            tw <= max,
            tw as nat == clusters_width(vs.take(k as int)),
            out@ == vs.take(k as int).flatten(),
            forall|j: int| 0 < j <= k ==> clusters_width(#[trigger] vs.take(j)) <= max,
        decreases gs.len() - k,
    {
        let g = gs[k];
        assert(g@ == vs[k as int]);
        let w = str_width(g, false);
        proof {
            lemma_clusters_width_step(vs, k as int);
            lemma_flatten_take_step(vs, k as int);
        }
        if w > max - tw {
            proof {
                lemma_keep_from_start(vs, k as int, max as nat);
            }
            return (out, tw);
        }
        tw = tw + w;
        out.append(g);
        k = k + 1;
    }
    proof {
        lemma_keep_from_start(vs, k as int, max as nat);
    }
    (out, tw)
}

/// Lays out `padding` columns with a fill of width `fill_width`.
pub fn layout(padding: usize, fill_width: usize, align: Alignment) -> (r: (usize, usize, usize, usize))
    requires
        fill_width > 0,
    ensures
        (r.0 as nat, r.1 as nat, r.2 as nat, r.3 as nat) == pad_layout(
            padding as nat,
            fill_width as nat,
            align,
        ),
{
    match align {
        Alignment::Left => (0, 0, padding % fill_width, padding / fill_width),
        Alignment::Right => (padding / fill_width, padding % fill_width, 0, 0),
        Alignment::Center => {
            let left = padding / 2;
            let right = padding - left;
            let pre_pre = left / fill_width;
            let pre = left % fill_width;
            let post = right % fill_width;
            let post_post = right / fill_width;
            if pre >= fill_width - post {
                assert(pre < fill_width);
                assert(post_post * 2 <= right) by (nonlinear_arith)
                    requires
                        post_post == right / fill_width,
                        fill_width >= 2,
                    ;
                (pre_pre, 0, pre - (fill_width - post), post_post + 1)
            } else {
                (pre_pre, pre, post, post_post)
            }
        },
    }
}

/// With no maximum width and no minimum width beyond zero, rendering hands
/// the string back unchanged.
pub proof fn lemma_render_unbounded_is_identity(s: Seq<char>, spec: FormatSpec)
    requires
        spec.max_width is None,
        spec.min_width is None || spec.min_width == Some(0usize),
    ensures
        rendered(s, spec) == s,
{
}

/// The clusters that truncation keeps fit into `max` columns, and one more
/// cluster, if any is left, would not.
pub proof fn lemma_truncation_keeps_whole_clusters(gs: Seq<Seq<char>>, max: nat)
    ensures
        keep_count(gs, max) <= gs.len(),
        clusters_width(gs.take(keep_count(gs, max) as int)) <= max,
        keep_count(gs, max) < gs.len() ==> clusters_width(
            gs.take(keep_count(gs, max) + 1int),
        ) > max,
{
    assert(gs.take(0) =~= Seq::<Seq<char>>::empty());
    lemma_keep_from_fits(gs, 0, max);
}

proof fn lemma_keep_from_fits(gs: Seq<Seq<char>>, k: int, max: nat)
    requires
        0 <= k <= gs.len(),
        clusters_width(gs.take(k)) <= max,
    ensures
        k <= keep_from(gs, k, max) <= gs.len(),
        clusters_width(gs.take(keep_from(gs, k, max) as int)) <= max,
        keep_from(gs, k, max) < gs.len() ==> clusters_width(
            gs.take(keep_from(gs, k, max) + 1int),
        ) > max,
    decreases gs.len() - k,
{
    if k < gs.len() && clusters_width(gs.take(k + 1)) <= max {
        lemma_keep_from_fits(gs, k + 1, max);
    }
}

/// The padding laid out fills exactly `p` columns, spaces only where less
/// than one fill character fits, and one side only unless centered.
pub proof fn lemma_pad_layout_columns(p: nat, fw: nat, align: Alignment)
    requires
        fw > 0,
    ensures
        ({
            let l = pad_layout(p, fw, align);
            &&& l.0 * fw + l.1 + l.2 + l.3 * fw == p
            &&& l.1 < fw
            &&& l.2 < fw
            &&& align == Alignment::Left ==> l.0 == 0 && l.1 == 0
            &&& align == Alignment::Right ==> l.2 == 0 && l.3 == 0
        }),
{
    let left = p / 2;
    let right = (p - left) as nat;
    assert(p == (p / fw) * fw + p % fw && p % fw < fw) by (nonlinear_arith)
        requires
            fw > 0,
    ;
    assert(left == (left / fw) * fw + left % fw && left % fw < fw) by (nonlinear_arith)
        requires
            fw > 0,
    ;
    assert(right == (right / fw) * fw + right % fw && right % fw < fw) by (nonlinear_arith)
        requires
            fw > 0,
    ;
    assert(left <= p) by (nonlinear_arith)
        requires
            left == p / 2,
    ;
    assert((right / fw + 1) * fw == (right / fw) * fw + fw) by (nonlinear_arith);
    assert(0 * fw == 0) by (nonlinear_arith);
    match align {
        Alignment::Left => {},
        Alignment::Right => {},
        Alignment::Center => {
            assert(left + right == p);
        },
    }
}

} // verus!
