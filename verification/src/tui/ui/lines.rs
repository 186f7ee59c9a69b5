//! Lines of styled text, as the views lay them out.

use vstd::prelude::*;

use super::theme::{Color, Span, Style, fg, fg_style, label_look, label_style, plain_look, separator, spans_view};
use crate::models::strings_view;
use crate::text::append_str;

verus! {

/// A line of styled pieces, with a style for the whole line.
#[derive(Debug, Clone)]
pub struct Line {
    /// The pieces, left to right.
    pub spans: Vec<Span>,
    /// The style of the whole line.
    pub style: Style,
}

/// Mathematical view of a line.
pub struct LineView {
    /// The pieces' texts and styles.
    pub spans: Seq<(Seq<char>, Style)>,
    /// The style of the whole line.
    pub style: Style,
}

impl View for Line {
    type V = LineView;

    open spec fn view(&self) -> LineView {
        LineView { spans: spans_view(self.spans@), style: self.style }
    }
}

/// The views of some lines, in order.
pub open spec fn lines_view(v: Seq<Line>) -> Seq<LineView> {
    v.map_values(|l: Line| l@)
}

/// A line made of these pieces, with no line style.
pub open spec fn pieces(s: Seq<(Seq<char>, Style)>) -> LineView {
    LineView { spans: s, style: plain_look() }
}

/// An empty line.
pub open spec fn blank_view() -> LineView {
    pieces(Seq::empty())
}

/// A line of unstyled text.
pub open spec fn text_view(t: Seq<char>) -> LineView {
    pieces(seq![(t, plain_look())])
}

/// A line of text with a style for the whole line.
pub open spec fn styled_view(t: Seq<char>, s: Style) -> LineView {
    LineView { spans: seq![(t, plain_look())], style: s }
}

/// Wrapped text lines, each behind an unstyled prefix and coloured.
pub open spec fn prefixed_lines(ls: Seq<Seq<char>>, prefix: Seq<char>, c: Color) -> Seq<LineView> {
    ls.map_values(|x: Seq<char>| pieces(seq![(prefix, plain_look()), (x, fg_style(c))]))
}

/// A piece of text.
pub fn piece(t: &str, style: Style) -> (r: Span)
    ensures
        r.content@ == t@,
        r.style == style,
{
    Span { content: String::from_str(t), style }
}

/// A line of pieces.
pub fn line_of(spans: Vec<Span>) -> (r: Line)
    ensures
        r@ == pieces(spans_view(spans@)),
{
    Line { spans, style: Style { fg: None, bg: None, bold: false, crossed_out: false, italic: false } }
}

/// An empty line.
pub fn blank_line() -> (r: Line)
    ensures
        r@ == blank_view(),
{
    let r = line_of(Vec::new());
    assert(spans_view(Seq::<Span>::empty()) =~= Seq::empty());
    r
}

/// A line of unstyled text.
pub fn text_line(t: String) -> (r: Line)
    ensures
        r@ == text_view(t@),
{
    let v = vec![Span { content: t, style: Style { fg: None, bg: None, bold: false, crossed_out: false, italic: false } }];
    let r = line_of(v);
    assert(spans_view(v@) =~= seq![(t@, plain_look())]);
    r
}

/// A line of text with a style for the whole line.
pub fn styled_line(t: &str, style: Style) -> (r: Line)
    ensures
        r@ == styled_view(t@, style),
{
    let v = vec![Span {
        content: String::from_str(t),
        style: Style { fg: None, bg: None, bold: false, crossed_out: false, italic: false },
    }];
    let r = Line { spans: v, style };
    assert(spans_view(r.spans@) =~= seq![(t@, plain_look())]);
    r
}

/// A line of two pieces.
pub fn pair_line(a: Span, b: Span) -> (r: Line)
    ensures
        r@ == pieces(seq![(a.content@, a.style), (b.content@, b.style)]),
{
    let v = vec![a, b];
    let r = line_of(v);
    assert(spans_view(v@) =~= seq![(v@[0].content@, v@[0].style), (v@[1].content@, v@[1].style)]);
    r
}

/// Appends the lines of `ls`, each behind `prefix` and in colour `c`.
pub fn push_prefixed(out: &mut Vec<Line>, ls: &Vec<String>, prefix: &str, c: Color)
    ensures
        lines_view(final(out)@) == lines_view(old(out)@) + prefixed_lines(
            crate::models::strings_view(ls@),
            prefix@,
            c,
        ),
{
    let ghost base = lines_view(out@);
    let ghost lv = crate::models::strings_view(ls@);
    let mut i: usize = 0;
    while i < ls.len()
        invariant
            i <= ls@.len(),
            lv == crate::models::strings_view(ls@),
            lines_view(out@) == base + prefixed_lines(lv.take(i as int), prefix@, c),
        decreases ls@.len() - i,
    {
        let l = pair_line(piece(prefix, plain()), Span { content: ls[i].clone(), style: fg(c) });
        let ghost prev = out@;
        out.push(l);
        assert(lines_view(out@) =~= lines_view(prev).push(l@));
        assert(lv.take(i + 1) =~= lv.take(i as int).push(lv[i as int]));
        assert(prefixed_lines(lv.take(i + 1), prefix@, c) =~= prefixed_lines(lv.take(i as int), prefix@, c).push(
            l@,
        ));
        i = i + 1;
    }
    assert(lv.take(ls@.len() as int) =~= lv);
}

/// The style with nothing set.
pub fn plain() -> (r: Style)
    ensures
        r == plain_look(),
{
    Style { fg: None, bg: None, bold: false, crossed_out: false, italic: false }
}

/// `a` followed by `b`.
pub fn concat(a: &str, b: &str) -> (r: String)
    ensures
        r@ == a@ + b@,
{
    let mut s = String::from_str(a);
    append_str(&mut s, b);
    s
}

/// `a - b`, or 0 when `b` is larger.
pub open spec fn sat(a: nat, b: nat) -> nat {
    if a >= b {
        (a - b) as nat
    } else {
        0
    }
}

/// The lines of a wrapped text behind an unstyled prefix.
pub open spec fn indented(ls: Seq<Seq<char>>, prefix: Seq<char>) -> Seq<LineView> {
    ls.map_values(|x: Seq<char>| text_view(prefix + x))
}

/// A separator line `w` cells wide (at least one).
pub open spec fn separator_view(w: nat) -> LineView {
    pieces(seq![(Seq::new(if w >= 1 { w } else { 1 }, |i: int| '─'), fg_style(Color::Indexed(238)))])
}

/// `a - b`, or 0 when `b` is larger.
pub fn sat_sub(a: usize, b: usize) -> (r: usize)
    ensures
        r == sat(a as nat, b as nat),
{
    if a >= b {
        a - b
    } else {
        0
    }
}

/// Appends one line.
pub fn push_line(out: &mut Vec<Line>, l: Line)
    ensures
        lines_view(final(out)@) == lines_view(old(out)@).push(l@),
{
    let ghost prev = out@;
    out.push(l);
    assert(lines_view(out@) =~= lines_view(prev).push(l@));
}

/// Appends the lines of `ls` after the first, each behind `prefix`.
pub fn push_indented(out: &mut Vec<Line>, ls: &Vec<String>, prefix: &str)
    requires
        ls@.len() >= 1,
    ensures
        lines_view(final(out)@) == lines_view(old(out)@) + indented(strings_view(ls@).drop_first(), prefix@),
{
    let ghost base = lines_view(out@);
    let ghost rest = strings_view(ls@).drop_first();
    let mut i: usize = 1;
    while i < ls.len()
        invariant
            1 <= i <= ls@.len(),
            rest == strings_view(ls@).drop_first(),
            lines_view(out@) == base + indented(rest.take(i - 1), prefix@),
        decreases ls@.len() - i,
    {
        let l = text_line(concat(prefix, ls[i].as_str()));
        push_line(out, l);
        assert(rest.take(i as int) =~= rest.take(i - 1).push(rest[i - 1]));
        assert(indented(rest.take(i as int), prefix@) =~= indented(rest.take(i - 1), prefix@).push(l@));
        i = i + 1;
    }
    assert(rest.take(ls@.len() - 1) =~= rest);
}

/// A separator line `w` cells wide (at least one).
pub fn separator_line(w: usize) -> (r: Line)
    ensures
        r@ == separator_view(w as nat),
{
    let v = vec![separator(w)];
    let r = line_of(v);
    assert(spans_view(v@) =~= seq![(v@[0].content@, v@[0].style)]);
    r
}

/// A line of one piece.
pub fn single(t: String, st: Style) -> (r: Line)
    ensures
        r@ == pieces(seq![(t@, st)]),
{
    let v = vec![Span { content: t, style: st }];
    let r = line_of(v);
    assert(spans_view(v@) =~= seq![(t@, st)]);
    r
}

/// A labelled line: the label, then a text in colour `c`.
pub fn labelled(label: &str, t: String, c: Color) -> (r: Line)
    ensures
        r@ == pieces(seq![(label@, label_look()), (t@, fg_style(c))]),
{
    pair_line(piece(label, label_style()), Span { content: t, style: fg(c) })
}


} // verus!
