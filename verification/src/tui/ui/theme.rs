//! The visual theme of the views: colours, styles, icons, bar characters,
//! minimum sizes and the styled pieces of text built from them.

use vstd::prelude::*;

use crate::text::{append_str, decimal, push_char, repeat_char, str_eq, usize_to_decimal};

verus! {

/// A terminal colour.
#[derive(Debug, Clone, Copy, PartialEq, Eq, Structural)]
pub enum Color {
    /// Red.
    Red,
    /// Yellow.
    Yellow,
    /// Green.
    Green,
    /// Cyan.
    Cyan,
    /// Blue.
    Blue,
    /// Magenta.
    Magenta,
    /// White.
    White,
    /// Dark grey.
    DarkGray,
    /// Black.
    Black,
    /// A colour of the 256-colour palette.
    Indexed(u8),
}

/// How a piece of text is drawn.
#[derive(Debug, Clone, Copy, PartialEq, Eq, Structural)]
pub struct Style {
    /// Foreground colour, when set.
    pub fg: Option<Color>,
    /// Background colour, when set.
    pub bg: Option<Color>,
    /// Bold.
    pub bold: bool,
    /// Struck through.
    pub crossed_out: bool,
    /// Italic.
    pub italic: bool,
}

/// A piece of text with its style.
#[derive(Debug, Clone)]
pub struct Span {
    /// The text.
    pub content: String,
    /// Its style.
    pub style: Style,
}

/// A style with only a foreground colour.
pub open spec fn fg_style(c: Color) -> Style {
    Style { fg: Some(c), bg: None, bold: false, crossed_out: false, italic: false }
}

/// A muted italic style, for placeholder lines.
pub open spec fn hint_look() -> Style {
    Style { fg: Some(MUTED), bg: None, bold: false, crossed_out: false, italic: true }
}

/// A style with only a foreground colour (see `fg_style`).
pub fn fg(c: Color) -> (r: Style)
    ensures
        r == fg_style(c),
{
    Style { fg: Some(c), bg: None, bold: false, crossed_out: false, italic: false }
}

/// Title bar background.
pub const TITLE_BG: Color = Color::DarkGray;
/// Border of an unfocused block.
pub const BORDER: Color = Color::White;
/// Border of the focused block.
pub const BORDER_FOCUSED: Color = Color::Cyan;
/// Border of a dangerous action's block.
pub const BORDER_DANGER: Color = Color::Red;
/// Accent of titles and main text.
pub const ACCENT: Color = Color::Cyan;
/// Tags.
pub const TAG: Color = Color::Magenta;
/// Links (resource URLs).
pub const LINK: Color = Color::Blue;
/// Secondary text.
pub const MUTED: Color = Color::DarkGray;
/// Body text.
pub const TEXT: Color = Color::White;
/// Highlighted foreground of title and status bars.
pub const HIGHLIGHT_FG: Color = Color::Yellow;

/// Minimum terminal width (columns).
pub const MIN_WIDTH: u16 = 80;
/// Minimum terminal height (rows).
pub const MIN_HEIGHT: u16 = 24;

/// Done (checked).
pub const ICON_DONE: &'static str = "✓";
/// Pending (hollow circle).
pub const ICON_PENDING: &'static str = "○";
/// Selected-row marker.
pub const ICON_SELECTED: &'static str = "▸";
/// Unselected-row marker.
pub const ICON_UNSELECTED: &'static str = " ";
/// List bullet.
pub const ICON_BULLET: &'static str = "•";
/// Warning.
pub const ICON_WARN: &'static str = "⚠";
/// Edit.
pub const ICON_EDIT: &'static str = "✏";
/// New.
pub const ICON_NEW: &'static str = "✚";
/// Error.
pub const ICON_ERROR: &'static str = "✖";
/// Information.
pub const ICON_INFO: &'static str = "ℹ";
/// High priority mark.
pub const ICON_PRIORITY_HIGH: &'static str = "●";
/// Medium priority mark.
pub const ICON_PRIORITY_MEDIUM: &'static str = "◑";
/// Low priority mark.
pub const ICON_PRIORITY_LOW: &'static str = "○";

/// Filled cell of a progress bar.
pub const BAR_FILLED: char = '█';
/// Empty cell of a progress bar.
pub const BAR_EMPTY: char = '░';

/// The mark of a priority: ● high, ◑ medium, ○ low, a space otherwise
/// (case-sensitive).
pub open spec fn priority_mark(p: Seq<char>) -> Seq<char> {
    if p == "high"@ {
        "●"@
    } else if p == "medium"@ {
        "◑"@
    } else if p == "low"@ {
        "○"@
    } else {
        " "@
    }
}

/// The mark of a priority (see `priority_mark`).
pub fn priority_icon(priority: &str) -> (r: &'static str)
    ensures
        r@ == priority_mark(priority@),
{
    if str_eq(priority, "high") {
        ICON_PRIORITY_HIGH
    } else if str_eq(priority, "medium") {
        ICON_PRIORITY_MEDIUM
    } else if str_eq(priority, "low") {
        ICON_PRIORITY_LOW
    } else {
        " "
    }
}

/// The colour of a priority: red high, yellow medium, green low, muted
/// otherwise (case-sensitive).
pub open spec fn priority_tint(p: Seq<char>) -> Color {
    if p == "high"@ {
        Color::Red
    } else if p == "medium"@ {
        Color::Yellow
    } else if p == "low"@ {
        Color::Green
    } else {
        MUTED
    }
}

/// The colour of a priority (see `priority_tint`).
pub fn priority_color(priority: &str) -> (r: Color)
    ensures
        r == priority_tint(priority@),
{
    if str_eq(priority, "high") {
        Color::Red
    } else if str_eq(priority, "medium") {
        Color::Yellow
    } else if str_eq(priority, "low") {
        Color::Green
    } else {
        MUTED
    }
}

/// `s` followed by spaces up to `w` characters (as a `{:<w}` format).
pub open spec fn left_padded(s: Seq<char>, w: nat) -> Seq<char> {
    if s.len() >= w {
        s
    } else {
        s + Seq::new((w - s.len()) as nat, |i: int| ' ')
    }
}

/// `s` followed by spaces up to `w` characters (see `left_padded`).
pub fn pad_right(s: &str, w: usize) -> (r: String)
    ensures
        r@ == left_padded(s@, w as nat),
{
    let n = s.unicode_len();
    let mut out = String::from_str(s);
    if n < w {
        append_str(&mut out, repeat_char(' ', w - n).as_str());
    }
    out
}

/// The text of a priority cell `width` characters wide: a dash for an empty
/// or `-` priority; else the priority's mark, a space and the priority
/// padded to `width - 2` (at least 1) characters.
pub open spec fn priority_cell(p: Seq<char>, width: nat) -> Seq<char> {
    if p == "-"@ || p.len() == 0 {
        left_padded("-"@, width)
    } else {
        priority_mark(p) + " "@ + left_padded(p, if width >= 3 { (width - 2) as nat } else { 1 })
    }
}

/// A priority cell in the priority's colour (see `priority_cell`).
pub fn priority_span(priority: &str, width: usize) -> (r: Span)
    ensures
        r.content@ == priority_cell(priority@, width as nat),
        r.style == fg_style(priority_tint(priority@)),
{
    let color = priority_color(priority);
    let icon = priority_icon(priority);
    let text = if str_eq(priority, "-") || priority.unicode_len() == 0 {
        pad_right("-", width)
    } else {
        let w = if width >= 3 { width - 2 } else { 1 };
        let mut t = String::from_str(icon);
        append_str(&mut t, " ");
        append_str(&mut t, pad_right(priority, w).as_str());
        t
    };
    Span { content: text, style: fg(color) }
}

/// The style of the selected row: yellow, bold, on a dark grey.
pub open spec fn selected_look() -> Style {
    Style { fg: Some(HIGHLIGHT_FG), bg: Some(Color::Indexed(236)), bold: true, crossed_out: false, italic: false }
}

/// Style of the selected row (see `selected_look`).
pub fn selected_style() -> (r: Style)
    ensures
        r == selected_look(),
{
    Style { fg: Some(HIGHLIGHT_FG), bg: Some(Color::Indexed(236)), bold: true, crossed_out: false, italic: false }
}

/// The style of a completed row: mid grey, struck through.
pub open spec fn completed_look() -> Style {
    Style { fg: Some(Color::Indexed(244)), bg: None, bold: false, crossed_out: true, italic: false }
}

/// Style of a completed row (see `completed_look`).
pub fn completed_style() -> (r: Style)
    ensures
        r == completed_look(),
{
    Style { fg: Some(Color::Indexed(244)), bg: None, bold: false, crossed_out: true, italic: false }
}

/// Style of the priority cell of a completed row: the priority's colour,
/// struck through.
pub fn completed_priority_style(priority: &str) -> (r: Style)
    ensures
        r == (Style { fg: Some(priority_tint(priority@)), bg: None, bold: false, crossed_out: true, italic: false }),
{
    Style { fg: Some(priority_color(priority)), bg: None, bold: false, crossed_out: true, italic: false }
}

/// The style with nothing set.
pub open spec fn plain_look() -> Style {
    Style { fg: None, bg: None, bold: false, crossed_out: false, italic: false }
}

/// Style of an ordinary row: nothing set.
pub fn normal_style() -> (r: Style)
    ensures
        r == plain_look(),
{
    Style { fg: None, bg: None, bold: false, crossed_out: false, italic: false }
}

/// A bold style in colour `c`.
pub open spec fn bold_look(c: Color) -> Style {
    Style { fg: Some(c), bg: None, bold: true, crossed_out: false, italic: false }
}

/// Style of a section title of the detail view: accent colour, bold.
pub fn section_title_style() -> (r: Style)
    ensures
        r == bold_look(ACCENT),
{
    Style { fg: Some(ACCENT), bg: None, bold: true, crossed_out: false, italic: false }
}

/// The style of a label of the detail view: light grey.
pub open spec fn label_look() -> Style {
    fg_style(Color::Indexed(246))
}

/// Style of a label of the detail view ("ID:", "优先级:"): light grey.
pub fn label_style() -> (r: Style)
    ensures
        r == label_look(),
{
    fg(Color::Indexed(246))
}

/// Style of a list header: brighter grey, bold.
pub fn header_style() -> (r: Style)
    ensures
        r == bold_look(Color::Indexed(248)),
{
    Style { fg: Some(Color::Indexed(248)), bg: None, bold: true, crossed_out: false, italic: false }
}

/// Fill colour of a progress bar: red up to 25 %, yellow up to 50 %, cyan up
/// to 75 %, green above.
pub open spec fn bar_tint(pct: nat) -> Color {
    if pct <= 25 {
        Color::Red
    } else if pct <= 50 {
        Color::Yellow
    } else if pct <= 75 {
        Color::Cyan
    } else {
        Color::Green
    }
}

fn bar_color(pct: usize) -> (r: Color)
    ensures
        r == bar_tint(pct as nat),
{
    if pct <= 25 {
        Color::Red
    } else if pct <= 50 {
        Color::Yellow
    } else if pct <= 75 {
        Color::Cyan
    } else {
        Color::Green
    }
}

/// `n` in decimal, right-aligned in three characters (as a `{:>3}` format).
pub open spec fn right_aligned3(n: nat) -> Seq<char> {
    let d = decimal(n);
    if d.len() >= 3 {
        d
    } else {
        Seq::new((3 - d.len()) as nat, |i: int| ' ') + d
    }
}

/// The pieces of a coloured progress bar `width` cells wide: below 4 cells,
/// the percentage alone (right-aligned in three characters, then `%`) in
/// the fill colour; else a muted `[`, `pct` percent of the inner cells
/// filled in the fill colour, the rest empty in dark grey, and a muted `]`.
pub open spec fn bar_pieces(pct: nat, width: nat) -> Seq<(Seq<char>, Style)> {
    if width < 4 {
        seq![(right_aligned3(pct) + "%"@, fg_style(bar_tint(pct)))]
    } else {
        let inner = (width - 2) as nat;
        let filled = pct * inner / 100;
        let empty = if filled < inner { (inner - filled) as nat } else { 0nat };
        seq![
            ("["@, fg_style(MUTED)),
            (Seq::new(filled, |i: int| '█'), fg_style(bar_tint(pct))),
            (Seq::new(empty, |i: int| '░'), fg_style(Color::Indexed(236))),
            ("]"@, fg_style(MUTED)),
        ]
    }
}

/// The pieces of a text in order, each with its style.
pub open spec fn spans_view(v: Seq<Span>) -> Seq<(Seq<char>, Style)> {
    v.map_values(|sp: Span| (sp.content@, sp.style))
}

/// A coloured progress bar (see `bar_pieces`).
pub fn progress_bar_spans(pct: usize, width: usize) -> (r: Vec<Span>)
    requires
        width >= 4 ==> pct * (width - 2) <= usize::MAX,
    ensures
        spans_view(r@) == bar_pieces(pct as nat, width as nat),
{
    if width < 4 {
        let d = usize_to_decimal(pct);
        let n = d.unicode_len();
        let mut t = if n < 3 {
            repeat_char(' ', 3 - n)
        } else {
            String::new()
        };
        append_str(&mut t, d.as_str());
        push_char(&mut t, '%');
        proof {
            reveal_strlit("%");
        }
        assert(t@ =~= right_aligned3(pct as nat) + "%"@);
        let v = vec![Span { content: t, style: fg(bar_color(pct)) }];
        assert(spans_view(v@) =~= bar_pieces(pct as nat, width as nat));
        return v;
    }
    let inner = width - 2;
    let filled = pct * inner / 100;
    let empty = if filled < inner { inner - filled } else { 0 };
    let v = vec![
        Span { content: String::from_str("["), style: fg(MUTED) },
        Span { content: repeat_char('█', filled), style: fg(bar_color(pct)) },
        Span { content: repeat_char('░', empty), style: fg(Color::Indexed(236)) },
        Span { content: String::from_str("]"), style: fg(MUTED) },
    ];
    proof {
        reveal_strlit("[");
        reveal_strlit("]");
    }
    assert(spans_view(v@) =~= bar_pieces(pct as nat, width as nat));
    v
}

/// A separator line: `─` repeated `width` times (at least once), in a grey
/// slightly lighter than dark grey.
pub fn separator(width: usize) -> (r: Span)
    ensures
        r.content@ == Seq::new(if width >= 1 { width as nat } else { 1 }, |i: int| '─'),
        r.style == fg_style(Color::Indexed(238)),
{
    let n = if width >= 1 { width } else { 1 };
    Span { content: repeat_char('─', n), style: fg(Color::Indexed(238)) }
}

/// A ticked box, ` ✓ `, green and bold.
pub fn checkbox_done() -> (r: Span)
    ensures
        r.content@ == " ✓ "@,
        r.style == (Style { fg: Some(Color::Green), bg: None, bold: true, crossed_out: false, italic: false }),
{
    Span {
        content: String::from_str(" ✓ "),
        style: Style { fg: Some(Color::Green), bg: None, bold: true, crossed_out: false, italic: false },
    }
}

/// An unticked box, ` ○ `, in dark grey.
pub fn checkbox_pending() -> (r: Span)
    ensures
        r.content@ == " ○ "@,
        r.style == fg_style(Color::Indexed(240)),
{
    Span { content: String::from_str(" ○ "), style: fg(Color::Indexed(240)) }
}

/// A ticked box on the selected row's background.
pub fn checkbox_done_selected() -> (r: Span)
    ensures
        r.content@ == " ✓ "@,
        r.style == (Style {
            fg: Some(Color::Green),
            bg: Some(Color::Indexed(236)),
            bold: true,
            crossed_out: false,
            italic: false,
        }),
{
    Span {
        content: String::from_str(" ✓ "),
        style: Style {
            fg: Some(Color::Green),
            bg: Some(Color::Indexed(236)),
            bold: true,
            crossed_out: false,
            italic: false,
        },
    }
}

/// An unticked box on the selected row's background.
pub fn checkbox_pending_selected() -> (r: Span)
    ensures
        r.content@ == " ○ "@,
        r.style == (Style {
            fg: Some(Color::Indexed(248)),
            bg: Some(Color::Indexed(236)),
            bold: false,
            crossed_out: false,
            italic: false,
        }),
{
    Span {
        content: String::from_str(" ○ "),
        style: Style {
            fg: Some(Color::Indexed(248)),
            bg: Some(Color::Indexed(236)),
            bold: false,
            crossed_out: false,
            italic: false,
        },
    }
}

/// A plain progress bar (see `bar_text`).
pub fn progress_bar_plain(pct: usize, width: usize) -> (r: String)
    requires
        width >= 2 ==> pct * (width - 2) <= usize::MAX,
    ensures
        r@ == super::bar_text(pct as nat, width as nat),
{
    super::progress_bar(pct, width)
}

} // verus!
