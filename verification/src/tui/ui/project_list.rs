//! Project list view (left pane): the lines it shows and which rows are
//! visible.

use vstd::prelude::*;

use super::lines::{
    Line, LineView, blank_line, blank_view, line_of, lines_view, pieces, push_line, sat, sat_sub,
    separator_line, separator_view, single, styled_line, styled_view,
};
use super::text::{date_cuttable, short_date, truncated};
use super::theme::{
    Color, MUTED, Span, Style, bold_look, fg, fg_style, header_style, hint_look, left_padded,
    normal_style, pad_right, plain_look, selected_look, selected_style, spans_view,
};
use crate::models::{Project, ProjectView, projects_view};
use crate::text::{append_str, decimal, usize_to_decimal};

pub use super::task_list::{list_window, scroll_for};
pub use super::text::{format_created_at, truncate_str};

verus! {

/// Width of the name column: what the other columns leave, between 8 and 40.
pub open spec fn name_width(w: nat) -> nat {
    let x = sat(sat(sat(sat(w, 3), 30), 6), 4);
    let y = if x >= 8 { x } else { 8 };
    if y <= 40 { y } else { 40 }
}

/// The row of project `i`: marker, name, description (or `-`) and date.
pub open spec fn project_row(i: nat, p: ProjectView, sel: nat, nw: nat) -> LineView {
    let s = i == sel;
    let st = if s { selected_look() } else { plain_look() };
    let d = match p.description {
        Some(x) => x,
        None => "-"@,
    };
    pieces(
        seq![
            (" "@ + (if s { "▸"@ } else { " "@ }) + " "@, st),
            (left_padded(truncated(p.name, nw), nw), st),
            (left_padded(truncated(d, 30), 30), st),
            (short_date(p.created_at), st),
        ],
    )
}

/// The rows of consecutive projects, the first at index `first`.
pub open spec fn project_rows(ps: Seq<ProjectView>, first: nat, sel: nat, nw: nat) -> Seq<LineView>
    decreases ps.len(),
{
    if ps.len() == 0 {
        Seq::empty()
    } else {
        project_rows(ps.drop_last(), first, sel, nw).push(
            project_row((first + ps.len() - 1) as nat, ps.last(), sel, nw),
        )
    }
}

/// The column titles.
pub open spec fn project_header(nw: nat) -> LineView {
    let h = bold_look(Color::Indexed(248));
    pieces(
        seq![
            ("  # "@, h),
            (left_padded("名称"@, nw), h),
            (left_padded("描述"@, 30), h),
            (left_padded("时间"@, 6), h),
        ],
    )
}

/// Every line of the project list in `w` × `h` cells.
pub open spec fn project_list_lines(ps: Seq<ProjectView>, sel: nat, w: nat, h: nat) -> Seq<LineView> {
    if ps.len() == 0 {
        seq![
            blank_view(),
            styled_view("  暂无项目"@, hint_look()),
            blank_view(),
            styled_view("  按 n 创建新项目，按 Esc 返回任务列表"@, fg_style(MUTED)),
        ]
    } else {
        let from = list_window(ps.len(), sel, h).0;
        let end = list_window(ps.len(), sel, h).1;
        let nw = name_width(w);
        seq![project_header(nw), separator_view(sat(w, 2))] + project_rows(
            ps.subrange(from as int, end as int),
            from,
            sel,
            nw,
        ) + seq![blank_view(), pieces(seq![("  共 "@ + decimal(ps.len()) + " 个项目"@, fg_style(MUTED))])]
    }
}

/// The dates of the rows in view (see `list_window`) can be cut to "MM-DD".
pub open spec fn shown_dates_cut(ps: Seq<ProjectView>, sel: nat, h: nat) -> bool {
    let from = list_window(ps.len(), sel, h).0;
    let end = list_window(ps.len(), sel, h).1;
    forall|i: int| from <= i < end ==> date_cuttable(#[trigger] ps[i].created_at)
}

fn project_row_exec(i: usize, p: &Project, sel: usize, nw: usize) -> (r: Line)
    requires
        date_cuttable(p@.created_at),
    ensures
        r@ == project_row(i as nat, p@, sel as nat, nw as nat),
{
    let s = i == sel;
    let st = if s { selected_style() } else { normal_style() };
    let d: &str = match &p.description {
        Some(x) => x.as_str(),
        None => "-",
    };
    let marker = if s { " ▸ " } else { "   " };
    let v = vec![
        Span { content: String::from_str(marker), style: st },
        Span { content: pad_right(truncate_str(p.name.as_str(), nw).as_str(), nw), style: st },
        Span { content: pad_right(truncate_str(d, 30).as_str(), 30), style: st },
        Span { content: format_created_at(p.created_at.as_str()), style: st },
    ];
    proof {
        reveal_strlit(" ▸ ");
        reveal_strlit("   ");
        reveal_strlit("▸");
        reveal_strlit(" ");
        assert(" ▸ "@ =~= " "@ + "▸"@ + " "@);
        assert("   "@ =~= " "@ + " "@ + " "@);
    }
    assert(spans_view(v@) =~= project_row(i as nat, p@, sel as nat, nw as nat).spans);
    line_of(v)
}


/// Width of the row prefix (marker).
pub const PREFIX_WIDTH: usize = 3;
/// Default width of the name column.
pub const DEFAULT_NAME_WIDTH: usize = 20;
/// Width of the description column.
pub const DESC_WIDTH: usize = 30;
/// Width of the time column.
pub const TIME_WIDTH: usize = 6;
/// Header and separator rows.
pub const HEADER_ROWS: usize = 2;
/// Footer rows.
pub const FOOTER_ROWS: usize = 2;

/// The project list of the left pane.
pub struct ProjectList<'a> {
    /// Projects shown.
    pub projects: &'a [Project],
    /// Index of the selected row.
    pub selected_index: usize,
}

impl<'a> ProjectList<'a> {
    /// A project list over `projects` with row `selected_index` selected.
    pub fn new(projects: &'a [Project], selected_index: usize) -> (r: Self)
        ensures
            r.projects@ == projects@,
            r.selected_index == selected_index,
    {
        ProjectList { projects, selected_index }
    }

    /// The lines of the list in `width` × `height` cells (see
    /// `project_list_lines`).
    pub fn lines(&self, width: usize, height: usize) -> (r: Vec<Line>)
        requires
            shown_dates_cut(projects_view(self.projects@), self.selected_index as nat, height as nat),
        ensures
            lines_view(r@) == project_list_lines(
                projects_view(self.projects@),
                self.selected_index as nat,
                width as nat,
                height as nat,
            ),
    {
        let ghost ps = projects_view(self.projects@);
        let n = self.projects.len();
        let mut out: Vec<Line> = Vec::new();
        assert(lines_view(out@) =~= Seq::<LineView>::empty());
        if n == 0 {
            push_line(&mut out, blank_line());
            push_line(&mut out, styled_line("  暂无项目", Style {
                fg: Some(MUTED),
                bg: None,
                bold: false,
                crossed_out: false,
                italic: true,
            }));
            push_line(&mut out, blank_line());
            push_line(&mut out, styled_line("  按 n 创建新项目，按 Esc 返回任务列表", fg(MUTED)));
            assert(lines_view(out@) =~= project_list_lines(ps, self.selected_index as nat, width as nat, height as nat));
            return out;
        }
        let usable = sat_sub(height, 4);
        let scroll = self.scroll_offset(height);
        let from = if scroll <= n { scroll } else { n };
        let end = if usable <= n - from { from + usable } else { n };
        let x = sat_sub(sat_sub(sat_sub(sat_sub(width, 3), 30), 6), 4);
        let y = if x >= 8 { x } else { 8 };
        let nw = if y <= 40 { y } else { 40 };
        let h = header_style();
        let hv = vec![
            Span { content: String::from_str("  # "), style: h },
            Span { content: pad_right("名称", nw), style: h },
            Span { content: pad_right("描述", 30), style: h },
            Span { content: pad_right("时间", 6), style: h },
        ];
        assert(spans_view(hv@) =~= project_header(nw as nat).spans);
        push_line(&mut out, line_of(hv));
        push_line(&mut out, separator_line(sat_sub(width, 2)));
        let ghost top = lines_view(out@);
        let mut k: usize = from;
        assert(ps.subrange(from as int, from as int) =~= Seq::<ProjectView>::empty());
        while k < end
            invariant
                from <= k <= end,
                end <= n,
                n == self.projects@.len(),
                ps == projects_view(self.projects@),
                from == list_window(n as nat, self.selected_index as nat, height as nat).0,
                end == list_window(n as nat, self.selected_index as nat, height as nat).1,
                shown_dates_cut(ps, self.selected_index as nat, height as nat),
                lines_view(out@) == top + project_rows(ps.subrange(from as int, k as int), from as nat, self.selected_index as nat, nw as nat),
            decreases end - k,
        {
            assert(ps[k as int] == self.projects@[k as int]@);
            let l = project_row_exec(k, &self.projects[k], self.selected_index, nw);
            push_line(&mut out, l);
            proof {
                let sub = ps.subrange(from as int, k + 1);
                assert(sub.drop_last() =~= ps.subrange(from as int, k as int));
                assert(sub.last() == self.projects@[k as int]@);
            }
            k = k + 1;
        }
        push_line(&mut out, blank_line());
        let mut footer = String::from_str("  共 ");
        append_str(&mut footer, usize_to_decimal(n).as_str());
        append_str(&mut footer, " 个项目");
        push_line(&mut out, single(footer, fg(MUTED)));
        assert(lines_view(out@) =~= project_list_lines(ps, self.selected_index as nat, width as nat, height as nat));
        out
    }

    /// First visible row for a view `visible_height` rows tall (header and
    /// footer take 4 of them).
    pub fn scroll_offset(&self, visible_height: usize) -> (r: usize)
        ensures
            r == if visible_height == 0 || self.projects@.len() == 0 {
                0
            } else {
                scroll_for(
                    self.selected_index as nat,
                    if visible_height >= 4 { (visible_height - 4) as nat } else { 0 },
                )
            },
    {
        if visible_height == 0 || self.projects.len() == 0 {
            return 0;
        }
        let usable = if visible_height >= HEADER_ROWS + FOOTER_ROWS {
            visible_height - (HEADER_ROWS + FOOTER_ROWS)
        } else {
            0
        };
        if usable == 0 {
            return 0;
        }
        if self.selected_index >= usable {
            self.selected_index - usable + 1
        } else {
            0
        }
    }
}

} // verus!
