//! Task list view: the lines it shows and which rows are visible.

use vstd::prelude::*;

use super::lines::{
    Line, LineView, blank_line, blank_view, line_of, lines_view, pieces, push_line, sat,
    sat_sub, separator_line, separator_view, single, styled_line, styled_view,
};
use super::task_detail::row_look;
use super::text::{date_cuttable, short_date, truncated};
use super::theme::{
    Color, MUTED, Span, Style, bold_look, completed_priority_style, completed_style, fg, fg_style,
    header_style, hint_look, left_padded, normal_style, pad_right, priority_color,
    priority_tint, selected_style, spans_view,
};
use crate::ids::{short_id, short_id_of};
use crate::logic::task::{count_done, done_count, priority_of};
use crate::models::{Task, TaskView, tasks_view};
use crate::text::{append_str, cuts_at, decimal, usize_to_decimal};

pub use super::text::{format_created_at, truncate_str};

verus! {

/// Width of the description column: what the other columns leave, between
/// 8 and 48.
pub open spec fn desc_width(w: nat) -> nat {
    let x = sat(sat(sat(sat(sat(w, 12), 7), 7), 6), 4);
    let y = if x >= 8 { x } else { 8 };
    if y <= 48 { y } else { 48 }
}

/// The column titles.
pub open spec fn list_header(dw: nat) -> LineView {
    let h = bold_look(Color::Indexed(248));
    pieces(
        seq![
            ("  # "@, h),
            (left_padded("ID"@, 9), h),
            (left_padded("描述"@, dw), h),
            (left_padded("进度"@, 7), h),
            (left_padded("优先级"@, 7), h),
            (left_padded("时间"@, 6), h),
        ],
    )
}

/// The priority a row shows: the task's, or `-`.
pub open spec fn shown_priority(t: TaskView) -> Seq<char> {
    match priority_of(t.metadata) {
        Some(p) => p,
        None => "-"@,
    }
}

/// Whether every item of the task is done (and it has one).
pub open spec fn all_done(t: TaskView) -> bool {
    t.checklist.len() > 0 && done_count(t.checklist) == t.checklist.len()
}

/// The style of the priority cell.
pub open spec fn priority_look(p: Seq<char>, selected: bool, done: bool) -> Style {
    if !selected && done {
        Style { fg: Some(priority_tint(p)), bg: None, bold: false, crossed_out: true, italic: false }
    } else {
        fg_style(priority_tint(p))
    }
}

/// The row of task `i`: marker, short ID, description, progress, priority
/// and date, each padded to its column.
pub open spec fn task_row(i: nat, t: TaskView, sel: nat, dw: nat) -> LineView {
    let s = i == sel;
    let d = all_done(t);
    let st = row_look(s, d);
    let p = shown_priority(t);
    pieces(
        seq![
            (" "@ + (if s { "▸"@ } else { " "@ }) + " "@, st),
            (left_padded(short_id_of(t.id), 9), st),
            (left_padded(truncated(t.task_description, dw), dw), st),
            (left_padded(decimal(done_count(t.checklist)) + "/"@ + decimal(t.checklist.len()), 7), st),
            (left_padded(p, 7), priority_look(p, s, d)),
            (short_date(t.created_at), st),
        ],
    )
}

/// The rows of consecutive tasks, the first at index `first`.
pub open spec fn task_rows(ts: Seq<TaskView>, first: nat, sel: nat, dw: nat) -> Seq<LineView>
    decreases ts.len(),
{
    if ts.len() == 0 {
        Seq::empty()
    } else {
        task_rows(ts.drop_last(), first, sel, dw).push(
            task_row((first + ts.len() - 1) as nat, ts.last(), sel, dw),
        )
    }
}

/// The footer text: how many tasks, and the selected one's short ID.
pub open spec fn list_footer(ts: Seq<TaskView>, sel: nat) -> Seq<char> {
    "  共 "@ + decimal(ts.len()) + " 个任务"@ + if sel < ts.len() {
        "，选中: "@ + short_id_of(ts[sel as int].id)
    } else {
        Seq::empty()
    }
}

/// Every line of the task list in `w` × `h` cells: a hint when empty; else
/// the column titles, a separator, the visible rows, a blank line and the
/// footer.
pub open spec fn list_lines(ts: Seq<TaskView>, sel: nat, w: nat, h: nat) -> Seq<LineView> {
    if ts.len() == 0 {
        seq![
            blank_view(),
            styled_view("  暂无任务"@, hint_look()),
            blank_view(),
            styled_view("  按 n 创建新任务，按 ? 查看帮助"@, fg_style(MUTED)),
        ]
    } else {
        let from = list_window(ts.len(), sel, h).0;
        let end = list_window(ts.len(), sel, h).1;
        let dw = desc_width(w);
        seq![list_header(dw), separator_view(sat(w, 2))] + task_rows(
            ts.subrange(from as int, end as int),
            from,
            sel,
            dw,
        ) + seq![blank_view(), pieces(seq![(list_footer(ts, sel), fg_style(MUTED))])]
    }
}

/// The rows in view, `from..end`, of a list of `n` tasks in a pane `h`
/// lines tall with row `sel` selected: as many as fit below the header and
/// above the footer, scrolled so that the selected row shows.
pub open spec fn list_window(n: nat, sel: nat, h: nat) -> (nat, nat) {
    let usable = sat(h, 4);
    let scroll = if h == 0 { 0 } else { scroll_for(sel, usable) };
    let from = if scroll <= n { scroll } else { n };
    let end = if from + usable <= n { from + usable } else { n };
    (from, end)
}

/// The tasks the list cuts can be cut: each row in view has an ID that cuts
/// at 8 bytes and a date that cuts to "MM-DD", and so does the selected
/// task's ID, which the footer shows.
pub open spec fn shown_rows_cut(ts: Seq<TaskView>, sel: nat, h: nat) -> bool {
    let from = list_window(ts.len(), sel, h).0;
    let end = list_window(ts.len(), sel, h).1;
    &&& forall|i: int| from <= i < end ==> cuts_at(#[trigger] ts[i].id, 8) && date_cuttable(ts[i].created_at)
    &&& sel < ts.len() ==> cuts_at(ts[sel as int].id, 8)
}



/// Width of the row prefix: marker (3) and ID (9).
pub const PREFIX_WIDTH: usize = 12;
/// Default width of the description column.
pub const DEFAULT_DESC_WIDTH: usize = 24;
/// Width of the progress column.
pub const PROGRESS_WIDTH: usize = 7;
/// Width of the priority column.
pub const PRIORITY_WIDTH: usize = 7;
/// Width of the time column ("MM-DD").
pub const TIME_WIDTH: usize = 6;
/// Header and separator rows.
pub const HEADER_ROWS: usize = 2;
/// Footer rows.
pub const FOOTER_ROWS: usize = 2;

/// The task list of the right pane.
pub struct TaskList<'a> {
    /// Tasks shown.
    pub tasks: &'a [Task],
    /// Index of the selected row.
    pub selected_index: usize,
}

/// The first visible row when `rows` rows fit and row `selected` must show.
pub open spec fn scroll_for(selected: nat, rows: nat) -> nat {
    if rows == 0 {
        0
    } else if selected >= rows {
        (selected - rows + 1) as nat
    } else {
        0
    }
}


fn desc_width_exec(w: usize) -> (r: usize)
    ensures
        r == desc_width(w as nat),
{
    let x = sat_sub(sat_sub(sat_sub(sat_sub(sat_sub(w, 12), 7), 7), 6), 4);
    let y = if x >= 8 { x } else { 8 };
    if y <= 48 { y } else { 48 }
}

fn header_line(dw: usize) -> (r: Line)
    ensures
        r@ == list_header(dw as nat),
{
    let h = header_style();
    let v = vec![
        Span { content: String::from_str("  # "), style: h },
        Span { content: pad_right("ID", 9), style: h },
        Span { content: pad_right("描述", dw), style: h },
        Span { content: pad_right("进度", 7), style: h },
        Span { content: pad_right("优先级", 7), style: h },
        Span { content: pad_right("时间", 6), style: h },
    ];
    assert(spans_view(v@) =~= list_header(dw as nat).spans);
    line_of(v)
}

fn shown_priority_exec(t: &Task) -> (r: &str)
    ensures
        r@ == shown_priority(t@),
{
    match &t.metadata {
        Some(m) => match &m.priority {
            Some(p) => p.as_str(),
            None => "-",
        },
        None => "-",
    }
}

fn task_row_exec(i: usize, t: &Task, sel: usize, dw: usize) -> (r: Line)
    requires
        cuts_at(t@.id, 8),
        date_cuttable(t@.created_at),
    ensures
        r@ == task_row(i as nat, t@, sel as nat, dw as nat),
{
    let s = i == sel;
    let done = count_done(&t.checklist);
    let total = t.checklist.len();
    let d = total > 0 && done == total;
    let st = if s {
        selected_style()
    } else if d {
        completed_style()
    } else {
        normal_style()
    };
    let p = shown_priority_exec(t);
    let pst = if !s && d {
        completed_priority_style(p)
    } else {
        fg(priority_color(p))
    };
    let marker = if s { " ▸ " } else { "   " };
    let mut progress = usize_to_decimal(done);
    append_str(&mut progress, "/");
    append_str(&mut progress, usize_to_decimal(total).as_str());
    let v = vec![
        Span { content: String::from_str(marker), style: st },
        Span { content: pad_right(short_id(t.id.as_str()).as_str(), 9), style: st },
        Span { content: pad_right(truncate_str(t.task_description.as_str(), dw).as_str(), dw), style: st },
        Span { content: pad_right(progress.as_str(), 7), style: st },
        Span { content: pad_right(p, 7), style: pst },
        Span { content: format_created_at(t.created_at.as_str()), style: st },
    ];
    proof {
        reveal_strlit(" ▸ ");
        reveal_strlit("   ");
        reveal_strlit("▸");
        reveal_strlit(" ");
        assert(" ▸ "@ =~= " "@ + "▸"@ + " "@);
        assert("   "@ =~= " "@ + " "@ + " "@);
    }
    assert(spans_view(v@) =~= task_row(i as nat, t@, sel as nat, dw as nat).spans);
    line_of(v)
}

impl<'a> TaskList<'a> {
    /// A task list over `tasks` with row `selected_index` selected.
    pub fn new(tasks: &'a [Task], selected_index: usize) -> (r: Self)
        ensures
            r.tasks@ == tasks@,
            r.selected_index == selected_index,
    {
        TaskList { tasks, selected_index }
    }

    /// The lines of the list in `width` × `height` cells (see
    /// `list_lines`).
    pub fn lines(&self, width: usize, height: usize) -> (r: Vec<Line>)
        requires
            shown_rows_cut(tasks_view(self.tasks@), self.selected_index as nat, height as nat),
        ensures
            lines_view(r@) == list_lines(
                tasks_view(self.tasks@),
                self.selected_index as nat,
                width as nat,
                height as nat,
            ),
    {
        let ghost ts = tasks_view(self.tasks@);
        let n = self.tasks.len();
        let mut out: Vec<Line> = Vec::new();
        assert(lines_view(out@) =~= Seq::<LineView>::empty());
        if n == 0 {
            push_line(&mut out, blank_line());
            push_line(&mut out, styled_line("  暂无任务", Style {
                fg: Some(MUTED),
                bg: None,
                bold: false,
                crossed_out: false,
                italic: true,
            }));
            push_line(&mut out, blank_line());
            push_line(&mut out, styled_line("  按 n 创建新任务，按 ? 查看帮助", fg(MUTED)));
            assert(lines_view(out@) =~= list_lines(ts, self.selected_index as nat, width as nat, height as nat));
            return out;
        }
        let usable = sat_sub(height, 4);
        let scroll = self.scroll_offset(height);
        let from = if scroll <= n { scroll } else { n };
        let end = if usable <= n - from { from + usable } else { n };
        let dw = desc_width_exec(width);
        push_line(&mut out, header_line(dw));
        push_line(&mut out, separator_line(sat_sub(width, 2)));
        let ghost top = lines_view(out@);
        let mut k: usize = from;
        assert(ts.subrange(from as int, from as int) =~= Seq::<TaskView>::empty());
        while k < end
            invariant
                from <= k <= end,
                end <= n,
                n == self.tasks@.len(),
                ts == tasks_view(self.tasks@),
                from == list_window(n as nat, self.selected_index as nat, height as nat).0,
                end == list_window(n as nat, self.selected_index as nat, height as nat).1,
                shown_rows_cut(ts, self.selected_index as nat, height as nat),
                lines_view(out@) == top + task_rows(ts.subrange(from as int, k as int), from as nat, self.selected_index as nat, dw as nat),
            decreases end - k,
        {
            proof {
                assert(ts[k as int] == self.tasks@[k as int]@);
                assert(cuts_at(ts[k as int].id, 8));
                assert(date_cuttable(ts[k as int].created_at));
            }
            let l = task_row_exec(k, &self.tasks[k], self.selected_index, dw);
            push_line(&mut out, l);
            proof {
                let sub = ts.subrange(from as int, k + 1);
                assert(sub.drop_last() =~= ts.subrange(from as int, k as int));
                assert(sub.last() == ts[k as int]);
            }
            k = k + 1;
        }
        push_line(&mut out, blank_line());
        let mut footer = String::from_str("  共 ");
        append_str(&mut footer, usize_to_decimal(n).as_str());
        append_str(&mut footer, " 个任务");
        if self.selected_index < n {
            proof {
                assert(ts[self.selected_index as int] == self.tasks@[self.selected_index as int]@);
                assert(cuts_at(ts[self.selected_index as int].id, 8));
            }
            append_str(&mut footer, "，选中: ");
            append_str(&mut footer, short_id(self.tasks[self.selected_index].id.as_str()).as_str());
        }
        assert(footer@ =~= list_footer(ts, self.selected_index as nat));
        push_line(&mut out, single(footer, fg(MUTED)));
        assert(lines_view(out@) =~= list_lines(ts, self.selected_index as nat, width as nat, height as nat));
        out
    }

    /// First visible row for a view `visible_height` rows tall (header and
    /// footer take 4 of them).
    pub fn scroll_offset(&self, visible_height: usize) -> (r: usize)
        ensures
            r == if visible_height == 0 || self.tasks@.len() == 0 {
                0
            } else {
                scroll_for(
                    self.selected_index as nat,
                    if visible_height >= 4 { (visible_height - 4) as nat } else { 0 },
                )
            },
    {
        if visible_height == 0 || self.tasks.len() == 0 {
            return 0;
        }
        let usable = if visible_height >= HEADER_ROWS + FOOTER_ROWS {
            visible_height - (HEADER_ROWS + FOOTER_ROWS)
        } else {
            0
        };
        if usable == 0 {
            return 0;
        }
        if self.selected_index >= usable {
            self.selected_index - usable + 1
        } else {
            0
        }
    }
}

} // verus!
