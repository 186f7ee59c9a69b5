//! The task list screen of the right pane: the rows in view under a header,
//! a footer with the count, and a hint when there is nothing to list.

use vstd::prelude::*;

use super::lines::{
    Line, LineView, blank_line, blank_view, line_of, lines_view, pieces, push_line, sat, sat_sub,
    single, styled_line, styled_view,
};
use super::task_list::shown_priority;
use super::theme::{Color, MUTED, Span, Style, bold_look, fg, fg_style, hint_look, left_padded, pad_right, plain_look, spans_view};
use super::{bar_text, progress_bar, truncate_str, truncated_padded};
use crate::ids::short_id_of;
use crate::logic::task::{count_done, done_count};
use crate::models::{Task, TaskView, tasks_view};
use crate::text::{append_str, byte_prefix, decimal, repeat_char, usize_to_decimal};

verus! {

/// The style of a row: yellow bold on grey when selected, grey when every
/// item is done, plain otherwise.
pub open spec fn screen_row_look(selected: bool, complete: bool) -> Style {
    if complete && !selected {
        fg_style(MUTED)
    } else if selected {
        Style { fg: Some(Color::Yellow), bg: Some(MUTED), bold: true, crossed_out: false, italic: false }
    } else {
        plain_look()
    }
}

/// The style of a priority cell: red bold for high, yellow for medium, green
/// for low, grey otherwise; over grey when the row is selected.
pub open spec fn screen_priority_look(p: Seq<char>, selected: bool) -> Style {
    let base = if p == "high"@ {
        bold_look(Color::Red)
    } else if p == "medium"@ {
        fg_style(Color::Yellow)
    } else if p == "low"@ {
        fg_style(Color::Green)
    } else {
        fg_style(MUTED)
    };
    if selected {
        Style { bg: Some(MUTED), ..base }
    } else {
        base
    }
}

/// The percentage of done items, rounded down (0 without items).
pub open spec fn percent_done(t: TaskView) -> nat {
    if t.checklist.len() > 0 {
        done_count(t.checklist) * 100 / t.checklist.len()
    } else {
        0
    }
}

/// The row of task `i`: marker, short ID, description cut or padded to 20
/// characters, progress count and bar, and priority.
pub open spec fn screen_row(i: nat, t: TaskView, sel: nat) -> LineView {
    let s = i == sel;
    let total = t.checklist.len();
    let done = done_count(t.checklist);
    let rs = screen_row_look(s, total > 0 && done == total);
    let p = shown_priority(t);
    pieces(
        seq![
            (" "@ + (if s { "▸"@ } else { " "@ }) + "   "@, rs),
            (left_padded(short_id_of(t.id), 8) + " "@, rs),
            (truncated_padded(t.task_description, 20), rs),
            (" "@, plain_look()),
            (left_padded(decimal(done) + "/"@ + decimal(total), 5), rs),
            (bar_text(percent_done(t), 6), rs),
            (" "@, plain_look()),
            (left_padded(p, 6), screen_priority_look(p, s)),
        ],
    )
}

/// The rows of consecutive tasks, the first at index `first`.
pub open spec fn screen_rows(ts: Seq<TaskView>, first: nat, sel: nat) -> Seq<LineView>
    decreases ts.len(),
{
    if ts.len() == 0 {
        Seq::empty()
    } else {
        screen_rows(ts.drop_last(), first, sel).push(screen_row((first + ts.len() - 1) as nat, ts.last(), sel))
    }
}

/// The column titles.
pub open spec fn screen_header() -> LineView {
    let h = bold_look(MUTED);
    pieces(
        seq![
            ("  #   "@, h),
            ("ID        "@, h),
            ("描述"@, h),
            ("                    "@, fg_style(MUTED)),
            ("进度    "@, h),
            ("优先级  "@, h),
        ],
    )
}

/// The footer: how many tasks, and which of them are in view when not all
/// are.
pub open spec fn screen_footer(total: nat, from: nat, end: nat) -> LineView {
    let count = ("  共 "@ + decimal(total) + " 个任务"@, fg_style(MUTED));
    if from > 0 || end < total {
        pieces(
            seq![
                count,
                ("  (显示 "@ + decimal((end - from) as nat) + "/"@ + decimal(total) + "  ↑↓ 滚动)"@, fg_style(MUTED)),
            ],
        )
    } else {
        pieces(seq![count])
    }
}

/// Every line of the task list screen in `w` × `h` cells, scrolled to row
/// `scroll`: with no task, a hint (which, during a search, says that nothing
/// matches and how to clear the filter); else the header, a separator, the
/// rows that fit in `h - 3` lines, a blank line and the footer.
pub open spec fn task_list_screen(
    ts: Seq<TaskView>,
    sel: nat,
    scroll: nat,
    searching: bool,
    w: nat,
    h: nat,
) -> Seq<LineView> {
    if ts.len() == 0 {
        if searching {
            seq![
                blank_view(),
                styled_view("  没有匹配的任务"@, hint_look()),
                blank_view(),
                styled_view("  按 Esc 清除搜索过滤"@, fg_style(MUTED)),
            ]
        } else {
            seq![
                blank_view(),
                styled_view("  暂无任务"@, hint_look()),
                blank_view(),
                styled_view("  按 n 创建新任务，按 ? 查看帮助"@, fg_style(MUTED)),
            ]
        }
    } else {
        let end = if scroll + sat(h, 3) <= ts.len() { scroll + sat(h, 3) } else { ts.len() };
        seq![screen_header(), pieces(seq![(Seq::new(sat(w, 2), |i: int| '─'), fg_style(MUTED))])]
            + screen_rows(ts.subrange(scroll as int, end as int), scroll, sel)
            + seq![blank_view(), screen_footer(ts.len(), scroll, end)]
    }
}

/// Whether every task's checklist is short enough for its percentage to be
/// computed in a `usize`.
pub open spec fn percentages_fit(ts: Seq<TaskView>) -> bool {
    forall|i: int| 0 <= i < ts.len() ==> #[trigger] ts[i].checklist.len() * 100 <= usize::MAX
}

fn screen_row_exec(i: usize, t: &Task, sel: usize) -> (r: Line)
    requires
        t@.checklist.len() * 100 <= usize::MAX,
    ensures
        r@ == screen_row(i as nat, t@, sel as nat),
{
    let s = i == sel;
    let done = count_done(&t.checklist);
    let total = t.checklist.len();
    let rs = if total > 0 && done == total && !s {
        fg(MUTED)
    } else if s {
        Style { fg: Some(Color::Yellow), bg: Some(MUTED), bold: true, crossed_out: false, italic: false }
    } else {
        Style { fg: None, bg: None, bold: false, crossed_out: false, italic: false }
    };
    let p: &str = match &t.metadata {
        Some(m) => match &m.priority {
            Some(x) => x.as_str(),
            None => "-",
        },
        None => "-",
    };
    let base = if crate::text::str_eq(p, "high") {
        Style { fg: Some(Color::Red), bg: None, bold: true, crossed_out: false, italic: false }
    } else if crate::text::str_eq(p, "medium") {
        fg(Color::Yellow)
    } else if crate::text::str_eq(p, "low") {
        fg(Color::Green)
    } else {
        fg(MUTED)
    };
    let ps = if s { Style { bg: Some(MUTED), ..base } } else { base };
    let pct = if total > 0 { done * 100 / total } else { 0 };
    assert(pct <= 100) by (nonlinear_arith)
        requires
            done <= total,
            total > 0 ==> pct as int == (done * 100) as int / (total as int),
            total == 0 ==> pct == 0,
    ;
    let mut progress = usize_to_decimal(done);
    append_str(&mut progress, "/");
    append_str(&mut progress, usize_to_decimal(total).as_str());
    let mut marker = String::from_str(" ");
    append_str(&mut marker, if s { "▸" } else { " " });
    append_str(&mut marker, "   ");
    let mut id = pad_right(byte_prefix(t.id.as_str(), 8).as_str(), 8);
    append_str(&mut id, " ");
    let plain = Style { fg: None, bg: None, bold: false, crossed_out: false, italic: false };
    let v = vec![
        Span { content: marker, style: rs },
        Span { content: id, style: rs },
        Span { content: truncate_str(t.task_description.as_str(), 20), style: rs },
        Span { content: String::from_str(" "), style: plain },
        Span { content: pad_right(progress.as_str(), 5), style: rs },
        Span { content: progress_bar(pct, 6), style: rs },
        Span { content: String::from_str(" "), style: plain },
        Span { content: pad_right(p, 6), style: ps },
    ];
    assert(spans_view(v@) =~= screen_row(i as nat, t@, sel as nat).spans);
    line_of(v)
}

fn screen_footer_exec(total: usize, from: usize, end: usize) -> (r: Line)
    requires
        from <= end <= total,
    ensures
        r@ == screen_footer(total as nat, from as nat, end as nat),
{
    let mut count = String::from_str("  共 ");
    append_str(&mut count, usize_to_decimal(total).as_str());
    append_str(&mut count, " 个任务");
    let mut v = vec![Span { content: count, style: fg(MUTED) }];
    if from > 0 || end < total {
        let mut shown = String::from_str("  (显示 ");
        append_str(&mut shown, usize_to_decimal(end - from).as_str());
        append_str(&mut shown, "/");
        append_str(&mut shown, usize_to_decimal(total).as_str());
        append_str(&mut shown, "  ↑↓ 滚动)");
        v.push(Span { content: shown, style: fg(MUTED) });
    }
    assert(spans_view(v@) =~= screen_footer(total as nat, from as nat, end as nat).spans);
    line_of(v)
}

/// The lines of the task list screen (see `task_list_screen`) for the tasks
/// shown, the selected row, the scroll offset, whether a search filter is
/// in force, and the size of the pane.
pub fn task_list_view_lines(
    tasks: &[Task],
    selected: usize,
    scroll: usize,
    searching: bool,
    width: usize,
    height: usize,
) -> (r: Vec<Line>)
    requires
        tasks@.len() > 0 ==> scroll <= tasks@.len(),
        scroll + height <= usize::MAX,
        percentages_fit(tasks_view(tasks@)),
    ensures
        lines_view(r@) == task_list_screen(
            tasks_view(tasks@),
            selected as nat,
            scroll as nat,
            searching,
            width as nat,
            height as nat,
        ),
{
    let ghost ts = tasks_view(tasks@);
    let n = tasks.len();
    let mut out: Vec<Line> = Vec::new();
    assert(lines_view(out@) =~= Seq::<LineView>::empty());
    if n == 0 {
        let hint = Style { fg: Some(MUTED), bg: None, bold: false, crossed_out: false, italic: true };
        push_line(&mut out, blank_line());
        if searching {
            push_line(&mut out, styled_line("  没有匹配的任务", hint));
            push_line(&mut out, blank_line());
            push_line(&mut out, styled_line("  按 Esc 清除搜索过滤", fg(MUTED)));
        } else {
            push_line(&mut out, styled_line("  暂无任务", hint));
            push_line(&mut out, blank_line());
            push_line(&mut out, styled_line("  按 n 创建新任务，按 ? 查看帮助", fg(MUTED)));
        }
        assert(lines_view(out@) =~= task_list_screen(ts, selected as nat, scroll as nat, searching, width as nat, height as nat));
        return out;
    }
    let avail = sat_sub(height, 3);
    let end = if scroll + avail <= n { scroll + avail } else { n };
    let h = Style { fg: Some(MUTED), bg: None, bold: true, crossed_out: false, italic: false };
    let hv = vec![
        Span { content: String::from_str("  #   "), style: h },
        Span { content: String::from_str("ID        "), style: h },
        Span { content: String::from_str("描述"), style: h },
        Span { content: String::from_str("                    "), style: fg(MUTED) },
        Span { content: String::from_str("进度    "), style: h },
        Span { content: String::from_str("优先级  "), style: h },
    ];
    assert(spans_view(hv@) =~= screen_header().spans);
    push_line(&mut out, line_of(hv));
    push_line(&mut out, single(repeat_char('─', sat_sub(width, 2)), fg(MUTED)));
    let ghost top = lines_view(out@);
    let mut k: usize = scroll;
    assert(ts.subrange(scroll as int, scroll as int) =~= Seq::<TaskView>::empty());
    while k < end
        invariant
            scroll <= k <= end,
            end <= n,
            n == tasks@.len(),
            ts == tasks_view(tasks@),
            percentages_fit(ts),
            lines_view(out@) == top + screen_rows(ts.subrange(scroll as int, k as int), scroll as nat, selected as nat),
        decreases end - k,
    {
        proof {
            assert(ts[k as int] == tasks@[k as int]@);
            assert(ts[k as int].checklist.len() * 100 <= usize::MAX);
        }
        let l = screen_row_exec(k, &tasks[k], selected);
        push_line(&mut out, l);
        proof {
            let sub = ts.subrange(scroll as int, k + 1);
            assert(sub.drop_last() =~= ts.subrange(scroll as int, k as int));
            assert(sub.last() == ts[k as int]);
        }
        k = k + 1;
    }
    push_line(&mut out, blank_line());
    push_line(&mut out, screen_footer_exec(n, scroll, end));
    assert(lines_view(out@) =~= task_list_screen(ts, selected as nat, scroll as nat, searching, width as nat, height as nat));
    out
}

} // verus!
