//! Project detail view: the lines it shows.

use vstd::prelude::*;

use super::lines::{
    Line, LineView, blank_line, blank_view, indented, labelled, line_of, lines_view, pair_line,
    piece, pieces, plain, push_indented, push_line, sat, sat_sub, separator_line, separator_view,
    single, styled_line, styled_view,
};
use super::task_detail::row_look;
use super::task_list::{all_done, priority_look, shown_priority};
use super::text::{lemma_wrapped_nonempty, truncated, wrapped};
use super::theme::{
    ACCENT, Color, HIGHLIGHT_FG, MUTED, Span, Style, TEXT, bold_look, completed_priority_style,
    completed_style, fg, fg_style, hint_look, label_look, label_style, left_padded, normal_style,
    pad_right, plain_look, priority_color, selected_style, spans_view,
};
use crate::ids::{short_id, short_id_of};
use crate::logic::task::{count_done, done_count};
use crate::models::{Project, ProjectView, Task, TaskView, tasks_view};
use crate::text::{append_str, cuts_at, decimal, usize_to_decimal};

pub use super::text::{truncate_str, wrap_text};

verus! {

/// The row of task `i` of the project: marker, description, progress and
/// priority.
pub open spec fn project_task_row(i: nat, t: TaskView, sel: nat, nw: nat) -> LineView {
    let s = i == sel;
    let d = all_done(t);
    let st = row_look(s, d);
    let p = shown_priority(t);
    pieces(
        seq![
            (" "@ + (if s { "▸"@ } else { " "@ }) + " "@, st),
            (left_padded(truncated(t.task_description, nw), nw), st),
            (left_padded(decimal(done_count(t.checklist)) + "/"@ + decimal(t.checklist.len()), 6), st),
            (left_padded(p, 6), priority_look(p, s, d)),
        ],
    )
}

/// The rows of the project's tasks.
pub open spec fn project_task_rows(ts: Seq<TaskView>, sel: nat, nw: nat) -> Seq<LineView>
    decreases ts.len(),
{
    if ts.len() == 0 {
        Seq::empty()
    } else {
        project_task_rows(ts.drop_last(), sel, nw).push(
            project_task_row((ts.len() - 1) as nat, ts.last(), sel, nw),
        )
    }
}

/// The key hints at the bottom.
pub open spec fn detail_keys() -> LineView {
    let k = bold_look(Color::Green);
    pieces(
        seq![
            (" Enter "@, k),
            ("查看任务  "@, plain_look()),
            ("E "@, k),
            ("编辑项目  "@, plain_look()),
            ("d "@, k),
            ("删除项目  "@, plain_look()),
            ("Esc "@, bold_look(HIGHLIGHT_FG)),
            ("返回"@, plain_look()),
        ],
    )
}

/// The description block: wrapped 10 cells narrower than the view, or a
/// note that there is none.
pub open spec fn project_description(d: Option<Seq<char>>, w: nat) -> Seq<LineView> {
    match d {
        Some(text) => {
            let ls = wrapped(text, sat(w, 10));
            seq![pieces(seq![(" 描述:   "@, label_look()), (ls[0], fg_style(TEXT))])] + indented(
                ls.drop_first(),
                "         "@,
            )
        },
        None => seq![pieces(seq![(" 描述:   "@, label_look()), ("（无描述）"@, fg_style(MUTED))])],
    }
}

/// Every line of the project's detail view, `w` cells wide.
pub open spec fn project_lines(p: ProjectView, ts: Seq<TaskView>, sel: nat, w: nat) -> Seq<LineView> {
    let nw = if sat(w, 20) >= 10 { sat(w, 20) } else { 10 };
    seq![blank_view(), pieces(seq![(" 📦 "@, fg_style(ACCENT)), (p.name, bold_look(ACCENT))])]
        + project_description(p.description, w) + seq![
        pieces(seq![(" ID:     "@, label_look()), (short_id_of(p.id), fg_style(MUTED))]),
        pieces(seq![(" 创建:   "@, label_look()), (p.created_at, fg_style(MUTED))]),
        pieces(seq![(" 更新:   "@, label_look()), (p.updated_at, fg_style(MUTED))]),
        blank_view(),
        pieces(seq![(" ☑ 关联任务 ("@ + decimal(ts.len()) + ")"@, bold_look(ACCENT))]),
        separator_view(sat(w, 2)),
    ] + (if ts.len() == 0 {
        seq![styled_view("   （暂无关联任务）"@, hint_look())]
    } else {
        project_task_rows(ts, sel, nw)
    }) + seq![blank_view(), detail_keys()]
}

fn project_task_row_exec(i: usize, t: &Task, sel: usize, nw: usize) -> (r: Line)
    ensures
        r@ == project_task_row(i as nat, t@, sel as nat, nw as nat),
{
    let s = i == sel;
    let done = count_done(&t.checklist);
    let total = t.checklist.len();
    let d = total > 0 && done == total;
    let st = if s {
        selected_style()
    } else if d {
        completed_style()
    } else {
        normal_style()
    };
    let p: &str = match &t.metadata {
        Some(m) => match &m.priority {
            Some(x) => x.as_str(),
            None => "-",
        },
        None => "-",
    };
    let pst = if !s && d {
        completed_priority_style(p)
    } else {
        fg(priority_color(p))
    };
    let marker = if s { " ▸ " } else { "   " };
    let mut progress = usize_to_decimal(done);
    append_str(&mut progress, "/");
    append_str(&mut progress, usize_to_decimal(total).as_str());
    let v = vec![
        Span { content: String::from_str(marker), style: st },
        Span { content: pad_right(truncate_str(t.task_description.as_str(), nw).as_str(), nw), style: st },
        Span { content: pad_right(progress.as_str(), 6), style: st },
        Span { content: pad_right(p, 6), style: pst },
    ];
    proof {
        reveal_strlit(" ▸ ");
        reveal_strlit("   ");
        reveal_strlit("▸");
        reveal_strlit(" ");
        assert(" ▸ "@ =~= " "@ + "▸"@ + " "@);
        assert("   "@ =~= " "@ + " "@ + " "@);
    }
    assert(spans_view(v@) =~= project_task_row(i as nat, t@, sel as nat, nw as nat).spans);
    line_of(v)
}

fn keys_line() -> (r: Line)
    ensures
        r@ == detail_keys(),
{
    let k = Style { fg: Some(Color::Green), bg: None, bold: true, crossed_out: false, italic: false };
    let v = vec![
        piece(" Enter ", k),
        piece("查看任务  ", plain()),
        piece("E ", k),
        piece("编辑项目  ", plain()),
        piece("d ", k),
        piece("删除项目  ", plain()),
        piece("Esc ", Style { fg: Some(HIGHLIGHT_FG), bg: None, bold: true, crossed_out: false, italic: false }),
        piece("返回", plain()),
    ];
    assert(spans_view(v@) =~= detail_keys().spans);
    line_of(v)
}


/// The detail view of one project with its tasks.
pub struct ProjectDetail<'a> {
    /// The project shown.
    pub project: &'a Project,
    /// Its tasks.
    pub tasks: &'a [Task],
    /// Index of the selected task.
    pub selected_task_index: usize,
}


fn push_description(out: &mut Vec<Line>, p: &Project, width: usize)
    ensures
        lines_view(final(out)@) == lines_view(old(out)@) + project_description(p@.description, width as nat),
{
    let ghost before = lines_view(out@);
    match &p.description {
        Some(d) => {
            let ls = super::text::wrap_text(d.as_str(), sat_sub(width, 10));
            proof {
                lemma_wrapped_nonempty(d@, sat(width as nat, 10));
            }
            push_line(out, labelled(" 描述:   ", ls[0].clone(), TEXT));
            push_indented(out, &ls, "         ");
        },
        None => {
            push_line(out, pair_line(piece(" 描述:   ", label_style()), piece("（无描述）", fg(MUTED))));
        },
    }
    assert(lines_view(out@) =~= before + project_description(p@.description, width as nat));
}

fn push_task_rows(out: &mut Vec<Line>, tasks: &[Task], sel: usize, width: usize)
    ensures
        lines_view(final(out)@) == lines_view(old(out)@) + (if tasks@.len() == 0 {
            seq![styled_view("   （暂无关联任务）"@, hint_look())]
        } else {
            project_task_rows(
                tasks_view(tasks@),
                sel as nat,
                if sat(width as nat, 20) >= 10 { sat(width as nat, 20) } else { 10 },
            )
        }),
{
    let ghost top = lines_view(out@);
    let ghost ts = tasks_view(tasks@);
    if tasks.len() == 0 {
        push_line(out, styled_line("   （暂无关联任务）", Style {
            fg: Some(MUTED),
            bg: None,
            bold: false,
            crossed_out: false,
            italic: true,
        }));
    } else {
        let nw = if sat_sub(width, 20) >= 10 { sat_sub(width, 20) } else { 10 };
        let mut i: usize = 0;
        while i < tasks.len()
            invariant
                i <= tasks@.len(),
                ts == tasks_view(tasks@),
                lines_view(out@) == top + project_task_rows(ts.take(i as int), sel as nat, nw as nat),
            decreases tasks@.len() - i,
        {
            let l = project_task_row_exec(i, &tasks[i], sel, nw);
            push_line(out, l);
            proof {
                assert(ts.take(i + 1).drop_last() =~= ts.take(i as int));
                assert(ts.take(i + 1).last() == tasks@[i as int]@);
            }
            i = i + 1;
        }
        assert(ts.take(ts.len() as int) =~= ts);
    }
}

impl<'a> ProjectDetail<'a> {
    /// A detail view of `project` and its `tasks`.
    pub fn new(project: &'a Project, tasks: &'a [Task], selected_task_index: usize) -> (r: Self)
        ensures
            r.project == project,
            r.tasks@ == tasks@,
            r.selected_task_index == selected_task_index,
    {
        ProjectDetail { project, tasks, selected_task_index }
    }

    /// The lines of the view, `width` cells wide (see `project_lines`).
    pub fn lines(&self, width: usize) -> (r: Vec<Line>)
        requires
            cuts_at(self.project@.id, 8),
        ensures
            lines_view(r@) == project_lines(
                self.project@,
                tasks_view(self.tasks@),
                self.selected_task_index as nat,
                width as nat,
            ),
    {
        let p = self.project;
        let ghost ts = tasks_view(self.tasks@);
        let mut out: Vec<Line> = Vec::new();
        assert(lines_view(out@) =~= Seq::<LineView>::empty());
        push_line(&mut out, blank_line());
        push_line(&mut out, pair_line(
            piece(" 📦 ", fg(ACCENT)),
            Span {
                content: p.name.clone(),
                style: Style { fg: Some(ACCENT), bg: None, bold: true, crossed_out: false, italic: false },
            },
        ));
        push_description(&mut out, p, width);
        push_line(&mut out, labelled(" ID:     ", short_id(p.id.as_str()), MUTED));
        push_line(&mut out, labelled(" 创建:   ", p.created_at.clone(), MUTED));
        push_line(&mut out, labelled(" 更新:   ", p.updated_at.clone(), MUTED));
        push_line(&mut out, blank_line());
        let mut title = String::from_str(" ☑ 关联任务 (");
        append_str(&mut title, usize_to_decimal(self.tasks.len()).as_str());
        append_str(&mut title, ")");
        push_line(&mut out, single(title, Style { fg: Some(ACCENT), bg: None, bold: true, crossed_out: false, italic: false }));
        push_line(&mut out, separator_line(sat_sub(width, 2)));
        push_task_rows(&mut out, self.tasks, self.selected_task_index, width);
        push_line(&mut out, blank_line());
        push_line(&mut out, keys_line());
        assert(lines_view(out@) =~= project_lines(p@, ts, self.selected_task_index as nat, width as nat));
        out
    }
}

} // verus!
