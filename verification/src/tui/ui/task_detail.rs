//! Task detail view: the lines it shows and which checklist rows are
//! visible.

use vstd::prelude::*;

use super::lines::{
    Line, LineView, blank_line, blank_view, concat, indented, labelled, line_of, lines_view,
    pair_line, piece, pieces, plain, prefixed_lines, push_indented, push_line, push_prefixed, sat,
    sat_sub, separator_line, separator_view, single, styled_line, styled_view,
};
use super::theme::{
    ACCENT, Color, HIGHLIGHT_FG, LINK, MUTED, Span, Style, TAG, TEXT, bar_pieces, bold_look,
    checkbox_done, checkbox_done_selected, checkbox_pending, checkbox_pending_selected,
    completed_look, completed_style, fg, fg_style, hint_look, label_look, label_style,
    left_padded, normal_style, plain_look, priority_cell, priority_span, priority_tint,
    pad_right, progress_bar_spans, selected_look, selected_style, spans_view,
};
use super::text::{lemma_wrapped_nonempty, truncated, wrapped};
use crate::ids::{short_id, short_id_of};
use crate::logic::task::{count_done, done_count};
use crate::models::{ChecklistItemView, ResourceView, Task, TaskMetadataView, TaskView};
use crate::text::{append_str, cuts_at, decimal, join, join_strings, usize_to_decimal};

pub use super::task_list::scroll_for;
pub use super::text::{truncate_str, wrap_text};

verus! {

/// The header: a blank line, the description and the short ID.
pub open spec fn head_lines(t: TaskView) -> Seq<LineView> {
    seq![
        blank_view(),
        pieces(seq![(" 📋 "@, fg_style(ACCENT)), (t.task_description, bold_look(ACCENT))]),
        pieces(seq![(" ID:    "@, label_look()), (short_id_of(t.id), fg_style(MUTED))]),
    ]
}

/// The shared context, wrapped 10 cells narrower than the view; the first
/// line behind its label, the others indented.
pub open spec fn context_section(ctx: Option<Seq<char>>, w: nat) -> Seq<LineView> {
    match ctx {
        None => Seq::empty(),
        Some(c) => {
            let ls = wrapped(c, sat(w, 10));
            seq![pieces(seq![(" 上下文: "@, label_look()), (ls[0], fg_style(TEXT))])] + indented(
                ls.drop_first(),
                "         "@,
            )
        },
    }
}

/// The metadata block: a blank line, then priority, tags (when any) and
/// ETA, each when present.
pub open spec fn meta_section(m: Option<TaskMetadataView>) -> Seq<LineView> {
    match m {
        None => Seq::empty(),
        Some(md) => seq![blank_view()] + match md.priority {
            Some(p) => seq![
                pieces(seq![(" 优先级: "@, label_look()), (priority_cell(p, 0), fg_style(priority_tint(p)))]),
            ],
            None => Seq::empty(),
        } + match md.tags {
            Some(tg) => if tg.len() > 0 {
                seq![pieces(seq![(" 标签:   "@, label_look()), (join(tg, ", "@), fg_style(TAG))])]
            } else {
                Seq::empty()
            },
            None => Seq::empty(),
        } + match md.estimated_completion_time {
            Some(e) => seq![pieces(seq![(" ETA:    "@, label_look()), (e, fg_style(LINK))])],
            None => Seq::empty(),
        },
    }
}

/// The share of done items, in percent, rounded down.
pub open spec fn pct_of(done: nat, total: nat) -> nat {
    if total > 0 {
        done * 100 / total
    } else {
        0
    }
}

/// The checklist title: counts and a ten-cell coloured bar.
pub open spec fn checklist_title(items: Seq<ChecklistItemView>) -> LineView {
    pieces(
        seq![
            (" ☑ 清单 ("@ + decimal(done_count(items)) + "/"@ + decimal(items.len()) + ")"@, bold_look(ACCENT)),
            ("  "@, plain_look()),
        ] + bar_pieces(pct_of(done_count(items), items.len()), 10),
    )
}

/// Width of an item name: the view less the prefix and 4 cells, between 10
/// and 80.
pub open spec fn item_name_width(w: nat) -> nat {
    let x = sat(sat(w, 7), 4);
    let y = if x >= 10 { x } else { 10 };
    if y <= 80 { y } else { 80 }
}

/// The style of an item row.
pub open spec fn row_look(selected: bool, done: bool) -> Style {
    if selected {
        selected_look()
    } else if done {
        completed_look()
    } else {
        plain_look()
    }
}

/// The check box of an item row.
pub open spec fn checkbox_view(done: bool, selected: bool) -> (Seq<char>, Style) {
    if done {
        (" ✓ "@, Style {
            fg: Some(Color::Green),
            bg: if selected { Some(Color::Indexed(236)) } else { None },
            bold: true,
            crossed_out: false,
            italic: false,
        })
    } else if selected {
        (" ○ "@, Style {
            fg: Some(Color::Indexed(248)),
            bg: Some(Color::Indexed(236)),
            bold: false,
            crossed_out: false,
            italic: false,
        })
    } else {
        (" ○ "@, fg_style(Color::Indexed(240)))
    }
}

/// The row of item `i`: marker, check box and the name, cut and padded to
/// the name width.
pub open spec fn item_line(i: nat, it: ChecklistItemView, sel: nat, w: nat) -> LineView {
    let s = i == sel;
    let st = row_look(s, it.done);
    let nw = item_name_width(w);
    pieces(
        seq![
            (" "@ + (if s { "▸"@ } else { " "@ }) + " "@, st),
            checkbox_view(it.done, s),
            (left_padded(truncated(it.task, nw), nw), st),
        ],
    )
}

/// Under the selected item: its description, then its plan, wrapped 8
/// cells narrower than the view.
pub open spec fn item_extras(it: ChecklistItemView, w: nat) -> Seq<LineView> {
    (if it.detailed_description.len() > 0 {
        prefixed_lines(wrapped(it.detailed_description, sat(w, 8)), "       "@, TEXT)
    } else {
        Seq::empty()
    }) + match it.context_and_plan {
        Some(p) => prefixed_lines(wrapped(p, sat(w, 8)), "       "@, LINK),
        None => Seq::empty(),
    }
}

/// The lines of item `i`.
pub open spec fn item_block(i: nat, it: ChecklistItemView, sel: nat, w: nat) -> Seq<LineView> {
    seq![item_line(i, it, sel, w)] + if i == sel {
        item_extras(it, w)
    } else {
        Seq::empty()
    }
}

/// The lines of consecutive items, the first of them at index `first`.
pub open spec fn item_rows(items: Seq<ChecklistItemView>, first: nat, sel: nat, w: nat) -> Seq<LineView>
    decreases items.len(),
{
    if items.len() == 0 {
        Seq::empty()
    } else {
        item_rows(items.drop_last(), first, sel, w) + item_block(
            (first + items.len() - 1) as nat,
            items.last(),
            sel,
            w,
        )
    }
}

/// How many item rows the checklist gets below `above` lines: what is left
/// of the height after 6 lines kept for notes and resources, at least 3.
pub open spec fn visible_items(h: nat, above: nat) -> nat {
    let r = sat(h, above + 6);
    if r >= 3 { r } else { 3 }
}

/// The checklist rows: a hint when empty, else the visible window of items
/// scrolled so that the selected one shows.
pub open spec fn checklist_rows(items: Seq<ChecklistItemView>, sel: nat, w: nat, h: nat, above: nat) -> Seq<LineView> {
    if items.len() == 0 {
        seq![styled_view("   （无清单条目，按 a 添加）"@, hint_look())]
    } else {
        let m = visible_items(h, above);
        let scroll = scroll_for(sel, m);
        let from = if scroll <= items.len() { scroll } else { items.len() };
        let end = if from + m <= items.len() { from + m } else { items.len() };
        item_rows(items.subrange(from as int, end as int), from, sel, w)
    }
}

/// The lines of note `i`: numbered, wrapped 8 cells narrower than the view.
pub open spec fn note_block(i: nat, note: Seq<char>, w: nat) -> Seq<LineView> {
    let ls = wrapped(note, sat(w, 8));
    seq![pieces(seq![(" "@ + decimal(i + 1) + ". "@, fg_style(MUTED)), (ls[0], plain_look())])] + indented(
        ls.drop_first(),
        "    "@,
    )
}

/// The lines of the notes.
pub open spec fn note_rows(notes: Seq<Seq<char>>, w: nat) -> Seq<LineView>
    decreases notes.len(),
{
    if notes.len() == 0 {
        Seq::empty()
    } else {
        note_rows(notes.drop_last(), w) + note_block((notes.len() - 1) as nat, notes.last(), w)
    }
}

/// The notes block.
pub open spec fn notes_section(notes: Seq<Seq<char>>, w: nat) -> Seq<LineView> {
    seq![
        blank_view(),
        pieces(seq![(" 📝 笔记 ("@ + decimal(notes.len()) + ")"@, bold_look(HIGHLIGHT_FG))]),
        separator_view(sat(w, 2)),
    ] + if notes.len() == 0 {
        seq![styled_view("   （暂无笔记）"@, hint_look())]
    } else {
        note_rows(notes, w)
    }
}

/// A resource as one text: name, URL and the description when there is one.
pub open spec fn resource_entry(r: ResourceView) -> Seq<char> {
    r.name + ": "@ + r.url + match r.description {
        Some(d) => " — "@ + d,
        None => Seq::empty(),
    }
}

/// The line of a resource, cut 6 cells narrower than the view.
pub open spec fn resource_line(r: ResourceView, w: nat) -> LineView {
    pieces(seq![(" • "@, fg_style(LINK)), (truncated(resource_entry(r), sat(w, 6)), plain_look())])
}

/// The resources block.
pub open spec fn resources_section(rs: Seq<ResourceView>, w: nat) -> Seq<LineView> {
    seq![
        blank_view(),
        pieces(seq![(" 🔗 资源 ("@ + decimal(rs.len()) + ")"@, bold_look(LINK))]),
        separator_view(sat(w, 2)),
    ] + if rs.len() == 0 {
        seq![styled_view("   （暂无关联资源）"@, hint_look())]
    } else {
        rs.map_values(|r: ResourceView| resource_line(r, w))
    }
}

/// The lines above the checklist rows.
pub open spec fn detail_top(t: TaskView, w: nat) -> Seq<LineView> {
    head_lines(t) + context_section(t.context_for_all_tasks, w) + meta_section(t.metadata) + seq![
        blank_view(),
        checklist_title(t.checklist),
        separator_view(sat(w, 2)),
    ]
}

/// Every line of the detail view of `t` with item `sel` selected, in a view
/// `w` cells wide and `h` rows high.
pub open spec fn detail_lines(t: TaskView, sel: nat, w: nat, h: nat) -> Seq<LineView> {
    let top = detail_top(t, w);
    top + checklist_rows(t.checklist, sel, w, h, top.len()) + notes_section(t.notes, w)
        + resources_section(t.resources, w) + seq![
        blank_view(),
        pieces(seq![(" 创建: "@ + t.created_at + "  更新: "@ + t.updated_at, fg_style(MUTED))]),
    ]
}


/// Width of an item row's prefix.
pub const ITEM_PREFIX_WIDTH: usize = 7;
/// Default width of an item name.
pub const DEFAULT_ITEM_NAME_WIDTH: usize = 40;

/// The detail view of one task.
pub struct TaskDetail<'a> {
    /// The task shown.
    pub task: &'a Task,
    /// Index of the selected checklist item.
    pub selected_item_index: usize,
}


fn push_head(out: &mut Vec<Line>, t: &Task)
    requires
        cuts_at(t@.id, 8),
    ensures
        lines_view(final(out)@) == lines_view(old(out)@) + head_lines(t@),
{
    let ghost base = lines_view(out@);
    let a = blank_line();
    push_line(out, a);
    let b = pair_line(
        piece(" 📋 ", fg(ACCENT)),
        Span {
            content: t.task_description.clone(),
            style: Style { fg: Some(ACCENT), bg: None, bold: true, crossed_out: false, italic: false },
        },
    );
    push_line(out, b);
    let c = pair_line(piece(" ID:    ", label_style()), Span { content: short_id(t.id.as_str()), style: fg(MUTED) });
    push_line(out, c);
    assert(lines_view(out@) =~= base + head_lines(t@));
}

fn push_context(out: &mut Vec<Line>, t: &Task, w: usize)
    ensures
        lines_view(final(out)@) == lines_view(old(out)@) + context_section(t@.context_for_all_tasks, w as nat),
{
    let ghost base = lines_view(out@);
    match &t.context_for_all_tasks {
        None => {
            assert(lines_view(out@) =~= base + Seq::<LineView>::empty());
        },
        Some(ctx) => {
            let ls = wrap_text(ctx.as_str(), sat_sub(w, 10));
            proof {
                lemma_wrapped_nonempty(ctx@, sat(w as nat, 10));
            }
            let first = labelled(" 上下文: ", ls[0].clone(), TEXT);
            push_line(out, first);
            push_indented(out, &ls, "         ");
            assert(lines_view(out@) =~= base + context_section(t@.context_for_all_tasks, w as nat));
        },
    }
}

fn push_meta(out: &mut Vec<Line>, t: &Task)
    ensures
        lines_view(final(out)@) == lines_view(old(out)@) + meta_section(t@.metadata),
{
    let ghost base = lines_view(out@);
    match &t.metadata {
        None => {
            assert(lines_view(out@) =~= base + Seq::<LineView>::empty());
        },
        Some(md) => {
            push_line(out, blank_line());
            let ghost after_blank = lines_view(out@);
            if let Some(p) = &md.priority {
                let sp = priority_span(p.as_str(), 0);
                let l = pair_line(piece(" 优先级: ", label_style()), sp);
                push_line(out, l);
            }
            let ghost after_priority = lines_view(out@);
            if let Some(tg) = &md.tags {
                if tg.len() > 0 {
                    let l = labelled(" 标签:   ", join_strings(tg, ", "), TAG);
                    push_line(out, l);
                }
            }
            let ghost after_tags = lines_view(out@);
            if let Some(e) = &md.estimated_completion_time {
                let l = labelled(" ETA:    ", e.clone(), LINK);
                push_line(out, l);
            }
            assert(lines_view(out@) =~= base + meta_section(t@.metadata));
        },
    }
}

fn title_line(t: &Task) -> (r: Line)
    requires
        t@.checklist.len() * 100 <= usize::MAX,
    ensures
        r@ == checklist_title(t@.checklist),
{
    let done = count_done(&t.checklist);
    let total = t.checklist.len();
    let mut head = String::from_str(" ☑ 清单 (");
    append_str(&mut head, usize_to_decimal(done).as_str());
    append_str(&mut head, "/");
    append_str(&mut head, usize_to_decimal(total).as_str());
    append_str(&mut head, ")");
    let pct = if total > 0 {
        proof {
            assert(done * 100 <= total * 100) by (nonlinear_arith)
                requires
                    done <= total,
            ;
        }
        done * 100 / total
    } else {
        0
    };
    proof {
        if total > 0 {
            assert((done * 100) as int / (total as int) <= 100) by (nonlinear_arith)
                requires
                    done <= total,
                    total > 0,
            ;
        }
    }
    let mut v = vec![
        Span {
            content: head,
            style: Style { fg: Some(ACCENT), bg: None, bold: true, crossed_out: false, italic: false },
        },
        piece("  ", plain()),
    ];
    let ghost first_two = spans_view(v@);
    let mut bar = progress_bar_spans(pct, 10);
    let ghost barv = spans_view(bar@);
    let ghost vv = v@;
    let ghost bv = bar@;
    v.append(&mut bar);
    assert(spans_view(v@) =~= first_two + barv) by {
        assert(v@ == vv + bv);
    }
    proof {
        reveal_strlit(" ☑ 清单 (");
        reveal_strlit("/");
        reveal_strlit(")");
        reveal_strlit("  ");
    }
    assert(first_two =~= seq![
        (" ☑ 清单 ("@ + decimal(done_count(t@.checklist)) + "/"@ + decimal(t@.checklist.len()) + ")"@, bold_look(ACCENT)),
        ("  "@, plain_look()),
    ]);
    line_of(v)
}


fn item_name_width_exec(w: usize) -> (r: usize)
    ensures
        r == item_name_width(w as nat),
{
    let x = sat_sub(sat_sub(w, 7), 4);
    let y = if x >= 10 { x } else { 10 };
    if y <= 80 { y } else { 80 }
}

fn item_line_exec(i: usize, it: &crate::models::ChecklistItem, sel: usize, w: usize) -> (r: Line)
    ensures
        r@ == item_line(i as nat, it@, sel as nat, w as nat),
{
    let s = i == sel;
    let st = if s {
        selected_style()
    } else if it.done {
        completed_style()
    } else {
        normal_style()
    };
    let marker = if s { " ▸ " } else { "   " };
    let check = if it.done {
        if s {
            checkbox_done_selected()
        } else {
            checkbox_done()
        }
    } else {
        if s {
            checkbox_pending_selected()
        } else {
            checkbox_pending()
        }
    };
    let nw = item_name_width_exec(w);
    let name = pad_right(truncate_str(it.task.as_str(), nw).as_str(), nw);
    let v = vec![piece(marker, st), check, Span { content: name, style: st }];
    proof {
        reveal_strlit(" ▸ ");
        reveal_strlit("   ");
        reveal_strlit("▸");
        reveal_strlit(" ");
        assert(" ▸ "@ =~= " "@ + "▸"@ + " "@);
        assert("   "@ =~= " "@ + " "@ + " "@);
    }
    assert(spans_view(v@) =~= seq![
        (" "@ + (if s { "▸"@ } else { " "@ }) + " "@, row_look(s, it@.done)),
        checkbox_view(it@.done, s),
        (left_padded(truncated(it@.task, nw as nat), nw as nat), row_look(s, it@.done)),
    ]);
    line_of(v)
}

fn push_item_block(out: &mut Vec<Line>, i: usize, it: &crate::models::ChecklistItem, sel: usize, w: usize)
    ensures
        lines_view(final(out)@) == lines_view(old(out)@) + item_block(i as nat, it@, sel as nat, w as nat),
{
    let ghost base = lines_view(out@);
    let l = item_line_exec(i, it, sel, w);
    push_line(out, l);
    let ghost after_line = lines_view(out@);
    if i == sel {
        if it.detailed_description.unicode_len() > 0 {
            let ls = wrap_text(it.detailed_description.as_str(), sat_sub(w, 8));
            push_prefixed(out, &ls, "       ", TEXT);
        }
        let ghost after_desc = lines_view(out@);
        if let Some(p) = &it.context_and_plan {
            let ls = wrap_text(p.as_str(), sat_sub(w, 8));
            push_prefixed(out, &ls, "       ", LINK);
        }
        assert(lines_view(out@) =~= base + item_block(i as nat, it@, sel as nat, w as nat));
    } else {
        assert(lines_view(out@) =~= base + item_block(i as nat, it@, sel as nat, w as nat));
    }
}

fn push_checklist_rows(out: &mut Vec<Line>, t: &Task, sel: usize, w: usize, h: usize, above: usize)
    ensures
        lines_view(final(out)@) == lines_view(old(out)@) + checklist_rows(
            t@.checklist,
            sel as nat,
            w as nat,
            h as nat,
            above as nat,
        ),
{
    let ghost base = lines_view(out@);
    let n = t.checklist.len();
    if n == 0 {
        push_line(out, styled_line("   （无清单条目，按 a 添加）", Style {
            fg: Some(MUTED),
            bg: None,
            bold: false,
            crossed_out: false,
            italic: true,
        }));
        assert(lines_view(out@) =~= base + checklist_rows(t@.checklist, sel as nat, w as nat, h as nat, above as nat));
        return;
    }
    let r = if h > above && h - above > 6 { h - above - 6 } else { 0 };
    let m = if r >= 3 { r } else { 3 };
    let scroll = if sel >= m { sel - m + 1 } else { 0 };
    let from = if scroll <= n { scroll } else { n };
    let end = if m <= n - from { from + m } else { n };
    let ghost items = t@.checklist;
    assert(m == visible_items(h as nat, above as nat));
    assert(scroll == scroll_for(sel as nat, m as nat));
    assert(end as int == if from + m <= n { (from + m) as int } else { n as int });
    let mut k: usize = from;
    assert(items.subrange(from as int, from as int) =~= Seq::<ChecklistItemView>::empty());
    while k < end
        invariant
            from <= k <= end,
            end <= n,
            n == t@.checklist.len(),
            items == t@.checklist,
            lines_view(out@) == base + item_rows(items.subrange(from as int, k as int), from as nat, sel as nat, w as nat),
        decreases end - k,
    {
        push_item_block(out, k, &t.checklist[k], sel, w);
        proof {
            let sub = items.subrange(from as int, k + 1);
            assert(sub.drop_last() =~= items.subrange(from as int, k as int));
            assert(sub.last() == items[k as int]);
            assert(t.checklist@[k as int]@ == items[k as int]);
        }
        k = k + 1;
    }
}

fn push_notes(out: &mut Vec<Line>, t: &Task, w: usize)
    ensures
        lines_view(final(out)@) == lines_view(old(out)@) + notes_section(t@.notes, w as nat),
{
    let ghost base = lines_view(out@);
    push_line(out, blank_line());
    let mut head = String::from_str(" 📝 笔记 (");
    append_str(&mut head, usize_to_decimal(t.notes.len()).as_str());
    append_str(&mut head, ")");
    push_line(out, single(head, Style { fg: Some(HIGHLIGHT_FG), bg: None, bold: true, crossed_out: false, italic: false }));
    push_line(out, separator_line(sat_sub(w, 2)));
    let ghost top = lines_view(out@);
    assert(top =~= base + seq![
        blank_view(),
        pieces(seq![(" 📝 笔记 ("@ + decimal(t@.notes.len()) + ")"@, bold_look(HIGHLIGHT_FG))]),
        separator_view(sat(w as nat, 2)),
    ]);
    if t.notes.len() == 0 {
        push_line(out, styled_line("   （暂无笔记）", Style {
            fg: Some(MUTED),
            bg: None,
            bold: false,
            crossed_out: false,
            italic: true,
        }));
        assert(lines_view(out@) =~= base + notes_section(t@.notes, w as nat));
        return;
    }
    let ghost notes = t@.notes;
    let mut i: usize = 0;
    while i < t.notes.len()
        invariant
            i <= t.notes@.len(),
            notes == t@.notes,
            notes.len() == t.notes@.len(),
            lines_view(out@) == top + note_rows(notes.take(i as int), w as nat),
        decreases t.notes@.len() - i,
    {
        let ls = wrap_text(t.notes[i].as_str(), sat_sub(w, 8));
        proof {
            lemma_wrapped_nonempty(notes[i as int], sat(w as nat, 8));
        }
        let mut num = String::from_str(" ");
        append_str(&mut num, usize_to_decimal(i + 1).as_str());
        append_str(&mut num, ". ");
        let first = pair_line(Span { content: num, style: fg(MUTED) }, Span { content: ls[0].clone(), style: plain() });
        push_line(out, first);
        push_indented(out, &ls, "    ");
        proof {
            assert(notes.take(i + 1).drop_last() =~= notes.take(i as int));
            assert(notes.take(i + 1).last() == notes[i as int]);
            assert(t.notes@[i as int]@ == notes[i as int]);
        }
        i = i + 1;
    }
    assert(notes.take(notes.len() as int) =~= notes);
    assert(lines_view(out@) =~= base + notes_section(t@.notes, w as nat));
}

fn resource_line_exec(r: &crate::models::Resource, w: usize) -> (l: Line)
    ensures
        l@ == resource_line(r@, w as nat),
{
    let mut entry = concat(r.name.as_str(), ": ");
    append_str(&mut entry, r.url.as_str());
    if let Some(d) = &r.description {
        append_str(&mut entry, " — ");
        append_str(&mut entry, d.as_str());
    }
    assert(entry@ =~= resource_entry(r@));
    let cut = truncate_str(entry.as_str(), sat_sub(w, 6));
    pair_line(piece(" • ", fg(LINK)), Span { content: cut, style: plain() })
}

fn push_resources(out: &mut Vec<Line>, t: &Task, w: usize)
    ensures
        lines_view(final(out)@) == lines_view(old(out)@) + resources_section(t@.resources, w as nat),
{
    let ghost base = lines_view(out@);
    push_line(out, blank_line());
    let mut head = String::from_str(" 🔗 资源 (");
    append_str(&mut head, usize_to_decimal(t.resources.len()).as_str());
    append_str(&mut head, ")");
    push_line(out, single(head, Style { fg: Some(LINK), bg: None, bold: true, crossed_out: false, italic: false }));
    push_line(out, separator_line(sat_sub(w, 2)));
    let ghost top = lines_view(out@);
    if t.resources.len() == 0 {
        push_line(out, styled_line("   （暂无关联资源）", Style {
            fg: Some(MUTED),
            bg: None,
            bold: false,
            crossed_out: false,
            italic: true,
        }));
        assert(lines_view(out@) =~= base + resources_section(t@.resources, w as nat));
        return;
    }
    let ghost rs = t@.resources;
    let mut i: usize = 0;
    while i < t.resources.len()
        invariant
            i <= t.resources@.len(),
            rs == t@.resources,
            rs.len() == t.resources@.len(),
            lines_view(out@) == top + rs.take(i as int).map_values(|r: ResourceView| resource_line(r, w as nat)),
        decreases t.resources@.len() - i,
    {
        let l = resource_line_exec(&t.resources[i], w);
        push_line(out, l);
        proof {
            assert(t.resources@[i as int]@ == rs[i as int]);
            assert(rs.take(i + 1).map_values(|r: ResourceView| resource_line(r, w as nat)) =~= rs.take(
                i as int,
            ).map_values(|r: ResourceView| resource_line(r, w as nat)).push(l@));
        }
        i = i + 1;
    }
    assert(rs.take(rs.len() as int) =~= rs);
    assert(lines_view(out@) =~= base + resources_section(t@.resources, w as nat));
}

impl<'a> TaskDetail<'a> {
    /// A detail view of `task` with item `selected_item_index` selected.
    pub fn new(task: &'a Task, selected_item_index: usize) -> (r: Self)
        ensures
            r.task == task,
            r.selected_item_index == selected_item_index,
    {
        TaskDetail { task, selected_item_index }
    }

    /// The lines of the view in `width` × `height` cells (see
    /// `detail_lines`).
    pub fn lines(&self, width: usize, height: usize) -> (r: Vec<Line>)
        requires
            cuts_at(self.task@.id, 8),
            self.task@.checklist.len() * 100 <= usize::MAX,
        ensures
            lines_view(r@) == detail_lines(
                self.task@,
                self.selected_item_index as nat,
                width as nat,
                height as nat,
            ),
    {
        let t = self.task;
        let mut out: Vec<Line> = Vec::new();
        assert(lines_view(out@) =~= Seq::<LineView>::empty());
        push_head(&mut out, t);
        push_context(&mut out, t, width);
        push_meta(&mut out, t);
        push_line(&mut out, blank_line());
        push_line(&mut out, title_line(t));
        push_line(&mut out, separator_line(sat_sub(width, 2)));
        let ghost top = lines_view(out@);
        assert(top =~= detail_top(t@, width as nat));
        let above = out.len();
        assert(top.len() == above);
        push_checklist_rows(&mut out, t, self.selected_item_index, width, height, above);
        push_notes(&mut out, t, width);
        push_resources(&mut out, t, width);
        push_line(&mut out, blank_line());
        let mut stamp = String::from_str(" 创建: ");
        append_str(&mut stamp, t.created_at.as_str());
        append_str(&mut stamp, "  更新: ");
        append_str(&mut stamp, t.updated_at.as_str());
        push_line(&mut out, single(stamp, fg(MUTED)));
        assert(lines_view(out@) =~= detail_lines(
            t@,
            self.selected_item_index as nat,
            width as nat,
            height as nat,
        ));
        out
    }

    /// First visible checklist row when `visible_item_rows` rows fit.
    pub fn scroll_offset(&self, visible_item_rows: usize) -> (r: usize)
        ensures
            r == if self.task@.checklist.len() == 0 {
                0
            } else {
                scroll_for(self.selected_item_index as nat, visible_item_rows as nat)
            },
    {
        if visible_item_rows == 0 || self.task.checklist.len() == 0 {
            return 0;
        }
        if self.selected_item_index >= visible_item_rows {
            self.selected_item_index - visible_item_rows + 1
        } else {
            0
        }
    }
}

} // verus!
