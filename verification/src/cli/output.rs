//! Text output of the command line: task lists, task details and messages.

use vstd::prelude::*;

use crate::ids::{short_id, short_id_of};
use crate::logic::task::{count_done, done_count};
use crate::models::{Task, TaskView, opt_view, strings_view, tags_view};
use crate::text::{
    append_str, byte_prefix, chars_of, cuts_at, decimal, is_boundary, is_prefix_of, join, join_strings,
    repeat_char, string_from_chars, utf8_len,
};

verus! {

/// What a command prints.
pub enum Output<'a> {
    /// A task in full (new, show, edit).
    Task(&'a Task),
    /// A task list (ls).
    TaskList { tasks: Vec<TaskListEntry>, long: bool },
    /// A checklist summary.
    ChecklistSummary(String),
    /// A success message.
    Success(String),
    /// A deletion message.
    Deleted(String),
}

/// One row of the task list.
#[derive(Debug, Clone)]
pub struct TaskListEntry {
    /// The first 8 bytes of the ID.
    pub short_id: String,
    /// Priority (long form).
    pub priority: Option<String>,
    /// Description.
    pub description: String,
    /// Ten-cell progress bar.
    pub progress_bar: String,
    /// Items done.
    pub done: usize,
    /// Items in all.
    pub total: usize,
    /// Whether every item is done (and there is at least one).
    pub is_done: bool,
    /// Tags, when there are any (long form).
    pub tags: Option<Vec<String>>,
    /// Creation date (long form).
    pub created_date: String,
}

// ── Progress bar ───────────────────────────────────────────────────────────

/// Number of filled cells of the ten-cell bar: the rounded share of done
/// items, at most 10.
pub open spec fn filled_cells(done: nat, total: nat) -> nat {
    if total == 0 {
        0
    } else {
        let f = (done * 10 + total / 2) / total;
        if f > 10 {
            10
        } else {
            f
        }
    }
}

/// The ten-cell progress bar: filled cells then empty ones.
pub open spec fn progress_bar_text(done: nat, total: nat) -> Seq<char> {
    let f = filled_cells(done, total);
    Seq::new(f, |i: int| '█') + Seq::new((10 - f) as nat, |i: int| '░')
}

/// The progress bar always has ten cells; it is empty when nothing is done
/// (or there are no items) and full when everything is done.
pub proof fn lemma_progress_bar_shape(done: nat, total: nat)
    ensures
        progress_bar_text(done, total).len() == 10,
        filled_cells(done, total) <= 10,
        done == 0 ==> filled_cells(done, total) == 0,
        total > 0 && done >= total ==> filled_cells(done, total) == 10,
{
    if total > 0 {
        if done == 0 {
            assert((total / 2) / total == 0) by (nonlinear_arith)
                requires
                    total > 0,
            ;
        }
        if done >= total {
            assert((done * 10 + total / 2) / total >= 10) by (nonlinear_arith)
                requires
                    total > 0,
                    done >= total,
            ;
        }
    }
}

/// The ten-cell progress bar of `done` out of `total`.
pub fn make_progress_bar(done: usize, total: usize) -> (r: String)
    requires
        done * 10 + total / 2 <= usize::MAX,
    ensures
        r@ == progress_bar_text(done as nat, total as nat),
{
    let filled: usize = if total == 0 {
        0
    } else {
        let f = (done * 10 + total / 2) / total;
        if f > 10 {
            10
        } else {
            f
        }
    };
    let mut s = repeat_char('█', filled);
    let rest = repeat_char('░', 10 - filled);
    append_str(&mut s, rest.as_str());
    s
}

// ── Display width ──────────────────────────────────────────────────────────

/// Display width of a character: 1 for ASCII, 2 above U+2E80 (taken as
/// CJK), else 1.
pub open spec fn char_cols(c: char) -> nat {
    if (c as u32) < 128 {
        1
    } else if (c as u32) > 0x2E80 {
        2
    } else {
        1
    }
}

/// Display width of a text.
pub open spec fn text_cols(s: Seq<char>) -> nat
    decreases s.len(),
{
    if s.len() == 0 {
        0
    } else {
        text_cols(s.drop_last()) + char_cols(s.last())
    }
}

fn char_cols_exec(c: char) -> (r: usize)
    ensures
        r == char_cols(c),
{
    if (c as u32) < 128 {
        1
    } else if (c as u32) > 0x2E80 {
        2
    } else {
        1
    }
}

/// A width, saturated at `usize::MAX`.
pub open spec fn saturated(n: nat) -> usize {
    if n > usize::MAX {
        usize::MAX
    } else {
        n as usize
    }
}

/// Display width of a string (CJK characters count 2), saturating at
/// `usize::MAX`.
pub fn unicode_width(s: &str) -> (r: usize)
    ensures
        r == saturated(text_cols(s@)),
{
    let v = chars_of(s);
    let mut w: usize = 0;
    let mut i: usize = 0;
    while i < v.len()
        invariant
            i <= v@.len(),
            v@ == s@,
            w == saturated(text_cols(v@.take(i as int))),
        decreases v@.len() - i,
    {
        assert(v@.take(i + 1).drop_last() =~= v@.take(i as int));
        w = w.saturating_add(char_cols_exec(v[i]));
        i = i + 1;
    }
    assert(v@.take(v@.len() as int) =~= v@);
    w
}

// ── Truncation and padding ─────────────────────────────────────────────────

/// Number of leading characters of `s` that fit in `budget` columns,
/// stopping at the first one that does not fit.
pub open spec fn fitting_count(s: Seq<char>, budget: nat) -> nat
    decreases s.len(),
{
    if s.len() == 0 {
        0
    } else if char_cols(s[0]) > budget {
        0
    } else {
        1 + fitting_count(s.drop_first(), (budget - char_cols(s[0])) as nat)
    }
}

/// The longest prefix of `s` that fits in `max` columns.
pub fn truncate_to_width(s: &str, max_width: usize) -> (r: String)
    ensures
        r@ == s@.take(fitting_count(s@, max_width as nat) as int),
{
    let v = chars_of(s);
    let mut w: usize = 0;
    let mut i: usize = 0;
    assert(v@.skip(0) =~= v@);
    while i < v.len() && char_cols_exec(v[i]) <= max_width - w
        invariant
            i <= v@.len(),
            v@ == s@,
            w <= max_width,
            fitting_count(v@, max_width as nat) == i + fitting_count(v@.skip(i as int), (max_width - w) as nat),
        decreases v@.len() - i,
    {
        assert(v@.skip(i as int)[0] == v@[i as int]);
        assert(v@.skip(i as int).drop_first() =~= v@.skip(i + 1));
        w = w + char_cols_exec(v[i]);
        i = i + 1;
    }
    if i < v.len() {
        assert(v@.skip(i as int)[0] == v@[i as int]);
    }
    let kept = crate::text::slice_chars(&v, 0, i);
    assert(kept@ =~= v@.take(i as int));
    string_from_chars(kept.as_slice())
}

/// `s` padded with spaces to `w` columns, or cut to fit them.
pub open spec fn padded_to(s: Seq<char>, w: nat) -> Seq<char> {
    if text_cols(s) >= w {
        s.take(fitting_count(s, w) as int)
    } else {
        s + Seq::new((w - text_cols(s)) as nat, |i: int| ' ')
    }
}

/// Widths add up over concatenation.
pub proof fn lemma_text_cols_concat(a: Seq<char>, b: Seq<char>)
    ensures
        text_cols(a + b) == text_cols(a) + text_cols(b),
    decreases b.len(),
{
    if b.len() > 0 {
        lemma_text_cols_concat(a, b.drop_last());
        assert((a + b).drop_last() =~= a + b.drop_last());
    }
}

proof fn lemma_text_cols_spaces(n: nat)
    ensures
        text_cols(Seq::new(n, |i: int| ' ')) == n,
    decreases n,
{
    if n > 0 {
        lemma_text_cols_spaces((n - 1) as nat);
        assert(Seq::new(n, |i: int| ' ').drop_last() =~= Seq::new((n - 1) as nat, |i: int| ' '));
    }
}

proof fn lemma_text_cols_one(c: char)
    ensures
        text_cols(seq![c]) == char_cols(c),
{
    assert(seq![c].drop_last() =~= Seq::<char>::empty());
    assert(text_cols(Seq::<char>::empty()) == 0);
    assert(seq![c].last() == c);
}

proof fn lemma_text_cols_first(s: Seq<char>)
    requires
        s.len() > 0,
    ensures
        text_cols(s) == char_cols(s[0]) + text_cols(s.drop_first()),
{
    lemma_text_cols_concat(seq![s[0]], s.drop_first());
    assert(seq![s[0]] + s.drop_first() =~= s);
    lemma_text_cols_one(s[0]);
}

/// Truncation keeps within the width it is given, and leaves a text that
/// already fits as it is.
pub proof fn lemma_truncate_fits(s: Seq<char>, budget: nat)
    ensures
        fitting_count(s, budget) <= s.len(),
        text_cols(s.take(fitting_count(s, budget) as int)) <= budget,
        text_cols(s) <= budget ==> fitting_count(s, budget) == s.len(),
    decreases s.len(),
{
    if s.len() > 0 {
        lemma_text_cols_first(s);
        if char_cols(s[0]) <= budget {
            let rest_budget = (budget - char_cols(s[0])) as nat;
            lemma_truncate_fits(s.drop_first(), rest_budget);
            let k = fitting_count(s.drop_first(), rest_budget);
            assert(s.take((k + 1) as int) =~= seq![s[0]] + s.drop_first().take(k as int));
            lemma_text_cols_concat(seq![s[0]], s.drop_first().take(k as int));
            lemma_text_cols_one(s[0]);
        } else {
            assert(s.take(0) =~= Seq::<char>::empty());
        }
    } else {
        assert(s.take(0) =~= Seq::<char>::empty());
    }
}

/// Padding gives exactly the target width when the text is narrower, and
/// never more than the target width.
pub proof fn lemma_pad_width(s: Seq<char>, w: nat)
    ensures
        text_cols(padded_to(s, w)) <= w,
        text_cols(s) < w ==> text_cols(padded_to(s, w)) == w,
        text_cols(s) < w ==> padded_to(s, w).take(s.len() as int) == s,
{
    if text_cols(s) >= w {
        lemma_truncate_fits(s, w);
    } else {
        lemma_text_cols_concat(s, Seq::new((w - text_cols(s)) as nat, |i: int| ' '));
        lemma_text_cols_spaces((w - text_cols(s)) as nat);
        assert(padded_to(s, w).take(s.len() as int) =~= s);
    }
}

/// Pads `s` with spaces to `target_width` columns, or cuts it to fit.
pub fn pad_display(s: &str, target_width: usize) -> (r: String)
    ensures
        r@ == padded_to(s@, target_width as nat),
{
    let current = unicode_width(s);
    if current >= target_width {
        truncate_to_width(s, target_width)
    } else {
        let mut out = String::from_str(s);
        let pad = repeat_char(' ', target_width - current);
        append_str(&mut out, pad.as_str());
        out
    }
}

/// `s` padded with spaces to at least `w` characters (as `{:<w}`).
pub open spec fn left_aligned(s: Seq<char>, w: nat) -> Seq<char> {
    if s.len() < w {
        s + Seq::new((w - s.len()) as nat, |i: int| ' ')
    } else {
        s
    }
}

fn left_align(s: &str, w: usize) -> (r: String)
    ensures
        r@ == left_aligned(s@, w as nat),
{
    let n = s.unicode_len();
    let mut out = String::from_str(s);
    if n < w {
        let pad = repeat_char(' ', w - n);
        append_str(&mut out, pad.as_str());
    }
    out
}

// ── Task list rows ─────────────────────────────────────────────────────────

/// The date of an ISO 8601 timestamp: its first 10 bytes when they end on a
/// character boundary, else the whole timestamp.
pub open spec fn date_part(s: Seq<char>) -> Seq<char> {
    if utf8_len(s) >= 10 && is_boundary(s, 10) {
        s.take(crate::text::chars_within(s, 10) as int)
    } else {
        s
    }
}

/// The list row built from a task.
pub open spec fn entry_of(t: TaskView, e: TaskListEntry) -> bool {
    let total = t.checklist.len();
    let done = done_count(t.checklist);
    &&& e.short_id@ == short_id_of(t.id)
    &&& opt_view(e.priority) == match t.metadata {
        Some(m) => m.priority,
        None => None,
    }
    &&& e.description@ == t.task_description
    &&& e.progress_bar@ == progress_bar_text(done, total)
    &&& e.done == done
    &&& e.total == total
    &&& e.is_done == (total > 0 && done == total)
    &&& tags_view(e.tags) == match t.metadata {
        Some(m) => match m.tags {
            Some(ts) => if ts.len() > 0 {
                Some(ts)
            } else {
                None
            },
            None => None,
        },
        None => None,
    }
    &&& e.created_date@ == date_part(t.created_at)
}

/// The list row of a task.
pub fn task_to_list_entry(task: &Task) -> (e: TaskListEntry)
    requires
        cuts_at(task@.id, 8),
        task@.checklist.len() * 10 + task@.checklist.len() / 2 <= usize::MAX,
    ensures
        entry_of(task@, e),
{
    let total = task.checklist.len();
    let done = count_done(&task.checklist);
    proof {
        crate::logic::task::lemma_done_count_le(task@.checklist);
    }
    let is_done = total > 0 && done == total;
    let priority = match &task.metadata {
        Some(m) => crate::models::copy_opt(&m.priority),
        None => None,
    };
    let tags = match &task.metadata {
        Some(m) => match &m.tags {
            Some(ts) => if ts.len() > 0 {
                Some(crate::models::copy_strings(ts))
            } else {
                None
            },
            None => None,
        },
        None => None,
    };
    let created_date = {
        let v = chars_of(task.created_at.as_str());
        if crate::text::byte_len_at_least(task.created_at.as_str(), 10) && crate::text::is_char_boundary_at(
            &v,
            10,
        ) {
            byte_prefix(task.created_at.as_str(), 10)
        } else {
            task.created_at.clone()
        }
    };
    TaskListEntry {
        short_id: short_id(task.id.as_str()),
        priority,
        description: task.task_description.clone(),
        progress_bar: make_progress_bar(done, total),
        done,
        total,
        is_done,
        tags,
        created_date,
    }
}

/// "done/total".
pub open spec fn fraction_text(done: nat, total: nat) -> Seq<char> {
    decimal(done) + "/"@ + decimal(total)
}

/// A list row as printed, without its line break: in long form the short
/// ID, priority (padded to 5), description (to 24 columns), bar, fraction,
/// tags (or "-") and date; else the short ID, a done marker, description,
/// bar and fraction.
pub open spec fn entry_line(e: TaskListEntry, long: bool) -> Seq<char> {
    let desc = padded_to(e.description@, 24);
    let frac = fraction_text(e.done as nat, e.total as nat);
    if long {
        let prio = match e.priority {
            Some(p) => p@,
            None => "    "@,
        };
        let tags = match e.tags {
            Some(ts) => join(strings_view(ts@), ","@),
            None => "-"@,
        };
        e.short_id@ + " "@ + left_aligned(prio, 5) + " "@ + desc + " "@ + e.progress_bar@ + " "@ + frac + " "@
            + tags + " "@ + e.created_date@
    } else {
        e.short_id@ + "  "@ + (if e.is_done {
            "[done] "@
        } else {
            Seq::empty()
        }) + desc + " "@ + e.progress_bar@ + " "@ + frac
    }
}

/// A short list row marks a finished task: for the row of a task, it starts
/// with the short ID, two spaces, `[done] ` and the padded description when
/// the task has items and all are done, and with the short ID, two spaces
/// and the padded description otherwise.
pub proof fn lemma_done_marker(t: TaskView, e: TaskListEntry)
    requires
        entry_of(t, e),
    ensures
        (t.checklist.len() > 0 && done_count(t.checklist) == t.checklist.len()) ==> is_prefix_of(
            short_id_of(t.id) + "  "@ + "[done] "@ + padded_to(t.task_description, 24),
            entry_line(e, false),
        ),
        !(t.checklist.len() > 0 && done_count(t.checklist) == t.checklist.len()) ==> is_prefix_of(
            short_id_of(t.id) + "  "@ + padded_to(t.task_description, 24),
            entry_line(e, false),
        ),
{
    lemma_short_row_start(e);
}

/// The start of a short row (see `lemma_done_marker`).
proof fn lemma_short_row_start(e: TaskListEntry)
    ensures
        e.is_done ==> is_prefix_of(e.short_id@ + "  "@ + "[done] "@ + padded_to(e.description@, 24), entry_line(e, false)),
        !e.is_done ==> is_prefix_of(e.short_id@ + "  "@ + padded_to(e.description@, 24), entry_line(e, false)),
{
    let desc = padded_to(e.description@, 24);
    let rest = " "@ + e.progress_bar@ + " "@ + fraction_text(e.done as nat, e.total as nat);
    if e.is_done {
        let p = e.short_id@ + "  "@ + "[done] "@ + desc;
        assert(entry_line(e, false) =~= p + rest);
        assert((p + rest).take(p.len() as int) =~= p);
    } else {
        let p = e.short_id@ + "  "@ + desc;
        assert(entry_line(e, false) =~= p + rest);
        assert((p + rest).take(p.len() as int) =~= p);
    }
}

/// A list row as printed (see `entry_line`): a short row starts with the
/// short ID, two spaces, `[done] ` when the task is finished, and the
/// padded description.
pub fn task_list_line(entry: &TaskListEntry, long: bool) -> (r: String)
    ensures
        r@ == entry_line(*entry, long),
        !long && entry.is_done ==> is_prefix_of(
            entry.short_id@ + "  "@ + "[done] "@ + padded_to(entry.description@, 24),
            r@,
        ),
        !long && !entry.is_done ==> is_prefix_of(entry.short_id@ + "  "@ + padded_to(entry.description@, 24), r@),
{
    proof {
        lemma_short_row_start(*entry);
    }
    let desc = pad_display(entry.description.as_str(), 24);
    let mut frac = crate::text::usize_to_decimal(entry.done);
    append_str(&mut frac, "/");
    append_str(&mut frac, crate::text::usize_to_decimal(entry.total).as_str());
    let mut out = entry.short_id.clone();
    if long {
        let prio = match &entry.priority {
            Some(p) => left_align(p.as_str(), 5),
            None => left_align("    ", 5),
        };
        let tags = match &entry.tags {
            Some(ts) => join_strings(ts, ","),
            None => String::from_str("-"),
        };
        append_str(&mut out, " ");
        append_str(&mut out, prio.as_str());
        append_str(&mut out, " ");
        append_str(&mut out, desc.as_str());
        append_str(&mut out, " ");
        append_str(&mut out, entry.progress_bar.as_str());
        append_str(&mut out, " ");
        append_str(&mut out, frac.as_str());
        append_str(&mut out, " ");
        append_str(&mut out, tags.as_str());
        append_str(&mut out, " ");
        append_str(&mut out, entry.created_date.as_str());
    } else {
        append_str(&mut out, "  ");
        if entry.is_done {
            append_str(&mut out, "[done] ");
        }
        append_str(&mut out, desc.as_str());
        append_str(&mut out, " ");
        append_str(&mut out, entry.progress_bar.as_str());
        append_str(&mut out, " ");
        append_str(&mut out, frac.as_str());
        proof {
            if !entry.is_done {
                assert(entry.short_id@ + "  "@ + Seq::<char>::empty() =~= entry.short_id@ + "  "@);
            }
        }
    }
    out
}

// ── Task details ───────────────────────────────────────────────────────────

/// `s` without one trailing carriage return.
pub open spec fn without_cr(s: Seq<char>) -> Seq<char> {
    if s.len() > 0 && s.last() == '\r' {
        s.drop_last()
    } else {
        s
    }
}

/// The lines of a text, as `str::lines`: split at `\n`, a `\r` before a
/// `\n` dropped, no empty line after a final line break.
pub open spec fn text_lines(s: Seq<char>) -> Seq<Seq<char>> {
    let ps = crate::text::split_on(s, '\n');
    let body = ps.drop_last().map_values(|p: Seq<char>| without_cr(p));
    if ps.last().len() == 0 {
        body
    } else {
        body.push(ps.last())
    }
}

/// Lines indented by seven spaces, each followed by a line break.
pub open spec fn indented_lines(ls: Seq<Seq<char>>) -> Seq<char>
    decreases ls.len(),
{
    if ls.len() == 0 {
        Seq::empty()
    } else {
        indented_lines(ls.drop_last()) + "       "@ + ls.last() + "\n"@
    }
}

/// The first line of a checklist item in the details.
pub open spec fn item_head(i: nat, it: crate::models::ChecklistItemView) -> Seq<char> {
    "  "@ + (if it.done {
        "✅"@
    } else {
        "⬜"@
    }) + " ["@ + decimal(i) + "] "@ + it.task + "\n"@
}

/// The indented description lines of an item (none for an empty one).
pub open spec fn item_desc(it: crate::models::ChecklistItemView) -> Seq<char> {
    if it.detailed_description.len() > 0 {
        indented_lines(text_lines(it.detailed_description))
    } else {
        Seq::empty()
    }
}

/// The plan line of an item, if it has a plan.
pub open spec fn item_plan(it: crate::models::ChecklistItemView) -> Seq<char> {
    match it.context_and_plan {
        Some(p) => "       计划: "@ + p + "\n"@,
        None => Seq::empty(),
    }
}

/// The block of one checklist item in the details.
pub open spec fn item_block(i: nat, it: crate::models::ChecklistItemView) -> Seq<char> {
    item_head(i, it) + item_desc(it) + item_plan(it)
}

/// The blocks of the checklist items, numbered from 0.
pub open spec fn item_blocks(items: Seq<crate::models::ChecklistItemView>) -> Seq<char>
    decreases items.len(),
{
    if items.len() == 0 {
        Seq::empty()
    } else {
        item_blocks(items.drop_last()) + item_block((items.len() - 1) as nat, items.last())
    }
}

/// The note lines, numbered from 1.
pub open spec fn note_lines(notes: Seq<Seq<char>>) -> Seq<char>
    decreases notes.len(),
{
    if notes.len() == 0 {
        Seq::empty()
    } else {
        note_lines(notes.drop_last()) + "  "@ + decimal(notes.len()) + ". "@ + notes.last() + "\n"@
    }
}

/// The resource lines.
pub open spec fn resource_lines(rs: Seq<crate::models::ResourceView>) -> Seq<char>
    decreases rs.len(),
{
    if rs.len() == 0 {
        Seq::empty()
    } else {
        let r = rs.last();
        resource_lines(rs.drop_last()) + "  - "@ + r.name + " ("@ + r.url + ")"@ + match r.description {
            Some(d) => ": "@ + d,
            None => Seq::empty(),
        } + "\n"@
    }
}

/// The metadata lines of the details: non-empty tags, priority, time.
pub open spec fn metadata_lines(m: Option<crate::models::TaskMetadataView>) -> Seq<char> {
    match m {
        Some(md) => (match md.tags {
            Some(ts) => if ts.len() > 0 {
                "标签: "@ + join(ts, ", "@) + "\n"@
            } else {
                Seq::empty()
            },
            None => Seq::empty(),
        }) + (match md.priority {
            Some(p) => "优先级: "@ + p + "\n"@,
            None => Seq::empty(),
        }) + (match md.estimated_completion_time {
            Some(e) => "预计完成: "@ + e + "\n"@,
            None => Seq::empty(),
        }),
        None => Seq::empty(),
    }
}

/// The context line of the details, if the task has a context.
pub open spec fn context_line(c: Option<Seq<char>>) -> Seq<char> {
    match c {
        Some(x) => "上下文: "@ + x + "\n"@,
        None => Seq::empty(),
    }
}

/// The progress line of the details.
pub open spec fn progress_line(t: TaskView) -> Seq<char> {
    "进度: "@ + fraction_text(done_count(t.checklist), t.checklist.len()) + "\n"@
}

/// The head of the details: ID, description, context, progress, metadata
/// and times.
pub open spec fn detail_header(t: TaskView) -> Seq<char> {
    "ID: "@ + t.id + "\n"@ + "任务: "@ + t.task_description + "\n"@ + context_line(t.context_for_all_tasks)
        + progress_line(t) + metadata_lines(t.metadata) + "创建时间: "@ + t.created_at + "\n"@ + "更新时间: "@
        + t.updated_at + "\n"@
}

/// The checklist section of the details (none for an empty checklist).
pub open spec fn checklist_section(t: TaskView) -> Seq<char> {
    if t.checklist.len() > 0 {
        "\n清单:\n"@ + item_blocks(t.checklist)
    } else {
        Seq::empty()
    }
}

/// The notes section of the details.
pub open spec fn notes_section(t: TaskView) -> Seq<char> {
    if t.notes.len() > 0 {
        "\n笔记:\n"@ + note_lines(t.notes)
    } else {
        Seq::empty()
    }
}

/// The resources section of the details.
pub open spec fn resources_section(t: TaskView) -> Seq<char> {
    if t.resources.len() > 0 {
        "\n资源:\n"@ + resource_lines(t.resources)
    } else {
        Seq::empty()
    }
}

/// The full details of a task as printed.
pub open spec fn task_detail_text(t: TaskView) -> Seq<char> {
    detail_header(t) + checklist_section(t) + notes_section(t) + resources_section(t)
}

fn append_line(out: &mut String, a: &str, b: &str)
    ensures
        final(out)@ == old(out)@ + a@ + b@ + "\n"@,
{
    append_str(out, a);
    append_str(out, b);
    append_str(out, "\n");
}

fn append_ln(out: &mut String, a: &str)
    ensures
        final(out)@ == old(out)@ + a@ + "\n"@,
{
    append_str(out, a);
    append_str(out, "\n");
}

fn append_indented_lines(out: &mut String, s: &str)
    ensures
        final(out)@ == old(out)@ + indented_lines(text_lines(s@)),
{
    let parts = crate::text::split_chars(s, '\n');
    let ghost ps = crate::text::split_on(s@, '\n');
    proof {
        crate::text::lemma_split_nonempty(s@, '\n');
    }
    let ghost body = ps.drop_last().map_values(|p: Seq<char>| without_cr(p));
    let n = parts.len();
    let mut i: usize = 0;
    while i + 1 < n
        invariant
            n == parts@.len() == ps.len(),
            n >= 1,
            i + 1 <= n,
            forall|k: int| 0 <= k < parts@.len() ==> #[trigger] parts@[k]@ == ps[k],
            body == ps.drop_last().map_values(|p: Seq<char>| without_cr(p)),
            out@ == old(out)@ + indented_lines(body.take(i as int)),
        decreases n - i,
    {
        let piece = &parts[i];
        let plen = piece.len();
        let line = if plen > 0 && piece[plen - 1] == '\r' {
            crate::text::slice_chars(piece, 0, plen - 1)
        } else {
            crate::text::slice_chars(piece, 0, plen)
        };
        assert(line@ =~= without_cr(ps[i as int]));
        assert(body.take(i + 1).drop_last() =~= body.take(i as int));
        assert(body.take(i + 1).last() == without_cr(ps[i as int]));
        append_str(out, "       ");
        crate::text::append_chars(out, &line);
        append_str(out, "\n");
        i = i + 1;
    }
    assert(body.take(i as int) =~= body);
    let last = &parts[n - 1];
    if last.len() > 0 {
        assert(ps.last() == last@);
        append_str(out, "       ");
        crate::text::append_chars(out, last);
        append_str(out, "\n");
        assert(body.push(ps.last()).drop_last() =~= body);
    }
}

fn append_item_block(out: &mut String, i: usize, it: &crate::models::ChecklistItem)
    ensures
        final(out)@ == old(out)@ + item_block(i as nat, it@),
{
    let ghost start = out@;
    append_str(out, "  ");
    if it.done {
        append_str(out, "✅");
    } else {
        append_str(out, "⬜");
    }
    append_str(out, " [");
    append_str(out, crate::text::usize_to_decimal(i).as_str());
    append_str(out, "] ");
    append_ln(out, it.task.as_str());
    assert(out@ =~= start + item_head(i as nat, it@));
    let ghost mid = out@;
    if it.detailed_description.as_str().unicode_len() > 0 {
        append_indented_lines(out, it.detailed_description.as_str());
    }
    assert(out@ =~= mid + item_desc(it@));
    let ghost mid2 = out@;
    if let Some(p) = &it.context_and_plan {
        append_line(out, "       计划: ", p.as_str());
    }
    assert(out@ =~= mid2 + item_plan(it@));
    assert(out@ =~= start + item_block(i as nat, it@));
}

fn append_metadata_lines(out: &mut String, m: &Option<crate::models::TaskMetadata>)
    ensures
        final(out)@ == old(out)@ + metadata_lines(crate::models::meta_view(*m)),
{
    let ghost start = out@;
    if let Some(m) = m {
        if let Some(ts) = &m.tags {
            if ts.len() > 0 {
                append_line(out, "标签: ", join_strings(ts, ", ").as_str());
            }
        }
        let ghost a1 = out@;
        if let Some(p) = &m.priority {
            append_line(out, "优先级: ", p.as_str());
        }
        let ghost a2 = out@;
        if let Some(e) = &m.estimated_completion_time {
            append_line(out, "预计完成: ", e.as_str());
        }
        assert(out@ =~= start + metadata_lines(crate::models::meta_view(Some(*m))));
    }
}

fn append_progress_line(out: &mut String, task: &Task)
    ensures
        final(out)@ == old(out)@ + progress_line(task@),
{
    let ghost start = out@;
    let total = task.checklist.len();
    let done = count_done(&task.checklist);
    append_str(out, "进度: ");
    append_str(out, crate::text::usize_to_decimal(done).as_str());
    append_str(out, "/");
    append_ln(out, crate::text::usize_to_decimal(total).as_str());
    assert(out@ =~= start + progress_line(task@));
}

#[verifier::spinoff_prover]
#[verifier::rlimit(40)]
fn append_header(out: &mut String, task: &Task)
    ensures
        final(out)@ == old(out)@ + detail_header(task@),
{
    let ghost start = out@;
    append_line(out, "ID: ", task.id.as_str());
    append_line(out, "任务: ", task.task_description.as_str());
    let ghost a1 = out@;
    if let Some(c) = &task.context_for_all_tasks {
        append_line(out, "上下文: ", c.as_str());
    }
    assert(out@ =~= a1 + context_line(task@.context_for_all_tasks));
    let ghost a2 = out@;
    append_progress_line(out, task);
    let ghost a3 = out@;
    append_metadata_lines(out, &task.metadata);
    let ghost a4 = out@;
    append_line(out, "创建时间: ", task.created_at.as_str());
    append_line(out, "更新时间: ", task.updated_at.as_str());
    assert(out@ =~= start + detail_header(task@));
}

fn append_checklist_section(out: &mut String, task: &Task)
    ensures
        final(out)@ == old(out)@ + checklist_section(task@),
{
    let total = task.checklist.len();
    if total > 0 {
        let ghost start0 = out@;
        append_str(out, "\n清单:\n");
        let ghost start = out@;
        let mut i: usize = 0;
        while i < total
            invariant
                i <= total == task.checklist@.len(),
                out@ == start + item_blocks(crate::models::items_view(task.checklist@).take(i as int)),
            decreases total - i,
        {
            let ghost items = crate::models::items_view(task.checklist@);
            assert(items.take(i + 1).drop_last() =~= items.take(i as int));
            append_item_block(out, i, &task.checklist[i]);
            i = i + 1;
        }
        assert(crate::models::items_view(task.checklist@).take(total as int) =~= crate::models::items_view(
            task.checklist@,
        ));
        assert(out@ =~= start0 + checklist_section(task@));
    }
}

fn append_notes_section(out: &mut String, task: &Task)
    ensures
        final(out)@ == old(out)@ + notes_section(task@),
{
    if task.notes.len() > 0 {
        let ghost start0 = out@;
        append_str(out, "\n笔记:\n");
        let ghost start = out@;
        let mut i: usize = 0;
        while i < task.notes.len()
            invariant
                i <= task.notes@.len(),
                out@ == start + note_lines(strings_view(task.notes@).take(i as int)),
            decreases task.notes@.len() - i,
        {
            let ghost ns = strings_view(task.notes@);
            assert(ns.take(i + 1).drop_last() =~= ns.take(i as int));
            append_str(out, "  ");
            append_str(out, crate::text::usize_to_decimal(i + 1).as_str());
            append_str(out, ". ");
            append_ln(out, task.notes[i].as_str());
            i = i + 1;
        }
        assert(strings_view(task.notes@).take(i as int) =~= strings_view(task.notes@));
        assert(out@ =~= start0 + notes_section(task@));
    }
}

fn append_resources_section(out: &mut String, task: &Task)
    ensures
        final(out)@ == old(out)@ + resources_section(task@),
{
    if task.resources.len() > 0 {
        let ghost start0 = out@;
        append_str(out, "\n资源:\n");
        let ghost start = out@;
        let mut i: usize = 0;
        while i < task.resources.len()
            invariant
                i <= task.resources@.len(),
                out@ == start + resource_lines(crate::models::resources_view(task.resources@).take(i as int)),
            decreases task.resources@.len() - i,
        {
            let ghost rs = crate::models::resources_view(task.resources@);
            assert(rs.take(i + 1).drop_last() =~= rs.take(i as int));
            let r = &task.resources[i];
            append_str(out, "  - ");
            append_str(out, r.name.as_str());
            append_str(out, " (");
            append_str(out, r.url.as_str());
            append_str(out, ")");
            if let Some(d) = &r.description {
                append_str(out, ": ");
                append_str(out, d.as_str());
            }
            append_str(out, "\n");
            i = i + 1;
        }
        assert(crate::models::resources_view(task.resources@).take(i as int) =~= crate::models::resources_view(
            task.resources@,
        ));
        assert(out@ =~= start0 + resources_section(task@));
    }
}

/// The full details of a task as printed (see `task_detail_text`).
pub fn task_detail(task: &Task) -> (r: String)
    ensures
        r@ == task_detail_text(task@),
{
    let mut out = String::new();
    append_header(&mut out, task);
    append_checklist_section(&mut out, task);
    append_notes_section(&mut out, task);
    append_resources_section(&mut out, task);
    assert(out@ =~= task_detail_text(task@));
    out
}

// ── Whole outputs ──────────────────────────────────────────────────────────

/// Rows of a task list, each followed by a line break.
pub open spec fn entry_lines(es: Seq<TaskListEntry>, long: bool) -> Seq<char>
    decreases es.len(),
{
    if es.len() == 0 {
        Seq::empty()
    } else {
        entry_lines(es.drop_last(), long) + entry_line(es.last(), long) + "\n"@
    }
}

/// The text an output prints: the task's details, the list rows (or a note
/// that there are no tasks), or the message, with a final line break.
pub open spec fn output_text(o: Output) -> Seq<char> {
    match o {
        Output::Task(t) => task_detail_text(t@),
        Output::TaskList { tasks, long } => if tasks@.len() == 0 {
            "当前没有任何任务\n"@
        } else {
            entry_lines(tasks@, long)
        },
        Output::ChecklistSummary(s) => s@ + "\n"@,
        Output::Success(m) => m@ + "\n"@,
        Output::Deleted(m) => m@ + "\n"@,
    }
}

/// The text an output prints (see `output_text`).
pub fn text_output(output: &Output) -> (r: String)
    ensures
        r@ == output_text(*output),
{
    match output {
        Output::Task(t) => task_detail(t),
        Output::TaskList { tasks, long } => {
            if tasks.len() == 0 {
                return String::from_str("当前没有任何任务\n");
            }
            let mut out = String::new();
            let mut i: usize = 0;
            while i < tasks.len()
                invariant
                    i <= tasks@.len(),
                    out@ == entry_lines(tasks@.take(i as int), *long),
                decreases tasks@.len() - i,
            {
                assert(tasks@.take(i + 1).drop_last() =~= tasks@.take(i as int));
                let line = task_list_line(&tasks[i], *long);
                append_ln(&mut out, line.as_str());
                i = i + 1;
            }
            assert(tasks@.take(i as int) =~= tasks@);
            out
        },
        Output::ChecklistSummary(s) => {
            let mut out = s.clone();
            append_str(&mut out, "\n");
            out
        },
        Output::Success(m) => {
            let mut out = m.clone();
            append_str(&mut out, "\n");
            out
        },
        Output::Deleted(m) => {
            let mut out = m.clone();
            append_str(&mut out, "\n");
            out
        },
    }
}

} // verus!
