//! Task-level operations: creation, field updates, status, priority,
//! summaries and the grouped list shown to agents.

use vstd::prelude::*;

use crate::ids::{is_utc_timestamp, is_uuid_format, new_uuid, now_rfc3339, short_id, short_id_of};
use crate::logic::item::opt_string;
use crate::models::{ChecklistItem, ChecklistItemView, Resource, Task, TaskMetadata, TaskMetadataView, TaskView, items_view, meta_view, opt_str_view, opt_view, resources_view, strings_view, tasks_view};
use crate::text::{append_str, chars_le, cuts_at, decimal, occurs_in, str_eq, str_le, usize_to_decimal};

verus! {

/// Number of items that are done.
pub open spec fn done_count(items: Seq<ChecklistItemView>) -> nat
    decreases items.len(),
{
    if items.len() == 0 {
        0
    } else {
        done_count(items.drop_last()) + if items.last().done {
            1nat
        } else {
            0nat
        }
    }
}

pub proof fn lemma_done_count_le(items: Seq<ChecklistItemView>)
    ensures
        done_count(items) <= items.len(),
    decreases items.len(),
{
    if items.len() > 0 {
        lemma_done_count_le(items.drop_last());
    }
}

/// Counts the done items of a checklist.
pub fn count_done(items: &Vec<ChecklistItem>) -> (n: usize)
    ensures
        n == done_count(items_view(items@)),
        n <= items@.len(),
{
    let ghost v = items_view(items@);
    let mut n: usize = 0;
    let mut i: usize = 0;
    while i < items.len()
        invariant
            i <= items@.len(),
            v == items_view(items@),
            n == done_count(v.take(i as int)),
            n <= i,
        decreases items@.len() - i,
    {
        assert(v.take(i + 1).drop_last() =~= v.take(i as int));
        if items[i].done {
            n = n + 1;
        }
        i = i + 1;
    }
    assert(v.take(items@.len() as int) =~= v);
    n
}

/// Builds a new task with a fresh UUID; creation and update times are both
/// the current time.
pub fn initialize_task(
    task_description: &str,
    context_for_all_tasks: Option<&str>,
    initial_checklist: Vec<ChecklistItem>,
    notes: Vec<String>,
    resources: Vec<Resource>,
    metadata: Option<TaskMetadata>,
    project_id: Option<&str>,
) -> (t: Task)
    ensures
        is_uuid_format(t@.id),
        t@.task_description == task_description@,
        t@.context_for_all_tasks == opt_str_view(context_for_all_tasks),
        t@.checklist == items_view(initial_checklist@),
        t@.notes == strings_view(notes@),
        t@.resources == resources_view(resources@),
        t@.metadata == meta_view(metadata),
        t@.project_id == opt_str_view(project_id),
        t@.created_at == t@.updated_at,
{
    let now = now_rfc3339();
    let updated = now.clone();
    Task {
        id: new_uuid(),
        task_description: task_description.to_owned(),
        context_for_all_tasks: opt_string(context_for_all_tasks),
        checklist: initial_checklist,
        notes,
        resources,
        metadata,
        project_id: opt_string(project_id),
        created_at: now,
        updated_at: updated,
    }
}

/// Refreshes the update time to the current time, a UTC timestamp; nothing
/// else changes.
pub fn touch(task: &mut Task)
    ensures
        final(task)@ == (TaskView { updated_at: final(task)@.updated_at, ..old(task)@ }),
        is_utc_timestamp(final(task)@.updated_at),
{
    task.updated_at = now_rfc3339();
}

/// Replaces the task's overall description.
pub fn update_task_description(task: &mut Task, new_description: &str)
    ensures
        final(task)@ == (TaskView { task_description: new_description@, ..old(task)@ }),
{
    task.task_description = new_description.to_owned();
}

/// Replaces the context shared by all checklist items.
pub fn update_context(task: &mut Task, new_context: &str)
    ensures
        final(task)@ == (TaskView { context_for_all_tasks: Some(new_context@), ..old(task)@ }),
{
    task.context_for_all_tasks = Some(new_context.to_owned());
}

/// Replaces the task's metadata.
pub fn update_metadata(task: &mut Task, metadata: TaskMetadata)
    ensures
        final(task)@ == (TaskView { metadata: Some(metadata@), ..old(task)@ }),
{
    task.metadata = Some(metadata);
}

/// Sets (`Some`) or clears (`None`) the project the task belongs to.
pub fn set_task_project(task: &mut Task, project_id: Option<&str>)
    ensures
        final(task)@ == (TaskView { project_id: opt_str_view(project_id), ..old(task)@ }),
{
    task.project_id = opt_string(project_id);
}

/// Status of a task, derived from its checklist.
#[derive(Debug, Clone, Copy, PartialEq, Eq, Structural)]
pub enum TaskStatus {
    /// Non-empty checklist, every item done.
    Completed,
    /// Non-empty checklist, some but not all items done.
    InProgress,
    /// Empty checklist, or no item done.
    NotStarted,
}

/// The status a checklist gives its task.
pub open spec fn status_of(items: Seq<ChecklistItemView>) -> TaskStatus {
    if items.len() == 0 {
        TaskStatus::NotStarted
    } else if done_count(items) == items.len() {
        TaskStatus::Completed
    } else if done_count(items) > 0 {
        TaskStatus::InProgress
    } else {
        TaskStatus::NotStarted
    }
}

proof fn lemma_done_count_extremes(items: Seq<ChecklistItemView>)
    ensures
        done_count(items) == items.len() <==> forall|i: int| 0 <= i < items.len() ==> #[trigger] items[i].done,
        done_count(items) == 0 <==> forall|i: int| 0 <= i < items.len() ==> !#[trigger] items[i].done,
    decreases items.len(),
{
    if items.len() > 0 {
        let d = items.drop_last();
        lemma_done_count_extremes(d);
        lemma_done_count_le(d);
        assert(forall|i: int| 0 <= i < d.len() ==> #[trigger] d[i] == items[i]);
        if forall|i: int| 0 <= i < items.len() ==> #[trigger] items[i].done {
            assert(forall|i: int| 0 <= i < d.len() ==> #[trigger] d[i].done);
            assert(items[items.len() - 1].done);
        }
        if forall|i: int| 0 <= i < items.len() ==> !#[trigger] items[i].done {
            assert(forall|i: int| 0 <= i < d.len() ==> !#[trigger] d[i].done);
            assert(!items[items.len() - 1].done);
        }
        if done_count(items) == items.len() {
            assert forall|i: int| 0 <= i < items.len() implies #[trigger] items[i].done by {
                if i < d.len() {
                    assert(d[i].done);
                }
            }
        }
        if done_count(items) == 0 {
            assert forall|i: int| 0 <= i < items.len() implies !#[trigger] items[i].done by {
                if i < d.len() {
                    assert(!d[i].done);
                }
            }
        }
    }
}

/// A task is completed exactly when it has items and every one is done, not
/// started exactly when no item is done (an empty checklist included), and in
/// progress otherwise.
pub proof fn lemma_status_meaning(items: Seq<ChecklistItemView>)
    ensures
        status_of(items) == TaskStatus::Completed <==> (items.len() > 0 && forall|i: int|
            0 <= i < items.len() ==> #[trigger] items[i].done),
        status_of(items) == TaskStatus::NotStarted <==> forall|i: int|
            0 <= i < items.len() ==> !#[trigger] items[i].done,
        status_of(items) == TaskStatus::InProgress <==> ((exists|i: int|
            0 <= i < items.len() && #[trigger] items[i].done) && (exists|j: int|
            0 <= j < items.len() && !#[trigger] items[j].done)),
{
    lemma_done_count_extremes(items);
}

/// Derives the task's status from its checklist.
pub fn derive_task_status(task: &Task) -> (s: TaskStatus)
    ensures
        s == status_of(task@.checklist),
{
    if task.checklist.len() == 0 {
        return TaskStatus::NotStarted;
    }
    let done = count_done(&task.checklist);
    if done == task.checklist.len() {
        TaskStatus::Completed
    } else if done > 0 {
        TaskStatus::InProgress
    } else {
        TaskStatus::NotStarted
    }
}

/// The priority recorded in optional metadata.
pub open spec fn priority_of(m: Option<TaskMetadataView>) -> Option<Seq<char>> {
    match m {
        Some(md) => md.priority,
        None => None,
    }
}

/// Sort weight of a priority, smaller first: high 0, medium 1, low 2,
/// anything else or none 3.
pub open spec fn rank_of(p: Option<Seq<char>>) -> u8 {
    if p == Some("high"@) {
        0
    } else if p == Some("medium"@) {
        1
    } else if p == Some("low"@) {
        2
    } else {
        3
    }
}

/// The priority string of a task, if any.
pub fn task_priority(task: &Task) -> (r: Option<&String>)
    ensures
        opt_view(match r { Some(s) => Some(*s), None => None }) == priority_of(task@.metadata),
{
    match &task.metadata {
        Some(m) => match &m.priority {
            Some(p) => Some(p),
            None => None,
        },
        None => None,
    }
}

/// Sort weight of the task's priority (see `rank_of`).
pub fn priority_rank(task: &Task) -> (r: u8)
    ensures
        r == rank_of(priority_of(task@.metadata)),
{
    match task_priority(task) {
        Some(p) => {
            proof {
                reveal_strlit("high");
                reveal_strlit("medium");
                reveal_strlit("low");
            }
            if str_eq(p.as_str(), "high") {
                0
            } else if str_eq(p.as_str(), "medium") {
                1
            } else if str_eq(p.as_str(), "low") {
                2
            } else {
                3
            }
        },
        None => 3,
    }
}

/// One line of the checklist summary: status mark, index and item name.
pub open spec fn summary_item_line(i: nat, it: ChecklistItemView) -> Seq<char> {
    (if it.done {
        "✅"@
    } else {
        "⬜"@
    }) + " ["@ + decimal(i) + "] "@ + it.task + "\n"@
}

/// The summary lines of all items, in order.
pub open spec fn summary_item_lines(items: Seq<ChecklistItemView>) -> Seq<char>
    decreases items.len(),
{
    if items.len() == 0 {
        Seq::empty()
    } else {
        summary_item_lines(items.drop_last()) + summary_item_line(
            (items.len() - 1) as nat,
            items.last(),
        )
    }
}

/// Where the line of item `i` sits in the summary lines of `items`: it is
/// the item's mark (✅ when done, ⬜ when not), its index in brackets, its
/// name and a line break.
proof fn lemma_item_line_at(items: Seq<ChecklistItemView>, i: int) -> (j: int)
    requires
        0 <= i < items.len(),
    ensures
        ({
            let line = (if items[i].done { "✅"@ } else { "⬜"@ }) + " ["@ + decimal(i as nat) + "] "@ + items[i].task
                + "\n"@;
            &&& 0 <= j
            &&& j + line.len() <= summary_item_lines(items).len()
            &&& summary_item_lines(items).subrange(j, j + line.len()) == line
        }),
    decreases items.len(),
{
    let line = (if items[i].done { "✅"@ } else { "⬜"@ }) + " ["@ + decimal(i as nat) + "] "@ + items[i].task + "\n"@;
    let before = summary_item_lines(items.drop_last());
    if i == items.len() - 1 {
        assert(summary_item_line((items.len() - 1) as nat, items.last()) == line);
        let all = summary_item_lines(items);
        assert(all == before + line);
        assert(all.subrange(before.len() as int, (before.len() + line.len()) as int) =~= line);
        before.len() as int
    } else {
        let j = lemma_item_line_at(items.drop_last(), i);
        assert(items.drop_last()[i] == items[i]);
        let all = summary_item_lines(items);
        assert(all == before + summary_item_line((items.len() - 1) as nat, items.last()));
        assert(all.subrange(j, j + line.len()) =~= before.subrange(j, j + line.len()));
        j
    }
}

/// The checklist summary lists every item on a line of its own: the line
/// of item `i` begins with ✅ when the item is done and with ⬜ when it is
/// not, followed by ` [i] ` and the item's name.
pub proof fn lemma_summary_lists_each_item(t: TaskView, i: int)
    requires
        0 <= i < t.checklist.len(),
    ensures
        occurs_in(
            (if t.checklist[i].done { "✅"@ } else { "⬜"@ }) + " ["@ + decimal(i as nat) + "] "@
                + t.checklist[i].task + "\n"@,
            checklist_summary_text(t),
        ),
{
    let line = (if t.checklist[i].done { "✅"@ } else { "⬜"@ }) + " ["@ + decimal(i as nat) + "] "@
        + t.checklist[i].task + "\n"@;
    let j = lemma_item_line_at(t.checklist, i);
    let head = "任务: "@ + t.task_description + "\n进度: "@ + progress_text(t.checklist) + "\n\n"@;
    let lines = summary_item_lines(t.checklist);
    assert(checklist_summary_text(t) == head + lines);
    let k = head.len() + j;
    assert((head + lines).subrange(k, k + line.len()) =~= lines.subrange(j, j + line.len()));
    assert(checklist_summary_text(t).subrange(k, k + line.len()) == line);
}

/// "done/total" for a checklist.
pub open spec fn progress_text(items: Seq<ChecklistItemView>) -> Seq<char> {
    decimal(done_count(items)) + "/"@ + decimal(items.len())
}

/// The checklist summary of a task: description, progress, then one line per
/// item.
pub open spec fn checklist_summary_text(t: TaskView) -> Seq<char> {
    "任务: "@ + t.task_description + "\n进度: "@ + progress_text(t.checklist) + "\n\n"@
        + summary_item_lines(t.checklist)
}

/// Appends "done/total" for the checklist.
fn append_progress(out: &mut String, items: &Vec<ChecklistItem>)
    ensures
        final(out)@ == old(out)@ + progress_text(items_view(items@)),
{
    let done = count_done(items);
    append_str(out, usize_to_decimal(done).as_str());
    append_str(out, "/");
    append_str(out, usize_to_decimal(items.len()).as_str());
    assert(final(out)@ =~= old(out)@ + progress_text(items_view(items@)));
}

/// The checklist summary of a task (see `checklist_summary_text`).
pub fn get_checklist_summary(task: &Task) -> (r: String)
    ensures
        r@ == checklist_summary_text(task@),
        forall|i: int| 0 <= i < task@.checklist.len() ==> occurs_in(
            (if #[trigger] task@.checklist[i].done { "✅"@ } else { "⬜"@ }) + " ["@ + decimal(i as nat) + "] "@
                + task@.checklist[i].task + "\n"@,
            r@,
        ),
{
    proof {
        assert forall|i: int| 0 <= i < task@.checklist.len() implies occurs_in(
            (if #[trigger] task@.checklist[i].done { "✅"@ } else { "⬜"@ }) + " ["@ + decimal(i as nat) + "] "@
                + task@.checklist[i].task + "\n"@,
            checklist_summary_text(task@),
        ) by {
            lemma_summary_lists_each_item(task@, i);
        }
    }
    let mut out = String::from_str("任务: ");
    append_str(&mut out, task.task_description.as_str());
    append_str(&mut out, "\n进度: ");
    append_progress(&mut out, &task.checklist);
    append_str(&mut out, "\n\n");
    let ghost head = out@;
    let ghost v = items_view(task.checklist@);
    let mut i: usize = 0;
    while i < task.checklist.len()
        invariant
            i <= task.checklist@.len(),
            v == items_view(task.checklist@),
            out@ == head + summary_item_lines(v.take(i as int)),
        decreases task.checklist@.len() - i,
    {
        assert(v.take(i + 1).drop_last() =~= v.take(i as int));
        let item = &task.checklist[i];
        if item.done {
            append_str(&mut out, "✅");
        } else {
            append_str(&mut out, "⬜");
        }
        append_str(&mut out, " [");
        append_str(&mut out, usize_to_decimal(i).as_str());
        append_str(&mut out, "] ");
        append_str(&mut out, item.task.as_str());
        append_str(&mut out, "\n");
        i = i + 1;
        assert(out@ =~= head + summary_item_lines(v.take(i as int)));
    }
    assert(v.take(task.checklist@.len() as int) =~= v);
    assert(out@ =~= checklist_summary_text(task@));
    out
}

/// The text shown when there are no tasks.
pub open spec fn no_tasks_text() -> Seq<char> {
    "当前没有任何任务"@
}

/// One block of the plain task list: ID, description, progress, creation time.
pub open spec fn list_entry_text(t: TaskView) -> Seq<char> {
    "ID: "@ + t.id + "\n任务: "@ + t.task_description + "\n进度: "@ + progress_text(t.checklist)
        + "\n创建时间: "@ + t.created_at + "\n\n"@
}

/// The blocks of all tasks, in order.
pub open spec fn list_entries_text(ts: Seq<TaskView>) -> Seq<char>
    decreases ts.len(),
{
    if ts.len() == 0 {
        Seq::empty()
    } else {
        list_entries_text(ts.drop_last()) + list_entry_text(ts.last())
    }
}

/// The plain summary of all tasks, in the given order.
pub open spec fn tasks_summary_text(ts: Seq<TaskView>) -> Seq<char> {
    if ts.len() == 0 {
        no_tasks_text()
    } else {
        list_entries_text(ts)
    }
}

/// Summarises the tasks (see `tasks_summary_text`).
pub fn list_tasks_summary(tasks: &[Task]) -> (r: String)
    ensures
        r@ == tasks_summary_text(tasks_view(tasks@)),
{
    if tasks.len() == 0 {
        return String::from_str("当前没有任何任务");
    }
    let ghost v = tasks_view(tasks@);
    let mut out = String::new();
    let mut i: usize = 0;
    while i < tasks.len()
        invariant
            i <= tasks@.len(),
            v == tasks_view(tasks@),
            out@ == list_entries_text(v.take(i as int)),
        decreases tasks@.len() - i,
    {
        assert(v.take(i + 1).drop_last() =~= v.take(i as int));
        let t = &tasks[i];
        append_str(&mut out, "ID: ");
        append_str(&mut out, t.id.as_str());
        append_str(&mut out, "\n任务: ");
        append_str(&mut out, t.task_description.as_str());
        append_str(&mut out, "\n进度: ");
        append_progress(&mut out, &t.checklist);
        append_str(&mut out, "\n创建时间: ");
        append_str(&mut out, t.created_at.as_str());
        append_str(&mut out, "\n\n");
        i = i + 1;
        assert(out@ =~= list_entries_text(v.take(i as int)));
    }
    assert(v.take(tasks@.len() as int) =~= v);
    out
}

/// The tasks of `ts` with the given status, in their original order.
pub open spec fn with_status(ts: Seq<TaskView>, st: TaskStatus) -> Seq<TaskView>
    decreases ts.len(),
{
    if ts.len() == 0 {
        Seq::empty()
    } else if status_of(ts.last().checklist) == st {
        with_status(ts.drop_last(), st).push(ts.last())
    } else {
        with_status(ts.drop_last(), st)
    }
}

/// Ordering key of the grouped list: priority weight, then creation time.
pub open spec fn key_le(a: TaskView, b: TaskView) -> bool {
    let ra = rank_of(priority_of(a.metadata));
    let rb = rank_of(priority_of(b.metadata));
    ra < rb || (ra == rb && chars_le(a.created_at, b.created_at))
}

/// Inserts `x` into `s` after every element whose key is not greater than its.
pub open spec fn insert_by_key(s: Seq<TaskView>, x: TaskView) -> Seq<TaskView>
    decreases s.len(),
{
    if s.len() == 0 {
        seq![x]
    } else if key_le(s.last(), x) {
        s.push(x)
    } else {
        insert_by_key(s.drop_last(), x).push(s.last())
    }
}

/// Stable sort of `s` by (priority weight, creation time), as `sort_by_key`.
pub open spec fn sort_by_key(s: Seq<TaskView>) -> Seq<TaskView>
    decreases s.len(),
{
    if s.len() == 0 {
        Seq::empty()
    } else {
        insert_by_key(sort_by_key(s.drop_last()), s.last())
    }
}

/// The three status groups of the grouped list split the tasks: every task
/// falls in exactly one group, so the group sizes add up to the number of
/// tasks, and each group keeps only tasks of its own status.
pub proof fn lemma_status_groups_partition(ts: Seq<TaskView>)
    ensures
        with_status(ts, TaskStatus::InProgress).len() + with_status(ts, TaskStatus::NotStarted).len()
            + with_status(ts, TaskStatus::Completed).len() == ts.len(),
        forall|st: TaskStatus, i: int|
            0 <= i < with_status(ts, st).len() ==> status_of(
                #[trigger] with_status(ts, st)[i].checklist,
            ) == st,
    decreases ts.len(),
{
    if ts.len() > 0 {
        lemma_status_groups_partition(ts.drop_last());
        assert forall|st: TaskStatus, i: int|
            0 <= i < with_status(ts, st).len() implies status_of(
            #[trigger] with_status(ts, st)[i].checklist,
        ) == st by {
            if i < with_status(ts.drop_last(), st).len() {
                assert(with_status(ts, st)[i] == with_status(ts.drop_last(), st)[i]);
            }
        }
    }
}

proof fn lemma_insert_by_key_laws(s: Seq<TaskView>, x: TaskView)
    requires
        forall|i: int, j: int|
            0 <= i < j < s.len() ==> rank_of(priority_of(#[trigger] s[i].metadata)) <= rank_of(
                priority_of(#[trigger] s[j].metadata),
            ),
    ensures
        insert_by_key(s, x).to_multiset() == s.to_multiset().insert(x),
        insert_by_key(s, x).len() == s.len() + 1,
        forall|i: int, j: int|
            0 <= i < j < insert_by_key(s, x).len() ==> rank_of(
                priority_of(#[trigger] insert_by_key(s, x)[i].metadata),
            ) <= rank_of(priority_of(#[trigger] insert_by_key(s, x)[j].metadata)),
        forall|i: int|
            0 <= i < insert_by_key(s, x).len() ==> (#[trigger] insert_by_key(s, x)[i] == x
                || s.contains(insert_by_key(s, x)[i])),
    decreases s.len(),
{
    broadcast use vstd::seq_lib::group_to_multiset_ensures;

    if s.len() == 0 {
        assert(seq![x] =~= Seq::<TaskView>::empty().push(x));
    } else if key_le(s.last(), x) {
    } else {
        let d = s.drop_last();
        assert forall|i: int, j: int|
            0 <= i < j < d.len() implies rank_of(priority_of(#[trigger] d[i].metadata)) <= rank_of(
            priority_of(#[trigger] d[j].metadata),
        ) by {
            assert(d[i] == s[i] && d[j] == s[j]);
        }
        lemma_insert_by_key_laws(d, x);
        assert(s =~= d.push(s.last()));
        let r = insert_by_key(d, x);
        let last = s.last();
        assert forall|i: int| 0 <= i < r.len() implies rank_of(priority_of(#[trigger] r[i].metadata))
            <= rank_of(priority_of(last.metadata)) by {
            if r[i] != x {
                assert(d.contains(r[i]));
                let k = choose|k: int| 0 <= k < d.len() && d[k] == r[i];
                assert(s[k] == d[k]);
                assert(s[s.len() - 1] == last);
            }
        }
        assert forall|i: int|
            0 <= i < insert_by_key(s, x).len() implies (#[trigger] insert_by_key(s, x)[i] == x
            || s.contains(insert_by_key(s, x)[i])) by {
            if i < r.len() {
                assert(insert_by_key(s, x)[i] == r[i]);
                if r[i] != x {
                    let k = choose|k: int| 0 <= k < d.len() && d[k] == r[i];
                    assert(s[k] == d[k]);
                }
            } else {
                assert(s[s.len() - 1] == last);
            }
        }
    }
}

/// Sorting a status group keeps its tasks, each as often as before, and puts
/// them in priority order: high before medium before low before tasks with
/// another priority or none.
pub proof fn lemma_sort_by_key_laws(s: Seq<TaskView>)
    ensures
        sort_by_key(s).to_multiset() == s.to_multiset(),
        sort_by_key(s).len() == s.len(),
        forall|i: int, j: int|
            0 <= i < j < sort_by_key(s).len() ==> rank_of(
                priority_of(#[trigger] sort_by_key(s)[i].metadata),
            ) <= rank_of(priority_of(#[trigger] sort_by_key(s)[j].metadata)),
    decreases s.len(),
{
    broadcast use vstd::seq_lib::group_to_multiset_ensures;

    if s.len() > 0 {
        lemma_sort_by_key_laws(s.drop_last());
        lemma_insert_by_key_laws(sort_by_key(s.drop_last()), s.last());
        assert(s =~= s.drop_last().push(s.last()));
    }
}

/// Every task ID in `ts` can be cut to its 8-byte short form.
pub open spec fn ids_cut(ts: Seq<TaskView>) -> bool {
    forall|i: int| 0 <= i < ts.len() ==> cuts_at(#[trigger] ts[i].id, 8)
}

proof fn lemma_with_status_ids_cut(ts: Seq<TaskView>, st: TaskStatus)
    requires
        ids_cut(ts),
    ensures
        ids_cut(with_status(ts, st)),
    decreases ts.len(),
{
    if ts.len() > 0 {
        lemma_with_status_ids_cut(ts.drop_last(), st);
    }
}

proof fn lemma_insert_ids_cut(s: Seq<TaskView>, x: TaskView)
    requires
        ids_cut(s),
        cuts_at(x.id, 8),
    ensures
        ids_cut(insert_by_key(s, x)),
    decreases s.len(),
{
    if s.len() > 0 && !key_le(s.last(), x) {
        lemma_insert_ids_cut(s.drop_last(), x);
    }
}

proof fn lemma_sort_ids_cut(s: Seq<TaskView>)
    requires
        ids_cut(s),
    ensures
        ids_cut(sort_by_key(s)),
    decreases s.len(),
{
    if s.len() > 0 {
        lemma_sort_ids_cut(s.drop_last());
        lemma_insert_ids_cut(sort_by_key(s.drop_last()), s.last());
    }
}

/// Whether `a`'s key is not greater than `b`'s.
fn key_le_exec(a: &Task, b: &Task) -> (r: bool)
    ensures
        r == key_le(a@, b@),
{
    let ra = priority_rank(a);
    let rb = priority_rank(b);
    ra < rb || (ra == rb && str_le(a.created_at.as_str(), b.created_at.as_str()))
}

/// View of a sequence of task references.
pub open spec fn refs_view(v: Seq<&Task>) -> Seq<TaskView> {
    v.map_values(|t: &Task| t@)
}

fn insert_sorted<'a>(sorted: &mut Vec<&'a Task>, x: &'a Task)
    ensures
        refs_view(final(sorted)@) == insert_by_key(refs_view(old(sorted)@), x@),
{
    let ghost s = refs_view(sorted@);
    let mut j: usize = sorted.len();
    assert(s.take(j as int) =~= s);
    while j > 0 && !key_le_exec(sorted[j - 1], x)
        invariant
            j <= sorted@.len(),
            sorted@ == old(sorted)@,
            s == refs_view(sorted@),
            insert_by_key(s, x@) == insert_by_key(s.take(j as int), x@) + s.skip(j as int),
            forall|k: int| j <= k < s.len() ==> !key_le(#[trigger] s[k], x@),
        decreases j,
    {
        assert(s.take(j as int).drop_last() =~= s.take(j - 1));
        assert(s.take(j as int).last() == s[j - 1]);
        assert(s.skip(j - 1) =~= seq![s[j - 1]] + s.skip(j as int));
        assert(insert_by_key(s.take(j - 1), x@).push(s[j - 1]) + s.skip(j as int) =~= insert_by_key(
            s.take(j - 1),
            x@,
        ) + s.skip(j - 1));
        j = j - 1;
    }
    if j > 0 {
        assert(s.take(j as int).last() == s[j - 1]);
        assert(insert_by_key(s.take(j as int), x@) == s.take(j as int).push(x@));
    } else {
        assert(s.take(0) =~= Seq::<TaskView>::empty());
    }
    sorted.insert(j, x);
    assert(refs_view(sorted@) =~= s.take(j as int).push(x@) + s.skip(j as int));
}

/// Stable sort of task references by (priority weight, creation time).
pub fn sort_tasks_by_key<'a>(v: &Vec<&'a Task>) -> (r: Vec<&'a Task>)
    ensures
        refs_view(r@) == sort_by_key(refs_view(v@)),
{
    let ghost s = refs_view(v@);
    let mut out: Vec<&'a Task> = Vec::new();
    let mut i: usize = 0;
    while i < v.len()
        invariant
            i <= v@.len(),
            s == refs_view(v@),
            refs_view(out@) == sort_by_key(s.take(i as int)),
        decreases v@.len() - i,
    {
        assert(s.take(i + 1).drop_last() =~= s.take(i as int));
        assert(s.take(i + 1).last() == v@[i as int]@);
        insert_sorted(&mut out, v[i]);
        i = i + 1;
    }
    assert(s.take(v@.len() as int) =~= s);
    out
}

/// The tasks with the given status, as references in original order.
fn select_status<'a>(tasks: &'a [Task], st: TaskStatus) -> (r: Vec<&'a Task>)
    ensures
        refs_view(r@) == with_status(tasks_view(tasks@), st),
{
    let ghost v = tasks_view(tasks@);
    let mut out: Vec<&'a Task> = Vec::new();
    let mut i: usize = 0;
    while i < tasks.len()
        invariant
            i <= tasks@.len(),
            v == tasks_view(tasks@),
            refs_view(out@) == with_status(v.take(i as int), st),
        decreases tasks@.len() - i,
    {
        assert(v.take(i + 1).drop_last() =~= v.take(i as int));
        assert(v.take(i + 1).last() == tasks@[i as int]@);
        let ghost prev = out@;
        if derive_task_status(&tasks[i]) == st {
            out.push(&tasks[i]);
            assert(refs_view(out@) =~= refs_view(prev).push(tasks@[i as int]@));
        }
        i = i + 1;
    }
    assert(v.take(tasks@.len() as int) =~= v);
    out
}

/// Priority mark of the grouped list.
pub open spec fn list_icon(p: Option<Seq<char>>) -> Seq<char> {
    if p == Some("high"@) {
        "🔴"@
    } else if p == Some("medium"@) {
        "🟡"@
    } else {
        "⚪"@
    }
}

/// The progress line of an entry of the grouped list.
pub open spec fn meta_line(t: TaskView) -> Seq<char> {
    match priority_of(t.metadata) {
        Some(p) => "   进度: "@ + progress_text(t.checklist) + " · 优先级: "@ + p + "\n"@,
        None => "   进度: "@ + progress_text(t.checklist) + "\n"@,
    }
}

/// An entry of the grouped list: mark, short ID, description, progress line.
pub open spec fn entry_text(t: TaskView, icon: Seq<char>) -> Seq<char> {
    icon + " ["@ + short_id_of(t.id) + "] "@ + t.task_description + "\n"@ + meta_line(t)
}

/// The mark an entry shows: a check for completed tasks, else its priority's.
pub open spec fn entry_icon(t: TaskView, completed: bool) -> Seq<char> {
    if completed {
        "✅"@
    } else {
        list_icon(priority_of(t.metadata))
    }
}

/// The entries of a group, in order.
pub open spec fn entries_text(ts: Seq<TaskView>, completed: bool) -> Seq<char>
    decreases ts.len(),
{
    if ts.len() == 0 {
        Seq::empty()
    } else {
        entries_text(ts.drop_last(), completed) + entry_text(ts.last(), entry_icon(ts.last(), completed))
    }
}

/// How many entries of a group are shown: at most 3 when the whole list has
/// more than 10 tasks, all of them otherwise.
pub open spec fn shown_count(total: nat, len: nat, truncatable: bool) -> nat {
    if truncatable && total > 10 && len > 3 {
        3
    } else {
        len
    }
}

/// A group of the grouped list: heading with count, shown entries, a note of
/// how many were left out, and (except for the last group) a blank line.
pub open spec fn section_text(
    title: Seq<char>,
    g: Seq<TaskView>,
    total: nat,
    truncatable: bool,
    completed: bool,
    trailing_blank: bool,
    hidden_label: Seq<char>,
) -> Seq<char> {
    if g.len() == 0 {
        Seq::empty()
    } else {
        let shown = shown_count(total, g.len(), truncatable);
        "## "@ + title + " ("@ + decimal(g.len()) + ")\n\n"@ + entries_text(g.take(shown as int), completed)
            + (if shown < g.len() {
            "... 还有 "@ + decimal((g.len() - shown) as nat) + " 个"@ + hidden_label + "的任务未展示\n"@
        } else {
            Seq::empty()
        }) + (if trailing_blank {
            "\n"@
        } else {
            Seq::empty()
        })
    }
}

/// `s` with trailing newlines removed until it no longer ends in two of them.
pub open spec fn strip_blank_tail(s: Seq<char>) -> Seq<char>
    decreases s.len(),
{
    if s.len() >= 2 && s[s.len() - 1] == '\n' && s[s.len() - 2] == '\n' {
        strip_blank_tail(s.drop_last())
    } else {
        s
    }
}

/// The grouped task list: in-progress, not-started and completed groups, each
/// sorted by priority weight then creation time; when there are more than 10
/// tasks the not-started and completed groups show at most 3 entries.
pub open spec fn smart_list_text(ts: Seq<TaskView>) -> Seq<char> {
    if ts.len() == 0 {
        no_tasks_text()
    } else {
        let ip = sort_by_key(with_status(ts, TaskStatus::InProgress));
        let ns = sort_by_key(with_status(ts, TaskStatus::NotStarted));
        let cp = sort_by_key(with_status(ts, TaskStatus::Completed));
        strip_blank_tail(
            section_text("进行中"@, ip, ts.len(), false, false, true, "进行中"@) + section_text(
                "未开始"@,
                ns,
                ts.len(),
                true,
                false,
                true,
                "未开始"@,
            ) + section_text("已完成"@, cp, ts.len(), true, true, false, "已完成"@),
        )
    }
}

/// Trimming blank lines off the end only touches the last part of a text
/// when that part holds something besides line breaks.
proof fn lemma_strip_append(p: Seq<char>, q: Seq<char>)
    requires
        exists|k: int| 0 <= k < q.len() && q[k] != '\n',
    ensures
        strip_blank_tail(p + q) == p + strip_blank_tail(q),
    decreases q.len(),
{
    let s = p + q;
    if q.len() >= 2 && q[q.len() - 1] == '\n' && q[q.len() - 2] == '\n' {
        assert(s[s.len() - 1] == '\n' && s[s.len() - 2] == '\n');
        assert(s.drop_last() =~= p + q.drop_last());
        let k = choose|k: int| 0 <= k < q.len() && q[k] != '\n';
        assert(q.drop_last()[k] == q[k]);
        lemma_strip_append(p, q.drop_last());
    } else if q.len() >= 2 {
        assert(s[s.len() - 1] == q[q.len() - 1] && s[s.len() - 2] == q[q.len() - 2]);
    } else {
        assert(q.len() == 1);
        assert(s[s.len() - 1] == q[0]);
    }
}

/// The heading and the full entries of the in-progress group.
pub open spec fn in_progress_block(ts: Seq<TaskView>) -> Seq<char> {
    let ip = sort_by_key(with_status(ts, TaskStatus::InProgress));
    "## "@ + "进行中"@ + " ("@ + decimal(ip.len()) + ")\n\n"@ + entries_text(ip, false)
}

/// The in-progress group of the grouped list is never cut short: whenever
/// some task is in progress, the list opens with the heading counting all
/// in-progress tasks followed by the entry of every one of them (sorted by
/// priority), however many tasks there are. When other groups follow, that
/// block is followed by a blank line; when every task is in progress, it is
/// the whole list (with trailing blank lines trimmed).
pub proof fn lemma_in_progress_group_complete(ts: Seq<TaskView>)
    requires
        with_status(ts, TaskStatus::InProgress).len() > 0,
    ensures
        with_status(ts, TaskStatus::NotStarted).len() + with_status(ts, TaskStatus::Completed).len() > 0
            ==> is_prefix_of_text(in_progress_block(ts) + "\n"@, smart_list_text(ts)),
        with_status(ts, TaskStatus::NotStarted).len() + with_status(ts, TaskStatus::Completed).len() == 0
            ==> smart_list_text(ts) == strip_blank_tail(in_progress_block(ts) + "\n"@),
{
    lemma_status_groups_partition(ts);
    let ip = sort_by_key(with_status(ts, TaskStatus::InProgress));
    let ns = sort_by_key(with_status(ts, TaskStatus::NotStarted));
    let cp = sort_by_key(with_status(ts, TaskStatus::Completed));
    lemma_sort_by_key_laws(with_status(ts, TaskStatus::InProgress));
    lemma_sort_by_key_laws(with_status(ts, TaskStatus::NotStarted));
    lemma_sort_by_key_laws(with_status(ts, TaskStatus::Completed));
    let a = section_text("进行中"@, ip, ts.len(), false, false, true, "进行中"@);
    let b = section_text("未开始"@, ns, ts.len(), true, false, true, "未开始"@);
    let c = section_text("已完成"@, cp, ts.len(), true, true, false, "已完成"@);
    assert(ip.take(ip.len() as int) =~= ip);
    assert(shown_count(ts.len(), ip.len(), false) == ip.len());
    assert(a =~= in_progress_block(ts) + "\n"@);
    assert(smart_list_text(ts) == strip_blank_tail(a + b + c));
    if ns.len() + cp.len() > 0 {
        reveal_strlit("## ");
        let rest = b + c;
        if ns.len() > 0 {
            assert(rest[0] == '#');
        } else {
            assert(b =~= Seq::<char>::empty());
            assert(rest =~= c);
            assert(rest[0] == '#');
        }
        assert(a + b + c =~= a + rest);
        lemma_strip_append(a, rest);
        assert((a + strip_blank_tail(rest)).take(a.len() as int) =~= a);
    } else {
        assert(b =~= Seq::<char>::empty());
        assert(c =~= Seq::<char>::empty());
        assert(a + b + c =~= a);
    }
}

/// Whether `p` begins `s`.
pub open spec fn is_prefix_of_text(p: Seq<char>, s: Seq<char>) -> bool {
    p.len() <= s.len() && s.take(p.len() as int) == p
}

/// Appends one entry of the grouped list.
fn append_entry(out: &mut String, t: &Task, completed: bool)
    requires
        cuts_at(t@.id, 8),
    ensures
        final(out)@ == old(out)@ + entry_text(t@, entry_icon(t@, completed)),
{
    proof {
        reveal_strlit("high");
        reveal_strlit("medium");
    }
    if completed {
        append_str(out, "✅");
    } else {
        match task_priority(t) {
            Some(p) => {
                if str_eq(p.as_str(), "high") {
                    append_str(out, "🔴");
                } else if str_eq(p.as_str(), "medium") {
                    append_str(out, "🟡");
                } else {
                    append_str(out, "⚪");
                }
            },
            None => {
                append_str(out, "⚪");
            },
        }
    }
    append_str(out, " [");
    append_str(out, short_id(t.id.as_str()).as_str());
    append_str(out, "] ");
    append_str(out, t.task_description.as_str());
    append_str(out, "\n");
    append_str(out, "   进度: ");
    append_progress(out, &t.checklist);
    match task_priority(t) {
        Some(p) => {
            append_str(out, " · 优先级: ");
            append_str(out, p.as_str());
            append_str(out, "\n");
        },
        None => {
            append_str(out, "\n");
        },
    }
    assert(final(out)@ =~= old(out)@ + entry_text(t@, entry_icon(t@, completed)));
}

/// Appends one group of the grouped list (see `section_text`).
#[verifier::rlimit(40)]
fn append_section(
    out: &mut String,
    title: &str,
    g: &Vec<&Task>,
    total: usize,
    truncatable: bool,
    completed: bool,
    trailing_blank: bool,
    hidden_label: &str,
)
    requires
        ids_cut(refs_view(g@)),
    ensures
        final(out)@ == old(out)@ + section_text(
            title@,
            refs_view(g@),
            total as nat,
            truncatable,
            completed,
            trailing_blank,
            hidden_label@,
        ),
{
    if g.len() == 0 {
        assert(final(out)@ =~= old(out)@ + Seq::<char>::empty());
        return;
    }
    let ghost gv = refs_view(g@);
    let shown = if truncatable && total > 10 && g.len() > 3 {
        3
    } else {
        g.len()
    };
    append_str(out, "## ");
    append_str(out, title);
    append_str(out, " (");
    append_str(out, usize_to_decimal(g.len()).as_str());
    append_str(out, ")\n\n");
    let ghost head = out@;
    assert(head =~= old(out)@ + ("## "@ + title@ + " ("@ + decimal(g@.len()) + ")\n\n"@));
    let mut i: usize = 0;
    while i < shown
        invariant
            i <= shown <= g@.len(),
            gv == refs_view(g@),
            ids_cut(gv),
            out@ == head + entries_text(gv.take(i as int), completed),
        decreases shown - i,
    {
        assert(gv.take(i + 1).drop_last() =~= gv.take(i as int));
        assert(gv.take(i + 1).last() == g@[i as int]@);
        assert(cuts_at(gv[i as int].id, 8));
        append_entry(out, g[i], completed);
        i = i + 1;
    }
    let ghost mid = out@;
    let ghost hidden = if shown < g.len() {
        "... 还有 "@ + decimal((g@.len() - shown) as nat) + " 个"@ + hidden_label@ + "的任务未展示\n"@
    } else {
        Seq::<char>::empty()
    };
    if shown < g.len() {
        append_str(out, "... 还有 ");
        append_str(out, usize_to_decimal(g.len() - shown).as_str());
        append_str(out, " 个");
        append_str(out, hidden_label);
        append_str(out, "的任务未展示\n");
    }
    let ghost mid2 = out@;
    assert(mid2 =~= mid + hidden);
    if trailing_blank {
        append_str(out, "\n");
    }
    assert(shown == shown_count(total as nat, g@.len(), truncatable));
    assert(final(out)@ =~= old(out)@ + section_text(
        title@,
        gv,
        total as nat,
        truncatable,
        completed,
        trailing_blank,
        hidden_label@,
    ));
}

/// Removes trailing newlines until the text no longer ends in two of them.
fn strip_blank_tail_exec(s: String) -> (r: String)
    ensures
        r@ == strip_blank_tail(s@),
{
    let v = crate::text::chars_of(s.as_str());
    let mut n: usize = v.len();
    assert(v@.take(n as int) =~= v@);
    while n >= 2 && v[n - 1] == '\n' && v[n - 2] == '\n'
        invariant
            n <= v@.len(),
            v@ == s@,
            strip_blank_tail(s@) == strip_blank_tail(v@.take(n as int)),
        decreases n,
    {
        assert(v@.take(n as int).drop_last() =~= v@.take(n - 1));
        n = n - 1;
    }
    let part = crate::text::slice_chars(&v, 0, n);
    assert(part@ =~= v@.take(n as int));
    crate::text::string_from_chars(part.as_slice())
}

/// Formats the grouped task list (see `smart_list_text`).
pub fn format_task_list_smart(tasks: &[Task]) -> (r: String)
    requires
        ids_cut(tasks_view(tasks@)),
    ensures
        r@ == smart_list_text(tasks_view(tasks@)),
        ({
            let ts = tasks_view(tasks@);
            &&& with_status(ts, TaskStatus::InProgress).len() > 0 && with_status(ts, TaskStatus::NotStarted).len()
                + with_status(ts, TaskStatus::Completed).len() > 0 ==> is_prefix_of_text(
                in_progress_block(ts) + "\n"@,
                r@,
            )
            &&& with_status(ts, TaskStatus::InProgress).len() > 0 && with_status(ts, TaskStatus::NotStarted).len()
                + with_status(ts, TaskStatus::Completed).len() == 0 ==> r@ == strip_blank_tail(
                in_progress_block(ts) + "\n"@,
            )
        }),
{
    proof {
        if with_status(tasks_view(tasks@), TaskStatus::InProgress).len() > 0 {
            lemma_in_progress_group_complete(tasks_view(tasks@));
        }
    }
    if tasks.len() == 0 {
        return String::from_str("当前没有任何任务");
    }
    let in_progress = sort_tasks_by_key(&select_status(tasks, TaskStatus::InProgress));
    let not_started = sort_tasks_by_key(&select_status(tasks, TaskStatus::NotStarted));
    let completed = sort_tasks_by_key(&select_status(tasks, TaskStatus::Completed));
    let total = tasks.len();
    proof {
        let v = tasks_view(tasks@);
        lemma_with_status_ids_cut(v, TaskStatus::InProgress);
        lemma_with_status_ids_cut(v, TaskStatus::NotStarted);
        lemma_with_status_ids_cut(v, TaskStatus::Completed);
        lemma_sort_ids_cut(with_status(v, TaskStatus::InProgress));
        lemma_sort_ids_cut(with_status(v, TaskStatus::NotStarted));
        lemma_sort_ids_cut(with_status(v, TaskStatus::Completed));
    }
    let mut out = String::new();
    append_section(&mut out, "进行中", &in_progress, total, false, false, true, "进行中");
    append_section(&mut out, "未开始", &not_started, total, true, false, true, "未开始");
    append_section(&mut out, "已完成", &completed, total, true, true, false, "已完成");
    assert(out@ =~= section_text(
        "进行中"@,
        refs_view(in_progress@),
        total as nat,
        false,
        false,
        true,
        "进行中"@,
    ) + section_text("未开始"@, refs_view(not_started@), total as nat, true, false, true, "未开始"@)
        + section_text("已完成"@, refs_view(completed@), total as nat, true, true, false, "已完成"@));
    strip_blank_tail_exec(out)
}

/// Whether every task ID cuts at 8 bytes (see `ids_cut`).
pub fn ids_fit(tasks: &[Task]) -> (r: bool)
    ensures
        r == ids_cut(tasks_view(tasks@)),
{
    let ghost v = tasks_view(tasks@);
    let mut i: usize = 0;
    while i < tasks.len()
        invariant
            i <= tasks@.len(),
            v == tasks_view(tasks@),
            forall|k: int| 0 <= k < i ==> cuts_at(#[trigger] v[k].id, 8),
        decreases tasks@.len() - i,
    {
        if !crate::logic::resolve::can_cut(tasks[i].id.as_str(), 8) {
            assert(!cuts_at(v[i as int].id, 8));
            return false;
        }
        i = i + 1;
    }
    true
}

/// Metadata after a partial edit: the existing metadata (or none) with the
/// given priority and estimated time replacing the old ones and the given
/// comma-separated tags parsed into the tag list.
pub open spec fn merged_metadata(
    existing: Option<TaskMetadataView>,
    priority: Option<Seq<char>>,
    tags: Option<Seq<char>>,
    eta: Option<Seq<char>>,
) -> TaskMetadataView {
    let base = match existing {
        Some(m) => m,
        None => TaskMetadataView { tags: None, priority: None, estimated_completion_time: None },
    };
    TaskMetadataView {
        tags: match tags {
            Some(t) => Some(crate::text::parse_tag_list(t)),
            None => base.tags,
        },
        priority: match priority {
            Some(p) => Some(p),
            None => base.priority,
        },
        estimated_completion_time: match eta {
            Some(e) => Some(e),
            None => base.estimated_completion_time,
        },
    }
}

/// Merging in no new field keeps existing metadata as it was, and a field
/// that is given wins over the one already there.
pub proof fn lemma_merge_metadata_laws(
    m: TaskMetadataView,
    priority: Seq<char>,
    tags: Seq<char>,
    eta: Seq<char>,
)
    ensures
        merged_metadata(Some(m), None, None, None) == m,
        merged_metadata(Some(m), Some(priority), None, None) == (TaskMetadataView {
            priority: Some(priority),
            ..m
        }),
        merged_metadata(Some(m), None, None, Some(eta)) == (TaskMetadataView {
            estimated_completion_time: Some(eta),
            ..m
        }),
        merged_metadata(Some(m), None, Some(tags), None) == (TaskMetadataView {
            tags: Some(crate::text::parse_tag_list(tags)),
            ..m
        }),
{
}

/// The task's metadata after a partial edit (see `merged_metadata`).
pub fn merge_metadata(
    existing: &Option<TaskMetadata>,
    priority: Option<&str>,
    tags: Option<&str>,
    eta: Option<&str>,
) -> (r: TaskMetadata)
    ensures
        r@ == merged_metadata(meta_view(*existing), opt_str_view(priority), opt_str_view(tags), opt_str_view(eta)),
{
    let mut m = match existing {
        Some(m) => m.copy(),
        None => TaskMetadata { tags: None, priority: None, estimated_completion_time: None },
    };
    if let Some(p) = priority {
        m.priority = Some(p.to_owned());
    }
    if let Some(t) = tags {
        m.tags = Some(crate::text::parse_tags(t));
    }
    if let Some(e) = eta {
        m.estimated_completion_time = Some(e.to_owned());
    }
    m
}

} // verus!
