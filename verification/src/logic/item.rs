//! Checklist operations: add, update, remove, reorder, mark done / undone.

use vstd::prelude::*;

use crate::error::StoreError;
use crate::ids::{is_uuid_format, new_uuid};
use crate::models::{ChecklistItem, ChecklistItemView, Task, TaskView, items_view, opt_str_view, opt_view};
use crate::text::{append_str, decimal, usize_to_decimal};

verus! {

/// `t` with its checklist replaced by `c`.
pub open spec fn with_checklist(t: TaskView, c: Seq<ChecklistItemView>) -> TaskView {
    TaskView { checklist: c, ..t }
}

/// An item after an update in which each given field replaces the old one.
pub open spec fn updated_item(
    it: ChecklistItemView,
    task_name: Option<Seq<char>>,
    detailed_description: Option<Seq<char>>,
    context_and_plan: Option<Option<Seq<char>>>,
    done: Option<bool>,
) -> ChecklistItemView {
    ChecklistItemView {
        id: it.id,
        task: match task_name {
            Some(n) => n,
            None => it.task,
        },
        detailed_description: match detailed_description {
            Some(d) => d,
            None => it.detailed_description,
        },
        context_and_plan: match context_and_plan {
            Some(c) => c,
            None => it.context_and_plan,
        },
        done: match done {
            Some(d) => d,
            None => it.done,
        },
    }
}

/// The checklist after moving the item at `from` to position `to`: the item
/// is removed, then inserted at `to`, or at the end when `to` is past it.
pub open spec fn reordered<A>(s: Seq<A>, from: int, to: int) -> Seq<A> {
    let rest = s.remove(from);
    let at = if to < rest.len() { to } else { rest.len() as int };
    rest.insert(at, s[from])
}

/// `t` with the `done` flag of its item at `i` set to `value`.
pub open spec fn with_item_done(t: TaskView, i: int, value: bool) -> TaskView {
    with_checklist(t, t.checklist.update(i, ChecklistItemView { done: value, ..t.checklist[i] }))
}

/// Marking an item done and then undone (or undone and then done) gives back
/// the task as it was, provided the item had the first state to begin with;
/// and marking it twice in the same way changes nothing more than once does.
pub proof fn lemma_done_undone_restores(t: TaskView, i: int, value: bool)
    requires
        0 <= i < t.checklist.len(),
        t.checklist[i].done == value,
    ensures
        with_item_done(with_item_done(t, i, !value), i, value) == t,
        with_item_done(t, i, value) == t,
        with_item_done(with_item_done(t, i, !value), i, !value) == with_item_done(t, i, !value),
{
    assert(with_item_done(with_item_done(t, i, !value), i, value).checklist =~= t.checklist);
    assert(with_item_done(t, i, value).checklist =~= t.checklist);
    assert(with_item_done(with_item_done(t, i, !value), i, !value).checklist =~= with_item_done(
        t,
        i,
        !value,
    ).checklist);
}

/// An update that gives no field leaves the item as it was.
pub proof fn lemma_empty_update_keeps_item(it: ChecklistItemView)
    ensures
        updated_item(it, None, None, None, None) == it,
{
}

/// An update sets each field it gives and keeps each it does not: the name,
/// the description, the plan and the done flag become the given ones, the
/// others and the item's ID stay as they were.
pub proof fn lemma_update_sets_given_fields(
    it: ChecklistItemView,
    task_name: Option<Seq<char>>,
    detailed_description: Option<Seq<char>>,
    context_and_plan: Option<Option<Seq<char>>>,
    done: Option<bool>,
)
    ensures
        ({
            let u = updated_item(it, task_name, detailed_description, context_and_plan, done);
            &&& u.id == it.id
            &&& (task_name matches Some(n) ==> u.task == n)
            &&& (task_name is None ==> u.task == it.task)
            &&& (detailed_description matches Some(d) ==> u.detailed_description == d)
            &&& (detailed_description is None ==> u.detailed_description == it.detailed_description)
            &&& (context_and_plan matches Some(c) ==> u.context_and_plan == c)
            &&& (context_and_plan is None ==> u.context_and_plan == it.context_and_plan)
            &&& (done matches Some(d) ==> u.done == d)
            &&& (done is None ==> u.done == it.done)
        }),
{
}

/// Removing the item that was just added gives back the task as it was
/// before the addition.
pub proof fn lemma_add_then_remove_item(t: TaskView, it: ChecklistItemView)
    ensures
        ({
            let t2 = with_checklist(t, t.checklist.push(it));
            with_checklist(t2, t2.checklist.remove(t.checklist.len() as int)) == t
        }),
{
    assert(t.checklist.push(it).remove(t.checklist.len() as int) =~= t.checklist);
}

/// Moving an item keeps the checklist's items, each as often as before; the
/// moved item lands at the target position (or last, when the target is the
/// end); and moving it back from there restores the original order.
pub proof fn lemma_reorder_laws<A>(s: Seq<A>, from: int, to: int)
    requires
        0 <= from < s.len(),
        0 <= to <= s.len(),
    ensures
        reordered(s, from, to).len() == s.len(),
        reordered(s, from, to).to_multiset() == s.to_multiset(),
        reordered(s, from, to)[if to < s.len() { to } else { s.len() - 1 }] == s[from],
        reordered(reordered(s, from, to), if to < s.len() { to } else { s.len() - 1 }, from)
            == s,
{
    broadcast use vstd::seq_lib::group_to_multiset_ensures;
    broadcast use vstd::multiset::group_multiset_axioms;

    let rest = s.remove(from);
    let at = if to < rest.len() { to } else { rest.len() as int };
    let r = rest.insert(at, s[from]);
    assert(r.to_multiset() =~= s.to_multiset()) by {
        assert(s.to_multiset().count(s[from]) > 0) by {
            assert(s.contains(s[from]));
        }
    }
    let back = if to < s.len() { to } else { s.len() - 1 };
    assert(at == back);
    assert(r.remove(back) =~= rest);
    let at2 = if from < rest.len() { from } else { rest.len() as int };
    assert(at2 == from);
    assert(rest.insert(from, s[from]) =~= s);
}

pub open spec fn item_index_message(i: nat) -> Seq<char> {
    "清单条目索引越界: "@ + decimal(i)
}

/// The `NotFound` error for an item index past the end of the checklist.
fn item_index_error(i: usize) -> (e: StoreError)
    ensures
        e is NotFound && e->NotFound_0@ == item_index_message(i as nat),
{
    let mut s = String::from_str("清单条目索引越界: ");
    append_str(&mut s, usize_to_decimal(i).as_str());
    StoreError::NotFound(s)
}

/// An owned copy of an optional string slice.
pub fn opt_string(o: Option<&str>) -> (r: Option<String>)
    ensures
        opt_view(r) == opt_str_view(o),
{
    match o {
        Some(s) => Some(s.to_owned()),
        None => None,
    }
}

/// Appends a new, not yet done item with a fresh UUID to the checklist.
pub fn add_checklist_item(
    task: &mut Task,
    task_name: &str,
    detailed_description: &str,
    context_and_plan: Option<&str>,
)
    ensures
        final(task)@.checklist.len() == old(task)@.checklist.len() + 1,
        final(task)@ == with_checklist(
            old(task)@,
            old(task)@.checklist.push(
                ChecklistItemView {
                    id: final(task)@.checklist.last().id,
                    task: task_name@,
                    detailed_description: detailed_description@,
                    context_and_plan: opt_str_view(context_and_plan),
                    done: false,
                },
            ),
        ),
        is_uuid_format(final(task)@.checklist.last().id),
{
    let item = ChecklistItem {
        id: new_uuid(),
        task: task_name.to_owned(),
        detailed_description: detailed_description.to_owned(),
        context_and_plan: opt_string(context_and_plan),
        done: false,
    };
    task.checklist.push(item);
    assert(final(task)@.checklist =~= old(task)@.checklist.push(item@));
}

/// Updates the fields of the item at `item_index` that are given; the others
/// keep their values. `context_and_plan` distinguishes "leave unchanged"
/// (`None`) from "clear" (`Some(None)`). Fails with `NotFound` when the index
/// is past the end, leaving the task unchanged.
pub fn update_checklist_item(
    task: &mut Task,
    item_index: usize,
    task_name: Option<&str>,
    detailed_description: Option<&str>,
    context_and_plan: Option<Option<&str>>,
    done: Option<bool>,
) -> (r: Result<(), StoreError>)
    ensures
        item_index >= old(task)@.checklist.len() <==> r is Err,
        r is Err ==> final(task)@ == old(task)@,
        r is Err ==> r->Err_0 is NotFound && r->Err_0->NotFound_0@ == item_index_message(
            item_index as nat,
        ),
        r is Ok ==> final(task)@ == with_checklist(
            old(task)@,
            old(task)@.checklist.update(
                item_index as int,
                updated_item(
                    old(task)@.checklist[item_index as int],
                    opt_str_view(task_name),
                    opt_str_view(detailed_description),
                    match context_and_plan {
                        Some(c) => Some(opt_str_view(c)),
                        None => None,
                    },
                    done,
                ),
            ),
        ),
        r is Ok ==> final(task)@.checklist.len() == old(task)@.checklist.len(),
        r is Ok ==> final(task)@.checklist[item_index as int].id == old(task)@.checklist[item_index as int].id,
        r is Ok && task_name is Some ==> final(task)@.checklist[item_index as int].task == task_name->Some_0@,
        r is Ok && detailed_description is Some ==> final(task)@.checklist[item_index as int].detailed_description
            == detailed_description->Some_0@,
        r is Ok && detailed_description is None ==> final(task)@.checklist[item_index as int].detailed_description
            == old(task)@.checklist[item_index as int].detailed_description,
        r is Ok && done is Some ==> final(task)@.checklist[item_index as int].done == done->Some_0,
        r is Ok ==> forall|j: int| 0 <= j < old(task)@.checklist.len() && j != item_index ==> #[trigger] final(task)@.checklist[j]
            == old(task)@.checklist[j],
{
    if item_index >= task.checklist.len() {
        return Err(item_index_error(item_index));
    }
    let mut item = task.checklist.remove(item_index);
    let ghost before = item@;
    if let Some(name) = task_name {
        item.task = name.to_owned();
    }
    if let Some(desc) = detailed_description {
        item.detailed_description = desc.to_owned();
    }
    if let Some(cap) = context_and_plan {
        item.context_and_plan = opt_string(cap);
    }
    if let Some(d) = done {
        item.done = d;
    }
    task.checklist.insert(item_index, item);
    assert(final(task)@.checklist =~= old(task)@.checklist.update(
        item_index as int,
        item@,
    ));
    Ok(())
}

/// Sets the `done` flag of the item at `item_index`.
fn set_item_done(task: &mut Task, item_index: usize, value: bool) -> (r: Result<(), StoreError>)
    ensures
        item_index >= old(task)@.checklist.len() <==> r is Err,
        r is Err ==> final(task)@ == old(task)@,
        r is Err ==> r->Err_0 is NotFound && r->Err_0->NotFound_0@ == item_index_message(
            item_index as nat,
        ),
        r is Ok ==> final(task)@ == with_item_done(old(task)@, item_index as int, value),
{
    if item_index >= task.checklist.len() {
        return Err(item_index_error(item_index));
    }
    let mut item = task.checklist.remove(item_index);
    item.done = value;
    task.checklist.insert(item_index, item);
    assert(final(task)@.checklist =~= old(task)@.checklist.update(item_index as int, item@));
    Ok(())
}

/// Marks the item at `item_index` as done.
pub fn mark_task_done(task: &mut Task, item_index: usize) -> (r: Result<(), StoreError>)
    ensures
        item_index >= old(task)@.checklist.len() <==> r is Err,
        r is Err ==> final(task)@ == old(task)@,
        r is Err ==> r->Err_0 is NotFound && r->Err_0->NotFound_0@ == item_index_message(
            item_index as nat,
        ),
        r is Ok ==> final(task)@ == with_item_done(old(task)@, item_index as int, true),
{
    set_item_done(task, item_index, true)
}

/// Marks the item at `item_index` as not done.
pub fn mark_task_undone(task: &mut Task, item_index: usize) -> (r: Result<(), StoreError>)
    ensures
        item_index >= old(task)@.checklist.len() <==> r is Err,
        r is Err ==> final(task)@ == old(task)@,
        r is Err ==> r->Err_0 is NotFound && r->Err_0->NotFound_0@ == item_index_message(
            item_index as nat,
        ),
        r is Ok ==> final(task)@ == with_item_done(old(task)@, item_index as int, false),
{
    set_item_done(task, item_index, false)
}

/// Removes the item at `item_index`; later items move up by one.
pub fn remove_checklist_item(task: &mut Task, item_index: usize) -> (r: Result<(), StoreError>)
    ensures
        item_index >= old(task)@.checklist.len() <==> r is Err,
        r is Err ==> final(task)@ == old(task)@,
        r is Err ==> r->Err_0 is NotFound && r->Err_0->NotFound_0@ == item_index_message(
            item_index as nat,
        ),
        r is Ok ==> final(task)@ == with_checklist(
            old(task)@,
            old(task)@.checklist.remove(item_index as int),
        ),
{
    if item_index >= task.checklist.len() {
        return Err(item_index_error(item_index));
    }
    let _removed = task.checklist.remove(item_index);
    assert(final(task)@.checklist =~= old(task)@.checklist.remove(item_index as int));
    Ok(())
}

/// The message of an out-of-range source index of a move.
pub open spec fn from_index_message(i: nat) -> Seq<char> {
    "源索引越界: "@ + decimal(i)
}

/// The message of an out-of-range target index of a move.
pub open spec fn to_index_message(i: nat) -> Seq<char> {
    "目标索引越界: "@ + decimal(i)
}

/// Moves the item at `from_index` to `to_index`. `to_index` may equal the
/// checklist's length (move to the end) but not exceed it. The source index is
/// checked first.
pub fn reorder_checklist_item(task: &mut Task, from_index: usize, to_index: usize) -> (r: Result<
    (),
    StoreError,
>)
    ensures
        r is Err <==> (from_index >= old(task)@.checklist.len() || to_index > old(
            task,
        )@.checklist.len()),
        r is Err ==> final(task)@ == old(task)@,
        r is Err ==> r->Err_0 is NotFound,
        from_index >= old(task)@.checklist.len() ==> r->Err_0->NotFound_0@ == from_index_message(
            from_index as nat,
        ),
        from_index < old(task)@.checklist.len() && to_index > old(task)@.checklist.len()
            ==> r->Err_0->NotFound_0@ == to_index_message(to_index as nat),
        r is Ok ==> final(task)@ == with_checklist(
            old(task)@,
            reordered(old(task)@.checklist, from_index as int, to_index as int),
        ),
{
    if from_index >= task.checklist.len() {
        let mut s = String::from_str("源索引越界: ");
        append_str(&mut s, usize_to_decimal(from_index).as_str());
        return Err(StoreError::NotFound(s));
    }
    if to_index > task.checklist.len() {
        let mut s = String::from_str("目标索引越界: ");
        append_str(&mut s, usize_to_decimal(to_index).as_str());
        return Err(StoreError::NotFound(s));
    }
    let ghost old_items = task.checklist@;
    let item = task.checklist.remove(from_index);
    let insert_at = if to_index < task.checklist.len() {
        to_index
    } else {
        task.checklist.len()
    };
    task.checklist.insert(insert_at, item);
    assert(items_view(old_items.remove(from_index as int)) =~= items_view(
        old_items,
    ).remove(from_index as int));
    assert(final(task)@.checklist =~= reordered(
        old(task)@.checklist,
        from_index as int,
        to_index as int,
    ));
    Ok(())
}

} // verus!
