//! Checklist item commands: new, edit, check, mv, rm, summary.

use vstd::prelude::*;

use crate::cli::error::CliError;
use crate::cli::task::{lookup_task, picked, task_lookup_failed};
use crate::logic::item::{
    add_checklist_item, from_index_message, item_index_message, mark_task_done, mark_task_undone,
    remove_checklist_item, reorder_checklist_item, reordered, to_index_message,
    update_checklist_item, updated_item, with_checklist,
};
use crate::logic::resolve::{task_resolves};
use crate::logic::task::{checklist_summary_text, get_checklist_summary, touch};
use crate::models::{ChecklistItemView, Task, TaskView, opt_view, tasks_view};
use crate::text::{append_str, decimal, usize_to_decimal};
use crate::error::StoreError;
use crate::ids::is_uuid_format;

verus! {

/// Item subcommands.
#[derive(Debug, Clone)]
pub enum ItemCommands {
    /// Add an item.
    New(ItemNewArgs),
    /// Edit an item.
    Edit(ItemEditArgs),
    /// Toggle an item's done flag.
    Check(CheckArgs),
    /// Move an item.
    Mv(MvArgs),
    /// Delete an item.
    Rm(ItemRmArgs),
    /// Show the progress summary.
    Summary(SummaryArgs),
}

/// Arguments of `item new`.
#[derive(Debug, Clone)]
pub struct ItemNewArgs {
    /// Task (an ID or ID prefix).
    pub task_id: String,
    /// Item name.
    pub title: String,
    /// Item description (empty by default).
    pub description: String,
    /// Context and plan.
    pub plan: Option<String>,
}

/// Arguments of `item edit`.
#[derive(Debug, Clone)]
pub struct ItemEditArgs {
    /// Task (an ID or ID prefix).
    pub task_id: String,
    /// Item index (from 0).
    pub index: usize,
    /// New name.
    pub title: Option<String>,
    /// New description.
    pub description: Option<String>,
    /// New plan.
    pub plan: Option<String>,
    /// Mark done.
    pub done: bool,
    /// Mark not done.
    pub undone: bool,
}

/// Arguments of `item check`.
#[derive(Debug, Clone)]
pub struct CheckArgs {
    /// Task (an ID or ID prefix).
    pub task_id: String,
    /// Item index (from 0).
    pub index: usize,
}

/// Arguments of `item mv`.
#[derive(Debug, Clone)]
pub struct MvArgs {
    /// Task (an ID or ID prefix).
    pub task_id: String,
    /// Index to move from.
    pub from: usize,
    /// Index to move to.
    pub to: usize,
}

/// Arguments of `item rm`.
#[derive(Debug, Clone)]
pub struct ItemRmArgs {
    /// Task (an ID or ID prefix).
    pub task_id: String,
    /// Item index (from 0).
    pub index: usize,
}

/// Arguments of `item summary`.
#[derive(Debug, Clone)]
pub struct SummaryArgs {
    /// Task (an ID or ID prefix).
    pub task_id: String,
}

/// `t` as saved: equal to `expected` except for the update time.
pub open spec fn saved_as(t: TaskView, expected: TaskView) -> bool {
    t == (TaskView { updated_at: t.updated_at, ..expected })
}

/// `item new`: the picked task with a new, not yet done item at the end.
pub fn item_new(args: &ItemNewArgs, tasks: &[Task]) -> (r: Result<Task, CliError>)
    ensures
        r is Ok <==> task_resolves(args.task_id@, tasks_view(tasks@)),
        r matches Err(e) ==> task_lookup_failed(e, args.task_id@, tasks_view(tasks@)),
        r matches Ok(t) ==> ({
            let p = picked(args.task_id@, tasks_view(tasks@));
            &&& saved_as(
                t@,
                with_checklist(
                    p,
                    p.checklist.push(
                        ChecklistItemView {
                            id: t@.checklist.last().id,
                            task: args.title@,
                            detailed_description: args.description@,
                            context_and_plan: opt_view(args.plan),
                            done: false,
                        },
                    ),
                ),
            )
            &&& is_uuid_format(t@.checklist.last().id)
        }),
{
    let i = lookup_task(args.task_id.as_str(), tasks)?;
    let mut t = tasks[i].copy();
    let plan: Option<&str> = match &args.plan {
        Some(p) => Some(p.as_str()),
        None => None,
    };
    add_checklist_item(&mut t, args.title.as_str(), args.description.as_str(), plan);
    touch(&mut t);
    Ok(t)
}

/// The done flag an edit sets: done, undone, or unchanged.
pub open spec fn done_flag(a: ItemEditArgs) -> Option<bool> {
    if a.done {
        Some(true)
    } else if a.undone {
        Some(false)
    } else {
        None
    }
}

/// `item edit`: the picked task with the given fields of the item changed.
pub fn item_edit(args: &ItemEditArgs, tasks: &[Task]) -> (r: Result<Task, CliError>)
    ensures
        !task_resolves(args.task_id@, tasks_view(tasks@)) ==> (r matches Err(e) && task_lookup_failed(
            e,
            args.task_id@,
            tasks_view(tasks@),
        )),
        task_resolves(args.task_id@, tasks_view(tasks@)) ==> ({
            let p = picked(args.task_id@, tasks_view(tasks@));
            if args.index >= p.checklist.len() {
                r matches Err(CliError::Store(StoreError::NotFound(m))) && m@ == item_index_message(
                    args.index as nat,
                )
            } else {
                r matches Ok(t) && saved_as(
                    t@,
                    with_checklist(
                        p,
                        p.checklist.update(
                            args.index as int,
                            updated_item(
                                p.checklist[args.index as int],
                                opt_view(args.title),
                                opt_view(args.description),
                                match args.plan {
                                    Some(x) => Some(Some(x@)),
                                    None => None,
                                },
                                done_flag(*args),
                            ),
                        ),
                    ),
                )
            }
        }),
{
    let i = lookup_task(args.task_id.as_str(), tasks)?;
    let mut t = tasks[i].copy();
    let done: Option<bool> = if args.done {
        Some(true)
    } else if args.undone {
        Some(false)
    } else {
        None
    };
    let plan: Option<Option<&str>> = match &args.plan {
        Some(p) => Some(Some(p.as_str())),
        None => None,
    };
    let title: Option<&str> = match &args.title {
        Some(x) => Some(x.as_str()),
        None => None,
    };
    let desc: Option<&str> = match &args.description {
        Some(x) => Some(x.as_str()),
        None => None,
    };
    match update_checklist_item(&mut t, args.index, title, desc, plan, done) {
        Ok(()) => {
            touch(&mut t);
            Ok(t)
        },
        Err(e) => Err(CliError::Store(e)),
    }
}

/// The message of an index past the end: "清单条目索引越界: i（共 n 项）".
pub open spec fn bounds_message(i: nat, n: nat) -> Seq<char> {
    "清单条目索引越界: "@ + decimal(i) + "（共 "@ + decimal(n) + " 项）"@
}

fn bounds_error(i: usize, n: usize) -> (e: CliError)
    ensures
        e matches CliError::Message(m) && m@ == bounds_message(i as nat, n as nat),
{
    let mut m = String::from_str("清单条目索引越界: ");
    append_str(&mut m, usize_to_decimal(i).as_str());
    append_str(&mut m, "（共 ");
    append_str(&mut m, usize_to_decimal(n).as_str());
    append_str(&mut m, " 项）");
    CliError::Message(m)
}

/// `item check`: toggles the item's done flag; the message is
/// "[i] <name> → 已完成" or "… → 未完成".
pub fn item_check(args: &CheckArgs, tasks: &[Task]) -> (r: Result<(Task, String), CliError>)
    ensures
        !task_resolves(args.task_id@, tasks_view(tasks@)) ==> (r matches Err(e) && task_lookup_failed(
            e,
            args.task_id@,
            tasks_view(tasks@),
        )),
        task_resolves(args.task_id@, tasks_view(tasks@)) ==> ({
            let p = picked(args.task_id@, tasks_view(tasks@));
            if args.index >= p.checklist.len() {
                r matches Err(CliError::Message(m)) && m@ == bounds_message(args.index as nat, p.checklist.len())
            } else {
                let it = p.checklist[args.index as int];
                r matches Ok((t, m)) && saved_as(
                    t@,
                    with_checklist(p, p.checklist.update(args.index as int, ChecklistItemView { done: !it.done, ..it })),
                ) && m@ == "["@ + decimal(args.index as nat) + "] "@ + it.task + " → "@ + (if it.done {
                    "未完成"@
                } else {
                    "已完成"@
                })
            }
        }),
{
    let i = lookup_task(args.task_id.as_str(), tasks)?;
    let mut t = tasks[i].copy();
    let n = t.checklist.len();
    if args.index >= n {
        return Err(bounds_error(args.index, n));
    }
    let was_done = t.checklist[args.index].done;
    let title = t.checklist[args.index].task.clone();
    let _ = if was_done {
        mark_task_undone(&mut t, args.index)
    } else {
        mark_task_done(&mut t, args.index)
    };
    touch(&mut t);
    let mut m = String::from_str("[");
    append_str(&mut m, usize_to_decimal(args.index).as_str());
    append_str(&mut m, "] ");
    append_str(&mut m, title.as_str());
    append_str(&mut m, " → ");
    if was_done {
        append_str(&mut m, "未完成");
    } else {
        append_str(&mut m, "已完成");
    }
    Ok((t, m))
}

/// `item mv`: moves an item (see `reordered`).
pub fn item_mv(args: &MvArgs, tasks: &[Task]) -> (r: Result<Task, CliError>)
    ensures
        !task_resolves(args.task_id@, tasks_view(tasks@)) ==> (r matches Err(e) && task_lookup_failed(
            e,
            args.task_id@,
            tasks_view(tasks@),
        )),
        task_resolves(args.task_id@, tasks_view(tasks@)) ==> ({
            let p = picked(args.task_id@, tasks_view(tasks@));
            if args.from >= p.checklist.len() {
                r matches Err(CliError::Store(StoreError::NotFound(m))) && m@ == from_index_message(args.from as nat)
            } else if args.to > p.checklist.len() {
                r matches Err(CliError::Store(StoreError::NotFound(m))) && m@ == to_index_message(args.to as nat)
            } else {
                r matches Ok(t) && saved_as(
                    t@,
                    with_checklist(p, reordered(p.checklist, args.from as int, args.to as int)),
                )
            }
        }),
{
    let i = lookup_task(args.task_id.as_str(), tasks)?;
    let mut t = tasks[i].copy();
    match reorder_checklist_item(&mut t, args.from, args.to) {
        Ok(()) => {
            touch(&mut t);
            Ok(t)
        },
        Err(e) => Err(CliError::Store(e)),
    }
}

/// `item rm`: removes an item; the message is "[i] <name> 已删除".
pub fn item_rm(args: &ItemRmArgs, tasks: &[Task]) -> (r: Result<(Task, String), CliError>)
    ensures
        !task_resolves(args.task_id@, tasks_view(tasks@)) ==> (r matches Err(e) && task_lookup_failed(
            e,
            args.task_id@,
            tasks_view(tasks@),
        )),
        task_resolves(args.task_id@, tasks_view(tasks@)) ==> ({
            let p = picked(args.task_id@, tasks_view(tasks@));
            if args.index >= p.checklist.len() {
                r matches Err(CliError::Message(m)) && m@ == bounds_message(args.index as nat, p.checklist.len())
            } else {
                r matches Ok((t, m)) && saved_as(
                    t@,
                    with_checklist(p, p.checklist.remove(args.index as int)),
                ) && m@ == "["@ + decimal(args.index as nat) + "] "@ + p.checklist[args.index as int].task
                    + " 已删除"@
            }
        }),
{
    let i = lookup_task(args.task_id.as_str(), tasks)?;
    let mut t = tasks[i].copy();
    let n = t.checklist.len();
    if args.index >= n {
        return Err(bounds_error(args.index, n));
    }
    let title = t.checklist[args.index].task.clone();
    let _ = remove_checklist_item(&mut t, args.index);
    touch(&mut t);
    let mut m = String::from_str("[");
    append_str(&mut m, usize_to_decimal(args.index).as_str());
    append_str(&mut m, "] ");
    append_str(&mut m, title.as_str());
    append_str(&mut m, " 已删除");
    Ok((t, m))
}

/// `item summary`: the progress summary of the picked task.
pub fn item_summary(args: &SummaryArgs, tasks: &[Task]) -> (r: Result<String, CliError>)
    ensures
        r is Ok <==> task_resolves(args.task_id@, tasks_view(tasks@)),
        r matches Ok(s) ==> s@ == checklist_summary_text(picked(args.task_id@, tasks_view(tasks@))),
        r matches Err(e) ==> task_lookup_failed(e, args.task_id@, tasks_view(tasks@)),
{
    let i = lookup_task(args.task_id.as_str(), tasks)?;
    Ok(get_checklist_summary(&tasks[i]))
}

} // verus!
