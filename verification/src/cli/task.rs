//! Task commands: new, ls, show, edit, rm.

use vstd::prelude::*;

use crate::cli::error::CliError;
use crate::cli::output::{TaskListEntry, entry_of, task_to_list_entry};
use crate::error::{StoreError, error_text};
use crate::ids::{is_uuid_format, short_id, short_id_of};
use crate::logic::resolve::{
    locate_project, locate_task, matching_projects, matching_tasks,
    project_resolve_failure, project_resolves, task_resolve_failure,
    task_resolves,
};
use crate::logic::task::{done_count, initialize_task, merge_metadata, merged_metadata, touch};
use crate::models::{Project, Task, TaskView, opt_str_view, opt_view, projects_view, tasks_view};
use crate::text::{append_str, cuts_at};

verus! {

/// Task subcommands.
#[derive(Debug, Clone)]
pub enum TaskCommands {
    /// Create a task.
    New(NewArgs),
    /// List tasks.
    Ls(LsArgs),
    /// Show a task.
    Show(ShowArgs),
    /// Edit a task.
    Edit(TaskEditArgs),
    /// Delete a task.
    Rm(TaskRmArgs),
}

/// Arguments of `task new`.
#[derive(Debug, Clone)]
pub struct NewArgs {
    /// Description.
    pub description: String,
    /// Shared context.
    pub context: Option<String>,
    /// Project (an ID or ID prefix).
    pub project: Option<String>,
}

/// Arguments of `task ls`.
#[derive(Debug, Clone)]
pub struct LsArgs {
    /// Show active and completed tasks.
    pub all: bool,
    /// Show only completed tasks.
    pub done: bool,
    /// Long rows.
    pub long: bool,
    /// At most this many rows.
    pub limit: usize,
    /// Sort field: time, priority or progress.
    pub sort: String,
    /// Project filter (an ID or ID prefix).
    pub project: Option<String>,
}

/// Arguments of `task show`.
#[derive(Debug, Clone)]
pub struct ShowArgs {
    /// Task (an ID or ID prefix).
    pub id: String,
}

/// Arguments of `task edit`.
#[derive(Debug, Clone)]
pub struct TaskEditArgs {
    /// Task (an ID or ID prefix).
    pub id: String,
    /// New description.
    pub description: Option<String>,
    /// New shared context.
    pub context: Option<String>,
    /// Priority.
    pub priority: Option<String>,
    /// Tags, comma separated.
    pub tags: Option<String>,
    /// Estimated completion time.
    pub eta: Option<String>,
}

/// Arguments of `task rm`.
#[derive(Debug, Clone)]
pub struct TaskRmArgs {
    /// Task (an ID or ID prefix).
    pub id: String,
}

/// The failure of a task lookup.
pub open spec fn task_lookup_failed(e: CliError, prefix: Seq<char>, ts: Seq<TaskView>) -> bool {
    &&& e matches CliError::Store(s) && error_text(s) == task_resolve_failure(prefix, ts)
    &&& (e matches CliError::Store(StoreError::NotFound(_))) == (crate::text::utf8_len(prefix) >= 4
        && matching_tasks(ts, prefix).len() == 0)
}

/// The failure of a project lookup.
pub open spec fn project_lookup_failed(e: CliError, prefix: Seq<char>, ps: Seq<crate::models::ProjectView>) -> bool {
    &&& e matches CliError::Store(s) && error_text(s) == project_resolve_failure(prefix, ps)
    &&& (e matches CliError::Store(StoreError::ProjectNotFound(_))) == (crate::text::utf8_len(prefix) >= 4
        && matching_projects(ps, prefix).len() == 0)
}

/// The task a prefix picks.
pub open spec fn picked(prefix: Seq<char>, ts: Seq<TaskView>) -> TaskView {
    matching_tasks(ts, prefix)[0]
}

/// The task a prefix picks, when it picks one, has an ID that cuts at 8
/// bytes (the short ID a message shows).
pub open spec fn picked_cuts(prefix: Seq<char>, ts: Seq<TaskView>) -> bool {
    task_resolves(prefix, ts) ==> cuts_at(picked(prefix, ts).id, 8)
}

/// The project a prefix picks, when it picks one, has an ID that cuts at 8
/// bytes.
pub open spec fn project_picked_cuts(prefix: Seq<char>, ps: Seq<crate::models::ProjectView>) -> bool {
    project_resolves(prefix, ps) ==> cuts_at(matching_projects(ps, prefix)[0].id, 8)
}

/// Looks up the task a prefix picks.
pub fn lookup_task(prefix: &str, tasks: &[Task]) -> (r: Result<usize, CliError>)
    ensures
        r is Ok <==> task_resolves(prefix@, tasks_view(tasks@)),
        r matches Ok(i) ==> i < tasks@.len() && tasks@[i as int]@ == picked(prefix@, tasks_view(tasks@)),
        r matches Err(e) ==> task_lookup_failed(e, prefix@, tasks_view(tasks@)),
{
    match locate_task(prefix, tasks) {
        Ok(i) => Ok(i),
        Err(e) => Err(CliError::Store(e)),
    }
}

/// Looks up the project a prefix picks.
pub fn lookup_project(prefix: &str, projects: &[Project]) -> (r: Result<usize, CliError>)
    ensures
        r is Ok <==> project_resolves(prefix@, projects_view(projects@)),
        r matches Ok(i) ==> i < projects@.len() && projects@[i as int]@ == matching_projects(
            projects_view(projects@),
            prefix@,
        )[0],
        r matches Err(e) ==> project_lookup_failed(e, prefix@, projects_view(projects@)),
{
    match locate_project(prefix, projects) {
        Ok(i) => Ok(i),
        Err(e) => Err(CliError::Store(e)),
    }
}

// ── task new ───────────────────────────────────────────────────────────────

/// The message when no project is given or found in the workspace.
pub open spec fn no_project_message() -> Seq<char> {
    "未指定项目。请使用 --project <项目ID> 指定项目，或在项目目录中创建 .pinchproject 文件。\n  提示: 使用 `pinchtask project ls` 查看可用项目"@
}

/// The project a command uses: the explicit one, else the workspace's.
pub open spec fn effective_project(explicit: Option<String>, workspace: Option<Seq<char>>) -> Option<Seq<char>> {
    match explicit {
        Some(p) => Some(p@),
        None => workspace,
    }
}

/// `task new`: a new task with the description and context, in the project
/// given (or else the workspace's), which must resolve; without any project
/// the command is refused.
pub fn new_task(args: &NewArgs, workspace: Option<&str>, projects: &[Project]) -> (r: Result<Task, CliError>)
    ensures
        match effective_project(args.project, opt_str_view(workspace)) {
            None => r matches Err(CliError::Message(m)) && m@ == no_project_message(),
            Some(p) => if project_resolves(p, projects_view(projects@)) {
                r matches Ok(t) && {
                    &&& is_uuid_format(t@.id)
                    &&& t@.task_description == args.description@
                    &&& t@.context_for_all_tasks == opt_view(args.context)
                    &&& t@.checklist.len() == 0 && t@.notes.len() == 0 && t@.resources.len() == 0
                    &&& t@.metadata is None
                    &&& t@.project_id == Some(matching_projects(projects_view(projects@), p)[0].id)
                    &&& t@.created_at == t@.updated_at
                }
            } else {
                r matches Err(e) && project_lookup_failed(e, p, projects_view(projects@))
            },
        },
{
    let prefix: &str = match &args.project {
        Some(p) => p.as_str(),
        None => match workspace {
            Some(w) => w,
            None => {
                return Err(
                    CliError::Message(
                        String::from_str(
                            "未指定项目。请使用 --project <项目ID> 指定项目，或在项目目录中创建 .pinchproject 文件。\n  提示: 使用 `pinchtask project ls` 查看可用项目",
                        ),
                    ),
                );
            },
        },
    };
    let i = lookup_project(prefix, projects)?;
    let context: Option<&str> = match &args.context {
        Some(c) => Some(c.as_str()),
        None => None,
    };
    let t = initialize_task(
        args.description.as_str(),
        context,
        Vec::new(),
        Vec::new(),
        Vec::new(),
        None,
        Some(projects[i].id.as_str()),
    );
    proof {
        assert(crate::models::items_view(Seq::<crate::models::ChecklistItem>::empty()).len() == 0);
        assert(crate::models::strings_view(Seq::<String>::empty()).len() == 0);
        assert(crate::models::resources_view(Seq::<crate::models::Resource>::empty()).len() == 0);
    }
    Ok(t)
}

// ── task ls ────────────────────────────────────────────────────────────────

/// Whether every item of a task is done (and it has at least one).
pub open spec fn completed(t: TaskView) -> bool {
    t.checklist.len() > 0 && done_count(t.checklist) == t.checklist.len()
}

/// Whether `ls` shows a task: with `done` only completed ones, with `all`
/// every one, else the active ones (not completed).
pub open spec fn shown_by(t: TaskView, done: bool, all: bool) -> bool {
    if done {
        completed(t)
    } else if all {
        true
    } else {
        !completed(t)
    }
}

/// The tasks `ls` keeps, in order.
pub open spec fn kept(ts: Seq<TaskView>, done: bool, all: bool) -> Seq<TaskView>
    decreases ts.len(),
{
    if ts.len() == 0 {
        Seq::empty()
    } else if shown_by(ts.last(), done, all) {
        kept(ts.drop_last(), done, all).push(ts.last())
    } else {
        kept(ts.drop_last(), done, all)
    }
}

/// The tasks of project `pid`, in order.
pub open spec fn in_project(ts: Seq<TaskView>, pid: Seq<char>) -> Seq<TaskView>
    decreases ts.len(),
{
    if ts.len() == 0 {
        Seq::empty()
    } else if ts.last().project_id == Some(pid) {
        in_project(ts.drop_last(), pid).push(ts.last())
    } else {
        in_project(ts.drop_last(), pid)
    }
}

/// Sort weight of a priority: high 0, medium 1, low 2, else 3.
pub open spec fn priority_weight(p: Seq<char>) -> u8 {
    if p == "high"@ {
        0
    } else if p == "medium"@ {
        1
    } else if p == "low"@ {
        2
    } else {
        3
    }
}

/// Sort weight of a priority (see `priority_weight`).
pub fn priority_order(p: &str) -> (r: u8)
    ensures
        r == priority_weight(p@),
{
    if crate::text::str_eq(p, "high") {
        0
    } else if crate::text::str_eq(p, "medium") {
        1
    } else if crate::text::str_eq(p, "low") {
        2
    } else {
        3
    }
}

/// The priority `ls` sorts a task by: its own, else medium.
pub open spec fn listed_priority(t: TaskView) -> Seq<char> {
    match t.metadata {
        Some(m) => match m.priority {
            Some(p) => p,
            None => "medium"@,
        },
        None => "medium"@,
    }
}

/// Progress of a task as a fraction (done, total); an empty checklist
/// counts as 0/1.
pub open spec fn ratio(t: TaskView) -> (nat, nat) {
    if t.checklist.len() == 0 {
        (0, 1)
    } else {
        (done_count(t.checklist), t.checklist.len())
    }
}

/// Progress of a task as a fraction (see `ratio`).
pub fn progress_ratio(task: &Task) -> (r: (usize, usize))
    ensures
        r.0 == ratio(task@).0,
        r.1 == ratio(task@).1,
{
    let total = task.checklist.len();
    if total == 0 {
        return (0, 1);
    }
    let done = crate::logic::task::count_done(&task.checklist);
    (done, total)
}

/// Sort fields of `ls`.
#[derive(Debug, Clone, Copy, PartialEq, Eq, Structural)]
pub enum ListSort {
    /// Keep the order of the store (creation time).
    Time,
    /// By priority, high first.
    Priority,
    /// By progress, least first.
    Progress,
}

/// The sort field named by `--sort`: priority, progress, anything else time.
pub open spec fn sort_named(s: Seq<char>) -> ListSort {
    if s == "priority"@ {
        ListSort::Priority
    } else if s == "progress"@ {
        ListSort::Progress
    } else {
        ListSort::Time
    }
}

/// Whether `x` may come right after `a` in a list sorted by `k`.
pub open spec fn list_follows(a: TaskView, x: TaskView, k: ListSort) -> bool {
    match k {
        ListSort::Priority => priority_weight(listed_priority(a)) <= priority_weight(listed_priority(x)),
        _ => ratio(a).0 * ratio(x).1 <= ratio(x).0 * ratio(a).1,
    }
}

/// Inserts `x` after every element it may follow.
pub open spec fn list_insert(s: Seq<TaskView>, x: TaskView, k: ListSort) -> Seq<TaskView>
    decreases s.len(),
{
    if s.len() == 0 {
        seq![x]
    } else if list_follows(s.last(), x, k) {
        s.push(x)
    } else {
        list_insert(s.drop_last(), x, k).push(s.last())
    }
}

/// Stable sort of `s` by `k` (ascending weight or progress).
pub open spec fn list_sorted(s: Seq<TaskView>, k: ListSort) -> Seq<TaskView>
    decreases s.len(),
{
    if s.len() == 0 {
        Seq::empty()
    } else {
        list_insert(list_sorted(s.drop_last(), k), s.last(), k)
    }
}

/// The tasks `ls` shows, in order: kept, sorted, then cut to the limit.
pub open spec fn listing(ts: Seq<TaskView>, args: LsArgs) -> Seq<TaskView> {
    let k = kept(ts, args.done, args.all);
    let k2 = match sort_named(args.sort@) {
        ListSort::Time => k,
        m => list_sorted(k, m),
    };
    k2.take(if args.limit < k2.len() { args.limit as int } else { k2.len() as int })
}

/// Whether `a * b <= c * d`, computed without overflow.
fn cross_le(a: usize, b: usize, c: usize, d: usize) -> (r: bool)
    ensures
        r == (a * b <= c * d),
{
    let m: u128 = 0x1_0000_0000_0000_0000;
    assert(a < m && b < m && c < m && d < m);
    let x = a as u128;
    let y = b as u128;
    let z = c as u128;
    let w = d as u128;
    assert(x * y < m * m) by (nonlinear_arith)
        requires
            x < m,
            y < m,
    ;
    assert(z * w < m * m) by (nonlinear_arith)
        requires
            z < m,
            w < m,
    ;
    x * y <= z * w
}

fn list_follows_exec(a: &Task, x: &Task, k: ListSort) -> (r: bool)
    ensures
        r == list_follows(a@, x@, k),
{
    match k {
        ListSort::Priority => {
            let pa = match &a.metadata {
                Some(m) => match &m.priority {
                    Some(p) => priority_order(p.as_str()),
                    None => priority_order("medium"),
                },
                None => priority_order("medium"),
            };
            let px = match &x.metadata {
                Some(m) => match &m.priority {
                    Some(p) => priority_order(p.as_str()),
                    None => priority_order("medium"),
                },
                None => priority_order("medium"),
            };
            pa <= px
        },
        _ => {
            let (ad, at) = progress_ratio(a);
            let (xd, xt) = progress_ratio(x);
            cross_le(ad, xt, xd, at)
        },
    }
}

fn list_insert_exec<'a>(sorted: &mut Vec<&'a Task>, x: &'a Task, k: ListSort)
    ensures
        crate::logic::task::refs_view(final(sorted)@) == list_insert(
            crate::logic::task::refs_view(old(sorted)@),
            x@,
            k,
        ),
{
    let ghost s = crate::logic::task::refs_view(sorted@);
    let mut j: usize = sorted.len();
    assert(s.take(j as int) =~= s);
    while j > 0 && !list_follows_exec(sorted[j - 1], x, k)
        invariant
            j <= sorted@.len(),
            sorted@ == old(sorted)@,
            s == crate::logic::task::refs_view(sorted@),
            list_insert(s, x@, k) == list_insert(s.take(j as int), x@, k) + s.skip(j as int),
        decreases j,
    {
        assert(s.take(j as int).drop_last() =~= s.take(j - 1));
        assert(s.take(j as int).last() == s[j - 1]);
        assert(s.skip(j - 1) =~= seq![s[j - 1]] + s.skip(j as int));
        assert(list_insert(s.take(j - 1), x@, k).push(s[j - 1]) + s.skip(j as int) =~= list_insert(
            s.take(j - 1),
            x@,
            k,
        ) + s.skip(j - 1));
        j = j - 1;
    }
    if j > 0 {
        assert(s.take(j as int).last() == s[j - 1]);
        assert(list_insert(s.take(j as int), x@, k) == s.take(j as int).push(x@));
    } else {
        assert(s.take(0) =~= Seq::<TaskView>::empty());
    }
    sorted.insert(j, x);
    assert(crate::logic::task::refs_view(sorted@) =~= s.take(j as int).push(x@) + s.skip(j as int));
}

/// The tasks `ls` shows (see `listing`).
pub fn select_tasks<'a>(tasks: &Vec<&'a Task>, args: &LsArgs) -> (r: Vec<&'a Task>)
    ensures
        crate::logic::task::refs_view(r@) == listing(crate::logic::task::refs_view(tasks@), *args),
{
    let ghost v = crate::logic::task::refs_view(tasks@);
    let mut keep: Vec<&'a Task> = Vec::new();
    let mut i: usize = 0;
    while i < tasks.len()
        invariant
            i <= tasks@.len(),
            v == crate::logic::task::refs_view(tasks@),
            crate::logic::task::refs_view(keep@) == kept(v.take(i as int), args.done, args.all),
        decreases tasks@.len() - i,
    {
        assert(v.take(i + 1).drop_last() =~= v.take(i as int));
        let t: &'a Task = tasks[i];
        let total = t.checklist.len();
        let is_completed = total > 0 && crate::logic::task::count_done(&t.checklist) == total;
        let show = if args.done {
            is_completed
        } else if args.all {
            true
        } else {
            !is_completed
        };
        let ghost before = keep@;
        if show {
            keep.push(t);
            assert(crate::logic::task::refs_view(keep@) =~= crate::logic::task::refs_view(before).push(
                v[i as int],
            ));
        }
        i = i + 1;
    }
    assert(v.take(i as int) =~= v);
    let k: ListSort = if crate::text::str_eq(args.sort.as_str(), "priority") {
        ListSort::Priority
    } else if crate::text::str_eq(args.sort.as_str(), "progress") {
        ListSort::Progress
    } else {
        ListSort::Time
    };
    let sorted: Vec<&'a Task> = match k {
        ListSort::Time => keep,
        _ => {
            let mut out: Vec<&'a Task> = Vec::new();
            let ghost ks = crate::logic::task::refs_view(keep@);
            let mut j: usize = 0;
            while j < keep.len()
                invariant
                    j <= keep@.len(),
                    ks == crate::logic::task::refs_view(keep@),
                    k != ListSort::Time,
                    crate::logic::task::refs_view(out@) == list_sorted(ks.take(j as int), k),
                decreases keep@.len() - j,
            {
                assert(ks.take(j + 1).drop_last() =~= ks.take(j as int));
                assert(ks.take(j + 1).last() == keep@[j as int]@);
                list_insert_exec(&mut out, keep[j], k);
                j = j + 1;
            }
            assert(ks.take(j as int) =~= ks);
            out
        },
    };
    let n = if args.limit < sorted.len() {
        args.limit
    } else {
        sorted.len()
    };
    let mut out: Vec<&'a Task> = Vec::new();
    let mut j: usize = 0;
    while j < n
        invariant
            j <= n <= sorted@.len(),
            crate::logic::task::refs_view(out@) == crate::logic::task::refs_view(sorted@).take(j as int),
        decreases n - j,
    {
        let ghost before = out@;
        out.push(sorted[j]);
        assert(crate::logic::task::refs_view(out@) =~= crate::logic::task::refs_view(before).push(
            sorted@[j as int]@,
        ));
        assert(crate::logic::task::refs_view(sorted@).take(j + 1) =~= crate::logic::task::refs_view(
            sorted@,
        ).take(j as int).push(sorted@[j as int]@));
        j = j + 1;
    }
    out
}

/// Whether a task's ID cuts at 8 bytes and its checklist is small enough
/// for the progress bar arithmetic.
pub open spec fn row_fits(t: TaskView) -> bool {
    cuts_at(t.id, 8) && t.checklist.len() * 10 + t.checklist.len() / 2 <= usize::MAX
}

/// Whether every task can be shown as a row.
pub open spec fn rows_fit(ts: Seq<TaskView>) -> bool {
    forall|i: int| 0 <= i < ts.len() ==> row_fits(#[trigger] ts[i])
}

/// The tasks that `ls` lists: those in scope (with a project that resolves,
/// only its tasks), kept and ordered as the arguments ask; none when the
/// project does not resolve.
pub open spec fn listed(args: LsArgs, workspace: Option<Seq<char>>, ts: Seq<TaskView>, ps: Seq<crate::models::ProjectView>) -> Seq<TaskView> {
    match effective_project(args.project, workspace) {
        None => listing(ts, args),
        Some(p) => if project_resolves(p, ps) {
            listing(in_project(ts, matching_projects(ps, p)[0].id), args)
        } else {
            Seq::empty()
        },
    }
}

/// The tasks that `ls` lists (see `listed`): with a project (the explicit
/// one, else the workspace's), only that project's tasks, after resolving
/// its prefix.
pub fn listed_tasks<'a>(
    args: &LsArgs,
    workspace: Option<&str>,
    tasks: &'a [Task],
    projects: &[Project],
) -> (r: Result<Vec<&'a Task>, CliError>)
    ensures
        match effective_project(args.project, opt_str_view(workspace)) {
            Some(p) => if project_resolves(p, projects_view(projects@)) {
                r matches Ok(v) && crate::logic::task::refs_view(v@) == listed(
                    *args,
                    opt_str_view(workspace),
                    tasks_view(tasks@),
                    projects_view(projects@),
                )
            } else {
                r matches Err(e) && project_lookup_failed(e, p, projects_view(projects@))
            },
            None => r matches Ok(v) && crate::logic::task::refs_view(v@) == listed(
                *args,
                opt_str_view(workspace),
                tasks_view(tasks@),
                projects_view(projects@),
            ),
        },
{
    let prefix: Option<&str> = match &args.project {
        Some(p) => Some(p.as_str()),
        None => workspace,
    };
    let scoped: Vec<&Task> = match prefix {
        Some(p) => {
            let i = lookup_project(p, projects)?;
            let pid = projects[i].id.as_str();
            let ghost v = tasks_view(tasks@);
            let mut out: Vec<&Task> = Vec::new();
            let mut j: usize = 0;
            while j < tasks.len()
                invariant
                    j <= tasks@.len(),
                    v == tasks_view(tasks@),
                    crate::logic::task::refs_view(out@) == in_project(v.take(j as int), pid@),
                decreases tasks@.len() - j,
            {
                assert(v.take(j + 1).drop_last() =~= v.take(j as int));
                let inside = match &tasks[j].project_id {
                    Some(q) => crate::text::str_eq(q.as_str(), pid),
                    None => false,
                };
                let ghost before = out@;
                if inside {
                    out.push(&tasks[j]);
                    assert(crate::logic::task::refs_view(out@) =~= crate::logic::task::refs_view(
                        before,
                    ).push(v[j as int]));
                }
                j = j + 1;
            }
            assert(v.take(j as int) =~= v);
            out
        },
        None => {
            let mut out: Vec<&Task> = Vec::new();
            let mut j: usize = 0;
            assert(tasks_view(tasks@).take(0) =~= Seq::<TaskView>::empty());
            while j < tasks.len()
                invariant
                    j <= tasks@.len(),
                    crate::logic::task::refs_view(out@) == tasks_view(tasks@).take(j as int),
                decreases tasks@.len() - j,
            {
                let ghost before = out@;
                out.push(&tasks[j]);
                assert(crate::logic::task::refs_view(out@) =~= crate::logic::task::refs_view(before).push(
                    tasks@[j as int]@,
                ));
                assert(tasks_view(tasks@).take(j + 1) =~= tasks_view(tasks@).take(j as int).push(
                    tasks@[j as int]@,
                ));
                j = j + 1;
            }
            assert(tasks_view(tasks@).take(j as int) =~= tasks_view(tasks@));
            out
        },
    };
    let chosen = select_tasks(&scoped, args);
    Ok(chosen)
}

/// Whether every task listed can be shown as a row (see `rows_fit`).
pub fn listed_rows_fit(listed: &Vec<&Task>) -> (r: bool)
    ensures
        r == rows_fit(crate::logic::task::refs_view(listed@)),
{
    let ghost v = crate::logic::task::refs_view(listed@);
    let mut i: usize = 0;
    while i < listed.len()
        invariant
            i <= listed@.len(),
            v == crate::logic::task::refs_view(listed@),
            forall|k: int| 0 <= k < i ==> row_fits(#[trigger] v[k]),
        decreases listed@.len() - i,
    {
        assert(v[i as int] == listed@[i as int]@);
        let n = listed[i].checklist.len();
        let ok = crate::logic::resolve::can_cut(listed[i].id.as_str(), 8) && n <= (usize::MAX - n / 2) / 10;
        if !ok {
            assert(!row_fits(v[i as int])) by (nonlinear_arith)
                requires
                    v[i as int].checklist.len() == n,
                    !(cuts_at(v[i as int].id, 8)) || n > (usize::MAX - n / 2) / 10,
            ;
            return false;
        }
        assert(row_fits(v[i as int])) by (nonlinear_arith)
            requires
                v[i as int].checklist.len() == n,
                cuts_at(v[i as int].id, 8),
                n <= (usize::MAX - n / 2) / 10,
        ;
        i = i + 1;
    }
    true
}

/// The task list rows of `ls` for the tasks in scope: with a project (the
/// explicit one, else the workspace's), only that project's tasks, after
/// resolving its prefix.
pub fn list_rows(
    args: &LsArgs,
    workspace: Option<&str>,
    tasks: &[Task],
    projects: &[Project],
) -> (r: Result<Vec<TaskListEntry>, CliError>)
    requires
        rows_fit(listed(*args, opt_str_view(workspace), tasks_view(tasks@), projects_view(projects@))),
    ensures
        match effective_project(args.project, opt_str_view(workspace)) {
            None => r matches Ok(es) && es@.len() == listing(tasks_view(tasks@), *args).len() && forall|k: int|
                0 <= k < es@.len() ==> entry_of(listing(tasks_view(tasks@), *args)[k], #[trigger] es@[k]),
            Some(p) => if project_resolves(p, projects_view(projects@)) {
                let scoped = in_project(tasks_view(tasks@), matching_projects(projects_view(projects@), p)[0].id);
                r matches Ok(es) && es@.len() == listing(scoped, *args).len() && forall|k: int|
                    0 <= k < es@.len() ==> entry_of(listing(scoped, *args)[k], #[trigger] es@[k])
            } else {
                r matches Err(e) && project_lookup_failed(e, p, projects_view(projects@))
            },
        },
{
    let chosen = listed_tasks(args, workspace, tasks, projects)?;
    assert(crate::logic::task::refs_view(chosen@) == listed(
        *args,
        opt_str_view(workspace),
        tasks_view(tasks@),
        projects_view(projects@),
    ));
    let mut rows: Vec<TaskListEntry> = Vec::new();
    let mut k: usize = 0;
    while k < chosen.len()
        invariant
            k <= chosen@.len(),
            rows@.len() == k,
            rows_fit(crate::logic::task::refs_view(chosen@)),
            forall|m: int| 0 <= m < k ==> entry_of(chosen@[m]@, #[trigger] rows@[m]),
        decreases chosen@.len() - k,
    {
        assert(crate::logic::task::refs_view(chosen@)[k as int] == chosen@[k as int]@);
        assert(row_fits(crate::logic::task::refs_view(chosen@)[k as int]));
        rows.push(task_to_list_entry(chosen[k]));
        k = k + 1;
    }
    assert forall|m: int| 0 <= m < rows@.len() implies entry_of(
        crate::logic::task::refs_view(chosen@)[m],
        #[trigger] rows@[m],
    ) by {
        assert(crate::logic::task::refs_view(chosen@)[m] == chosen@[m]@);
    }
    Ok(rows)
}

// ── task show / edit / rm ──────────────────────────────────────────────────

/// `task show`: the task the prefix picks.
pub fn show_task(args: &ShowArgs, tasks: &[Task]) -> (r: Result<Task, CliError>)
    ensures
        r is Ok <==> task_resolves(args.id@, tasks_view(tasks@)),
        r matches Ok(t) ==> t@ == picked(args.id@, tasks_view(tasks@)),
        r matches Err(e) ==> task_lookup_failed(e, args.id@, tasks_view(tasks@)),
{
    let i = lookup_task(args.id.as_str(), tasks)?;
    Ok(tasks[i].copy())
}

/// The message of an edit without any field.
pub open spec fn edit_needs_field_message() -> Seq<char> {
    "至少需要指定一个可修改的字段 (--description / --context / --priority / --tags / --eta)"@
}

/// Whether an edit names any field.
pub open spec fn edit_fields_given(a: TaskEditArgs) -> bool {
    a.description is Some || a.context is Some || a.priority is Some || a.tags is Some || a.eta is Some
}

/// A task after an edit: given description and context replace the old
/// ones; a given priority, tag list or time is merged into the metadata.
pub open spec fn edited(t: TaskView, a: TaskEditArgs) -> TaskView {
    TaskView {
        task_description: match a.description {
            Some(d) => d@,
            None => t.task_description,
        },
        context_for_all_tasks: match a.context {
            Some(c) => Some(c@),
            None => t.context_for_all_tasks,
        },
        metadata: if a.priority is Some || a.tags is Some || a.eta is Some {
            Some(merged_metadata(t.metadata, opt_view(a.priority), opt_view(a.tags), opt_view(a.eta)))
        } else {
            t.metadata
        },
        ..t
    }
}

fn str_of(o: &Option<String>) -> (r: Option<&str>)
    ensures
        opt_str_view(r) == opt_view(*o),
{
    match o {
        Some(s) => Some(s.as_str()),
        None => None,
    }
}

/// `task edit`: the task the prefix picks, edited; an edit without any
/// field is refused (after the lookup).
pub fn edit_task(args: &TaskEditArgs, tasks: &[Task]) -> (r: Result<Task, CliError>)
    ensures
        !task_resolves(args.id@, tasks_view(tasks@)) ==> (r matches Err(e) && task_lookup_failed(
            e,
            args.id@,
            tasks_view(tasks@),
        )),
        task_resolves(args.id@, tasks_view(tasks@)) && !edit_fields_given(*args) ==> (r matches Err(
            CliError::Message(m),
        ) && m@ == edit_needs_field_message()),
        task_resolves(args.id@, tasks_view(tasks@)) && edit_fields_given(*args) ==> (r matches Ok(t)
            && t@ == (TaskView { updated_at: t@.updated_at, ..edited(picked(args.id@, tasks_view(tasks@)), *args) })),
{
    let i = lookup_task(args.id.as_str(), tasks)?;
    if !(args.description.is_some() || args.context.is_some() || args.priority.is_some()
        || args.tags.is_some() || args.eta.is_some()) {
        return Err(
            CliError::Message(
                String::from_str(
                    "至少需要指定一个可修改的字段 (--description / --context / --priority / --tags / --eta)",
                ),
            ),
        );
    }
    let mut t = tasks[i].copy();
    if let Some(d) = &args.description {
        crate::logic::task::update_task_description(&mut t, d.as_str());
    }
    if let Some(c) = &args.context {
        crate::logic::task::update_context(&mut t, c.as_str());
    }
    if args.priority.is_some() || args.tags.is_some() || args.eta.is_some() {
        let m = merge_metadata(&t.metadata, str_of(&args.priority), str_of(&args.tags), str_of(&args.eta));
        crate::logic::task::update_metadata(&mut t, m);
    }
    touch(&mut t);
    Ok(t)
}

/// `task rm`: the ID of the task the prefix picks, and the message
/// "任务 <short ID> 已删除".
pub fn remove_task(args: &TaskRmArgs, tasks: &[Task]) -> (r: Result<(String, String), CliError>)
    requires
        picked_cuts(args.id@, tasks_view(tasks@)),
    ensures
        r is Ok <==> task_resolves(args.id@, tasks_view(tasks@)),
        r matches Ok((id, m)) ==> id@ == picked(args.id@, tasks_view(tasks@)).id && m@ == "任务 "@
            + short_id_of(id@) + " 已删除"@,
        r matches Err(e) ==> task_lookup_failed(e, args.id@, tasks_view(tasks@)),
{
    let i = lookup_task(args.id.as_str(), tasks)?;
    let id = tasks[i].id.clone();
    let mut m = String::from_str("任务 ");
    append_str(&mut m, short_id(id.as_str()).as_str());
    append_str(&mut m, " 已删除");
    Ok((id, m))
}

} // verus!
