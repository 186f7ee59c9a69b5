//! Short ID prefix matching: resolve a prefix of at least 4 bytes to the one
//! task or project whose ID starts with it.

use vstd::prelude::*;

use crate::error::{StoreError, error_text};
use crate::ids::short_id_of;
use crate::models::{Project, ProjectView, Task, TaskView, projects_view, tasks_view};
use crate::text::{
    append_str, byte_len_at_least, byte_len_capped, byte_prefix, chars_of, chars_within, cuts_at,
    decimal, is_char_boundary_at, is_prefix_of, join, starts_with, usize_to_decimal, utf8_len,
};

verus! {

/// Minimum length, in bytes, of an ID prefix.
pub const MIN_PREFIX_LEN: usize = 4;

/// The tasks whose ID starts with `p`, in order.
pub open spec fn matching_tasks(ts: Seq<TaskView>, p: Seq<char>) -> Seq<TaskView>
    decreases ts.len(),
{
    if ts.len() == 0 {
        Seq::empty()
    } else if is_prefix_of(p, ts.last().id) {
        matching_tasks(ts.drop_last(), p).push(ts.last())
    } else {
        matching_tasks(ts.drop_last(), p)
    }
}

/// The projects whose ID starts with `p`, in order.
pub open spec fn matching_projects(ps: Seq<ProjectView>, p: Seq<char>) -> Seq<ProjectView>
    decreases ps.len(),
{
    if ps.len() == 0 {
        Seq::empty()
    } else if is_prefix_of(p, ps.last().id) {
        matching_projects(ps.drop_last(), p).push(ps.last())
    } else {
        matching_projects(ps.drop_last(), p)
    }
}

/// The candidate line of a task: its short ID and its description, each cut
/// at the last character boundary at or below 8 and 40 bytes.
pub open spec fn task_candidate_line(t: TaskView) -> Seq<char> {
    "  "@ + short_id_of(t.id) + "  "@ + t.task_description.take(
        chars_within(t.task_description, 40) as int,
    )
}

/// The candidate line of a project: its short ID (cut at the last character
/// boundary at or below 8 bytes) and its name.
pub open spec fn project_candidate_line(p: ProjectView) -> Seq<char> {
    "  "@ + short_id_of(p.id) + "  "@ + p.name
}

/// The candidate list: the first `max` lines, then a note of how many more
/// matched, joined by newlines.
pub open spec fn candidates_text(lines: Seq<Seq<char>>, max: nat, total: nat) -> Seq<char> {
    let shown = lines.take(if max < lines.len() { max as int } else { lines.len() as int });
    join(
        if total > max {
            shown.push("  ... 还有 "@ + decimal((total - max) as nat) + " 个匹配项未显示"@)
        } else {
            shown
        },
        "\n"@,
    )
}

/// The `InvalidIdPrefix` error for a prefix shorter than 4 bytes.
fn short_prefix_error(prefix: &str) -> (e: StoreError)
    requires
        utf8_len(prefix@) < 4,
    ensures
        e matches StoreError::InvalidIdPrefix { prefix: p, min_len, actual_len } && p@ == prefix@
            && min_len == 4 && actual_len == utf8_len(prefix@),
{
    let v = chars_of(prefix);
    let n = byte_len_capped(&v, 4);
    StoreError::InvalidIdPrefix { prefix: prefix.to_owned(), min_len: MIN_PREFIX_LEN, actual_len: n }
}

/// Joins candidate lines, adding a note when more matched than are shown.
fn format_candidates(lines: Vec<String>, max_candidates: usize, total: usize) -> (r: String)
    requires
        lines@.len() == if max_candidates < total { max_candidates as nat } else { total as nat },
    ensures
        r@ == candidates_text(crate::models::strings_view(lines@), max_candidates as nat, total as nat),
{
    let mut lines = lines;
    let ghost before = crate::models::strings_view(lines@);
    assert(before.take(before.len() as int) =~= before);
    if total > max_candidates {
        let mut note = String::from_str("  ... 还有 ");
        append_str(&mut note, usize_to_decimal(total - max_candidates).as_str());
        append_str(&mut note, " 个匹配项未显示");
        lines.push(note);
        assert(crate::models::strings_view(lines@) =~= before.push(
            "  ... 还有 "@ + decimal((total - max_candidates) as nat) + " 个匹配项未显示"@,
        ));
    }
    crate::text::join_strings(&lines, "\n")
}

/// The tasks whose ID starts with `prefix`.
fn collect_matching_tasks<'a>(prefix: &str, tasks: &'a [Task]) -> (r: Vec<&'a Task>)
    ensures
        r@.map_values(|t: &Task| t@) == matching_tasks(tasks_view(tasks@), prefix@),
{
    let ghost v = tasks_view(tasks@);
    let mut out: Vec<&'a Task> = Vec::new();
    let mut i: usize = 0;
    while i < tasks.len()
        invariant
            i <= tasks@.len(),
            v == tasks_view(tasks@),
            out@.map_values(|t: &Task| t@) == matching_tasks(v.take(i as int), prefix@),
        decreases tasks@.len() - i,
    {
        assert(v.take(i + 1).drop_last() =~= v.take(i as int));
        assert(v.take(i + 1).last() == tasks@[i as int]@);
        let ghost prev = out@;
        if starts_with(tasks[i].id.as_str(), prefix) {
            out.push(&tasks[i]);
            assert(out@.map_values(|t: &Task| t@) =~= prev.map_values(|t: &Task| t@).push(
                tasks@[i as int]@,
            ));
        }
        i = i + 1;
    }
    assert(v.take(tasks@.len() as int) =~= v);
    out
}

/// The projects whose ID starts with `prefix`.
fn collect_matching_projects<'a>(prefix: &str, projects: &'a [Project]) -> (r: Vec<&'a Project>)
    ensures
        r@.map_values(|p: &Project| p@) == matching_projects(projects_view(projects@), prefix@),
{
    let ghost v = projects_view(projects@);
    let mut out: Vec<&'a Project> = Vec::new();
    let mut i: usize = 0;
    while i < projects.len()
        invariant
            i <= projects@.len(),
            v == projects_view(projects@),
            out@.map_values(|p: &Project| p@) == matching_projects(v.take(i as int), prefix@),
        decreases projects@.len() - i,
    {
        assert(v.take(i + 1).drop_last() =~= v.take(i as int));
        assert(v.take(i + 1).last() == projects@[i as int]@);
        let ghost prev = out@;
        if starts_with(projects[i].id.as_str(), prefix) {
            out.push(&projects[i]);
            assert(out@.map_values(|p: &Project| p@) =~= prev.map_values(|p: &Project| p@).push(
                projects@[i as int]@,
            ));
        }
        i = i + 1;
    }
    assert(v.take(projects@.len() as int) =~= v);
    out
}

/// Resolves a task ID prefix. A prefix shorter than 4 bytes is refused with
/// `InvalidIdPrefix`; no match gives `NotFound`; one match gives its full ID;
/// several give `AmbiguousTaskId` listing the first `max_candidates` of them.
pub fn resolve_task_id(prefix: &str, tasks: &[Task], max_candidates: usize) -> (r: Result<
    String,
    StoreError,
>)
    ensures
        ({
            let m = matching_tasks(tasks_view(tasks@), prefix@);
            &&& utf8_len(prefix@) < 4 ==> (r matches Err(
                StoreError::InvalidIdPrefix { prefix: p, min_len, actual_len },
            ) && p@ == prefix@ && min_len == 4 && actual_len == utf8_len(prefix@))
            &&& utf8_len(prefix@) >= 4 && m.len() == 0 ==> (r matches Err(StoreError::NotFound(msg))
                && msg@ == "未找到匹配的任务: "@ + prefix@)
            &&& utf8_len(prefix@) >= 4 && m.len() == 1 ==> (r matches Ok(id) && id@ == m[0].id)
            &&& utf8_len(prefix@) >= 4 && m.len() > 1 ==> (r matches Err(
                StoreError::AmbiguousTaskId { prefix: p, count, candidates },
            ) && p@ == prefix@ && count == m.len() && candidates@ == candidates_text(
                m.map_values(|t: TaskView| task_candidate_line(t)),
                max_candidates as nat,
                m.len(),
            ))
        }),
{
    if !byte_len_at_least(prefix, MIN_PREFIX_LEN) {
        return Err(short_prefix_error(prefix));
    }
    let matches = collect_matching_tasks(prefix, tasks);
    let ghost m = matching_tasks(tasks_view(tasks@), prefix@);
    let n = matches.len();
    if n == 0 {
        let mut msg = String::from_str("未找到匹配的任务: ");
        append_str(&mut msg, prefix);
        return Err(StoreError::NotFound(msg));
    }
    if n == 1 {
        assert(matches@[0]@ == m[0]);
        return Ok(matches[0].id.clone());
    }
    let shown = if max_candidates < n {
        max_candidates
    } else {
        n
    };
    let ghost all_lines = m.map_values(|t: TaskView| task_candidate_line(t));
    let mut lines: Vec<String> = Vec::new();
    let mut i: usize = 0;
    while i < shown
        invariant
            i <= shown <= n,
            n == matches@.len(),
            m == matches@.map_values(|t: &Task| t@),
            m == matching_tasks(tasks_view(tasks@), prefix@),
            all_lines == m.map_values(|t: TaskView| task_candidate_line(t)),
            crate::models::strings_view(lines@) == all_lines.take(i as int),
        decreases shown - i,
    {
        let t = matches[i];
        assert(m[i as int] == t@);
        let mut line = String::from_str("  ");
        append_str(&mut line, byte_prefix(t.id.as_str(), 8).as_str());
        append_str(&mut line, "  ");
        append_str(&mut line, byte_prefix(t.task_description.as_str(), 40).as_str());
        assert(line@ =~= task_candidate_line(t@));
        assert(all_lines[i as int] == task_candidate_line(m[i as int]));
        let ghost prev = crate::models::strings_view(lines@);
        let ghost lv = line@;
        lines.push(line);
        assert(crate::models::strings_view(lines@) =~= prev.push(lv));
        assert(all_lines.take(i + 1) =~= all_lines.take(i as int).push(all_lines[i as int]));
        i = i + 1;
    }
    assert(all_lines.take(
        if max_candidates < all_lines.len() { max_candidates as int } else { all_lines.len() as int },
    ) == all_lines.take(shown as int));
    assert(crate::models::strings_view(lines@).take(shown as int) =~= all_lines.take(shown as int));
    let candidates = format_candidates(lines, max_candidates, n);
    Err(StoreError::AmbiguousTaskId { prefix: prefix.to_owned(), count: n, candidates })
}

/// Resolves a project ID prefix, as `resolve_task_id` does for tasks, with
/// `ProjectNotFound` and `AmbiguousProjectId`.
pub fn resolve_project_id(prefix: &str, projects: &[Project], max_candidates: usize) -> (r: Result<
    String,
    StoreError,
>)
    ensures
        ({
            let m = matching_projects(projects_view(projects@), prefix@);
            &&& utf8_len(prefix@) < 4 ==> (r matches Err(
                StoreError::InvalidIdPrefix { prefix: p, min_len, actual_len },
            ) && p@ == prefix@ && min_len == 4 && actual_len == utf8_len(prefix@))
            &&& utf8_len(prefix@) >= 4 && m.len() == 0 ==> (r matches Err(
                StoreError::ProjectNotFound(msg),
            ) && msg@ == "未找到匹配的项目: "@ + prefix@)
            &&& utf8_len(prefix@) >= 4 && m.len() == 1 ==> (r matches Ok(id) && id@ == m[0].id)
            &&& utf8_len(prefix@) >= 4 && m.len() > 1 ==> (r matches Err(
                StoreError::AmbiguousProjectId { prefix: p, count, candidates },
            ) && p@ == prefix@ && count == m.len() && candidates@ == candidates_text(
                m.map_values(|q: ProjectView| project_candidate_line(q)),
                max_candidates as nat,
                m.len(),
            ))
        }),
{
    if !byte_len_at_least(prefix, MIN_PREFIX_LEN) {
        return Err(short_prefix_error(prefix));
    }
    let matches = collect_matching_projects(prefix, projects);
    let ghost m = matching_projects(projects_view(projects@), prefix@);
    let n = matches.len();
    if n == 0 {
        let mut msg = String::from_str("未找到匹配的项目: ");
        append_str(&mut msg, prefix);
        return Err(StoreError::ProjectNotFound(msg));
    }
    if n == 1 {
        assert(matches@[0]@ == m[0]);
        return Ok(matches[0].id.clone());
    }
    let shown = if max_candidates < n {
        max_candidates
    } else {
        n
    };
    let ghost all_lines = m.map_values(|q: ProjectView| project_candidate_line(q));
    let mut lines: Vec<String> = Vec::new();
    let mut i: usize = 0;
    while i < shown
        invariant
            i <= shown <= n,
            n == matches@.len(),
            m == matches@.map_values(|p: &Project| p@),
            m == matching_projects(projects_view(projects@), prefix@),
            all_lines == m.map_values(|q: ProjectView| project_candidate_line(q)),
            crate::models::strings_view(lines@) == all_lines.take(i as int),
        decreases shown - i,
    {
        let p = matches[i];
        assert(m[i as int] == p@);
        let mut line = String::from_str("  ");
        append_str(&mut line, byte_prefix(p.id.as_str(), 8).as_str());
        append_str(&mut line, "  ");
        append_str(&mut line, p.name.as_str());
        assert(line@ =~= project_candidate_line(p@));
        assert(all_lines[i as int] == project_candidate_line(m[i as int]));
        let ghost prev = crate::models::strings_view(lines@);
        let ghost lv = line@;
        lines.push(line);
        assert(crate::models::strings_view(lines@) =~= prev.push(lv));
        assert(all_lines.take(i + 1) =~= all_lines.take(i as int).push(all_lines[i as int]));
        i = i + 1;
    }
    assert(all_lines.take(
        if max_candidates < all_lines.len() { max_candidates as int } else { all_lines.len() as int },
    ) == all_lines.take(shown as int));
    assert(crate::models::strings_view(lines@).take(shown as int) =~= all_lines.take(shown as int));
    let candidates = format_candidates(lines, max_candidates, n);
    Err(StoreError::AmbiguousProjectId { prefix: prefix.to_owned(), count: n, candidates })
}

/// Whether `&s[..n]` is a valid slice of `s` (see `cuts_at`).
pub fn can_cut(s: &str, n: usize) -> (r: bool)
    requires
        n < usize::MAX,
    ensures
        r == cuts_at(s@, n as int),
{
    let v = chars_of(s);
    if is_char_boundary_at(&v, n) {
        true
    } else {
        !byte_len_at_least(s, n + 1)
    }
}

/// Whether a prefix picks exactly one task: it is at least 4 bytes long
/// and exactly one task ID starts with it.
pub open spec fn task_resolves(prefix: Seq<char>, ts: Seq<TaskView>) -> bool {
    utf8_len(prefix) >= 4 && matching_tasks(ts, prefix).len() == 1
}

/// Whether a prefix picks exactly one project.
pub open spec fn project_resolves(prefix: Seq<char>, ps: Seq<ProjectView>) -> bool {
    utf8_len(prefix) >= 4 && matching_projects(ps, prefix).len() == 1
}

/// The message of a prefix that is shorter than 4 bytes.
pub open spec fn short_prefix_text(prefix: Seq<char>) -> Seq<char> {
    "ID 前缀至少需要 "@ + decimal(4) + " 位，当前输入: \""@ + prefix + "\"（"@ + decimal(utf8_len(prefix))
        + " 位）"@
}

/// The message of a task prefix that does not pick exactly one task, with
/// up to 10 candidates when several match.
pub open spec fn task_resolve_failure(prefix: Seq<char>, ts: Seq<TaskView>) -> Seq<char> {
    let m = matching_tasks(ts, prefix);
    if utf8_len(prefix) < 4 {
        short_prefix_text(prefix)
    } else if m.len() == 0 {
        "任务不存在: "@ + "未找到匹配的任务: "@ + prefix
    } else {
        "前缀 \""@ + prefix + "\" 匹配到 "@ + decimal(m.len()) + " 个任务，请多输入几位以消除歧义:\n"@
            + candidates_text(m.map_values(|t: TaskView| task_candidate_line(t)), 10, m.len())
    }
}

/// The message of a project prefix that does not pick exactly one project.
pub open spec fn project_resolve_failure(prefix: Seq<char>, ps: Seq<ProjectView>) -> Seq<char> {
    let m = matching_projects(ps, prefix);
    if utf8_len(prefix) < 4 {
        short_prefix_text(prefix)
    } else if m.len() == 0 {
        "项目不存在: "@ + "未找到匹配的项目: "@ + prefix
    } else {
        "前缀 \""@ + prefix + "\" 匹配到 "@ + decimal(m.len()) + " 个项目，请多输入几位以消除歧义:\n"@
            + candidates_text(m.map_values(|q: ProjectView| project_candidate_line(q)), 10, m.len())
    }
}

/// The tasks a prefix matches are exactly those whose ID starts with it, each
/// kept at most as often as it occurs.
pub proof fn lemma_matching_tasks_members(ts: Seq<TaskView>, p: Seq<char>)
    ensures
        matching_tasks(ts, p).len() <= ts.len(),
        forall|t: TaskView|
            #[trigger] matching_tasks(ts, p).contains(t) <==> (ts.contains(t) && is_prefix_of(
                p,
                t.id,
            )),
    decreases ts.len(),
{
    if ts.len() > 0 {
        let d = ts.drop_last();
        lemma_matching_tasks_members(d, p);
        assert forall|t: TaskView|
            #[trigger] matching_tasks(ts, p).contains(t) <==> (ts.contains(t) && is_prefix_of(
                p,
                t.id,
            )) by {
            let md = matching_tasks(d, p);
            let mt = matching_tasks(ts, p);
            let last_in = is_prefix_of(p, ts.last().id);
            if last_in {
                assert(mt == md.push(ts.last()));
            } else {
                assert(mt == md);
            }
            if ts.contains(t) && is_prefix_of(p, t.id) {
                let k = choose|k: int| 0 <= k < ts.len() && ts[k] == t;
                if k < d.len() {
                    assert(d[k] == t);
                    assert(d.contains(t));
                    assert(md.contains(t));
                    let m = choose|m: int| 0 <= m < md.len() && md[m] == t;
                    assert(mt[m] == t);
                } else {
                    assert(mt[mt.len() - 1] == t);
                }
            }
            if mt.contains(t) {
                let k = choose|k: int| 0 <= k < mt.len() && mt[k] == t;
                if k < md.len() {
                    assert(md[k] == t);
                    assert(md.contains(t));
                    let j = choose|j: int| 0 <= j < d.len() && d[j] == t;
                    assert(ts[j] == t);
                } else {
                    assert(last_in);
                    assert(ts[ts.len() - 1] == t);
                }
            }
        }
    }
}

proof fn lemma_single_task_match(ts: Seq<TaskView>, p: Seq<char>, k: int)
    requires
        0 <= k < ts.len(),
        is_prefix_of(p, ts[k].id),
        forall|j: int| 0 <= j < ts.len() && j != k ==> !is_prefix_of(p, #[trigger] ts[j].id),
    ensures
        matching_tasks(ts, p) == seq![ts[k]],
    decreases ts.len(),
{
    let d = ts.drop_last();
    if k == ts.len() - 1 {
        assert forall|j: int| 0 <= j < d.len() implies !is_prefix_of(p, #[trigger] d[j].id) by {
            assert(d[j] == ts[j]);
        }
        lemma_no_task_matches(d, p);
        assert(matching_tasks(ts, p) =~= seq![ts[k]]);
    } else {
        assert forall|j: int| 0 <= j < d.len() && j != k implies !is_prefix_of(
            p,
            #[trigger] d[j].id,
        ) by {
            assert(d[j] == ts[j]);
        }
        assert(!is_prefix_of(p, ts[ts.len() - 1].id));
        lemma_single_task_match(d, p, k);
    }
}

/// A task's full ID picks that task, as long as it is at least 4 bytes long
/// and is not the beginning of another task's ID (true of distinct UUIDs).
pub proof fn lemma_full_task_id_resolves(ts: Seq<TaskView>, k: int)
    requires
        0 <= k < ts.len(),
        utf8_len(ts[k].id) >= 4,
        forall|j: int| 0 <= j < ts.len() && j != k ==> !is_prefix_of(ts[k].id, #[trigger] ts[j].id),
    ensures
        task_resolves(ts[k].id, ts),
        matching_tasks(ts, ts[k].id)[0] == ts[k],
{
    assert(ts[k].id.take(ts[k].id.len() as int) =~= ts[k].id);
    lemma_single_task_match(ts, ts[k].id, k);
}

proof fn lemma_single_project_match(ps: Seq<ProjectView>, p: Seq<char>, k: int)
    requires
        0 <= k < ps.len(),
        is_prefix_of(p, ps[k].id),
        forall|j: int| 0 <= j < ps.len() && j != k ==> !is_prefix_of(p, #[trigger] ps[j].id),
    ensures
        matching_projects(ps, p) == seq![ps[k]],
    decreases ps.len(),
{
    let d = ps.drop_last();
    if k == ps.len() - 1 {
        assert forall|j: int| 0 <= j < d.len() implies !is_prefix_of(p, #[trigger] d[j].id) by {
            assert(d[j] == ps[j]);
        }
        lemma_no_project_matches(d, p);
        assert(matching_projects(ps, p) =~= seq![ps[k]]);
    } else {
        assert forall|j: int| 0 <= j < d.len() && j != k implies !is_prefix_of(
            p,
            #[trigger] d[j].id,
        ) by {
            assert(d[j] == ps[j]);
        }
        assert(!is_prefix_of(p, ps[ps.len() - 1].id));
        lemma_single_project_match(d, p, k);
    }
}

/// A project's full ID picks that project, as long as it is at least 4 bytes
/// long and is not the beginning of another project's ID.
pub proof fn lemma_full_project_id_resolves(ps: Seq<ProjectView>, k: int)
    requires
        0 <= k < ps.len(),
        utf8_len(ps[k].id) >= 4,
        forall|j: int| 0 <= j < ps.len() && j != k ==> !is_prefix_of(ps[k].id, #[trigger] ps[j].id),
    ensures
        project_resolves(ps[k].id, ps),
        matching_projects(ps, ps[k].id)[0] == ps[k],
{
    assert(ps[k].id.take(ps[k].id.len() as int) =~= ps[k].id);
    lemma_single_project_match(ps, ps[k].id, k);
}

proof fn lemma_no_task_matches(ts: Seq<TaskView>, p: Seq<char>)
    requires
        forall|k: int| 0 <= k < ts.len() ==> !is_prefix_of(p, #[trigger] ts[k].id),
    ensures
        matching_tasks(ts, p).len() == 0,
    decreases ts.len(),
{
    if ts.len() > 0 {
        assert(!is_prefix_of(p, ts[ts.len() - 1].id));
        lemma_no_task_matches(ts.drop_last(), p);
    }
}

proof fn lemma_first_task_match(ts: Seq<TaskView>, p: Seq<char>, i: int)
    requires
        0 <= i < ts.len(),
        is_prefix_of(p, ts[i].id),
        forall|k: int| 0 <= k < i ==> !is_prefix_of(p, #[trigger] ts[k].id),
    ensures
        matching_tasks(ts, p).len() > 0,
        matching_tasks(ts, p)[0] == ts[i],
    decreases ts.len(),
{
    if i == ts.len() - 1 {
        assert forall|k: int| 0 <= k < ts.drop_last().len() implies !is_prefix_of(
            p,
            #[trigger] ts.drop_last()[k].id,
        ) by {
            assert(ts.drop_last()[k] == ts[k]);
        }
        lemma_no_task_matches(ts.drop_last(), p);
    } else {
        assert forall|k: int| 0 <= k < i implies !is_prefix_of(p, #[trigger] ts.drop_last()[k].id) by {
            assert(ts.drop_last()[k] == ts[k]);
        }
        lemma_first_task_match(ts.drop_last(), p, i);
    }
}

proof fn lemma_no_project_matches(ps: Seq<ProjectView>, p: Seq<char>)
    requires
        forall|k: int| 0 <= k < ps.len() ==> !is_prefix_of(p, #[trigger] ps[k].id),
    ensures
        matching_projects(ps, p).len() == 0,
    decreases ps.len(),
{
    if ps.len() > 0 {
        assert(!is_prefix_of(p, ps[ps.len() - 1].id));
        lemma_no_project_matches(ps.drop_last(), p);
    }
}

proof fn lemma_first_project_match(ps: Seq<ProjectView>, p: Seq<char>, i: int)
    requires
        0 <= i < ps.len(),
        is_prefix_of(p, ps[i].id),
        forall|k: int| 0 <= k < i ==> !is_prefix_of(p, #[trigger] ps[k].id),
    ensures
        matching_projects(ps, p).len() > 0,
        matching_projects(ps, p)[0] == ps[i],
    decreases ps.len(),
{
    if i == ps.len() - 1 {
        assert forall|k: int| 0 <= k < ps.drop_last().len() implies !is_prefix_of(
            p,
            #[trigger] ps.drop_last()[k].id,
        ) by {
            assert(ps.drop_last()[k] == ps[k]);
        }
        lemma_no_project_matches(ps.drop_last(), p);
    } else {
        assert forall|k: int| 0 <= k < i implies !is_prefix_of(p, #[trigger] ps.drop_last()[k].id) by {
            assert(ps.drop_last()[k] == ps[k]);
        }
        lemma_first_project_match(ps.drop_last(), p, i);
    }
}

/// The position of the one task a prefix picks, or the error explaining why
/// it picks none: `NotFound` when nothing matches a long enough prefix.
pub fn locate_task(prefix: &str, tasks: &[Task]) -> (r: Result<usize, StoreError>)
    ensures
        r is Ok <==> task_resolves(prefix@, tasks_view(tasks@)),
        r matches Ok(i) ==> i < tasks@.len() && tasks@[i as int]@ == matching_tasks(
            tasks_view(tasks@),
            prefix@,
        )[0],
        r matches Err(e) ==> error_text(e) == task_resolve_failure(prefix@, tasks_view(tasks@)),
        r matches Err(e) ==> (e is NotFound <==> (utf8_len(prefix@) >= 4 && matching_tasks(
            tasks_view(tasks@),
            prefix@,
        ).len() == 0)),
{
    match resolve_task_id(prefix, tasks, 10) {
        Err(e) => Err(e),
        Ok(_) => {
            let ghost ts = tasks_view(tasks@);
            let mut i: usize = 0;
            while i < tasks.len() && !starts_with(tasks[i].id.as_str(), prefix)
                invariant
                    i <= tasks@.len(),
                    ts == tasks_view(tasks@),
                    task_resolves(prefix@, ts),
                    forall|k: int| 0 <= k < i ==> !is_prefix_of(prefix@, #[trigger] ts[k].id),
                decreases tasks@.len() - i,
            {
                i = i + 1;
            }
            if i == tasks.len() {
                proof {
                    lemma_no_task_matches(ts, prefix@);
                }
                return Err(StoreError::NotFound(String::new()));
            }
            proof {
                lemma_first_task_match(ts, prefix@, i as int);
            }
            Ok(i)
        },
    }
}

/// The position of the one project a prefix picks, or the error explaining
/// why it picks none: `ProjectNotFound` when nothing matches a long enough
/// prefix.
pub fn locate_project(prefix: &str, projects: &[Project]) -> (r: Result<usize, StoreError>)
    ensures
        r is Ok <==> project_resolves(prefix@, projects_view(projects@)),
        r matches Ok(i) ==> i < projects@.len() && projects@[i as int]@ == matching_projects(
            projects_view(projects@),
            prefix@,
        )[0],
        r matches Err(e) ==> error_text(e) == project_resolve_failure(prefix@, projects_view(projects@)),
        r matches Err(e) ==> (e is ProjectNotFound <==> (utf8_len(prefix@) >= 4 && matching_projects(
            projects_view(projects@),
            prefix@,
        ).len() == 0)),
{
    match resolve_project_id(prefix, projects, 10) {
        Err(e) => Err(e),
        Ok(_) => {
            let ghost ps = projects_view(projects@);
            let mut i: usize = 0;
            while i < projects.len() && !starts_with(projects[i].id.as_str(), prefix)
                invariant
                    i <= projects@.len(),
                    ps == projects_view(projects@),
                    project_resolves(prefix@, ps),
                    forall|k: int| 0 <= k < i ==> !is_prefix_of(prefix@, #[trigger] ps[k].id),
                decreases projects@.len() - i,
            {
                i = i + 1;
            }
            if i == projects.len() {
                proof {
                    lemma_no_project_matches(ps, prefix@);
                }
                return Err(StoreError::ProjectNotFound(String::new()));
            }
            proof {
                lemma_first_project_match(ps, prefix@, i as int);
            }
            Ok(i)
        },
    }
}

/// The position of the one task a prefix picks, or the message explaining
/// why it picks none (see `task_resolve_failure`).
pub fn find_task(prefix: &str, tasks: &[Task]) -> (r: Result<usize, String>)
    ensures
        r is Ok <==> task_resolves(prefix@, tasks_view(tasks@)),
        r matches Ok(i) ==> i < tasks@.len() && tasks@[i as int]@ == matching_tasks(
            tasks_view(tasks@),
            prefix@,
        )[0],
        r matches Err(msg) ==> msg@ == task_resolve_failure(prefix@, tasks_view(tasks@)),
{
    match locate_task(prefix, tasks) {
        Ok(i) => Ok(i),
        Err(e) => Err(e.message()),
    }
}

/// The position of the one project a prefix picks, or the message
/// explaining why it picks none (see `project_resolve_failure`).
pub fn find_project(prefix: &str, projects: &[Project]) -> (r: Result<usize, String>)
    ensures
        r is Ok <==> project_resolves(prefix@, projects_view(projects@)),
        r matches Ok(i) ==> i < projects@.len() && projects@[i as int]@ == matching_projects(
            projects_view(projects@),
            prefix@,
        )[0],
        r matches Err(msg) ==> msg@ == project_resolve_failure(prefix@, projects_view(projects@)),
{
    match locate_project(prefix, projects) {
        Ok(i) => Ok(i),
        Err(e) => Err(e.message()),
    }
}

} // verus!
