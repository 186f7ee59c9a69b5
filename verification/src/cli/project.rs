//! Project commands: new, ls, show, rm, add-task, rm-task, init.

use vstd::prelude::*;

use crate::cli::error::CliError;
use crate::cli::item::saved_as;
use crate::cli::output::fraction_text;
use crate::cli::task::{
    in_project, lookup_project, lookup_task, picked, picked_cuts, project_lookup_failed,
    project_picked_cuts, task_lookup_failed,
};
use crate::ids::{lemma_uuid_cuts, short_id, short_id_of};
use crate::logic::project::create_project;
use crate::logic::resolve::{
    matching_projects, project_resolves, task_resolves,
};
use crate::logic::task::{done_count, ids_cut, set_task_project, touch};
use crate::models::{Project, ProjectView, Task, TaskView, projects_view, tasks_view};
use crate::text::{append_str, cuts_at, decimal, usize_to_decimal};

verus! {

/// Project subcommands.
#[derive(Debug, Clone)]
pub enum ProjectCommands {
    /// Create a project.
    New { name: String, description: Option<String> },
    /// List projects.
    Ls,
    /// Show a project and its tasks.
    Show { id: String },
    /// Delete a project (and its tasks with `with_tasks`).
    Rm { id: String, with_tasks: bool },
    /// Put a task into a project.
    AddTask { project_id: String, task_id: String },
    /// Take a task out of its project.
    RmTask { project_id: String, task_id: String },
    /// Write the workspace project file.
    Init { project_id: String, force: bool },
}

/// Every project ID cuts at 8 bytes.
pub open spec fn project_ids_cut(ps: Seq<ProjectView>) -> bool {
    forall|i: int| 0 <= i < ps.len() ==> cuts_at(#[trigger] ps[i].id, 8)
}

/// Whether every project ID cuts at 8 bytes.
pub fn project_ids_fit(projects: &[Project]) -> (r: bool)
    ensures
        r == project_ids_cut(projects_view(projects@)),
{
    let ghost v = projects_view(projects@);
    let mut i: usize = 0;
    while i < projects.len()
        invariant
            i <= projects@.len(),
            v == projects_view(projects@),
            forall|k: int| 0 <= k < i ==> cuts_at(#[trigger] v[k].id, 8),
        decreases projects@.len() - i,
    {
        if !crate::logic::resolve::can_cut(projects[i].id.as_str(), 8) {
            assert(!cuts_at(v[i as int].id, 8));
            return false;
        }
        i = i + 1;
    }
    true
}

/// `project new`: a new project; the message is "项目已创建: <name> (<short ID>)".
pub fn project_new(name: &str, description: Option<&str>) -> (r: (Project, String))
    ensures
        crate::ids::is_uuid_format(r.0@.id),
        r.0@.name == name@,
        r.0@.description == crate::models::opt_str_view(description),
        r.0@.created_at == r.0@.updated_at,
        r.1@ == "项目已创建: "@ + name@ + " ("@ + short_id_of(r.0@.id) + ")"@,
{
    let p = create_project(name, description);
    proof {
        lemma_uuid_cuts(p@.id);
    }
    let mut m = String::from_str("项目已创建: ");
    append_str(&mut m, name);
    append_str(&mut m, " (");
    append_str(&mut m, short_id(p.id.as_str()).as_str());
    append_str(&mut m, ")");
    (p, m)
}

/// One line of the project list: short ID and name, then the description
/// in parentheses when it is not empty.
pub open spec fn project_line(p: ProjectView) -> Seq<char> {
    let d = match p.description {
        Some(x) => x,
        None => Seq::empty(),
    };
    short_id_of(p.id) + "  "@ + p.name + if d.len() == 0 {
        Seq::empty()
    } else {
        "  ("@ + d + ")"@
    }
}

/// The project list lines, each followed by a line break.
pub open spec fn project_lines(ps: Seq<ProjectView>) -> Seq<char>
    decreases ps.len(),
{
    if ps.len() == 0 {
        Seq::empty()
    } else {
        project_lines(ps.drop_last()) + project_line(ps.last()) + "\n"@
    }
}

/// The text `project ls` prints.
pub open spec fn project_list_text(ps: Seq<ProjectView>) -> Seq<char> {
    if ps.len() == 0 {
        "当前没有任何项目\n"@
    } else {
        project_lines(ps)
    }
}

/// The text `project ls` prints (see `project_list_text`).
pub fn project_list(projects: &[Project]) -> (r: String)
    requires
        project_ids_cut(projects_view(projects@)),
    ensures
        r@ == project_list_text(projects_view(projects@)),
{
    if projects.len() == 0 {
        return String::from_str("当前没有任何项目\n");
    }
    let ghost v = projects_view(projects@);
    let mut out = String::new();
    let mut i: usize = 0;
    while i < projects.len()
        invariant
            i <= projects@.len(),
            v == projects_view(projects@),
            project_ids_cut(v),
            out@ == project_lines(v.take(i as int)),
        decreases projects@.len() - i,
    {
        assert(v.take(i + 1).drop_last() =~= v.take(i as int));
        let p = &projects[i];
        assert(v[i as int] == p@);
        assert(cuts_at(v[i as int].id, 8));
        let ghost before = out@;
        append_str(&mut out, short_id(p.id.as_str()).as_str());
        append_str(&mut out, "  ");
        append_str(&mut out, p.name.as_str());
        let has_desc = match &p.description {
            Some(d) => d.as_str().unicode_len() > 0,
            None => false,
        };
        if has_desc {
            append_str(&mut out, "  (");
            match &p.description {
                Some(d) => append_str(&mut out, d.as_str()),
                None => {},
            }
            append_str(&mut out, ")");
        }
        append_str(&mut out, "\n");
        assert(out@ =~= before + project_line(p@) + "\n"@);
        i = i + 1;
    }
    assert(v.take(i as int) =~= v);
    out
}

/// One task line of `project show`: number from 1, description, short ID
/// and progress.
pub open spec fn project_task_line(n: nat, t: TaskView) -> Seq<char> {
    "  "@ + decimal(n) + ". "@ + t.task_description + " ("@ + short_id_of(t.id) + ") "@ + fraction_text(
        done_count(t.checklist),
        t.checklist.len(),
    ) + "\n"@
}

/// The task lines of `project show`.
pub open spec fn project_task_lines(ts: Seq<TaskView>) -> Seq<char>
    decreases ts.len(),
{
    if ts.len() == 0 {
        Seq::empty()
    } else {
        project_task_lines(ts.drop_last()) + project_task_line(ts.len(), ts.last())
    }
}

/// The text `project show` prints for a project and its tasks.
pub open spec fn project_show_text(p: ProjectView, ts: Seq<TaskView>) -> Seq<char> {
    "ID: "@ + p.id + "\n"@ + "名称: "@ + p.name + "\n"@ + match p.description {
        Some(d) => "描述: "@ + d + "\n"@,
        None => Seq::empty(),
    } + "创建时间: "@ + p.created_at + "\n"@ + "更新时间: "@ + p.updated_at + "\n"@ + if ts.len() == 0 {
        "\n关联任务: 无\n"@
    } else {
        "\n关联任务:\n"@ + project_task_lines(ts)
    }
}

fn append_project_head(out: &mut String, p: &Project)
    ensures
        final(out)@ == old(out)@ + "ID: "@ + p@.id + "\n"@ + "名称: "@ + p@.name + "\n"@ + match p@.description {
            Some(d) => "描述: "@ + d + "\n"@,
            None => Seq::empty(),
        } + "创建时间: "@ + p@.created_at + "\n"@ + "更新时间: "@ + p@.updated_at + "\n"@,
{
    let ghost start = out@;
    append_str(out, "ID: ");
    append_str(out, p.id.as_str());
    append_str(out, "\n");
    append_str(out, "名称: ");
    append_str(out, p.name.as_str());
    append_str(out, "\n");
    let ghost mid = out@;
    if let Some(d) = &p.description {
        append_str(out, "描述: ");
        append_str(out, d.as_str());
        append_str(out, "\n");
    }
    let ghost mid2 = out@;
    append_str(out, "创建时间: ");
    append_str(out, p.created_at.as_str());
    append_str(out, "\n");
    append_str(out, "更新时间: ");
    append_str(out, p.updated_at.as_str());
    append_str(out, "\n");
    assert(mid =~= start + "ID: "@ + p@.id + "\n"@ + "名称: "@ + p@.name + "\n"@);
    assert(out@ =~= mid2 + "创建时间: "@ + p@.created_at + "\n"@ + "更新时间: "@ + p@.updated_at + "\n"@);
}

/// `project show`: the details of the project the prefix picks and the
/// lines of its tasks.
pub fn project_show(id: &str, projects: &[Project], tasks: &[Task]) -> (r: Result<String, CliError>)
    requires
        project_resolves(id@, projects_view(projects@)) ==> ids_cut(
            in_project(tasks_view(tasks@), matching_projects(projects_view(projects@), id@)[0].id),
        ),
    ensures
        r is Ok <==> project_resolves(id@, projects_view(projects@)),
        r matches Err(e) ==> project_lookup_failed(e, id@, projects_view(projects@)),
        r matches Ok(s) ==> ({
            let p = matching_projects(projects_view(projects@), id@)[0];
            s@ == project_show_text(p, in_project(tasks_view(tasks@), p.id))
        }),
{
    let i = lookup_project(id, projects)?;
    let p = &projects[i];
    let ghost scoped = in_project(tasks_view(tasks@), p@.id);
    let mut mine: Vec<&Task> = Vec::new();
    let ghost v = tasks_view(tasks@);
    let mut j: usize = 0;
    while j < tasks.len()
        invariant
            j <= tasks@.len(),
            v == tasks_view(tasks@),
            crate::logic::task::refs_view(mine@) == in_project(v.take(j as int), p@.id),
        decreases tasks@.len() - j,
    {
        assert(v.take(j + 1).drop_last() =~= v.take(j as int));
        let inside = match &tasks[j].project_id {
            Some(q) => crate::text::str_eq(q.as_str(), p.id.as_str()),
            None => false,
        };
        let ghost before = mine@;
        if inside {
            mine.push(&tasks[j]);
            assert(crate::logic::task::refs_view(mine@) =~= crate::logic::task::refs_view(before).push(
                v[j as int],
            ));
        }
        j = j + 1;
    }
    assert(v.take(j as int) =~= v);
    let mut out = String::new();
    append_project_head(&mut out, p);
    let ghost head = out@;
    if mine.len() == 0 {
        append_str(&mut out, "\n关联任务: 无\n");
    } else {
        append_str(&mut out, "\n关联任务:\n");
        let ghost start = out@;
        let ghost ms = crate::logic::task::refs_view(mine@);
        let mut k: usize = 0;
        while k < mine.len()
            invariant
                k <= mine@.len(),
                ms == crate::logic::task::refs_view(mine@),
                ms == scoped,
                ids_cut(scoped),
                out@ == start + project_task_lines(ms.take(k as int)),
            decreases mine@.len() - k,
        {
            assert(ms.take(k + 1).drop_last() =~= ms.take(k as int));
            let t = mine[k];
            assert(ms[k as int] == t@);
            assert(cuts_at(ms[k as int].id, 8));
            let ghost before = out@;
            append_str(&mut out, "  ");
            append_str(&mut out, usize_to_decimal(k + 1).as_str());
            append_str(&mut out, ". ");
            append_str(&mut out, t.task_description.as_str());
            append_str(&mut out, " (");
            append_str(&mut out, short_id(t.id.as_str()).as_str());
            append_str(&mut out, ") ");
            append_str(&mut out, usize_to_decimal(crate::logic::task::count_done(&t.checklist)).as_str());
            append_str(&mut out, "/");
            append_str(&mut out, usize_to_decimal(t.checklist.len()).as_str());
            append_str(&mut out, "\n");
            assert(out@ =~= before + project_task_line((k + 1) as nat, t@));
            k = k + 1;
        }
        assert(ms.take(k as int) =~= ms);
    }
    assert(out@ =~= project_show_text(p@, scoped));
    Ok(out)
}

/// `project rm`: the ID of the project the prefix picks, and the message
/// "项目 <short ID> 及其关联任务已删除" (with its tasks) or
/// "项目 <short ID> 已删除（关联任务保留）".
pub fn project_remove(id: &str, with_tasks: bool, projects: &[Project]) -> (r: Result<(String, String), CliError>)
    requires
        project_picked_cuts(id@, projects_view(projects@)),
    ensures
        r is Ok <==> project_resolves(id@, projects_view(projects@)),
        r matches Err(e) ==> project_lookup_failed(e, id@, projects_view(projects@)),
        r matches Ok((pid, m)) ==> pid@ == matching_projects(projects_view(projects@), id@)[0].id && m@ == "项目 "@
            + short_id_of(pid@) + if with_tasks {
            " 及其关联任务已删除"@
        } else {
            " 已删除（关联任务保留）"@
        },
{
    let i = lookup_project(id, projects)?;
    let pid = projects[i].id.clone();
    let mut m = String::from_str("项目 ");
    append_str(&mut m, short_id(pid.as_str()).as_str());
    if with_tasks {
        append_str(&mut m, " 及其关联任务已删除");
    } else {
        append_str(&mut m, " 已删除（关联任务保留）");
    }
    Ok((pid, m))
}

/// `project add-task`: the picked task put into the picked project; the
/// message is "任务 <task short ID> 已添加到项目 <project short ID>".
pub fn project_add_task(
    project_id: &str,
    task_id: &str,
    projects: &[Project],
    tasks: &[Task],
) -> (r: Result<(Task, String), CliError>)
    requires
        project_picked_cuts(project_id@, projects_view(projects@)),
        picked_cuts(task_id@, tasks_view(tasks@)),
    ensures
        !project_resolves(project_id@, projects_view(projects@)) ==> (r matches Err(e) && project_lookup_failed(
            e,
            project_id@,
            projects_view(projects@),
        )),
        project_resolves(project_id@, projects_view(projects@)) && !task_resolves(task_id@, tasks_view(tasks@))
            ==> (r matches Err(e) && task_lookup_failed(e, task_id@, tasks_view(tasks@))),
        project_resolves(project_id@, projects_view(projects@)) && task_resolves(task_id@, tasks_view(tasks@))
            ==> ({
            let p = matching_projects(projects_view(projects@), project_id@)[0];
            let t = picked(task_id@, tasks_view(tasks@));
            r matches Ok((x, m)) && saved_as(x@, TaskView { project_id: Some(p.id), ..t }) && m@ == "任务 "@
                + short_id_of(t.id) + " 已添加到项目 "@ + short_id_of(p.id)
        }),
{
    let pi = lookup_project(project_id, projects)?;
    let ti = lookup_task(task_id, tasks)?;
    let mut t = tasks[ti].copy();
    set_task_project(&mut t, Some(projects[pi].id.as_str()));
    touch(&mut t);
    let mut m = String::from_str("任务 ");
    append_str(&mut m, short_id(tasks[ti].id.as_str()).as_str());
    append_str(&mut m, " 已添加到项目 ");
    append_str(&mut m, short_id(projects[pi].id.as_str()).as_str());
    Ok((t, m))
}

/// `project rm-task`: the picked task taken out of its project (the
/// project argument is not used); the message is
/// "任务 <short ID> 已从项目中移除".
pub fn project_remove_task(task_id: &str, tasks: &[Task]) -> (r: Result<(Task, String), CliError>)
    requires
        picked_cuts(task_id@, tasks_view(tasks@)),
    ensures
        r is Ok <==> task_resolves(task_id@, tasks_view(tasks@)),
        r matches Err(e) ==> task_lookup_failed(e, task_id@, tasks_view(tasks@)),
        r matches Ok((x, m)) ==> ({
            let t = picked(task_id@, tasks_view(tasks@));
            saved_as(x@, TaskView { project_id: None, ..t }) && m@ == "任务 "@ + short_id_of(t.id) + " 已从项目中移除"@
        }),
{
    let ti = lookup_task(task_id, tasks)?;
    let mut t = tasks[ti].copy();
    set_task_project(&mut t, None);
    touch(&mut t);
    let mut m = String::from_str("任务 ");
    append_str(&mut m, short_id(tasks[ti].id.as_str()).as_str());
    append_str(&mut m, " 已从项目中移除");
    Ok((t, m))
}

} // verus!
