//! The MCP tools: what each tool call does to the tasks and projects and
//! what it answers.
//!
//! Each tool takes its parameters and the tasks or projects as loaded, and
//! returns an `Outcome`: the change the server persists and the reply it
//! sends. Task and project IDs may be given as prefixes of at least four
//! bytes.

use vstd::prelude::*;

use crate::ids::{is_uuid_format, new_uuid};
use crate::logic::item::{
    add_checklist_item, item_index_message, remove_checklist_item, reorder_checklist_item,
    reordered, update_checklist_item, updated_item, with_checklist,
};
use crate::logic::note::with_notes;
use crate::logic::project::{create_project, touch_project, update_project, updated_project};
use crate::logic::resolve::{
    find_project, find_task, matching_projects, matching_tasks,
    project_resolve_failure, project_resolves, task_resolve_failure,
    task_resolves,
};
use crate::logic::resource::with_resources;
use crate::logic::task::{
    checklist_summary_text, format_task_list_smart, get_checklist_summary as summary_text,
    ids_cut, initialize_task, merge_metadata, merged_metadata, smart_list_text, touch,
};
use crate::models::{
    ChecklistItem, ChecklistItemView, Project, ProjectView, Resource, ResourceView, Task,
    TaskMetadata, TaskMetadataView, TaskView, items_view, opt_str_view, opt_view, projects_view,
    resources_view, strings_view, tags_view, tasks_view,
};
use crate::text::append_str;
use crate::tools::params::{
    Action, AddNoteParams, AddResourceParams, ClearTaskParams, GetChecklistSummaryParams,
    InitialChecklistItem, InitializeTaskParams, ListTasksParams, ManageChecklistItemParams,
    ManageProjectParams, ProjectAction, ResourceInput, TaskMetadataInput, UpdateTaskParams,
};

verus! {

/// What a tool call changes in the store.
#[derive(Debug)]
pub enum Change {
    /// Nothing.
    Unchanged,
    /// Insert the task, or replace the task with its ID.
    SaveTask(Task),
    /// Delete the task with this ID.
    DeleteTask(String),
    /// Insert the project, or replace the project with its ID.
    SaveProject(Project),
    /// Delete the project with this ID; its tasks are deleted too when
    /// `with_tasks`, else they leave the project.
    DeleteProject { project_id: String, with_tasks: bool },
}

/// What a tool call answers.
#[derive(Debug)]
pub enum Reply {
    /// A task, sent as JSON.
    Task(Task),
    /// A project, sent as JSON.
    Project(Project),
    /// Projects, sent as a JSON array.
    Projects(Vec<Project>),
    /// A text result.
    Text(String),
    /// A failed operation, sent as an error result with this message.
    Failure(String),
    /// A missing parameter, sent as an invalid-parameters protocol error.
    InvalidParams(String),
}

/// The change and the reply of a tool call.
#[derive(Debug)]
pub struct Outcome {
    pub change: Change,
    pub reply: Reply,
}

/// The call saved a task equal to `expected` but for the update time, and
/// replied with it.
pub open spec fn saves_task(o: Outcome, expected: TaskView) -> bool {
    match o.change {
        Change::SaveTask(t) => t@ == (TaskView { updated_at: t@.updated_at, ..expected }) && replies_saved(o),
        _ => false,
    }
}

/// The call replied with the task it saved.
pub open spec fn replies_saved(o: Outcome) -> bool {
    match (o.change, o.reply) {
        (Change::SaveTask(t), Reply::Task(u)) => u@ == t@,
        _ => false,
    }
}

/// The call changed nothing and failed with message `m`.
pub open spec fn fails_with(o: Outcome, m: Seq<char>) -> bool {
    &&& o.change is Unchanged
    &&& o.reply matches Reply::Failure(x) && x@ == m
}

/// The call changed nothing and refused its parameters with message `m`.
pub open spec fn rejects(o: Outcome, m: Seq<char>) -> bool {
    &&& o.change is Unchanged
    &&& o.reply matches Reply::InvalidParams(x) && x@ == m
}

/// The call changed nothing and answered the text `m`.
pub open spec fn answers(o: Outcome, m: Seq<char>) -> bool {
    &&& o.change is Unchanged
    &&& o.reply matches Reply::Text(x) && x@ == m
}

/// The task a prefix picks.
pub open spec fn picked_task(prefix: Seq<char>, ts: Seq<TaskView>) -> TaskView {
    matching_tasks(ts, prefix)[0]
}

/// The project a prefix picks.
pub open spec fn picked_project(prefix: Seq<char>, ps: Seq<ProjectView>) -> ProjectView {
    matching_projects(ps, prefix)[0]
}

fn saved(t: Task) -> (o: Outcome)
    ensures
        saves_task(o, t@),
{
    let reply = t.copy();
    Outcome { change: Change::SaveTask(t), reply: Reply::Task(reply) }
}

fn failed(m: String) -> (o: Outcome)
    ensures
        fails_with(o, m@),
{
    Outcome { change: Change::Unchanged, reply: Reply::Failure(m) }
}

fn refused(m: &str) -> (o: Outcome)
    ensures
        rejects(o, m@),
{
    Outcome { change: Change::Unchanged, reply: Reply::InvalidParams(String::from_str(m)) }
}

// ── new_task ───────────────────────────────────────────────────────────────

/// An item built from an input: the input's fields, and its ID when given,
/// else a fresh UUID.
pub open spec fn item_from_input(inp: InitialChecklistItem, it: ChecklistItemView) -> bool {
    &&& it.task == inp.task@
    &&& it.detailed_description == inp.detailed_description@
    &&& it.context_and_plan == opt_view(inp.context_and_plan)
    &&& it.done == inp.done
    &&& match inp.id {
        Some(id) => it.id == id@,
        None => is_uuid_format(it.id),
    }
}

/// The items built from the inputs, one for one and in order.
pub open spec fn items_from_inputs(inps: Seq<InitialChecklistItem>, its: Seq<ChecklistItemView>) -> bool {
    inps.len() == its.len() && forall|i: int| 0 <= i < inps.len() ==> item_from_input(#[trigger] inps[i], its[i])
}

/// The resource built from an input.
pub open spec fn resource_from_input(r: ResourceInput) -> ResourceView {
    ResourceView { name: r.name@, url: r.url@, description: opt_view(r.description) }
}

/// The metadata built from an input.
pub open spec fn metadata_from_input(m: Option<TaskMetadataInput>) -> Option<TaskMetadataView> {
    match m {
        Some(x) => Some(
            TaskMetadataView {
                tags: tags_view(x.tags),
                priority: opt_view(x.priority),
                estimated_completion_time: opt_view(x.estimated_completion_time),
            },
        ),
        None => None,
    }
}

/// Builds checklist items from inputs, generating the missing IDs.
pub fn checklist_from_inputs(items: Vec<InitialChecklistItem>) -> (r: Vec<ChecklistItem>)
    ensures
        items_from_inputs(items@, items_view(r@)),
{
    let mut out: Vec<ChecklistItem> = Vec::new();
    let mut i: usize = 0;
    while i < items.len()
        invariant
            i <= items@.len(),
            out@.len() == i,
            forall|k: int| 0 <= k < i ==> item_from_input(#[trigger] items@[k], out@[k]@),
        decreases items@.len() - i,
    {
        let inp = &items[i];
        let id = match &inp.id {
            Some(id) => id.clone(),
            None => new_uuid(),
        };
        let item = ChecklistItem {
            id,
            task: inp.task.clone(),
            detailed_description: inp.detailed_description.clone(),
            context_and_plan: crate::models::copy_opt(&inp.context_and_plan),
            done: inp.done,
        };
        out.push(item);
        i = i + 1;
    }
    assert forall|k: int| 0 <= k < items@.len() implies item_from_input(
        #[trigger] items@[k],
        items_view(out@)[k],
    ) by {
        assert(items_view(out@)[k] == out@[k]@);
    }
    out
}

/// Builds resources from inputs.
pub fn resources_from_inputs(inputs: Vec<ResourceInput>) -> (r: Vec<Resource>)
    ensures
        resources_view(r@) == inputs@.map_values(|x: ResourceInput| resource_from_input(x)),
{
    let mut out: Vec<Resource> = Vec::new();
    let mut i: usize = 0;
    while i < inputs.len()
        invariant
            i <= inputs@.len(),
            out@.len() == i,
            forall|k: int| 0 <= k < i ==> #[trigger] out@[k]@ == resource_from_input(inputs@[k]),
        decreases inputs@.len() - i,
    {
        let x = &inputs[i];
        out.push(
            Resource {
                name: x.name.clone(),
                url: x.url.clone(),
                description: crate::models::copy_opt(&x.description),
            },
        );
        i = i + 1;
    }
    assert(resources_view(out@) =~= inputs@.map_values(|x: ResourceInput| resource_from_input(x)));
    out
}

/// Builds metadata from an input.
pub fn metadata_from(m: Option<TaskMetadataInput>) -> (r: Option<TaskMetadata>)
    ensures
        crate::models::meta_view(r) == metadata_from_input(m),
{
    match m {
        Some(x) => Some(
            TaskMetadata { tags: x.tags, priority: x.priority, estimated_completion_time: x.estimated_completion_time },
        ),
        None => None,
    }
}

/// Whether a new task matches the parameters it was created from, in the
/// project `project` (a full ID).
pub open spec fn created_from(t: TaskView, params: InitializeTaskParams, project: Option<Seq<char>>) -> bool {
    &&& is_uuid_format(t.id)
    &&& t.task_description == params.task_description@
    &&& t.context_for_all_tasks == opt_view(params.context_for_all_tasks)
    &&& items_from_inputs(
        match params.initial_checklist {
            Some(v) => v@,
            None => Seq::empty(),
        },
        t.checklist,
    )
    &&& t.notes == match params.notes {
        Some(v) => strings_view(v@),
        None => Seq::empty(),
    }
    &&& t.resources == match params.resources {
        Some(v) => v@.map_values(|x: ResourceInput| resource_from_input(x)),
        None => Seq::empty(),
    }
    &&& t.metadata == metadata_from_input(params.metadata)
    &&& t.project_id == project
    &&& t.created_at == t.updated_at
}

/// The call saved a new task created from `params` in `project`, and
/// replied with it.
pub open spec fn creates_task(o: Outcome, params: InitializeTaskParams, project: Option<Seq<char>>) -> bool {
    &&& o.change matches Change::SaveTask(t) && created_from(t@, params, project)
    &&& replies_saved(o)
}

/// `new_task`: creates a task from the parameters. A given project prefix
/// must pick one project, whose full ID the task gets; otherwise the call
/// fails with the resolution message.
pub fn new_task(params: InitializeTaskParams, projects: &[Project]) -> (o: Outcome)
    ensures
        match params.project_id {
            Some(p) => if project_resolves(p@, projects_view(projects@)) {
                creates_task(o, params, Some(picked_project(p@, projects_view(projects@)).id))
            } else {
                fails_with(o, project_resolve_failure(p@, projects_view(projects@)))
            },
            None => creates_task(o, params, None),
        },
{
    let project: Option<String> = match &params.project_id {
        Some(p) => match find_project(p.as_str(), projects) {
            Ok(i) => Some(projects[i].id.clone()),
            Err(m) => return failed(m),
        },
        None => None,
    };
    let ghost pv = opt_view(project);
    let checklist = match params.initial_checklist {
        Some(v) => checklist_from_inputs(v),
        None => Vec::new(),
    };
    proof {
        if params.initial_checklist is None {
            assert(items_view(checklist@) =~= Seq::empty());
        }
    }
    let notes = match params.notes {
        Some(v) => v,
        None => Vec::new(),
    };
    proof {
        if params.notes is None {
            assert(strings_view(notes@) =~= Seq::empty());
        }
    }
    let resources = match params.resources {
        Some(v) => resources_from_inputs(v),
        None => Vec::new(),
    };
    proof {
        if params.resources is None {
            assert(resources_view(resources@) =~= Seq::empty());
        }
    }
    let metadata = metadata_from(params.metadata);
    let t = match &project {
        Some(p) => initialize_task(
            params.task_description.as_str(),
            match &params.context_for_all_tasks {
                Some(c) => Some(c.as_str()),
                None => None,
            },
            checklist,
            notes,
            resources,
            metadata,
            Some(p.as_str()),
        ),
        None => initialize_task(
            params.task_description.as_str(),
            match &params.context_for_all_tasks {
                Some(c) => Some(c.as_str()),
                None => None,
            },
            checklist,
            notes,
            resources,
            metadata,
            None,
        ),
    };
    let reply = t.copy();
    Outcome { change: Change::SaveTask(t), reply: Reply::Task(reply) }
}

// ── update_task ─────────────────────────────────────────────────────────────

/// The message of an update without any field.
pub open spec fn no_fields_message() -> Seq<char> {
    "至少需要指定一个可修改的字段 (task_description / context_for_all_tasks / priority / tags / eta)"@
}

/// Whether an update names any field.
pub open spec fn update_fields_given(p: UpdateTaskParams) -> bool {
    p.task_description is Some || p.context_for_all_tasks is Some || p.priority is Some || p.tags is Some
        || p.eta is Some
}

/// A task after an update: given description and context replace the old
/// ones; a given priority, tag list or time is merged into the metadata.
pub open spec fn task_after_update(t: TaskView, p: UpdateTaskParams) -> TaskView {
    TaskView {
        task_description: match p.task_description {
            Some(d) => d@,
            None => t.task_description,
        },
        context_for_all_tasks: match p.context_for_all_tasks {
            Some(c) => Some(c@),
            None => t.context_for_all_tasks,
        },
        metadata: if p.priority is Some || p.tags is Some || p.eta is Some {
            Some(merged_metadata(t.metadata, opt_view(p.priority), opt_view(p.tags), opt_view(p.eta)))
        } else {
            t.metadata
        },
        ..t
    }
}

/// An optional string as an optional slice.
fn as_opt_str(o: &Option<String>) -> (r: Option<&str>)
    ensures
        opt_str_view(r) == opt_view(*o),
{
    match o {
        Some(s) => Some(s.as_str()),
        None => None,
    }
}

/// Whether an update gives any field to change.
pub fn update_fields_present(params: &UpdateTaskParams) -> (r: bool)
    ensures
        r == update_fields_given(*params),
{
    params.task_description.is_some() || params.context_for_all_tasks.is_some() || params.priority.is_some()
        || params.tags.is_some() || params.eta.is_some()
}

/// `update_task`: changes the given fields of the task the ID picks.
pub fn update_task(params: UpdateTaskParams, tasks: &[Task]) -> (o: Outcome)
    ensures
        !update_fields_given(params) ==> fails_with(o, no_fields_message()),
        update_fields_given(params) && !task_resolves(params.task_id@, tasks_view(tasks@)) ==> fails_with(
            o,
            task_resolve_failure(params.task_id@, tasks_view(tasks@)),
        ),
        update_fields_given(params) && task_resolves(params.task_id@, tasks_view(tasks@)) ==> saves_task(
            o,
            task_after_update(picked_task(params.task_id@, tasks_view(tasks@)), params),
        ),
{
    if !update_fields_present(&params) {
        return failed(
            String::from_str(
                "至少需要指定一个可修改的字段 (task_description / context_for_all_tasks / priority / tags / eta)",
            ),
        );
    }
    let i = match find_task(params.task_id.as_str(), tasks) {
        Ok(i) => i,
        Err(m) => return failed(m),
    };
    let mut t = tasks[i].copy();
    if let Some(d) = &params.task_description {
        crate::logic::task::update_task_description(&mut t, d.as_str());
    }
    if let Some(c) = &params.context_for_all_tasks {
        crate::logic::task::update_context(&mut t, c.as_str());
    }
    if params.priority.is_some() || params.tags.is_some() || params.eta.is_some() {
        let m = merge_metadata(
            &t.metadata,
            as_opt_str(&params.priority),
            as_opt_str(&params.tags),
            as_opt_str(&params.eta),
        );
        crate::logic::task::update_metadata(&mut t, m);
    }
    touch(&mut t);
    saved(t)
}

// ── manage_checklist_item ──────────────────────────────────────────────────

/// A 64-bit index as a position (saturating where `usize` is narrower).
pub open spec fn position_of(x: u64) -> usize {
    if x <= usize::MAX {
        x as usize
    } else {
        usize::MAX
    }
}

fn to_position(x: u64) -> (r: usize)
    ensures
        r == position_of(x),
{
    if x <= usize::MAX as u64 {
        x as usize
    } else {
        usize::MAX
    }
}

/// The task a call saved (meaningful when it saved one).
pub open spec fn saved_view(o: Outcome) -> TaskView {
    match o.change {
        Change::SaveTask(t) => t@,
        _ => arbitrary(),
    }
}

/// The three-state item context of the parameters as a view.
pub open spec fn plan_update(c: Option<Option<String>>) -> Option<Option<Seq<char>>> {
    match c {
        Some(x) => Some(opt_view(x)),
        None => None,
    }
}

/// The context of a new item: only a given text counts.
pub open spec fn plan_given(c: Option<Option<String>>) -> Option<Seq<char>> {
    match c {
        Some(Some(x)) => Some(x@),
        _ => None,
    }
}

/// What `manage_checklist_item` does once the task `t` is picked.
pub open spec fn checklist_change(o: Outcome, p: ManageChecklistItemParams, t: TaskView) -> bool {
    match p.action {
        Action::Add => {
            &&& saves_task(
                o,
                with_checklist(
                    t,
                    t.checklist.push(
                        ChecklistItemView {
                            id: saved_view(o).checklist.last().id,
                            task: p.task->Some_0@,
                            detailed_description: p.detailed_description->Some_0@,
                            context_and_plan: plan_given(p.context_and_plan),
                            done: false,
                        },
                    ),
                ),
            )
            &&& is_uuid_format(saved_view(o).checklist.last().id)
        },
        Action::Update => {
            let i = position_of(p.index->Some_0);
            if i >= t.checklist.len() {
                fails_with(o, "任务不存在: "@ + item_index_message(i as nat))
            } else {
                saves_task(
                    o,
                    with_checklist(
                        t,
                        t.checklist.update(
                            i as int,
                            updated_item(
                                t.checklist[i as int],
                                opt_view(p.task),
                                opt_view(p.detailed_description),
                                plan_update(p.context_and_plan),
                                p.done,
                            ),
                        ),
                    ),
                )
            }
        },
        Action::Reorder => {
            let from = position_of(p.from_index->Some_0);
            let to = position_of(p.to_index->Some_0);
            if from >= t.checklist.len() {
                fails_with(o, "任务不存在: "@ + crate::logic::item::from_index_message(from as nat))
            } else if to > t.checklist.len() {
                fails_with(o, "任务不存在: "@ + crate::logic::item::to_index_message(to as nat))
            } else {
                saves_task(o, with_checklist(t, reordered(t.checklist, from as int, to as int)))
            }
        },
        Action::Remove => {
            let i = position_of(p.index->Some_0);
            if i >= t.checklist.len() {
                fails_with(o, "任务不存在: "@ + item_index_message(i as nat))
            } else {
                saves_task(o, with_checklist(t, t.checklist.remove(i as int)))
            }
        },
    }
}

/// The parameter an action lacks, if any.
pub open spec fn missing_parameter(p: ManageChecklistItemParams) -> Option<Seq<char>> {
    match p.action {
        Action::Add => if p.task is None {
            Some("task is required for add action"@)
        } else if p.detailed_description is None {
            Some("detailed_description is required for add action"@)
        } else {
            None
        },
        Action::Update => if p.index is None {
            Some("index is required for update action"@)
        } else {
            None
        },
        Action::Reorder => if p.from_index is None {
            Some("from_index is required for reorder action"@)
        } else if p.to_index is None {
            Some("to_index is required for reorder action"@)
        } else {
            None
        },
        Action::Remove => if p.index is None {
            Some("index is required for remove action"@)
        } else {
            None
        },
    }
}

/// Applies a checked checklist operation to a copy of the picked task.
fn apply_checklist(params: &ManageChecklistItemParams, task: &Task) -> (o: Outcome)
    requires
        missing_parameter(*params) is None,
    ensures
        checklist_change(o, *params, task@),
{
    let mut t = task.copy();
    let r = match params.action {
        Action::Add => {
            let name = match &params.task {
                Some(n) => n.as_str(),
                None => "",
            };
            let desc = match &params.detailed_description {
                Some(d) => d.as_str(),
                None => "",
            };
            let plan: Option<&str> = match &params.context_and_plan {
                Some(Some(c)) => Some(c.as_str()),
                _ => None,
            };
            add_checklist_item(&mut t, name, desc, plan);
            Ok(())
        },
        Action::Update => {
            let i = match params.index {
                Some(x) => to_position(x),
                None => 0,
            };
            let plan: Option<Option<&str>> = match &params.context_and_plan {
                Some(c) => Some(as_opt_str(c)),
                None => None,
            };
            update_checklist_item(
                &mut t,
                i,
                as_opt_str(&params.task),
                as_opt_str(&params.detailed_description),
                plan,
                params.done,
            )
        },
        Action::Reorder => {
            let from = match params.from_index {
                Some(x) => to_position(x),
                None => 0,
            };
            let to = match params.to_index {
                Some(x) => to_position(x),
                None => 0,
            };
            reorder_checklist_item(&mut t, from, to)
        },
        Action::Remove => {
            let i = match params.index {
                Some(x) => to_position(x),
                None => 0,
            };
            remove_checklist_item(&mut t, i)
        },
    };
    match r {
        Ok(()) => {
            touch(&mut t);
            saved(t)
        },
        Err(e) => failed(e.message()),
    }
}

/// The parameter that a checklist action lacks, if any: an add needs the
/// item's name and description, an update or a removal its index, a move
/// both indices.
pub fn checklist_parameter_missing(params: &ManageChecklistItemParams) -> (r: Option<&'static str>)
    ensures
        match r {
            Some(m) => missing_parameter(*params) == Some(m@),
            None => missing_parameter(*params) is None,
        },
{
    match params.action {
        Action::Add => if params.task.is_none() {
            Some("task is required for add action")
        } else if params.detailed_description.is_none() {
            Some("detailed_description is required for add action")
        } else {
            None
        },
        Action::Update => if params.index.is_none() {
            Some("index is required for update action")
        } else {
            None
        },
        Action::Reorder => if params.from_index.is_none() {
            Some("from_index is required for reorder action")
        } else if params.to_index.is_none() {
            Some("to_index is required for reorder action")
        } else {
            None
        },
        Action::Remove => if params.index.is_none() {
            Some("index is required for remove action")
        } else {
            None
        },
    }
}

/// `manage_checklist_item`: adds, updates, moves or removes an item of the
/// task the ID picks. A parameter the action needs must be present; an
/// index must lie inside the checklist (a move may target its end).
pub fn manage_checklist_item(params: ManageChecklistItemParams, tasks: &[Task]) -> (o: Outcome)
    ensures
        missing_parameter(params) matches Some(m) ==> rejects(o, m),
        missing_parameter(params) is None && !task_resolves(params.task_id@, tasks_view(tasks@))
            ==> fails_with(o, task_resolve_failure(params.task_id@, tasks_view(tasks@))),
        missing_parameter(params) is None && task_resolves(params.task_id@, tasks_view(tasks@))
            ==> checklist_change(o, params, picked_task(params.task_id@, tasks_view(tasks@))),
{
    if let Some(m) = checklist_parameter_missing(&params) {
        return refused(m);
    }
    match find_task(params.task_id.as_str(), tasks) {
        Ok(i) => apply_checklist(&params, &tasks[i]),
        Err(m) => failed(m),
    }
}

// ── add_note, add_resource, get_checklist_summary, clear_task, list_tasks ──

/// `add_note`: appends a note to the task the ID picks.
pub fn add_note(params: AddNoteParams, tasks: &[Task]) -> (o: Outcome)
    ensures
        !task_resolves(params.task_id@, tasks_view(tasks@)) ==> fails_with(
            o,
            task_resolve_failure(params.task_id@, tasks_view(tasks@)),
        ),
        task_resolves(params.task_id@, tasks_view(tasks@)) ==> ({
            let t = picked_task(params.task_id@, tasks_view(tasks@));
            saves_task(o, with_notes(t, t.notes.push(params.content@)))
        }),
{
    match find_task(params.task_id.as_str(), tasks) {
        Ok(i) => {
            let mut t = tasks[i].copy();
            crate::logic::note::add_note(&mut t, params.content.as_str());
            touch(&mut t);
            saved(t)
        },
        Err(m) => failed(m),
    }
}

/// `add_resource`: appends a resource to the task the ID picks.
pub fn add_resource(params: AddResourceParams, tasks: &[Task]) -> (o: Outcome)
    ensures
        !task_resolves(params.task_id@, tasks_view(tasks@)) ==> fails_with(
            o,
            task_resolve_failure(params.task_id@, tasks_view(tasks@)),
        ),
        task_resolves(params.task_id@, tasks_view(tasks@)) ==> ({
            let t = picked_task(params.task_id@, tasks_view(tasks@));
            saves_task(
                o,
                with_resources(
                    t,
                    t.resources.push(
                        ResourceView {
                            name: params.name@,
                            url: params.url@,
                            description: opt_view(params.description),
                        },
                    ),
                ),
            )
        }),
{
    match find_task(params.task_id.as_str(), tasks) {
        Ok(i) => {
            let mut t = tasks[i].copy();
            crate::logic::resource::add_resource(&mut t, params.name.as_str(), params.url.as_str(), as_opt_str(&params.description));
            touch(&mut t);
            saved(t)
        },
        Err(m) => failed(m),
    }
}

/// `get_checklist_summary`: the progress summary of the task the ID picks.
pub fn get_checklist_summary(params: GetChecklistSummaryParams, tasks: &[Task]) -> (o: Outcome)
    ensures
        !task_resolves(params.task_id@, tasks_view(tasks@)) ==> fails_with(
            o,
            task_resolve_failure(params.task_id@, tasks_view(tasks@)),
        ),
        task_resolves(params.task_id@, tasks_view(tasks@)) ==> answers(
            o,
            checklist_summary_text(picked_task(params.task_id@, tasks_view(tasks@))),
        ),
{
    match find_task(params.task_id.as_str(), tasks) {
        Ok(i) => Outcome { change: Change::Unchanged, reply: Reply::Text(summary_text(&tasks[i])) },
        Err(m) => failed(m),
    }
}

/// `clear_task`: deletes the task the ID picks, confirming with the ID as
/// given.
pub fn clear_task(params: ClearTaskParams, tasks: &[Task]) -> (o: Outcome)
    ensures
        !task_resolves(params.task_id@, tasks_view(tasks@)) ==> fails_with(
            o,
            task_resolve_failure(params.task_id@, tasks_view(tasks@)),
        ),
        task_resolves(params.task_id@, tasks_view(tasks@)) ==> {
            &&& o.change matches Change::DeleteTask(id) && id@ == picked_task(
                params.task_id@,
                tasks_view(tasks@),
            ).id
            &&& o.reply matches Reply::Text(m) && m@ == "任务 "@ + params.task_id@ + " 已删除"@
        },
{
    match find_task(params.task_id.as_str(), tasks) {
        Ok(i) => {
            let mut m = String::from_str("任务 ");
            append_str(&mut m, params.task_id.as_str());
            append_str(&mut m, " 已删除");
            Outcome { change: Change::DeleteTask(tasks[i].id.clone()), reply: Reply::Text(m) }
        },
        Err(m) => failed(m),
    }
}

/// `list_tasks`: every task, grouped by status (see `smart_list_text`).
pub fn list_tasks(_params: ListTasksParams, tasks: &[Task]) -> (o: Outcome)
    requires
        ids_cut(tasks_view(tasks@)),
    ensures
        answers(o, smart_list_text(tasks_view(tasks@))),
{
    Outcome { change: Change::Unchanged, reply: Reply::Text(format_task_list_smart(tasks)) }
}

// ── manage_project ─────────────────────────────────────────────────────────

/// The parameter a project action lacks, if any.
pub open spec fn missing_project_parameter(p: ManageProjectParams) -> Option<Seq<char>> {
    match p.action {
        ProjectAction::Create => if p.name is None {
            Some("name is required for create action"@)
        } else {
            None
        },
        ProjectAction::Get => if p.project_id is None {
            Some("project_id is required for get action"@)
        } else {
            None
        },
        ProjectAction::Update => if p.project_id is None {
            Some("project_id is required for update action"@)
        } else {
            None
        },
        ProjectAction::Delete => if p.project_id is None {
            Some("project_id is required for delete action"@)
        } else {
            None
        },
        ProjectAction::List => None,
    }
}

/// What `manage_project` does once its parameters are complete; `pr` is
/// the project the ID picks (for get, update and delete).
pub open spec fn project_change(o: Outcome, p: ManageProjectParams, ps: Seq<ProjectView>) -> bool {
    match p.action {
        ProjectAction::Create => {
            &&& o.change matches Change::SaveProject(x) && is_uuid_format(x@.id) && x@.name == p.name->Some_0@
                && x@.description == opt_view(p.description) && x@.created_at == x@.updated_at
            &&& match (o.change, o.reply) {
                (Change::SaveProject(x), Reply::Project(y)) => y@ == x@,
                _ => false,
            }
        },
        ProjectAction::List => if ps.len() == 0 {
            answers(o, "当前没有任何项目"@)
        } else {
            &&& o.change is Unchanged
            &&& o.reply matches Reply::Projects(v) && projects_view(v@) == ps
        },
        _ => {
            let id = p.project_id->Some_0@;
            if !project_resolves(id, ps) {
                fails_with(o, project_resolve_failure(id, ps))
            } else {
                let pr = picked_project(id, ps);
                match p.action {
                    ProjectAction::Get => {
                        &&& o.change is Unchanged
                        &&& o.reply matches Reply::Project(y) && y@ == pr
                    },
                    ProjectAction::Update => {
                        &&& o.change matches Change::SaveProject(x) && x@ == (ProjectView {
                            updated_at: x@.updated_at,
                            ..updated_project(pr, opt_view(p.name), opt_view(p.description))
                        })
                        &&& match (o.change, o.reply) {
                            (Change::SaveProject(x), Reply::Project(y)) => y@ == x@,
                            _ => false,
                        }
                    },
                    _ => {
                        let with_tasks = p.delete_tasks == Some(true);
                        &&& o.change matches Change::DeleteProject { project_id: x, with_tasks: w } && x@
                            == pr.id && w == with_tasks
                        &&& o.reply matches Reply::Text(m) && m@ == (if with_tasks {
                            "项目 "@ + id + " 及其关联任务已删除"@
                        } else {
                            "项目 "@ + id + " 已删除（关联任务保留）"@
                        })
                    },
                }
            }
        },
    }
}

/// Copies of the projects.
fn copy_projects(projects: &[Project]) -> (r: Vec<Project>)
    ensures
        projects_view(r@) == projects_view(projects@),
{
    let mut out: Vec<Project> = Vec::new();
    let mut i: usize = 0;
    while i < projects.len()
        invariant
            i <= projects@.len(),
            out@.len() == i,
            forall|k: int| 0 <= k < i ==> #[trigger] out@[k]@ == projects@[k]@,
        decreases projects@.len() - i,
    {
        out.push(projects[i].copy());
        i = i + 1;
    }
    assert(projects_view(out@) =~= projects_view(projects@));
    out
}

/// `manage_project`: creates, gets, updates, deletes or lists projects.
pub fn manage_project(params: ManageProjectParams, projects: &[Project]) -> (o: Outcome)
    ensures
        missing_project_parameter(params) matches Some(m) ==> rejects(o, m),
        missing_project_parameter(params) is None ==> project_change(o, params, projects_view(projects@)),
{
    match params.action {
        ProjectAction::Create => {
            let name = match &params.name {
                Some(n) => n.as_str(),
                None => return refused("name is required for create action"),
            };
            let p = create_project(name, as_opt_str(&params.description));
            let reply = p.copy();
            Outcome { change: Change::SaveProject(p), reply: Reply::Project(reply) }
        },
        ProjectAction::List => {
            if projects.len() == 0 {
                Outcome { change: Change::Unchanged, reply: Reply::Text(String::from_str("当前没有任何项目")) }
            } else {
                Outcome { change: Change::Unchanged, reply: Reply::Projects(copy_projects(projects)) }
            }
        },
        _ => {
            let id = match &params.project_id {
                Some(id) => id,
                None => {
                    return match params.action {
                        ProjectAction::Get => refused("project_id is required for get action"),
                        ProjectAction::Update => refused("project_id is required for update action"),
                        _ => refused("project_id is required for delete action"),
                    };
                },
            };
            let i = match find_project(id.as_str(), projects) {
                Ok(i) => i,
                Err(m) => return failed(m),
            };
            match params.action {
                ProjectAction::Get => Outcome { change: Change::Unchanged, reply: Reply::Project(projects[i].copy()) },
                ProjectAction::Update => {
                    let mut p = projects[i].copy();
                    update_project(&mut p, as_opt_str(&params.name), as_opt_str(&params.description));
                    touch_project(&mut p);
                    let reply = p.copy();
                    Outcome { change: Change::SaveProject(p), reply: Reply::Project(reply) }
                },
                _ => {
                    let with_tasks = match params.delete_tasks {
                        Some(b) => b,
                        None => false,
                    };
                    let mut m = String::from_str("项目 ");
                    append_str(&mut m, id.as_str());
                    if with_tasks {
                        append_str(&mut m, " 及其关联任务已删除");
                    } else {
                        append_str(&mut m, " 已删除（关联任务保留）");
                    }
                    Outcome {
                        change: Change::DeleteProject { project_id: projects[i].id.clone(), with_tasks },
                        reply: Reply::Text(m),
                    }
                },
            }
        },
    }
}

} // verus!
