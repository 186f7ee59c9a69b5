//! Typed parameters of each MCP tool, and the JSON Schema reference helper.

use vstd::prelude::*;

verus! {

/// A checklist item given when a task is created.
#[derive(Debug, Clone)]
pub struct InitialChecklistItem {
    /// Short name of the item.
    pub task: String,
    /// Detailed description.
    pub detailed_description: String,
    /// Context and plan.
    pub context_and_plan: Option<String>,
    /// Whether the item is already done.
    pub done: bool,
    /// A pre-assigned ID; generated when absent.
    pub id: Option<String>,
}

impl Default for InitialChecklistItem {
    fn default() -> (r: Self)
        ensures
            r.task@ == Seq::<char>::empty(),
            r.detailed_description@ == Seq::<char>::empty(),
            r.context_and_plan is None,
            !r.done,
            r.id is None,
    {
        InitialChecklistItem {
            task: String::new(),
            detailed_description: String::new(),
            context_and_plan: None,
            done: false,
            id: None,
        }
    }
}

/// A resource given when a task is created.
#[derive(Debug, Clone)]
pub struct ResourceInput {
    /// Resource name.
    pub name: String,
    /// URL or file path.
    pub url: String,
    /// Description.
    pub description: Option<String>,
}

/// Metadata given when a task is created.
#[derive(Debug, Clone)]
pub struct TaskMetadataInput {
    /// Tags.
    pub tags: Option<Vec<String>>,
    /// Priority.
    pub priority: Option<String>,
    /// Estimated completion time.
    pub estimated_completion_time: Option<String>,
}

impl Default for TaskMetadataInput {
    fn default() -> (r: Self)
        ensures
            r.tags is None,
            r.priority is None,
            r.estimated_completion_time is None,
    {
        TaskMetadataInput { tags: None, priority: None, estimated_completion_time: None }
    }
}

/// Parameters of `new_task`.
#[derive(Debug, Clone)]
pub struct InitializeTaskParams {
    /// Description of the whole task.
    pub task_description: String,
    /// Context shared by all checklist items.
    pub context_for_all_tasks: Option<String>,
    /// Initial checklist items.
    pub initial_checklist: Option<Vec<InitialChecklistItem>>,
    /// Initial notes.
    pub notes: Option<Vec<String>>,
    /// Initial resources.
    pub resources: Option<Vec<ResourceInput>>,
    /// Metadata.
    pub metadata: Option<TaskMetadataInput>,
    /// The project to put the task in (an ID or ID prefix).
    pub project_id: Option<String>,
}

/// Parameters of `update_task`: the fields given are replaced.
#[derive(Debug, Clone)]
pub struct UpdateTaskParams {
    /// The task (an ID or ID prefix).
    pub task_id: String,
    /// New description.
    pub task_description: Option<String>,
    /// New shared context.
    pub context_for_all_tasks: Option<String>,
    /// New priority.
    pub priority: Option<String>,
    /// New tags, comma separated.
    pub tags: Option<String>,
    /// New estimated completion time.
    pub eta: Option<String>,
}

/// Operations of `manage_checklist_item`.
#[derive(Debug, Clone, Copy, PartialEq, Eq, Structural)]
pub enum Action {
    /// Append a new item.
    Add,
    /// Change the given fields of an item.
    Update,
    /// Move an item.
    Reorder,
    /// Delete an item.
    Remove,
}

/// Parameters of `manage_checklist_item`; which fields are needed depends on
/// the action.
#[derive(Debug, Clone)]
pub struct ManageChecklistItemParams {
    /// The operation.
    pub action: Action,
    /// The task (an ID or ID prefix).
    pub task_id: String,
    /// Item name (required to add).
    pub task: Option<String>,
    /// Item description (required to add).
    pub detailed_description: Option<String>,
    /// Item index (required to update or remove).
    pub index: Option<u64>,
    /// Index to move from (required to reorder).
    pub from_index: Option<u64>,
    /// Index to move to (required to reorder).
    pub to_index: Option<u64>,
    /// Absent: keep; `Some(None)`: clear; `Some(Some(text))`: replace.
    pub context_and_plan: Option<Option<String>>,
    /// New done flag (update only).
    pub done: Option<bool>,
}

impl Default for ManageChecklistItemParams {
    fn default() -> (r: Self)
        ensures
            r.action == Action::Add,
            r.task_id@ == Seq::<char>::empty(),
            r.task is None,
            r.detailed_description is None,
            r.index is None,
            r.from_index is None,
            r.to_index is None,
            r.context_and_plan is None,
            r.done is None,
    {
        ManageChecklistItemParams {
            action: Action::Add,
            task_id: String::new(),
            task: None,
            detailed_description: None,
            index: None,
            from_index: None,
            to_index: None,
            context_and_plan: None,
            done: None,
        }
    }
}

/// Parameters of `add_note`.
#[derive(Debug, Clone)]
pub struct AddNoteParams {
    /// The task (an ID or ID prefix).
    pub task_id: String,
    /// The note.
    pub content: String,
}

/// Parameters of `add_resource`.
#[derive(Debug, Clone)]
pub struct AddResourceParams {
    /// The task (an ID or ID prefix).
    pub task_id: String,
    /// Resource name.
    pub name: String,
    /// URL or file path.
    pub url: String,
    /// Description.
    pub description: Option<String>,
}

/// Parameters of `get_checklist_summary`.
#[derive(Debug, Clone)]
pub struct GetChecklistSummaryParams {
    /// The task (an ID or ID prefix).
    pub task_id: String,
    /// Whether descriptions are wanted (accepted, not used).
    pub include_descriptions: Option<bool>,
}

/// Parameters of `clear_task`.
#[derive(Debug, Clone)]
pub struct ClearTaskParams {
    /// The task (an ID or ID prefix).
    pub task_id: String,
}

/// Parameters of `list_tasks` (none).
#[derive(Debug, Clone)]
pub struct ListTasksParams {}

/// Parameters of a current-task query (none).
#[derive(Debug, Clone)]
pub struct GetCurrentTaskDetailsParams {}

/// Operations of `manage_project`.
#[derive(Debug, Clone, Copy, PartialEq, Eq, Structural)]
pub enum ProjectAction {
    /// Create a project.
    Create,
    /// Get a project.
    Get,
    /// Rename or describe a project.
    Update,
    /// Delete a project.
    Delete,
    /// List every project.
    List,
}

/// Parameters of `manage_project`.
#[derive(Debug, Clone)]
pub struct ManageProjectParams {
    /// The operation.
    pub action: ProjectAction,
    /// The project (an ID or ID prefix), for get, update and delete.
    pub project_id: Option<String>,
    /// Name (required to create).
    pub name: Option<String>,
    /// Description.
    pub description: Option<String>,
    /// Whether deleting also deletes the project's tasks.
    pub delete_tasks: Option<bool>,
}

/// The characters after the last `/` of `s` (all of `s` when it has none).
pub open spec fn after_last_slash(s: Seq<char>) -> Seq<char>
    decreases s.len(),
{
    if s.len() == 0 {
        s
    } else if s.last() == '/' {
        Seq::empty()
    } else {
        after_last_slash(s.drop_last()).push(s.last())
    }
}

/// The definition name of a JSON Schema reference such as `#/$defs/Name`:
/// the text after its last `/`.
pub fn extract_def_name(ref_uri: &str) -> (r: String)
    ensures
        r@ == after_last_slash(ref_uri@),
{
    let v = crate::text::chars_of(ref_uri);
    let mut start: usize = v.len();
    assert(v@.take(start as int) =~= v@);
    assert(v@.subrange(start as int, v@.len() as int) =~= Seq::<char>::empty());
    assert(after_last_slash(v@) + Seq::<char>::empty() =~= after_last_slash(v@));
    while start > 0 && v[start - 1] != '/'
        invariant
            start <= v@.len(),
            v@ == ref_uri@,
            after_last_slash(v@) == after_last_slash(v@.take(start as int)) + v@.subrange(
                start as int,
                v@.len() as int,
            ),
        decreases start,
    {
        let ghost t = v@.take(start as int);
        assert(t.drop_last() =~= v@.take(start - 1));
        assert(v@.subrange(start - 1, v@.len() as int) =~= seq![v@[start - 1]] + v@.subrange(
            start as int,
            v@.len() as int,
        ));
        assert(after_last_slash(t) == after_last_slash(t.drop_last()).push(t.last()));
        assert(after_last_slash(t.drop_last()).push(t.last()) + v@.subrange(start as int, v@.len() as int)
            =~= after_last_slash(t.drop_last()) + v@.subrange(start - 1, v@.len() as int));
        start = start - 1;
    }
    if start > 0 {
        assert(v@.take(start as int).last() == '/');
        assert(after_last_slash(v@.take(start as int)) =~= Seq::<char>::empty());
    } else {
        assert(v@.take(0) =~= Seq::<char>::empty());
    }
    let tail = crate::text::slice_chars(&v, start, v.len());
    crate::text::string_from_chars(tail.as_slice())
}

} // verus!
