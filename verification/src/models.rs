//! Data model: tasks, checklist items, resources, metadata and projects.
//!
//! Each type has a view made of character sequences, over which the
//! contracts of the library are stated.

use vstd::prelude::*;

verus! {

/// One entry of a task's ordered checklist.
#[derive(Debug, Clone)]
pub struct ChecklistItem {
    /// Unique identifier of the item (a UUID).
    pub id: String,
    /// Short name of the item.
    pub task: String,
    /// Detailed description.
    pub detailed_description: String,
    /// Context and execution plan, if any.
    pub context_and_plan: Option<String>,
    /// Whether the item is done.
    pub done: bool,
}

/// Mathematical view of a checklist item.
pub struct ChecklistItemView {
    pub id: Seq<char>,
    pub task: Seq<char>,
    pub detailed_description: Seq<char>,
    pub context_and_plan: Option<Seq<char>>,
    pub done: bool,
}

/// View of an optional string.
pub open spec fn opt_view(o: Option<String>) -> Option<Seq<char>> {
    match o {
        Some(s) => Some(s@),
        None => None,
    }
}

/// View of an optional string slice.
pub open spec fn opt_str_view(o: Option<&str>) -> Option<Seq<char>> {
    match o {
        Some(s) => Some(s@),
        None => None,
    }
}

/// View of a sequence of strings.
pub open spec fn strings_view(v: Seq<String>) -> Seq<Seq<char>> {
    v.map_values(|s: String| s@)
}

impl View for ChecklistItem {
    type V = ChecklistItemView;

    open spec fn view(&self) -> ChecklistItemView {
        ChecklistItemView {
            id: self.id@,
            task: self.task@,
            detailed_description: self.detailed_description@,
            context_and_plan: opt_view(self.context_and_plan),
            done: self.done,
        }
    }
}

/// An external resource referenced by a task.
#[derive(Debug, Clone)]
pub struct Resource {
    /// Resource name.
    pub name: String,
    /// URL or file path.
    pub url: String,
    /// Optional description.
    pub description: Option<String>,
}

/// Mathematical view of a resource.
pub struct ResourceView {
    pub name: Seq<char>,
    pub url: Seq<char>,
    pub description: Option<Seq<char>>,
}

impl View for Resource {
    type V = ResourceView;

    open spec fn view(&self) -> ResourceView {
        ResourceView { name: self.name@, url: self.url@, description: opt_view(self.description) }
    }
}

/// Task metadata: tags, priority and estimated completion time.
#[derive(Debug, Clone)]
pub struct TaskMetadata {
    /// Tags, if any.
    pub tags: Option<Vec<String>>,
    /// Priority: high / medium / low, if set.
    pub priority: Option<String>,
    /// Estimated completion time (ISO 8601 timestamp or duration), if set.
    pub estimated_completion_time: Option<String>,
}

/// Mathematical view of task metadata.
pub struct TaskMetadataView {
    pub tags: Option<Seq<Seq<char>>>,
    pub priority: Option<Seq<char>>,
    pub estimated_completion_time: Option<Seq<char>>,
}

/// View of an optional tag list.
pub open spec fn tags_view(t: Option<Vec<String>>) -> Option<Seq<Seq<char>>> {
    match t {
        Some(v) => Some(strings_view(v@)),
        None => None,
    }
}

impl View for TaskMetadata {
    type V = TaskMetadataView;

    open spec fn view(&self) -> TaskMetadataView {
        TaskMetadataView {
            tags: tags_view(self.tags),
            priority: opt_view(self.priority),
            estimated_completion_time: opt_view(self.estimated_completion_time),
        }
    }
}

/// View of optional metadata.
pub open spec fn meta_view(m: Option<TaskMetadata>) -> Option<TaskMetadataView> {
    match m {
        Some(md) => Some(md@),
        None => None,
    }
}

/// A task: description, shared context, ordered checklist, notes,
/// resources, metadata and an optional owning project.
#[derive(Debug, Clone)]
pub struct Task {
    /// Unique identifier (UUID v4).
    pub id: String,
    /// Overall description of the task.
    pub task_description: String,
    /// Context shared by all checklist items, if any.
    pub context_for_all_tasks: Option<String>,
    /// Ordered checklist.
    pub checklist: Vec<ChecklistItem>,
    /// Free-form notes, in order.
    pub notes: Vec<String>,
    /// Referenced resources, in order.
    pub resources: Vec<Resource>,
    /// Metadata, if any.
    pub metadata: Option<TaskMetadata>,
    /// The project the task belongs to, if any.
    pub project_id: Option<String>,
    /// Creation time (ISO 8601).
    pub created_at: String,
    /// Last update time (ISO 8601).
    pub updated_at: String,
}

/// Mathematical view of a task.
pub struct TaskView {
    pub id: Seq<char>,
    pub task_description: Seq<char>,
    pub context_for_all_tasks: Option<Seq<char>>,
    pub checklist: Seq<ChecklistItemView>,
    pub notes: Seq<Seq<char>>,
    pub resources: Seq<ResourceView>,
    pub metadata: Option<TaskMetadataView>,
    pub project_id: Option<Seq<char>>,
    pub created_at: Seq<char>,
    pub updated_at: Seq<char>,
}

/// View of a sequence of checklist items.
pub open spec fn items_view(v: Seq<ChecklistItem>) -> Seq<ChecklistItemView> {
    v.map_values(|i: ChecklistItem| i@)
}

/// View of a sequence of resources.
pub open spec fn resources_view(v: Seq<Resource>) -> Seq<ResourceView> {
    v.map_values(|r: Resource| r@)
}

impl View for Task {
    type V = TaskView;

    open spec fn view(&self) -> TaskView {
        TaskView {
            id: self.id@,
            task_description: self.task_description@,
            context_for_all_tasks: opt_view(self.context_for_all_tasks),
            checklist: items_view(self.checklist@),
            notes: strings_view(self.notes@),
            resources: resources_view(self.resources@),
            metadata: meta_view(self.metadata),
            project_id: opt_view(self.project_id),
            created_at: self.created_at@,
            updated_at: self.updated_at@,
        }
    }
}

/// View of a sequence of tasks.
pub open spec fn tasks_view(v: Seq<Task>) -> Seq<TaskView> {
    v.map_values(|t: Task| t@)
}

/// A project groups related tasks; each task belongs to at most one project.
#[derive(Debug, Clone)]
pub struct Project {
    /// Unique identifier (UUID v4).
    pub id: String,
    /// Project name.
    pub name: String,
    /// Optional description.
    pub description: Option<String>,
    /// Creation time (ISO 8601).
    pub created_at: String,
    /// Last update time (ISO 8601).
    pub updated_at: String,
}

/// Mathematical view of a project.
pub struct ProjectView {
    pub id: Seq<char>,
    pub name: Seq<char>,
    pub description: Option<Seq<char>>,
    pub created_at: Seq<char>,
    pub updated_at: Seq<char>,
}

impl View for Project {
    type V = ProjectView;

    open spec fn view(&self) -> ProjectView {
        ProjectView {
            id: self.id@,
            name: self.name@,
            description: opt_view(self.description),
            created_at: self.created_at@,
            updated_at: self.updated_at@,
        }
    }
}

/// A copy of an optional string.
pub fn copy_opt(o: &Option<String>) -> (r: Option<String>)
    ensures
        opt_view(r) == opt_view(*o),
{
    match o {
        Some(s) => Some(s.clone()),
        None => None,
    }
}

/// A copy of a list of strings.
pub fn copy_strings(v: &Vec<String>) -> (r: Vec<String>)
    ensures
        strings_view(r@) == strings_view(v@),
{
    let mut out: Vec<String> = Vec::new();
    let mut i: usize = 0;
    while i < v.len()
        invariant
            i <= v@.len(),
            out@.len() == i,
            forall|k: int| 0 <= k < i ==> #[trigger] out@[k]@ == v@[k]@,
        decreases v@.len() - i,
    {
        out.push(v[i].clone());
        i = i + 1;
    }
    assert(strings_view(out@) =~= strings_view(v@));
    out
}

impl ChecklistItem {
    /// A copy of the item.
    pub fn copy(&self) -> (r: ChecklistItem)
        ensures
            r@ == self@,
    {
        ChecklistItem {
            id: self.id.clone(),
            task: self.task.clone(),
            detailed_description: self.detailed_description.clone(),
            context_and_plan: copy_opt(&self.context_and_plan),
            done: self.done,
        }
    }
}

impl Resource {
    /// A copy of the resource.
    pub fn copy(&self) -> (r: Resource)
        ensures
            r@ == self@,
    {
        Resource {
            name: self.name.clone(),
            url: self.url.clone(),
            description: copy_opt(&self.description),
        }
    }
}

impl TaskMetadata {
    /// A copy of the metadata.
    pub fn copy(&self) -> (r: TaskMetadata)
        ensures
            r@ == self@,
    {
        TaskMetadata {
            tags: match &self.tags {
                Some(t) => Some(copy_strings(t)),
                None => None,
            },
            priority: copy_opt(&self.priority),
            estimated_completion_time: copy_opt(&self.estimated_completion_time),
        }
    }
}

impl Task {
    /// A copy of the task.
    pub fn copy(&self) -> (r: Task)
        ensures
            r@ == self@,
    {
        let mut items: Vec<ChecklistItem> = Vec::new();
        let mut i: usize = 0;
        while i < self.checklist.len()
            invariant
                i <= self.checklist@.len(),
                items@.len() == i,
                forall|k: int| 0 <= k < i ==> #[trigger] items@[k]@ == self.checklist@[k]@,
            decreases self.checklist@.len() - i,
        {
            items.push(self.checklist[i].copy());
            i = i + 1;
        }
        assert(items_view(items@) =~= items_view(self.checklist@));
        let mut res: Vec<Resource> = Vec::new();
        let mut j: usize = 0;
        while j < self.resources.len()
            invariant
                j <= self.resources@.len(),
                res@.len() == j,
                forall|k: int| 0 <= k < j ==> #[trigger] res@[k]@ == self.resources@[k]@,
            decreases self.resources@.len() - j,
        {
            res.push(self.resources[j].copy());
            j = j + 1;
        }
        assert(resources_view(res@) =~= resources_view(self.resources@));
        Task {
            id: self.id.clone(),
            task_description: self.task_description.clone(),
            context_for_all_tasks: copy_opt(&self.context_for_all_tasks),
            checklist: items,
            notes: copy_strings(&self.notes),
            resources: res,
            metadata: match &self.metadata {
                Some(m) => Some(m.copy()),
                None => None,
            },
            project_id: copy_opt(&self.project_id),
            created_at: self.created_at.clone(),
            updated_at: self.updated_at.clone(),
        }
    }
}

impl Project {
    /// A copy of the project.
    pub fn copy(&self) -> (r: Project)
        ensures
            r@ == self@,
    {
        Project {
            id: self.id.clone(),
            name: self.name.clone(),
            description: copy_opt(&self.description),
            created_at: self.created_at.clone(),
            updated_at: self.updated_at.clone(),
        }
    }
}

/// View of a sequence of projects.
pub open spec fn projects_view(v: Seq<Project>) -> Seq<ProjectView> {
    v.map_values(|p: Project| p@)
}

} // verus!
