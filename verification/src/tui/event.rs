//! Events of the terminal interface and the background work it asks for.
//!
//! A key press or a finished background operation is an event; handling one
//! changes the interface state and may queue effects, which the event loop
//! carries out against the store and answers with an `Action` event.

use vstd::prelude::*;

use crate::models::{
    Project, ProjectView, Task, TaskMetadata, TaskMetadataView, TaskView, meta_view, opt_view,
};

verus! {

/// A key, as the interface distinguishes them.
#[derive(Debug, Clone, Copy, PartialEq, Eq, Structural)]
pub enum KeyCode {
    /// A printable character (shifted letters arrive upper-case).
    Char(char),
    Enter,
    Esc,
    Backspace,
    Tab,
    BackTab,
    Up,
    Down,
    Left,
    Right,
    Home,
    End,
    /// Any other key.
    Other,
}

/// A key press: the key and whether Control was held.
#[derive(Debug, Clone, Copy, PartialEq, Eq, Structural)]
pub struct KeyPress {
    pub code: KeyCode,
    pub ctrl: bool,
}

impl KeyPress {
    /// A key press without Control.
    pub fn plain(code: KeyCode) -> (r: KeyPress)
        ensures
            r == (KeyPress { code, ctrl: false }),
    {
        KeyPress { code, ctrl: false }
    }

    /// A key press with Control held.
    pub fn with_ctrl(code: KeyCode) -> (r: KeyPress)
        ensures
            r == (KeyPress { code, ctrl: true }),
    {
        KeyPress { code, ctrl: true }
    }
}

/// The outcome of a background operation.
#[derive(Debug)]
pub enum Action {
    /// The task list was loaded.
    TasksLoaded(Vec<Task>),
    /// One task was loaded for the detail view.
    TaskDetailLoaded(Task),
    /// A checklist item's done flag was toggled (the updated task).
    ItemToggled(Task),
    /// A checklist item was added.
    ItemAdded(Task),
    /// A checklist item was removed.
    ItemRemoved(Task),
    /// A checklist item was edited.
    ItemEdited(Task),
    /// A checklist item was moved.
    ItemReordered(Task),
    /// A task was deleted (its ID).
    TaskDeleted(String),
    /// A task was created.
    TaskCreated(Task),
    /// A task was updated.
    TaskUpdated(Task),
    /// A note was added.
    NoteAdded(Task),
    /// A note was deleted.
    NoteDeleted(Task),
    /// A resource was added.
    ResourceAdded(Task),
    /// A resource was deleted.
    ResourceDeleted(Task),
    /// The project list was loaded.
    ProjectsLoaded(Vec<Project>),
    /// One project was loaded.
    ProjectDetailLoaded(Project),
    /// A project was created.
    ProjectCreated(Project),
    /// A project was updated.
    ProjectUpdated(Project),
    /// A project was deleted (its ID).
    ProjectDeleted(String),
    /// The tasks of the selected project were loaded.
    ProjectTasksLoaded(Vec<Task>),
    /// An operation failed, with its message.
    Error(String),
}

/// An event of the interface's main loop.
#[derive(Debug)]
pub enum AppEvent {
    /// A key press.
    Key(KeyPress),
    /// The terminal was resized.
    Resize(u16, u16),
    /// A background operation finished.
    Action(Action),
}

impl AppEvent {
    /// Wraps a finished operation as an event.
    pub fn action(action: Action) -> (r: AppEvent)
        ensures
            r == AppEvent::Action(action),
    {
        AppEvent::Action(action)
    }
}

/// Background work that handling an event asks the event loop to carry out.
#[derive(Debug)]
pub enum Effect {
    /// Load every task.
    LoadTasks,
    /// Load one task for the detail view.
    LoadTaskDetail { task_id: String },
    /// Delete a task.
    DeleteTask { task_id: String },
    /// Mark an item done (or undone when it is done now).
    ToggleItem { task_id: String, item_index: usize, currently_done: bool },
    /// Append an item with the given name and an empty description.
    AddItem { task_id: String, item_name: String },
    /// Remove an item.
    RemoveItem { task_id: String, item_index: usize },
    /// Rename an item.
    EditItemName { task_id: String, item_index: usize, new_name: String },
    /// Replace an item's description.
    EditItemDesc { task_id: String, item_index: usize, new_desc: String },
    /// Move an item.
    ReorderItem { task_id: String, from_index: usize, to_index: usize },
    /// Append a note.
    AddNote { task_id: String, content: String },
    /// Delete a note.
    DeleteNote { task_id: String, note_index: usize },
    /// Append a resource without description.
    AddResource { task_id: String, name: String, url: String },
    /// Create a task, then attach it to a project when one is given.
    CreateTask {
        description: String,
        context: Option<String>,
        metadata: Option<TaskMetadata>,
        project_id: Option<String>,
    },
    /// Replace a task's description, context and metadata, then reload it.
    UpdateTask { task_id: String, description: String, context: String, metadata: TaskMetadata },
    /// Load every project.
    LoadProjects,
    /// Load one project.
    LoadProjectDetail { project_id: String },
    /// Load the tasks of a project.
    LoadProjectTasks { project_id: String },
    /// Create a project.
    CreateProject { name: String, description: Option<String> },
    /// Rename a project and replace its description when one is given.
    UpdateProject { project_id: String, name: String, description: Option<String> },
    /// Delete a project, keeping its tasks.
    DeleteProject { project_id: String },
    /// Attach a task to a project.
    AddTaskToProject { task_id: String, project_id: String },
    /// Detach a task from its project.
    RemoveTaskFromProject { task_id: String },
}

/// Mathematical view of an effect.
pub enum EffectView {
    LoadTasks,
    LoadTaskDetail { task_id: Seq<char> },
    DeleteTask { task_id: Seq<char> },
    ToggleItem { task_id: Seq<char>, item_index: usize, currently_done: bool },
    AddItem { task_id: Seq<char>, item_name: Seq<char> },
    RemoveItem { task_id: Seq<char>, item_index: usize },
    EditItemName { task_id: Seq<char>, item_index: usize, new_name: Seq<char> },
    EditItemDesc { task_id: Seq<char>, item_index: usize, new_desc: Seq<char> },
    ReorderItem { task_id: Seq<char>, from_index: usize, to_index: usize },
    AddNote { task_id: Seq<char>, content: Seq<char> },
    DeleteNote { task_id: Seq<char>, note_index: usize },
    AddResource { task_id: Seq<char>, name: Seq<char>, url: Seq<char> },
    CreateTask {
        description: Seq<char>,
        context: Option<Seq<char>>,
        metadata: Option<TaskMetadataView>,
        project_id: Option<Seq<char>>,
    },
    UpdateTask {
        task_id: Seq<char>,
        description: Seq<char>,
        context: Seq<char>,
        metadata: TaskMetadataView,
    },
    LoadProjects,
    LoadProjectDetail { project_id: Seq<char> },
    LoadProjectTasks { project_id: Seq<char> },
    CreateProject { name: Seq<char>, description: Option<Seq<char>> },
    UpdateProject { project_id: Seq<char>, name: Seq<char>, description: Option<Seq<char>> },
    DeleteProject { project_id: Seq<char> },
    AddTaskToProject { task_id: Seq<char>, project_id: Seq<char> },
    RemoveTaskFromProject { task_id: Seq<char> },
}

impl View for Effect {
    type V = EffectView;

    open spec fn view(&self) -> EffectView {
        match self {
            Effect::LoadTasks => EffectView::LoadTasks,
            Effect::LoadTaskDetail { task_id } => EffectView::LoadTaskDetail { task_id: task_id@ },
            Effect::DeleteTask { task_id } => EffectView::DeleteTask { task_id: task_id@ },
            Effect::ToggleItem { task_id, item_index, currently_done } => EffectView::ToggleItem {
                task_id: task_id@,
                item_index: *item_index,
                currently_done: *currently_done,
            },
            Effect::AddItem { task_id, item_name } => EffectView::AddItem {
                task_id: task_id@,
                item_name: item_name@,
            },
            Effect::RemoveItem { task_id, item_index } => EffectView::RemoveItem {
                task_id: task_id@,
                item_index: *item_index,
            },
            Effect::EditItemName { task_id, item_index, new_name } => EffectView::EditItemName {
                task_id: task_id@,
                item_index: *item_index,
                new_name: new_name@,
            },
            Effect::EditItemDesc { task_id, item_index, new_desc } => EffectView::EditItemDesc {
                task_id: task_id@,
                item_index: *item_index,
                new_desc: new_desc@,
            },
            Effect::ReorderItem { task_id, from_index, to_index } => EffectView::ReorderItem {
                task_id: task_id@,
                from_index: *from_index,
                to_index: *to_index,
            },
            Effect::AddNote { task_id, content } => EffectView::AddNote {
                task_id: task_id@,
                content: content@,
            },
            Effect::DeleteNote { task_id, note_index } => EffectView::DeleteNote {
                task_id: task_id@,
                note_index: *note_index,
            },
            Effect::AddResource { task_id, name, url } => EffectView::AddResource {
                task_id: task_id@,
                name: name@,
                url: url@,
            },
            Effect::CreateTask { description, context, metadata, project_id } =>
                EffectView::CreateTask {
                    description: description@,
                    context: opt_view(*context),
                    metadata: meta_view(*metadata),
                    project_id: opt_view(*project_id),
                },
            Effect::UpdateTask { task_id, description, context, metadata } =>
                EffectView::UpdateTask {
                    task_id: task_id@,
                    description: description@,
                    context: context@,
                    metadata: metadata@,
                },
            Effect::LoadProjects => EffectView::LoadProjects,
            Effect::LoadProjectDetail { project_id } => EffectView::LoadProjectDetail {
                project_id: project_id@,
            },
            Effect::LoadProjectTasks { project_id } => EffectView::LoadProjectTasks {
                project_id: project_id@,
            },
            Effect::CreateProject { name, description } => EffectView::CreateProject {
                name: name@,
                description: opt_view(*description),
            },
            Effect::UpdateProject { project_id, name, description } => EffectView::UpdateProject {
                project_id: project_id@,
                name: name@,
                description: opt_view(*description),
            },
            Effect::DeleteProject { project_id } => EffectView::DeleteProject {
                project_id: project_id@,
            },
            Effect::AddTaskToProject { task_id, project_id } => EffectView::AddTaskToProject {
                task_id: task_id@,
                project_id: project_id@,
            },
            Effect::RemoveTaskFromProject { task_id } => EffectView::RemoveTaskFromProject {
                task_id: task_id@,
            },
        }
    }
}

/// View of a sequence of effects.
pub open spec fn effects_view(v: Seq<Effect>) -> Seq<EffectView> {
    v.map_values(|e: Effect| e@)
}

/// View of an optional task.
pub open spec fn opt_task_view(t: Option<Task>) -> Option<TaskView> {
    match t {
        Some(x) => Some(x@),
        None => None,
    }
}

/// View of an optional project.
pub open spec fn opt_project_view(p: Option<Project>) -> Option<ProjectView> {
    match p {
        Some(x) => Some(x@),
        None => None,
    }
}

} // verus!
