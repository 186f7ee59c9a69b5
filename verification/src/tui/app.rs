//! View state of the terminal interface: input modes, form fields and forms,
//! panes, overlays and sort modes.

use vstd::prelude::*;

use crate::models::{Project, Task, opt_view};
use crate::text::{lowercase, str_eq, to_lowercase, trim, trim_str};

pub use crate::tui::state::App;

verus! {

/// Inline input mode of the detail view.
#[derive(Debug, Clone, Copy, PartialEq, Eq, Structural)]
pub enum InputMode {
    /// Keyboard navigation.
    Normal,
    /// Typing the name of a new item.
    AddingItem,
    /// Editing the selected item's name.
    EditingItemName,
    /// Editing the selected item's description.
    EditingItemDesc,
    /// Typing a note.
    AddingNote,
    /// Typing a resource name (first step).
    AddingResourceName,
    /// Typing a resource URL (second step).
    AddingResourceUrl,
}

/// A focusable field of the task form.
#[derive(Debug, Clone, Copy, PartialEq, Eq, Structural)]
pub enum FormField {
    /// Task description (required).
    Description,
    /// Shared context.
    Context,
    /// Priority (high / medium / low / empty).
    Priority,
    /// Tags (comma separated).
    Tags,
    /// Estimated completion time.
    Eta,
}

/// Position of a field in the Tab order.
pub open spec fn field_index(f: FormField) -> nat {
    match f {
        FormField::Description => 0,
        FormField::Context => 1,
        FormField::Priority => 2,
        FormField::Tags => 3,
        FormField::Eta => 4,
    }
}

/// The field at a position of the Tab order.
pub open spec fn field_at(i: nat) -> FormField {
    if i == 0 {
        FormField::Description
    } else if i == 1 {
        FormField::Context
    } else if i == 2 {
        FormField::Priority
    } else if i == 3 {
        FormField::Tags
    } else {
        FormField::Eta
    }
}

/// The field after `f` in Tab order.
pub open spec fn field_after(f: FormField) -> FormField {
    match f {
        FormField::Description => FormField::Context,
        FormField::Context => FormField::Priority,
        FormField::Priority => FormField::Tags,
        FormField::Tags => FormField::Eta,
        FormField::Eta => FormField::Description,
    }
}

/// The field before `f` in Tab order.
pub open spec fn field_before(f: FormField) -> FormField {
    match f {
        FormField::Description => FormField::Eta,
        FormField::Context => FormField::Description,
        FormField::Priority => FormField::Context,
        FormField::Tags => FormField::Priority,
        FormField::Eta => FormField::Tags,
    }
}

/// Tab and Shift+Tab undo each other in the task form: moving to the next
/// field and then to the previous one (or the other way round) comes back to
/// the field one started from.
pub proof fn lemma_field_next_prev_inverse(f: FormField)
    ensures
        field_before(field_after(f)) == f,
        field_after(field_before(f)) == f,
{
}

/// Tab walks every field of the task form once and wraps around: after five
/// steps forward the focus is back where it started, and no fewer steps do so.
pub proof fn lemma_field_cycle(f: FormField)
    ensures
        field_after(field_after(field_after(field_after(field_after(f))))) == f,
        field_after(f) != f,
        field_after(field_after(f)) != f,
        field_after(field_after(field_after(f))) != f,
        field_after(field_after(field_after(field_after(f)))) != f,
{
}

/// Each position of the Tab order holds exactly one field.
pub proof fn lemma_field_index_at(f: FormField, i: nat)
    requires
        i < 5,
    ensures
        field_at(field_index(f)) == f,
        field_index(field_at(i)) == i,
{
}

/// The other field of the project form.
pub open spec fn project_field_other(f: ProjectFormField) -> ProjectFormField {
    match f {
        ProjectFormField::Name => ProjectFormField::Description,
        ProjectFormField::Description => ProjectFormField::Name,
    }
}

/// The project form has two fields: Tab and Shift+Tab both move to the other
/// one, so two steps in either direction come back to the start.
pub proof fn lemma_project_field_toggle(f: ProjectFormField)
    ensures
        project_field_other(f) != f,
        project_field_other(project_field_other(f)) == f,
{
}

impl FormField {
    /// All fields in Tab order.
    pub const ORDER: [FormField; 5] = [
        FormField::Description,
        FormField::Context,
        FormField::Priority,
        FormField::Tags,
        FormField::Eta,
    ];

    /// Position of this field in the Tab order.
    pub fn index(self) -> (r: usize)
        ensures
            r == field_index(self),
    {
        match self {
            FormField::Description => 0,
            FormField::Context => 1,
            FormField::Priority => 2,
            FormField::Tags => 3,
            FormField::Eta => 4,
        }
    }

    /// The next field in Tab order (cyclic).
    pub fn next(self) -> (r: Self)
        ensures
            r == field_after(self),
            r == field_at(((field_index(self) + 1) % 5) as nat),
    {
        match self {
            FormField::Description => FormField::Context,
            FormField::Context => FormField::Priority,
            FormField::Priority => FormField::Tags,
            FormField::Tags => FormField::Eta,
            FormField::Eta => FormField::Description,
        }
    }

    /// The previous field in Tab order (cyclic).
    pub fn prev(self) -> (r: Self)
        ensures
            r == field_before(self),
            r == field_at(((field_index(self) + 4) % 5) as nat),
    {
        match self {
            FormField::Description => FormField::Eta,
            FormField::Context => FormField::Description,
            FormField::Priority => FormField::Context,
            FormField::Tags => FormField::Priority,
            FormField::Eta => FormField::Tags,
        }
    }

    /// The field's label (see `task_field_label`).
    pub fn label(self) -> (r: &'static str)
        ensures
            r@ == task_field_label(self),
    {
        match self {
            FormField::Description => "描述",
            FormField::Context => "上下文",
            FormField::Priority => "优先级",
            FormField::Tags => "标签",
            FormField::Eta => "预计完成",
        }
    }

    /// The field's placeholder hint (see `task_field_placeholder`).
    pub fn placeholder(self) -> (r: &'static str)
        ensures
            r@ == task_field_placeholder(self),
    {
        match self {
            FormField::Description => "输入任务描述...",
            FormField::Context => "输入共享上下文（可选）...",
            FormField::Priority => "Space/←/→ 切换: - / low / medium / high",
            FormField::Tags => "逗号分隔，如: 重要, v2",
            FormField::Eta => "如: 2h, P3D, 2025-12-31",
        }
    }
}

/// The label of a task form field.
pub open spec fn task_field_label(f: FormField) -> Seq<char> {
    match f {
        FormField::Description => "描述"@,
        FormField::Context => "上下文"@,
        FormField::Priority => "优先级"@,
        FormField::Tags => "标签"@,
        FormField::Eta => "预计完成"@,
    }
}

/// The placeholder of a task form field.
pub open spec fn task_field_placeholder(f: FormField) -> Seq<char> {
    match f {
        FormField::Description => "输入任务描述..."@,
        FormField::Context => "输入共享上下文（可选）..."@,
        FormField::Priority => "Space/←/→ 切换: - / low / medium / high"@,
        FormField::Tags => "逗号分隔，如: 重要, v2"@,
        FormField::Eta => "如: 2h, P3D, 2025-12-31"@,
    }
}

/// Whether a task form creates or edits.
#[derive(Debug, Clone, Copy, PartialEq, Eq, Structural)]
pub enum FormMode {
    /// New task.
    Create,
    /// Existing task.
    Edit,
}

/// State of the task form.
#[derive(Debug, Clone)]
pub struct TaskFormState {
    /// Create or edit.
    pub mode: FormMode,
    /// The task being edited, in edit mode.
    pub editing_task_id: Option<String>,
    /// Description field.
    pub description: String,
    /// Context field.
    pub context: String,
    /// Priority field.
    pub priority: String,
    /// Tags field (raw, comma separated).
    pub tags: String,
    /// Estimated completion time field.
    pub eta: String,
    /// The focused field.
    pub focused_field: FormField,
    /// Validation error shown under the form.
    pub error: Option<String>,
}

/// Mathematical view of the task form.
pub struct TaskFormView {
    pub mode: FormMode,
    pub editing_task_id: Option<Seq<char>>,
    pub description: Seq<char>,
    pub context: Seq<char>,
    pub priority: Seq<char>,
    pub tags: Seq<char>,
    pub eta: Seq<char>,
    pub focused_field: FormField,
    pub error: Option<Seq<char>>,
}

impl View for TaskFormState {
    type V = TaskFormView;

    open spec fn view(&self) -> TaskFormView {
        TaskFormView {
            mode: self.mode,
            editing_task_id: opt_view(self.editing_task_id),
            description: self.description@,
            context: self.context@,
            priority: self.priority@,
            tags: self.tags@,
            eta: self.eta@,
            focused_field: self.focused_field,
            error: opt_view(self.error),
        }
    }
}

/// Message of an empty task description.
pub open spec fn empty_description_message() -> Seq<char> {
    "任务描述不能为空"@
}

/// Message of an invalid priority.
pub open spec fn bad_priority_message() -> Seq<char> {
    "优先级必须是 high / medium / low"@
}

/// Whether a priority, trimmed and lower-cased, is high, medium or low.
pub open spec fn priority_word(p: Seq<char>) -> bool {
    let l = lowercase(trim(p));
    l == "high"@ || l == "medium"@ || l == "low"@
}

/// The value of the focused field.
pub open spec fn focused_of(f: TaskFormState) -> Seq<char> {
    match f.focused_field {
        FormField::Description => f.description@,
        FormField::Context => f.context@,
        FormField::Priority => f.priority@,
        FormField::Tags => f.tags@,
        FormField::Eta => f.eta@,
    }
}

/// Whether two forms agree on everything but the focused field's value.
pub open spec fn same_but_focused(a: TaskFormState, b: TaskFormState) -> bool {
    &&& a.mode == b.mode
    &&& a.editing_task_id == b.editing_task_id
    &&& a.focused_field == b.focused_field
    &&& a.error == b.error
    &&& (a.focused_field != FormField::Description ==> a.description == b.description)
    &&& (a.focused_field != FormField::Context ==> a.context == b.context)
    &&& (a.focused_field != FormField::Priority ==> a.priority == b.priority)
    &&& (a.focused_field != FormField::Tags ==> a.tags == b.tags)
    &&& (a.focused_field != FormField::Eta ==> a.eta == b.eta)
}

impl TaskFormState {
    /// An empty form for a new task, focused on the description.
    pub fn new_create() -> (r: Self)
        ensures
            r.mode == FormMode::Create,
            r.editing_task_id is None,
            r.description@ == Seq::<char>::empty(),
            r.context@ == Seq::<char>::empty(),
            r.priority@ == Seq::<char>::empty(),
            r.tags@ == Seq::<char>::empty(),
            r.eta@ == Seq::<char>::empty(),
            r.focused_field == FormField::Description,
            r.error is None,
    {
        TaskFormState {
            mode: FormMode::Create,
            editing_task_id: None,
            description: String::new(),
            context: String::new(),
            priority: String::new(),
            tags: String::new(),
            eta: String::new(),
            focused_field: FormField::Description,
            error: None,
        }
    }

    /// A form pre-filled from an existing task: description, context (or
    /// empty), priority (or empty), tags joined with ", " (or empty), and
    /// estimated time (or empty).
    pub fn new_edit(task: &Task) -> (r: Self)
        ensures
            r.mode == FormMode::Edit,
            opt_view(r.editing_task_id) == Some(task@.id),
            r.description@ == task@.task_description,
            r.context@ == match task@.context_for_all_tasks {
                Some(c) => c,
                None => Seq::empty(),
            },
            r.priority@ == match task@.metadata {
                Some(m) => match m.priority {
                    Some(p) => p,
                    None => Seq::empty(),
                },
                None => Seq::empty(),
            },
            r.tags@ == match task@.metadata {
                Some(m) => match m.tags {
                    Some(t) => crate::text::join(t, ", "@),
                    None => Seq::empty(),
                },
                None => Seq::empty(),
            },
            r.eta@ == match task@.metadata {
                Some(m) => match m.estimated_completion_time {
                    Some(e) => e,
                    None => Seq::empty(),
                },
                None => Seq::empty(),
            },
            r.focused_field == FormField::Description,
            r.error is None,
    {
        let context = match &task.context_for_all_tasks {
            Some(c) => c.clone(),
            None => String::new(),
        };
        let (priority, tags, eta) = match &task.metadata {
            Some(m) => (
                match &m.priority {
                    Some(p) => p.clone(),
                    None => String::new(),
                },
                match &m.tags {
                    Some(t) => crate::text::join_strings(t, ", "),
                    None => String::new(),
                },
                match &m.estimated_completion_time {
                    Some(e) => e.clone(),
                    None => String::new(),
                },
            ),
            None => (String::new(), String::new(), String::new()),
        };
        TaskFormState {
            mode: FormMode::Edit,
            editing_task_id: Some(task.id.clone()),
            description: task.task_description.clone(),
            context,
            priority,
            tags,
            eta,
            focused_field: FormField::Description,
            error: None,
        }
    }

    /// The focused field's value, for editing.
    pub fn focused_value_mut(&mut self) -> (r: &mut String)
        ensures
            *r == match old(self).focused_field {
                FormField::Description => old(self).description,
                FormField::Context => old(self).context,
                FormField::Priority => old(self).priority,
                FormField::Tags => old(self).tags,
                FormField::Eta => old(self).eta,
            },
            *final(self) == match old(self).focused_field {
                FormField::Description => TaskFormState { description: *final(r), ..*old(self) },
                FormField::Context => TaskFormState { context: *final(r), ..*old(self) },
                FormField::Priority => TaskFormState { priority: *final(r), ..*old(self) },
                FormField::Tags => TaskFormState { tags: *final(r), ..*old(self) },
                FormField::Eta => TaskFormState { eta: *final(r), ..*old(self) },
            },
    {
        match self.focused_field {
            FormField::Description => &mut self.description,
            FormField::Context => &mut self.context,
            FormField::Priority => &mut self.priority,
            FormField::Tags => &mut self.tags,
            FormField::Eta => &mut self.eta,
        }
    }

    /// The focused field's value.
    pub fn focused_value(&self) -> (r: &str)
        ensures
            r@ == focused_of(*self),
    {
        match self.focused_field {
            FormField::Description => self.description.as_str(),
            FormField::Context => self.context.as_str(),
            FormField::Priority => self.priority.as_str(),
            FormField::Tags => self.tags.as_str(),
            FormField::Eta => self.eta.as_str(),
        }
    }

    /// Validates the form: the description must not be blank, and a non-empty
    /// priority must be high, medium or low in any case once trimmed.
    pub fn validate(&self) -> (r: Result<(), String>)
        ensures
            trim(self.description@).len() == 0 ==> (r matches Err(m) && m@ == empty_description_message()),
            trim(self.description@).len() > 0 && self.priority@.len() > 0 && !priority_word(
                self.priority@,
            ) ==> (r matches Err(m) && m@ == bad_priority_message()),
            r is Ok <==> (trim(self.description@).len() > 0 && (self.priority@.len() == 0
                || priority_word(self.priority@))),
    {
        let d = trim_str(self.description.as_str());
        if d.as_str().unicode_len() == 0 {
            return Err(String::from_str("任务描述不能为空"));
        }
        if self.priority.as_str().unicode_len() > 0 {
            let t = trim_str(self.priority.as_str());
            let p = to_lowercase(t.as_str());
            if !(str_eq(p.as_str(), "high") || str_eq(p.as_str(), "medium") || str_eq(
                p.as_str(),
                "low",
            )) {
                return Err(String::from_str("优先级必须是 high / medium / low"));
            }
        }
        Ok(())
    }
}

/// The focused pane.
#[derive(Debug, Clone, Copy, PartialEq, Eq, Structural)]
pub enum FocusedPane {
    /// Left: project list.
    Left,
    /// Right: task list, detail, form or help.
    Right,
}

/// The view shown in the right pane.
#[derive(Debug, Clone, Copy, PartialEq, Eq, Structural)]
pub enum RightPaneView {
    /// Task list.
    TaskList,
    /// Task detail.
    TaskDetail,
    /// Task form (create / edit).
    TaskForm,
    /// Help.
    Help,
}

/// A focusable field of the project form.
#[derive(Debug, Clone, Copy, PartialEq, Eq, Structural)]
pub enum ProjectFormField {
    /// Project name (required).
    Name,
    /// Project description (optional).
    Description,
}

impl ProjectFormField {
    /// All fields in Tab order.
    pub const ORDER: [ProjectFormField; 2] = [ProjectFormField::Name, ProjectFormField::Description];

    /// Position in Tab order.
    pub fn index(self) -> (r: usize)
        ensures
            r == (match self {
                ProjectFormField::Name => 0usize,
                ProjectFormField::Description => 1usize,
            }),
    {
        match self {
            ProjectFormField::Name => 0,
            ProjectFormField::Description => 1,
        }
    }

    /// The next field (cyclic): the other one.
    pub fn next(self) -> (r: Self)
        ensures
            r == project_field_other(self),
    {
        match self {
            ProjectFormField::Name => ProjectFormField::Description,
            ProjectFormField::Description => ProjectFormField::Name,
        }
    }

    /// The previous field (cyclic): the other one.
    pub fn prev(self) -> (r: Self)
        ensures
            r == project_field_other(self),
    {
        match self {
            ProjectFormField::Name => ProjectFormField::Description,
            ProjectFormField::Description => ProjectFormField::Name,
        }
    }

    /// The field's label.
    pub fn label(self) -> (r: &'static str)
        ensures
            r@ == (match self {
                ProjectFormField::Name => "名称"@,
                ProjectFormField::Description => "描述"@,
            }),
    {
        match self {
            ProjectFormField::Name => "名称",
            ProjectFormField::Description => "描述",
        }
    }

    /// The field's placeholder hint.
    pub fn placeholder(self) -> (r: &'static str)
        ensures
            r@ == (match self {
                ProjectFormField::Name => "输入项目名称..."@,
                ProjectFormField::Description => "输入项目描述（可选）..."@,
            }),
    {
        match self {
            ProjectFormField::Name => "输入项目名称...",
            ProjectFormField::Description => "输入项目描述（可选）...",
        }
    }
}

/// Whether a project form creates or edits.
#[derive(Debug, Clone, Copy, PartialEq, Eq, Structural)]
pub enum ProjectFormMode {
    /// New project.
    Create,
    /// Existing project.
    Edit,
}

/// An overlay drawn above the panes.
#[derive(Debug, Clone, Copy, PartialEq, Eq, Structural)]
pub enum Overlay {
    /// No overlay.
    Closed,
    /// Project form.
    ProjectForm(ProjectFormMode),
    /// Confirm deleting a project.
    DeleteProject,
    /// Confirm deleting a task.
    DeleteTask,
    /// Confirm deleting a note.
    DeleteNote,
    /// Inline input.
    Input(InputMode),
}

/// State of the project form.
#[derive(Debug, Clone)]
pub struct ProjectFormState {
    /// Create or edit.
    pub mode: ProjectFormMode,
    /// The project being edited, in edit mode.
    pub editing_project_id: Option<String>,
    /// Name field.
    pub name: String,
    /// Description field.
    pub description: String,
    /// The focused field.
    pub focused_field: ProjectFormField,
    /// Validation error.
    pub error: Option<String>,
}

/// Mathematical view of the project form.
pub struct ProjectFormView {
    pub mode: ProjectFormMode,
    pub editing_project_id: Option<Seq<char>>,
    pub name: Seq<char>,
    pub description: Seq<char>,
    pub focused_field: ProjectFormField,
    pub error: Option<Seq<char>>,
}

impl View for ProjectFormState {
    type V = ProjectFormView;

    open spec fn view(&self) -> ProjectFormView {
        ProjectFormView {
            mode: self.mode,
            editing_project_id: opt_view(self.editing_project_id),
            name: self.name@,
            description: self.description@,
            focused_field: self.focused_field,
            error: opt_view(self.error),
        }
    }
}

impl ProjectFormState {
    /// An empty form for a new project, focused on the name.
    pub fn new_create() -> (r: Self)
        ensures
            r.mode == ProjectFormMode::Create,
            r.editing_project_id is None,
            r.name@ == Seq::<char>::empty(),
            r.description@ == Seq::<char>::empty(),
            r.focused_field == ProjectFormField::Name,
            r.error is None,
    {
        ProjectFormState {
            mode: ProjectFormMode::Create,
            editing_project_id: None,
            name: String::new(),
            description: String::new(),
            focused_field: ProjectFormField::Name,
            error: None,
        }
    }

    /// A form pre-filled from an existing project.
    pub fn new_edit(project: &Project) -> (r: Self)
        ensures
            r.mode == ProjectFormMode::Edit,
            opt_view(r.editing_project_id) == Some(project@.id),
            r.name@ == project@.name,
            r.description@ == match project@.description {
                Some(d) => d,
                None => Seq::empty(),
            },
            r.focused_field == ProjectFormField::Name,
            r.error is None,
    {
        ProjectFormState {
            mode: ProjectFormMode::Edit,
            editing_project_id: Some(project.id.clone()),
            name: project.name.clone(),
            description: match &project.description {
                Some(d) => d.clone(),
                None => String::new(),
            },
            focused_field: ProjectFormField::Name,
            error: None,
        }
    }

    /// The focused field's value, for editing.
    pub fn focused_value_mut(&mut self) -> (r: &mut String)
        ensures
            *r == match old(self).focused_field {
                ProjectFormField::Name => old(self).name,
                ProjectFormField::Description => old(self).description,
            },
            *final(self) == match old(self).focused_field {
                ProjectFormField::Name => ProjectFormState { name: *final(r), ..*old(self) },
                ProjectFormField::Description => ProjectFormState {
                    description: *final(r),
                    ..*old(self)
                },
            },
    {
        match self.focused_field {
            ProjectFormField::Name => &mut self.name,
            ProjectFormField::Description => &mut self.description,
        }
    }

    /// The focused field's value.
    pub fn focused_value(&self) -> (r: &str)
        ensures
            r@ == match self.focused_field {
                ProjectFormField::Name => self.name@,
                ProjectFormField::Description => self.description@,
            },
    {
        match self.focused_field {
            ProjectFormField::Name => self.name.as_str(),
            ProjectFormField::Description => self.description.as_str(),
        }
    }

    /// Validates the form: the name must not be blank.
    pub fn validate(&self) -> (r: Result<(), String>)
        ensures
            r is Ok <==> trim(self.name@).len() > 0,
            r matches Err(m) ==> m@ == "项目名称不能为空"@,
    {
        let n = trim_str(self.name.as_str());
        if n.as_str().unicode_len() == 0 {
            return Err(String::from_str("项目名称不能为空"));
        }
        Ok(())
    }
}

/// Sort order of the task list.
#[derive(Debug, Clone, Copy, PartialEq, Eq, Structural)]
pub enum SortMode {
    /// By creation time (default).
    Created,
    /// By priority (high first).
    Priority,
    /// By update time (latest first).
    Updated,
}

/// The sort mode after `m`: created → priority → updated → created.
pub open spec fn sort_after(m: SortMode) -> SortMode {
    match m {
        SortMode::Created => SortMode::Priority,
        SortMode::Priority => SortMode::Updated,
        SortMode::Updated => SortMode::Created,
    }
}

/// Pressing `s` cycles through the three sort orders: three presses come back
/// to the order one started from, and one or two presses never do.
pub proof fn lemma_sort_cycle(m: SortMode)
    ensures
        sort_after(sort_after(sort_after(m))) == m,
        sort_after(m) != m,
        sort_after(sort_after(m)) != m,
{
}

impl SortMode {
    /// The next sort order: created → priority → updated → created.
    pub fn next(self) -> (r: Self)
        ensures
            r == sort_after(self),
    {
        match self {
            SortMode::Created => SortMode::Priority,
            SortMode::Priority => SortMode::Updated,
            SortMode::Updated => SortMode::Created,
        }
    }

    /// The sort order's label.
    pub fn label(self) -> (r: &'static str)
        ensures
            r@ == (match self {
                SortMode::Created => "创建时间"@,
                SortMode::Priority => "优先级"@,
                SortMode::Updated => "更新时间"@,
            }),
    {
        match self {
            SortMode::Created => "创建时间",
            SortMode::Priority => "优先级",
            SortMode::Updated => "更新时间",
        }
    }
}

/// Sort weight of a priority for the task list, larger first: high 3,
/// medium 2, low 1, anything else or none 0 (case-sensitive).
pub open spec fn priority_weight(p: Option<Seq<char>>) -> u8 {
    if p == Some("high"@) {
        3
    } else if p == Some("medium"@) {
        2
    } else if p == Some("low"@) {
        1
    } else {
        0
    }
}

/// Sort weight of a priority (see `priority_weight`).
pub fn priority_rank(priority: Option<&str>) -> (r: u8)
    ensures
        r == priority_weight(crate::models::opt_str_view(priority)),
{
    match priority {
        Some(p) => {
            if str_eq(p, "high") {
                3
            } else if str_eq(p, "medium") {
                2
            } else if str_eq(p, "low") {
                1
            } else {
                0
            }
        },
        None => 0,
    }
}

} // verus!
