//! The state of the terminal interface and how events change it.
//!
//! `App` holds everything the interface shows. Handling an event is a
//! transition from one state to the next; background work is not started
//! here but queued as `Effect`s, which the event loop performs and answers
//! with `Action` events.

use vstd::prelude::*;

use crate::logic::task::{priority_of, refs_view, task_priority};
use crate::models::{
    Project, ProjectView, Task, TaskMetadata, TaskMetadataView, TaskView, meta_view, opt_view,
    projects_view, tasks_view,
};
use crate::text::{
    append_str, chars_le, contains_str, decimal, lowercase, occurs_in, parse_tag_list, parse_tags, pop_char,
    popped, push_char, str_eq, str_le, to_lowercase, trim, trim_str, usize_to_decimal,
};
use crate::tui::event::{KeyCode, KeyPress};
use crate::tui::app::{
    FocusedPane, FormField, FormMode, InputMode, Overlay, ProjectFormField, ProjectFormMode,
    ProjectFormState, ProjectFormView, RightPaneView, SortMode, TaskFormState, TaskFormView,
    bad_priority_message, empty_description_message, field_after, field_before, priority_rank,
    priority_weight, priority_word, project_field_other, sort_after,
};
use crate::tui::event::{
    Action, AppEvent, EffectView, Effect, effects_view, opt_task_view,
};

verus! {

/// An opaque filesystem path, carried through to the event loop.
#[verifier::external_type_specification]
#[verifier::external_body]
pub struct ExPathBuf(std::path::PathBuf);

/// Number of rows assumed visible when keeping the selection in view.
pub const VISIBLE_ROWS: usize = 20;

/// State of the terminal interface.
pub struct App {
    data_dir: Option<std::path::PathBuf>,
    focused_pane: FocusedPane,
    right_pane_view: RightPaneView,
    previous_right_pane_view: RightPaneView,
    overlay: Overlay,
    tasks: Vec<Task>,
    selected_index: usize,
    current_task: Option<Task>,
    scroll_offset: usize,
    sort_mode: SortMode,
    search_query: Option<String>,
    search_mode: bool,
    selected_item_index: usize,
    input_buffer: String,
    selected_note_index: usize,
    form_state: Option<TaskFormState>,
    projects: Vec<Project>,
    project_selected_index: usize,
    project_scroll_offset: usize,
    project_tasks: Vec<Task>,
    project_form_state: Option<ProjectFormState>,
    resource_name_buffer: String,
    should_quit: bool,
    message: Option<String>,
    error_message: Option<String>,
    connected: bool,
    effects: Vec<Effect>,
}

/// Mathematical view of the interface state.
pub struct AppView {
    pub data_dir: Option<std::path::PathBuf>,
    pub focused_pane: FocusedPane,
    pub right_pane_view: RightPaneView,
    pub previous_right_pane_view: RightPaneView,
    pub overlay: Overlay,
    pub tasks: Seq<TaskView>,
    pub selected_index: usize,
    pub current_task: Option<TaskView>,
    pub scroll_offset: usize,
    pub sort_mode: SortMode,
    pub search_query: Option<Seq<char>>,
    pub search_mode: bool,
    pub selected_item_index: usize,
    pub input_buffer: Seq<char>,
    pub selected_note_index: usize,
    pub form_state: Option<TaskFormView>,
    pub projects: Seq<ProjectView>,
    pub project_selected_index: usize,
    pub project_scroll_offset: usize,
    pub project_tasks: Seq<TaskView>,
    pub project_form_state: Option<ProjectFormView>,
    pub resource_name_buffer: Seq<char>,
    pub should_quit: bool,
    pub message: Option<Seq<char>>,
    pub error_message: Option<Seq<char>>,
    /// Whether an event loop takes the queued effects.
    pub connected: bool,
    /// Effects queued and not yet taken.
    pub effects: Seq<EffectView>,
}

/// View of an optional task form.
pub open spec fn opt_form_view(f: Option<TaskFormState>) -> Option<TaskFormView> {
    match f {
        Some(x) => Some(x@),
        None => None,
    }
}

/// View of an optional project form.
pub open spec fn opt_project_form_view(f: Option<ProjectFormState>) -> Option<ProjectFormView> {
    match f {
        Some(x) => Some(x@),
        None => None,
    }
}

impl View for App {
    type V = AppView;

    closed spec fn view(&self) -> AppView {
        AppView {
            data_dir: self.data_dir,
            focused_pane: self.focused_pane,
            right_pane_view: self.right_pane_view,
            previous_right_pane_view: self.previous_right_pane_view,
            overlay: self.overlay,
            tasks: tasks_view(self.tasks@),
            selected_index: self.selected_index,
            current_task: opt_task_view(self.current_task),
            scroll_offset: self.scroll_offset,
            sort_mode: self.sort_mode,
            search_query: opt_view(self.search_query),
            search_mode: self.search_mode,
            selected_item_index: self.selected_item_index,
            input_buffer: self.input_buffer@,
            selected_note_index: self.selected_note_index,
            form_state: opt_form_view(self.form_state),
            projects: projects_view(self.projects@),
            project_selected_index: self.project_selected_index,
            project_scroll_offset: self.project_scroll_offset,
            project_tasks: tasks_view(self.project_tasks@),
            project_form_state: opt_project_form_view(self.project_form_state),
            resource_name_buffer: self.resource_name_buffer@,
            should_quit: self.should_quit,
            message: opt_view(self.message),
            error_message: opt_view(self.error_message),
            connected: self.connected,
            effects: effects_view(self.effects@),
        }
    }
}

// ── Filtering and sorting of the right-hand task list ──────────────────────

/// Whether a task matches a search query: the lower-cased query occurs in the
/// lower-cased description or ID.
pub open spec fn matches_query(t: TaskView, q: Seq<char>) -> bool {
    occurs_in(lowercase(q), lowercase(t.task_description)) || occurs_in(lowercase(q), lowercase(t.id))
}

/// The tasks of `ts` that match `q`, in order.
pub open spec fn matching(ts: Seq<TaskView>, q: Seq<char>) -> Seq<TaskView>
    decreases ts.len(),
{
    if ts.len() == 0 {
        Seq::empty()
    } else if matches_query(ts.last(), q) {
        matching(ts.drop_last(), q).push(ts.last())
    } else {
        matching(ts.drop_last(), q)
    }
}

/// The tasks kept by a search: all of them without a query or with an
/// empty one.
pub open spec fn searched(ts: Seq<TaskView>, q: Option<Seq<char>>) -> Seq<TaskView> {
    match q {
        Some(s) => if s.len() == 0 { ts } else { matching(ts, s) },
        None => ts,
    }
}

/// Whether `x` may come right after `a` in a list sorted by `mode`: by
/// priority, `a`'s weight is not below `x`'s; by update time, `a` was not
/// updated before `x`.
pub open spec fn may_follow(a: TaskView, x: TaskView, mode: SortMode) -> bool {
    match mode {
        SortMode::Priority => priority_weight(priority_of(a.metadata)) >= priority_weight(
            priority_of(x.metadata),
        ),
        _ => chars_le(x.updated_at, a.updated_at),
    }
}

/// Inserts `x` into the sorted `s` after every element it may follow.
pub open spec fn insert_sorted(s: Seq<TaskView>, x: TaskView, mode: SortMode) -> Seq<TaskView>
    decreases s.len(),
{
    if s.len() == 0 {
        seq![x]
    } else if may_follow(s.last(), x, mode) {
        s.push(x)
    } else {
        insert_sorted(s.drop_last(), x, mode).push(s.last())
    }
}

/// Stable sort of `s`, descending by the key of `mode`.
pub open spec fn sorted_desc(s: Seq<TaskView>, mode: SortMode) -> Seq<TaskView>
    decreases s.len(),
{
    if s.len() == 0 {
        Seq::empty()
    } else {
        insert_sorted(sorted_desc(s.drop_last(), mode), s.last(), mode)
    }
}

/// `s` ordered by a sort mode: newest first by creation (the reverse of the
/// loaded order), or stably by descending priority weight or update time.
pub open spec fn ordered(s: Seq<TaskView>, mode: SortMode) -> Seq<TaskView> {
    match mode {
        SortMode::Created => s.reverse(),
        _ => sorted_desc(s, mode),
    }
}

/// The right-hand task list as shown: the selected project's tasks, searched,
/// then ordered.
pub open spec fn shown_tasks(v: AppView) -> Seq<TaskView> {
    ordered(searched(v.project_tasks, v.search_query), v.sort_mode)
}

proof fn lemma_push_contains(s: Seq<TaskView>, x: TaskView, y: TaskView)
    ensures
        s.push(x).contains(y) <==> (s.contains(y) || x == y),
{
    if s.contains(y) {
        let i = choose|i: int| 0 <= i < s.len() && s[i] == y;
        assert(s.push(x)[i] == y);
    }
    if x == y {
        assert(s.push(x)[s.len() as int] == y);
    }
    if s.push(x).contains(y) {
        let i = choose|i: int| 0 <= i < s.push(x).len() && s.push(x)[i] == y;
        if i < s.len() {
            assert(s[i] == y);
        }
    }
}

proof fn lemma_matching_contains(ts: Seq<TaskView>, q: Seq<char>, y: TaskView)
    ensures
        matching(ts, q).contains(y) <==> (ts.contains(y) && matches_query(y, q)),
    decreases ts.len(),
{
    if ts.len() > 0 {
        lemma_matching_contains(ts.drop_last(), q, y);
        lemma_push_contains(ts.drop_last(), ts.last(), y);
        assert(ts.drop_last().push(ts.last()) =~= ts);
        if matches_query(ts.last(), q) {
            lemma_push_contains(matching(ts.drop_last(), q), ts.last(), y);
        }
    }
}

proof fn lemma_insert_sorted_contains(s: Seq<TaskView>, x: TaskView, mode: SortMode, y: TaskView)
    ensures
        insert_sorted(s, x, mode).contains(y) <==> (s.contains(y) || x == y),
    decreases s.len(),
{
    if s.len() == 0 {
        assert(insert_sorted(s, x, mode)[0] == x);
    } else if may_follow(s.last(), x, mode) {
        lemma_push_contains(s, x, y);
    } else {
        lemma_insert_sorted_contains(s.drop_last(), x, mode, y);
        lemma_push_contains(insert_sorted(s.drop_last(), x, mode), s.last(), y);
        lemma_push_contains(s.drop_last(), s.last(), y);
        assert(s.drop_last().push(s.last()) =~= s);
    }
}

proof fn lemma_sorted_desc_contains(s: Seq<TaskView>, mode: SortMode, y: TaskView)
    ensures
        sorted_desc(s, mode).contains(y) <==> s.contains(y),
    decreases s.len(),
{
    if s.len() > 0 {
        lemma_sorted_desc_contains(s.drop_last(), mode, y);
        lemma_insert_sorted_contains(sorted_desc(s.drop_last(), mode), s.last(), mode, y);
        lemma_push_contains(s.drop_last(), s.last(), y);
        assert(s.drop_last().push(s.last()) =~= s);
    }
}

proof fn lemma_ordered_contains(s: Seq<TaskView>, mode: SortMode, y: TaskView)
    ensures
        ordered(s, mode).contains(y) <==> s.contains(y),
{
    match mode {
        SortMode::Created => {
            if s.contains(y) {
                let i = choose|i: int| 0 <= i < s.len() && s[i] == y;
                assert(s.reverse()[s.len() - 1 - i] == y);
            }
            if s.reverse().contains(y) {
                let i = choose|i: int| 0 <= i < s.reverse().len() && s.reverse()[i] == y;
                assert(s[s.len() - 1 - i] == y);
            }
        },
        _ => lemma_sorted_desc_contains(s, mode, y),
    }
}

/// The live search keeps exactly the matching tasks: with a non-empty
/// query, a task of the project is shown exactly when the lower-cased query
/// occurs in its lower-cased description or in its lower-cased ID (so a
/// task whose ID holds the query is shown), whatever the sort order.
pub proof fn lemma_search_keeps_matches(v: AppView, t: TaskView)
    requires
        v.search_query matches Some(q) && q.len() > 0,
    ensures
        shown_tasks(v).contains(t) <==> (v.project_tasks.contains(t) && (occurs_in(
            lowercase(v.search_query->Some_0),
            lowercase(t.task_description),
        ) || occurs_in(lowercase(v.search_query->Some_0), lowercase(t.id)))),
{
    let q = v.search_query->Some_0;
    lemma_ordered_contains(matching(v.project_tasks, q), v.sort_mode, t);
    lemma_matching_contains(v.project_tasks, q, t);
}

// ── Small transitions ───────────────────────────────────────────────────────

/// `v` with the message replaced.
pub open spec fn with_message(v: AppView, m: Seq<char>) -> AppView {
    AppView { message: Some(m), ..v }
}

/// Queues an effect when an event loop is attached.
pub open spec fn queued(v: AppView, e: EffectView) -> AppView {
    if v.connected {
        AppView { effects: v.effects.push(e), ..v }
    } else {
        v
    }
}

/// Queues an effect and shows a message when an event loop is attached.
pub open spec fn queued_with_message(v: AppView, e: EffectView, m: Seq<char>) -> AppView {
    if v.connected {
        AppView { effects: v.effects.push(e), message: Some(m), ..v }
    } else {
        v
    }
}

/// Keeps the selected row in a window of `VISIBLE_ROWS` rows: the new
/// scroll offset.
pub open spec fn scrolled(selected: usize, offset: usize) -> usize {
    if selected < offset {
        selected
    } else if selected >= offset + VISIBLE_ROWS {
        (selected - VISIBLE_ROWS + 1) as usize
    } else {
        offset
    }
}

/// The selection clamped into the shown list.
pub open spec fn clamped(v: AppView) -> AppView {
    let n = shown_tasks(v).len();
    if n == 0 {
        AppView { selected_index: 0, ..v }
    } else if v.selected_index >= n {
        AppView { selected_index: (n - 1) as usize, ..v }
    } else {
        v
    }
}

/// Opens the help view, remembering the current view; on the help view,
/// goes back to the remembered view.
pub open spec fn help_shown(v: AppView) -> AppView {
    if v.right_pane_view != RightPaneView::Help {
        AppView {
            previous_right_pane_view: v.right_pane_view,
            right_pane_view: RightPaneView::Help,
            focused_pane: FocusedPane::Right,
            ..v
        }
    } else {
        AppView { right_pane_view: v.previous_right_pane_view, ..v }
    }
}

/// Leaves the help view for the remembered view.
pub open spec fn help_closed(v: AppView) -> AppView {
    if v.right_pane_view == RightPaneView::Help {
        AppView { right_pane_view: v.previous_right_pane_view, ..v }
    } else {
        v
    }
}

/// Resets the task selection and loads the selected project's tasks, when a
/// project is selected.
pub open spec fn project_tasks_requested(v: AppView) -> AppView {
    if v.project_selected_index < v.projects.len() {
        queued(
            AppView { selected_index: 0, scroll_offset: 0, ..v },
            EffectView::LoadProjectTasks { project_id: v.projects[v.project_selected_index as int].id },
        )
    } else {
        v
    }
}

/// Requests the project list.
pub open spec fn projects_requested(v: AppView) -> AppView {
    queued_with_message(v, EffectView::LoadProjects, "正在加载项目列表..."@)
}


// ── Forms ───────────────────────────────────────────────────────────────────

/// An empty task form (see `TaskFormState::new_create`).
pub open spec fn new_task_form() -> TaskFormView {
    TaskFormView {
        mode: FormMode::Create,
        editing_task_id: None,
        description: Seq::empty(),
        context: Seq::empty(),
        priority: Seq::empty(),
        tags: Seq::empty(),
        eta: Seq::empty(),
        focused_field: FormField::Description,
        error: None,
    }
}

/// `o`'s value, or the empty sequence.
pub open spec fn or_empty(o: Option<Seq<char>>) -> Seq<char> {
    match o {
        Some(s) => s,
        None => Seq::empty(),
    }
}

/// A task form pre-filled from a task (see `TaskFormState::new_edit`).
pub open spec fn edit_task_form(t: TaskView) -> TaskFormView {
    TaskFormView {
        mode: FormMode::Edit,
        editing_task_id: Some(t.id),
        description: t.task_description,
        context: or_empty(t.context_for_all_tasks),
        priority: match t.metadata {
            Some(m) => or_empty(m.priority),
            None => Seq::empty(),
        },
        tags: match t.metadata {
            Some(m) => match m.tags {
                Some(tg) => crate::text::join(tg, ", "@),
                None => Seq::empty(),
            },
            None => Seq::empty(),
        },
        eta: match t.metadata {
            Some(m) => or_empty(m.estimated_completion_time),
            None => Seq::empty(),
        },
        focused_field: FormField::Description,
        error: None,
    }
}

/// An empty project form.
pub open spec fn new_project_form() -> ProjectFormView {
    ProjectFormView {
        mode: ProjectFormMode::Create,
        editing_project_id: None,
        name: Seq::empty(),
        description: Seq::empty(),
        focused_field: ProjectFormField::Name,
        error: None,
    }
}

/// A project form pre-filled from a project.
pub open spec fn edit_project_form(p: ProjectView) -> ProjectFormView {
    ProjectFormView {
        mode: ProjectFormMode::Edit,
        editing_project_id: Some(p.id),
        name: p.name,
        description: or_empty(p.description),
        focused_field: ProjectFormField::Name,
        error: None,
    }
}

/// The value of the task form's focused field.
pub open spec fn task_focused(f: TaskFormView) -> Seq<char> {
    match f.focused_field {
        FormField::Description => f.description,
        FormField::Context => f.context,
        FormField::Priority => f.priority,
        FormField::Tags => f.tags,
        FormField::Eta => f.eta,
    }
}

/// The task form with the focused field set to `s` and the error cleared.
pub open spec fn task_focused_set(f: TaskFormView, s: Seq<char>) -> TaskFormView {
    match f.focused_field {
        FormField::Description => TaskFormView { description: s, error: None, ..f },
        FormField::Context => TaskFormView { context: s, error: None, ..f },
        FormField::Priority => TaskFormView { priority: s, error: None, ..f },
        FormField::Tags => TaskFormView { tags: s, error: None, ..f },
        FormField::Eta => TaskFormView { eta: s, error: None, ..f },
    }
}

/// The value of the project form's focused field.
pub open spec fn project_focused(f: ProjectFormView) -> Seq<char> {
    match f.focused_field {
        ProjectFormField::Name => f.name,
        ProjectFormField::Description => f.description,
    }
}

/// The project form with the focused field set to `s` and the error cleared.
pub open spec fn project_focused_set(f: ProjectFormView, s: Seq<char>) -> ProjectFormView {
    match f.focused_field {
        ProjectFormField::Name => ProjectFormView { name: s, error: None, ..f },
        ProjectFormField::Description => ProjectFormView { description: s, error: None, ..f },
    }
}

/// Whether the task form passes validation.
pub open spec fn task_form_valid(f: TaskFormView) -> bool {
    trim(f.description).len() > 0 && (f.priority.len() == 0 || priority_word(f.priority))
}

/// The validation message of an invalid task form.
pub open spec fn task_form_error(f: TaskFormView) -> Seq<char> {
    if trim(f.description).len() == 0 {
        empty_description_message()
    } else {
        bad_priority_message()
    }
}

/// The choices of the priority field, in cycling order.
pub open spec fn priority_choice(i: int) -> Seq<char> {
    if i == 1 {
        "low"@
    } else if i == 2 {
        "medium"@
    } else if i == 3 {
        "high"@
    } else {
        Seq::empty()
    }
}

/// Position of a priority among the choices (unknown values count as the
/// empty choice).
pub open spec fn priority_position(p: Seq<char>) -> int {
    let c = lowercase(trim(p));
    if c == "low"@ {
        1
    } else if c == "medium"@ {
        2
    } else if c == "high"@ {
        3
    } else {
        0
    }
}

/// The priority after cycling: backwards with Left, forwards otherwise.
pub open spec fn cycled_priority(p: Seq<char>, backwards: bool) -> Seq<char> {
    let i = priority_position(p);
    if backwards {
        priority_choice(if i == 0 { 3 } else { i - 1 })
    } else {
        priority_choice((i + 1) % 4)
    }
}

/// `s`, or nothing when it is empty.
pub open spec fn nonempty(s: Seq<char>) -> Option<Seq<char>> {
    if s.len() == 0 {
        None
    } else {
        Some(s)
    }
}

/// Metadata of a new task from the form: present when any of priority, tags
/// or time is given; tags are parsed from the comma-separated list.
pub open spec fn created_metadata(
    priority: Option<Seq<char>>,
    tags: Option<Seq<char>>,
    eta: Option<Seq<char>>,
) -> Option<TaskMetadataView> {
    if priority is Some || tags is Some || eta is Some {
        Some(
            TaskMetadataView {
                tags: match tags {
                    Some(t) => Some(parse_tag_list(t)),
                    None => None,
                },
                priority,
                estimated_completion_time: eta,
            },
        )
    } else {
        None
    }
}

/// Metadata of an edited task from the form: empty fields are absent.
pub open spec fn edited_metadata(priority: Seq<char>, tags: Seq<char>, eta: Seq<char>) -> TaskMetadataView {
    TaskMetadataView {
        tags: if tags.len() == 0 {
            None
        } else {
            Some(parse_tag_list(tags))
        },
        priority: nonempty(priority),
        estimated_completion_time: nonempty(eta),
    }
}

/// Submitting a valid task form: the form closes and a create or update is
/// requested with the trimmed fields (the priority lower-cased). A new task
/// goes to the selected project, if any.
pub open spec fn task_form_submitted(v: AppView, f: TaskFormView) -> AppView {
    let d = trim(f.description);
    let c = trim(f.context);
    let p = lowercase(trim(f.priority));
    let tg = trim(f.tags);
    let e = trim(f.eta);
    let w = AppView { form_state: None, ..v };
    match f.mode {
        FormMode::Create => queued_with_message(
            w,
            EffectView::CreateTask {
                description: d,
                context: nonempty(c),
                metadata: created_metadata(nonempty(p), nonempty(tg), nonempty(e)),
                project_id: if v.project_selected_index < v.projects.len() {
                    Some(v.projects[v.project_selected_index as int].id)
                } else {
                    None
                },
            },
            "正在创建任务..."@,
        ),
        FormMode::Edit => match f.editing_task_id {
            Some(id) => queued_with_message(
                w,
                EffectView::UpdateTask {
                    task_id: id,
                    description: d,
                    context: c,
                    metadata: edited_metadata(p, tg, e),
                },
                "正在更新任务..."@,
            ),
            None => w,
        },
    }
}

/// A key in the task form.
pub open spec fn task_form_key(v: AppView, k: KeyPress) -> AppView {
    match v.form_state {
        None => v,
        Some(f) => match k.code {
            KeyCode::Esc => AppView {
                form_state: None,
                right_pane_view: RightPaneView::TaskList,
                message: Some("已取消"@),
                ..v
            },
            KeyCode::Tab => AppView {
                form_state: Some(TaskFormView { focused_field: field_after(f.focused_field), error: None, ..f }),
                ..v
            },
            KeyCode::BackTab => AppView {
                form_state: Some(TaskFormView { focused_field: field_before(f.focused_field), error: None, ..f }),
                ..v
            },
            KeyCode::Enter => if task_form_valid(f) {
                task_form_submitted(v, f)
            } else {
                AppView { form_state: Some(TaskFormView { error: Some(task_form_error(f)), ..f }), ..v }
            },
            _ => if f.focused_field == FormField::Priority {
                if k.code == KeyCode::Char(' ') || k.code == KeyCode::Right || k.code == KeyCode::Left {
                    AppView {
                        form_state: Some(TaskFormView {
                            priority: cycled_priority(f.priority, k.code == KeyCode::Left),
                            error: None,
                            ..f
                        }),
                        ..v
                    }
                } else {
                    v
                }
            } else {
                match k.code {
                    KeyCode::Backspace => AppView {
                        form_state: Some(task_focused_set(f, popped(task_focused(f)))),
                        ..v
                    },
                    KeyCode::Char(c) => AppView {
                        form_state: Some(task_focused_set(f, task_focused(f).push(c))),
                        ..v
                    },
                    _ => v,
                }
            },
        },
    }
}

/// A key in the project form overlay.
pub open spec fn project_form_key(v: AppView, k: KeyPress) -> AppView {
    match v.project_form_state {
        None => v,
        Some(f) => match k.code {
            KeyCode::Esc => AppView {
                project_form_state: None,
                overlay: Overlay::Closed,
                message: Some("已取消"@),
                ..v
            },
            KeyCode::Tab | KeyCode::BackTab => AppView {
                project_form_state: Some(ProjectFormView {
                    focused_field: project_field_other(f.focused_field),
                    error: None,
                    ..f
                }),
                ..v
            },
            KeyCode::Enter => if trim(f.name).len() == 0 {
                AppView {
                    project_form_state: Some(ProjectFormView { error: Some("项目名称不能为空"@), ..f }),
                    ..v
                }
            } else {
                let w = AppView { project_form_state: None, overlay: Overlay::Closed, ..v };
                match f.mode {
                    ProjectFormMode::Create => queued_with_message(
                        w,
                        EffectView::CreateProject { name: trim(f.name), description: nonempty(trim(f.description)) },
                        "正在创建项目..."@,
                    ),
                    ProjectFormMode::Edit => match f.editing_project_id {
                        Some(id) => queued_with_message(
                            w,
                            EffectView::UpdateProject {
                                project_id: id,
                                name: trim(f.name),
                                description: nonempty(trim(f.description)),
                            },
                            "正在更新项目..."@,
                        ),
                        None => w,
                    },
                }
            },
            KeyCode::Backspace => AppView {
                project_form_state: Some(project_focused_set(f, popped(project_focused(f)))),
                ..v
            },
            KeyCode::Char(c) => AppView {
                project_form_state: Some(project_focused_set(f, project_focused(f).push(c))),
                ..v
            },
            _ => v,
        },
    }
}

// ── Keys outside forms ──────────────────────────────────────────────────────

/// A key while typing a search: Esc drops the query, Enter keeps it,
/// Backspace and characters edit it; the selection is then clamped.
pub open spec fn search_key(v: AppView, k: KeyPress) -> AppView {
    match k.code {
        KeyCode::Esc => clamped(AppView { search_mode: false, search_query: None, ..v }),
        KeyCode::Enter => clamped(AppView { search_mode: false, ..v }),
        KeyCode::Backspace => match v.search_query {
            Some(q) => clamped(AppView { search_query: Some(popped(q)), ..v }),
            None => v,
        },
        KeyCode::Char(c) => clamped(
            AppView {
                search_query: Some(
                    match v.search_query {
                        Some(q) => q.push(c),
                        None => seq![c],
                    },
                ),
                ..v
            },
        ),
        _ => v,
    }
}

/// The overlay closed.
pub open spec fn overlay_closed(v: AppView) -> AppView {
    AppView { overlay: Overlay::Closed, ..v }
}

/// Whether a key answers no (n, N or Esc).
pub open spec fn is_no(k: KeyPress) -> bool {
    k.code == KeyCode::Char('n') || k.code == KeyCode::Char('N') || k.code == KeyCode::Esc
}

/// Whether a key answers yes (y or Y).
pub open spec fn is_yes(k: KeyPress) -> bool {
    k.code == KeyCode::Char('y') || k.code == KeyCode::Char('Y')
}

/// A key in the delete-task confirmation: yes deletes the task in the
/// detail view, else the selected one of the list.
pub open spec fn delete_task_key(v: AppView, k: KeyPress) -> AppView {
    if is_yes(k) {
        match v.current_task {
            Some(t) => queued(overlay_closed(v), EffectView::DeleteTask { task_id: t.id }),
            None => if v.selected_index < shown_tasks(v).len() {
                queued(
                    overlay_closed(v),
                    EffectView::DeleteTask { task_id: shown_tasks(v)[v.selected_index as int].id },
                )
            } else {
                overlay_closed(v)
            },
        }
    } else if is_no(k) {
        overlay_closed(v)
    } else {
        v
    }
}

/// A key in the delete-note confirmation.
pub open spec fn delete_note_key(v: AppView, k: KeyPress) -> AppView {
    if is_yes(k) {
        match v.current_task {
            Some(t) => queued(
                overlay_closed(v),
                EffectView::DeleteNote { task_id: t.id, note_index: v.selected_note_index },
            ),
            None => v,
        }
    } else if is_no(k) {
        overlay_closed(v)
    } else {
        v
    }
}

/// A key in the delete-project confirmation.
pub open spec fn delete_project_key(v: AppView, k: KeyPress) -> AppView {
    if is_yes(k) {
        if v.project_selected_index < v.projects.len() {
            queued(
                overlay_closed(v),
                EffectView::DeleteProject { project_id: v.projects[v.project_selected_index as int].id },
            )
        } else {
            overlay_closed(v)
        }
    } else if is_no(k) {
        overlay_closed(v)
    } else {
        v
    }
}

/// The input overlay closed and its buffers emptied.
pub open spec fn input_closed(v: AppView) -> AppView {
    AppView {
        overlay: Overlay::Closed,
        input_buffer: Seq::empty(),
        resource_name_buffer: Seq::empty(),
        ..v
    }
}

/// An empty input refused: the overlay closes with a message.
pub open spec fn input_refused(v: AppView, m: Seq<char>) -> AppView {
    AppView { overlay: Overlay::Closed, input_buffer: Seq::empty(), message: Some(m), ..v }
}

/// Enter in the input overlay: the trimmed input is used for the task in
/// the detail view according to the mode; required inputs may not be empty;
/// a resource name leads on to its URL.
pub open spec fn input_submitted(v: AppView, mode: InputMode) -> AppView {
    let value = trim(v.input_buffer);
    match v.current_task {
        None => input_closed(v),
        Some(t) => match mode {
            InputMode::AddingItem => if value.len() == 0 {
                input_refused(v, "条目名称不能为空"@)
            } else {
                input_closed(queued(v, EffectView::AddItem { task_id: t.id, item_name: value }))
            },
            InputMode::EditingItemName => if value.len() == 0 {
                input_refused(v, "条目名称不能为空"@)
            } else {
                input_closed(
                    queued(
                        v,
                        EffectView::EditItemName {
                            task_id: t.id,
                            item_index: v.selected_item_index,
                            new_name: value,
                        },
                    ),
                )
            },
            InputMode::EditingItemDesc => input_closed(
                queued(
                    v,
                    EffectView::EditItemDesc {
                        task_id: t.id,
                        item_index: v.selected_item_index,
                        new_desc: value,
                    },
                ),
            ),
            InputMode::AddingNote => if value.len() == 0 {
                input_refused(v, "笔记内容不能为空"@)
            } else {
                input_closed(queued(v, EffectView::AddNote { task_id: t.id, content: value }))
            },
            InputMode::AddingResourceName => if value.len() == 0 {
                input_refused(v, "资源名称不能为空"@)
            } else {
                AppView {
                    resource_name_buffer: value,
                    input_buffer: Seq::empty(),
                    overlay: Overlay::Input(InputMode::AddingResourceUrl),
                    message: Some("输入资源 URL，Enter 确认，Esc 取消"@),
                    ..v
                }
            },
            InputMode::AddingResourceUrl => if value.len() == 0 {
                input_closed(AppView { message: Some("资源 URL 不能为空"@), ..v })
            } else {
                input_closed(
                    queued(
                        v,
                        EffectView::AddResource { task_id: t.id, name: v.resource_name_buffer, url: value },
                    ),
                )
            },
            InputMode::Normal => input_closed(v),
        },
    }
}

/// A key in the input overlay.
pub open spec fn input_key(v: AppView, k: KeyPress) -> AppView {
    match v.overlay {
        Overlay::Input(mode) => match k.code {
            KeyCode::Esc => AppView { message: None, ..input_closed(v) },
            KeyCode::Enter => input_submitted(v, mode),
            KeyCode::Backspace => AppView { input_buffer: popped(v.input_buffer), ..v },
            KeyCode::Char(c) => AppView { input_buffer: v.input_buffer.push(c), ..v },
            _ => v,
        },
        _ => v,
    }
}

/// An input overlay opened with an empty buffer and a prompt.
pub open spec fn input_opened(v: AppView, mode: InputMode, prompt: Seq<char>) -> AppView {
    AppView {
        overlay: Overlay::Input(mode),
        input_buffer: Seq::empty(),
        message: Some(prompt),
        ..v
    }
}

/// Number of checklist items of the task in the detail view.
pub open spec fn item_count(v: AppView) -> nat {
    match v.current_task {
        Some(t) => t.checklist.len(),
        None => 0,
    }
}

/// Control keys of the detail view: delete the task, move the selected item
/// down or up.
pub open spec fn detail_ctrl_key(v: AppView, c: char) -> AppView {
    let sii = v.selected_item_index;
    match v.current_task {
        None => v,
        Some(t) => if c == 'd' {
            AppView { overlay: Overlay::DeleteTask, ..v }
        } else if c == 'j' {
            if sii + 1 < item_count(v) {
                AppView {
                    selected_item_index: (sii + 1) as usize,
                    ..queued(
                        v,
                        EffectView::ReorderItem { task_id: t.id, from_index: sii, to_index: (sii + 1) as usize },
                    )
                }
            } else {
                v
            }
        } else if sii > 0 {
            AppView {
                selected_item_index: (sii - 1) as usize,
                ..queued(
                    v,
                    EffectView::ReorderItem { task_id: t.id, from_index: sii, to_index: (sii - 1) as usize },
                )
            }
        } else {
            v
        },
    }
}

/// Space or x in the detail view: toggle the selected item.
pub open spec fn detail_toggled(v: AppView) -> AppView {
    let sii = v.selected_item_index;
    match v.current_task {
        Some(t) => if sii < t.checklist.len() {
            queued(
                v,
                EffectView::ToggleItem {
                    task_id: t.id,
                    item_index: sii,
                    currently_done: t.checklist[sii as int].done,
                },
            )
        } else {
            v
        },
        None => v,
    }
}

/// E in the detail view: edit the task in the form.
pub open spec fn detail_form_opened(v: AppView) -> AppView {
    match v.current_task {
        Some(t) => AppView {
            form_state: Some(edit_task_form(t)),
            right_pane_view: RightPaneView::TaskForm,
            ..v
        },
        None => v,
    }
}

/// e in the detail view: edit the selected item's name inline.
pub open spec fn detail_name_edit(v: AppView) -> AppView {
    let sii = v.selected_item_index;
    match v.current_task {
        Some(t) => if sii < t.checklist.len() {
            AppView {
                overlay: Overlay::Input(InputMode::EditingItemName),
                input_buffer: t.checklist[sii as int].task,
                message: Some("编辑条目名称，Enter 确认，Esc 取消"@),
                ..v
            }
        } else {
            v
        },
        None => v,
    }
}

/// d in the detail view: remove the selected item and keep the selection
/// inside the shorter list.
pub open spec fn detail_item_removed(v: AppView) -> AppView {
    let sii = v.selected_item_index;
    match v.current_task {
        Some(t) => if t.checklist.len() > 0 {
            let w = queued(v, EffectView::RemoveItem { task_id: t.id, item_index: sii });
            let remaining = t.checklist.len() - 1;
            if remaining > 0 && sii >= remaining {
                AppView { selected_item_index: (remaining - 1) as usize, ..w }
            } else if remaining == 0 {
                AppView { selected_item_index: 0, ..w }
            } else {
                w
            }
        } else {
            v
        },
        None => v,
    }
}

/// D in the detail view: confirm deleting the first note.
pub open spec fn detail_note_delete(v: AppView) -> AppView {
    match v.current_task {
        Some(t) => if t.notes.len() > 0 {
            AppView { selected_note_index: 0, overlay: Overlay::DeleteNote, ..v }
        } else {
            v
        },
        None => v,
    }
}

/// A key in the task detail view.
pub open spec fn task_detail_key(v: AppView, k: KeyPress) -> AppView {
    let sii = v.selected_item_index;
    let n = item_count(v);
    if k.ctrl && (k.code == KeyCode::Char('d') || k.code == KeyCode::Char('j') || k.code == KeyCode::Char(
        'k',
    )) {
        detail_ctrl_key(v, k.code->Char_0)
    } else {
        match k.code {
            KeyCode::Up | KeyCode::Char('k') => if sii > 0 {
                AppView { selected_item_index: (sii - 1) as usize, ..v }
            } else {
                v
            },
            KeyCode::Down | KeyCode::Char('j') => if n > 0 && sii < n - 1 {
                AppView { selected_item_index: (sii + 1) as usize, ..v }
            } else {
                v
            },
            KeyCode::Char(' ') | KeyCode::Char('x') => detail_toggled(v),
            KeyCode::Char('a') => input_opened(v, InputMode::AddingItem, "输入条目名称，Enter 确认，Esc 取消"@),
            KeyCode::Char('E') => detail_form_opened(v),
            KeyCode::Char('e') => detail_name_edit(v),
            KeyCode::Char('d') => detail_item_removed(v),
            KeyCode::Char('N') => input_opened(v, InputMode::AddingNote, "输入笔记内容，Enter 确认，Esc 取消"@),
            KeyCode::Char('D') => detail_note_delete(v),
            KeyCode::Char('L') => AppView {
                resource_name_buffer: Seq::empty(),
                ..input_opened(v, InputMode::AddingResourceName, "输入资源名称，Enter 下一步，Esc 取消"@)
            },
            _ => v,
        }
    }
}

/// The project selection moved to `i`, kept in view.
pub open spec fn project_selected(v: AppView, i: usize) -> AppView {
    AppView {
        project_selected_index: i,
        project_scroll_offset: scrolled(i, v.project_scroll_offset),
        ..v
    }
}

/// A key in the left pane (project list).
pub open spec fn left_pane_key(v: AppView, k: KeyPress) -> AppView {
    let count = v.projects.len();
    let psi = v.project_selected_index;
    match k.code {
        KeyCode::Up | KeyCode::Char('k') => if psi > 0 {
            project_selected(v, (psi - 1) as usize)
        } else {
            v
        },
        KeyCode::Down | KeyCode::Char('j') => if count > 0 && psi < count - 1 {
            project_selected(v, (psi + 1) as usize)
        } else {
            v
        },
        KeyCode::Right | KeyCode::Enter => project_tasks_requested(
            AppView { focused_pane: FocusedPane::Right, ..v },
        ),
        KeyCode::Char('n') => AppView {
            project_form_state: Some(new_project_form()),
            overlay: Overlay::ProjectForm(ProjectFormMode::Create),
            ..v
        },
        KeyCode::Char('e') => if psi < count {
            AppView {
                project_form_state: Some(edit_project_form(v.projects[psi as int])),
                overlay: Overlay::ProjectForm(ProjectFormMode::Edit),
                ..v
            }
        } else {
            v
        },
        KeyCode::Char('d') => if count > 0 {
            AppView { overlay: Overlay::DeleteProject, ..v }
        } else {
            v
        },
        KeyCode::Char('r') => projects_requested(v),
        KeyCode::Char('?') => help_shown(v),
        KeyCode::Home => AppView { project_selected_index: 0, project_scroll_offset: 0, ..v },
        KeyCode::End => if count > 0 {
            project_selected(v, (count - 1) as usize)
        } else {
            v
        },
        _ => v,
    }
}

/// The task selection moved to `i`, kept in view.
pub open spec fn task_selected(v: AppView, i: usize) -> AppView {
    AppView { selected_index: i, scroll_offset: scrolled(i, v.scroll_offset), ..v }
}

/// The label of a sort mode.
pub open spec fn sort_label(m: SortMode) -> Seq<char> {
    match m {
        SortMode::Created => "创建时间"@,
        SortMode::Priority => "优先级"@,
        SortMode::Updated => "更新时间"@,
    }
}

/// A key in the right-hand task list.
pub open spec fn task_list_key(v: AppView, k: KeyPress) -> AppView {
    let shown = shown_tasks(v);
    let n = shown.len();
    let si = v.selected_index;
    if k.ctrl && k.code == KeyCode::Char('r') {
        project_tasks_requested(v)
    } else {
        match k.code {
            KeyCode::Up | KeyCode::Char('k') => if si > 0 {
                task_selected(v, (si - 1) as usize)
            } else {
                v
            },
            KeyCode::Down | KeyCode::Char('j') => if n > 0 && si < n - 1 {
                task_selected(v, (si + 1) as usize)
            } else {
                v
            },
            KeyCode::Enter => if si < n {
                with_message(
                    queued(v, EffectView::LoadTaskDetail { task_id: shown[si as int].id }),
                    "正在加载任务详情..."@,
                )
            } else {
                v
            },
            KeyCode::Char('n') => AppView {
                form_state: Some(new_task_form()),
                right_pane_view: RightPaneView::TaskForm,
                ..v
            },
            KeyCode::Char('d') => if n > 0 {
                AppView { overlay: Overlay::DeleteTask, ..v }
            } else {
                v
            },
            KeyCode::Char('r') => project_tasks_requested(v),
            KeyCode::Tab => AppView {
                sort_mode: sort_after(v.sort_mode),
                selected_index: 0,
                scroll_offset: 0,
                message: Some("排序: "@ + sort_label(sort_after(v.sort_mode))),
                ..v
            },
            KeyCode::Char('/') => AppView {
                search_mode: true,
                search_query: Some(Seq::empty()),
                message: Some("输入搜索关键词，Esc 取消"@),
                ..v
            },
            KeyCode::Char('?') => help_shown(v),
            KeyCode::Home => AppView { selected_index: 0, scroll_offset: 0, ..v },
            KeyCode::End => if n > 0 {
                task_selected(v, (n - 1) as usize)
            } else {
                v
            },
            _ => v,
        }
    }
}

/// A key in the right pane, by its view.
pub open spec fn right_pane_key(v: AppView, k: KeyPress) -> AppView {
    let back = k.code == KeyCode::Left || k.code == KeyCode::Esc;
    match v.right_pane_view {
        RightPaneView::TaskList => if back {
            AppView { focused_pane: FocusedPane::Left, ..v }
        } else {
            task_list_key(v, k)
        },
        RightPaneView::TaskDetail => if back {
            AppView { right_pane_view: RightPaneView::TaskList, ..v }
        } else {
            task_detail_key(v, k)
        },
        RightPaneView::TaskForm => task_form_key(v, k),
        RightPaneView::Help => v,
    }
}

/// A key with no overlay open. `q` quits (or closes the help view), `?`
/// toggles the help view, and Esc closes the help view or goes back from the
/// task detail to the task list; a key so handled goes no further. These keys
/// belong to the task form while it is shown. Any other key (and Esc
/// elsewhere) goes to the focused pane.
pub open spec fn main_key(v: AppView, k: KeyPress) -> AppView {
    let rpv = v.right_pane_view;
    let global = k.code == KeyCode::Char('q') || k.code == KeyCode::Char('?') || k.code == KeyCode::Esc;
    if global && rpv == RightPaneView::TaskForm {
        task_form_key(v, k)
    } else if k.code == KeyCode::Char('q') {
        if rpv == RightPaneView::Help {
            help_closed(v)
        } else {
            AppView { should_quit: true, ..v }
        }
    } else if k.code == KeyCode::Char('?') {
        help_shown(v)
    } else if k.code == KeyCode::Esc && rpv == RightPaneView::Help {
        help_closed(v)
    } else if k.code == KeyCode::Esc && rpv == RightPaneView::TaskDetail {
        AppView { right_pane_view: RightPaneView::TaskList, ..v }
    } else {
        match v.focused_pane {
            FocusedPane::Left => left_pane_key(v, k),
            FocusedPane::Right => right_pane_key(v, k),
        }
    }
}

/// A key press: the message is cleared; Ctrl+C quits; a search in progress,
/// else an open overlay, takes the key before the panes.
pub open spec fn key_step(v: AppView, k: KeyPress) -> AppView {
    let v0 = AppView { message: None, ..v };
    if k.ctrl && k.code == KeyCode::Char('c') {
        AppView { should_quit: true, ..v0 }
    } else if v0.search_mode {
        search_key(v0, k)
    } else {
        match v0.overlay {
            Overlay::Closed => main_key(v0, k),
            Overlay::ProjectForm(_) => project_form_key(v0, k),
            Overlay::DeleteProject => delete_project_key(v0, k),
            Overlay::DeleteTask => delete_task_key(v0, k),
            Overlay::DeleteNote => delete_note_key(v0, k),
            Overlay::Input(_) => input_key(v0, k),
        }
    }
}

// ── Finished background operations ─────────────────────────────────────────

/// The tasks of `s` whose ID differs from `id`, in order.
pub open spec fn without_task(s: Seq<TaskView>, id: Seq<char>) -> Seq<TaskView>
    decreases s.len(),
{
    if s.len() == 0 {
        Seq::empty()
    } else if s.last().id != id {
        without_task(s.drop_last(), id).push(s.last())
    } else {
        without_task(s.drop_last(), id)
    }
}

/// The tasks of `s` that do not belong to project `pid`, in order.
pub open spec fn outside_project(s: Seq<TaskView>, pid: Seq<char>) -> Seq<TaskView>
    decreases s.len(),
{
    if s.len() == 0 {
        Seq::empty()
    } else if s.last().project_id != Some(pid) {
        outside_project(s.drop_last(), pid).push(s.last())
    } else {
        outside_project(s.drop_last(), pid)
    }
}

/// The projects of `s` whose ID differs from `id`, in order.
pub open spec fn without_project(s: Seq<ProjectView>, id: Seq<char>) -> Seq<ProjectView>
    decreases s.len(),
{
    if s.len() == 0 {
        Seq::empty()
    } else if s.last().id != id {
        without_project(s.drop_last(), id).push(s.last())
    } else {
        without_project(s.drop_last(), id)
    }
}

/// Whether `i` is the first position of a task with ID `id`.
pub open spec fn first_task_at(s: Seq<TaskView>, id: Seq<char>, i: int) -> bool {
    0 <= i < s.len() && s[i].id == id && forall|k: int| 0 <= k < i ==> s[k].id != id
}

/// `s` with the first task having `t`'s ID replaced by `t`, if there is one.
pub open spec fn task_replaced(s: Seq<TaskView>, t: TaskView) -> Seq<TaskView> {
    if exists|i: int| first_task_at(s, t.id, i) {
        s.update(choose|i: int| first_task_at(s, t.id, i), t)
    } else {
        s
    }
}

/// Whether `i` is the first position of a project with ID `id`.
pub open spec fn first_project_at(s: Seq<ProjectView>, id: Seq<char>, i: int) -> bool {
    0 <= i < s.len() && s[i].id == id && forall|k: int| 0 <= k < i ==> s[k].id != id
}

/// `s` with the first project having `p`'s ID replaced by `p`, if any.
pub open spec fn project_replaced(s: Seq<ProjectView>, p: ProjectView) -> Seq<ProjectView> {
    if exists|i: int| first_project_at(s, p.id, i) {
        s.update(choose|i: int| first_project_at(s, p.id, i), p)
    } else {
        s
    }
}

/// The project selection kept inside a list of `n` projects.
pub open spec fn project_index_fitted(i: usize, n: nat) -> usize {
    if i >= n && n > 0 {
        (n - 1) as usize
    } else if n == 0 {
        0
    } else {
        i
    }
}

/// The task in the detail view replaced, with a message.
pub open spec fn task_refreshed(v: AppView, t: TaskView, m: Seq<char>) -> AppView {
    AppView { current_task: Some(t), message: Some(m), ..v }
}

/// The task list loaded.
pub open spec fn tasks_loaded(v: AppView, ts: Seq<TaskView>) -> AppView {
    clamped(AppView { tasks: ts, error_message: None, ..v })
}

/// A task loaded into the detail view.
pub open spec fn task_detail_loaded(v: AppView, t: TaskView) -> AppView {
    AppView {
        selected_item_index: 0,
        current_task: Some(t),
        right_pane_view: RightPaneView::TaskDetail,
        focused_pane: FocusedPane::Right,
        error_message: None,
        ..v
    }
}

/// A task deleted: it leaves the detail view and both lists.
pub open spec fn task_deleted(v: AppView, id: Seq<char>) -> AppView {
    let w = match v.current_task {
        Some(c) => if c.id == id {
            AppView { current_task: None, right_pane_view: RightPaneView::TaskList, ..v }
        } else {
            v
        },
        None => v,
    };
    AppView {
        message: Some("任务已删除"@),
        error_message: None,
        ..clamped(
            AppView {
                project_tasks: without_task(w.project_tasks, id),
                tasks: without_task(w.tasks, id),
                ..w
            },
        )
    }
}

/// A task created: the project's tasks are reloaded and the new task shown.
pub open spec fn task_created(v: AppView, t: TaskView) -> AppView {
    AppView {
        current_task: Some(t),
        right_pane_view: RightPaneView::TaskDetail,
        focused_pane: FocusedPane::Right,
        ..project_tasks_requested(AppView { message: Some("任务已创建"@), error_message: None, ..v })
    }
}

/// A task updated: its copies in both lists are replaced and it is shown.
pub open spec fn task_updated(v: AppView, t: TaskView) -> AppView {
    AppView {
        tasks: task_replaced(v.tasks, t),
        project_tasks: task_replaced(v.project_tasks, t),
        current_task: Some(t),
        right_pane_view: RightPaneView::TaskDetail,
        message: Some("任务已更新"@),
        error_message: None,
        ..v
    }
}

/// The project list loaded; on the first non-empty load the selected
/// project's tasks are requested.
pub open spec fn projects_loaded(v: AppView, ps: Seq<ProjectView>) -> AppView {
    let n = ps.len();
    let w = AppView {
        projects: ps,
        project_selected_index: project_index_fitted(v.project_selected_index, n),
        message: Some("已加载 "@ + decimal(n) + " 个项目"@),
        error_message: None,
        ..v
    };
    if v.projects.len() == 0 && n > 0 {
        project_tasks_requested(w)
    } else {
        w
    }
}

/// A project created: the list is reloaded and the project selected if it
/// is already listed.
pub open spec fn project_created(v: AppView, p: ProjectView) -> AppView {
    let w = projects_requested(
        AppView { message: Some("项目已创建"@), error_message: None, overlay: Overlay::Closed, ..v },
    );
    if exists|i: int| first_project_at(w.projects, p.id, i) {
        AppView {
            project_selected_index: (choose|i: int| first_project_at(w.projects, p.id, i)) as usize,
            ..w
        }
    } else {
        w
    }
}

/// A project updated.
pub open spec fn project_updated(v: AppView, p: ProjectView) -> AppView {
    AppView {
        projects: project_replaced(v.projects, p),
        overlay: Overlay::Closed,
        message: Some("项目已更新"@),
        error_message: None,
        ..v
    }
}

/// A project deleted: it leaves the list with its tasks; the tasks of the
/// project then selected are requested.
pub open spec fn project_deleted(v: AppView, id: Seq<char>) -> AppView {
    let ps = without_project(v.projects, id);
    let w = AppView {
        overlay: Overlay::Closed,
        project_tasks: if ps.len() == 0 {
            Seq::empty()
        } else {
            outside_project(v.project_tasks, id)
        },
        projects: ps,
        project_selected_index: project_index_fitted(v.project_selected_index, ps.len()),
        ..v
    };
    let x = if ps.len() > 0 {
        project_tasks_requested(w)
    } else {
        w
    };
    AppView { message: Some("项目已删除"@), error_message: None, ..x }
}

/// The selected project's tasks loaded.
pub open spec fn project_tasks_loaded(v: AppView, ts: Seq<TaskView>) -> AppView {
    AppView {
        project_tasks: ts,
        selected_index: 0,
        scroll_offset: 0,
        message: Some("已加载 "@ + decimal(ts.len()) + " 个任务"@),
        ..v
    }
}

/// A finished background operation applied to the state.
pub open spec fn action_step(v: AppView, a: Action) -> AppView {
    match a {
        Action::TasksLoaded(ts) => tasks_loaded(v, tasks_view(ts@)),
        Action::TaskDetailLoaded(t) => task_detail_loaded(v, t@),
        Action::TaskDeleted(id) => task_deleted(v, id@),
        Action::ItemToggled(t) => task_refreshed(v, t@, "条目状态已切换"@),
        Action::ItemAdded(t) => task_refreshed(v, t@, "条目已添加"@),
        Action::ItemRemoved(t) => task_refreshed(v, t@, "条目已移除"@),
        Action::ItemEdited(t) => task_refreshed(v, t@, "条目已编辑"@),
        Action::ItemReordered(t) => task_refreshed(v, t@, "条目已重排"@),
        Action::TaskCreated(t) => task_created(v, t@),
        Action::TaskUpdated(t) => task_updated(v, t@),
        Action::NoteAdded(t) => task_refreshed(v, t@, "笔记已添加"@),
        Action::NoteDeleted(t) => task_refreshed(v, t@, "笔记已删除"@),
        Action::ResourceAdded(t) => task_refreshed(v, t@, "资源已添加"@),
        Action::ResourceDeleted(t) => task_refreshed(v, t@, "资源已删除"@),
        Action::ProjectsLoaded(ps) => projects_loaded(v, projects_view(ps@)),
        Action::ProjectDetailLoaded(_) => v,
        Action::ProjectCreated(p) => project_created(v, p@),
        Action::ProjectUpdated(p) => project_updated(v, p@),
        Action::ProjectDeleted(id) => project_deleted(v, id@),
        Action::ProjectTasksLoaded(ts) => project_tasks_loaded(v, tasks_view(ts@)),
        Action::Error(e) => AppView { error_message: Some(e@), ..v },
    }
}

/// An event applied to the state; a resize changes nothing.
pub open spec fn event_step(v: AppView, e: AppEvent) -> AppView {
    match e {
        AppEvent::Key(k) => key_step(v, k),
        AppEvent::Resize(_, _) => v,
        AppEvent::Action(a) => action_step(v, a),
    }
}

/// Ctrl+C quits, whatever the interface is showing.
pub proof fn lemma_ctrl_c_quits(v: AppView)
    ensures
        key_step(v, KeyPress { code: KeyCode::Char('c'), ctrl: true }).should_quit,
{
}

/// `?` toggles the help view: from any view but the task form it opens the
/// help view (focusing the right pane), and a second `?` goes back to the
/// view it was opened from, without quitting; when no overlay or search has
/// the keyboard.
pub proof fn lemma_help_toggle(v: AppView)
    requires
        v.overlay == Overlay::Closed,
        !v.search_mode,
        v.right_pane_view != RightPaneView::TaskForm,
        v.right_pane_view != RightPaneView::Help,
    ensures
        ({
            let q = KeyPress { code: KeyCode::Char('?'), ctrl: false };
            &&& key_step(v, q).right_pane_view == RightPaneView::Help
            &&& key_step(v, q).focused_pane == FocusedPane::Right
            &&& key_step(key_step(v, q), q).right_pane_view == v.right_pane_view
            &&& key_step(key_step(v, q), q).should_quit == v.should_quit
        }),
{
}

/// Esc in the task detail goes back to the task list and changes nothing
/// else (the focus stays where it was); Esc in the help view goes back to
/// the view the help was opened from.
pub proof fn lemma_esc_goes_back(v: AppView)
    requires
        v.overlay == Overlay::Closed,
        !v.search_mode,
    ensures
        ({
            let esc = KeyPress { code: KeyCode::Esc, ctrl: false };
            &&& v.right_pane_view == RightPaneView::TaskDetail ==> key_step(v, esc) == AppView {
                right_pane_view: RightPaneView::TaskList,
                message: None,
                ..v
            }
            &&& v.right_pane_view == RightPaneView::Help ==> key_step(v, esc) == AppView {
                right_pane_view: v.previous_right_pane_view,
                message: None,
                ..v
            }
        }),
{
}

/// The task detail's item keys (as `handle_key` and the detail-view key
/// handler do them): in the task detail, with the right pane focused,
/// Up/`k` and Down/`j` move the checklist focus one item up or down, stopping at the first and
/// last item, so a focus inside the checklist stays inside it; nothing else
/// changes (no overlay opens, the task and the queued effects stay). The
/// checklist is held in memory, so its length fits in a `usize`.
#[verifier::spinoff_prover]
pub proof fn lemma_detail_item_focus(v: AppView, k: KeyPress)
    requires
        v.overlay == Overlay::Closed,
        !v.search_mode,
        v.right_pane_view == RightPaneView::TaskDetail,
        v.focused_pane == FocusedPane::Right,
        !k.ctrl,
        k.code == KeyCode::Up || k.code == KeyCode::Down || k.code == KeyCode::Char('k') || k.code
            == KeyCode::Char('j'),
        item_count(v) <= usize::MAX,
    ensures
        ({
            let n = item_count(v);
            let i = v.selected_item_index;
            let w = key_step(v, k);
            &&& (k.code == KeyCode::Down || k.code == KeyCode::Char('j')) ==> w.selected_item_index == (
            if n > 0 && i < n - 1 {
                i + 1
            } else {
                i as int
            })
            &&& (k.code == KeyCode::Up || k.code == KeyCode::Char('k')) ==> w.selected_item_index == (
            if i > 0 {
                i - 1
            } else {
                0
            })
            &&& (n > 0 && i <= n - 1) ==> w.selected_item_index <= n - 1
            &&& (n == 0 && i == 0) ==> w.selected_item_index == 0
            &&& w.overlay == v.overlay
            &&& w.current_task == v.current_task
            &&& w.right_pane_view == v.right_pane_view
            &&& w.effects == v.effects
            &&& w == AppView { selected_item_index: w.selected_item_index, message: None, ..v }
        }),
{
    let v0 = AppView { message: None, ..v };
    assert(key_step(v, k) == main_key(v0, k));
    assert(main_key(v0, k) == right_pane_key(v0, k));
    assert(right_pane_key(v0, k) == task_detail_key(v0, k));
    assert(item_count(v0) == item_count(v));
    let n = item_count(v);
    let i = v.selected_item_index;
    if k.code == KeyCode::Down || k.code == KeyCode::Char('j') {
        if n > 0 && i < n - 1 {
            assert(task_detail_key(v0, k) == AppView { selected_item_index: (i + 1) as usize, ..v0 });
        } else {
            assert(task_detail_key(v0, k) == v0);
        }
    } else {
        if i > 0 {
            assert(task_detail_key(v0, k) == AppView { selected_item_index: (i - 1) as usize, ..v0 });
        } else {
            assert(task_detail_key(v0, k) == v0);
        }
    }
}

/// Effects are only ever appended: an event never drops, reorders or changes
/// an effect already queued, never attaches or detaches the event loop, and
/// queues nothing while no event loop is attached.
#[verifier::rlimit(60)]
pub proof fn lemma_event_keeps_effects(v: AppView, e: AppEvent)
    ensures
        event_step(v, e).connected == v.connected,
        v.effects.is_prefix_of(event_step(v, e).effects),
        !v.connected ==> event_step(v, e).effects == v.effects,
{
}

// ── Executable state ───────────────────────────────────────────────────────

/// Whether a task matches a lower-cased query.
fn task_matches(t: &Task, q_lower: &str, Ghost(q): Ghost<Seq<char>>) -> (r: bool)
    requires
        q_lower@ == lowercase(q),
    ensures
        r == matches_query(t@, q),
{
    let d = to_lowercase(t.task_description.as_str());
    if contains_str(d.as_str(), q_lower) {
        return true;
    }
    let i = to_lowercase(t.id.as_str());
    contains_str(i.as_str(), q_lower)
}

/// Whether `x` may come right after `a` in a list sorted by `mode`.
fn may_follow_exec(a: &Task, x: &Task, mode: SortMode) -> (r: bool)
    ensures
        r == may_follow(a@, x@, mode),
{
    match mode {
        SortMode::Priority => {
            let pa = match task_priority(a) {
                Some(p) => priority_rank(Some(p.as_str())),
                None => priority_rank(None),
            };
            let px = match task_priority(x) {
                Some(p) => priority_rank(Some(p.as_str())),
                None => priority_rank(None),
            };
            pa >= px
        },
        _ => str_le(x.updated_at.as_str(), a.updated_at.as_str()),
    }
}

/// Inserts `x` into the sorted references after every element it may follow.
fn insert_by_mode<'a>(sorted: &mut Vec<&'a Task>, x: &'a Task, mode: SortMode)
    ensures
        refs_view(final(sorted)@) == insert_sorted(refs_view(old(sorted)@), x@, mode),
{
    let ghost s = refs_view(sorted@);
    let mut j: usize = sorted.len();
    assert(s.take(j as int) =~= s);
    while j > 0 && !may_follow_exec(sorted[j - 1], x, mode)
        invariant
            j <= sorted@.len(),
            sorted@ == old(sorted)@,
            s == refs_view(sorted@),
            insert_sorted(s, x@, mode) == insert_sorted(s.take(j as int), x@, mode) + s.skip(j as int),
        decreases j,
    {
        assert(s.take(j as int).drop_last() =~= s.take(j - 1));
        assert(s.take(j as int).last() == s[j - 1]);
        assert(s.skip(j - 1) =~= seq![s[j - 1]] + s.skip(j as int));
        assert(insert_sorted(s.take(j - 1), x@, mode).push(s[j - 1]) + s.skip(j as int)
            =~= insert_sorted(s.take(j - 1), x@, mode) + s.skip(j - 1));
        j = j - 1;
    }
    if j > 0 {
        assert(s.take(j as int).last() == s[j - 1]);
        assert(insert_sorted(s.take(j as int), x@, mode) == s.take(j as int).push(x@));
    } else {
        assert(s.take(0) =~= Seq::<TaskView>::empty());
    }
    sorted.insert(j, x);
    assert(refs_view(sorted@) =~= s.take(j as int).push(x@) + s.skip(j as int));
}

/// Stable sort of task references, descending by the key of `mode`.
fn sort_by_mode<'a>(v: &Vec<&'a Task>, mode: SortMode) -> (r: Vec<&'a Task>)
    ensures
        refs_view(r@) == sorted_desc(refs_view(v@), mode),
{
    let ghost s = refs_view(v@);
    let mut out: Vec<&'a Task> = Vec::new();
    let mut i: usize = 0;
    while i < v.len()
        invariant
            i <= v@.len(),
            s == refs_view(v@),
            refs_view(out@) == sorted_desc(s.take(i as int), mode),
        decreases v@.len() - i,
    {
        assert(s.take(i + 1).drop_last() =~= s.take(i as int));
        assert(s.take(i + 1).last() == v@[i as int]@);
        insert_by_mode(&mut out, v[i], mode);
        i = i + 1;
    }
    assert(s.take(v@.len() as int) =~= s);
    out
}

/// The references of `v` in reverse order.
fn reversed<'a>(v: &Vec<&'a Task>) -> (r: Vec<&'a Task>)
    ensures
        refs_view(r@) == refs_view(v@).reverse(),
{
    let mut out: Vec<&'a Task> = Vec::new();
    let mut i: usize = v.len();
    while i > 0
        invariant
            i <= v@.len(),
            out@.len() == v@.len() - i,
            forall|k: int| 0 <= k < out@.len() ==> #[trigger] out@[k] == v@[v@.len() - 1 - k],
        decreases i,
    {
        i = i - 1;
        out.push(v[i]);
    }
    assert(refs_view(out@) =~= refs_view(v@).reverse());
    out
}

impl App {
    /// A fresh state: left pane focused, task list on the right, nothing
    /// loaded, sorted by creation time, no event loop attached.
    pub fn new(data_dir: Option<std::path::PathBuf>) -> (r: App)
        ensures
            r@ == (AppView {
                data_dir,
                focused_pane: FocusedPane::Left,
                right_pane_view: RightPaneView::TaskList,
                previous_right_pane_view: RightPaneView::TaskList,
                overlay: Overlay::Closed,
                tasks: Seq::empty(),
                selected_index: 0,
                current_task: None,
                scroll_offset: 0,
                sort_mode: SortMode::Created,
                search_query: None,
                search_mode: false,
                selected_item_index: 0,
                input_buffer: Seq::empty(),
                selected_note_index: 0,
                form_state: None,
                projects: Seq::empty(),
                project_selected_index: 0,
                project_scroll_offset: 0,
                project_tasks: Seq::empty(),
                project_form_state: None,
                resource_name_buffer: Seq::empty(),
                should_quit: false,
                message: None,
                error_message: None,
                connected: false,
                effects: Seq::empty(),
            }),
    {
        let r = App {
            data_dir,
            focused_pane: FocusedPane::Left,
            right_pane_view: RightPaneView::TaskList,
            previous_right_pane_view: RightPaneView::TaskList,
            overlay: Overlay::Closed,
            tasks: Vec::new(),
            selected_index: 0,
            current_task: None,
            scroll_offset: 0,
            sort_mode: SortMode::Created,
            search_query: None,
            search_mode: false,
            selected_item_index: 0,
            input_buffer: String::new(),
            selected_note_index: 0,
            form_state: None,
            projects: Vec::new(),
            project_selected_index: 0,
            project_scroll_offset: 0,
            project_tasks: Vec::new(),
            project_form_state: None,
            resource_name_buffer: String::new(),
            should_quit: false,
            message: None,
            error_message: None,
            connected: false,
            effects: Vec::new(),
        };
        assert(tasks_view(r.tasks@) =~= Seq::empty());
        assert(tasks_view(r.project_tasks@) =~= Seq::empty());
        assert(projects_view(r.projects@) =~= Seq::empty());
        assert(effects_view(r.effects@) =~= Seq::empty());
        r
    }

    /// The data directory given at start.
    pub fn data_dir(&self) -> (r: &Option<std::path::PathBuf>)
        ensures
            *r == self@.data_dir,
    {
        &self.data_dir
    }

    /// The focused pane.
    pub fn focused_pane(&self) -> (r: &FocusedPane)
        ensures
            *r == self@.focused_pane,
    {
        &self.focused_pane
    }

    /// The right pane's view.
    pub fn right_pane_view(&self) -> (r: &RightPaneView)
        ensures
            *r == self@.right_pane_view,
    {
        &self.right_pane_view
    }

    /// The overlay.
    pub fn overlay(&self) -> (r: &Overlay)
        ensures
            *r == self@.overlay,
    {
        &self.overlay
    }

    /// Whether the main loop should stop.
    pub fn should_quit(&self) -> (r: bool)
        ensures
            r == self@.should_quit,
    {
        self.should_quit
    }

    /// The loaded task list.
    pub fn tasks(&self) -> (r: &[Task])
        ensures
            tasks_view(r@) == self@.tasks,
    {
        self.tasks.as_slice()
    }

    /// The selected row of the right-hand list.
    pub fn selected_index(&self) -> (r: usize)
        ensures
            r == self@.selected_index,
    {
        self.selected_index
    }

    /// The message line.
    pub fn message(&self) -> (r: Option<&str>)
        ensures
            crate::models::opt_str_view(r) == self@.message,
    {
        match &self.message {
            Some(m) => Some(m.as_str()),
            None => None,
        }
    }

    /// The error line.
    pub fn error_message(&self) -> (r: Option<&str>)
        ensures
            crate::models::opt_str_view(r) == self@.error_message,
    {
        match &self.error_message {
            Some(m) => Some(m.as_str()),
            None => None,
        }
    }

    /// The task in the detail view.
    pub fn current_task(&self) -> (r: Option<&Task>)
        ensures
            match r {
                Some(t) => self@.current_task == Some(t@),
                None => self@.current_task is None,
            },
    {
        match &self.current_task {
            Some(t) => Some(t),
            None => None,
        }
    }

    /// The sort mode.
    pub fn sort_mode(&self) -> (r: SortMode)
        ensures
            r == self@.sort_mode,
    {
        self.sort_mode
    }

    /// The search query.
    pub fn search_query(&self) -> (r: Option<&str>)
        ensures
            crate::models::opt_str_view(r) == self@.search_query,
    {
        match &self.search_query {
            Some(q) => Some(q.as_str()),
            None => None,
        }
    }

    /// Whether a search is being typed.
    pub fn search_mode(&self) -> (r: bool)
        ensures
            r == self@.search_mode,
    {
        self.search_mode
    }

    /// The scroll offset of the right-hand list.
    pub fn scroll_offset(&self) -> (r: usize)
        ensures
            r == self@.scroll_offset,
    {
        self.scroll_offset
    }

    /// The selected checklist item in the detail view.
    pub fn selected_item_index(&self) -> (r: usize)
        ensures
            r == self@.selected_item_index,
    {
        self.selected_item_index
    }

    /// The inline input.
    pub fn input_buffer(&self) -> (r: &str)
        ensures
            r@ == self@.input_buffer,
    {
        self.input_buffer.as_str()
    }

    /// The task form, while shown.
    pub fn form_state(&self) -> (r: Option<&TaskFormState>)
        ensures
            match r {
                Some(f) => self@.form_state == Some(f@),
                None => self@.form_state is None,
            },
    {
        match &self.form_state {
            Some(f) => Some(f),
            None => None,
        }
    }

    /// The loaded projects.
    pub fn projects(&self) -> (r: &[Project])
        ensures
            projects_view(r@) == self@.projects,
    {
        self.projects.as_slice()
    }

    /// The selected project.
    pub fn project_selected_index(&self) -> (r: usize)
        ensures
            r == self@.project_selected_index,
    {
        self.project_selected_index
    }

    /// The scroll offset of the project list.
    pub fn project_scroll_offset(&self) -> (r: usize)
        ensures
            r == self@.project_scroll_offset,
    {
        self.project_scroll_offset
    }

    /// The tasks of the selected project.
    pub fn project_tasks(&self) -> (r: &[Task])
        ensures
            tasks_view(r@) == self@.project_tasks,
    {
        self.project_tasks.as_slice()
    }

    /// The project form, while shown.
    pub fn project_form_state(&self) -> (r: Option<&ProjectFormState>)
        ensures
            match r {
                Some(f) => self@.project_form_state == Some(f@),
                None => self@.project_form_state is None,
            },
    {
        match &self.project_form_state {
            Some(f) => Some(f),
            None => None,
        }
    }

    /// Whether an overlay is open.
    pub fn is_overlay_active(&self) -> (r: bool)
        ensures
            r == (self@.overlay != Overlay::Closed),
    {
        !matches!(self.overlay, Overlay::Closed)
    }

    /// The note to delete.
    pub fn selected_note_index(&self) -> (r: usize)
        ensures
            r == self@.selected_note_index,
    {
        self.selected_note_index
    }

    /// The input mode of the open input overlay, else normal.
    pub fn input_mode(&self) -> (r: InputMode)
        ensures
            r == (match self@.overlay {
                Overlay::Input(m) => m,
                _ => InputMode::Normal,
            }),
    {
        match &self.overlay {
            Overlay::Input(m) => *m,
            _ => InputMode::Normal,
        }
    }

    /// Whether the delete-task confirmation is open.
    pub fn confirm_delete(&self) -> (r: bool)
        ensures
            r == (self@.overlay == Overlay::DeleteTask),
    {
        matches!(self.overlay, Overlay::DeleteTask)
    }

    /// Whether the delete-note confirmation is open.
    pub fn confirm_delete_note(&self) -> (r: bool)
        ensures
            r == (self@.overlay == Overlay::DeleteNote),
    {
        matches!(self.overlay, Overlay::DeleteNote)
    }

    /// Whether the delete-project confirmation is open.
    pub fn confirm_delete_project(&self) -> (r: bool)
        ensures
            r == (self@.overlay == Overlay::DeleteProject),
    {
        matches!(self.overlay, Overlay::DeleteProject)
    }

    /// The selected project, if the selection is inside the list.
    pub fn current_project(&self) -> (r: Option<&Project>)
        ensures
            match r {
                Some(p) => self@.project_selected_index < self@.projects.len()
                    && p@ == self@.projects[self@.project_selected_index as int],
                None => self@.project_selected_index >= self@.projects.len(),
            },
    {
        if self.project_selected_index < self.projects.len() {
            Some(&self.projects[self.project_selected_index])
        } else {
            None
        }
    }

    /// Attaches (or detaches) the event loop that performs queued effects.
    pub fn set_connected(&mut self, connected: bool)
        ensures
            final(self)@ == (AppView { connected, ..old(self)@ }),
    {
        self.connected = connected;
    }

    /// Takes the queued effects, oldest first, leaving the queue empty.
    pub fn take_effects(&mut self) -> (r: Vec<Effect>)
        ensures
            effects_view(r@) == old(self)@.effects,
            final(self)@ == (AppView { effects: Seq::empty(), ..old(self)@ }),
    {
        let mut out: Vec<Effect> = Vec::new();
        std::mem::swap(&mut out, &mut self.effects);
        assert(effects_view(self.effects@) =~= Seq::empty());
        out
    }

    /// Sets the focused pane.
    pub fn set_focused_pane(&mut self, pane: FocusedPane)
        ensures
            final(self)@ == (AppView { focused_pane: pane, ..old(self)@ }),
    {
        self.focused_pane = pane;
    }

    /// Sets the right pane's view.
    pub fn set_right_pane_view(&mut self, view: RightPaneView)
        ensures
            final(self)@ == (AppView { right_pane_view: view, ..old(self)@ }),
    {
        self.right_pane_view = view;
    }

    /// Shows an error.
    pub fn set_error_message(&mut self, msg: String)
        ensures
            final(self)@ == (AppView { error_message: Some(msg@), ..old(self)@ }),
    {
        self.error_message = Some(msg);
    }

    /// Replaces the message line.
    fn set_message(&mut self, m: &str)
        ensures
            final(self)@ == with_message(old(self)@, m@),
    {
        self.message = Some(String::from_str(m));
    }

    /// Queues an effect when an event loop is attached.
    fn queue(&mut self, e: Effect)
        ensures
            final(self)@ == queued(old(self)@, e@),
    {
        if self.connected {
            let ghost before = self.effects@;
            self.effects.push(e);
            assert(effects_view(self.effects@) =~= effects_view(before).push(e@));
        }
    }

    /// Queues an effect with a message when an event loop is attached.
    fn queue_with_message(&mut self, e: Effect, m: &str)
        ensures
            final(self)@ == queued_with_message(old(self)@, e@, m@),
    {
        if self.connected {
            self.queue(e);
            self.set_message(m);
        }
    }

    /// The right-hand task list as shown (see `shown_tasks`).
    pub fn filtered_and_sorted_tasks(&self) -> (r: Vec<&Task>)
        ensures
            refs_view(r@) == shown_tasks(self@),
            self@.search_query matches Some(q) && q.len() > 0 ==> forall|t: TaskView| #[trigger] refs_view(r@).contains(t)
                <==> (self@.project_tasks.contains(t) && (occurs_in(
                lowercase(self@.search_query->Some_0),
                lowercase(t.task_description),
            ) || occurs_in(lowercase(self@.search_query->Some_0), lowercase(t.id)))),
    {
        let ghost all = tasks_view(self.project_tasks@);
        let mut kept: Vec<&Task> = Vec::new();
        let q_lower: Option<String> = match &self.search_query {
            Some(q) => if q.as_str().unicode_len() > 0 {
                Some(to_lowercase(q.as_str()))
            } else {
                None
            },
            None => None,
        };
        let mut i: usize = 0;
        match &q_lower {
            None => {
                while i < self.project_tasks.len()
                    invariant
                        i <= self.project_tasks@.len(),
                        all == tasks_view(self.project_tasks@),
                        refs_view(kept@) == all.take(i as int),
                    decreases self.project_tasks@.len() - i,
                {
                    let ghost before = kept@;
                    kept.push(&self.project_tasks[i]);
                    assert(refs_view(kept@) =~= refs_view(before).push(all[i as int]));
                    assert(all.take(i + 1) =~= all.take(i as int).push(all[i as int]));
                    i = i + 1;
                }
                assert(all.take(i as int) =~= all);
            },
            Some(ql) => {
                let ghost q = self.search_query->Some_0@;
                while i < self.project_tasks.len()
                    invariant
                        i <= self.project_tasks@.len(),
                        all == tasks_view(self.project_tasks@),
                        ql@ == lowercase(q),
                        refs_view(kept@) == matching(all.take(i as int), q),
                    decreases self.project_tasks@.len() - i,
                {
                    assert(all.take(i + 1).drop_last() =~= all.take(i as int));
                    let ghost before = kept@;
                    if task_matches(&self.project_tasks[i], ql.as_str(), Ghost(q)) {
                        kept.push(&self.project_tasks[i]);
                        assert(refs_view(kept@) =~= refs_view(before).push(all[i as int]));
                    }
                    i = i + 1;
                }
                assert(all.take(i as int) =~= all);
            },
        }
        assert(refs_view(kept@) == searched(all, self@.search_query));
        let r = match self.sort_mode {
            SortMode::Created => reversed(&kept),
            _ => sort_by_mode(&kept, self.sort_mode),
        };
        proof {
            if self@.search_query matches Some(q) && q.len() > 0 {
                assert forall|t: TaskView| #[trigger] refs_view(r@).contains(t) <==> (self@.project_tasks.contains(t)
                    && (occurs_in(lowercase(self@.search_query->Some_0), lowercase(t.task_description)) || occurs_in(
                    lowercase(self@.search_query->Some_0),
                    lowercase(t.id),
                ))) by {
                    lemma_search_keeps_matches(self@, t);
                }
            }
        }
        r
    }

    /// Clamps the selection into the shown list.
    fn clamp_selected_index(&mut self)
        ensures
            final(self)@ == clamped(old(self)@),
    {
        let n = self.filtered_and_sorted_tasks().len();
        if n == 0 {
            self.selected_index = 0;
        } else if self.selected_index >= n {
            self.selected_index = n - 1;
        }
    }

    /// Opens the help view, or goes back from it.
    fn show_help(&mut self)
        ensures
            final(self)@ == help_shown(old(self)@),
    {
        if self.right_pane_view != RightPaneView::Help {
            self.previous_right_pane_view = self.right_pane_view;
            self.right_pane_view = RightPaneView::Help;
            self.focused_pane = FocusedPane::Right;
        } else {
            self.right_pane_view = self.previous_right_pane_view;
        }
    }

    /// Leaves the help view.
    fn close_help(&mut self)
        ensures
            final(self)@ == help_closed(old(self)@),
    {
        if self.right_pane_view == RightPaneView::Help {
            self.right_pane_view = self.previous_right_pane_view;
        }
    }
}

// ── Executable helpers for forms and lists ─────────────────────────────────

/// `s`, or nothing when it is empty.
fn nonempty_string(s: String) -> (r: Option<String>)
    ensures
        opt_view(r) == nonempty(s@),
{
    if s.as_str().unicode_len() == 0 {
        None
    } else {
        Some(s)
    }
}

/// The tags parsed from a comma-separated list.
fn tags_from(s: &str) -> (r: Vec<String>)
    ensures
        crate::models::strings_view(r@) == parse_tag_list(s@),
{
    parse_tags(s)
}

/// Metadata of a new task (see `created_metadata`).
fn created_metadata_exec(
    priority: Option<String>,
    tags: Option<String>,
    eta: Option<String>,
) -> (r: Option<TaskMetadata>)
    ensures
        meta_view(r) == created_metadata(opt_view(priority), opt_view(tags), opt_view(eta)),
{
    if priority.is_some() || tags.is_some() || eta.is_some() {
        let parsed = match &tags {
            Some(t) => Some(tags_from(t.as_str())),
            None => None,
        };
        Some(TaskMetadata { tags: parsed, priority, estimated_completion_time: eta })
    } else {
        None
    }
}

/// Metadata of an edited task (see `edited_metadata`).
fn edited_metadata_exec(priority: String, tags: String, eta: String) -> (r: TaskMetadata)
    ensures
        r@ == edited_metadata(priority@, tags@, eta@),
{
    let parsed = if tags.as_str().unicode_len() == 0 {
        None
    } else {
        Some(tags_from(tags.as_str()))
    };
    TaskMetadata {
        tags: parsed,
        priority: nonempty_string(priority),
        estimated_completion_time: nonempty_string(eta),
    }
}

/// The priority after cycling (see `cycled_priority`).
fn cycled_priority_exec(p: &str, backwards: bool) -> (r: String)
    ensures
        r@ == cycled_priority(p@, backwards),
{
    let t = trim_str(p);
    let c = to_lowercase(t.as_str());
    let i: u8 = if str_eq(c.as_str(), "low") {
        1
    } else if str_eq(c.as_str(), "medium") {
        2
    } else if str_eq(c.as_str(), "high") {
        3
    } else {
        0
    };
    let j: u8 = if backwards {
        if i == 0 {
            3
        } else {
            i - 1
        }
    } else {
        (i + 1) % 4
    };
    if j == 1 {
        String::from_str("low")
    } else if j == 2 {
        String::from_str("medium")
    } else if j == 3 {
        String::from_str("high")
    } else {
        String::new()
    }
}

/// Deletes the last character of the task form's focused field.
fn task_form_pop(f: &mut TaskFormState)
    ensures
        final(f)@ == task_focused_set(old(f)@, popped(task_focused(old(f)@))),
{
    match f.focused_field {
        FormField::Description => {
            pop_char(&mut f.description);
        },
        FormField::Context => {
            pop_char(&mut f.context);
        },
        FormField::Priority => {
            pop_char(&mut f.priority);
        },
        FormField::Tags => {
            pop_char(&mut f.tags);
        },
        FormField::Eta => {
            pop_char(&mut f.eta);
        },
    }
    f.error = None;
}

/// Appends a character to the task form's focused field.
fn task_form_push(f: &mut TaskFormState, c: char)
    ensures
        final(f)@ == task_focused_set(old(f)@, task_focused(old(f)@).push(c)),
{
    match f.focused_field {
        FormField::Description => push_char(&mut f.description, c),
        FormField::Context => push_char(&mut f.context, c),
        FormField::Priority => push_char(&mut f.priority, c),
        FormField::Tags => push_char(&mut f.tags, c),
        FormField::Eta => push_char(&mut f.eta, c),
    }
    f.error = None;
}

/// Deletes the last character of the project form's focused field.
fn project_form_pop(f: &mut ProjectFormState)
    ensures
        final(f)@ == project_focused_set(old(f)@, popped(project_focused(old(f)@))),
{
    match f.focused_field {
        ProjectFormField::Name => {
            pop_char(&mut f.name);
        },
        ProjectFormField::Description => {
            pop_char(&mut f.description);
        },
    }
    f.error = None;
}

/// Appends a character to the project form's focused field.
fn project_form_push(f: &mut ProjectFormState, c: char)
    ensures
        final(f)@ == project_focused_set(old(f)@, project_focused(old(f)@).push(c)),
{
    match f.focused_field {
        ProjectFormField::Name => push_char(&mut f.name, c),
        ProjectFormField::Description => push_char(&mut f.description, c),
    }
    f.error = None;
}

/// Copies of the tasks whose ID differs from `id`.
fn tasks_without(v: &Vec<Task>, id: &str) -> (r: Vec<Task>)
    ensures
        tasks_view(r@) == without_task(tasks_view(v@), id@),
{
    let ghost s = tasks_view(v@);
    let mut out: Vec<Task> = Vec::new();
    let mut i: usize = 0;
    while i < v.len()
        invariant
            i <= v@.len(),
            s == tasks_view(v@),
            tasks_view(out@) == without_task(s.take(i as int), id@),
        decreases v@.len() - i,
    {
        assert(s.take(i + 1).drop_last() =~= s.take(i as int));
        let ghost before = out@;
        if !str_eq(v[i].id.as_str(), id) {
            out.push(v[i].copy());
            assert(tasks_view(out@) =~= tasks_view(before).push(s[i as int]));
        }
        i = i + 1;
    }
    assert(s.take(i as int) =~= s);
    out
}

/// Copies of the tasks that do not belong to project `pid`.
fn tasks_outside(v: &Vec<Task>, pid: &str) -> (r: Vec<Task>)
    ensures
        tasks_view(r@) == outside_project(tasks_view(v@), pid@),
{
    let ghost s = tasks_view(v@);
    let mut out: Vec<Task> = Vec::new();
    let mut i: usize = 0;
    while i < v.len()
        invariant
            i <= v@.len(),
            s == tasks_view(v@),
            tasks_view(out@) == outside_project(s.take(i as int), pid@),
        decreases v@.len() - i,
    {
        assert(s.take(i + 1).drop_last() =~= s.take(i as int));
        let ghost before = out@;
        let inside = match &v[i].project_id {
            Some(p) => str_eq(p.as_str(), pid),
            None => false,
        };
        if !inside {
            out.push(v[i].copy());
            assert(tasks_view(out@) =~= tasks_view(before).push(s[i as int]));
        }
        i = i + 1;
    }
    assert(s.take(i as int) =~= s);
    out
}

/// Copies of the projects whose ID differs from `id`.
fn projects_without(v: &Vec<Project>, id: &str) -> (r: Vec<Project>)
    ensures
        projects_view(r@) == without_project(projects_view(v@), id@),
{
    let ghost s = projects_view(v@);
    let mut out: Vec<Project> = Vec::new();
    let mut i: usize = 0;
    while i < v.len()
        invariant
            i <= v@.len(),
            s == projects_view(v@),
            projects_view(out@) == without_project(s.take(i as int), id@),
        decreases v@.len() - i,
    {
        assert(s.take(i + 1).drop_last() =~= s.take(i as int));
        let ghost before = out@;
        if !str_eq(v[i].id.as_str(), id) {
            out.push(v[i].copy());
            assert(projects_view(out@) =~= projects_view(before).push(s[i as int]));
        }
        i = i + 1;
    }
    assert(s.take(i as int) =~= s);
    out
}

/// Replaces the first task having `t`'s ID by a copy of `t`.
fn replace_task(v: &mut Vec<Task>, t: &Task)
    ensures
        tasks_view(final(v)@) == task_replaced(tasks_view(old(v)@), t@),
{
    let ghost s = tasks_view(v@);
    let mut i: usize = 0;
    while i < v.len() && !str_eq(v[i].id.as_str(), t.id.as_str())
        invariant
            i <= v@.len(),
            v@ == old(v)@,
            s == tasks_view(v@),
            forall|k: int| 0 <= k < i ==> s[k].id != t@.id,
        decreases v@.len() - i,
    {
        i = i + 1;
    }
    if i < v.len() {
        assert(first_task_at(s, t@.id, i as int));
        let ghost c = choose|j: int| first_task_at(s, t@.id, j);
        assert(c == i as int) by {
            if c < i {
                assert(s[c].id != t@.id);
            } else if c > i {
                assert(s[i as int].id == t@.id);
            }
        }
        v.set(i, t.copy());
        assert(tasks_view(v@) =~= s.update(i as int, t@));
    } else {
        assert(!exists|j: int| first_task_at(s, t@.id, j));
    }
}

/// Replaces the first project having `p`'s ID by a copy of `p`.
fn replace_project(v: &mut Vec<Project>, p: &Project)
    ensures
        projects_view(final(v)@) == project_replaced(projects_view(old(v)@), p@),
{
    let ghost s = projects_view(v@);
    let mut i: usize = 0;
    while i < v.len() && !str_eq(v[i].id.as_str(), p.id.as_str())
        invariant
            i <= v@.len(),
            v@ == old(v)@,
            s == projects_view(v@),
            forall|k: int| 0 <= k < i ==> s[k].id != p@.id,
        decreases v@.len() - i,
    {
        i = i + 1;
    }
    if i < v.len() {
        assert(first_project_at(s, p@.id, i as int));
        let ghost c = choose|j: int| first_project_at(s, p@.id, j);
        assert(c == i as int) by {
            if c < i {
                assert(s[c].id != p@.id);
            } else if c > i {
                assert(s[i as int].id == p@.id);
            }
        }
        v.set(i, p.copy());
        assert(projects_view(v@) =~= s.update(i as int, p@));
    } else {
        assert(!exists|j: int| first_project_at(s, p@.id, j));
    }
}

/// The first position of a project with ID `id`, if any.
fn project_position(v: &Vec<Project>, id: &str) -> (r: Option<usize>)
    ensures
        match r {
            Some(i) => first_project_at(projects_view(v@), id@, i as int),
            None => !exists|j: int| first_project_at(projects_view(v@), id@, j),
        },
{
    let ghost s = projects_view(v@);
    let mut i: usize = 0;
    while i < v.len() && !str_eq(v[i].id.as_str(), id)
        invariant
            i <= v@.len(),
            s == projects_view(v@),
            forall|k: int| 0 <= k < i ==> s[k].id != id@,
        decreases v@.len() - i,
    {
        i = i + 1;
    }
    if i < v.len() {
        Some(i)
    } else {
        None
    }
}

impl App {
    /// Requests a reload of every task.
    pub fn spawn_load_tasks(&mut self)
        ensures
            final(self)@ == queued_with_message(old(self)@, EffectView::LoadTasks, "正在刷新任务列表..."@),
    {
        self.queue_with_message(Effect::LoadTasks, "正在刷新任务列表...");
    }

    /// Requests a task for the detail view.
    pub fn spawn_load_task_detail(&mut self, task_id: String)
        ensures
            final(self)@ == queued(old(self)@, EffectView::LoadTaskDetail { task_id: task_id@ }),
    {
        self.queue(Effect::LoadTaskDetail { task_id });
    }

    /// Requests deleting a task.
    pub fn spawn_delete_task(&mut self, task_id: String)
        ensures
            final(self)@ == queued(old(self)@, EffectView::DeleteTask { task_id: task_id@ }),
    {
        self.queue(Effect::DeleteTask { task_id });
    }

    /// Requests toggling an item's done flag.
    pub fn spawn_toggle_item(&mut self, task_id: String, item_index: usize, currently_done: bool)
        ensures
            final(self)@ == queued(
                old(self)@,
                EffectView::ToggleItem { task_id: task_id@, item_index, currently_done },
            ),
    {
        self.queue(Effect::ToggleItem { task_id, item_index, currently_done });
    }

    /// Requests adding an item.
    pub fn spawn_add_item(&mut self, task_id: String, item_name: String)
        ensures
            final(self)@ == queued(
                old(self)@,
                EffectView::AddItem { task_id: task_id@, item_name: item_name@ },
            ),
    {
        self.queue(Effect::AddItem { task_id, item_name });
    }

    /// Requests removing an item.
    pub fn spawn_remove_item(&mut self, task_id: String, item_index: usize)
        ensures
            final(self)@ == queued(old(self)@, EffectView::RemoveItem { task_id: task_id@, item_index }),
    {
        self.queue(Effect::RemoveItem { task_id, item_index });
    }

    /// Requests renaming an item.
    pub fn spawn_edit_item_name(&mut self, task_id: String, item_index: usize, new_name: String)
        ensures
            final(self)@ == queued(
                old(self)@,
                EffectView::EditItemName { task_id: task_id@, item_index, new_name: new_name@ },
            ),
    {
        self.queue(Effect::EditItemName { task_id, item_index, new_name });
    }

    /// Requests replacing an item's description.
    pub fn spawn_edit_item_desc(&mut self, task_id: String, item_index: usize, new_desc: String)
        ensures
            final(self)@ == queued(
                old(self)@,
                EffectView::EditItemDesc { task_id: task_id@, item_index, new_desc: new_desc@ },
            ),
    {
        self.queue(Effect::EditItemDesc { task_id, item_index, new_desc });
    }

    /// Requests moving an item.
    pub fn spawn_reorder_item(&mut self, task_id: String, from_index: usize, to_index: usize)
        ensures
            final(self)@ == queued(
                old(self)@,
                EffectView::ReorderItem { task_id: task_id@, from_index, to_index },
            ),
    {
        self.queue(Effect::ReorderItem { task_id, from_index, to_index });
    }

    /// Requests adding a note.
    pub fn spawn_add_note(&mut self, task_id: String, content: String)
        ensures
            final(self)@ == queued(
                old(self)@,
                EffectView::AddNote { task_id: task_id@, content: content@ },
            ),
    {
        self.queue(Effect::AddNote { task_id, content });
    }

    /// Requests deleting a note.
    pub fn spawn_delete_note(&mut self, task_id: String, note_index: usize)
        ensures
            final(self)@ == queued(old(self)@, EffectView::DeleteNote { task_id: task_id@, note_index }),
    {
        self.queue(Effect::DeleteNote { task_id, note_index });
    }

    /// Requests adding a resource.
    pub fn spawn_add_resource(&mut self, task_id: String, name: String, url: String)
        ensures
            final(self)@ == queued(
                old(self)@,
                EffectView::AddResource { task_id: task_id@, name: name@, url: url@ },
            ),
    {
        self.queue(Effect::AddResource { task_id, name, url });
    }

    /// Requests creating a task from the form's values.
    fn spawn_create_task(
        &mut self,
        description: String,
        context: Option<String>,
        priority: Option<String>,
        tags_str: Option<String>,
        eta: Option<String>,
        project_id: Option<String>,
    )
        ensures
            final(self)@ == queued_with_message(
                old(self)@,
                EffectView::CreateTask {
                    description: description@,
                    context: opt_view(context),
                    metadata: created_metadata(opt_view(priority), opt_view(tags_str), opt_view(eta)),
                    project_id: opt_view(project_id),
                },
                "正在创建任务..."@,
            ),
    {
        let metadata = created_metadata_exec(priority, tags_str, eta);
        self.queue_with_message(
            Effect::CreateTask { description, context, metadata, project_id },
            "正在创建任务...",
        );
    }

    /// Requests updating a task from the form's values.
    fn spawn_update_task(
        &mut self,
        task_id: String,
        description: String,
        context: String,
        priority: String,
        tags_str: String,
        eta: String,
    )
        ensures
            final(self)@ == queued_with_message(
                old(self)@,
                EffectView::UpdateTask {
                    task_id: task_id@,
                    description: description@,
                    context: context@,
                    metadata: edited_metadata(priority@, tags_str@, eta@),
                },
                "正在更新任务..."@,
            ),
    {
        let metadata = edited_metadata_exec(priority, tags_str, eta);
        self.queue_with_message(
            Effect::UpdateTask { task_id, description, context, metadata },
            "正在更新任务...",
        );
    }

    /// Requests the project list.
    pub fn spawn_load_projects(&mut self)
        ensures
            final(self)@ == projects_requested(old(self)@),
    {
        self.queue_with_message(Effect::LoadProjects, "正在加载项目列表...");
    }

    /// Requests one project.
    pub fn spawn_load_project_detail(&mut self, project_id: String)
        ensures
            final(self)@ == queued(old(self)@, EffectView::LoadProjectDetail { project_id: project_id@ }),
    {
        self.queue(Effect::LoadProjectDetail { project_id });
    }

    /// Requests the tasks of a project.
    fn spawn_load_project_tasks(&mut self, project_id: String)
        ensures
            final(self)@ == queued(old(self)@, EffectView::LoadProjectTasks { project_id: project_id@ }),
    {
        self.queue(Effect::LoadProjectTasks { project_id });
    }

    /// Resets the task selection and requests the selected project's tasks.
    fn spawn_load_project_tasks_for_selected_project(&mut self)
        ensures
            final(self)@ == project_tasks_requested(old(self)@),
    {
        if self.project_selected_index < self.projects.len() {
            let project_id = self.projects[self.project_selected_index].id.clone();
            self.selected_index = 0;
            self.scroll_offset = 0;
            self.spawn_load_project_tasks(project_id);
        }
    }

    /// Requests creating a project.
    fn spawn_create_project(&mut self, name: String, description: Option<String>)
        ensures
            final(self)@ == queued_with_message(
                old(self)@,
                EffectView::CreateProject { name: name@, description: opt_view(description) },
                "正在创建项目..."@,
            ),
    {
        self.queue_with_message(Effect::CreateProject { name, description }, "正在创建项目...");
    }

    /// Requests updating a project.
    fn spawn_update_project(&mut self, project_id: String, name: String, description: Option<String>)
        ensures
            final(self)@ == queued_with_message(
                old(self)@,
                EffectView::UpdateProject {
                    project_id: project_id@,
                    name: name@,
                    description: opt_view(description),
                },
                "正在更新项目..."@,
            ),
    {
        self.queue_with_message(
            Effect::UpdateProject { project_id, name, description },
            "正在更新项目...",
        );
    }

    /// Requests deleting a project.
    fn spawn_delete_project(&mut self, project_id: String)
        ensures
            final(self)@ == queued(old(self)@, EffectView::DeleteProject { project_id: project_id@ }),
    {
        self.queue(Effect::DeleteProject { project_id });
    }

    /// Requests attaching a task to a project.
    pub fn spawn_add_task_to_project(&mut self, task_id: String, project_id: String)
        ensures
            final(self)@ == queued(
                old(self)@,
                EffectView::AddTaskToProject { task_id: task_id@, project_id: project_id@ },
            ),
    {
        self.queue(Effect::AddTaskToProject { task_id, project_id });
    }

    /// Requests detaching a task from its project (the project is not used).
    pub fn spawn_remove_task_from_project(&mut self, task_id: String, _project_id: String)
        ensures
            final(self)@ == queued(old(self)@, EffectView::RemoveTaskFromProject { task_id: task_id@ }),
    {
        self.queue(Effect::RemoveTaskFromProject { task_id });
    }

    /// Keeps the selected task row in view.
    fn adjust_scroll(&mut self)
        ensures
            final(self)@ == (AppView {
                scroll_offset: scrolled(old(self)@.selected_index, old(self)@.scroll_offset),
                ..old(self)@
            }),
    {
        let i = self.selected_index;
        let o = self.scroll_offset;
        if i < o {
            self.scroll_offset = i;
        } else if i - o >= VISIBLE_ROWS {
            self.scroll_offset = i - VISIBLE_ROWS + 1;
        }
    }

    /// Keeps the selected project row in view.
    fn adjust_project_scroll(&mut self)
        ensures
            final(self)@ == (AppView {
                project_scroll_offset: scrolled(
                    old(self)@.project_selected_index,
                    old(self)@.project_scroll_offset,
                ),
                ..old(self)@
            }),
    {
        let i = self.project_selected_index;
        let o = self.project_scroll_offset;
        if i < o {
            self.project_scroll_offset = i;
        } else if i - o >= VISIBLE_ROWS {
            self.project_scroll_offset = i - VISIBLE_ROWS + 1;
        }
    }
}

impl App {
    /// A key while typing a search.
    fn handle_search_key(&mut self, key: KeyPress)
        ensures
            final(self)@ == search_key(old(self)@, key),
    {
        match key.code {
            KeyCode::Esc => {
                self.search_mode = false;
                self.search_query = None;
                self.clamp_selected_index();
            },
            KeyCode::Enter => {
                self.search_mode = false;
                self.clamp_selected_index();
            },
            KeyCode::Backspace => {
                match self.search_query.take() {
                    Some(q) => {
                        let mut q = q;
                        pop_char(&mut q);
                        self.search_query = Some(q);
                        self.clamp_selected_index();
                    },
                    None => {},
                }
            },
            KeyCode::Char(c) => {
                let q = match self.search_query.take() {
                    Some(q) => {
                        let mut q = q;
                        push_char(&mut q, c);
                        q
                    },
                    None => {
                        let mut q = String::new();
                        push_char(&mut q, c);
                        assert(q@ =~= seq![c]);
                        q
                    },
                };
                self.search_query = Some(q);
                self.clamp_selected_index();
            },
            _ => {},
        }
    }

    /// A key in the delete-task confirmation.
    fn handle_delete_confirm_key(&mut self, key: KeyPress)
        ensures
            final(self)@ == delete_task_key(old(self)@, key),
    {
        if key.code == KeyCode::Char('y') || key.code == KeyCode::Char('Y') {
            let chosen: Option<String> = match &self.current_task {
                Some(t) => Some(t.id.clone()),
                None => {
                    let shown = self.filtered_and_sorted_tasks();
                    if self.selected_index < shown.len() {
                        Some(shown[self.selected_index].id.clone())
                    } else {
                        None
                    }
                },
            };
            self.overlay = Overlay::Closed;
            match chosen {
                Some(id) => self.spawn_delete_task(id),
                None => {},
            }
        } else if key.code == KeyCode::Char('n') || key.code == KeyCode::Char('N') || key.code
            == KeyCode::Esc {
            self.overlay = Overlay::Closed;
        }
    }

    /// A key in the delete-note confirmation.
    fn handle_delete_note_confirm_key(&mut self, key: KeyPress)
        ensures
            final(self)@ == delete_note_key(old(self)@, key),
    {
        if key.code == KeyCode::Char('y') || key.code == KeyCode::Char('Y') {
            let chosen: Option<String> = match &self.current_task {
                Some(t) => Some(t.id.clone()),
                None => None,
            };
            match chosen {
                Some(id) => {
                    let idx = self.selected_note_index;
                    self.overlay = Overlay::Closed;
                    self.spawn_delete_note(id, idx);
                },
                None => {},
            }
        } else if key.code == KeyCode::Char('n') || key.code == KeyCode::Char('N') || key.code
            == KeyCode::Esc {
            self.overlay = Overlay::Closed;
        }
    }

    /// A key in the delete-project confirmation.
    fn handle_delete_project_confirm_key(&mut self, key: KeyPress)
        ensures
            final(self)@ == delete_project_key(old(self)@, key),
    {
        if key.code == KeyCode::Char('y') || key.code == KeyCode::Char('Y') {
            if self.project_selected_index < self.projects.len() {
                let id = self.projects[self.project_selected_index].id.clone();
                self.overlay = Overlay::Closed;
                self.spawn_delete_project(id);
            } else {
                self.overlay = Overlay::Closed;
            }
        } else if key.code == KeyCode::Char('n') || key.code == KeyCode::Char('N') || key.code
            == KeyCode::Esc {
            self.overlay = Overlay::Closed;
        }
    }

    /// Closes the input overlay and empties its buffers.
    fn close_input(&mut self)
        ensures
            final(self)@ == input_closed(old(self)@),
    {
        self.overlay = Overlay::Closed;
        self.input_buffer = String::new();
        self.resource_name_buffer = String::new();
    }

    /// Refuses an empty input with a message.
    fn refuse_input(&mut self, m: &str)
        ensures
            final(self)@ == input_refused(old(self)@, m@),
    {
        self.overlay = Overlay::Closed;
        self.input_buffer = String::new();
        self.set_message(m);
    }

    /// Enter in the input overlay.
    #[verifier::spinoff_prover]
    #[verifier::rlimit(40)]
    fn submit_input(&mut self, mode: InputMode)
        ensures
            final(self)@ == input_submitted(old(self)@, mode),
    {
        let value = trim_str(self.input_buffer.as_str());
        let task_id = match &self.current_task {
            Some(t) => t.id.clone(),
            None => {
                self.close_input();
                return;
            },
        };
        let empty = value.as_str().unicode_len() == 0;
        match mode {
            InputMode::AddingItem => {
                if empty {
                    self.refuse_input("条目名称不能为空");
                    return;
                }
                self.spawn_add_item(task_id, value);
            },
            InputMode::EditingItemName => {
                if empty {
                    self.refuse_input("条目名称不能为空");
                    return;
                }
                let idx = self.selected_item_index;
                self.spawn_edit_item_name(task_id, idx, value);
            },
            InputMode::EditingItemDesc => {
                let idx = self.selected_item_index;
                self.spawn_edit_item_desc(task_id, idx, value);
            },
            InputMode::AddingNote => {
                if empty {
                    self.refuse_input("笔记内容不能为空");
                    return;
                }
                self.spawn_add_note(task_id, value);
            },
            InputMode::AddingResourceName => {
                if empty {
                    self.refuse_input("资源名称不能为空");
                    return;
                }
                self.resource_name_buffer = value;
                self.input_buffer = String::new();
                self.overlay = Overlay::Input(InputMode::AddingResourceUrl);
                self.set_message("输入资源 URL，Enter 确认，Esc 取消");
                return;
            },
            InputMode::AddingResourceUrl => {
                if empty {
                    self.set_message("资源 URL 不能为空");
                    self.close_input();
                    return;
                }
                let mut name = String::new();
                std::mem::swap(&mut name, &mut self.resource_name_buffer);
                self.spawn_add_resource(task_id, name, value);
            },
            InputMode::Normal => {},
        }
        self.close_input();
    }

    /// A key in the input overlay.
    fn handle_input_key(&mut self, key: KeyPress)
        ensures
            final(self)@ == input_key(old(self)@, key),
    {
        let mode = match self.overlay {
            Overlay::Input(m) => m,
            _ => return,
        };
        match key.code {
            KeyCode::Esc => {
                self.close_input();
                self.message = None;
            },
            KeyCode::Enter => self.submit_input(mode),
            KeyCode::Backspace => {
                pop_char(&mut self.input_buffer);
            },
            KeyCode::Char(c) => push_char(&mut self.input_buffer, c),
            _ => {},
        }
    }

    /// Opens the input overlay with an empty buffer and a prompt.
    fn open_input(&mut self, mode: InputMode, prompt: &str)
        ensures
            final(self)@ == input_opened(old(self)@, mode, prompt@),
    {
        self.overlay = Overlay::Input(mode);
        self.input_buffer = String::new();
        self.set_message(prompt);
    }

    /// Control keys of the detail view.
    fn handle_detail_ctrl_key(&mut self, c: char)
        ensures
            final(self)@ == detail_ctrl_key(old(self)@, c),
    {
        let (task_id, n) = match &self.current_task {
            Some(t) => (t.id.clone(), t.checklist.len()),
            None => return,
        };
        let sii = self.selected_item_index;
        if c == 'd' {
            self.overlay = Overlay::DeleteTask;
        } else if c == 'j' {
            if n > 0 && sii < n - 1 {
                self.spawn_reorder_item(task_id, sii, sii + 1);
                self.selected_item_index = sii + 1;
            }
        } else if sii > 0 {
            self.spawn_reorder_item(task_id, sii, sii - 1);
            self.selected_item_index = sii - 1;
        }
    }

    /// Toggles the selected item of the task in the detail view.
    fn detail_toggle(&mut self)
        ensures
            final(self)@ == detail_toggled(old(self)@),
    {
        let sii = self.selected_item_index;
        let found: Option<(String, bool)> = match &self.current_task {
            Some(t) => if sii < t.checklist.len() {
                Some((t.id.clone(), t.checklist[sii].done))
            } else {
                None
            },
            None => None,
        };
        match found {
            Some((id, done)) => self.spawn_toggle_item(id, sii, done),
            None => {},
        }
    }

    /// Opens the task form on the task in the detail view.
    fn detail_open_form(&mut self)
        ensures
            final(self)@ == detail_form_opened(old(self)@),
    {
        let form: Option<TaskFormState> = match &self.current_task {
            Some(t) => Some(TaskFormState::new_edit(t)),
            None => None,
        };
        match form {
            Some(f) => {
                self.form_state = Some(f);
                self.right_pane_view = RightPaneView::TaskForm;
            },
            None => {},
        }
    }

    /// Starts editing the selected item's name.
    fn detail_edit_name(&mut self)
        ensures
            final(self)@ == detail_name_edit(old(self)@),
    {
        let sii = self.selected_item_index;
        let name: Option<String> = match &self.current_task {
            Some(t) => if sii < t.checklist.len() {
                Some(t.checklist[sii].task.clone())
            } else {
                None
            },
            None => None,
        };
        match name {
            Some(nm) => {
                self.overlay = Overlay::Input(InputMode::EditingItemName);
                self.input_buffer = nm;
                self.set_message("编辑条目名称，Enter 确认，Esc 取消");
            },
            None => {},
        }
    }

    /// Removes the selected item.
    fn detail_remove_item(&mut self)
        ensures
            final(self)@ == detail_item_removed(old(self)@),
    {
        let sii = self.selected_item_index;
        let found: Option<(String, usize)> = match &self.current_task {
            Some(t) => if t.checklist.len() > 0 {
                Some((t.id.clone(), t.checklist.len()))
            } else {
                None
            },
            None => None,
        };
        match found {
            Some((id, len)) => {
                self.spawn_remove_item(id, sii);
                let remaining = len - 1;
                if remaining > 0 && sii >= remaining {
                    self.selected_item_index = remaining - 1;
                } else if remaining == 0 {
                    self.selected_item_index = 0;
                }
            },
            None => {},
        }
    }

    /// Asks to confirm deleting the first note.
    fn detail_delete_note(&mut self)
        ensures
            final(self)@ == detail_note_delete(old(self)@),
    {
        let has_notes = match &self.current_task {
            Some(t) => t.notes.len() > 0,
            None => false,
        };
        if has_notes {
            self.selected_note_index = 0;
            self.overlay = Overlay::DeleteNote;
        }
    }

    /// A key in the task detail view.
    fn handle_task_detail_key(&mut self, key: KeyPress)
        ensures
            final(self)@ == task_detail_key(old(self)@, key),
    {
        if key.ctrl && (key.code == KeyCode::Char('d') || key.code == KeyCode::Char('j')
            || key.code == KeyCode::Char('k')) {
            match key.code {
                KeyCode::Char(c) => self.handle_detail_ctrl_key(c),
                _ => {},
            }
            return;
        }
        let n: usize = match &self.current_task {
            Some(t) => t.checklist.len(),
            None => 0,
        };
        let sii = self.selected_item_index;
        match key.code {
            KeyCode::Up | KeyCode::Char('k') => {
                if sii > 0 {
                    self.selected_item_index = sii - 1;
                }
            },
            KeyCode::Down | KeyCode::Char('j') => {
                if n > 0 && sii < n - 1 {
                    self.selected_item_index = sii + 1;
                }
            },
            KeyCode::Char(' ') | KeyCode::Char('x') => self.detail_toggle(),
            KeyCode::Char('a') => {
                self.open_input(InputMode::AddingItem, "输入条目名称，Enter 确认，Esc 取消");
            },
            KeyCode::Char('E') => self.detail_open_form(),
            KeyCode::Char('e') => self.detail_edit_name(),
            KeyCode::Char('d') => self.detail_remove_item(),
            KeyCode::Char('N') => {
                self.open_input(InputMode::AddingNote, "输入笔记内容，Enter 确认，Esc 取消");
            },
            KeyCode::Char('D') => self.detail_delete_note(),
            KeyCode::Char('L') => {
                self.open_input(InputMode::AddingResourceName, "输入资源名称，Enter 下一步，Esc 取消");
                self.resource_name_buffer = String::new();
            },
            _ => {},
        }
    }
}

impl App {
    /// Moves the project selection to `i` and keeps it in view.
    fn select_project(&mut self, i: usize)
        ensures
            final(self)@ == project_selected(old(self)@, i),
    {
        self.project_selected_index = i;
        self.adjust_project_scroll();
    }

    /// A key in the left pane (project list).
    fn handle_left_pane_key(&mut self, key: KeyPress)
        ensures
            final(self)@ == left_pane_key(old(self)@, key),
    {
        let count = self.projects.len();
        let psi = self.project_selected_index;
        match key.code {
            KeyCode::Up | KeyCode::Char('k') => {
                if psi > 0 {
                    self.select_project(psi - 1);
                }
            },
            KeyCode::Down | KeyCode::Char('j') => {
                if count > 0 && psi < count - 1 {
                    self.select_project(psi + 1);
                }
            },
            KeyCode::Right | KeyCode::Enter => {
                self.focused_pane = FocusedPane::Right;
                self.spawn_load_project_tasks_for_selected_project();
            },
            KeyCode::Char('n') => {
                self.project_form_state = Some(ProjectFormState::new_create());
                self.overlay = Overlay::ProjectForm(ProjectFormMode::Create);
            },
            KeyCode::Char('e') => {
                if psi < count {
                    let f = ProjectFormState::new_edit(&self.projects[psi]);
                    self.project_form_state = Some(f);
                    self.overlay = Overlay::ProjectForm(ProjectFormMode::Edit);
                }
            },
            KeyCode::Char('d') => {
                if count > 0 {
                    self.overlay = Overlay::DeleteProject;
                }
            },
            KeyCode::Char('r') => self.spawn_load_projects(),
            KeyCode::Char('?') => self.show_help(),
            KeyCode::Home => {
                self.project_selected_index = 0;
                self.project_scroll_offset = 0;
            },
            KeyCode::End => {
                if count > 0 {
                    self.select_project(count - 1);
                }
            },
            _ => {},
        }
    }

    /// Moves the task selection to `i` and keeps it in view.
    fn select_task(&mut self, i: usize)
        ensures
            final(self)@ == task_selected(old(self)@, i),
    {
        self.selected_index = i;
        self.adjust_scroll();
    }

    /// Enter in the task list: load the selected task's detail.
    fn open_selected_task(&mut self)
        ensures
            final(self)@ == (if old(self)@.selected_index < shown_tasks(old(self)@).len() {
                with_message(
                    queued(
                        old(self)@,
                        EffectView::LoadTaskDetail {
                            task_id: shown_tasks(old(self)@)[old(self)@.selected_index as int].id,
                        },
                    ),
                    "正在加载任务详情..."@,
                )
            } else {
                old(self)@
            }),
    {
        let chosen: Option<String> = {
            let shown = self.filtered_and_sorted_tasks();
            if self.selected_index < shown.len() {
                Some(shown[self.selected_index].id.clone())
            } else {
                None
            }
        };
        match chosen {
            Some(id) => {
                self.spawn_load_task_detail(id);
                self.set_message("正在加载任务详情...");
            },
            None => {},
        }
    }

    /// Tab in the task list: the next sort order, selection reset.
    fn cycle_sort(&mut self)
        ensures
            final(self)@ == (AppView {
                sort_mode: sort_after(old(self)@.sort_mode),
                selected_index: 0,
                scroll_offset: 0,
                message: Some("排序: "@ + sort_label(sort_after(old(self)@.sort_mode))),
                ..old(self)@
            }),
    {
        let m = self.sort_mode.next();
        self.sort_mode = m;
        self.selected_index = 0;
        self.scroll_offset = 0;
        let mut msg = String::from_str("排序: ");
        append_str(&mut msg, m.label());
        self.message = Some(msg);
    }

    /// A key in the right-hand task list.
    fn handle_right_task_list_key(&mut self, key: KeyPress)
        ensures
            final(self)@ == task_list_key(old(self)@, key),
    {
        if key.ctrl && key.code == KeyCode::Char('r') {
            self.spawn_load_project_tasks_for_selected_project();
            return;
        }
        let n = self.filtered_and_sorted_tasks().len();
        let si = self.selected_index;
        match key.code {
            KeyCode::Up | KeyCode::Char('k') => {
                if si > 0 {
                    self.select_task(si - 1);
                }
            },
            KeyCode::Down | KeyCode::Char('j') => {
                if n > 0 && si < n - 1 {
                    self.select_task(si + 1);
                }
            },
            KeyCode::Enter => self.open_selected_task(),
            KeyCode::Char('n') => {
                self.form_state = Some(TaskFormState::new_create());
                self.right_pane_view = RightPaneView::TaskForm;
            },
            KeyCode::Char('d') => {
                if n > 0 {
                    self.overlay = Overlay::DeleteTask;
                }
            },
            KeyCode::Char('r') => self.spawn_load_project_tasks_for_selected_project(),
            KeyCode::Tab => self.cycle_sort(),
            KeyCode::Char('/') => {
                self.search_mode = true;
                self.search_query = Some(String::new());
                self.set_message("输入搜索关键词，Esc 取消");
            },
            KeyCode::Char('?') => self.show_help(),
            KeyCode::Home => {
                self.selected_index = 0;
                self.scroll_offset = 0;
            },
            KeyCode::End => {
                if n > 0 {
                    self.select_task(n - 1);
                }
            },
            _ => {},
        }
    }

    /// Submits a valid task form (already taken out of the state).
    fn submit_task_form(&mut self, f: TaskFormState)
        requires
            old(self)@.form_state is None,
        ensures
            final(self)@ == task_form_submitted(AppView { form_state: Some(f@), ..old(self)@ }, f@),
    {
        let d = trim_str(f.description.as_str());
        let c = trim_str(f.context.as_str());
        let pt = trim_str(f.priority.as_str());
        let p = to_lowercase(pt.as_str());
        let tg = trim_str(f.tags.as_str());
        let e = trim_str(f.eta.as_str());
        match f.mode {
            FormMode::Create => {
                let pid = if self.project_selected_index < self.projects.len() {
                    Some(self.projects[self.project_selected_index].id.clone())
                } else {
                    None
                };
                self.spawn_create_task(
                    d,
                    nonempty_string(c),
                    nonempty_string(p),
                    nonempty_string(tg),
                    nonempty_string(e),
                    pid,
                );
            },
            FormMode::Edit => {
                match f.editing_task_id {
                    Some(id) => self.spawn_update_task(id, d, c, p, tg, e),
                    None => {},
                }
            },
        }
    }

    /// A key in the task form.
    fn handle_task_form_key(&mut self, key: KeyPress)
        ensures
            final(self)@ == task_form_key(old(self)@, key),
    {
        let mut f = match self.form_state.take() {
            Some(f) => f,
            None => return,
        };
        match key.code {
            KeyCode::Esc => {
                self.right_pane_view = RightPaneView::TaskList;
                self.set_message("已取消");
            },
            KeyCode::Tab => {
                f.focused_field = f.focused_field.next();
                f.error = None;
                self.form_state = Some(f);
            },
            KeyCode::BackTab => {
                f.focused_field = f.focused_field.prev();
                f.error = None;
                self.form_state = Some(f);
            },
            KeyCode::Enter => {
                match f.validate() {
                    Ok(()) => self.submit_task_form(f),
                    Err(e) => {
                        f.error = Some(e);
                        self.form_state = Some(f);
                    },
                }
            },
            _ => {
                if f.focused_field == FormField::Priority {
                    if key.code == KeyCode::Char(' ') || key.code == KeyCode::Right || key.code
                        == KeyCode::Left {
                        f.priority = cycled_priority_exec(f.priority.as_str(), key.code == KeyCode::Left);
                        f.error = None;
                    }
                } else {
                    match key.code {
                        KeyCode::Backspace => task_form_pop(&mut f),
                        KeyCode::Char(c) => task_form_push(&mut f, c),
                        _ => {},
                    }
                }
                self.form_state = Some(f);
            },
        }
    }

    /// A key in the project form overlay.
    fn handle_project_form_key(&mut self, key: KeyPress)
        ensures
            final(self)@ == project_form_key(old(self)@, key),
    {
        let mut f = match self.project_form_state.take() {
            Some(f) => f,
            None => return,
        };
        match key.code {
            KeyCode::Esc => {
                self.overlay = Overlay::Closed;
                self.set_message("已取消");
            },
            KeyCode::Tab | KeyCode::BackTab => {
                f.focused_field = f.focused_field.next();
                f.error = None;
                self.project_form_state = Some(f);
            },
            KeyCode::Enter => {
                match f.validate() {
                    Err(e) => {
                        f.error = Some(e);
                        self.project_form_state = Some(f);
                    },
                    Ok(()) => {
                        let name = trim_str(f.name.as_str());
                        let d = trim_str(f.description.as_str());
                        self.overlay = Overlay::Closed;
                        match f.mode {
                            ProjectFormMode::Create => {
                                self.spawn_create_project(name, nonempty_string(d));
                            },
                            ProjectFormMode::Edit => {
                                match f.editing_project_id {
                                    Some(id) => self.spawn_update_project(id, name, nonempty_string(d)),
                                    None => {},
                                }
                            },
                        }
                    },
                }
            },
            KeyCode::Backspace => {
                project_form_pop(&mut f);
                self.project_form_state = Some(f);
            },
            KeyCode::Char(c) => {
                project_form_push(&mut f, c);
                self.project_form_state = Some(f);
            },
            _ => {
                self.project_form_state = Some(f);
            },
        }
    }

    /// A key in the right pane.
    fn handle_right_pane_key(&mut self, key: KeyPress)
        ensures
            final(self)@ == right_pane_key(old(self)@, key),
    {
        let back = key.code == KeyCode::Left || key.code == KeyCode::Esc;
        match self.right_pane_view {
            RightPaneView::TaskList => {
                if back {
                    self.focused_pane = FocusedPane::Left;
                } else {
                    self.handle_right_task_list_key(key);
                }
            },
            RightPaneView::TaskDetail => {
                if back {
                    self.right_pane_view = RightPaneView::TaskList;
                } else {
                    self.handle_task_detail_key(key);
                }
            },
            RightPaneView::TaskForm => self.handle_task_form_key(key),
            RightPaneView::Help => {},
        }
    }

    /// A key with no overlay open.
    fn handle_main_key(&mut self, key: KeyPress)
        ensures
            final(self)@ == main_key(old(self)@, key),
    {
        let rpv = self.right_pane_view;
        let global = key.code == KeyCode::Char('q') || key.code == KeyCode::Char('?') || key.code
            == KeyCode::Esc;
        if global && rpv == RightPaneView::TaskForm {
            self.handle_task_form_key(key);
            return;
        }
        if key.code == KeyCode::Char('q') {
            if rpv == RightPaneView::Help {
                self.close_help();
            } else {
                self.should_quit = true;
            }
            return;
        }
        if key.code == KeyCode::Char('?') {
            self.show_help();
            return;
        }
        if key.code == KeyCode::Esc && rpv == RightPaneView::Help {
            self.close_help();
            return;
        }
        if key.code == KeyCode::Esc && rpv == RightPaneView::TaskDetail {
            self.right_pane_view = RightPaneView::TaskList;
            return;
        }
        match self.focused_pane {
            FocusedPane::Left => self.handle_left_pane_key(key),
            FocusedPane::Right => self.handle_right_pane_key(key),
        }
    }

    /// A key press (see `key_step`).
    pub fn handle_key(&mut self, key: KeyPress)
        ensures
            final(self)@ == key_step(old(self)@, key),
    {
        self.message = None;
        if key.ctrl && key.code == KeyCode::Char('c') {
            self.should_quit = true;
            return;
        }
        if self.search_mode {
            self.handle_search_key(key);
            return;
        }
        match self.overlay {
            Overlay::Closed => self.handle_main_key(key),
            Overlay::ProjectForm(_) => self.handle_project_form_key(key),
            Overlay::DeleteProject => self.handle_delete_project_confirm_key(key),
            Overlay::DeleteTask => self.handle_delete_confirm_key(key),
            Overlay::DeleteNote => self.handle_delete_note_confirm_key(key),
            Overlay::Input(_) => self.handle_input_key(key),
        }
    }
}

/// "已加载 n <unit>" for a count.
fn loaded_message(n: usize, unit: &str) -> (r: String)
    ensures
        r@ == "已加载 "@ + decimal(n as nat) + unit@,
{
    let mut m = String::from_str("已加载 ");
    let d = usize_to_decimal(n);
    append_str(&mut m, d.as_str());
    append_str(&mut m, unit);
    m
}

impl App {
    /// Shows a task in the detail view with a message.
    fn refresh_task(&mut self, t: Task, m: &str)
        ensures
            final(self)@ == task_refreshed(old(self)@, t@, m@),
    {
        self.current_task = Some(t);
        self.set_message(m);
    }

    /// The task list loaded.
    fn on_tasks_loaded(&mut self, ts: Vec<Task>)
        ensures
            final(self)@ == tasks_loaded(old(self)@, tasks_view(ts@)),
    {
        self.tasks = ts;
        self.error_message = None;
        self.clamp_selected_index();
    }

    /// A task loaded for the detail view.
    fn on_task_detail_loaded(&mut self, t: Task)
        ensures
            final(self)@ == task_detail_loaded(old(self)@, t@),
    {
        self.selected_item_index = 0;
        self.current_task = Some(t);
        self.right_pane_view = RightPaneView::TaskDetail;
        self.focused_pane = FocusedPane::Right;
        self.error_message = None;
    }

    /// A task deleted.
    fn on_task_deleted(&mut self, id: String)
        ensures
            final(self)@ == task_deleted(old(self)@, id@),
    {
        let is_current = match &self.current_task {
            Some(c) => str_eq(c.id.as_str(), id.as_str()),
            None => false,
        };
        if is_current {
            self.current_task = None;
            self.right_pane_view = RightPaneView::TaskList;
        }
        self.project_tasks = tasks_without(&self.project_tasks, id.as_str());
        self.tasks = tasks_without(&self.tasks, id.as_str());
        self.clamp_selected_index();
        self.set_message("任务已删除");
        self.error_message = None;
    }

    /// A task created.
    fn on_task_created(&mut self, t: Task)
        ensures
            final(self)@ == task_created(old(self)@, t@),
    {
        self.set_message("任务已创建");
        self.error_message = None;
        self.spawn_load_project_tasks_for_selected_project();
        self.current_task = Some(t);
        self.right_pane_view = RightPaneView::TaskDetail;
        self.focused_pane = FocusedPane::Right;
    }

    /// A task updated.
    fn on_task_updated(&mut self, t: Task)
        ensures
            final(self)@ == task_updated(old(self)@, t@),
    {
        replace_task(&mut self.tasks, &t);
        replace_task(&mut self.project_tasks, &t);
        self.current_task = Some(t);
        self.right_pane_view = RightPaneView::TaskDetail;
        self.set_message("任务已更新");
        self.error_message = None;
    }

    /// The project list loaded.
    fn on_projects_loaded(&mut self, ps: Vec<Project>)
        ensures
            final(self)@ == projects_loaded(old(self)@, projects_view(ps@)),
    {
        let had_projects = self.projects.len() > 0;
        let n = ps.len();
        self.projects = ps;
        if self.project_selected_index >= n && n > 0 {
            self.project_selected_index = n - 1;
        } else if n == 0 {
            self.project_selected_index = 0;
        }
        self.message = Some(loaded_message(n, " 个项目"));
        self.error_message = None;
        if !had_projects && n > 0 {
            self.spawn_load_project_tasks_for_selected_project();
        }
    }

    /// A project created.
    fn on_project_created(&mut self, p: Project)
        ensures
            final(self)@ == project_created(old(self)@, p@),
    {
        self.set_message("项目已创建");
        self.error_message = None;
        self.overlay = Overlay::Closed;
        self.spawn_load_projects();
        match project_position(&self.projects, p.id.as_str()) {
            Some(i) => {
                proof {
                    let ghost c = choose|j: int| first_project_at(projects_view(self.projects@), p@.id, j);
                    assert(c == i as int) by {
                        if c < i {
                            assert(projects_view(self.projects@)[c].id != p@.id);
                        } else if c > i {
                            assert(projects_view(self.projects@)[i as int].id == p@.id);
                        }
                    }
                }
                self.project_selected_index = i;
            },
            None => {},
        }
    }

    /// A project updated.
    fn on_project_updated(&mut self, p: Project)
        ensures
            final(self)@ == project_updated(old(self)@, p@),
    {
        replace_project(&mut self.projects, &p);
        self.overlay = Overlay::Closed;
        self.set_message("项目已更新");
        self.error_message = None;
    }

    /// A project deleted.
    fn on_project_deleted(&mut self, id: String)
        ensures
            final(self)@ == project_deleted(old(self)@, id@),
    {
        self.overlay = Overlay::Closed;
        let ps = projects_without(&self.projects, id.as_str());
        let n = ps.len();
        if n == 0 {
            self.project_tasks = Vec::new();
            assert(tasks_view(self.project_tasks@) =~= Seq::empty());
        } else {
            self.project_tasks = tasks_outside(&self.project_tasks, id.as_str());
        }
        self.projects = ps;
        if self.project_selected_index >= n && n > 0 {
            self.project_selected_index = n - 1;
        } else if n == 0 {
            self.project_selected_index = 0;
        }
        if n > 0 {
            self.spawn_load_project_tasks_for_selected_project();
        }
        self.set_message("项目已删除");
        self.error_message = None;
    }

    /// The selected project's tasks loaded.
    fn on_project_tasks_loaded(&mut self, ts: Vec<Task>)
        ensures
            final(self)@ == project_tasks_loaded(old(self)@, tasks_view(ts@)),
    {
        let n = ts.len();
        self.project_tasks = ts;
        self.selected_index = 0;
        self.scroll_offset = 0;
        self.message = Some(loaded_message(n, " 个任务"));
    }

    /// A finished background operation (see `action_step`).
    pub fn handle_action(&mut self, action: Action)
        ensures
            final(self)@ == action_step(old(self)@, action),
    {
        match action {
            Action::TasksLoaded(ts) => self.on_tasks_loaded(ts),
            Action::TaskDetailLoaded(t) => self.on_task_detail_loaded(t),
            Action::TaskDeleted(id) => self.on_task_deleted(id),
            Action::ItemToggled(t) => self.refresh_task(t, "条目状态已切换"),
            Action::ItemAdded(t) => self.refresh_task(t, "条目已添加"),
            Action::ItemRemoved(t) => self.refresh_task(t, "条目已移除"),
            Action::ItemEdited(t) => self.refresh_task(t, "条目已编辑"),
            Action::ItemReordered(t) => self.refresh_task(t, "条目已重排"),
            Action::TaskCreated(t) => self.on_task_created(t),
            Action::TaskUpdated(t) => self.on_task_updated(t),
            Action::NoteAdded(t) => self.refresh_task(t, "笔记已添加"),
            Action::NoteDeleted(t) => self.refresh_task(t, "笔记已删除"),
            Action::ResourceAdded(t) => self.refresh_task(t, "资源已添加"),
            Action::ResourceDeleted(t) => self.refresh_task(t, "资源已删除"),
            Action::ProjectsLoaded(ps) => self.on_projects_loaded(ps),
            Action::ProjectDetailLoaded(_) => {},
            Action::ProjectCreated(p) => self.on_project_created(p),
            Action::ProjectUpdated(p) => self.on_project_updated(p),
            Action::ProjectDeleted(id) => self.on_project_deleted(id),
            Action::ProjectTasksLoaded(ts) => self.on_project_tasks_loaded(ts),
            Action::Error(e) => {
                self.error_message = Some(e);
            },
        }
    }

    /// Applies an event (see `event_step`).
    pub fn handle_event(&mut self, event: AppEvent)
        ensures
            final(self)@ == event_step(old(self)@, event),
    {
        match event {
            AppEvent::Key(k) => self.handle_key(k),
            AppEvent::Resize(_, _) => {},
            AppEvent::Action(a) => self.handle_action(a),
        }
    }
}

} // verus!
