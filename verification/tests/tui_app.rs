use pinchtask::models::{Task, TaskMetadata};
use pinchtask::tui::app::{App, FocusedPane, Overlay, RightPaneView, SortMode};
use pinchtask::tui::event::{Action, AppEvent, Effect, KeyCode, KeyPress};

fn task(id: &str, desc: &str, priority: Option<&str>, created: &str) -> Task {
    Task {
        id: id.to_owned(),
        task_description: desc.to_owned(),
        context_for_all_tasks: None,
        checklist: vec![],
        notes: vec![],
        resources: vec![],
        metadata: priority.map(|p| TaskMetadata {
            tags: None,
            priority: Some(p.to_owned()),
            estimated_completion_time: None,
        }),
        project_id: None,
        created_at: created.to_owned(),
        updated_at: created.to_owned(),
    }
}

#[test]
fn app_new_defaults() {
    let app = App::new(None);
    assert_eq!(app.focused_pane(), &FocusedPane::Left);
    assert_eq!(app.right_pane_view(), &RightPaneView::TaskList);
    assert_eq!(app.overlay(), &Overlay::Closed);
    assert!(!app.should_quit());
    assert!(app.tasks().is_empty());
    assert_eq!(app.selected_index(), 0);
    assert!(app.message().is_none());
    assert!(app.error_message().is_none());
    assert!(app.current_task().is_none());
    assert_eq!(app.sort_mode(), SortMode::Created);
    assert!(app.search_query().is_none());
    assert!(!app.search_mode());
    assert!(!app.confirm_delete());
    assert!(!app.confirm_delete_note());
    assert!(!app.confirm_delete_project());
    assert!(!app.is_overlay_active());
    assert_eq!(app.scroll_offset(), 0);
    assert_eq!(app.selected_item_index(), 0);
    assert!(app.form_state().is_none());
    assert!(app.projects().is_empty());
    assert_eq!(app.project_selected_index(), 0);
}

#[test]
fn app_filtered_and_sorted_tasks_empty() {
    let app = App::new(None);
    let result = app.filtered_and_sorted_tasks();
    assert!(result.is_empty());
}

#[test]
fn app_set_focused_pane() {
    let mut app = App::new(None);
    assert_eq!(app.focused_pane(), &FocusedPane::Left);
    app.set_focused_pane(FocusedPane::Right);
    assert_eq!(app.focused_pane(), &FocusedPane::Right);
    app.set_focused_pane(FocusedPane::Left);
    assert_eq!(app.focused_pane(), &FocusedPane::Left);
}

#[test]
fn app_set_right_pane_view() {
    let mut app = App::new(None);
    assert_eq!(app.right_pane_view(), &RightPaneView::TaskList);
    app.set_right_pane_view(RightPaneView::Help);
    assert_eq!(app.right_pane_view(), &RightPaneView::Help);
    app.set_right_pane_view(RightPaneView::TaskDetail);
    assert_eq!(app.right_pane_view(), &RightPaneView::TaskDetail);
}

#[test]
fn ctrl_c_quits_from_anywhere() {
    let mut app = App::new(None);
    app.handle_key(KeyPress::plain(KeyCode::Char('?')));
    assert_eq!(app.right_pane_view(), &RightPaneView::Help);
    app.handle_key(KeyPress::with_ctrl(KeyCode::Char('c')));
    assert!(app.should_quit());
}

#[test]
fn q_quits_but_closes_help_first() {
    let mut app = App::new(None);
    app.handle_key(KeyPress::plain(KeyCode::Char('?')));
    app.handle_key(KeyPress::plain(KeyCode::Char('q')));
    assert!(!app.should_quit());
    assert_eq!(app.right_pane_view(), &RightPaneView::TaskList);
    app.handle_key(KeyPress::plain(KeyCode::Char('q')));
    assert!(app.should_quit());
}

#[test]
fn help_toggles_back_to_task_detail() {
    let mut app = App::new(None);
    app.set_right_pane_view(RightPaneView::TaskDetail);
    app.handle_key(KeyPress::plain(KeyCode::Char('?')));
    assert_eq!(app.right_pane_view(), &RightPaneView::Help);
    assert_eq!(app.focused_pane(), &FocusedPane::Right);
    app.handle_key(KeyPress::plain(KeyCode::Char('?')));
    assert_eq!(app.right_pane_view(), &RightPaneView::TaskDetail);
}

#[test]
fn loaded_tasks_are_listed_and_sorted() {
    let mut app = App::new(None);
    let tasks = vec![
        task("aaaaaaaa-1", "早", Some("low"), "2025-01-01T00:00:00Z"),
        task("bbbbbbbb-2", "晚", Some("high"), "2025-01-02T00:00:00Z"),
    ];
    app.handle_event(AppEvent::Action(Action::TasksLoaded(tasks.clone())));
    assert_eq!(app.tasks().len(), 2);
    assert!(app.filtered_and_sorted_tasks().is_empty());
    app.handle_event(AppEvent::Action(Action::ProjectTasksLoaded(tasks)));
    assert_eq!(app.message(), Some("已加载 2 个任务"));
    let shown = app.filtered_and_sorted_tasks();
    assert_eq!(shown[0].task_description, "晚");
    app.set_focused_pane(FocusedPane::Right);
    app.handle_key(KeyPress::plain(KeyCode::Tab));
    assert_eq!(app.sort_mode(), SortMode::Priority);
    assert_eq!(app.message(), Some("排序: 优先级"));
    let shown = app.filtered_and_sorted_tasks();
    assert_eq!(shown[0].task_description, "晚");
}

#[test]
fn disconnected_app_queues_nothing() {
    let mut app = App::new(None);
    app.spawn_load_tasks();
    app.handle_key(KeyPress::with_ctrl(KeyCode::Char('r')));
    assert!(app.take_effects().is_empty());
}

#[test]
fn connected_app_queues_effects_in_order() {
    let mut app = App::new(None);
    app.set_connected(true);
    app.spawn_load_tasks();
    app.spawn_load_projects();
    let effects = app.take_effects();
    assert_eq!(effects.len(), 2);
    assert!(matches!(effects[0], Effect::LoadTasks));
    assert!(matches!(effects[1], Effect::LoadProjects));
    assert!(app.take_effects().is_empty());
}

#[test]
fn error_action_sets_error_message() {
    let mut app = App::new(None);
    app.handle_action(Action::Error("出错了".to_owned()));
    assert_eq!(app.error_message(), Some("出错了"));
}

#[test]
fn resize_changes_nothing() {
    let mut app = App::new(None);
    app.handle_event(AppEvent::Resize(100, 40));
    assert_eq!(app.focused_pane(), &FocusedPane::Left);
    assert!(app.message().is_none());
}

#[test]
fn search_ignores_case() {
    let mut app = App::new(None);
    let tasks = vec![
        task("aaaaaaaa-1", "Write Docs", None, "2025-01-01T00:00:00Z"),
        task("bbbbbbbb-2", "fix bug", None, "2025-01-02T00:00:00Z"),
    ];
    app.handle_event(AppEvent::Action(Action::ProjectTasksLoaded(tasks)));
    app.set_focused_pane(FocusedPane::Right);
    app.handle_key(KeyPress::plain(KeyCode::Char('/')));
    assert!(app.search_mode());
    for c in "DOCS".chars() {
        app.handle_key(KeyPress::plain(KeyCode::Char(c)));
    }
    assert_eq!(app.search_query(), Some("DOCS"));
    let shown = app.filtered_and_sorted_tasks();
    assert_eq!(shown.len(), 1);
    assert_eq!(shown[0].task_description, "Write Docs");
}

#[test]
fn esc_in_task_detail_returns_to_task_list_keeping_focus() {
    let mut app = App::new(None);
    app.set_focused_pane(FocusedPane::Right);
    app.set_right_pane_view(RightPaneView::TaskDetail);
    app.handle_event(AppEvent::Key(KeyPress::plain(KeyCode::Esc)));
    assert_eq!(app.right_pane_view(), &RightPaneView::TaskList);
    assert_eq!(app.focused_pane(), &FocusedPane::Right);
    assert!(!app.should_quit());
    app.handle_event(AppEvent::Key(KeyPress::plain(KeyCode::Esc)));
    assert_eq!(app.focused_pane(), &FocusedPane::Left);
}

#[test]
fn help_toggles_back_to_task_list() {
    let mut app = App::new(None);
    app.set_focused_pane(FocusedPane::Right);
    app.handle_key(KeyPress::plain(KeyCode::Char('?')));
    assert_eq!(app.right_pane_view(), &RightPaneView::Help);
    app.handle_key(KeyPress::plain(KeyCode::Char('?')));
    assert_eq!(app.right_pane_view(), &RightPaneView::TaskList);
    assert_eq!(app.focused_pane(), &FocusedPane::Right);
}

#[test]
fn esc_closes_help_keeping_focus() {
    let mut app = App::new(None);
    app.set_focused_pane(FocusedPane::Right);
    app.handle_key(KeyPress::plain(KeyCode::Char('?')));
    app.handle_key(KeyPress::plain(KeyCode::Esc));
    assert_eq!(app.right_pane_view(), &RightPaneView::TaskList);
    assert_eq!(app.focused_pane(), &FocusedPane::Right);
}
