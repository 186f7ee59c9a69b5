use pinchtask::cli::error::{log_level, CliError};
use pinchtask::cli::output::{make_progress_bar, pad_display, truncate_to_width, unicode_width};
use pinchtask::cli::resolve::resolve_task_id;
use pinchtask::cli::task::{remove_task, TaskRmArgs};
use pinchtask::error::StoreError;
use pinchtask::models::Task;

fn task(id: &str) -> Task {
    Task {
        id: id.to_owned(),
        task_description: "描述".to_owned(),
        context_for_all_tasks: None,
        checklist: vec![],
        notes: vec![],
        resources: vec![],
        metadata: None,
        project_id: None,
        created_at: "2025-01-01T00:00:00Z".to_owned(),
        updated_at: "2025-01-01T00:00:00Z".to_owned(),
    }
}

#[test]
fn progress_bar_has_ten_cells() {
    assert_eq!(make_progress_bar(0, 0), "░░░░░░░░░░");
    assert_eq!(make_progress_bar(0, 4), "░░░░░░░░░░");
    assert_eq!(make_progress_bar(4, 4), "██████████");
    assert_eq!(make_progress_bar(1, 3), "███░░░░░░░");
    assert_eq!(make_progress_bar(2, 3), "███████░░░");
    for (d, t) in [(0usize, 7usize), (3, 7), (7, 7), (9, 7)] {
        assert_eq!(make_progress_bar(d, t).chars().count(), 10);
    }
}

#[test]
fn widths_count_cjk_twice() {
    assert_eq!(unicode_width("abc"), 3);
    assert_eq!(unicode_width("任务"), 4);
    assert_eq!(unicode_width("a任"), 3);
}

#[test]
fn truncation_fits_width() {
    assert_eq!(truncate_to_width("任务列表", 5), "任务");
    assert_eq!(truncate_to_width("abc", 5), "abc");
    assert_eq!(truncate_to_width("abc", 0), "");
    assert!(unicode_width(&truncate_to_width("中文中文中文", 7)) <= 7);
}

#[test]
fn padding_reaches_exact_width() {
    assert_eq!(pad_display("ab", 4), "ab  ");
    assert_eq!(pad_display("任", 4), "任  ");
    assert_eq!(unicode_width(&pad_display("任务", 9)), 9);
    assert_eq!(pad_display("abcdef", 3), "abc");
}

#[test]
fn exit_codes_and_reports() {
    let e = CliError::Store(StoreError::NotFound("x".to_owned()));
    assert_eq!(e.exit_code(), 2);
    let e = CliError::Message("坏了".to_owned());
    assert_eq!(e.exit_code(), 1);
    assert_eq!(e.report(), "错误: 坏了");
}

#[test]
fn log_level_choice() {
    assert_eq!(log_level(true, true, Some("info")), "debug");
    assert_eq!(log_level(false, true, Some("info")), "error");
    assert_eq!(log_level(false, false, Some("info")), "info");
    assert_eq!(log_level(false, false, None), "warn");
}

#[test]
fn cli_prefix_resolution() {
    let tasks = vec![
        task("abcd1111-0000-0000-0000-000000000000"),
        task("abce2222-0000-0000-0000-000000000000"),
    ];
    assert_eq!(
        resolve_task_id("abcd", &tasks).unwrap(),
        "abcd1111-0000-0000-0000-000000000000"
    );
    assert_eq!(
        resolve_task_id("abce2222-0000-0000-0000-000000000000", &tasks).unwrap(),
        "abce2222-0000-0000-0000-000000000000"
    );
    assert!(matches!(
        resolve_task_id("abc", &tasks),
        Err(StoreError::InvalidIdPrefix { min_len: 4, actual_len: 3, .. })
    ));
    assert!(matches!(resolve_task_id("ffff", &tasks), Err(StoreError::NotFound(_))));
    match resolve_task_id("ab", &tasks) {
        Err(StoreError::InvalidIdPrefix { .. }) => {}
        other => panic!("unexpected {:?}", other),
    }
}

#[test]
fn remove_task_only_cuts_the_picked_id() {
    let tasks = vec![task("abcd1234-0000-0000-0000-000000000000"), task("一二三四")];
    let (id, msg) = remove_task(&TaskRmArgs { id: "abcd".to_owned() }, &tasks).unwrap();
    assert_eq!(id, "abcd1234-0000-0000-0000-000000000000");
    assert_eq!(msg, "任务 abcd1234 已删除");
}
