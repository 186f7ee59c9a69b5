use pinchtask::models::{ChecklistItem, Project, Resource, Task, TaskMetadata};
use pinchtask::tui::ui::{project_detail, project_form, project_list, task_detail, task_list};

fn list_task(i: usize) -> Task {
    Task {
        id: format!("{i:032}"),
        task_description: format!("任务{i}"),
        context_for_all_tasks: None,
        checklist: vec![],
        notes: vec![],
        resources: vec![],
        metadata: None,
        project_id: None,
        created_at: format!("2026-04-{i:02}T00:00:00Z"),
        updated_at: format!("2026-04-{i:02}T00:00:00Z"),
    }
}

fn detail_task() -> Task {
    Task {
        id: "0123456789abcdef".to_owned(),
        task_description: "测试任务描述".to_owned(),
        context_for_all_tasks: Some("共享上下文信息".to_owned()),
        checklist: vec![
            ChecklistItem {
                id: "item-1".to_owned(),
                task: "条目一".to_owned(),
                detailed_description: "详细描述一".to_owned(),
                context_and_plan: Some("计划一".to_owned()),
                done: false,
            },
            ChecklistItem {
                id: "item-2".to_owned(),
                task: "条目二".to_owned(),
                detailed_description: "详细描述二".to_owned(),
                context_and_plan: None,
                done: true,
            },
            ChecklistItem {
                id: "item-3".to_owned(),
                task: "条目三".to_owned(),
                detailed_description: String::new(),
                context_and_plan: None,
                done: false,
            },
        ],
        notes: vec!["笔记一".to_owned(), "笔记二".to_owned()],
        resources: vec![Resource {
            name: "文档".to_owned(),
            url: "https://example.com".to_owned(),
            description: Some("参考文档".to_owned()),
        }],
        metadata: Some(TaskMetadata {
            tags: Some(vec!["重要".to_owned(), "v2".to_owned()]),
            priority: Some("high".to_owned()),
            estimated_completion_time: Some("P3D".to_owned()),
        }),
        project_id: None,
        created_at: "2026-04-03T18:30:00Z".to_owned(),
        updated_at: "2026-04-04T10:00:00Z".to_owned(),
    }
}

#[test]
fn project_detail_truncate_str_short() {
    assert_eq!(project_detail::truncate_str("abc", 5), "abc");
}

#[test]
fn project_detail_truncate_str_long() {
    assert_eq!(project_detail::truncate_str("abcdef", 5), "abcd…");
}

#[test]
fn project_detail_wrap_text_short() {
    assert_eq!(project_detail::wrap_text("abc", 10), vec!["abc"]);
}

#[test]
fn project_detail_wrap_text_wraps() {
    assert_eq!(project_detail::wrap_text("abcdefg", 4), vec!["abcd", "efg"]);
}

#[test]
fn project_detail_wrap_text_newline() {
    assert_eq!(project_detail::wrap_text("ab\ncd", 10), vec!["ab", "cd"]);
}

#[test]
fn project_form_truncate_str_short() {
    assert_eq!(project_form::truncate_str("abc", 5), "abc");
}

#[test]
fn project_form_truncate_str_long() {
    assert_eq!(project_form::truncate_str("abcdef", 5), "abcd…");
}

#[test]
fn project_list_scroll_offset_zero_when_all_fit() {
    let pl = project_list::ProjectList::new(&[], 0);
    assert_eq!(pl.scroll_offset(20), 0);
}

#[test]
fn project_list_scroll_offset_adjusts_when_selected_below_visible() {
    let projects: Vec<Project> = (0..10)
        .map(|i| Project {
            id: format!("{i:032}"),
            name: format!("项目{i}"),
            description: None,
            created_at: format!("2026-04-{i:02}T00:00:00Z"),
            updated_at: format!("2026-04-{i:02}T00:00:00Z"),
        })
        .collect();
    let pl = project_list::ProjectList::new(&projects, 5);
    assert_eq!(pl.scroll_offset(7), 3);
}

#[test]
fn project_list_truncate_str_short() {
    assert_eq!(project_list::truncate_str("abc", 5), "abc");
}

#[test]
fn project_list_truncate_str_long() {
    assert_eq!(project_list::truncate_str("abcdef", 5), "abcd…");
}

#[test]
fn project_list_format_created_at_iso() {
    assert_eq!(project_list::format_created_at("2026-04-03T18:30:00Z"), "04-03");
}

#[test]
fn project_list_format_created_at_short() {
    assert_eq!(project_list::format_created_at("abc"), "abc");
}

#[test]
fn task_detail_scroll_offset_zero_when_all_fit() {
    let task = detail_task();
    let td = task_detail::TaskDetail::new(&task, 0);
    assert_eq!(td.scroll_offset(10), 0);
}

#[test]
fn task_detail_scroll_offset_adjusts_when_selected_below_visible() {
    let task = detail_task();
    let td = task_detail::TaskDetail::new(&task, 5);
    assert_eq!(td.scroll_offset(3), 3);
}

#[test]
fn task_detail_scroll_offset_zero_when_selected_in_view() {
    let task = detail_task();
    let td = task_detail::TaskDetail::new(&task, 2);
    assert_eq!(td.scroll_offset(5), 0);
}

#[test]
fn task_detail_truncate_str_short() {
    assert_eq!(task_detail::truncate_str("abc", 5), "abc");
}

#[test]
fn task_detail_truncate_str_exact() {
    assert_eq!(task_detail::truncate_str("abcde", 5), "abcde");
}

#[test]
fn task_detail_truncate_str_long() {
    assert_eq!(task_detail::truncate_str("abcdef", 5), "abcd…");
}

#[test]
fn task_detail_wrap_text_short() {
    assert_eq!(task_detail::wrap_text("abc", 10), vec!["abc"]);
}

#[test]
fn wrap_text_exact_width() {
    assert_eq!(task_detail::wrap_text("abcde", 5), vec!["abcde"]);
}

#[test]
fn task_detail_wrap_text_wraps() {
    assert_eq!(task_detail::wrap_text("abcdefg", 4), vec!["abcd", "efg"]);
}

#[test]
fn task_detail_wrap_text_newline() {
    assert_eq!(task_detail::wrap_text("ab\ncd", 10), vec!["ab", "cd"]);
}

#[test]
fn wrap_text_empty() {
    assert_eq!(task_detail::wrap_text("", 10), vec![""]);
}

#[test]
fn task_list_scroll_offset_zero_when_all_fit() {
    let tl = task_list::TaskList::new(&[], 0);
    assert_eq!(tl.scroll_offset(20), 0);
}

#[test]
fn task_list_scroll_offset_adjusts_when_selected_below_visible() {
    let tasks: Vec<Task> = (0..10).map(list_task).collect();
    let tl = task_list::TaskList::new(&tasks, 5);
    assert_eq!(tl.scroll_offset(7), 3);
}

#[test]
fn task_list_scroll_offset_zero_when_selected_in_view() {
    let tasks: Vec<Task> = (0..5).map(list_task).collect();
    let tl = task_list::TaskList::new(&tasks, 2);
    assert_eq!(tl.scroll_offset(20), 0);
}

#[test]
fn task_list_truncate_str_short() {
    assert_eq!(task_list::truncate_str("abc", 5), "abc");
}

#[test]
fn task_list_truncate_str_exact() {
    assert_eq!(task_list::truncate_str("abcde", 5), "abcde");
}

#[test]
fn task_list_truncate_str_long() {
    assert_eq!(task_list::truncate_str("abcdef", 5), "abcd…");
}

#[test]
fn task_list_format_created_at_iso() {
    assert_eq!(task_list::format_created_at("2026-04-03T18:30:00Z"), "04-03");
}

#[test]
fn task_list_format_created_at_short() {
    assert_eq!(task_list::format_created_at("abc"), "abc");
}

// ── additional cases ────────────────────────────────────────────────────

#[test]
fn truncate_str_zero_width_keeps_only_ellipsis() {
    assert_eq!(task_list::truncate_str("abc", 0), "…");
    assert_eq!(task_list::truncate_str("中文字符串", 3), "中文…");
}

#[test]
fn padded_truncate_str_pads_and_cuts() {
    assert_eq!(pinchtask::tui::ui::truncate_str("ab", 4), "ab  ");
    assert_eq!(pinchtask::tui::ui::truncate_str("abcdef", 4), "abc…");
}

#[test]
fn wrap_text_zero_width_keeps_text() {
    assert_eq!(task_detail::wrap_text("abc\ndef", 0), vec!["abc\ndef"]);
    assert_eq!(task_detail::wrap_text("ab\n", 10), vec!["ab"]);
    assert_eq!(task_detail::wrap_text("\n", 10), vec![""]);
}

#[test]
fn progress_bar_exact_layout() {
    assert_eq!(pinchtask::tui::ui::progress_bar(50, 6), "[██░░]");
    assert_eq!(pinchtask::tui::ui::progress_bar(0, 1), "");
}

#[test]
fn format_created_at_multibyte_date() {
    assert_eq!(task_list::format_created_at("2026-04-03"), "04-03");
    assert_eq!(task_list::format_created_at("2026-0"), "2026-0");
}
