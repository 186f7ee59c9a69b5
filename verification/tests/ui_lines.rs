use pinchtask::tui::ui::list_screen::task_list_view_lines;
use pinchtask::models::{ChecklistItem, Project, Resource, Task, TaskMetadata};
use pinchtask::tui::app::{FormField, FormMode, InputMode, ProjectFormField, ProjectFormMode, ProjectFormState, RightPaneView, SortMode, TaskFormState};
use pinchtask::tui::ui::lines::Line;
use pinchtask::tui::ui::project_detail::ProjectDetail;
use pinchtask::tui::ui::project_form::ProjectForm;
use pinchtask::tui::ui::project_list::ProjectList;
use pinchtask::tui::ui::screens::{
    delete_confirm_view_lines, help_view_lines, input_view_lines, status_bar_line,
    task_form_title_text, task_form_view_lines, title_bar_line,
};
use pinchtask::tui::ui::task_detail::TaskDetail;
use pinchtask::tui::ui::task_list::TaskList;
use pinchtask::tui::ui::theme::Color;

fn text(l: &Line) -> String {
    l.spans.iter().map(|s| s.content.as_str()).collect()
}

fn task() -> Task {
    Task {
        id: "abcd1234-0000-0000-0000-000000000000".to_owned(),
        task_description: "写文档".to_owned(),
        context_for_all_tasks: Some("背景".to_owned()),
        checklist: vec![
            ChecklistItem {
                id: "1".to_owned(),
                task: "第一步".to_owned(),
                detailed_description: "细节".to_owned(),
                context_and_plan: None,
                done: true,
            },
            ChecklistItem {
                id: "2".to_owned(),
                task: "第二步".to_owned(),
                detailed_description: String::new(),
                context_and_plan: None,
                done: false,
            },
        ],
        notes: vec![],
        resources: vec![Resource {
            name: "文档".to_owned(),
            url: "https://x".to_owned(),
            description: Some("说明".to_owned()),
        }],
        metadata: Some(TaskMetadata {
            tags: Some(vec!["a".to_owned(), "b".to_owned()]),
            priority: Some("high".to_owned()),
            estimated_completion_time: None,
        }),
        project_id: None,
        created_at: "2025-03-04T10:00:00Z".to_owned(),
        updated_at: "2025-03-05T10:00:00Z".to_owned(),
    }
}

#[test]
fn task_detail_lines_show_every_section() {
    let t = task();
    let ls = TaskDetail::new(&t, 0).lines(60, 40);
    let all: Vec<String> = ls.iter().map(text).collect();
    assert_eq!(all[0], "");
    assert_eq!(all[1], " 📋 写文档");
    assert_eq!(all[2], " ID:    abcd1234");
    assert_eq!(all[3], " 上下文: 背景");
    assert!(all.contains(&" 优先级: ● high".to_owned()));
    assert!(all.contains(&" 标签:   a, b".to_owned()));
    assert!(all.iter().any(|l| l.starts_with(" ☑ 清单 (1/2)  [")));
    assert!(all.iter().any(|l| l.starts_with(" ▸  ✓ 第一步")));
    assert!(all.contains(&"       细节".to_owned()));
    assert!(all.iter().any(|l| l.starts_with("    ○ 第二步")));
    assert!(all.contains(&" 📝 笔记 (0)".to_owned()));
    assert!(all.contains(&"   （暂无笔记）".to_owned()));
    assert!(all.contains(&" • 文档: https://x — 说明".to_owned()));
    assert_eq!(all.last().unwrap(), " 创建: 2025-03-04T10:00:00Z  更新: 2025-03-05T10:00:00Z");
}

#[test]
fn task_list_lines_rows_and_footer() {
    let ts = vec![task()];
    let ls = TaskList::new(&ts, 0).lines(80, 20);
    assert_eq!(ls.len(), 5);
    assert!(text(&ls[0]).starts_with("  # ID       描述"));
    let row = text(&ls[2]);
    assert!(row.starts_with(" ▸ abcd1234 写文档"));
    assert!(row.contains("1/2"));
    assert!(row.ends_with("03-04"));
    assert_eq!(text(&ls[4]), "  共 1 个任务，选中: abcd1234");
    let empty: Vec<Task> = vec![];
    let ls = TaskList::new(&empty, 0).lines(80, 20);
    assert_eq!(text(&ls[1]), "  暂无任务");
    assert!(ls[1].style.italic);
}

#[test]
fn task_list_scrolls_to_selection() {
    let mut ts = Vec::new();
    for i in 0..10 {
        let mut t = task();
        t.id = format!("{i:08}-0000");
        ts.push(t);
    }
    let ls = TaskList::new(&ts, 9).lines(80, 8);
    // 4 visible rows: 6, 7, 8, 9
    assert_eq!(ls.len(), 2 + 4 + 2);
    assert!(text(&ls[2]).contains("00000006"));
    assert!(text(&ls[5]).contains("00000009"));
}

#[test]
fn project_views() {
    let p = Project {
        id: "beef0000-1111".to_owned(),
        name: "项目甲".to_owned(),
        description: None,
        created_at: "2025-01-02T00:00:00Z".to_owned(),
        updated_at: "2025-01-02T00:00:00Z".to_owned(),
    };
    let ps = vec![p.clone()];
    let ls = ProjectList::new(&ps, 0).lines(60, 10);
    assert_eq!(text(ls.last().unwrap()), "  共 1 个项目");
    assert!(text(&ls[2]).starts_with(" ▸ 项目甲"));
    let ts = vec![task()];
    let ls = ProjectDetail::new(&p, &ts, 0).lines(60);
    let all: Vec<String> = ls.iter().map(text).collect();
    assert!(all.contains(&" 描述:   （无描述）".to_owned()));
    assert!(all.contains(&" ID:     beef0000".to_owned()));
    assert!(all.contains(&" ☑ 关联任务 (1)".to_owned()));
    assert!(all.last().unwrap().starts_with(" Enter 查看任务"));
}

#[test]
fn project_form_lines_and_title() {
    let st = ProjectFormState {
        mode: ProjectFormMode::Create,
        editing_project_id: None,
        name: "新".to_owned(),
        description: String::new(),
        focused_field: ProjectFormField::Name,
        error: Some("名称不能为空".to_owned()),
    };
    let form = ProjectForm::new(&st);
    assert_eq!(form.title(), " ✚  新建项目 ");
    let ls = form.lines(40);
    assert_eq!(text(&ls[1]), "  ▸ 名称: 新│");
    assert_eq!(text(&ls[3]), "    描述: 输入项目描述（可选）...");
    assert_eq!(text(&ls[5]), " ✖ 名称不能为空");
    assert!(text(ls.last().unwrap()).contains("创建"));
}

#[test]
fn task_form_lines_and_title() {
    let st = TaskFormState {
        mode: FormMode::Edit,
        editing_task_id: Some("x".to_owned()),
        description: "描述文本".to_owned(),
        context: String::new(),
        priority: "low".to_owned(),
        tags: String::new(),
        eta: String::new(),
        focused_field: FormField::Priority,
        error: None,
    };
    assert_eq!(task_form_title_text(&st), " ✏ 编辑任务 ");
    let ls = task_form_view_lines(Some(&st), 60);
    assert_eq!(ls.len(), 1 + 10 + 2);
    assert_eq!(text(&ls[1]), "    描述: 描述文本");
    assert_eq!(text(&ls[3]), "    上下文: 输入共享上下文（可选）...");
    assert_eq!(text(&ls[5]), "  ▸ 优先级: low│");
    assert!(text(ls.last().unwrap()).contains("保存"));
    let ls = task_form_view_lines(None, 60);
    assert_eq!(text(&ls[1]), "  表单状态异常");
}

#[test]
fn help_and_dialogs() {
    let h = help_view_lines();
    assert_eq!(h.len(), 28);
    assert_eq!(text(&h[1]), "  全局快捷键:");
    assert_eq!(text(&h[2]), "    q / Ctrl+C    退出 TUI");
    let d = delete_confirm_view_lines(Some("一个很长很长很长很长很长很长很长很长很长很长很长很长的任务描述"));
    assert_eq!(text(&d[2]).chars().count(), 32);
    assert!(text(&d[2]).ends_with('…'));
    let i = input_view_lines(InputMode::AddingNote, "abc");
    assert_eq!(text(&i[0]), "  添加笔记: abc│");
}

#[test]
fn title_and_status_bars() {
    let t = title_bar_line(RightPaneView::TaskList, false, Some("键"), SortMode::Priority);
    assert_eq!(text(&t), " pinchtask TUI   [任务列表]  过滤: 键  排序: 优先级");
    assert_eq!(t.style.bg, Some(Color::DarkGray));
    let t = title_bar_line(RightPaneView::TaskList, true, None, SortMode::Created);
    assert_eq!(text(&t), " pinchtask TUI   [任务列表]  搜索: │");
    let s = status_bar_line(Some("坏"), Some("好"), RightPaneView::Help, InputMode::Normal);
    assert_eq!(text(&s), " ✖ 坏");
    let s = status_bar_line(None, None, RightPaneView::TaskDetail, InputMode::AddingItem);
    assert_eq!(text(&s), " Enter 确认  Esc 取消  Backspace 删除");
}

#[test]
fn task_list_screen_says_when_a_search_matches_nothing() {
    let ls = task_list_view_lines(&[], 0, 0, true, 40, 10);
    assert_eq!(ls.len(), 4);
    assert_eq!(text(&ls[1]), "  没有匹配的任务");
    assert_eq!(text(&ls[3]), "  按 Esc 清除搜索过滤");
    let ls = task_list_view_lines(&[], 0, 0, false, 40, 10);
    assert_eq!(text(&ls[1]), "  暂无任务");
}

#[test]
fn task_list_screen_shows_header_rows_and_scroll_footer() {
    let ts = vec![task(), task(), task()];
    let ls = task_list_view_lines(&ts, 0, 0, false, 12, 5);
    // header, separator, 2 rows (5 - 3), blank, footer
    assert_eq!(ls.len(), 6);
    assert_eq!(text(&ls[0]), "  #   ID        描述                    进度    优先级  ");
    assert_eq!(text(&ls[1]), "──────────");
    assert_eq!(
        text(&ls[2]),
        " ▸   abcd1234 写文档                  1/2  [██░░] high  "
    );
    assert!(text(&ls[3]).starts_with("     abcd1234 "));
    assert_eq!(text(&ls[5]), "  共 3 个任务  (显示 2/3  ↑↓ 滚动)");
    let ls = task_list_view_lines(&ts, 0, 0, false, 12, 20);
    assert_eq!(text(&ls[ls.len() - 1]), "  共 3 个任务");
}

#[test]
fn task_list_lines_only_cut_the_rows_in_view() {
    let mut ts: Vec<Task> = (0..6).map(|_| task()).collect();
    ts[5].id = "一二三".to_owned();
    ts[5].created_at = "二〇二五年".to_owned();
    // 6 lines tall: header, separator, 2 rows, blank, footer
    let ls = TaskList::new(&ts, 0).lines(60, 6);
    assert_eq!(ls.len(), 6);
    assert!(text(&ls[2]).contains("abcd1234"));
}
