use pinchtask::logic::workspace::{search_step, SearchStep};
use pinchtask::error::StoreError;
use pinchtask::ids::is_valid_uuid;
use pinchtask::logic::item::{
    add_checklist_item, mark_task_done, mark_task_undone, remove_checklist_item,
    reorder_checklist_item, update_checklist_item,
};
use pinchtask::logic::note::{add_note, delete_note};
use pinchtask::logic::resource::{add_resource, delete_resource};
use pinchtask::logic::task::{derive_task_status, format_task_list_smart, priority_rank, TaskStatus};
use pinchtask::models::{ChecklistItem, Task, TaskMetadata};
use pinchtask::tools::params::extract_def_name;

fn make_checklist_item(task: &str, done: bool) -> ChecklistItem {
    ChecklistItem {
        id: uuid::Uuid::new_v4().to_string(),
        task: task.to_owned(),
        detailed_description: String::new(),
        context_and_plan: None,
        done,
    }
}

fn make_task(desc: &str, checklist: Vec<ChecklistItem>, priority: Option<&str>) -> Task {
    Task {
        id: uuid::Uuid::new_v4().to_string(),
        task_description: desc.to_owned(),
        context_for_all_tasks: None,
        checklist,
        notes: vec![],
        resources: vec![],
        metadata: priority.map(|p| TaskMetadata {
            tags: None,
            priority: Some(p.to_owned()),
            estimated_completion_time: None,
        }),
        project_id: None,
        created_at: "2025-01-01T00:00:00Z".to_owned(),
        updated_at: "2025-01-01T00:00:00Z".to_owned(),
    }
}

#[test]
fn derive_task_status_empty_checklist() {
    let task = make_task("空清单", vec![], None);
    assert!(matches!(derive_task_status(&task), TaskStatus::NotStarted));
}

#[test]
fn derive_task_status_all_done() {
    let task = make_task(
        "全部完成",
        vec![make_checklist_item("项1", true), make_checklist_item("项2", true)],
        None,
    );
    assert!(matches!(derive_task_status(&task), TaskStatus::Completed));
}

#[test]
fn derive_task_status_partial_done() {
    let task = make_task(
        "部分完成",
        vec![make_checklist_item("项1", true), make_checklist_item("项2", false)],
        None,
    );
    assert!(matches!(derive_task_status(&task), TaskStatus::InProgress));
}

#[test]
fn derive_task_status_none_done() {
    let task = make_task(
        "全部未完成",
        vec![make_checklist_item("项1", false), make_checklist_item("项2", false)],
        None,
    );
    assert!(matches!(derive_task_status(&task), TaskStatus::NotStarted));
}

#[test]
fn priority_rank_high() {
    let task = make_task("高优先级", vec![], Some("high"));
    assert_eq!(priority_rank(&task), 0);
}

#[test]
fn priority_rank_medium() {
    let task = make_task("中优先级", vec![], Some("medium"));
    assert_eq!(priority_rank(&task), 1);
}

#[test]
fn priority_rank_low() {
    let task = make_task("低优先级", vec![], Some("low"));
    assert_eq!(priority_rank(&task), 2);
}

#[test]
fn priority_rank_none() {
    let task = make_task("无优先级", vec![], None);
    assert_eq!(priority_rank(&task), 3);
}

#[test]
fn priority_rank_unknown() {
    let task = make_task("未知优先级", vec![], Some("urgent"));
    assert_eq!(priority_rank(&task), 3);
}

#[test]
fn format_task_list_smart_empty() {
    let output = format_task_list_smart(&[]);
    assert_eq!(output, "当前没有任何任务");
}

#[test]
fn format_task_list_smart_full_display() {
    let tasks = vec![
        make_task(
            "进行中任务",
            vec![make_checklist_item("项1", true), make_checklist_item("项2", false)],
            None,
        ),
        make_task("未开始任务", vec![], None),
        make_task("已完成任务", vec![make_checklist_item("项1", true)], None),
    ];
    let output = format_task_list_smart(&tasks);
    assert!(output.contains("## 进行中 (1)"), "应包含进行中分组标题");
    assert!(output.contains("## 未开始 (1)"), "应包含未开始分组标题");
    assert!(output.contains("## 已完成 (1)"), "应包含已完成分组标题");
    assert!(output.contains("进行中任务"), "应包含任务描述");
    assert!(!output.contains("还有"), "≤10 个任务不应截断");
}

#[test]
fn format_task_list_smart_truncated() {
    let mut tasks = Vec::new();
    for i in 0..4 {
        tasks.push(make_task(
            &format!("进行中{}", i),
            vec![make_checklist_item("项", true), make_checklist_item("项", false)],
            None,
        ));
    }
    for i in 0..5 {
        tasks.push(make_task(&format!("未开始{}", i), vec![], None));
    }
    for i in 0..3 {
        tasks.push(make_task(
            &format!("已完成{}", i),
            vec![make_checklist_item("项", true)],
            None,
        ));
    }
    let output = format_task_list_smart(&tasks);
    assert!(
        output.contains("还有 2 个未开始的任务未展示"),
        "未开始组应截断并提示剩余数量"
    );
}

#[test]
fn format_task_list_smart_priority_sort() {
    let low_task = Task {
        id: "aaaaaaaa-0000-0000-0000-000000000000".to_owned(),
        task_description: "低优先级任务".to_owned(),
        context_for_all_tasks: None,
        checklist: vec![],
        notes: vec![],
        resources: vec![],
        metadata: Some(TaskMetadata {
            tags: None,
            priority: Some("low".to_owned()),
            estimated_completion_time: None,
        }),
        project_id: None,
        created_at: "2025-01-01T00:00:00Z".to_owned(),
        updated_at: "2025-01-01T00:00:00Z".to_owned(),
    };
    let high_task = Task {
        id: "bbbbbbbb-0000-0000-0000-000000000000".to_owned(),
        task_description: "高优先级任务".to_owned(),
        context_for_all_tasks: None,
        checklist: vec![],
        notes: vec![],
        resources: vec![],
        metadata: Some(TaskMetadata {
            tags: None,
            priority: Some("high".to_owned()),
            estimated_completion_time: None,
        }),
        project_id: None,
        created_at: "2025-01-02T00:00:00Z".to_owned(),
        updated_at: "2025-01-02T00:00:00Z".to_owned(),
    };
    let output = format_task_list_smart(&[low_task, high_task]);
    let low_pos = output.find("低优先级任务").expect("应包含低优先级任务");
    let high_pos = output.find("高优先级任务").expect("应包含高优先级任务");
    assert!(high_pos < low_pos, "高优先级任务应排在低优先级任务之前");
}

#[test]
fn smart_list_groups_cover_every_task() {
    let tasks = vec![
        make_task("甲", vec![make_checklist_item("a", true)], None),
        make_task("乙", vec![], None),
        make_task("丙", vec![make_checklist_item("a", true), make_checklist_item("b", false)], None),
        make_task("丁", vec![make_checklist_item("a", false)], None),
    ];
    let output = format_task_list_smart(&tasks);
    assert!(output.contains("## 进行中 (1)"));
    assert!(output.contains("## 未开始 (2)"));
    assert!(output.contains("## 已完成 (1)"));
    for d in ["甲", "乙", "丙", "丁"] {
        assert!(output.contains(d));
    }
}

#[test]
fn added_item_has_fresh_uuid_and_is_pending() {
    let mut t = make_task("t", vec![], None);
    add_checklist_item(&mut t, "第一步", "描述", Some("计划"));
    add_checklist_item(&mut t, "第二步", "", None);
    assert_eq!(t.checklist.len(), 2);
    assert!(is_valid_uuid(&t.checklist[0].id));
    assert!(is_valid_uuid(&t.checklist[1].id));
    assert_ne!(t.checklist[0].id, t.checklist[1].id);
    assert_eq!(t.checklist[0].task, "第一步");
    assert_eq!(t.checklist[0].context_and_plan.as_deref(), Some("计划"));
    assert!(!t.checklist[1].done);
}

#[test]
fn done_then_undone_restores_item() {
    let mut t = make_task("t", vec![make_checklist_item("a", false)], None);
    let before = t.checklist[0].clone();
    mark_task_done(&mut t, 0).unwrap();
    assert!(t.checklist[0].done);
    mark_task_undone(&mut t, 0).unwrap();
    assert_eq!(t.checklist[0].done, before.done);
    assert_eq!(t.checklist[0].id, before.id);
}

#[test]
fn out_of_range_item_is_not_found() {
    let mut t = make_task("t", vec![make_checklist_item("a", false)], None);
    match mark_task_done(&mut t, 3) {
        Err(StoreError::NotFound(m)) => assert_eq!(m, "清单条目索引越界: 3"),
        other => panic!("unexpected {:?}", other),
    }
    match remove_checklist_item(&mut t, 1) {
        Err(StoreError::NotFound(m)) => assert_eq!(m, "清单条目索引越界: 1"),
        other => panic!("unexpected {:?}", other),
    }
    assert_eq!(t.checklist.len(), 1);
}

#[test]
fn empty_update_keeps_item() {
    let mut t = make_task("t", vec![make_checklist_item("a", true)], None);
    let before = t.checklist[0].clone();
    update_checklist_item(&mut t, 0, None, None, None, None).unwrap();
    assert_eq!(t.checklist[0].task, before.task);
    assert_eq!(t.checklist[0].done, before.done);
    update_checklist_item(&mut t, 0, Some("新名"), None, Some(Some("计划")), Some(false)).unwrap();
    assert_eq!(t.checklist[0].task, "新名");
    assert_eq!(t.checklist[0].context_and_plan.as_deref(), Some("计划"));
    assert!(!t.checklist[0].done);
    update_checklist_item(&mut t, 0, None, None, Some(None), None).unwrap();
    assert!(t.checklist[0].context_and_plan.is_none());
}

#[test]
fn reorder_moves_and_moves_back() {
    let mut t = make_task(
        "t",
        vec![
            make_checklist_item("a", false),
            make_checklist_item("b", false),
            make_checklist_item("c", false),
        ],
        None,
    );
    reorder_checklist_item(&mut t, 0, 2).unwrap();
    let names: Vec<&str> = t.checklist.iter().map(|i| i.task.as_str()).collect();
    assert_eq!(names, vec!["b", "c", "a"]);
    reorder_checklist_item(&mut t, 2, 0).unwrap();
    let names: Vec<&str> = t.checklist.iter().map(|i| i.task.as_str()).collect();
    assert_eq!(names, vec!["a", "b", "c"]);
    reorder_checklist_item(&mut t, 0, 3).unwrap();
    let names: Vec<&str> = t.checklist.iter().map(|i| i.task.as_str()).collect();
    assert_eq!(names, vec!["b", "c", "a"]);
    match reorder_checklist_item(&mut t, 5, 0) {
        Err(StoreError::NotFound(m)) => assert_eq!(m, "源索引越界: 5"),
        other => panic!("unexpected {:?}", other),
    }
    match reorder_checklist_item(&mut t, 0, 4) {
        Err(StoreError::NotFound(m)) => assert_eq!(m, "目标索引越界: 4"),
        other => panic!("unexpected {:?}", other),
    }
}

#[test]
fn note_and_resource_add_then_delete() {
    let mut t = make_task("t", vec![], None);
    add_note(&mut t, "笔记一");
    add_note(&mut t, "笔记二");
    delete_note(&mut t, 1).unwrap();
    assert_eq!(t.notes, vec!["笔记一".to_owned()]);
    match delete_note(&mut t, 4) {
        Err(StoreError::NotFound(m)) => assert_eq!(m, "笔记索引 4 越界（共 1 条）"),
        other => panic!("unexpected {:?}", other),
    }
    add_resource(&mut t, "文档", "https://example.com", None);
    assert_eq!(t.resources.len(), 1);
    delete_resource(&mut t, 0).unwrap();
    assert!(t.resources.is_empty());
    match delete_resource(&mut t, 0) {
        Err(StoreError::NotFound(m)) => assert_eq!(m, "资源索引 0 越界（共 0 条）"),
        other => panic!("unexpected {:?}", other),
    }
}

#[test]
fn test_is_valid_uuid() {
    assert!(is_valid_uuid("550e8400-e29b-41d4-a716-446655440000"));
    assert!(is_valid_uuid("00000000-0000-0000-0000-000000000000"));
    assert!(is_valid_uuid("FFFFFFFF-FFFF-FFFF-FFFF-FFFFFFFFFFFF"));
    assert!(!is_valid_uuid("not-a-uuid"));
    assert!(!is_valid_uuid("550e8400-e29b-41d4-a716"));
    assert!(!is_valid_uuid(""));
    assert!(!is_valid_uuid("550e8400-e29b-41d4-a716-44665544000g"));
    assert!(!is_valid_uuid("550e8400_e29b_41d4_a716_446655440000"));
}

#[test]
fn extract_def_name_parses_correctly() {
    assert_eq!(extract_def_name("#/$defs/MyType"), "MyType");
    assert_eq!(extract_def_name("#/definitions/MyType"), "MyType");
    assert_eq!(extract_def_name("#/$defs/NestedType"), "NestedType");
}

#[test]
fn new_task_gets_timestamps_and_id() {
    let t = pinchtask::logic::task::initialize_task("新任务", None, vec![], vec![], vec![], None, None);
    assert!(is_valid_uuid(&t.id));
    assert_eq!(t.created_at, t.updated_at);
    assert!(t.created_at.contains('T'));
    assert!(t.created_at.len() >= 20);
}

fn is_utc_timestamp_text(s: &str) -> bool {
    let b = s.as_bytes();
    b.len() >= 25
        && s.ends_with("+00:00")
        && b[4] == b'-'
        && b[7] == b'-'
        && b[10] == b'T'
        && b[13] == b':'
        && b[16] == b':'
}

#[test]
fn touch_sets_utc_timestamp_and_keeps_the_rest() {
    let mut t = pinchtask::logic::task::initialize_task("task", None, vec![], vec![], vec![], None, None);
    t.updated_at = "stale".to_owned();
    let id = t.id.clone();
    let created = t.created_at.clone();
    pinchtask::logic::task::touch(&mut t);
    assert!(is_utc_timestamp_text(&t.updated_at));
    assert_eq!(t.id, id);
    assert_eq!(t.created_at, created);
    assert_eq!(t.task_description, "task");
}

#[test]
fn touch_project_sets_utc_timestamp_and_keeps_the_rest() {
    let mut p = pinchtask::logic::project::create_project("proj", Some("d"));
    p.updated_at = String::new();
    pinchtask::logic::project::touch_project(&mut p);
    assert!(is_utc_timestamp_text(&p.updated_at));
    assert_eq!(p.name, "proj");
    assert_eq!(p.description.as_deref(), Some("d"));
}

#[test]
fn workspace_search_steps() {
    assert_eq!(search_step(true, true, false), SearchStep::Found);
    assert_eq!(search_step(false, true, true), SearchStep::Stop);
    assert_eq!(search_step(false, false, false), SearchStep::Stop);
    assert_eq!(search_step(false, false, true), SearchStep::Up);
}
