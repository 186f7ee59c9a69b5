use pinchtask::error::StoreError;
use pinchtask::ids::is_valid_uuid;
use pinchtask::logic::resolve::{resolve_project_id, resolve_task_id};
use pinchtask::models::{ChecklistItem, Project, Task};
use pinchtask::server::{
    add_note, clear_task, list_tasks, manage_checklist_item, manage_project, new_task,
    update_task, Change, Reply,
};
use pinchtask::tools::params::{
    Action, AddNoteParams, ClearTaskParams, InitialChecklistItem, InitializeTaskParams,
    ListTasksParams, ManageChecklistItemParams, ManageProjectParams, ProjectAction,
    UpdateTaskParams,
};

fn task(id: &str, desc: &str) -> Task {
    Task {
        id: id.to_owned(),
        task_description: desc.to_owned(),
        context_for_all_tasks: None,
        checklist: vec![ChecklistItem {
            id: "11111111-1111-1111-1111-111111111111".to_owned(),
            task: "第一步".to_owned(),
            detailed_description: "细节".to_owned(),
            context_and_plan: None,
            done: false,
        }],
        notes: vec![],
        resources: vec![],
        metadata: None,
        project_id: None,
        created_at: "2025-01-01T00:00:00Z".to_owned(),
        updated_at: "2025-01-01T00:00:00Z".to_owned(),
    }
}

fn project(id: &str, name: &str) -> Project {
    Project {
        id: id.to_owned(),
        name: name.to_owned(),
        description: None,
        created_at: "2025-01-01T00:00:00Z".to_owned(),
        updated_at: "2025-01-01T00:00:00Z".to_owned(),
    }
}

fn init_params(desc: &str, project_id: Option<&str>) -> InitializeTaskParams {
    InitializeTaskParams {
        task_description: desc.to_owned(),
        context_for_all_tasks: None,
        initial_checklist: Some(vec![InitialChecklistItem {
            task: "步骤".to_owned(),
            detailed_description: "说明".to_owned(),
            context_and_plan: None,
            done: false,
            id: None,
        }]),
        notes: Some(vec!["笔记".to_owned()]),
        resources: None,
        metadata: None,
        project_id: project_id.map(|s| s.to_owned()),
    }
}

#[test]
fn new_task_saves_and_replies_with_it() {
    let o = new_task(init_params("新任务", None), &[]);
    match (&o.change, &o.reply) {
        (Change::SaveTask(t), Reply::Task(r)) => {
            assert_eq!(t.task_description, "新任务");
            assert!(is_valid_uuid(&t.id));
            assert_eq!(t.id, r.id);
            assert_eq!(t.checklist.len(), 1);
            assert!(is_valid_uuid(&t.checklist[0].id));
            assert_eq!(t.notes, vec!["笔记".to_owned()]);
            assert!(t.project_id.is_none());
        }
        other => panic!("unexpected {:?}", other),
    }
}

#[test]
fn new_task_takes_full_project_id_from_prefix() {
    let projects = vec![project("abcd1234-0000-0000-0000-000000000000", "项目")];
    let o = new_task(init_params("t", Some("abcd")), &projects);
    match o.change {
        Change::SaveTask(t) => {
            assert_eq!(t.project_id.as_deref(), Some("abcd1234-0000-0000-0000-000000000000"))
        }
        other => panic!("unexpected {:?}", other),
    }
    let o = new_task(init_params("t", Some("ab")), &projects);
    assert!(matches!(o.change, Change::Unchanged));
    assert!(matches!(o.reply, Reply::Failure(_)));
}

#[test]
fn update_without_fields_fails() {
    let tasks = vec![task("aaaa1111-0000-0000-0000-000000000000", "旧")];
    let p = UpdateTaskParams {
        task_id: "aaaa".to_owned(),
        task_description: None,
        context_for_all_tasks: None,
        priority: None,
        tags: None,
        eta: None,
    };
    let o = update_task(p, &tasks);
    assert!(matches!(o.change, Change::Unchanged));
    match o.reply {
        Reply::Failure(m) => assert!(m.starts_with("至少需要指定一个可修改的字段")),
        other => panic!("unexpected {:?}", other),
    }
}

#[test]
fn update_changes_given_fields_only() {
    let tasks = vec![task("aaaa1111-0000-0000-0000-000000000000", "旧")];
    let p = UpdateTaskParams {
        task_id: "aaaa1111".to_owned(),
        task_description: Some("新".to_owned()),
        context_for_all_tasks: None,
        priority: Some("high".to_owned()),
        tags: Some(" a, ,b ".to_owned()),
        eta: None,
    };
    match update_task(p, &tasks).change {
        Change::SaveTask(t) => {
            assert_eq!(t.task_description, "新");
            assert_eq!(t.checklist.len(), 1);
            let m = t.metadata.expect("metadata");
            assert_eq!(m.priority.as_deref(), Some("high"));
            assert_eq!(m.tags, Some(vec!["a".to_owned(), "b".to_owned()]));
        }
        other => panic!("unexpected {:?}", other),
    }
}

#[test]
fn ambiguous_prefix_is_refused() {
    let tasks = vec![
        task("abcd1111-0000-0000-0000-000000000000", "一"),
        task("abcd2222-0000-0000-0000-000000000000", "二"),
    ];
    let o = add_note(AddNoteParams { task_id: "abcd".to_owned(), content: "n".to_owned() }, &tasks);
    assert!(matches!(o.change, Change::Unchanged));
    match o.reply {
        Reply::Failure(m) => assert!(m.contains("匹配到 2 个任务")),
        other => panic!("unexpected {:?}", other),
    }
}

#[test]
fn checklist_add_requires_task() {
    let tasks = vec![task("aaaa1111-0000-0000-0000-000000000000", "t")];
    let p = ManageChecklistItemParams {
        action: Action::Add,
        task_id: "aaaa".to_owned(),
        task: None,
        detailed_description: Some("d".to_owned()),
        index: None,
        from_index: None,
        to_index: None,
        context_and_plan: None,
        done: None,
    };
    let o = manage_checklist_item(p, &tasks);
    assert!(matches!(o.change, Change::Unchanged));
    match o.reply {
        Reply::InvalidParams(m) => assert_eq!(m, "task is required for add action"),
        other => panic!("unexpected {:?}", other),
    }
}

#[test]
fn checklist_remove_out_of_range_fails() {
    let tasks = vec![task("aaaa1111-0000-0000-0000-000000000000", "t")];
    let p = ManageChecklistItemParams {
        action: Action::Remove,
        task_id: "aaaa".to_owned(),
        task: None,
        detailed_description: None,
        index: Some(5),
        from_index: None,
        to_index: None,
        context_and_plan: None,
        done: None,
    };
    let o = manage_checklist_item(p, &tasks);
    assert!(matches!(o.change, Change::Unchanged));
    assert!(matches!(o.reply, Reply::Failure(_)));
}

#[test]
fn clear_task_deletes_by_full_id() {
    let tasks = vec![task("aaaa1111-0000-0000-0000-000000000000", "t")];
    let o = clear_task(ClearTaskParams { task_id: "aaaa".to_owned() }, &tasks);
    match o.change {
        Change::DeleteTask(id) => assert_eq!(id, "aaaa1111-0000-0000-0000-000000000000"),
        other => panic!("unexpected {:?}", other),
    }
    match o.reply {
        Reply::Text(m) => assert_eq!(m, "任务 aaaa 已删除"),
        other => panic!("unexpected {:?}", other),
    }
}

#[test]
fn list_tasks_replies_with_grouped_list() {
    let tasks = vec![task("aaaa1111-0000-0000-0000-000000000000", "唯一任务")];
    let o = list_tasks(ListTasksParams {}, &tasks);
    assert!(matches!(o.change, Change::Unchanged));
    match o.reply {
        Reply::Text(m) => {
            assert!(m.contains("## 未开始 (1)"));
            assert!(m.contains("唯一任务"));
        }
        other => panic!("unexpected {:?}", other),
    }
}

#[test]
fn project_create_and_delete() {
    let p = ManageProjectParams {
        action: ProjectAction::Create,
        project_id: None,
        name: None,
        description: None,
        delete_tasks: None,
    };
    match manage_project(p, &[]).reply {
        Reply::InvalidParams(m) => assert_eq!(m, "name is required for create action"),
        other => panic!("unexpected {:?}", other),
    }
    let p = ManageProjectParams {
        action: ProjectAction::Create,
        project_id: None,
        name: Some("新项目".to_owned()),
        description: None,
        delete_tasks: None,
    };
    match manage_project(p, &[]).change {
        Change::SaveProject(pr) => {
            assert_eq!(pr.name, "新项目");
            assert!(is_valid_uuid(&pr.id));
        }
        other => panic!("unexpected {:?}", other),
    }
    let projects = vec![project("abcd1234-0000-0000-0000-000000000000", "项目")];
    let p = ManageProjectParams {
        action: ProjectAction::Delete,
        project_id: Some("abcd12".to_owned()),
        name: None,
        description: None,
        delete_tasks: Some(true),
    };
    match manage_project(p, &projects).change {
        Change::DeleteProject { project_id, with_tasks } => {
            assert_eq!(project_id, "abcd1234-0000-0000-0000-000000000000");
            assert!(with_tasks);
        }
        other => panic!("unexpected {:?}", other),
    }
}

#[test]
fn single_match_with_long_cjk_description_resolves() {
    let tasks = vec![task("abcd1111-0000-0000-0000-000000000000", "一二三四五六七八九十一二三四")];
    let r = resolve_task_id("abcd", &tasks, 10);
    assert_eq!(r.unwrap(), "abcd1111-0000-0000-0000-000000000000");
    let o = add_note(AddNoteParams { task_id: "abcd".to_owned(), content: "n".to_owned() }, &tasks);
    match o.change {
        Change::SaveTask(t) => {
            assert_eq!(t.notes.len(), 1);
            assert_eq!(t.notes[0], "n");
        }
        other => panic!("unexpected {:?}", other),
    }
}

#[test]
fn ambiguous_prefix_with_long_cjk_descriptions_lists_cut_candidates() {
    let tasks = vec![
        task("abcd1111-0000-0000-0000-000000000000", "一二三四五六七八九十一二三四"),
        task("abcd2222-0000-0000-0000-000000000000", "一二三四五六七八九十一二三四"),
    ];
    match resolve_task_id("abcd", &tasks, 10) {
        Err(StoreError::AmbiguousTaskId { prefix, count, candidates }) => {
            assert_eq!(prefix, "abcd");
            assert_eq!(count, 2);
            let lines: Vec<&str> = candidates.lines().collect();
            assert_eq!(lines.len(), 2);
            assert_eq!(lines[0], "  abcd1111  一二三四五六七八九十一二三");
            assert!(lines[1].starts_with("  abcd2222  "));
        }
        other => panic!("unexpected {:?}", other),
    }
}

#[test]
fn project_prefix_with_non_ascii_ids_resolves_and_lists() {
    let one = vec![project("项目甲乙丙丁", "甲")];
    assert_eq!(resolve_project_id("项目", &one, 10).unwrap(), "项目甲乙丙丁");
    let two = vec![project("项目甲乙丙丁", "甲"), project("项目乙乙丙丁", "乙")];
    match resolve_project_id("项目", &two, 10) {
        Err(StoreError::AmbiguousProjectId { count, candidates, .. }) => {
            assert_eq!(count, 2);
            assert_eq!(candidates, "  项目  甲\n  项目  乙");
        }
        other => panic!("unexpected {:?}", other),
    }
}

#[test]
fn missing_checklist_parameter_is_found_before_any_task_is_read() {
    let p = ManageChecklistItemParams {
        action: Action::Update,
        task_id: "zzzz".to_owned(),
        task: None,
        detailed_description: None,
        index: None,
        from_index: None,
        to_index: None,
        context_and_plan: None,
        done: None,
    };
    assert_eq!(
        pinchtask::server::checklist_parameter_missing(&p),
        Some("index is required for update action")
    );
    let o = manage_checklist_item(p, &[]);
    match o.reply {
        Reply::InvalidParams(m) => assert_eq!(m, "index is required for update action"),
        other => panic!("unexpected {:?}", other),
    }
}
