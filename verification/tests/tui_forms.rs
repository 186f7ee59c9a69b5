use pinchtask::models::{Project, Task};
use pinchtask::tui::app::{
    priority_rank, FocusedPane, FormField, FormMode, InputMode, Overlay, ProjectFormField,
    ProjectFormMode, ProjectFormState, RightPaneView, SortMode, TaskFormState,
};

#[test]
fn form_field_order_completeness() {
    assert_eq!(FormField::ORDER.len(), 5);
}

#[test]
fn form_field_next_cycles() {
    let fields = FormField::ORDER;
    for (i, field) in fields.iter().enumerate() {
        let next = field.next();
        let expected = fields[(i + 1) % fields.len()];
        assert_eq!(next, expected, "FormField::next({i}) 循环错误");
    }
}

#[test]
fn form_field_prev_cycles() {
    let fields = FormField::ORDER;
    for (i, field) in fields.iter().enumerate() {
        let prev = field.prev();
        let expected = if i == 0 { fields[fields.len() - 1] } else { fields[i - 1] };
        assert_eq!(prev, expected, "FormField::prev({i}) 循环错误");
    }
}

#[test]
fn form_field_next_prev_inverse() {
    for field in FormField::ORDER {
        assert_eq!(field.next().prev(), field);
        assert_eq!(field.prev().next(), field);
    }
}

#[test]
fn form_field_labels_non_empty() {
    for field in FormField::ORDER {
        assert!(!field.label().is_empty(), "label 不应为空");
    }
}

#[test]
fn form_field_placeholders_non_empty() {
    for field in FormField::ORDER {
        assert!(!field.placeholder().is_empty(), "placeholder 不应为空");
    }
}

#[test]
fn form_field_next_full_cycle() {
    let start = FormField::Description;
    let mut current = start;
    for _ in 0..5 {
        current = current.next();
    }
    assert_eq!(current, start);
}

#[test]
fn form_field_prev_full_cycle() {
    let start = FormField::Description;
    let mut current = start;
    for _ in 0..5 {
        current = current.prev();
    }
    assert_eq!(current, start);
}

#[test]
fn sort_mode_next_cycles() {
    assert_eq!(SortMode::Created.next(), SortMode::Priority);
    assert_eq!(SortMode::Priority.next(), SortMode::Updated);
    assert_eq!(SortMode::Updated.next(), SortMode::Created);
}

#[test]
fn sort_mode_next_full_cycle() {
    let start = SortMode::Created;
    let mut current = start;
    for _ in 0..3 {
        current = current.next();
    }
    assert_eq!(current, start);
}

#[test]
fn sort_mode_labels() {
    assert_eq!(SortMode::Created.label(), "创建时间");
    assert_eq!(SortMode::Priority.label(), "优先级");
    assert_eq!(SortMode::Updated.label(), "更新时间");
}

#[test]
fn sort_mode_labels_non_empty() {
    let modes = [SortMode::Created, SortMode::Priority, SortMode::Updated];
    for mode in modes {
        assert!(!mode.label().is_empty());
    }
}

#[test]
fn priority_rank_values() {
    assert_eq!(priority_rank(Some("high")), 3);
    assert_eq!(priority_rank(Some("medium")), 2);
    assert_eq!(priority_rank(Some("low")), 1);
    assert_eq!(priority_rank(None), 0);
}

#[test]
fn priority_rank_unknown_string_is_zero() {
    assert_eq!(priority_rank(Some("unknown")), 0);
    assert_eq!(priority_rank(Some("")), 0);
    assert_eq!(priority_rank(Some("HIGH")), 0);
}

#[test]
fn priority_rank_ordering() {
    assert!(priority_rank(Some("high")) > priority_rank(Some("medium")));
    assert!(priority_rank(Some("medium")) > priority_rank(Some("low")));
    assert!(priority_rank(Some("low")) > priority_rank(None));
}

#[test]
fn form_state_new_create_defaults() {
    let form = TaskFormState::new_create();
    assert_eq!(form.mode, FormMode::Create);
    assert!(form.editing_task_id.is_none());
    assert!(form.description.is_empty());
    assert!(form.context.is_empty());
    assert!(form.priority.is_empty());
    assert!(form.tags.is_empty());
    assert!(form.eta.is_empty());
    assert_eq!(form.focused_field, FormField::Description);
    assert!(form.error.is_none());
}

#[test]
fn form_state_validate_empty_description_fails() {
    let form = TaskFormState::new_create();
    let result = form.validate();
    assert!(result.is_err());
    assert_eq!(result.unwrap_err(), "任务描述不能为空");
}

#[test]
fn form_state_validate_whitespace_description_fails() {
    let mut form = TaskFormState::new_create();
    form.description = "   \t  ".to_owned();
    assert!(form.validate().is_err());
}

#[test]
fn form_state_validate_invalid_priority_fails() {
    let mut form = TaskFormState::new_create();
    form.description = "有效描述".to_owned();
    form.priority = "urgent".to_owned();
    let result = form.validate();
    assert!(result.is_err());
    assert_eq!(result.unwrap_err(), "优先级必须是 high / medium / low");
}

#[test]
fn form_state_validate_valid_priorities() {
    for p in &["high", "medium", "low", "High", "MEDIUM", "LOW"] {
        let mut form = TaskFormState::new_create();
        form.description = "有效描述".to_owned();
        form.priority = p.to_string();
        assert!(form.validate().is_ok(), "优先级 '{p}' 应该通过校验");
    }
}

#[test]
fn form_state_validate_empty_priority_ok() {
    let mut form = TaskFormState::new_create();
    form.description = "有效描述".to_owned();
    form.priority = String::new();
    assert!(form.validate().is_ok());
}

#[test]
fn form_state_validate_complete_form_ok() {
    let mut form = TaskFormState::new_create();
    form.description = "测试任务".to_owned();
    form.context = "上下文信息".to_owned();
    form.priority = "high".to_owned();
    form.tags = "bug,urgent".to_owned();
    form.eta = "2025-12-31".to_owned();
    assert!(form.validate().is_ok());
}

#[test]
fn form_state_focused_value_mut_and_get() {
    let mut form = TaskFormState::new_create();
    assert_eq!(form.focused_value(), "");
    form.focused_value_mut().push_str("hello");
    assert_eq!(form.focused_value(), "hello");
    assert_eq!(form.description, "hello");
    form.focused_field = FormField::Context;
    assert_eq!(form.focused_value(), "");
    form.focused_value_mut().push_str("ctx");
    assert_eq!(form.context, "ctx");
    form.focused_field = FormField::Priority;
    form.focused_value_mut().push_str("high");
    assert_eq!(form.priority, "high");
    form.focused_field = FormField::Tags;
    form.focused_value_mut().push_str("v1,bug");
    assert_eq!(form.tags, "v1,bug");
    form.focused_field = FormField::Eta;
    form.focused_value_mut().push_str("2h");
    assert_eq!(form.eta, "2h");
}

#[test]
fn input_mode_variants_distinct() {
    let modes = [
        InputMode::Normal,
        InputMode::AddingItem,
        InputMode::EditingItemName,
        InputMode::EditingItemDesc,
        InputMode::AddingNote,
        InputMode::AddingResourceName,
        InputMode::AddingResourceUrl,
    ];
    for (i, a) in modes.iter().enumerate() {
        for (j, b) in modes.iter().enumerate() {
            if i != j {
                assert_ne!(a, b, "InputMode variants at {i} and {j} should differ");
            }
        }
    }
}

#[test]
fn focused_pane_variants_distinct() {
    assert_ne!(FocusedPane::Left, FocusedPane::Right);
}

#[test]
fn right_pane_view_variants_distinct() {
    let views = [
        RightPaneView::TaskList,
        RightPaneView::TaskDetail,
        RightPaneView::TaskForm,
        RightPaneView::Help,
    ];
    for (i, a) in views.iter().enumerate() {
        for (j, b) in views.iter().enumerate() {
            if i != j {
                assert_ne!(a, b, "RightPaneView variants at {i} and {j} should differ");
            }
        }
    }
}

#[test]
fn overlay_variants_distinct() {
    let overlays = [
        Overlay::Closed,
        Overlay::ProjectForm(ProjectFormMode::Create),
        Overlay::ProjectForm(ProjectFormMode::Edit),
        Overlay::DeleteProject,
        Overlay::DeleteTask,
        Overlay::DeleteNote,
        Overlay::Input(InputMode::Normal),
        Overlay::Input(InputMode::AddingItem),
    ];
    for (i, a) in overlays.iter().enumerate() {
        for (j, b) in overlays.iter().enumerate() {
            if i != j {
                assert_ne!(a, b, "Overlay variants at {i} and {j} should differ");
            }
        }
    }
}

// ── additional cases ────────────────────────────────────────────────────

#[test]
fn form_state_new_edit_prefills_fields() {
    let task = Task {
        id: "abcd1234-0000-0000-0000-000000000000".to_owned(),
        task_description: "描述".to_owned(),
        context_for_all_tasks: Some("上下文".to_owned()),
        checklist: vec![],
        notes: vec![],
        resources: vec![],
        metadata: Some(pinchtask::models::TaskMetadata {
            tags: Some(vec!["a".to_owned(), "b".to_owned()]),
            priority: Some("low".to_owned()),
            estimated_completion_time: Some("2h".to_owned()),
        }),
        project_id: None,
        created_at: "2025-01-01T00:00:00Z".to_owned(),
        updated_at: "2025-01-01T00:00:00Z".to_owned(),
    };
    let form = TaskFormState::new_edit(&task);
    assert_eq!(form.mode, FormMode::Edit);
    assert_eq!(form.editing_task_id.as_deref(), Some("abcd1234-0000-0000-0000-000000000000"));
    assert_eq!(form.context, "上下文");
    assert_eq!(form.priority, "low");
    assert_eq!(form.tags, "a, b");
    assert_eq!(form.eta, "2h");
}

#[test]
fn form_state_validate_priority_with_spaces_ok() {
    let mut form = TaskFormState::new_create();
    form.description = "x".to_owned();
    form.priority = "  Medium ".to_owned();
    assert!(form.validate().is_ok());
    form.priority = "   ".to_owned();
    assert_eq!(form.validate().unwrap_err(), "优先级必须是 high / medium / low");
}

#[test]
fn project_form_state_defaults_and_validate() {
    let mut form = ProjectFormState::new_create();
    assert_eq!(form.focused_field, ProjectFormField::Name);
    assert_eq!(form.validate().unwrap_err(), "项目名称不能为空");
    form.focused_value_mut().push_str("项目");
    assert_eq!(form.name, "项目");
    assert!(form.validate().is_ok());
    assert_eq!(ProjectFormField::Name.next(), ProjectFormField::Description);
    assert_eq!(ProjectFormField::Description.prev(), ProjectFormField::Name);
    let project = Project {
        id: "p1".to_owned(),
        name: "n".to_owned(),
        description: None,
        created_at: String::new(),
        updated_at: String::new(),
    };
    let edit = ProjectFormState::new_edit(&project);
    assert_eq!(edit.description, "");
    assert_eq!(edit.editing_project_id.as_deref(), Some("p1"));
}
