use cognito_pilot::error::AppError;
use cognito_pilot::models::{GlobalLogEntry, LogLevel, ProjectStatus, TaskStatus, TaskType};
use cognito_pilot::session::{
    compose_status_text, project_status_name, project_status_text, validate_drafts, CurrentProjectSession, TaskDraft, LOG_CAPACITY,
};

fn entry(i: usize) -> GlobalLogEntry {
    GlobalLogEntry::info("Test".into(), format!("entry {}", i), None, None)
}

fn draft(id: &str, deps: &[&str]) -> TaskDraft {
    TaskDraft {
        id: id.into(),
        parent_id: None,
        description: format!("do {}", id),
        task_type: TaskType::DefineStruct,
        dependencies: deps.iter().map(|d| d.to_string()).collect(),
    }
}

#[test]
fn log_buffer_is_bounded_and_evicts_oldest() {
    let mut s = CurrentProjectSession::default();
    for i in 0..250 {
        s.push_log(entry(i));
        assert!(s.logs.len() <= LOG_CAPACITY);
    }
    assert_eq!(s.logs.len(), 200);
    assert_eq!(s.logs[0].message, "entry 50");
    assert_eq!(s.logs[199].message, "entry 249");
}

#[test]
fn log_buffer_below_capacity_keeps_everything() {
    let mut s = CurrentProjectSession::default();
    for i in 0..3 {
        s.push_log(entry(i));
    }
    assert_eq!(s.logs.len(), 3);
    assert_eq!(s.logs[0].message, "entry 0");
}

#[test]
fn log_entries_carry_level_and_fresh_id() {
    let e = GlobalLogEntry::error("Comp".into(), "bad".into(), Some("T1".into()), None);
    assert_eq!(e.level, LogLevel::Error);
    assert_eq!(e.id.len(), 36);
    assert_eq!(e.task_id, Some("T1".to_string()));
    let i = GlobalLogEntry::info("Comp".into(), "ok".into(), None, None);
    assert_eq!(i.level, LogLevel::Info);
    assert_ne!(i.id, e.id);
}

#[test]
fn initialize_project_clears_state() {
    let mut s = CurrentProjectSession::default();
    s.push_log(entry(1));
    s.status = ProjectStatus::Error("old".into());
    s.initialize_project("/p".into());
    assert_eq!(s.project_path, Some("/p".to_string()));
    assert_eq!(s.status, ProjectStatus::Idle);
    assert!(s.logs.is_empty());
    assert!(s.tasks.is_empty());
}

#[test]
fn start_processing_requires_project() {
    let mut s = CurrentProjectSession::default();
    assert_eq!(s.start_processing_spec("docs/specs/a.md".into()), Err(AppError::Config("No project loaded.".into())));
}

#[test]
fn start_processing_requires_idle_state() {
    let mut s = CurrentProjectSession::default();
    s.initialize_project("/p".into());
    s.status = ProjectStatus::ExecutingTask;
    assert_eq!(
        s.start_processing_spec("docs/specs/a.md".into()),
        Err(AppError::InvalidState {
            current_state: format!("{:?}", ProjectStatus::ExecutingTask),
            expected_state: "Idle/CompletedGoal/Error".into(),
            operation: "start_processing_spec".into(),
        })
    );
    assert_eq!(s.status, ProjectStatus::ExecutingTask);
}

#[test]
fn start_processing_plans() {
    let mut s = CurrentProjectSession::default();
    s.initialize_project("/p".into());
    assert_eq!(s.start_processing_spec("docs/specs/a.md".into()), Ok(()));
    assert_eq!(s.status, ProjectStatus::Planning);
    assert_eq!(s.active_spec_file, Some("docs/specs/a.md".to_string()));
}

#[test]
fn admission_of_valid_batch() {
    let mut s = CurrentProjectSession::default();
    s.initialize_project("/p".into());
    s.status = ProjectStatus::Planning;
    let r = s.admit_decomposition(vec![draft("A", &[]), draft("B", &["A"]), draft("C", &["A", "B"])]);
    assert_eq!(r, Ok(()));
    assert_eq!(s.status, ProjectStatus::ReadyToExecute);
    assert_eq!(s.tasks.len(), 3);
    assert!(s.tasks.iter().all(|t| t.status == TaskStatus::Pending && t.current_attempt_number == 0));
    assert_eq!(s.tasks[2].dependencies, vec!["A".to_string(), "B".to_string()]);
    assert_eq!(s.tasks[1].context_summary, "Awaiting context preparation");
}

#[test]
fn admission_rejects_unknown_dependency_wholesale() {
    let mut s = CurrentProjectSession::default();
    s.initialize_project("/p".into());
    s.status = ProjectStatus::Planning;
    let r = s.admit_decomposition(vec![draft("A", &[]), draft("B", &["Z"])]);
    assert_eq!(r, Err(AppError::TaskDependency { task_id: "B".into(), dependency_id: "Z".into() }));
    assert!(s.tasks.is_empty());
    assert_eq!(s.status, ProjectStatus::Planning);
}

#[test]
fn admission_rejects_duplicate_ids() {
    let r = validate_drafts(&vec![draft("A", &[]), draft("B", &[]), draft("A", &[])]);
    assert_eq!(r, Err(AppError::Operation("Duplicate task id in decomposition: A".into())));
    assert_eq!(validate_drafts(&vec![]), Ok(()));
}

#[test]
fn status_names() {
    assert_eq!(project_status_name(&ProjectStatus::SelfCorrecting("x".into())), "SelfCorrecting");
    assert_eq!(project_status_name(&ProjectStatus::Unloaded), "Unloaded");
}

#[test]
fn admission_rejects_dependency_cycle() {
    let r = validate_drafts(&vec![draft("A", &["B"]), draft("B", &["A"]), draft("C", &[])]);
    assert_eq!(r, Err(AppError::Operation("Dependency cycle in decomposition at task: A".into())));
    let own = validate_drafts(&vec![draft("X", &["X"])]);
    assert_eq!(own, Err(AppError::Operation("Dependency cycle in decomposition at task: X".into())));
}

#[test]
fn admission_reports_task_behind_cycle() {
    let r = validate_drafts(&vec![draft("Z", &[]), draft("D", &["B"]), draft("B", &["C"]), draft("C", &["B"])]);
    assert_eq!(r, Err(AppError::Operation("Dependency cycle in decomposition at task: D".into())));
}

#[test]
fn admission_accepts_dependencies_listed_later() {
    assert_eq!(validate_drafts(&vec![draft("B", &["A"]), draft("C", &["B", "A"]), draft("A", &[])]), Ok(()));
}

#[test]
fn new_session_is_unloaded_and_empty() {
    let s = CurrentProjectSession::new();
    assert_eq!(s.status, ProjectStatus::Unloaded);
    assert!(s.project_path.is_none());
    assert!(s.tasks.is_empty() && s.logs.is_empty() && s.known_crates.is_empty());
    assert!(s.current_task_id_executing.is_none());
}

#[test]
fn invalid_state_names_status_with_its_text() {
    let mut s = CurrentProjectSession::default();
    s.initialize_project("/p".into());
    s.status = ProjectStatus::SelfCorrecting("T1".into());
    let expected = format!("{:?}", s.status);
    assert_eq!(expected, "SelfCorrecting(\"T1\")");
    match s.start_processing_spec("docs/specs/a.md".into()) {
        Err(AppError::InvalidState { current_state, .. }) => assert_eq!(current_state, expected),
        other => panic!("expected an invalid state error, got {:?}", other),
    }
}

#[test]
fn status_text_matches_debug_form() {
    for st in [
        ProjectStatus::AwaitingHumanInput("Task \"T1\" failed.\nNeeds review.".into()),
        ProjectStatus::Error("Loop Error".into()),
        ProjectStatus::SelfCorrecting("T1".into()),
        ProjectStatus::Planning,
        ProjectStatus::CompletedGoal,
    ] {
        assert_eq!(project_status_text(&st), format!("{:?}", st));
    }
    assert_eq!(compose_status_text(&ProjectStatus::Error("x".into()), "<q>"), "Error(<q>)");
    assert_eq!(compose_status_text(&ProjectStatus::Idle, "<q>"), "Idle");
}

#[test]
fn cycle_error_names_task_leading_into_it() {
    let r = validate_drafts(&vec![draft("A", &[]), draft("B", &["A", "C"]), draft("C", &["C"])]);
    assert_eq!(r, Err(AppError::Operation("Dependency cycle in decomposition at task: B".into())));
}
