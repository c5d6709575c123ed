use cognito_pilot::models::{
    CoderOutput, GitCommitStrategy, ProjectSettings, ProjectStatus, Task, TaskStatus, TaskType,
};
use cognito_pilot::orchestrator::{begin_iteration, commit_message, merge_task_result, record_context_summary};
use cognito_pilot::pipeline::VerificationRun;
use cognito_pilot::policy::process_coder_output_and_verification;
use cognito_pilot::selector::{select_for_session, select_next_task};
use cognito_pilot::session::CurrentProjectSession;

fn task(id: &str, deps: &[&str], status: TaskStatus) -> Task {
    Task {
        id: id.to_string(),
        parent_id: None,
        description: format!("work for {}", id),
        task_type: TaskType::ImplementFunction,
        status,
        context_summary: String::new(),
        dependencies: deps.iter().map(|d| d.to_string()).collect(),
        sub_task_ids: vec![],
        attempts: vec![],
        current_attempt_number: 0,
        last_coder_output: None,
        human_review_notes: None,
    }
}

fn settings(budget: u32) -> ProjectSettings {
    ProjectSettings { max_self_correction_attempts: budget, ..ProjectSettings::default() }
}

fn session_with(tasks: Vec<Task>) -> CurrentProjectSession {
    CurrentProjectSession {
        project_path: Some("/work/demo".to_string()),
        status: ProjectStatus::ReadyToExecute,
        tasks,
        ..CurrentProjectSession::default()
    }
}

fn output(task_id: &str, success: bool, error: Option<&str>) -> CoderOutput {
    CoderOutput {
        task_id: task_id.to_string(),
        changed_files: vec![],
        generated_docs: vec![],
        notes: None,
        success,
        error_message: error.map(|e| e.to_string()),
    }
}

/// Runs one failing generation attempt through the loop steps.
fn failing_iteration(session: &mut CurrentProjectSession, s: &ProjectSettings) -> TaskStatus {
    let mut t = begin_iteration(session, s).unwrap().expect("a task is dispatched");
    let mut follow = ProjectStatus::ExecutingTask;
    let status = process_coder_output_and_verification(
        &mut t,
        output("T1", false, Some("model unavailable")),
        String::new(),
        String::new(),
        -1,
        "",
        &mut follow,
        s,
    );
    merge_task_result(session, t, status.clone(), follow, s);
    status
}

#[test]
fn scenario_verification_failure_starts_self_correction() {
    let s = settings(2);
    let mut session = session_with(vec![task("T1", &[], TaskStatus::Pending)]);
    assert_eq!(select_next_task(&session.tasks), Some(0));

    let mut t = begin_iteration(&mut session, &s).unwrap().expect("T1 is dispatched");
    assert_eq!(t.id, "T1");
    assert_eq!(session.status, ProjectStatus::ExecutingTask);
    assert_eq!(session.current_task_id_executing, Some("T1".to_string()));

    let mut run = VerificationRun::new(vec!["build".to_string(), "test".to_string()]);
    assert_eq!(run.next_stage().map(|x| x.as_str()), Some("build"));
    run.record_stage_result("compiled\n", "", 0);
    assert_eq!(run.next_stage().map(|x| x.as_str()), Some("test"));
    run.record_stage_result("running\n", "line1\nline2\nline3\nline4\nline5\nline6\n", 1);
    assert!(run.next_stage().is_none());
    assert_eq!(run.last_exit_code, 1);

    let mut follow = ProjectStatus::ExecutingTask;
    let status = process_coder_output_and_verification(
        &mut t,
        output("T1", true, None),
        run.combined_stdout.clone(),
        run.combined_stderr.clone(),
        run.last_exit_code,
        &run.last_stderr,
        &mut follow,
        &s,
    );
    assert_eq!(
        status,
        TaskStatus::BlockedByError("Verification failed (code 1): line1\nline2\nline3\nline4\nline5".to_string())
    );
    assert_eq!(follow, ProjectStatus::SelfCorrecting("T1".to_string()));
    let effects = merge_task_result(&mut session, t, status.clone(), follow, &s);
    assert!(!effects.commit);
    assert!(!effects.refresh_index);
    assert_eq!(session.status, ProjectStatus::SelfCorrecting("T1".to_string()));
    assert_eq!(session.tasks[0].status, status);
    assert_eq!(session.tasks[0].attempts.len(), 1);
    assert_eq!(session.tasks[0].attempts[0].verification_exit_code, 1);
    assert!(session.tasks[0].attempts[0].verification_stderr.contains("--- TEST STDERR ---\nline1"));
    assert_eq!(session.current_task_id_executing, None);
}

#[test]
fn scenario_insertion_order_with_completed_dependency() {
    let tasks = vec![
        task("T1", &[], TaskStatus::CompletedSuccess),
        task("T2", &["T1"], TaskStatus::Pending),
        task("T3", &[], TaskStatus::Pending),
    ];
    assert_eq!(select_next_task(&tasks), Some(1));

    let blocked = vec![
        task("T1", &[], TaskStatus::InProgress),
        task("T2", &["T1"], TaskStatus::Pending),
        task("T3", &[], TaskStatus::Pending),
    ];
    assert_eq!(select_next_task(&blocked), Some(2));
}

#[test]
fn scenario_budget_of_one_escalates_after_two_failures() {
    let s = settings(1);
    let mut session = session_with(vec![task("T1", &[], TaskStatus::Pending)]);

    let first = failing_iteration(&mut session, &s);
    assert_eq!(first, TaskStatus::BlockedByError("model unavailable".to_string()));
    assert_eq!(session.status, ProjectStatus::SelfCorrecting("T1".to_string()));

    let second = failing_iteration(&mut session, &s);
    assert_eq!(second, TaskStatus::Failed);
    assert_eq!(
        session.status,
        ProjectStatus::AwaitingHumanInput("Task T1 failed after 2 attempts. Needs review.".to_string())
    );
    assert_eq!(session.tasks[0].status, TaskStatus::Failed);
    assert_eq!(session.tasks[0].attempts.len(), 2);
    assert_eq!(session.tasks[0].current_attempt_number, 1);

    // The escalated session dispatches nothing more.
    assert!(begin_iteration(&mut session, &s).unwrap().is_none());
    assert_eq!(session.tasks[0].attempts.len(), 2);
}

#[test]
fn scenario_human_response_makes_task_selectable() {
    let mut session = session_with(vec![task("T1", &[], TaskStatus::Failed)]);
    session.status = ProjectStatus::AwaitingHumanInput("Task T1 failed after 2 attempts. Needs review.".to_string());
    assert_eq!(select_for_session(&session, 3), None);

    session.submit_human_response(&"T1".to_string(), "try a smaller change".to_string());
    assert_eq!(session.tasks[0].status, TaskStatus::Pending);
    assert_eq!(session.tasks[0].human_review_notes, Some("try a smaller change".to_string()));
    assert_eq!(session.status, ProjectStatus::ReadyToExecute);
    assert_eq!(select_for_session(&session, 3), Some(0));
}

#[test]
fn human_response_resets_clarification_but_not_completed_task() {
    let mut session = session_with(vec![
        task("A", &[], TaskStatus::AwaitingHumanClarification),
        task("B", &[], TaskStatus::CompletedSuccess),
    ]);
    session.submit_human_response(&"A".to_string(), "yes".to_string());
    session.submit_human_response(&"B".to_string(), "fine".to_string());
    session.submit_human_response(&"missing".to_string(), "ignored".to_string());
    assert_eq!(session.tasks[0].status, TaskStatus::Pending);
    assert_eq!(session.tasks[1].status, TaskStatus::CompletedSuccess);
    assert_eq!(session.tasks[1].human_review_notes, Some("fine".to_string()));
    assert_eq!(session.status, ProjectStatus::ReadyToExecute);
}

#[test]
fn successful_task_completes_goal_and_asks_for_commit() {
    let mut s = settings(1);
    s.git_commit_strategy = GitCommitStrategy::PerTask;
    let mut session = session_with(vec![task("T1", &[], TaskStatus::Pending)]);
    let mut t = begin_iteration(&mut session, &s).unwrap().unwrap();
    let mut follow = ProjectStatus::ExecutingTask;
    let status =
        process_coder_output_and_verification(&mut t, output("T1", true, None), "ok".into(), String::new(), 0, "", &mut follow, &s);
    assert_eq!(status, TaskStatus::CompletedSuccess);
    assert_eq!(follow, ProjectStatus::ExecutingTask);
    let effects = merge_task_result(&mut session, t, status, follow, &s);
    assert!(effects.commit);
    assert!(effects.refresh_index);
    assert_eq!(session.status, ProjectStatus::ReadyToExecute);
    assert!(begin_iteration(&mut session, &s).unwrap().is_none());
    assert_eq!(session.status, ProjectStatus::CompletedGoal);
}

#[test]
fn manual_commit_strategy_asks_for_no_commit() {
    let mut s = settings(0);
    s.git_commit_strategy = GitCommitStrategy::Manual;
    let mut session = session_with(vec![task("T1", &[], TaskStatus::Pending)]);
    let t = begin_iteration(&mut session, &s).unwrap().unwrap();
    let effects = merge_task_result(&mut session, t, TaskStatus::CompletedSuccess, ProjectStatus::ExecutingTask, &s);
    assert!(!effects.commit);
    assert!(effects.refresh_index);
}

#[test]
fn no_runnable_task_leaves_session_idle() {
    let s = settings(1);
    let mut session = session_with(vec![task("T1", &["T0"], TaskStatus::Pending)]);
    assert!(begin_iteration(&mut session, &s).unwrap().is_none());
    assert_eq!(session.status, ProjectStatus::Idle);
}

#[test]
fn loop_without_project_path_is_an_error() {
    let s = settings(1);
    let mut session = session_with(vec![task("T1", &[], TaskStatus::Pending)]);
    session.project_path = None;
    assert!(begin_iteration(&mut session, &s).is_err());
    assert_eq!(session.status, ProjectStatus::Error("Project path not set in loop".to_string()));
}

#[test]
fn busy_session_dispatches_nothing() {
    let s = settings(1);
    let mut session = session_with(vec![task("T1", &[], TaskStatus::Pending)]);
    session.status = ProjectStatus::Planning;
    assert!(begin_iteration(&mut session, &s).unwrap().is_none());
    assert_eq!(session.status, ProjectStatus::Planning);
    assert_eq!(session.tasks[0].status, TaskStatus::Pending);
}

#[test]
fn self_correction_with_exhausted_counter_escalates() {
    let s = settings(1);
    let mut t = task("T1", &[], TaskStatus::BlockedByError("x".into()));
    t.current_attempt_number = 1;
    let mut session = session_with(vec![t]);
    session.status = ProjectStatus::SelfCorrecting("T1".to_string());
    assert_eq!(select_for_session(&session, 1), None);
    assert!(begin_iteration(&mut session, &s).unwrap().is_none());
    assert_eq!(
        session.status,
        ProjectStatus::AwaitingHumanInput("Task T1 failed self-correction.".to_string())
    );
}

#[test]
fn retry_dispatch_advances_counter() {
    let s = settings(3);
    let mut session = session_with(vec![
        task("T0", &[], TaskStatus::Pending),
        task("T1", &[], TaskStatus::BlockedByError("x".into())),
    ]);
    session.status = ProjectStatus::SelfCorrecting("T1".to_string());
    let t = begin_iteration(&mut session, &s).unwrap().unwrap();
    assert_eq!(t.id, "T1");
    assert_eq!(t.current_attempt_number, 1);
    assert_eq!(t.status, TaskStatus::InProgress);
    assert_eq!(t.attempts.len(), 1);
    assert_eq!(t.attempts[0].attempt_number, 1);
    assert_eq!(session.tasks[1].current_attempt_number, 1);
    assert_eq!(session.tasks[0].status, TaskStatus::Pending);
}

#[test]
fn commit_message_keeps_fifty_characters() {
    let mut t = task("T9", &[], TaskStatus::CompletedSuccess);
    t.description = "a".repeat(60);
    assert_eq!(commit_message(&t), format!("AI: Task T9 - {} completed.", "a".repeat(50)));
    t.description = "short".to_string();
    assert_eq!(commit_message(&t), "AI: Task T9 - short completed.");
}

#[test]
fn budget_of_three_fails_on_fourth_attempt() {
    let s = settings(3);
    let mut session = session_with(vec![task("T1", &[], TaskStatus::Pending)]);
    for attempt in 0..3u32 {
        let status = failing_iteration(&mut session, &s);
        assert_eq!(status, TaskStatus::BlockedByError("model unavailable".to_string()));
        assert_eq!(session.status, ProjectStatus::SelfCorrecting("T1".to_string()));
        assert_eq!(session.tasks[0].current_attempt_number, attempt);
    }
    assert_eq!(failing_iteration(&mut session, &s), TaskStatus::Failed);
    assert_eq!(
        session.status,
        ProjectStatus::AwaitingHumanInput("Task T1 failed after 4 attempts. Needs review.".to_string())
    );
    assert_eq!(session.tasks[0].attempts.len(), 4);
    assert!(begin_iteration(&mut session, &s).unwrap().is_none());
}

#[test]
fn context_summary_is_recorded_on_the_task() {
    let mut session = session_with(vec![task("T1", &[], TaskStatus::Pending), task("T2", &[], TaskStatus::Pending)]);
    record_context_summary(&mut session, &"T2".to_string(), 1500, 0);
    assert_eq!(session.tasks[1].context_summary, "Code Ctx: 1500 chars, Crate Docs: 0 chars");
    assert_eq!(session.tasks[0].context_summary, "");
    record_context_summary(&mut session, &"T9".to_string(), 1, 1);
    assert_eq!(session.tasks[0].context_summary, "");
}
