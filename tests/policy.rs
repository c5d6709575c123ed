use cognito_pilot::models::{
    CoderOutput, ProjectSettings, ProjectStatus, Task, TaskAttempt, TaskStatus, TaskType,
};
use cognito_pilot::policy::{classify_outcome, escalation_prompt, process_coder_output_and_verification};

fn attempt(n: u32) -> TaskAttempt {
    TaskAttempt {
        attempt_number: n,
        code_generated_summary: Some("summary".into()),
        verification_stdout: String::new(),
        verification_stderr: String::new(),
        verification_exit_code: 0,
        llm_error_summary: None,
        coder_notes: None,
    }
}

fn task_with_attempt(counter: u32) -> Task {
    Task {
        id: "T1".into(),
        parent_id: None,
        description: "d".into(),
        task_type: TaskType::WriteUnitTest,
        status: TaskStatus::InProgress,
        context_summary: String::new(),
        dependencies: vec![],
        sub_task_ids: vec![],
        attempts: vec![attempt(counter)],
        current_attempt_number: counter,
        last_coder_output: None,
        human_review_notes: None,
    }
}

fn output(success: bool, error: Option<&str>) -> CoderOutput {
    CoderOutput {
        task_id: "T1".into(),
        changed_files: vec![],
        generated_docs: vec![],
        notes: None,
        success,
        error_message: error.map(String::from),
    }
}

fn budget(n: u32) -> ProjectSettings {
    ProjectSettings { max_self_correction_attempts: n, ..ProjectSettings::default() }
}

#[test]
fn generation_failure_ignores_verification() {
    for code in [0, 1, -3] {
        let mut t = task_with_attempt(0);
        let mut st = ProjectStatus::ExecutingTask;
        let r = process_coder_output_and_verification(
            &mut t,
            output(false, Some("no answer")),
            "out".into(),
            "err".into(),
            code,
            "err",
            &mut st,
            &budget(3),
        );
        assert_eq!(r, TaskStatus::BlockedByError("no answer".into()));
        assert_eq!(st, ProjectStatus::SelfCorrecting("T1".into()));
        assert_eq!(t.attempts[0].llm_error_summary, Some("no answer".into()));
        assert_eq!(t.attempts[0].verification_exit_code, code);
    }
}

#[test]
fn generation_failure_without_message_uses_default() {
    let r = classify_outcome(false, &None, 0, "");
    assert_eq!(r, Some("Coder marked as failed without specific error.".to_string()));
}

#[test]
fn verification_failure_keeps_five_lines() {
    let r = classify_outcome(true, &None, 101, "a\r\nb\nc\nd\ne\nf\ng");
    assert_eq!(r, Some("Verification failed (code 101): a\nb\nc\nd\ne".to_string()));
    let neg = classify_outcome(true, &None, -2, "");
    assert_eq!(neg, Some("Verification failed (code -2): ".to_string()));
    assert_eq!(classify_outcome(true, &None, 0, "warning"), None);
}

#[test]
fn exhausted_budget_fails_task() {
    let mut t = task_with_attempt(2);
    let mut st = ProjectStatus::ExecutingTask;
    let r = process_coder_output_and_verification(
        &mut t,
        output(true, None),
        String::new(),
        "boom".into(),
        1,
        "boom",
        &mut st,
        &budget(2),
    );
    assert_eq!(r, TaskStatus::Failed);
    assert_eq!(st, ProjectStatus::AwaitingHumanInput("Task T1 failed after 3 attempts. Needs review.".into()));
    assert_eq!(t.attempts[0].verification_stderr, "boom");
    assert_eq!(t.attempts[0].code_generated_summary, Some("summary".into()));
}

#[test]
fn zero_budget_fails_first_attempt() {
    let mut t = task_with_attempt(0);
    let mut st = ProjectStatus::ExecutingTask;
    let r = process_coder_output_and_verification(&mut t, output(false, None), String::new(), String::new(), -1, "", &mut st, &budget(0));
    assert_eq!(r, TaskStatus::Failed);
    assert_eq!(st, ProjectStatus::AwaitingHumanInput("Task T1 failed after 1 attempts. Needs review.".into()));
}

#[test]
fn success_leaves_session_status_and_summary() {
    let mut t = task_with_attempt(0);
    let mut st = ProjectStatus::ExecutingTask;
    let r = process_coder_output_and_verification(&mut t, output(true, None), "fine".into(), String::new(), 0, "", &mut st, &budget(1));
    assert_eq!(r, TaskStatus::CompletedSuccess);
    assert_eq!(st, ProjectStatus::ExecutingTask);
    assert_eq!(t.attempts[0].llm_error_summary, None);
    assert_eq!(t.attempts[0].verification_stdout, "fine");
    assert!(t.last_coder_output.as_ref().map(|o| o.success).unwrap_or(false));
}

#[test]
fn policy_decision_is_repeatable() {
    let run = || {
        let mut t = task_with_attempt(0);
        let mut st = ProjectStatus::ExecutingTask;
        let r = process_coder_output_and_verification(&mut t, output(true, None), "o".into(), "e1\ne2".into(), 2, "", &mut st, &budget(1));
        (r, st)
    };
    assert_eq!(run(), run());
}

#[test]
fn task_without_attempt_records_only_output() {
    let mut t = task_with_attempt(0);
    t.attempts.clear();
    let mut st = ProjectStatus::ExecutingTask;
    process_coder_output_and_verification(&mut t, output(true, None), String::new(), String::new(), 0, "", &mut st, &budget(1));
    assert!(t.attempts.is_empty());
    assert!(t.last_coder_output.is_some());
}

#[test]
fn escalation_prompt_text() {
    assert_eq!(escalation_prompt(&"X".to_string(), 12), "Task X failed after 12 attempts. Needs review.");
}
