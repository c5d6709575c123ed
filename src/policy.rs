//! The self-correction policy: from a generation and verification outcome,
//! the task's next status and the session's follow-up.

use vstd::prelude::*;
use crate::models::{CoderOutput, ProjectSettings, ProjectStatus, Task, TaskAttempt, TaskStatus};
use crate::text::{first_lines, int_text, leading_lines, nat_digits, push_decimal, push_signed_decimal};

verus! {

/// How many lines of the verification error output a blocked status keeps.
pub const STDERR_LINES_KEPT: usize = 5;

/// Why a generation step that reported failure failed.
pub open spec fn generation_failure_reason(error_message: Option<String>) -> Seq<char> {
    match error_message {
        Some(m) => m@,
        None => "Coder marked as failed without specific error."@,
    }
}

/// Why a verification run that exited with `exit_code` failed.
pub open spec fn verification_failure_reason(exit_code: i32, stderr: Seq<char>) -> Seq<char> {
    "Verification failed (code "@ + int_text(exit_code as int) + "): "@ + leading_lines(
        stderr,
        STDERR_LINES_KEPT as nat,
    )
}

/// The reason an attempt failed, or `None` when it succeeded.
pub open spec fn failure_reason(
    success: bool,
    error_message: Option<String>,
    exit_code: i32,
    stderr: Seq<char>,
) -> Option<Seq<char>> {
    if !success {
        Some(generation_failure_reason(error_message))
    } else if exit_code != 0 {
        Some(verification_failure_reason(exit_code, stderr))
    } else {
        None
    }
}

/// A further automatic retry is allowed.
pub open spec fn retry_permitted(retries_so_far: u32, max_attempts: u32) -> bool {
    retries_so_far < max_attempts
}

/// The prompt handed to the operator when a task exhausts its retries.
pub open spec fn escalation_message(task_id: Seq<char>, attempts_made: nat) -> Seq<char> {
    "Task "@ + task_id + " failed after "@ + nat_digits(attempts_made) + " attempts. Needs review."@
}

/// `s` is `BlockedByError` with the reason `m`.
pub open spec fn is_blocked_with(s: TaskStatus, m: Seq<char>) -> bool {
    match s {
        TaskStatus::BlockedByError(r) => r@ == m,
        _ => false,
    }
}

/// `s` is `SelfCorrecting` for the task `id`.
pub open spec fn is_self_correcting_for(s: ProjectStatus, id: Seq<char>) -> bool {
    match s {
        ProjectStatus::SelfCorrecting(t) => t@ == id,
        _ => false,
    }
}

/// `s` is `AwaitingHumanInput` with the prompt `m`.
pub open spec fn is_awaiting_with(s: ProjectStatus, m: Seq<char>) -> bool {
    match s {
        ProjectStatus::AwaitingHumanInput(p) => p@ == m,
        _ => false,
    }
}

/// The task status the policy gives, stated over the failure reason.
pub open spec fn policy_status(reason: Option<Seq<char>>, retries_so_far: u32, max_attempts: u32, s: TaskStatus) -> bool {
    match reason {
        None => s is CompletedSuccess,
        Some(m) => if retry_permitted(retries_so_far, max_attempts) {
            is_blocked_with(s, m)
        } else {
            s is Failed
        },
    }
}

/// The session status the policy leaves, stated over the failure reason.
pub open spec fn policy_session(
    reason: Option<Seq<char>>,
    task_id: Seq<char>,
    retries_so_far: u32,
    max_attempts: u32,
    before: ProjectStatus,
    after: ProjectStatus,
) -> bool {
    match reason {
        None => after == before,
        Some(_) => if retry_permitted(retries_so_far, max_attempts) {
            is_self_correcting_for(after, task_id)
        } else {
            is_awaiting_with(after, escalation_message(task_id, retries_so_far as nat + 1))
        },
    }
}

/// The attempt record `a` after verification, from the record `b` before it.
pub open spec fn attempt_filled(
    b: TaskAttempt,
    a: TaskAttempt,
    stdout: Seq<char>,
    stderr: Seq<char>,
    exit_code: i32,
    reason: Option<Seq<char>>,
) -> bool {
    &&& a.attempt_number == b.attempt_number
    &&& a.code_generated_summary == b.code_generated_summary
    &&& a.coder_notes == b.coder_notes
    &&& a.verification_stdout@ == stdout
    &&& a.verification_stderr@ == stderr
    &&& a.verification_exit_code == exit_code
    &&& match reason {
        None => a.llm_error_summary == b.llm_error_summary,
        Some(m) => a.llm_error_summary is Some && a.llm_error_summary->Some_0@ == m,
    }
}

/// Every field of the task but its attempts and last generated output is the same.
pub open spec fn same_but_outcome(a: Task, b: Task) -> bool {
    &&& a.id == b.id
    &&& a.parent_id == b.parent_id
    &&& a.description == b.description
    &&& a.task_type == b.task_type
    &&& a.status == b.status
    &&& a.context_summary == b.context_summary
    &&& a.dependencies@ == b.dependencies@
    &&& a.sub_task_ids@ == b.sub_task_ids@
    &&& a.current_attempt_number == b.current_attempt_number
    &&& a.human_review_notes == b.human_review_notes
}

/// The task after the policy recorded an outcome: the last attempt (if any)
/// holds the verification result and the error summary, and the generated
/// output is kept; nothing else changes.
pub open spec fn outcome_recorded(
    before: Task,
    after: Task,
    output: CoderOutput,
    stdout: Seq<char>,
    stderr: Seq<char>,
    exit_code: i32,
    reason: Option<Seq<char>>,
) -> bool {
    let n = before.attempts@.len();
    &&& same_but_outcome(before, after)
    &&& after.last_coder_output == Some(output)
    &&& after.attempts@.len() == n
    &&& forall|i: int| 0 <= i < n - 1 ==> #[trigger] after.attempts@[i] == before.attempts@[i]
    &&& n > 0 ==> attempt_filled(before.attempts@[n - 1], after.attempts@[n - 1], stdout, stderr, exit_code, reason)
}

/// The reason text of a failed attempt, or `None` when it succeeded.
pub fn classify_outcome(
    success: bool,
    error_message: &Option<String>,
    verification_exit_code: i32,
    verification_stderr: &str,
) -> (r: Option<String>)
    ensures
        match r {
            Some(m) => failure_reason(success, *error_message, verification_exit_code, verification_stderr@) == Some(m@),
            None => failure_reason(success, *error_message, verification_exit_code, verification_stderr@) is None,
        },
{
    if !success {
        match error_message {
            Some(m) => Some(m.clone()),
            None => Some(String::from_str("Coder marked as failed without specific error.")),
        }
    } else if verification_exit_code != 0 {
        let mut m = String::from_str("Verification failed (code ");
        push_signed_decimal(&mut m, verification_exit_code as i64);
        m.append("): ");
        let lines = first_lines(verification_stderr, STDERR_LINES_KEPT);
        m.append(lines.as_str());
        Some(m)
    } else {
        None
    }
}

/// The operator prompt for a task that failed after `attempts_made` attempts.
pub fn escalation_prompt(task_id: &String, attempts_made: u64) -> (r: String)
    ensures
        r@ == escalation_message(task_id@, attempts_made as nat),
{
    let mut m = String::from_str("Task ");
    m.append(task_id.as_str());
    m.append(" failed after ");
    push_decimal(&mut m, attempts_made);
    m.append(" attempts. Needs review.");
    m
}

/// Writes the verification result into the last attempt record of `task`.
fn record_verification(
    task: &mut Task,
    stdout: String,
    stderr: String,
    exit_code: i32,
    reason: &Option<String>,
)
    ensures
        same_but_outcome(*old(task), *final(task)),
        final(task).last_coder_output == old(task).last_coder_output,
        final(task).attempts@.len() == old(task).attempts@.len(),
        forall|i: int| 0 <= i < old(task).attempts@.len() - 1 ==> #[trigger] final(task).attempts@[i] == old(task).attempts@[i],
        old(task).attempts@.len() > 0 ==> attempt_filled(
            old(task).attempts@[old(task).attempts@.len() - 1],
            final(task).attempts@[old(task).attempts@.len() - 1],
            stdout@,
            stderr@,
            exit_code,
            match reason { Some(m) => Some(m@), None => None },
        ),
{
    match task.attempts.pop() {
        Some(last) => {
            let summary = match reason {
                Some(m) => Some(m.clone()),
                None => last.llm_error_summary,
            };
            let filled = TaskAttempt {
                attempt_number: last.attempt_number,
                code_generated_summary: last.code_generated_summary,
                verification_stdout: stdout,
                verification_stderr: stderr,
                verification_exit_code: exit_code,
                llm_error_summary: summary,
                coder_notes: last.coder_notes,
            };
            task.attempts.push(filled);
        },
        None => {},
    }
}

/// Applies the self-correction policy to one finished attempt of `task`.
///
/// The attempt failed when generation reported failure (verification is then
/// ignored) or when verification exited non-zero; the reason then quotes the
/// first lines of `failed_stage_stderr`, the error output of the stage that
/// failed. A failed attempt leaves the
/// task blocked and the session self-correcting it while its retry counter is
/// under the configured budget; once the budget is spent the task is failed
/// and the session waits for the operator. A successful attempt completes the
/// task and leaves the session status as it was. The last attempt record of
/// the task receives the verification result and the failure reason.
pub fn process_coder_output_and_verification(
    task: &mut Task,
    coder_output: CoderOutput,
    verification_stdout: String,
    verification_stderr: String,
    verification_exit_code: i32,
    failed_stage_stderr: &str,
    project_status: &mut ProjectStatus,
    settings: &ProjectSettings,
) -> (r: TaskStatus)
    ensures
        ({
            let reason = failure_reason(
                coder_output.success,
                coder_output.error_message,
                verification_exit_code,
                failed_stage_stderr@,
            );
            &&& policy_status(reason, old(task).current_attempt_number, settings.max_self_correction_attempts, r)
            &&& policy_session(
                reason,
                old(task).id@,
                old(task).current_attempt_number,
                settings.max_self_correction_attempts,
                *old(project_status),
                *final(project_status),
            )
            &&& outcome_recorded(
                *old(task),
                *final(task),
                coder_output,
                verification_stdout@,
                verification_stderr@,
                verification_exit_code,
                reason,
            )
        }),
{
    let reason = classify_outcome(
        coder_output.success,
        &coder_output.error_message,
        verification_exit_code,
        failed_stage_stderr,
    );
    record_verification(task, verification_stdout, verification_stderr, verification_exit_code, &reason);
    task.last_coder_output = Some(coder_output);
    match reason {
        None => TaskStatus::CompletedSuccess,
        Some(m) => {
            if task.current_attempt_number < settings.max_self_correction_attempts {
                *project_status = ProjectStatus::SelfCorrecting(task.id.clone());
                TaskStatus::BlockedByError(m)
            } else {
                let attempts_made = task.current_attempt_number as u64 + 1;
                *project_status = ProjectStatus::AwaitingHumanInput(escalation_prompt(&task.id, attempts_made));
                TaskStatus::Failed
            }
        },
    }
}

} // verus!
