//! The per-iteration decisions of the orchestration loop.
//!
//! One iteration: under the session lock, `begin_iteration` selects a task,
//! begins its attempt and hands out a detached copy; the caller then prepares
//! context, generates code, applies it and runs the verification pipeline
//! without the lock, and applies the self-correction policy to the copy;
//! finally, under the lock again, `merge_task_result` writes the outcome back.

use vstd::prelude::*;
use crate::error::AppError;
use crate::models::{GitCommitStrategy, ProjectSettings, ProjectStatus, Task, TaskAttempt, TaskStatus};
use crate::text::{nat_digits, push_decimal};
use crate::selector::{is_eligible, is_retry_candidate, select_for_session, session_pick};
use crate::session::{
    choose_first_with_id, find_task_index, lemma_first_with_id_unique, lemma_same_graph_keeps_shape, CurrentProjectSession,
};

verus! {

/// A session status in which the loop may dispatch a task.
pub open spec fn loop_may_dispatch(s: ProjectStatus) -> bool {
    s is ReadyToExecute || s is SelfCorrecting || s is Idle || s is CompletedGoal
}

/// Every task has completed successfully.
pub open spec fn all_completed(tasks: Seq<Task>) -> bool {
    forall|i: int| 0 <= i < tasks.len() ==> #[trigger] tasks[i].status is CompletedSuccess
}

/// The task the session would run next, as the selector picks it.
pub open spec fn chosen_pick(tasks: Seq<Task>, status: ProjectStatus, max_attempts: u32) -> Option<usize> {
    if exists|r: Option<usize>| session_pick(tasks, status, max_attempts, r) {
        choose|r: Option<usize>| session_pick(tasks, status, max_attempts, r)
    } else {
        None
    }
}

/// The selector's pick is determined by the session.
pub proof fn lemma_pick_unique(tasks: Seq<Task>, status: ProjectStatus, max_attempts: u32, r: Option<usize>)
    requires
        session_pick(tasks, status, max_attempts, r),
    ensures
        chosen_pick(tasks, status, max_attempts) == r,
{
    let c = chosen_pick(tasks, status, max_attempts);
    assert(session_pick(tasks, status, max_attempts, c));
    match status {
        ProjectStatus::SelfCorrecting(id) => {
            match (c, r) {
                (Some(x), Some(y)) => {
                    if x < y {
                        assert(!is_retry_candidate(tasks, x as int, id@, max_attempts));
                    } else if y < x {
                        assert(!is_retry_candidate(tasks, y as int, id@, max_attempts));
                    }
                },
                (Some(x), None) => {
                    assert(!is_retry_candidate(tasks, x as int, id@, max_attempts));
                },
                (None, Some(y)) => {
                    assert(!is_retry_candidate(tasks, y as int, id@, max_attempts));
                },
                (None, None) => {},
            }
        },
        _ => {
            match (c, r) {
                (Some(x), Some(y)) => {
                    if x < y {
                        assert(!is_eligible(tasks, x as int));
                    } else if y < x {
                        assert(!is_eligible(tasks, y as int));
                    }
                },
                (Some(x), None) => {
                    assert(!is_eligible(tasks, x as int));
                },
                (None, Some(y)) => {
                    assert(!is_eligible(tasks, y as int));
                },
                (None, None) => {},
            }
        },
    }
}

/// `a` is the empty record of attempt number `n`.
pub open spec fn is_fresh_attempt(a: TaskAttempt, n: u32) -> bool {
    &&& a.attempt_number == n
    &&& a.code_generated_summary is None
    &&& a.verification_stdout@.len() == 0
    &&& a.verification_stderr@.len() == 0
    &&& a.verification_exit_code == 0
    &&& a.llm_error_summary is None
    &&& a.coder_notes is None
}

/// The retry counter of a task dispatched from `before`: one more for a
/// self-correction retry, unchanged otherwise.
pub open spec fn dispatch_counter(before: Task, retry: bool) -> int {
    if retry {
        before.current_attempt_number + 1
    } else {
        before.current_attempt_number as int
    }
}

/// `after` is `before` dispatched for a new attempt: in progress, with a fresh
/// attempt record appended and, for a retry, its counter advanced by one.
pub open spec fn dispatched(before: Task, after: Task, retry: bool) -> bool {
    &&& after.current_attempt_number == dispatch_counter(before, retry)
    &&& after.status is InProgress
    &&& after.attempts@.len() == before.attempts@.len() + 1
    &&& after.attempts@.drop_last() == before.attempts@
    &&& is_fresh_attempt(after.attempts@.last(), after.current_attempt_number)
    &&& after.id == before.id
    &&& after.parent_id == before.parent_id
    &&& after.description == before.description
    &&& after.task_type == before.task_type
    &&& after.context_summary == before.context_summary
    &&& after.dependencies == before.dependencies
    &&& after.sub_task_ids == before.sub_task_ids
    &&& after.last_coder_output == before.last_coder_output
    &&& after.human_review_notes == before.human_review_notes
}

/// The session status when the loop finds nothing to run.
pub open spec fn idle_status(tasks: Seq<Task>, before: ProjectStatus, after: ProjectStatus) -> bool {
    match before {
        ProjectStatus::SelfCorrecting(id) => match after {
            ProjectStatus::AwaitingHumanInput(m) => m@ == "Task "@ + id@ + " failed self-correction."@,
            _ => false,
        },
        _ => if all_completed(tasks) {
            after is CompletedGoal
        } else {
            after is Idle
        },
    }
}

/// The outcome of an iteration start in a session that may dispatch.
pub open spec fn dispatch_outcome(
    before: CurrentProjectSession,
    after: CurrentProjectSession,
    max_attempts: u32,
    r: Result<Option<Task>, AppError>,
) -> bool {
    match chosen_pick(before.tasks@, before.status, max_attempts) {
        None => {
            &&& r == Ok::<Option<Task>, AppError>(None)
            &&& after.tasks == before.tasks
            &&& idle_status(before.tasks@, before.status, after.status)
            &&& after.current_task_id_executing == before.current_task_id_executing
        },
        Some(i) => {
            &&& r is Ok && r->Ok_0 is Some
            &&& after.tasks@.len() == before.tasks@.len()
            &&& after.tasks@ == before.tasks@.update(i as int, after.tasks@[i as int])
            &&& dispatched(before.tasks@[i as int], after.tasks@[i as int], before.status is SelfCorrecting)
            &&& r->Ok_0->Some_0.same_as(after.tasks@[i as int])
            &&& after.status is ExecutingTask
            &&& after.current_task_id_executing == Some(before.tasks@[i as int].id)
        },
    }
}

/// Starts one iteration of the orchestration loop.
///
/// A session without a project path is an error: the session status becomes
/// `Error`. In a status where the loop may not dispatch, nothing happens and
/// `Ok(None)` is returned. Otherwise the selector picks a task; if none is
/// eligible the session gets its terminal status (AwaitingHumanInput when a
/// self-correction cannot go on, CompletedGoal when every task succeeded,
/// Idle otherwise) and `Ok(None)` is returned. A picked task is dispatched:
/// its attempt begins (a retry advances its counter), the session is
/// ExecutingTask with that task marked as executing, and a detached copy of
/// the task is returned.
pub fn begin_iteration(session: &mut CurrentProjectSession, settings: &ProjectSettings) -> (r: Result<Option<Task>, AppError>)
    ensures
        old(session).project_path is None ==> {
            &&& (match r {
                Err(AppError::Config(m)) => m@ == "Project path not set in loop"@,
                _ => false,
            })
            &&& (match final(session).status {
                ProjectStatus::Error(m) => m@ == "Project path not set in loop"@,
                _ => false,
            })
            &&& final(session).tasks == old(session).tasks
            &&& final(session).current_task_id_executing == old(session).current_task_id_executing
        },
        old(session).project_path is Some && !loop_may_dispatch(old(session).status) ==> r == Ok::<
            Option<Task>,
            AppError,
        >(None) && *final(session) == *old(session),
        old(session).project_path is Some && loop_may_dispatch(old(session).status) ==> dispatch_outcome(
            *old(session),
            *final(session),
            settings.max_self_correction_attempts,
            r,
        ),
        final(session).project_path == old(session).project_path,
        final(session).active_spec_file == old(session).active_spec_file,
        final(session).logs == old(session).logs,
        final(session).known_crates == old(session).known_crates,
        old(session).wf() ==> final(session).wf(),
{
    if session.project_path.is_none() {
        session.status = ProjectStatus::Error(String::from_str("Project path not set in loop"));
        return Err(AppError::Config(String::from_str("Project path not set in loop")));
    }
    let runnable = match &session.status {
        ProjectStatus::ReadyToExecute | ProjectStatus::SelfCorrecting(_) | ProjectStatus::Idle
        | ProjectStatus::CompletedGoal => true,
        _ => false,
    };
    if !runnable {
        return Ok(None);
    }
    let max_attempts = settings.max_self_correction_attempts;
    let pick = select_for_session(session, max_attempts);
    proof {
        lemma_pick_unique(session.tasks@, session.status, max_attempts, pick);
    }
    let retry = match &session.status {
        ProjectStatus::SelfCorrecting(_) => true,
        _ => false,
    };
    match pick {
        None => {
            let next = match &session.status {
                ProjectStatus::SelfCorrecting(id) => {
                    let mut m = String::from_str("Task ");
                    m.append(id.as_str());
                    m.append(" failed self-correction.");
                    ProjectStatus::AwaitingHumanInput(m)
                },
                _ => if every_task_completed(&session.tasks) {
                    ProjectStatus::CompletedGoal
                } else {
                    ProjectStatus::Idle
                },
            };
            session.status = next;
            Ok(None)
        },
        Some(i) => {
            let mut t = session.tasks.remove(i);
            if retry {
                t.current_attempt_number = t.current_attempt_number + 1;
            }
            t.status = TaskStatus::InProgress;
            let attempt = TaskAttempt {
                attempt_number: t.current_attempt_number,
                code_generated_summary: None,
                verification_stdout: String::new(),
                verification_stderr: String::new(),
                verification_exit_code: 0,
                llm_error_summary: None,
                coder_notes: None,
            };
            t.attempts.push(attempt);
            assert(t.attempts@.drop_last() =~= old(session).tasks@[i as int].attempts@);
            let copy = t.clone();
            session.current_task_id_executing = Some(t.id.clone());
            session.tasks.insert(i, t);
            session.status = ProjectStatus::ExecutingTask;
            proof {
                assert(session.tasks@ =~= old(session).tasks@.update(i as int, session.tasks@[i as int]));
                lemma_same_graph_keeps_shape(old(session).tasks@, session.tasks@);
            }
            Ok(Some(copy))
        },
    }
}

/// Whether every task has completed successfully.
pub fn every_task_completed(tasks: &Vec<Task>) -> (r: bool)
    ensures
        r == all_completed(tasks@),
{
    let mut i: usize = 0;
    while i < tasks.len()
        invariant
            0 <= i <= tasks@.len(),
            forall|j: int| 0 <= j < i ==> #[trigger] tasks@[j].status is CompletedSuccess,
        decreases tasks@.len() - i,
    {
        match &tasks[i].status {
            TaskStatus::CompletedSuccess => {},
            _ => {
                return false;
            },
        }
        i = i + 1;
    }
    true
}

/// Background work that a finished iteration asks for.
#[derive(Debug, Clone, Copy, PartialEq, Eq)]
pub struct IterationEffects {
    /// Commit the workspace changes.
    pub commit: bool,
    /// Refresh the knowledge index.
    pub refresh_index: bool,
}

/// `after` is the session's task `before` with the outcome of the detached
/// copy `worked` written back.
pub open spec fn merged(before: Task, after: Task, worked: Task, status: TaskStatus) -> bool {
    &&& after.status == status
    &&& after.attempts == worked.attempts
    &&& after.last_coder_output == worked.last_coder_output
    &&& after.id == before.id
    &&& after.parent_id == before.parent_id
    &&& after.description == before.description
    &&& after.task_type == before.task_type
    &&& after.context_summary == before.context_summary
    &&& after.dependencies == before.dependencies
    &&& after.sub_task_ids == before.sub_task_ids
    &&& after.current_attempt_number == before.current_attempt_number
    &&& after.human_review_notes == before.human_review_notes
}

/// The session status after an iteration whose policy left `follow_up`.
pub open spec fn status_after_iteration(follow_up: ProjectStatus) -> ProjectStatus {
    if follow_up is SelfCorrecting || follow_up is AwaitingHumanInput {
        follow_up
    } else {
        ProjectStatus::ReadyToExecute
    }
}

/// Ends one iteration: the detached task's status, attempts and last output
/// are written back to the session's task with the same id; the session
/// keeps a SelfCorrecting or AwaitingHumanInput follow-up and is otherwise
/// ready to execute; nothing is marked as executing any more. A successful
/// task asks for an index refresh, and for a commit under the per-task
/// commit strategy.
pub fn merge_task_result(
    session: &mut CurrentProjectSession,
    task: Task,
    final_status: TaskStatus,
    follow_up: ProjectStatus,
    settings: &ProjectSettings,
) -> (r: IterationEffects)
    ensures
        final(session).tasks@.len() == old(session).tasks@.len(),
        match choose_first_with_id(old(session).tasks@, task.id@) {
            None => final(session).tasks == old(session).tasks,
            Some(i) => {
                &&& forall|j: int|
                    0 <= j < old(session).tasks@.len() && j != i ==> #[trigger] final(session).tasks@[j]
                        == old(session).tasks@[j]
                &&& merged(old(session).tasks@[i as int], final(session).tasks@[i as int], task, final_status)
            },
        },
        final(session).status == status_after_iteration(follow_up),
        final(session).current_task_id_executing is None,
        r.refresh_index == final_status is CompletedSuccess,
        r.commit == (final_status is CompletedSuccess && settings.git_commit_strategy is PerTask),
        final(session).project_path == old(session).project_path,
        final(session).active_spec_file == old(session).active_spec_file,
        final(session).logs == old(session).logs,
        final(session).known_crates == old(session).known_crates,
        old(session).wf() ==> final(session).wf(),
{
    let succeeded = match &final_status {
        TaskStatus::CompletedSuccess => true,
        _ => false,
    };
    let found = find_task_index(&session.tasks, &task.id);
    proof {
        lemma_first_with_id_unique(old(session).tasks@, task.id@, found);
    }
    match found {
        Some(i) => {
            let mut t = session.tasks.remove(i);
            t.status = final_status;
            t.attempts = task.attempts;
            t.last_coder_output = task.last_coder_output;
            session.tasks.insert(i, t);
            proof {
                assert(session.tasks@ =~= old(session).tasks@.update(i as int, session.tasks@[i as int]));
                lemma_same_graph_keeps_shape(old(session).tasks@, session.tasks@);
            }
        },
        None => {},
    }
    let keep = match &follow_up {
        ProjectStatus::SelfCorrecting(_) | ProjectStatus::AwaitingHumanInput(_) => true,
        _ => false,
    };
    session.status = if keep {
        follow_up
    } else {
        ProjectStatus::ReadyToExecute
    };
    session.current_task_id_executing = None;
    let per_task = match settings.git_commit_strategy {
        GitCommitStrategy::PerTask => true,
        _ => false,
    };
    IterationEffects { commit: succeeded && per_task, refresh_index: succeeded }
}

/// The context summary of a task prepared with contexts of the given sizes.
pub open spec fn context_summary_text(code_len: nat, docs_len: nat) -> Seq<char> {
    "Code Ctx: "@ + nat_digits(code_len) + " chars, Crate Docs: "@ + nat_digits(docs_len) + " chars"@
}

/// Records on the session's task `task_id` the sizes of the context prepared
/// for it; other tasks, and the session otherwise, are unchanged.
pub fn record_context_summary(session: &mut CurrentProjectSession, task_id: &String, code_len: u64, docs_len: u64)
    ensures
        final(session).tasks@.len() == old(session).tasks@.len(),
        match choose_first_with_id(old(session).tasks@, task_id@) {
            None => final(session).tasks == old(session).tasks,
            Some(i) => {
                &&& forall|j: int|
                    0 <= j < old(session).tasks@.len() && j != i ==> #[trigger] final(session).tasks@[j]
                        == old(session).tasks@[j]
                &&& final(session).tasks@[i as int].context_summary@ == context_summary_text(
                    code_len as nat,
                    docs_len as nat,
                )
                &&& final(session).tasks@[i as int] == (Task {
                    context_summary: final(session).tasks@[i as int].context_summary,
                    ..old(session).tasks@[i as int]
                })
            },
        },
        final(session).status == old(session).status,
        final(session).project_path == old(session).project_path,
        final(session).active_spec_file == old(session).active_spec_file,
        final(session).current_task_id_executing == old(session).current_task_id_executing,
        final(session).logs == old(session).logs,
        final(session).known_crates == old(session).known_crates,
        old(session).wf() ==> final(session).wf(),
{
    let found = find_task_index(&session.tasks, task_id);
    proof {
        lemma_first_with_id_unique(old(session).tasks@, task_id@, found);
    }
    match found {
        Some(i) => {
            let mut summary = String::from_str("Code Ctx: ");
            push_decimal(&mut summary, code_len);
            summary.append(" chars, Crate Docs: ");
            push_decimal(&mut summary, docs_len);
            summary.append(" chars");
            let mut t = session.tasks.remove(i);
            t.context_summary = summary;
            session.tasks.insert(i, t);
            proof {
                assert(session.tasks@ =~= old(session).tasks@.update(i as int, session.tasks@[i as int]));
                lemma_same_graph_keeps_shape(old(session).tasks@, session.tasks@);
            }
        },
        None => {},
    }
}

/// How many characters of a task's description a commit message keeps.
pub const COMMIT_DESCRIPTION_CHARS: usize = 50;

/// The commit message for a completed task.
pub fn commit_message(task: &Task) -> (r: String)
    ensures
        r@ == "AI: Task "@ + task.id@ + " - "@ + (if task.description@.len() <= COMMIT_DESCRIPTION_CHARS {
            task.description@
        } else {
            task.description@.take(COMMIT_DESCRIPTION_CHARS as int)
        }) + " completed."@,
{
    let n = task.description.unicode_len();
    let k = if n <= COMMIT_DESCRIPTION_CHARS {
        n
    } else {
        COMMIT_DESCRIPTION_CHARS
    };
    let mut m = String::from_str("AI: Task ");
    m.append(task.id.as_str());
    m.append(" - ");
    let head = task.description.as_str().substring_char(0, k);
    proof {
        if n <= COMMIT_DESCRIPTION_CHARS {
            assert(head@ =~= task.description@);
        } else {
            assert(head@ =~= task.description@.take(COMMIT_DESCRIPTION_CHARS as int));
        }
    }
    m.append(head);
    m.append(" completed.");
    m
}

} // verus!
