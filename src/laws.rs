//! Properties of the engine that relate several of its operations.

use vstd::prelude::*;
use crate::models::{GlobalLogEntry, ProjectStatus, Task, TaskStatus};
use crate::orchestrator::{dispatch_counter, loop_may_dispatch};
use crate::policy::{
    escalation_message, failure_reason, generation_failure_reason, is_awaiting_with, is_blocked_with,
    is_self_correcting_for, policy_session, policy_status, retry_permitted,
};
use crate::selector::{dependencies_met, is_done, is_eligible, session_pick};
use crate::session::keep_last;

verus! {

/// The selector never picks a task whose dependencies have not all
/// completed successfully, in any session status.
pub proof fn lemma_selection_respects_dependencies(
    tasks: Seq<Task>,
    status: ProjectStatus,
    max_attempts: u32,
    i: usize,
)
    requires
        session_pick(tasks, status, max_attempts, Some(i)),
    ensures
        0 <= i < tasks.len(),
        forall|k: int|
            0 <= k < tasks[i as int].dependencies@.len() ==> is_done(tasks, #[trigger] tasks[i as int].dependencies@[k]@),
{
    assert(dependencies_met(tasks, tasks[i as int]));
}

/// A failed task is never eligible for ordinary selection.
pub proof fn lemma_failed_task_not_eligible(tasks: Seq<Task>, i: int)
    requires
        0 <= i < tasks.len(),
        tasks[i].status is Failed,
    ensures
        !is_eligible(tasks, i),
{
}

/// The session log never holds more than its capacity, the new entry is
/// always kept as the newest, and the entries that stay are the newest ones
/// in their original order: the oldest are evicted first.
pub proof fn lemma_log_is_bounded_fifo(logs: Seq<GlobalLogEntry>, entry: GlobalLogEntry, capacity: nat)
    requires
        capacity > 0,
    ensures
        keep_last(logs.push(entry), capacity).len() <= capacity,
        keep_last(logs.push(entry), capacity).last() == entry,
        logs.len() < capacity ==> keep_last(logs.push(entry), capacity) == logs.push(entry),
        logs.len() == capacity ==> keep_last(logs.push(entry), capacity) == logs.drop_first().push(entry),
        keep_last(logs.push(entry), capacity) == logs.push(entry).skip(
            logs.push(entry).len() - keep_last(logs.push(entry), capacity).len(),
        ),
{
    let s = logs.push(entry);
    let r = keep_last(s, capacity);
    if s.len() > capacity {
        assert(r =~= s.skip(s.len() - capacity));
        if logs.len() == capacity {
            assert(r =~= logs.drop_first().push(entry));
        }
    } else {
        assert(r =~= s.skip(0));
    }
}

/// A generation step that reported failure blocks the task with the
/// generation error, whatever the verification output and exit code; only a
/// spent retry budget turns it into a failure.
pub proof fn lemma_generation_failure_blocks(
    error_message: Option<String>,
    exit_code: i32,
    stderr: Seq<char>,
    retries_so_far: u32,
    max_attempts: u32,
    s: TaskStatus,
)
    requires
        policy_status(failure_reason(false, error_message, exit_code, stderr), retries_so_far, max_attempts, s),
    ensures
        failure_reason(false, error_message, exit_code, stderr) == Some(generation_failure_reason(error_message)),
        retry_permitted(retries_so_far, max_attempts) ==> is_blocked_with(s, generation_failure_reason(error_message)),
        !retry_permitted(retries_so_far, max_attempts) ==> s is Failed,
{
}

/// Two task statuses carry the same decision: the same variant, and the same
/// reason text for a blocked task.
pub open spec fn same_task_decision(a: TaskStatus, b: TaskStatus) -> bool {
    match (a, b) {
        (TaskStatus::BlockedByError(x), TaskStatus::BlockedByError(y)) => x@ == y@,
        (TaskStatus::CompletedSuccess, TaskStatus::CompletedSuccess) => true,
        (TaskStatus::Failed, TaskStatus::Failed) => true,
        _ => false,
    }
}

/// Two session statuses carry the same follow-up: the same variant, and the
/// same text for a self-correction or an escalation.
pub open spec fn same_session_decision(a: ProjectStatus, b: ProjectStatus) -> bool {
    match (a, b) {
        (ProjectStatus::SelfCorrecting(x), ProjectStatus::SelfCorrecting(y)) => x@ == y@,
        (ProjectStatus::AwaitingHumanInput(x), ProjectStatus::AwaitingHumanInput(y)) => x@ == y@,
        _ => a == b,
    }
}

/// The self-correction policy is a function of the outcome and the task: two
/// runs on the same outcome and the same task (before either records an
/// attempt) decide the same next status and the same session follow-up.
pub proof fn lemma_policy_is_deterministic(
    reason: Option<Seq<char>>,
    task_id: Seq<char>,
    retries_so_far: u32,
    max_attempts: u32,
    before: ProjectStatus,
    s1: TaskStatus,
    s2: TaskStatus,
    after1: ProjectStatus,
    after2: ProjectStatus,
)
    requires
        policy_status(reason, retries_so_far, max_attempts, s1),
        policy_status(reason, retries_so_far, max_attempts, s2),
        policy_session(reason, task_id, retries_so_far, max_attempts, before, after1),
        policy_session(reason, task_id, retries_so_far, max_attempts, before, after2),
    ensures
        same_task_decision(s1, s2),
        same_session_decision(after1, after2),
{
}

/// A run of attempts of one task in which every attempt failed: `ts[j]` is the
/// task as dispatched for attempt `j`, `rs[j]` and `ss[j]` the task status and
/// session status the policy gave it, and `reasons[j]` why it failed. The first
/// attempt starts with a fresh counter; each later one is a self-correction
/// retry, dispatched only from the previous attempt's SelfCorrecting session
/// while that task's counter was within budget, which advances the counter.
pub open spec fn failing_run(
    ts: Seq<Task>,
    rs: Seq<TaskStatus>,
    ss: Seq<ProjectStatus>,
    reasons: Seq<Seq<char>>,
    max_attempts: u32,
) -> bool {
    &&& ts.len() >= 1
    &&& rs.len() == ts.len()
    &&& ss.len() == ts.len()
    &&& reasons.len() == ts.len()
    &&& ts[0].current_attempt_number == 0
    &&& forall|j: int|
        0 <= j < ts.len() ==> policy_status(
            Some(reasons[j]),
            #[trigger] ts[j].current_attempt_number,
            max_attempts,
            rs[j],
        ) && policy_session(
            Some(reasons[j]),
            ts[j].id@,
            ts[j].current_attempt_number,
            max_attempts,
            ProjectStatus::ExecutingTask,
            ss[j],
        )
    &&& forall|j: int|
        0 < j < ts.len() ==> {
            &&& #[trigger] ts[j].id == ts[0].id
            &&& loop_may_dispatch(ss[j - 1])
            &&& is_self_correcting_for(ss[j - 1], ts[0].id@)
            &&& ts[j - 1].current_attempt_number < max_attempts
            &&& ts[j].current_attempt_number == dispatch_counter(ts[j - 1], true)
        }
}

/// Attempt `j` of a failing run runs with retry counter `j`.
proof fn lemma_failing_run_counter(
    ts: Seq<Task>,
    rs: Seq<TaskStatus>,
    ss: Seq<ProjectStatus>,
    reasons: Seq<Seq<char>>,
    max_attempts: u32,
    j: int,
)
    requires
        failing_run(ts, rs, ss, reasons, max_attempts),
        0 <= j < ts.len(),
    ensures
        ts[j].current_attempt_number == j,
    decreases j,
{
    if j > 0 {
        lemma_failing_run_counter(ts, rs, ss, reasons, max_attempts, j - 1);
        assert(ts[j].id == ts[0].id);
    }
}

/// With a retry budget of `n`, a task that keeps failing is attempted at
/// most `n + 1` times. Every attempt before the budget is spent leaves it
/// blocked and the session self-correcting it; the attempt number `n + 1`
/// fails it for good and escalates to the operator, and an escalated session
/// dispatches nothing until a human responds.
pub proof fn lemma_retry_budget_escalates(
    ts: Seq<Task>,
    rs: Seq<TaskStatus>,
    ss: Seq<ProjectStatus>,
    reasons: Seq<Seq<char>>,
    max_attempts: u32,
)
    requires
        failing_run(ts, rs, ss, reasons, max_attempts),
    ensures
        ts.len() <= max_attempts + 1,
        forall|j: int|
            0 <= j < ts.len() && j < max_attempts ==> is_blocked_with(#[trigger] rs[j], reasons[j])
                && is_self_correcting_for(ss[j], ts[0].id@),
        ts.len() == max_attempts + 1 ==> {
            &&& rs.last() is Failed
            &&& is_awaiting_with(ss.last(), escalation_message(ts[0].id@, max_attempts as nat + 1))
            &&& !loop_may_dispatch(ss.last())
        },
{
    let n = ts.len() as int;
    lemma_failing_run_counter(ts, rs, ss, reasons, max_attempts, n - 1);
    if n >= 2 {
        assert(ts[n - 1].id == ts[0].id);
        lemma_failing_run_counter(ts, rs, ss, reasons, max_attempts, n - 2);
    }
    assert forall|j: int| 0 <= j < ts.len() && j < max_attempts implies is_blocked_with(#[trigger] rs[j], reasons[j])
        && is_self_correcting_for(ss[j], ts[0].id@) by {
        lemma_failing_run_counter(ts, rs, ss, reasons, max_attempts, j);
        if j > 0 {
            assert(ts[j].id == ts[0].id);
        }
        assert(policy_status(Some(reasons[j]), ts[j].current_attempt_number, max_attempts, rs[j]));
        assert(policy_session(
            Some(reasons[j]),
            ts[j].id@,
            ts[j].current_attempt_number,
            max_attempts,
            ProjectStatus::ExecutingTask,
            ss[j],
        ));
    }
    if n == max_attempts + 1 {
        assert(policy_status(Some(reasons[n - 1]), ts[n - 1].current_attempt_number, max_attempts, rs[n - 1]));
        assert(policy_session(
            Some(reasons[n - 1]),
            ts[n - 1].id@,
            ts[n - 1].current_attempt_number,
            max_attempts,
            ProjectStatus::ExecutingTask,
            ss[n - 1],
        ));
    }
}

} // verus!
