//! Dependency-aware task selection.

use vstd::prelude::*;
use crate::models::{ProjectStatus, Task, TaskStatus};
use crate::session::CurrentProjectSession;

verus! {

/// A status from which a task may be started.
pub open spec fn is_startable(s: TaskStatus) -> bool {
    s is Pending || s is Ready
}

/// Some task with this id has completed successfully.
pub open spec fn is_done(tasks: Seq<Task>, id: Seq<char>) -> bool {
    exists|j: int| 0 <= j < tasks.len() && #[trigger] tasks[j].id@ == id && tasks[j].status is CompletedSuccess
}

/// Every dependency of `t` has completed successfully.
pub open spec fn dependencies_met(tasks: Seq<Task>, t: Task) -> bool {
    forall|k: int| 0 <= k < t.dependencies@.len() ==> is_done(tasks, #[trigger] t.dependencies@[k]@)
}

/// Task `i` may run next: it is startable and its dependencies are done.
pub open spec fn is_eligible(tasks: Seq<Task>, i: int) -> bool {
    is_startable(tasks[i].status) && dependencies_met(tasks, tasks[i])
}

/// Task `i` may be retried for self-correction of the task `id`.
pub open spec fn is_retry_candidate(tasks: Seq<Task>, i: int, id: Seq<char>, max_attempts: u32) -> bool {
    tasks[i].id@ == id && tasks[i].current_attempt_number < max_attempts && dependencies_met(tasks, tasks[i])
}

/// `r` is the first eligible task in list order, or `None` when none is.
pub open spec fn first_eligible(tasks: Seq<Task>, r: Option<usize>) -> bool {
    match r {
        Some(i) => i < tasks.len() && is_eligible(tasks, i as int) && forall|j: int|
            0 <= j < i ==> !#[trigger] is_eligible(tasks, j),
        None => forall|j: int| 0 <= j < tasks.len() ==> !#[trigger] is_eligible(tasks, j),
    }
}

/// `r` is the first task that may be retried for the task `id`, or `None`.
pub open spec fn first_retry_candidate(tasks: Seq<Task>, id: Seq<char>, max_attempts: u32, r: Option<usize>) -> bool {
    match r {
        Some(i) => i < tasks.len() && is_retry_candidate(tasks, i as int, id, max_attempts) && forall|j: int|
            0 <= j < i ==> !#[trigger] is_retry_candidate(tasks, j, id, max_attempts),
        None => forall|j: int| 0 <= j < tasks.len() ==> !#[trigger] is_retry_candidate(tasks, j, id, max_attempts),
    }
}

/// What the selector picks in a session: during self-correction only the task
/// under correction, otherwise the first eligible task in list order.
pub open spec fn session_pick(tasks: Seq<Task>, status: ProjectStatus, max_attempts: u32, r: Option<usize>) -> bool {
    match status {
        ProjectStatus::SelfCorrecting(id) => first_retry_candidate(tasks, id@, max_attempts, r),
        _ => first_eligible(tasks, r),
    }
}

/// Whether some task with id `id` has completed successfully.
fn dependency_done(tasks: &Vec<Task>, id: &String) -> (r: bool)
    ensures
        r == is_done(tasks@, id@),
{
    let mut j: usize = 0;
    while j < tasks.len()
        invariant
            0 <= j <= tasks@.len(),
            forall|m: int| 0 <= m < j ==> !(#[trigger] tasks@[m].id@ == id@ && tasks@[m].status is CompletedSuccess),
        decreases tasks@.len() - j,
    {
        if tasks[j].id == *id && matches!(tasks[j].status, TaskStatus::CompletedSuccess) {
            return true;
        }
        j = j + 1;
    }
    false
}

/// Whether every dependency of `task` has completed successfully.
pub fn dependencies_satisfied(tasks: &Vec<Task>, task: &Task) -> (r: bool)
    ensures
        r == dependencies_met(tasks@, *task),
{
    let mut k: usize = 0;
    while k < task.dependencies.len()
        invariant
            0 <= k <= task.dependencies@.len(),
            forall|m: int| 0 <= m < k ==> is_done(tasks@, #[trigger] task.dependencies@[m]@),
        decreases task.dependencies@.len() - k,
    {
        if !dependency_done(tasks, &task.dependencies[k]) {
            return false;
        }
        k = k + 1;
    }
    true
}

/// The first task in list order that is Pending or Ready and whose
/// dependencies have all completed successfully.
pub fn select_next_task(tasks: &Vec<Task>) -> (r: Option<usize>)
    ensures
        first_eligible(tasks@, r),
{
    let mut i: usize = 0;
    while i < tasks.len()
        invariant
            0 <= i <= tasks@.len(),
            forall|j: int| 0 <= j < i ==> !#[trigger] is_eligible(tasks@, j),
        decreases tasks@.len() - i,
    {
        let startable = matches!(tasks[i].status, TaskStatus::Pending | TaskStatus::Ready);
        if startable && dependencies_satisfied(tasks, &tasks[i]) {
            return Some(i);
        }
        i = i + 1;
    }
    None
}

/// The first task that may be retried for self-correction of task `id`:
/// the task with that id, while its retry counter is under `max_attempts`
/// and its dependencies are done.
pub fn select_retry_task(tasks: &Vec<Task>, id: &String, max_attempts: u32) -> (r: Option<usize>)
    ensures
        first_retry_candidate(tasks@, id@, max_attempts, r),
{
    let mut i: usize = 0;
    while i < tasks.len()
        invariant
            0 <= i <= tasks@.len(),
            forall|j: int| 0 <= j < i ==> !#[trigger] is_retry_candidate(tasks@, j, id@, max_attempts),
        decreases tasks@.len() - i,
    {
        if tasks[i].id == *id && tasks[i].current_attempt_number < max_attempts
            && dependencies_satisfied(tasks, &tasks[i]) {
            return Some(i);
        }
        i = i + 1;
    }
    None
}

/// The task the session runs next: while self-correcting, only the task
/// under correction (and only within its retry budget); otherwise the first
/// eligible task in list order.
pub fn select_for_session(session: &CurrentProjectSession, max_attempts: u32) -> (r: Option<usize>)
    ensures
        session_pick(session.tasks@, session.status, max_attempts, r),
{
    match &session.status {
        ProjectStatus::SelfCorrecting(id) => select_retry_task(&session.tasks, id, max_attempts),
        _ => select_next_task(&session.tasks),
    }
}

} // verus!
