//! The project session: the single mutable root of orchestration state.

use vstd::prelude::*;
use crate::error::AppError;
use crate::graph::{find_cycle, is_acyclic};
use crate::models::{CrateInfo, GlobalLogEntry, ProjectStatus, Task, TaskStatus, TaskType};

verus! {

/// Number of log entries the session keeps; older ones are evicted first.
pub const LOG_CAPACITY: usize = 200;

/// All tasks, status and recent logs of one loaded project.
#[derive(Debug, Clone, Default)]
pub struct CurrentProjectSession {
    pub project_path: Option<String>,
    pub status: ProjectStatus,
    pub active_spec_file: Option<String>,
    pub tasks: Vec<Task>,
    /// The task currently being executed, if any.
    pub current_task_id_executing: Option<String>,
    /// Bounded log of recent entries, oldest first.
    pub logs: Vec<GlobalLogEntry>,
    pub known_crates: Vec<CrateInfo>,
}

/// No two tasks share an id.
pub open spec fn task_ids_unique(tasks: Seq<Task>) -> bool {
    forall|i: int, j: int| 0 <= i < j < tasks.len() ==> #[trigger] tasks[i].id@ != #[trigger] tasks[j].id@
}

/// Some task has the id `id`.
pub open spec fn has_task_id(tasks: Seq<Task>, id: Seq<char>) -> bool {
    exists|j: int| 0 <= j < tasks.len() && #[trigger] tasks[j].id@ == id
}

/// Every dependency of every task names a task of the list.
pub open spec fn task_dependencies_resolve(tasks: Seq<Task>) -> bool {
    forall|i: int, k: int|
        0 <= i < tasks.len() && 0 <= k < tasks[i].dependencies@.len() ==> has_task_id(
            tasks,
            #[trigger] tasks[i].dependencies@[k]@,
        )
}

/// Each task keeps its id and dependencies from `a` to `b`.
pub open spec fn same_graph(a: Seq<Task>, b: Seq<Task>) -> bool {
    &&& a.len() == b.len()
    &&& forall|i: int| 0 <= i < a.len() ==> #[trigger] b[i].id == a[i].id && b[i].dependencies@ == a[i].dependencies@
}

/// Changing tasks without changing their ids or dependencies keeps the
/// graph well-formed.
pub proof fn lemma_same_graph_keeps_shape(a: Seq<Task>, b: Seq<Task>)
    requires
        same_graph(a, b),
    ensures
        task_ids_unique(a) ==> task_ids_unique(b),
        task_dependencies_resolve(a) ==> task_dependencies_resolve(b),
{
    if task_ids_unique(a) {
        assert forall|i: int, j: int| 0 <= i < j < b.len() implies #[trigger] b[i].id@ != #[trigger] b[j].id@ by {
            assert(b[i].id == a[i].id);
            assert(b[j].id == a[j].id);
            assert(a[i].id@ != a[j].id@);
        }
    }
    if task_dependencies_resolve(a) {
        assert forall|i: int, k: int| 0 <= i < b.len() && 0 <= k < b[i].dependencies@.len() implies has_task_id(
            b,
            #[trigger] b[i].dependencies@[k]@,
        ) by {
            assert(b[i].id == a[i].id);
            assert(b[i].dependencies@ == a[i].dependencies@);
            assert(a[i].dependencies@[k] == b[i].dependencies@[k]);
            assert(has_task_id(a, a[i].dependencies@[k]@));
            let j = choose|j: int| 0 <= j < a.len() && #[trigger] a[j].id@ == a[i].dependencies@[k]@;
            assert(b[j].id == a[j].id);
            assert(b[j].id@ == b[i].dependencies@[k]@);
        }
    }
}

/// The last `k` items of `s` (all of them if it has fewer).
pub open spec fn keep_last<T>(s: Seq<T>, k: nat) -> Seq<T> {
    if s.len() <= k {
        s
    } else {
        s.subrange(s.len() - k, s.len() as int)
    }
}

/// Appends `entry` to `logs`, first evicting the oldest entries so that at
/// most `capacity` remain.
pub fn push_bounded(logs: &mut Vec<GlobalLogEntry>, entry: GlobalLogEntry, capacity: usize)
    requires
        capacity > 0,
    ensures
        final(logs)@ == keep_last(old(logs)@.push(entry), capacity as nat),
{
    let ghost orig = old(logs)@;
    while logs.len() >= capacity
        invariant
            capacity > 0,
            logs@.len() <= orig.len(),
            logs@ == orig.subrange(orig.len() - logs@.len(), orig.len() as int),
            logs@.len() + 1 >= capacity || logs@.len() == orig.len(),
        decreases logs@.len(),
    {
        logs.remove(0);
    }
    logs.push(entry);
    assert(logs@ =~= keep_last(orig.push(entry), capacity as nat));
}

/// The name of a session status.
pub open spec fn status_name(s: ProjectStatus) -> Seq<char> {
    match s {
        ProjectStatus::Unloaded => "Unloaded"@,
        ProjectStatus::Idle => "Idle"@,
        ProjectStatus::Planning => "Planning"@,
        ProjectStatus::ReadyToExecute => "ReadyToExecute"@,
        ProjectStatus::ExecutingTask => "ExecutingTask"@,
        ProjectStatus::AwaitingHumanInput(_) => "AwaitingHumanInput"@,
        ProjectStatus::SelfCorrecting(_) => "SelfCorrecting"@,
        ProjectStatus::Paused => "Paused"@,
        ProjectStatus::Error(_) => "Error"@,
        ProjectStatus::CompletedGoal => "CompletedGoal"@,
    }
}

/// The name of a session status.
pub fn project_status_name(s: &ProjectStatus) -> (r: String)
    ensures
        r@ == status_name(*s),
{
    let n = match s {
        ProjectStatus::Unloaded => "Unloaded",
        ProjectStatus::Idle => "Idle",
        ProjectStatus::Planning => "Planning",
        ProjectStatus::ReadyToExecute => "ReadyToExecute",
        ProjectStatus::ExecutingTask => "ExecutingTask",
        ProjectStatus::AwaitingHumanInput(_) => "AwaitingHumanInput",
        ProjectStatus::SelfCorrecting(_) => "SelfCorrecting",
        ProjectStatus::Paused => "Paused",
        ProjectStatus::Error(_) => "Error",
        ProjectStatus::CompletedGoal => "CompletedGoal",
    };
    String::from_str(n)
}

/// The `Debug` text of a string: quoted, with std's escapes.
pub uninterp spec fn debug_text_of(s: Seq<char>) -> Seq<char>;

/// Relies on std's `Debug` for `str` (`{:?}`): the quoted, escaped form of
/// the text, which depends on its characters alone.
#[verifier::external_body]
fn debug_quoted(s: &str) -> (r: String)
    ensures
        r@ == debug_text_of(s@),
{
    format!("{:?}", s)
}

/// The text a session status carries, if any.
pub open spec fn status_payload(s: ProjectStatus) -> Option<Seq<char>> {
    match s {
        ProjectStatus::AwaitingHumanInput(m) => Some(m@),
        ProjectStatus::SelfCorrecting(m) => Some(m@),
        ProjectStatus::Error(m) => Some(m@),
        _ => None,
    }
}

/// The text of a session status whose carried text reads `quoted` in
/// `Debug` form: the variant name, followed by `quoted` between parentheses
/// for a status that carries text.
pub open spec fn status_text_with(s: ProjectStatus, quoted: Seq<char>) -> Seq<char> {
    if status_payload(s) is Some {
        status_name(s) + "("@ + quoted + ")"@
    } else {
        status_name(s)
    }
}

/// The full text of a session status, as its `Debug` form writes it.
pub open spec fn status_text(s: ProjectStatus) -> Seq<char> {
    match status_payload(s) {
        Some(m) => status_text_with(s, debug_text_of(m)),
        None => status_name(s),
    }
}

/// The text of a session status, given the `Debug` form of the text it
/// carries (ignored for a status that carries none).
pub fn compose_status_text(s: &ProjectStatus, quoted: &str) -> (r: String)
    ensures
        r@ == status_text_with(*s, quoted@),
{
    let mut r = project_status_name(s);
    let carries = match s {
        ProjectStatus::AwaitingHumanInput(_) | ProjectStatus::SelfCorrecting(_) | ProjectStatus::Error(_) => true,
        _ => false,
    };
    if carries {
        r.append("(");
        r.append(quoted);
        r.append(")");
    }
    r
}

/// The full text of a session status, payload included.
pub fn project_status_text(s: &ProjectStatus) -> (r: String)
    ensures
        r@ == status_text(*s),
{
    match s {
        ProjectStatus::AwaitingHumanInput(m) | ProjectStatus::SelfCorrecting(m) | ProjectStatus::Error(m) => {
            let quoted = debug_quoted(m.as_str());
            compose_status_text(s, quoted.as_str())
        },
        _ => project_status_name(s),
    }
}

/// A status from which processing of a new specification may start.
pub open spec fn may_start_spec(s: ProjectStatus) -> bool {
    s is Idle || s is CompletedGoal || s is Error
}

/// Index of the first task with id `id`, if any.
pub open spec fn first_with_id(tasks: Seq<Task>, id: Seq<char>, r: Option<usize>) -> bool {
    match r {
        Some(i) => 0 <= i < tasks.len() && tasks[i as int].id@ == id && forall|j: int|
            0 <= j < i ==> #[trigger] tasks[j].id@ != id,
        None => forall|j: int| 0 <= j < tasks.len() ==> #[trigger] tasks[j].id@ != id,
    }
}

/// Index of the first task with id `id`, if any.
pub fn find_task_index(tasks: &Vec<Task>, id: &String) -> (r: Option<usize>)
    ensures
        first_with_id(tasks@, id@, r),
{
    let mut i: usize = 0;
    while i < tasks.len()
        invariant
            0 <= i <= tasks@.len(),
            forall|j: int| 0 <= j < i ==> #[trigger] tasks@[j].id@ != id@,
        decreases tasks@.len() - i,
    {
        if tasks[i].id == *id {
            return Some(i);
        }
        i = i + 1;
    }
    None
}

/// A task as the decomposition of a specification describes it.
#[derive(Debug)]
pub struct TaskDraft {
    pub id: String,
    pub parent_id: Option<String>,
    pub description: String,
    pub task_type: TaskType,
    pub dependencies: Vec<String>,
}

/// No two drafts share an id.
pub open spec fn ids_unique(d: Seq<TaskDraft>) -> bool {
    forall|i: int, j: int| 0 <= i < j < d.len() ==> #[trigger] d[i].id@ != #[trigger] d[j].id@
}

/// Some draft has the id `id`.
pub open spec fn has_draft_id(d: Seq<TaskDraft>, id: Seq<char>) -> bool {
    exists|i: int| 0 <= i < d.len() && #[trigger] d[i].id@ == id
}

/// Every dependency of every draft names a draft of the same batch.
pub open spec fn dependencies_resolve(d: Seq<TaskDraft>) -> bool {
    forall|i: int, k: int|
        0 <= i < d.len() && 0 <= k < d[i].dependencies@.len() ==> has_draft_id(
            d,
            #[trigger] d[i].dependencies@[k]@,
        )
}

/// `t` is the new, pending task made from the draft `d`.
pub open spec fn admitted_from(d: TaskDraft, t: Task) -> bool {
    &&& t.id == d.id
    &&& t.parent_id == d.parent_id
    &&& t.description == d.description
    &&& t.task_type == d.task_type
    &&& t.status is Pending
    &&& t.context_summary@ == "Awaiting context preparation"@
    &&& t.dependencies@ == d.dependencies@
    &&& t.sub_task_ids@.len() == 0
    &&& t.attempts@.len() == 0
    &&& t.current_attempt_number == 0
    &&& t.last_coder_output is None
    &&& t.human_review_notes is None
}

/// Whether some draft has the id `id`.
fn draft_id_present(drafts: &Vec<TaskDraft>, id: &String) -> (r: bool)
    ensures
        r == has_draft_id(drafts@, id@),
{
    let mut i: usize = 0;
    while i < drafts.len()
        invariant
            0 <= i <= drafts@.len(),
            forall|j: int| 0 <= j < i ==> #[trigger] drafts@[j].id@ != id@,
        decreases drafts@.len() - i,
    {
        if drafts[i].id == *id {
            return true;
        }
        i = i + 1;
    }
    false
}

/// The batch is a well-formed task graph: unique ids, dependencies within
/// the batch, and no dependency cycle.
pub open spec fn is_valid_batch(d: Seq<TaskDraft>) -> bool {
    ids_unique(d) && dependencies_resolve(d) && is_acyclic(d)
}

/// Checks a decomposed batch: ids are unique, every dependency names a task
/// of the batch, and the dependencies form no cycle. A repeated id is an
/// `Operation` error naming it; an unknown dependency is a `TaskDependency`
/// error naming the task and the dependency; a cycle is an `Operation` error
/// naming a task that depends on it. Ids are checked first, then
/// dependencies, then cycles.
pub fn validate_drafts(drafts: &Vec<TaskDraft>) -> (r: Result<(), AppError>)
    ensures
        r is Ok <==> is_valid_batch(drafts@),
        r is Err ==> validate_drafts_error(drafts@, r->Err_0),
{
    let mut j: usize = 0;
    while j < drafts.len()
        invariant
            0 <= j <= drafts@.len(),
            forall|a: int, b: int| 0 <= a < b < j ==> #[trigger] drafts@[a].id@ != #[trigger] drafts@[b].id@,
        decreases drafts@.len() - j,
    {
        let mut i: usize = 0;
        while i < j
            invariant
                0 <= i <= j < drafts@.len(),
                forall|a: int| 0 <= a < i ==> #[trigger] drafts@[a].id@ != drafts@[j as int].id@,
            decreases j - i,
        {
            if drafts[i].id == drafts[j].id {
                let mut m = String::from_str("Duplicate task id in decomposition: ");
                m.append(drafts[i].id.as_str());
                return Err(AppError::Operation(m));
            }
            i = i + 1;
        }
        j = j + 1;
    }
    let mut i: usize = 0;
    while i < drafts.len()
        invariant
            0 <= i <= drafts@.len(),
            ids_unique(drafts@),
            forall|a: int, k: int|
                0 <= a < i && 0 <= k < drafts@[a].dependencies@.len() ==> has_draft_id(
                    drafts@,
                    #[trigger] drafts@[a].dependencies@[k]@,
                ),
        decreases drafts@.len() - i,
    {
        let mut k: usize = 0;
        while k < drafts[i].dependencies.len()
            invariant
                0 <= i < drafts@.len(),
                0 <= k <= drafts@[i as int].dependencies@.len(),
                ids_unique(drafts@),
                forall|a: int, k2: int|
                    0 <= a < i && 0 <= k2 < drafts@[a].dependencies@.len() ==> has_draft_id(
                        drafts@,
                        #[trigger] drafts@[a].dependencies@[k2]@,
                    ),
                forall|k2: int| 0 <= k2 < k ==> has_draft_id(drafts@, #[trigger] drafts@[i as int].dependencies@[k2]@),
            decreases drafts@[i as int].dependencies@.len() - k,
        {
            if !draft_id_present(drafts, &drafts[i].dependencies[k]) {
                return Err(
                    AppError::TaskDependency {
                        task_id: drafts[i].id.clone(),
                        dependency_id: drafts[i].dependencies[k].clone(),
                    },
                );
            }
            k = k + 1;
        }
        i = i + 1;
    }
    match find_cycle(drafts) {
        Some(c) => {
            let mut m = String::from_str("Dependency cycle in decomposition at task: ");
            m.append(drafts[c].id.as_str());
            Err(AppError::Operation(m))
        },
        None => Ok(()),
    }
}

/// The new, pending task made from a draft.
pub fn task_from_draft(d: &TaskDraft) -> (t: Task)
    ensures
        admitted_from(*d, t),
{
    let dependencies = d.dependencies.clone();
    assert(dependencies@ =~= d.dependencies@);
    Task {
        id: d.id.clone(),
        parent_id: d.parent_id.clone(),
        description: d.description.clone(),
        task_type: d.task_type,
        status: TaskStatus::Pending,
        context_summary: String::from_str("Awaiting context preparation"),
        dependencies,
        sub_task_ids: Vec::new(),
        attempts: Vec::new(),
        current_attempt_number: 0,
        last_coder_output: None,
        human_review_notes: None,
    }
}

impl CurrentProjectSession {
    /// Well-formed: the log is within its capacity, task ids are unique, and
    /// every dependency names a task of the session.
    pub open spec fn wf(&self) -> bool {
        &&& self.logs@.len() <= LOG_CAPACITY
        &&& task_ids_unique(self.tasks@)
        &&& task_dependencies_resolve(self.tasks@)
    }

    /// A session with no project loaded.
    pub fn new() -> (r: CurrentProjectSession)
        ensures
            r.wf(),
            r.project_path is None,
            r.status is Unloaded,
            r.active_spec_file is None,
            r.tasks@.len() == 0,
            r.current_task_id_executing is None,
            r.logs@.len() == 0,
            r.known_crates@.len() == 0,
    {
        CurrentProjectSession {
            project_path: None,
            status: ProjectStatus::Unloaded,
            active_spec_file: None,
            tasks: Vec::new(),
            current_task_id_executing: None,
            logs: Vec::new(),
            known_crates: Vec::new(),
        }
    }

    /// Everything but the log is as in `o`.
    pub open spec fn same_but_logs(&self, o: CurrentProjectSession) -> bool {
        &&& self.project_path == o.project_path
        &&& self.status == o.status
        &&& self.active_spec_file == o.active_spec_file
        &&& self.tasks == o.tasks
        &&& self.current_task_id_executing == o.current_task_id_executing
        &&& self.known_crates == o.known_crates
    }

    /// Appends a log entry; when the log is full the oldest entry is evicted
    /// first, so it never holds more than `LOG_CAPACITY` entries.
    pub fn push_log(&mut self, entry: GlobalLogEntry)
        ensures
            final(self).logs@ == keep_last(old(self).logs@.push(entry), LOG_CAPACITY as nat),
            final(self).same_but_logs(*old(self)),
            old(self).wf() ==> final(self).wf(),
    {
        push_bounded(&mut self.logs, entry, LOG_CAPACITY);
    }

    /// Resets the session for a newly loaded project: tasks and logs are
    /// cleared and the session is idle.
    pub fn initialize_project(&mut self, project_path_str: String)
        ensures
            final(self).project_path == Some(project_path_str),
            final(self).status is Idle,
            final(self).tasks@.len() == 0,
            final(self).logs@.len() == 0,
            final(self).active_spec_file == old(self).active_spec_file,
            final(self).current_task_id_executing == old(self).current_task_id_executing,
            final(self).known_crates == old(self).known_crates,
            final(self).wf(),
    {
        self.project_path = Some(project_path_str);
        self.status = ProjectStatus::Idle;
        self.tasks = Vec::new();
        self.logs = Vec::new();
    }

    /// Starts processing of a specification: the session must have a project
    /// and be Idle, CompletedGoal or Error; it then plans, with the
    /// specification active and no tasks. Otherwise the session is unchanged
    /// and the error says why.
    pub fn start_processing_spec(&mut self, spec_relative_path: String) -> (r: Result<(), AppError>)
        ensures
            old(self).project_path is None ==> (match r {
                Err(AppError::Config(m)) => m@ == "No project loaded."@,
                _ => false,
            }),
            old(self).project_path is Some && !may_start_spec(old(self).status) ==> (match r {
                Err(AppError::InvalidState { current_state, expected_state, operation }) => current_state@
                    == status_text(old(self).status) && expected_state@ == "Idle/CompletedGoal/Error"@
                    && operation@ == "start_processing_spec"@,
                _ => false,
            }),
            r is Err ==> *final(self) == *old(self),
            old(self).wf() ==> final(self).wf(),
            old(self).project_path is Some && may_start_spec(old(self).status) ==> {
                &&& r is Ok
                &&& final(self).status is Planning
                &&& final(self).active_spec_file == Some(spec_relative_path)
                &&& final(self).tasks@.len() == 0
                &&& final(self).project_path == old(self).project_path
                &&& final(self).logs == old(self).logs
                &&& final(self).current_task_id_executing == old(self).current_task_id_executing
                &&& final(self).known_crates == old(self).known_crates
            },
    {
        if self.project_path.is_none() {
            return Err(AppError::Config(String::from_str("No project loaded.")));
        }
        let startable = match &self.status {
            ProjectStatus::Idle | ProjectStatus::CompletedGoal | ProjectStatus::Error(_) => true,
            _ => false,
        };
        if !startable {
            return Err(
                AppError::InvalidState {
                    current_state: project_status_text(&self.status),
                    expected_state: String::from_str("Idle/CompletedGoal/Error"),
                    operation: String::from_str("start_processing_spec"),
                },
            );
        }
        self.status = ProjectStatus::Planning;
        self.active_spec_file = Some(spec_relative_path);
        self.tasks = Vec::new();
        Ok(())
    }

    /// Admits a decomposed task graph: when the batch is valid (see
    /// `validate_drafts`) its tasks replace the session's, each pending, and
    /// the session is ready to execute; otherwise the whole batch is refused
    /// and the session is unchanged.
    pub fn admit_decomposition(&mut self, drafts: Vec<TaskDraft>) -> (r: Result<(), AppError>)
        ensures
            r is Ok <==> is_valid_batch(drafts@),
            r is Err ==> *final(self) == *old(self),
            r is Ok ==> {
                &&& final(self).tasks@.len() == drafts@.len()
                &&& forall|i: int| 0 <= i < drafts@.len() ==> admitted_from(drafts@[i], #[trigger] final(self).tasks@[i])
                &&& final(self).status is ReadyToExecute
                &&& final(self).project_path == old(self).project_path
                &&& final(self).active_spec_file == old(self).active_spec_file
                &&& final(self).logs == old(self).logs
                &&& final(self).current_task_id_executing == old(self).current_task_id_executing
                &&& final(self).known_crates == old(self).known_crates
            },
            r is Err ==> validate_drafts_error(drafts@, r->Err_0),
            old(self).wf() ==> final(self).wf(),
    {
        match validate_drafts(&drafts) {
            Err(e) => {
                return Err(e);
            },
            Ok(()) => {},
        }
        let mut tasks: Vec<Task> = Vec::new();
        let mut i: usize = 0;
        while i < drafts.len()
            invariant
                0 <= i <= drafts@.len(),
                tasks@.len() == i,
                forall|j: int| 0 <= j < i ==> admitted_from(drafts@[j], #[trigger] tasks@[j]),
            decreases drafts@.len() - i,
        {
            tasks.push(task_from_draft(&drafts[i]));
            i = i + 1;
        }
        proof {
            let t = tasks@;
            let d = drafts@;
            assert forall|a: int, b: int| 0 <= a < b < t.len() implies #[trigger] t[a].id@ != #[trigger] t[b].id@ by {
                assert(admitted_from(d[a], t[a]));
                assert(admitted_from(d[b], t[b]));
                assert(d[a].id@ != d[b].id@);
            }
            assert forall|a: int, k: int| 0 <= a < t.len() && 0 <= k < t[a].dependencies@.len() implies has_task_id(
                t,
                #[trigger] t[a].dependencies@[k]@,
            ) by {
                assert(admitted_from(d[a], t[a]));
                assert(d[a].dependencies@[k] == t[a].dependencies@[k]);
                assert(has_draft_id(d, d[a].dependencies@[k]@));
                let j = choose|j: int| 0 <= j < d.len() && #[trigger] d[j].id@ == d[a].dependencies@[k]@;
                assert(admitted_from(d[j], t[j]));
                assert(t[j].id@ == t[a].dependencies@[k]@);
            }
        }
        self.tasks = tasks;
        self.status = ProjectStatus::ReadyToExecute;
        Ok(())
    }

    /// Applies an operator's response to task `task_id`: the response is kept
    /// as the task's review notes, a Failed or AwaitingHumanClarification
    /// task becomes Pending again, and a session awaiting human input becomes
    /// ready to execute.
    pub fn submit_human_response(&mut self, task_id: &String, response_text: String)
        ensures
            ({
                let idx = choose_first_with_id(old(self).tasks@, task_id@);
                &&& final(self).tasks@.len() == old(self).tasks@.len()
                &&& match idx {
                    None => final(self).tasks == old(self).tasks,
                    Some(i) => {
                        &&& forall|j: int| 0 <= j < old(self).tasks@.len() && j != i ==> #[trigger] final(self).tasks@[j] == old(self).tasks@[j]
                        &&& human_response_applied(old(self).tasks@[i as int], final(self).tasks@[i as int], response_text)
                    },
                }
            }),
            old(self).status is AwaitingHumanInput ==> final(self).status is ReadyToExecute,
            !(old(self).status is AwaitingHumanInput) ==> final(self).status == old(self).status,
            final(self).project_path == old(self).project_path,
            final(self).active_spec_file == old(self).active_spec_file,
            final(self).logs == old(self).logs,
            final(self).current_task_id_executing == old(self).current_task_id_executing,
            final(self).known_crates == old(self).known_crates,
            old(self).wf() ==> final(self).wf(),
    {
        let found = find_task_index(&self.tasks, task_id);
        proof {
            lemma_first_with_id_unique(old(self).tasks@, task_id@, found);
        }
        match found {
            Some(i) => {
                let mut t = self.tasks.remove(i);
                t.human_review_notes = Some(response_text);
                let reset = match &t.status {
                    TaskStatus::AwaitingHumanClarification | TaskStatus::Failed => true,
                    _ => false,
                };
                if reset {
                    t.status = TaskStatus::Pending;
                }
                self.tasks.insert(i, t);
                proof {
                    assert(self.tasks@ =~= old(self).tasks@.update(i as int, self.tasks@[i as int]));
                    lemma_same_graph_keeps_shape(old(self).tasks@, self.tasks@);
                }
            },
            None => {},
        }
        let awaiting = match &self.status {
            ProjectStatus::AwaitingHumanInput(_) => true,
            _ => false,
        };
        if awaiting {
            self.status = ProjectStatus::ReadyToExecute;
        }
    }
}

/// The error `e` is one that `validate_drafts` can give for the batch `d`.
pub open spec fn validate_drafts_error(d: Seq<TaskDraft>, e: AppError) -> bool {
    match e {
        AppError::Operation(m) => (!ids_unique(d) && exists|i: int, j: int|
            0 <= i < j < d.len() && d[i].id@ == d[j].id@ && m@ == "Duplicate task id in decomposition: "@
                + d[i].id@) || (ids_unique(d) && dependencies_resolve(d) && !is_acyclic(d) && exists|i: int|
            0 <= i < d.len() && m@ == "Dependency cycle in decomposition at task: "@ + #[trigger] d[i].id@),
        AppError::TaskDependency { task_id, dependency_id } => ids_unique(d) && exists|i: int, k: int|
            0 <= i < d.len() && 0 <= k < d[i].dependencies@.len() && task_id@ == d[i].id@
                && dependency_id@ == d[i].dependencies@[k]@ && !has_draft_id(d, dependency_id@),
        _ => false,
    }
}

/// The index of the first task with id `id`, if any.
pub open spec fn choose_first_with_id(tasks: Seq<Task>, id: Seq<char>) -> Option<usize> {
    if exists|r: Option<usize>| first_with_id(tasks, id, r) {
        choose|r: Option<usize>| first_with_id(tasks, id, r)
    } else {
        None
    }
}

/// The first index with a given id is determined by the tasks.
pub proof fn lemma_first_with_id_unique(tasks: Seq<Task>, id: Seq<char>, r: Option<usize>)
    requires
        first_with_id(tasks, id, r),
    ensures
        choose_first_with_id(tasks, id) == r,
{
    let c = choose_first_with_id(tasks, id);
    assert(first_with_id(tasks, id, c));
    match (c, r) {
        (Some(a), Some(b)) => {
            if a < b {
                assert(tasks[a as int].id@ != id);
            } else if b < a {
                assert(tasks[b as int].id@ != id);
            }
        },
        (Some(a), None) => {
            assert(tasks[a as int].id@ != id);
        },
        (None, Some(b)) => {
            assert(tasks[b as int].id@ != id);
        },
        (None, None) => {},
    }
}

/// `after` is `before` with the operator's response applied.
pub open spec fn human_response_applied(before: Task, after: Task, response: String) -> bool {
    &&& after.human_review_notes == Some(response)
    &&& (before.status is Failed || before.status is AwaitingHumanClarification) ==> after.status is Pending
    &&& !(before.status is Failed || before.status is AwaitingHumanClarification) ==> after.status == before.status
    &&& after.id == before.id
    &&& after.parent_id == before.parent_id
    &&& after.description == before.description
    &&& after.task_type == before.task_type
    &&& after.context_summary == before.context_summary
    &&& after.dependencies == before.dependencies
    &&& after.sub_task_ids == before.sub_task_ids
    &&& after.attempts == before.attempts
    &&& after.current_attempt_number == before.current_attempt_number
    &&& after.last_coder_output == before.last_coder_output
}

} // verus!
