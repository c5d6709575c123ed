//! The task graph model: tasks, attempts, statuses and settings.

use vstd::prelude::*;

verus! {

/// Structured, free-form details attached to a log entry.
#[verifier::external_type_specification]
#[verifier::external_body]
pub struct ExJsonValue(serde_json::Value);

/// How much the engine may do without asking the operator.
#[derive(Debug, Clone, Copy, Default, PartialEq, Eq)]
pub enum AutonomyLevel {
    #[default]
    FullAutopilot,
    ApprovalCheckpoints,
    ManualStepThrough,
}

/// When generated changes are committed.
#[derive(Debug, Clone, Copy, Default, PartialEq, Eq)]
pub enum GitCommitStrategy {
    #[default]
    PerTask,
    PerFeature,
    Manual,
}

/// Settings read at the start of each orchestration iteration.
#[derive(Debug, Clone, Default)]
pub struct ProjectSettings {
    pub tier1_llm_model_alias: String,
    pub tier2_llm_model_alias: String,
    pub llm_api_key: Option<String>,
    pub autonomy_level: AutonomyLevel,
    pub git_commit_strategy: GitCommitStrategy,
    pub max_self_correction_attempts: u32,
}

/// Session-level state of the orchestration loop.
#[derive(Debug, Default, PartialEq, Eq)]
pub enum ProjectStatus {
    #[default]
    Unloaded,
    Idle,
    Planning,
    ReadyToExecute,
    ExecutingTask,
    AwaitingHumanInput(String),
    SelfCorrecting(String),
    Paused,
    Error(String),
    CompletedGoal,
}

/// Per-task state.
#[derive(Debug, PartialEq, Eq)]
pub enum TaskStatus {
    Pending,
    Ready,
    InProgress,
    BlockedByDependency,
    BlockedByError(String),
    AwaitingHumanClarification,
    CompletedSuccess,
    CompletedWithWarnings,
    Failed,
}

/// One execution record of a task: generation and verification result.
#[derive(Debug)]
pub struct TaskAttempt {
    pub attempt_number: u32,
    pub code_generated_summary: Option<String>,
    pub verification_stdout: String,
    pub verification_stderr: String,
    pub verification_exit_code: i32,
    pub llm_error_summary: Option<String>,
    pub coder_notes: Option<String>,
}

/// The kind of work a task asks for.
#[derive(Debug, Clone, Copy, PartialEq, Eq)]
pub enum TaskType {
    AnalyzeSpec,
    DecomposeSpec,
    DefineStruct,
    ImplementFunction,
    WriteUnitTest,
    WriteIntegrationTest,
    WriteE2ETest,
    RefactorCode,
    UpdateFileDocumentation,
    UpdateCrateDocumentation,
    SetupNewCrate,
    RunVerificationStage,
    RequestHumanInput,
    GitCommit,
    GitPush,
    UpdateFileIndex,
    QualifyCrate,
}

/// What was done to one file.
#[derive(Debug, Clone, Copy, PartialEq, Eq)]
pub enum FileAction {
    Created,
    Modified,
    Deleted,
}

/// One changed file produced by the code generator.
#[derive(Debug)]
pub struct ChangedFileContent {
    pub relative_path: String,
    pub content: String,
    pub action: FileAction,
}

/// The outcome of one code-generation step.
#[derive(Debug)]
pub struct CoderOutput {
    pub task_id: String,
    pub changed_files: Vec<ChangedFileContent>,
    pub generated_docs: Vec<ChangedFileContent>,
    pub notes: Option<String>,
    pub success: bool,
    pub error_message: Option<String>,
}

/// A unit of generation work.
///
/// `current_attempt_number` counts the self-correction retries dispatched so
/// far: the first execution of a task is attempt 0, and each retry adds one.
#[derive(Debug)]
pub struct Task {
    pub id: String,
    pub parent_id: Option<String>,
    pub description: String,
    pub task_type: TaskType,
    pub status: TaskStatus,
    pub context_summary: String,
    pub dependencies: Vec<String>,
    pub sub_task_ids: Vec<String>,
    pub attempts: Vec<TaskAttempt>,
    pub current_attempt_number: u32,
    pub last_coder_output: Option<CoderOutput>,
    pub human_review_notes: Option<String>,
}

impl Clone for ProjectStatus {
    fn clone(&self) -> (r: ProjectStatus)
        ensures
            r == *self,
    {
        match self {
            ProjectStatus::Unloaded => ProjectStatus::Unloaded,
            ProjectStatus::Idle => ProjectStatus::Idle,
            ProjectStatus::Planning => ProjectStatus::Planning,
            ProjectStatus::ReadyToExecute => ProjectStatus::ReadyToExecute,
            ProjectStatus::ExecutingTask => ProjectStatus::ExecutingTask,
            ProjectStatus::AwaitingHumanInput(m) => ProjectStatus::AwaitingHumanInput(m.clone()),
            ProjectStatus::SelfCorrecting(m) => ProjectStatus::SelfCorrecting(m.clone()),
            ProjectStatus::Paused => ProjectStatus::Paused,
            ProjectStatus::Error(m) => ProjectStatus::Error(m.clone()),
            ProjectStatus::CompletedGoal => ProjectStatus::CompletedGoal,
        }
    }
}

impl Clone for TaskStatus {
    fn clone(&self) -> (r: TaskStatus)
        ensures
            r == *self,
    {
        match self {
            TaskStatus::Pending => TaskStatus::Pending,
            TaskStatus::Ready => TaskStatus::Ready,
            TaskStatus::InProgress => TaskStatus::InProgress,
            TaskStatus::BlockedByDependency => TaskStatus::BlockedByDependency,
            TaskStatus::BlockedByError(m) => TaskStatus::BlockedByError(m.clone()),
            TaskStatus::AwaitingHumanClarification => TaskStatus::AwaitingHumanClarification,
            TaskStatus::CompletedSuccess => TaskStatus::CompletedSuccess,
            TaskStatus::CompletedWithWarnings => TaskStatus::CompletedWithWarnings,
            TaskStatus::Failed => TaskStatus::Failed,
        }
    }
}

impl Clone for TaskAttempt {
    fn clone(&self) -> (r: TaskAttempt)
        ensures
            r == *self,
    {
        TaskAttempt {
            attempt_number: self.attempt_number,
            code_generated_summary: self.code_generated_summary.clone(),
            verification_stdout: self.verification_stdout.clone(),
            verification_stderr: self.verification_stderr.clone(),
            verification_exit_code: self.verification_exit_code,
            llm_error_summary: self.llm_error_summary.clone(),
            coder_notes: self.coder_notes.clone(),
        }
    }
}

impl Clone for ChangedFileContent {
    fn clone(&self) -> (r: ChangedFileContent)
        ensures
            r == *self,
    {
        ChangedFileContent {
            relative_path: self.relative_path.clone(),
            content: self.content.clone(),
            action: self.action,
        }
    }
}

impl CoderOutput {
    /// The same generation outcome, with its file lists compared by content.
    pub open spec fn same_as(&self, o: CoderOutput) -> bool {
        &&& self.task_id == o.task_id
        &&& self.changed_files@ == o.changed_files@
        &&& self.generated_docs@ == o.generated_docs@
        &&& self.notes == o.notes
        &&& self.success == o.success
        &&& self.error_message == o.error_message
    }
}

impl Clone for CoderOutput {
    fn clone(&self) -> (r: CoderOutput)
        ensures
            r.same_as(*self),
    {
        let changed_files = self.changed_files.clone();
        let generated_docs = self.generated_docs.clone();
        assert(changed_files@ =~= self.changed_files@);
        assert(generated_docs@ =~= self.generated_docs@);
        CoderOutput {
            task_id: self.task_id.clone(),
            changed_files,
            generated_docs,
            notes: self.notes.clone(),
            success: self.success,
            error_message: self.error_message.clone(),
        }
    }
}

/// Two optional generation outcomes are both absent or the same.
pub open spec fn same_output(a: Option<CoderOutput>, b: Option<CoderOutput>) -> bool {
    match (a, b) {
        (None, None) => true,
        (Some(x), Some(y)) => x.same_as(y),
        _ => false,
    }
}

impl Task {
    /// The same task, with its lists compared by content.
    pub open spec fn same_as(&self, o: Task) -> bool {
        &&& self.id == o.id
        &&& self.parent_id == o.parent_id
        &&& self.description == o.description
        &&& self.task_type == o.task_type
        &&& self.status == o.status
        &&& self.context_summary == o.context_summary
        &&& self.dependencies@ == o.dependencies@
        &&& self.sub_task_ids@ == o.sub_task_ids@
        &&& self.attempts@ == o.attempts@
        &&& self.current_attempt_number == o.current_attempt_number
        &&& same_output(self.last_coder_output, o.last_coder_output)
        &&& self.human_review_notes == o.human_review_notes
    }
}

impl Clone for Task {
    fn clone(&self) -> (r: Task)
        ensures
            r.same_as(*self),
    {
        let dependencies = self.dependencies.clone();
        let sub_task_ids = self.sub_task_ids.clone();
        let attempts = self.attempts.clone();
        assert(dependencies@ =~= self.dependencies@);
        assert(sub_task_ids@ =~= self.sub_task_ids@);
        assert(attempts@ =~= self.attempts@);
        let last_coder_output = match &self.last_coder_output {
            Some(o) => Some(o.clone()),
            None => None,
        };
        Task {
            id: self.id.clone(),
            parent_id: self.parent_id.clone(),
            description: self.description.clone(),
            task_type: self.task_type,
            status: self.status.clone(),
            context_summary: self.context_summary.clone(),
            dependencies,
            sub_task_ids,
            attempts,
            current_attempt_number: self.current_attempt_number,
            last_coder_output,
            human_review_notes: self.human_review_notes.clone(),
        }
    }
}

/// A specification file known to the project.
#[derive(Debug, Clone)]
pub struct SpecFile {
    pub name: String,
    pub relative_path: String,
    pub content_preview: String,
    pub status: String,
}

/// Approval state of an outside dependency.
#[derive(Debug, Clone, Copy, PartialEq, Eq)]
pub enum CrateApprovalStatus {
    Pending,
    Approved,
    Rejected,
    NeedsManualReview,
}

/// An outside dependency known to the session.
#[derive(Debug, Clone)]
pub struct CrateInfo {
    pub name: String,
    pub version: Option<String>,
    pub approval_status: CrateApprovalStatus,
    pub documentation_summary: Option<String>,
    pub source_url: Option<String>,
    pub last_qualified_at: Option<u64>,
}

/// What is known of an outside dependency from its documentation summary:
/// nothing without a summary; otherwise an entry pending approval that holds
/// the summary.
pub fn crate_info_from_summary(crate_name: String, summary: Option<String>) -> (r: Option<CrateInfo>)
    ensures
        summary is None ==> r is None,
        summary is Some ==> r == Some(
            CrateInfo {
                name: crate_name,
                version: None,
                approval_status: CrateApprovalStatus::Pending,
                documentation_summary: summary,
                source_url: None,
                last_qualified_at: None,
            },
        ),
{
    match summary {
        Some(s) => Some(
            CrateInfo {
                name: crate_name,
                version: None,
                approval_status: CrateApprovalStatus::Pending,
                documentation_summary: Some(s),
                source_url: None,
                last_qualified_at: None,
            },
        ),
        None => None,
    }
}

/// Severity or channel of a log entry.
#[derive(Debug, Clone, Copy, PartialEq, Eq)]
pub enum LogLevel {
    Info,
    Warn,
    Error,
    Debug,
    AgentTrace,
    HumanInput,
    LLMTrace,
}

/// A structured log record kept in the session's bounded log.
#[derive(Debug, Clone)]
pub struct GlobalLogEntry {
    pub id: String,
    pub timestamp: u64,
    pub level: LogLevel,
    pub component: String,
    pub message: String,
    pub task_id: Option<String>,
    pub details: Option<serde_json::Value>,
}

/// A block of code found by a structural code search.
#[derive(Debug, Clone)]
pub struct ProbeCodeBlock {
    pub file_path: String,
    pub code: String,
    pub language: String,
    pub start_line: usize,
    pub end_line: usize,
    pub symbols: Vec<String>,
    pub doc_comments: Option<String>,
}

/// Relies on uuid's `Uuid::new_v4` and its `Display`: a fresh random id in
/// the hyphenated form, 36 characters long.
#[verifier::external_body]
fn fresh_log_id() -> (r: String)
    ensures
        r@.len() == 36,
{
    uuid::Uuid::new_v4().to_string()
}

/// Relies on std's `SystemTime::now`: milliseconds since the Unix epoch, or 0
/// for a clock set before it.
#[verifier::external_body]
fn now_millis() -> u64 {
    std::time::SystemTime::now()
        .duration_since(std::time::UNIX_EPOCH)
        .unwrap_or_default()
        .as_millis() as u64
}

impl GlobalLogEntry {
    /// A new entry at `level`, with a fresh id and the current time.
    pub fn with_level(
        level: LogLevel,
        component: String,
        message: String,
        task_id: Option<String>,
        details: Option<serde_json::Value>,
    ) -> (r: GlobalLogEntry)
        ensures
            r.level == level,
            r.component == component,
            r.message == message,
            r.task_id == task_id,
            r.details == details,
            r.id@.len() == 36,
    {
        GlobalLogEntry {
            id: fresh_log_id(),
            timestamp: now_millis(),
            level,
            component,
            message,
            task_id,
            details,
        }
    }

    /// A new entry at level `Info`.
    pub fn info(
        component: String,
        message: String,
        task_id: Option<String>,
        details: Option<serde_json::Value>,
    ) -> (r: GlobalLogEntry)
        ensures
            r.level == LogLevel::Info,
            r.component == component,
            r.message == message,
            r.task_id == task_id,
            r.details == details,
            r.id@.len() == 36,
    {
        GlobalLogEntry::with_level(LogLevel::Info, component, message, task_id, details)
    }

    /// A new entry at level `Error`.
    pub fn error(
        component: String,
        message: String,
        task_id: Option<String>,
        details: Option<serde_json::Value>,
    ) -> (r: GlobalLogEntry)
        ensures
            r.level == LogLevel::Error,
            r.component == component,
            r.message == message,
            r.task_id == task_id,
            r.details == details,
            r.id@.len() == 36,
    {
        GlobalLogEntry::with_level(LogLevel::Error, component, message, task_id, details)
    }
}

} // verus!
