//! The verification pipeline driver: named stages run in order, their output
//! aggregated, stopping at the first stage that exits non-zero.
//!
//! The driver is a step machine: the caller asks for the next stage, runs it
//! through the workspace, and hands the result back.

use vstd::prelude::*;
use crate::error::AppError;
use crate::text::{owned_strings, same_text, texts, upper_of, uppercase};

verus! {

/// The text added to a combined buffer for one stage's output of `kind`
/// (`STDOUT` or `STDERR`).
pub open spec fn stage_section(stage: Seq<char>, kind: Seq<char>, output: Seq<char>) -> Seq<char> {
    "\n--- "@ + upper_of(stage) + " "@ + kind + " ---\n"@ + output
}

/// A run of the verification stages of one attempt.
pub struct VerificationRun {
    /// Stage names, in the order they run.
    pub stages: Vec<String>,
    /// Index of the next stage to run.
    pub next_index: usize,
    /// Output of all stages run so far, each section labelled by stage name.
    pub combined_stdout: String,
    /// Error output of all stages run so far, each section labelled by stage name.
    pub combined_stderr: String,
    /// Exit code of the last stage run, 0 when none has run.
    pub last_exit_code: i32,
    /// Error output of the last stage run alone, empty when none has run.
    pub last_stderr: String,
    /// A stage exited non-zero and the run stopped there.
    pub stopped: bool,
}

impl VerificationRun {
    /// Well-formed: the next index lies within the stages, and a stopped run
    /// has a non-zero last exit code.
    pub open spec fn wf(&self) -> bool {
        &&& self.next_index <= self.stages@.len()
        &&& self.stopped == (self.last_exit_code != 0)
    }

    /// No stage is left to run.
    pub open spec fn finished(&self) -> bool {
        self.stopped || self.next_index == self.stages@.len()
    }

    /// A run over `stages` that has run nothing yet.
    pub fn new(stages: Vec<String>) -> (r: VerificationRun)
        ensures
            r.wf(),
            r.stages == stages,
            r.next_index == 0,
            r.combined_stdout@.len() == 0,
            r.combined_stderr@.len() == 0,
            r.last_exit_code == 0,
            r.last_stderr@.len() == 0,
            !r.stopped,
    {
        VerificationRun {
            stages,
            next_index: 0,
            combined_stdout: String::new(),
            combined_stderr: String::new(),
            last_exit_code: 0,
            last_stderr: String::new(),
            stopped: false,
        }
    }

    /// The name of the next stage to run, or `None` once the run is finished.
    pub fn next_stage(&self) -> (r: Option<&String>)
        requires
            self.wf(),
        ensures
            self.finished() ==> r is None,
            !self.finished() ==> r == Some(&self.stages@[self.next_index as int]),
    {
        if self.stopped || self.next_index >= self.stages.len() {
            None
        } else {
            Some(&self.stages[self.next_index])
        }
    }

    /// Records the result of the next stage: its output is appended to the
    /// combined buffers under the stage's name, its exit code becomes the
    /// last one, and a non-zero exit code stops the run.
    pub fn record_stage_result(&mut self, stdout: &str, stderr: &str, exit_code: i32)
        requires
            old(self).wf(),
            !old(self).finished(),
        ensures
            final(self).wf(),
            final(self).stages == old(self).stages,
            final(self).next_index == old(self).next_index + 1,
            final(self).combined_stdout@ == old(self).combined_stdout@ + stage_section(
                old(self).stages@[old(self).next_index as int]@,
                "STDOUT"@,
                stdout@,
            ),
            final(self).combined_stderr@ == old(self).combined_stderr@ + stage_section(
                old(self).stages@[old(self).next_index as int]@,
                "STDERR"@,
                stderr@,
            ),
            final(self).last_exit_code == exit_code,
            final(self).last_stderr@ == stderr@,
            final(self).stopped == (exit_code != 0),
    {
        let idx = self.next_index;
        let n = self.stages.len();
        assert(idx < n);
        let label = uppercase(self.stages[idx].as_str());
        self.combined_stdout.append("\n--- ");
        self.combined_stdout.append(label.as_str());
        self.combined_stdout.append(" ");
        self.combined_stdout.append("STDOUT");
        self.combined_stdout.append(" ---\n");
        self.combined_stdout.append(stdout);
        self.combined_stderr.append("\n--- ");
        self.combined_stderr.append(label.as_str());
        self.combined_stderr.append(" ");
        self.combined_stderr.append("STDERR");
        self.combined_stderr.append(" ---\n");
        self.combined_stderr.append(stderr);
        self.last_exit_code = exit_code;
        self.last_stderr = String::from_str(stderr);
        self.stopped = exit_code != 0;
        self.next_index = idx + 1;
        proof {
            let st = old(self).stages@[old(self).next_index as int]@;
            assert(self.combined_stdout@ =~= old(self).combined_stdout@ + stage_section(st, "STDOUT"@, stdout@));
            assert(self.combined_stderr@ =~= old(self).combined_stderr@ + stage_section(st, "STDERR"@, stderr@));
        }
    }

    /// Whether every stage has run and passed.
    pub fn passed(&self) -> (r: bool)
        requires
            self.wf(),
        ensures
            r == (!self.stopped && self.next_index == self.stages@.len()),
    {
        !self.stopped && self.next_index == self.stages.len()
    }
}

/// The stages run after each generation step, in order.
pub fn default_verification_stages() -> (r: Vec<String>)
    ensures
        r@.len() == 4,
        r@[0]@ == "fmt"@,
        r@[1]@ == "check"@,
        r@[2]@ == "clippy"@,
        r@[3]@ == "test"@,
{
    let mut v: Vec<String> = Vec::new();
    v.push(String::from_str("fmt"));
    v.push(String::from_str("check"));
    v.push(String::from_str("clippy"));
    v.push(String::from_str("test"));
    v
}

/// The cargo arguments that run the stage `stage`.
pub open spec fn stage_arguments(stage: Seq<char>) -> Option<Seq<Seq<char>>> {
    if stage == "fmt"@ {
        Some(seq!["fmt"@, "--all"@, "--check"@])
    } else if stage == "clippy"@ {
        Some(seq!["clippy"@, "--all-targets"@, "--all-features"@, "--"@, "-D"@, "warnings"@])
    } else if stage == "test"@ {
        Some(seq!["test"@, "--all-targets"@, "--all-features"@, "--no-fail-fast"@])
    } else if stage == "check"@ {
        Some(seq!["check"@, "--all-targets"@, "--all-features"@])
    } else {
        None
    }
}

/// The cargo arguments of a verification stage; an unknown stage name is an
/// `Operation` error naming it.
pub fn verification_stage_args(stage: &str) -> (r: Result<Vec<String>, AppError>)
    ensures
        match stage_arguments(stage@) {
            Some(args) => r is Ok && texts(r->Ok_0@) == args,
            None => r is Err && (match r {
                Err(AppError::Operation(m)) => m@ == "Unknown verification stage: "@ + stage@,
                _ => false,
            }),
        },
{
    let parts: &[&str] = if same_text(stage, "fmt") {
        &["fmt", "--all", "--check"]
    } else if same_text(stage, "clippy") {
        &["clippy", "--all-targets", "--all-features", "--", "-D", "warnings"]
    } else if same_text(stage, "test") {
        &["test", "--all-targets", "--all-features", "--no-fail-fast"]
    } else if same_text(stage, "check") {
        &["check", "--all-targets", "--all-features"]
    } else {
        let mut m = String::from_str("Unknown verification stage: ");
        m.append(stage);
        return Err(AppError::Operation(m));
    };
    let v = owned_strings(parts);
    assert(texts(v@) =~= stage_arguments(stage@)->Some_0);
    Ok(v)
}

/// The log message for one finished stage of task `task_id`.
pub fn stage_log_message(stage: &str, task_id: &str, exit_code: i32) -> (r: String)
    ensures
        r@ == "Verification stage '"@ + stage@ + "' "@ + (if exit_code == 0 { "PASSED"@ } else { "FAILED"@ })
            + " for task "@ + task_id@,
{
    let mut m = String::from_str("Verification stage '");
    m.append(stage);
    m.append("' ");
    if exit_code == 0 {
        m.append("PASSED");
    } else {
        m.append("FAILED");
    }
    m.append(" for task ");
    m.append(task_id);
    m
}

} // verus!
