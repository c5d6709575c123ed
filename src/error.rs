//! The library's error type.

use vstd::prelude::*;

verus! {

/// Errors of the orchestration engine and its collaborators.
#[derive(Debug, Clone, PartialEq, Eq)]
pub enum AppError {
    Io(String),
    Serialization(String),
    Tauri(String),
    Agent { agent: String, task_id: Option<String>, message: String },
    Service { service: String, message: String },
    Config(String),
    Operation(String),
    Llm(String),
    HumanInputRequired { prompt: String },
    NotFound { resource_type: String, identifier: String },
    Verification { stage: String, details: String },
    TaskDependency { task_id: String, dependency_id: String },
    InvalidState { current_state: String, expected_state: String, operation: String },
}

} // verus!
