//! Task orchestration engine for an autonomous code-generation workflow:
//! the task graph model, dependency-aware task selection, the self-correction
//! policy, the verification pipeline driver and the per-iteration steps of the
//! orchestration loop, each stated and proved with Verus.

pub mod error;
pub mod models;
pub mod session;
pub mod graph;
pub mod selector;
pub mod policy;
pub mod pipeline;
pub mod orchestrator;
pub mod laws;
pub mod workspace;
pub mod config;
pub mod file_list;
pub mod mcp;
pub mod text;
