//! Types of the tool protocol through which outside agents reach the workspace.

use vstd::prelude::*;
use crate::models::ChangedFileContent;

verus! {

/// Client of the internal tool server.
#[derive(Debug)]
pub struct McpClientService {}

impl McpClientService {
    /// A client for the tool server on `_internal_server_port`.
    pub fn new(_internal_server_port: u16) -> (r: McpClientService) {
        McpClientService {}
    }
}

/// Reads a file relative to the project root.
#[derive(Debug, Clone)]
pub struct GetFileContentTool {
    pub relative_path: String,
}

/// Full-text search over the project's code, documentation and specifications.
#[derive(Debug, Clone)]
pub struct ProjectSearchTool {
    pub query: String,
    pub doc_type_filter: Option<String>,
    pub limit: Option<usize>,
}

/// Applies file changes to the workspace and commits them.
#[derive(Debug)]
pub struct ApplyChangesTool {
    pub changes: Vec<ChangedFileContent>,
    pub commit_message: String,
}

} // verus!
