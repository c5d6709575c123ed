//! Per-project layout configuration.

use vstd::prelude::*;

verus! {

/// Where a project keeps its code, specifications and documentation.
#[derive(Debug, Clone)]
pub struct ProjectConfig {
    pub code_root: String,
    pub specs_dir: String,
    pub architecture_file: String,
    pub code_docs_dir: String,
    pub enabled_internal_tools: Vec<String>,
}

impl Default for ProjectConfig {
    /// The layout used when a project has no configuration file: code at the
    /// project root, documents under `docs/`, every internal tool enabled.
    fn default() -> (r: ProjectConfig)
        ensures
            r.code_root@ == "."@,
            r.specs_dir@ == "docs/specifications"@,
            r.architecture_file@ == "docs/architecture.md"@,
            r.code_docs_dir@ == "docs/code_documentation"@,
            r.enabled_internal_tools@.len() == 1,
            r.enabled_internal_tools@[0]@ == "*"@,
    {
        let mut tools: Vec<String> = Vec::new();
        tools.push(String::from_str("*"));
        ProjectConfig {
            code_root: String::from_str("."),
            specs_dir: String::from_str("docs/specifications"),
            architecture_file: String::from_str("docs/architecture.md"),
            code_docs_dir: String::from_str("docs/code_documentation"),
            enabled_internal_tools: tools,
        }
    }
}

} // verus!
