use cognito_pilot::config::ProjectConfig;
use cognito_pilot::error::AppError;
use cognito_pilot::file_list::{
    build_ignore_patterns, exclusion_glob, filter_by_extensions, generate_cache_key, get_language_extensions,
    extensions_for_language, matched_term_indices, term_matches_path, QueryTerm,
};
use cognito_pilot::mcp::McpClientService;
use cognito_pilot::models::{crate_info_from_summary, ChangedFileContent, CoderOutput, CrateApprovalStatus, FileAction};
use cognito_pilot::pipeline::{default_verification_stages, stage_log_message, verification_stage_args, VerificationRun};
use cognito_pilot::text::{first_lines, push_decimal, push_signed_decimal, same_text};
use cognito_pilot::workspace::{join_path, WorkspaceService};

#[test]
fn stage_arguments() {
    assert_eq!(verification_stage_args("fmt").unwrap(), vec!["fmt", "--all", "--check"]);
    assert_eq!(
        verification_stage_args("clippy").unwrap(),
        vec!["clippy", "--all-targets", "--all-features", "--", "-D", "warnings"]
    );
    assert_eq!(verification_stage_args("check").unwrap(), vec!["check", "--all-targets", "--all-features"]);
    assert_eq!(
        verification_stage_args("lint"),
        Err(AppError::Operation("Unknown verification stage: lint".into()))
    );
    assert_eq!(default_verification_stages(), vec!["fmt", "check", "clippy", "test"]);
}

#[test]
fn pipeline_stops_at_first_failure_and_labels_output() {
    let mut run = VerificationRun::new(default_verification_stages());
    run.record_stage_result("a", "", 0);
    run.record_stage_result("b", "bad", 2);
    assert!(run.next_stage().is_none());
    assert!(!run.passed());
    assert_eq!(run.next_index, 2);
    assert_eq!(run.last_exit_code, 2);
    assert_eq!(run.combined_stdout, "\n--- FMT STDOUT ---\na\n--- CHECK STDOUT ---\nb");
    assert_eq!(run.combined_stderr, "\n--- FMT STDERR ---\n\n--- CHECK STDERR ---\nbad");
}

#[test]
fn pipeline_all_passing() {
    let mut run = VerificationRun::new(vec!["check".into()]);
    run.record_stage_result("", "", 0);
    assert!(run.passed());
    assert_eq!(run.last_exit_code, 0);
    let empty = VerificationRun::new(vec![]);
    assert!(empty.passed());
    assert!(empty.next_stage().is_none());
}

#[test]
fn stage_messages() {
    assert_eq!(stage_log_message("test", "T1", 0), "Verification stage 'test' PASSED for task T1");
    assert_eq!(stage_log_message("fmt", "T2", 1), "Verification stage 'fmt' FAILED for task T2");
}

#[test]
fn decimal_text() {
    let mut s = String::new();
    push_decimal(&mut s, 0);
    push_decimal(&mut s, 1907);
    assert_eq!(s, "01907");
    let mut n = String::new();
    push_signed_decimal(&mut n, -45);
    assert_eq!(n, "-45");
    let mut m = String::new();
    push_decimal(&mut m, u64::MAX);
    assert_eq!(m, u64::MAX.to_string());
}

#[test]
fn leading_lines() {
    assert_eq!(first_lines("", 5), "");
    assert_eq!(first_lines("x\n", 5), "x");
    assert_eq!(first_lines("a\n\nb\r\nc", 3), "a\n\nb");
    assert_eq!(first_lines("a\rb", 1), "a\rb");
    assert!(same_text("abc", "abc"));
    assert!(!same_text("abc", "abd"));
}

#[test]
fn path_joining() {
    assert_eq!(join_path("/p", "codebase"), "/p/codebase");
    assert_eq!(join_path("/p/", "codebase"), "/p/codebase");
    assert_eq!(join_path("", "codebase"), "codebase");
    assert_eq!(join_path("/p", "/abs"), "/abs");
}

#[test]
fn workspace_layout() {
    let mut ws = WorkspaceService::new();
    assert_eq!(ws.get_project_root(), Err(AppError::Config("Project root not set".into())));
    assert!(ws.get_codebase_root().is_err());
    assert_eq!(ws.set_project_root("/proj".into()), Ok(()));
    assert_eq!(ws.get_project_root().unwrap(), "/proj");
    assert_eq!(ws.get_codebase_root().unwrap(), "/proj/codebase");
    assert_eq!(ws.get_codebase_docs_root().unwrap(), "/proj/codebase-docs");
    assert_eq!(ws.get_docs_root().unwrap(), "/proj/docs");
}

#[test]
fn plan_of_generated_output() {
    let mut ws = WorkspaceService::new();
    let change = |p: &str, a: FileAction| ChangedFileContent { relative_path: p.into(), content: format!("<{}>", p), action: a };
    let out = CoderOutput {
        task_id: "T1".into(),
        changed_files: vec![change("src/lib.rs", FileAction::Modified), change("old.rs", FileAction::Deleted)],
        generated_docs: vec![change("lib.md", FileAction::Created), change("gone.md", FileAction::Deleted)],
        notes: None,
        success: true,
        error_message: None,
    };
    assert!(ws.plan_coder_output(&out).is_err());
    ws.set_project_root("/p".into()).unwrap();
    let plan = ws.plan_coder_output(&out).unwrap();
    assert_eq!(plan.len(), 3);
    assert_eq!(plan[0].full_path, "/p/codebase/src/lib.rs");
    assert_eq!(plan[0].action, FileAction::Modified);
    assert_eq!(plan[0].content, "<src/lib.rs>");
    assert_eq!(plan[1].full_path, "/p/codebase/old.rs");
    assert_eq!(plan[1].action, FileAction::Deleted);
    assert_eq!(plan[2].full_path, "/p/codebase-docs/lib.md");
}

#[test]
fn language_extensions() {
    assert_eq!(get_language_extensions("Rust"), vec![".rs"]);
    assert_eq!(get_language_extensions("CPP"), vec![".cpp", ".cc", ".cxx", ".hpp", ".hxx", ".h"]);
    assert!(get_language_extensions("cobol").is_empty());
}

#[test]
fn cache_keys() {
    assert_eq!(generate_cache_key("/src", true, &vec![]), "/src_with_tests_no_ignores");
    let mut h: u64 = 0;
    for b in "ab".bytes().chain("c".bytes()) {
        h = h.wrapping_mul(31).wrapping_add(b as u64);
    }
    assert_eq!(
        generate_cache_key("/src", false, &vec!["ab".to_string(), "c".to_string()]),
        format!("/src_no_tests_ignores_{:x}", h)
    );
    assert_eq!(generate_cache_key("d", false, &vec!["a".to_string()]), "d_no_tests_ignores_61");
}

#[test]
fn default_config() {
    let c = ProjectConfig::default();
    assert_eq!(c.code_root, ".");
    assert_eq!(c.specs_dir, "docs/specifications");
    assert_eq!(c.architecture_file, "docs/architecture.md");
    assert_eq!(c.code_docs_dir, "docs/code_documentation");
    assert_eq!(c.enabled_internal_tools, vec!["*"]);
    let _client = McpClientService::new(4000);
}

#[test]
fn ignore_patterns_with_and_without_tests() {
    let with_tests = build_ignore_patterns(true, &vec!["*.gen".to_string()]);
    assert_eq!(with_tests.len(), 46);
    assert_eq!(with_tests[0], "node_modules");
    assert_eq!(with_tests[44], "go.sum");
    assert_eq!(with_tests[45], "*.gen");
    let no_tests = build_ignore_patterns(false, &vec![]);
    assert_eq!(no_tests.len(), 45 + 31);
    assert_eq!(no_tests[45], "*_test.rs");
    assert_eq!(no_tests[75], "**/specs/**");
    assert_eq!(exclusion_glob("target"), "!**/target");
}

#[test]
fn extension_filter() {
    let files: Vec<String> = vec!["src/a.rs".into(), "b.py".into(), "Makefile".into(), "c.RS".into(), "d.rs".into()];
    assert_eq!(filter_by_extensions(&files, &vec![".rs".to_string()]), vec!["src/a.rs", "d.rs"]);
    assert_eq!(filter_by_extensions(&files, &vec![]), files);
    assert_eq!(filter_by_extensions(&files, &get_language_extensions("python")), vec!["b.py"]);
}

#[test]
fn term_and_path_tokens() {
    let v = |xs: &[&str]| xs.iter().map(|x| x.to_string()).collect::<Vec<String>>();
    assert!(term_matches_path(&v(&["config"]), &v(&["src", "configuration", "rs"])));
    assert!(term_matches_path(&v(&["parserstate"]), &v(&["parser"])));
    assert!(!term_matches_path(&v(&["cache"]), &v(&["src", "main", "rs"])));
    assert!(!term_matches_path(&v(&[]), &v(&["a"])));
}

#[test]
fn crate_info_needs_summary() {
    assert!(crate_info_from_summary("serde".into(), None).is_none());
    let info = crate_info_from_summary("serde".into(), Some("Serialization framework".into())).unwrap();
    assert_eq!(info.name, "serde");
    assert_eq!(info.approval_status, CrateApprovalStatus::Pending);
    assert_eq!(info.documentation_summary, Some("Serialization framework".to_string()));
    assert_eq!(info.version, None);
}

#[test]
fn matched_terms_in_order() {
    let v = |xs: &[&str]| xs.iter().map(|x| x.to_string()).collect::<Vec<String>>();
    let terms = vec![
        QueryTerm { tokens: v(&["cache"]), index: 4 },
        QueryTerm { tokens: v(&["file", "list"]), index: 1 },
        QueryTerm { tokens: v(&["search"]), index: 0 },
    ];
    assert_eq!(matched_term_indices(&terms, &v(&["src", "search", "file_list_cache", "rs"])), vec![4, 1, 0]);
    assert_eq!(matched_term_indices(&terms, &v(&["main"])), Vec::<usize>::new());
}

#[test]
fn extensions_by_lowercase_name() {
    assert_eq!(extensions_for_language("typescript"), vec![".ts", ".tsx"]);
    assert!(extensions_for_language("Rust").is_empty());
}
