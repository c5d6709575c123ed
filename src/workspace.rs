//! The project workspace: its directory layout, and the file operations that
//! apply a generation step's output.

use vstd::prelude::*;
use crate::error::AppError;
use crate::models::{ChangedFileContent, CoderOutput, FileAction};

verus! {

/// `rel` appended to the path `base` as a further component: an absolute
/// `rel` replaces `base`, and a `/` separates the two unless `base` is empty
/// or already ends with one.
pub open spec fn joined(base: Seq<char>, rel: Seq<char>) -> Seq<char> {
    if rel.len() > 0 && rel[0] == '/' {
        rel
    } else if base.len() == 0 || base.last() == '/' {
        base + rel
    } else {
        base + "/"@ + rel
    }
}

/// The path `rel` appended to `base` as a further component.
pub fn join_path(base: &str, rel: &str) -> (r: String)
    ensures
        r@ == joined(base@, rel@),
{
    let nb = base.unicode_len();
    let nr = rel.unicode_len();
    if nr > 0 && rel.get_char(0) == '/' {
        return String::from_str(rel);
    }
    let mut out = String::from_str(base);
    if !(nb == 0 || base.get_char(nb - 1) == '/') {
        out.append("/");
    }
    out.append(rel);
    out
}

/// One file operation that applies a generation step's output.
#[derive(Debug, Clone)]
pub struct PlannedFileChange {
    /// The file's full path.
    pub full_path: String,
    /// Write the content (`Created`, `Modified`) or remove the file (`Deleted`).
    pub action: FileAction,
    pub content: String,
}

/// `p` applies the change `c` below the directory `dir`.
pub open spec fn plans_change(dir: Seq<char>, c: ChangedFileContent, p: PlannedFileChange) -> bool {
    &&& p.full_path@ == joined(dir, c.relative_path@)
    &&& p.action == c.action
    &&& p.content == c.content
}

/// The generated documents that are written: deleting a document is not applied.
pub open spec fn written_docs(docs: Seq<ChangedFileContent>) -> Seq<ChangedFileContent> {
    docs.filter(|d: ChangedFileContent| !(d.action is Deleted))
}

/// The project's workspace.
pub struct WorkspaceService {
    current_project_root: Option<String>,
}

impl WorkspaceService {
    /// The project root, once one is set.
    pub closed spec fn root(&self) -> Option<String> {
        self.current_project_root
    }

    /// A workspace with no project root yet.
    pub fn new() -> (r: WorkspaceService)
        ensures
            r.root() is None,
    {
        WorkspaceService { current_project_root: None }
    }

    /// Sets the project root.
    pub fn set_project_root(&mut self, path: String) -> (r: Result<(), AppError>)
        ensures
            r is Ok,
            final(self).root() == Some(path),
    {
        self.current_project_root = Some(path);
        Ok(())
    }

    /// The project root; a `Config` error while none is set.
    pub fn get_project_root(&self) -> (r: Result<&String, AppError>)
        ensures
            match self.root() {
                Some(p) => r == Ok::<&String, AppError>(&p),
                None => match r {
                    Err(AppError::Config(m)) => m@ == "Project root not set"@,
                    _ => false,
                },
            },
    {
        match &self.current_project_root {
            Some(p) => Ok(p),
            None => Err(AppError::Config(String::from_str("Project root not set"))),
        }
    }

    /// A directory below the project root.
    fn subdirectory(&self, name: &str) -> (r: Result<String, AppError>)
        ensures
            match self.root() {
                Some(p) => r is Ok && r->Ok_0@ == joined(p@, name@),
                None => match r {
                    Err(AppError::Config(m)) => m@ == "Project root not set"@,
                    _ => false,
                },
            },
    {
        let root = self.get_project_root()?;
        Ok(join_path(root.as_str(), name))
    }

    /// The directory holding the generated code.
    pub fn get_codebase_root(&self) -> (r: Result<String, AppError>)
        ensures
            match self.root() {
                Some(p) => r is Ok && r->Ok_0@ == joined(p@, "codebase"@),
                None => r is Err,
            },
    {
        self.subdirectory("codebase")
    }

    /// The directory holding the documentation of the generated code.
    pub fn get_codebase_docs_root(&self) -> (r: Result<String, AppError>)
        ensures
            match self.root() {
                Some(p) => r is Ok && r->Ok_0@ == joined(p@, "codebase-docs"@),
                None => r is Err,
            },
    {
        self.subdirectory("codebase-docs")
    }

    /// The directory holding the project's documents.
    pub fn get_docs_root(&self) -> (r: Result<String, AppError>)
        ensures
            match self.root() {
                Some(p) => r is Ok && r->Ok_0@ == joined(p@, "docs"@),
                None => r is Err,
            },
    {
        self.subdirectory("docs")
    }

    /// The file operations that apply `coder_output`: each changed file below
    /// the code directory, in order, then each generated document that is not
    /// a deletion below the code documentation directory. A `Config` error
    /// while no project root is set.
    pub fn plan_coder_output(&self, coder_output: &CoderOutput) -> (r: Result<Vec<PlannedFileChange>, AppError>)
        ensures
            self.root() is None ==> r is Err,
            self.root() is Some ==> {
                let code_dir = joined(self.root()->Some_0@, "codebase"@);
                let docs_dir = joined(self.root()->Some_0@, "codebase-docs"@);
                let files = coder_output.changed_files@;
                let docs = written_docs(coder_output.generated_docs@);
                &&& r is Ok
                &&& r->Ok_0@.len() == files.len() + docs.len()
                &&& forall|i: int| 0 <= i < files.len() ==> plans_change(code_dir, files[i], #[trigger] r->Ok_0@[i])
                &&& forall|i: int| 0 <= i < docs.len() ==> plans_change(docs_dir, docs[i], #[trigger] r->Ok_0@[files.len() + i])
            },
    {
        let code_dir = self.get_codebase_root()?;
        let docs_dir = self.get_codebase_docs_root()?;
        let mut plan: Vec<PlannedFileChange> = Vec::new();
        let files = &coder_output.changed_files;
        let mut i: usize = 0;
        while i < files.len()
            invariant
                0 <= i <= files@.len(),
                plan@.len() == i,
                forall|j: int| 0 <= j < i ==> plans_change(code_dir@, files@[j], #[trigger] plan@[j]),
            decreases files@.len() - i,
        {
            let c = &files[i];
            plan.push(
                PlannedFileChange {
                    full_path: join_path(code_dir.as_str(), c.relative_path.as_str()),
                    action: c.action,
                    content: c.content.clone(),
                },
            );
            i = i + 1;
        }
        let docs = &coder_output.generated_docs;
        let ghost written: Seq<ChangedFileContent> = Seq::empty();
        let mut k: usize = 0;
        while k < docs.len()
            invariant
                0 <= k <= docs@.len(),
                written == written_docs(docs@.take(k as int)),
                plan@.len() == files@.len() + written.len(),
                forall|j: int| 0 <= j < files@.len() ==> plans_change(code_dir@, files@[j], #[trigger] plan@[j]),
                forall|j: int| 0 <= j < written.len() ==> plans_change(docs_dir@, written[j], #[trigger] plan@[files@.len() + j]),
            decreases docs@.len() - k,
        {
            let d = &docs[k];
            proof {
                assert(docs@.take(k as int + 1).drop_last() =~= docs@.take(k as int));
                reveal(Seq::filter);
            }
            match d.action {
                FileAction::Deleted => {},
                _ => {
                    plan.push(
                        PlannedFileChange {
                            full_path: join_path(docs_dir.as_str(), d.relative_path.as_str()),
                            action: d.action,
                            content: d.content.clone(),
                        },
                    );
                    proof {
                        written = written.push(*d);
                    }
                },
            }
            k = k + 1;
        }
        proof {
            assert(docs@.take(docs@.len() as int) =~= docs@);
        }
        Ok(plan)
    }
}

} // verus!
