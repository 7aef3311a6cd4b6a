//! Setting up the worktree of a task: the files to copy into it and the script to run in
//! it.

use vstd::prelude::*;
use crate::error::{WtError, WtErrorModel};
use crate::services::command::{CommandRunner, CommandModel};
use crate::text::{path_join, path_joined, texts};

verus! {

/// One file to copy, as plain sequences.
pub struct CopyModel {
    pub file: Seq<char>,
    pub from: Seq<char>,
    pub to: Seq<char>,
}

/// One file to copy: its name, where it lies in the project, and where it goes in the
/// worktree.
#[derive(Debug)]
pub struct Copy {
    pub file: String,
    pub from: String,
    pub to: String,
}

impl View for Copy {
    type V = CopyModel;

    open spec fn view(&self) -> CopyModel {
        CopyModel { file: self.file@, from: self.from@, to: self.to@ }
    }
}

/// The views of a list of copies.
pub open spec fn copies(v: Seq<Copy>) -> Seq<CopyModel> {
    v.map_values(|c: Copy| c@)
}

/// What sets up a worktree: where the worktree lies and where the project lies.
#[derive(Debug)]
pub struct WorkspaceInitializer {
    pub worktree_path: String,
    pub source_dir: String,
}

/// The copies of `files` from `source_dir` into `worktree_path`.
pub open spec fn copies_of(
    worktree_path: Seq<char>,
    source_dir: Seq<char>,
    files: Seq<Seq<char>>,
) -> Seq<CopyModel> {
    files.map_values(
        |f: Seq<char>|
            CopyModel { file: f, from: path_joined(source_dir, f), to: path_joined(worktree_path, f) },
    )
}

impl WorkspaceInitializer {
    /// What sets up the worktree at `worktree_path` from the project at `source_dir`.
    pub fn new(worktree_path: &str, source_dir: &str) -> (r: Self)
        ensures
            r.worktree_path@ == worktree_path@,
            r.source_dir@ == source_dir@,
    {
        WorkspaceInitializer {
            worktree_path: String::from_str(worktree_path),
            source_dir: String::from_str(source_dir),
        }
    }

    /// Where each of `files` is copied from and to. A file that is not there in the
    /// project is passed over by whoever copies.
    pub fn copy_files(&self, files: &Vec<String>) -> (r: Vec<Copy>)
        ensures
            copies(r@) == copies_of(self.worktree_path@, self.source_dir@, texts(files@)),
    {
        let mut r: Vec<Copy> = Vec::new();
        let mut i: usize = 0;
        while i < files.len()
            invariant
                i <= files.len(),
                r.len() == i,
                forall|k: int|
                    0 <= k < i ==> (#[trigger] r@[k])@ == copies_of(
                        self.worktree_path@,
                        self.source_dir@,
                        texts(files@),
                    )[k],
            decreases files.len() - i,
        {
            let f = &files[i];
            r.push(
                Copy {
                    file: f.clone(),
                    from: path_join(self.source_dir.as_str(), f.as_str()),
                    to: path_join(self.worktree_path.as_str(), f.as_str()),
                },
            );
            i += 1;
        }
        assert(copies(r@) =~= copies_of(self.worktree_path@, self.source_dir@, texts(files@)));
        r
    }

    /// The run of `script` by the shell, with the worktree as its directory.
    pub fn run_init_script(&self, script: &str) -> (r: CommandRunner)
        ensures
            r@ == (CommandModel {
                program: "bash"@,
                args: seq!["-c"@, script@],
                cwd: Some(self.worktree_path@),
            }),
    {
        let r = CommandRunner::new("bash").current_dir(self.worktree_path.as_str()).arg("-c").arg(
            script,
        );
        assert(r@.args =~= seq!["-c"@, script@]);
        r
    }
}

/// What the end of a script means: a failure with the exit code, unless the script
/// succeeded.
pub fn script_result(script: &str, success: bool, exit_code: Option<i32>) -> (r: Result<
    (),
    WtError,
>)
    ensures
        success ==> r is Ok,
        !success ==> r is Err && r->Err_0@ == (WtErrorModel::ScriptFailed {
            script: script@,
            exit_code,
        }),
{
    if success {
        Ok(())
    } else {
        Err(WtError::ScriptFailed { script: String::from_str(script), exit_code })
    }
}

} // verus!
