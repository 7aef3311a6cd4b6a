//! What the library asks of the process runner, and what comes back from it.

use vstd::prelude::*;
use crate::error::{WtError, WtErrorModel};
use crate::text::{opt_text, same_text, texts};

verus! {

/// A command to run, as plain sequences.
pub struct CommandModel {
    pub program: Seq<char>,
    pub args: Seq<Seq<char>>,
    pub cwd: Option<Seq<char>>,
}

/// A command to run: `program` with `args`, in the directory `cwd` where one is given.
/// The library lays commands out; whoever holds one runs it and reports the outcome.
#[derive(Debug)]
pub struct CommandRunner {
    pub program: String,
    pub args: Vec<String>,
    pub cwd: Option<String>,
}

impl View for CommandRunner {
    type V = CommandModel;

    open spec fn view(&self) -> CommandModel {
        CommandModel {
            program: self.program@,
            args: texts(self.args@),
            cwd: opt_text(self.cwd),
        }
    }
}

/// How a run of a program ended.
#[derive(Debug)]
pub struct Outcome {
    pub success: bool,
    pub stdout: String,
    pub stderr: String,
}

/// A run of `git` with `args`.
pub open spec fn git_call(args: Seq<Seq<char>>) -> CommandModel {
    CommandModel { program: "git"@, args, cwd: None }
}

/// A run of `git` with `args` in the directory `cwd`.
pub open spec fn git_call_in(cwd: Seq<char>, args: Seq<Seq<char>>) -> CommandModel {
    CommandModel { program: "git"@, args, cwd: Some(cwd) }
}

/// A run of `tmux` with `args`.
pub open spec fn tmux_call(args: Seq<Seq<char>>) -> CommandModel {
    CommandModel { program: "tmux"@, args, cwd: None }
}

impl CommandRunner {
    /// A request to run `program` without arguments.
    pub fn new(program: &str) -> (r: Self)
        ensures
            r@ == (CommandModel { program: program@, args: Seq::empty(), cwd: None }),
    {
        let r = CommandRunner { program: String::from_str(program), args: Vec::new(), cwd: None };
        assert(texts(r.args@) =~= Seq::<Seq<char>>::empty());
        r
    }

    /// A request to run `git`.
    pub fn git() -> (r: Self)
        ensures
            r@ == git_call(Seq::empty()),
    {
        CommandRunner::new("git")
    }

    /// A request to run `tmux`.
    pub fn tmux() -> (r: Self)
        ensures
            r@ == tmux_call(Seq::empty()),
    {
        CommandRunner::new("tmux")
    }

    /// The same request, to be run in `dir`.
    pub fn current_dir(self, dir: &str) -> (r: Self)
        ensures
            r@ == (CommandModel { cwd: Some(dir@), ..self@ }),
    {
        CommandRunner { program: self.program, args: self.args, cwd: Some(String::from_str(dir)) }
    }

    /// The same request with one more argument.
    pub fn arg(self, a: &str) -> (r: Self)
        ensures
            r@ == (CommandModel { args: self@.args.push(a@), ..self@ }),
    {
        let mut args = self.args;
        let ghost before = args@;
        args.push(String::from_str(a));
        assert(texts(args@) =~= texts(before).push(a@));
        CommandRunner { program: self.program, args, cwd: self.cwd }
    }
}

/// The failure of a run of `program` that wrote `message` to its error output: a failure
/// of tmux for `tmux`, and one of git for every other program.
pub open spec fn failure_of(program: Seq<char>, message: Seq<char>) -> WtErrorModel {
    if program == "tmux"@ {
        WtErrorModel::Tmux(message)
    } else {
        WtErrorModel::Git(message)
    }
}

impl CommandRunner {
    /// The failure of a run of this program that wrote `message` to its error output.
    pub fn failure(&self, message: &str) -> (r: WtError)
        ensures
            r@ == failure_of(self.program@, message@),
    {
        if same_text(self.program.as_str(), "tmux") {
            WtError::Tmux(String::from_str(message))
        } else {
            WtError::Git(String::from_str(message))
        }
    }

    /// What a run of this request that ended as `outcome` gives: nothing where it
    /// succeeded, and its error output as the failure of its program otherwise.
    pub fn check_status(&self, outcome: &Outcome) -> (r: Result<(), WtError>)
        ensures
            outcome.success ==> r is Ok,
            !outcome.success ==> r is Err && r->Err_0@ == failure_of(
                self.program@,
                outcome.stderr@,
            ),
    {
        if outcome.success {
            Ok(())
        } else {
            Err(self.failure(outcome.stderr.as_str()))
        }
    }

    /// What a run of this request that ended as `outcome` printed, where it succeeded;
    /// its error output as the failure of its program otherwise.
    pub fn printed(&self, outcome: &Outcome) -> (r: Result<String, WtError>)
        ensures
            outcome.success ==> r is Ok && r->Ok_0@ == outcome.stdout@,
            !outcome.success ==> r is Err && r->Err_0@ == failure_of(
                self.program@,
                outcome.stderr@,
            ),
    {
        if outcome.success {
            Ok(outcome.stdout.clone())
        } else {
            Err(self.failure(outcome.stderr.as_str()))
        }
    }
}

impl Outcome {
    /// What the run printed, where it succeeded; its error output as the failure
    /// otherwise.
    pub fn output(&self) -> (r: Result<String, String>)
        ensures
            self.success ==> r is Ok && r->Ok_0@ == self.stdout@,
            !self.success ==> r is Err && r->Err_0@ == self.stderr@,
    {
        if self.success {
            Ok(self.stdout.clone())
        } else {
            Err(self.stderr.clone())
        }
    }
}

} // verus!
