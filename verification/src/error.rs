//! The failures the library reports, and the message of each.

use vstd::prelude::*;
use crate::text::{signed_decimal, push_signed_decimal};

verus! {

/// A failure, with its texts as plain sequences.
pub enum WtErrorModel {
    ConfigNotFound,
    ConfigRead(Seq<char>),
    ConfigParse(Seq<char>),
    TaskNotFound(Seq<char>),
    TaskExists(Seq<char>),
    DependencyNotFound(Seq<char>),
    DependencyNotMerged { task: Seq<char>, dep: Seq<char> },
    Git(Seq<char>),
    Tmux(Seq<char>),
    AlreadyRunning(Seq<char>),
    BranchExists(Seq<char>),
    InvalidTaskFile(Seq<char>),
    InvalidJson(Seq<char>),
    InvalidInput(Seq<char>),
    Io { operation: Seq<char>, path: Seq<char>, message: Seq<char> },
    Script { script: Seq<char>, message: Seq<char> },
    InvalidStateTransition { from: Seq<char>, to: Seq<char> },
    HasDependents { task: Seq<char>, dependent: Seq<char>, status: Seq<char> },
    CannotReviewRunning(Seq<char>),
    WorktreeNotFound(Seq<char>),
    TranscriptNotFound(Seq<char>),
    TranscriptParseFailed(Seq<char>),
    NoSessionId(Seq<char>),
    NoAssistantMessages(Seq<char>),
    TaskNotDone(Seq<char>),
    TaskNotStarted(Seq<char>),
    ScriptFailed { script: Seq<char>, exit_code: Option<i32> },
}

/// A failure of a library operation.
#[derive(Debug)]
pub enum WtError {
    /// The configuration file is missing.
    ConfigNotFound,
    /// The configuration file could not be read.
    ConfigRead(String),
    /// The configuration file is not valid.
    ConfigParse(String),
    /// No task of that name is defined.
    TaskNotFound(String),
    /// A task of that name is already defined.
    TaskExists(String),
    /// A dependency names a task that is not defined.
    DependencyNotFound(String),
    /// A dependency has not reached merged or archived.
    DependencyNotMerged { task: String, dep: String },
    /// A git command failed.
    Git(String),
    /// A tmux command failed.
    Tmux(String),
    /// The task is running already.
    AlreadyRunning(String),
    /// The branch a start would create is in use.
    BranchExists(String),
    /// A task definition is malformed.
    InvalidTaskFile(String),
    /// A JSON input is malformed.
    InvalidJson(String),
    /// A command was given input it cannot act on.
    InvalidInput(String),
    /// Reading or writing a file failed.
    Io { operation: String, path: String, message: String },
    /// A script could not be run.
    Script { script: String, message: String },
    /// The lifecycle has no such transition.
    InvalidStateTransition { from: String, to: String },
    /// Another task that is under way depends on this one.
    HasDependents { task: String, dependent: String, status: String },
    /// The task's agent is still at work.
    CannotReviewRunning(String),
    /// The task's worktree is gone.
    WorktreeNotFound(String),
    /// The task's transcript is missing.
    TranscriptNotFound(String),
    /// The task's transcript could not be read.
    TranscriptParseFailed(String),
    /// The task's instance records no session.
    NoSessionId(String),
    /// The transcript holds no assistant message.
    NoAssistantMessages(String),
    /// The task is not done.
    TaskNotDone(String),
    /// The task has not been started.
    TaskNotStarted(String),
    /// A script ended with a failure status.
    ScriptFailed { script: String, exit_code: Option<i32> },
}

impl View for WtError {
    type V = WtErrorModel;

    open spec fn view(&self) -> WtErrorModel {
        match self {
            WtError::ConfigNotFound => WtErrorModel::ConfigNotFound,
            WtError::ConfigRead(a) => WtErrorModel::ConfigRead(a@),
            WtError::ConfigParse(a) => WtErrorModel::ConfigParse(a@),
            WtError::TaskNotFound(a) => WtErrorModel::TaskNotFound(a@),
            WtError::TaskExists(a) => WtErrorModel::TaskExists(a@),
            WtError::DependencyNotFound(a) => WtErrorModel::DependencyNotFound(a@),
            WtError::DependencyNotMerged { task, dep } => WtErrorModel::DependencyNotMerged { task: task@, dep: dep@ },
            WtError::Git(a) => WtErrorModel::Git(a@),
            WtError::Tmux(a) => WtErrorModel::Tmux(a@),
            WtError::AlreadyRunning(a) => WtErrorModel::AlreadyRunning(a@),
            WtError::BranchExists(a) => WtErrorModel::BranchExists(a@),
            WtError::InvalidTaskFile(a) => WtErrorModel::InvalidTaskFile(a@),
            WtError::InvalidJson(a) => WtErrorModel::InvalidJson(a@),
            WtError::InvalidInput(a) => WtErrorModel::InvalidInput(a@),
            WtError::Io { operation, path, message } => WtErrorModel::Io { operation: operation@, path: path@, message: message@ },
            WtError::Script { script, message } => WtErrorModel::Script { script: script@, message: message@ },
            WtError::InvalidStateTransition { from, to } => WtErrorModel::InvalidStateTransition { from: from@, to: to@ },
            WtError::HasDependents { task, dependent, status } => WtErrorModel::HasDependents { task: task@, dependent: dependent@, status: status@ },
            WtError::CannotReviewRunning(a) => WtErrorModel::CannotReviewRunning(a@),
            WtError::WorktreeNotFound(a) => WtErrorModel::WorktreeNotFound(a@),
            WtError::TranscriptNotFound(a) => WtErrorModel::TranscriptNotFound(a@),
            WtError::TranscriptParseFailed(a) => WtErrorModel::TranscriptParseFailed(a@),
            WtError::NoSessionId(a) => WtErrorModel::NoSessionId(a@),
            WtError::NoAssistantMessages(a) => WtErrorModel::NoAssistantMessages(a@),
            WtError::TaskNotDone(a) => WtErrorModel::TaskNotDone(a@),
            WtError::TaskNotStarted(a) => WtErrorModel::TaskNotStarted(a@),
            WtError::ScriptFailed { script, exit_code } => WtErrorModel::ScriptFailed {
                script: script@,
                exit_code: *exit_code,
            },
        }
    }
}

/// How an optional exit code is written out.
pub open spec fn exit_code_text(code: Option<i32>) -> Seq<char> {
    match code {
        Some(c) => "Some("@ + signed_decimal(c as int) + ")"@,
        None => "None"@,
    }
}

impl WtErrorModel {
    /// The message shown for the failure.
    pub open spec fn message(self) -> Seq<char> {
        match self {
            WtErrorModel::ConfigNotFound => "Config file .wt.yaml not found in current directory"@,
            WtErrorModel::ConfigRead(a) => "Failed to read config: "@ + a,
            WtErrorModel::ConfigParse(a) => "Failed to parse config: "@ + a,
            WtErrorModel::TaskNotFound(a) => "Task '"@ + a + "' not found"@,
            WtErrorModel::TaskExists(a) => "Task '"@ + a + "' already exists"@,
            WtErrorModel::DependencyNotFound(a) => "Dependency '"@ + a + "' not found"@,
            WtErrorModel::DependencyNotMerged { task, dep } => "Cannot start task '"@ + task + "': dependency '"@ + dep + "' is not merged"@,
            WtErrorModel::Git(a) => "Git command failed: "@ + a,
            WtErrorModel::Tmux(a) => "Tmux command failed: "@ + a,
            WtErrorModel::AlreadyRunning(a) => "Task '"@ + a + "' is already running"@,
            WtErrorModel::BranchExists(a) => "Branch '"@ + a + "' already exists.\nHint: Run `git branch -D "@ + a + "` to delete it, then retry."@,
            WtErrorModel::InvalidTaskFile(a) => "Invalid task file: "@ + a,
            WtErrorModel::InvalidJson(a) => "Invalid JSON: "@ + a,
            WtErrorModel::InvalidInput(a) => "Invalid input: "@ + a,
            WtErrorModel::Io { operation, path, message } => "IO error during "@ + operation + " on '"@ + path + "': "@ + message,
            WtErrorModel::Script { script, message } => "Failed to execute script '"@ + script + "': "@ + message,
            WtErrorModel::InvalidStateTransition { from, to } => "Invalid state transition: cannot change task from "@ + from + " to "@ + to,
            WtErrorModel::HasDependents { task, dependent, status } => "Cannot reset '"@ + task + "': task '"@ + dependent + "' depends on it and is "@ + status,
            WtErrorModel::CannotReviewRunning(a) => "Cannot review task '"@ + a + "': task is still running"@,
            WtErrorModel::WorktreeNotFound(a) => "Cannot review task '"@ + a + "': worktree no longer exists"@,
            WtErrorModel::TranscriptNotFound(a) => "Cannot review task '"@ + a + "': session transcript not found"@,
            WtErrorModel::TranscriptParseFailed(a) => "Cannot read transcript of task '"@ + a + "'"@,
            WtErrorModel::NoSessionId(a) => "Cannot review task '"@ + a + "': task has no session ID (started with older wt version)"@,
            WtErrorModel::NoAssistantMessages(a) => "No assistant messages found for task '"@ + a + "'"@,
            WtErrorModel::TaskNotDone(a) => "Task '"@ + a + "' is not in Done state"@,
            WtErrorModel::TaskNotStarted(a) => "Task '"@ + a + "' has not been started"@,
            WtErrorModel::ScriptFailed { script, exit_code } => "Script '"@ + script
                + "' failed with exit code: "@ + exit_code_text(exit_code),
        }
    }
}

impl WtError {
    /// The message shown for the failure.
    pub fn message(&self) -> (r: String)
        ensures
            r@ == self@.message(),
    {
        match self {
            WtError::ConfigNotFound => {
                let mut s = String::from_str("Config file .wt.yaml not found in current directory");
                s
            },
            WtError::ConfigRead(a) => {
                let mut s = String::from_str("Failed to read config: ");
                s.append(a.as_str());
                s
            },
            WtError::ConfigParse(a) => {
                let mut s = String::from_str("Failed to parse config: ");
                s.append(a.as_str());
                s
            },
            WtError::TaskNotFound(a) => {
                let mut s = String::from_str("Task '");
                s.append(a.as_str());
                s.append("' not found");
                s
            },
            WtError::TaskExists(a) => {
                let mut s = String::from_str("Task '");
                s.append(a.as_str());
                s.append("' already exists");
                s
            },
            WtError::DependencyNotFound(a) => {
                let mut s = String::from_str("Dependency '");
                s.append(a.as_str());
                s.append("' not found");
                s
            },
            WtError::DependencyNotMerged { task, dep } => {
                let mut s = String::from_str("Cannot start task '");
                s.append(task.as_str());
                s.append("': dependency '");
                s.append(dep.as_str());
                s.append("' is not merged");
                s
            },
            WtError::Git(a) => {
                let mut s = String::from_str("Git command failed: ");
                s.append(a.as_str());
                s
            },
            WtError::Tmux(a) => {
                let mut s = String::from_str("Tmux command failed: ");
                s.append(a.as_str());
                s
            },
            WtError::AlreadyRunning(a) => {
                let mut s = String::from_str("Task '");
                s.append(a.as_str());
                s.append("' is already running");
                s
            },
            WtError::BranchExists(a) => {
                let mut s = String::from_str("Branch '");
                s.append(a.as_str());
                s.append("' already exists.\nHint: Run `git branch -D ");
                s.append(a.as_str());
                s.append("` to delete it, then retry.");
                s
            },
            WtError::InvalidTaskFile(a) => {
                let mut s = String::from_str("Invalid task file: ");
                s.append(a.as_str());
                s
            },
            WtError::InvalidJson(a) => {
                let mut s = String::from_str("Invalid JSON: ");
                s.append(a.as_str());
                s
            },
            WtError::InvalidInput(a) => {
                let mut s = String::from_str("Invalid input: ");
                s.append(a.as_str());
                s
            },
            WtError::Io { operation, path, message } => {
                let mut s = String::from_str("IO error during ");
                s.append(operation.as_str());
                s.append(" on '");
                s.append(path.as_str());
                s.append("': ");
                s.append(message.as_str());
                s
            },
            WtError::Script { script, message } => {
                let mut s = String::from_str("Failed to execute script '");
                s.append(script.as_str());
                s.append("': ");
                s.append(message.as_str());
                s
            },
            WtError::InvalidStateTransition { from, to } => {
                let mut s = String::from_str("Invalid state transition: cannot change task from ");
                s.append(from.as_str());
                s.append(" to ");
                s.append(to.as_str());
                s
            },
            WtError::HasDependents { task, dependent, status } => {
                let mut s = String::from_str("Cannot reset '");
                s.append(task.as_str());
                s.append("': task '");
                s.append(dependent.as_str());
                s.append("' depends on it and is ");
                s.append(status.as_str());
                s
            },
            WtError::CannotReviewRunning(a) => {
                let mut s = String::from_str("Cannot review task '");
                s.append(a.as_str());
                s.append("': task is still running");
                s
            },
            WtError::WorktreeNotFound(a) => {
                let mut s = String::from_str("Cannot review task '");
                s.append(a.as_str());
                s.append("': worktree no longer exists");
                s
            },
            WtError::TranscriptNotFound(a) => {
                let mut s = String::from_str("Cannot review task '");
                s.append(a.as_str());
                s.append("': session transcript not found");
                s
            },
            WtError::TranscriptParseFailed(a) => {
                let mut s = String::from_str("Cannot read transcript of task '");
                s.append(a.as_str());
                s.append("'");
                s
            },
            WtError::NoSessionId(a) => {
                let mut s = String::from_str("Cannot review task '");
                s.append(a.as_str());
                s.append("': task has no session ID (started with older wt version)");
                s
            },
            WtError::NoAssistantMessages(a) => {
                let mut s = String::from_str("No assistant messages found for task '");
                s.append(a.as_str());
                s.append("'");
                s
            },
            WtError::TaskNotDone(a) => {
                let mut s = String::from_str("Task '");
                s.append(a.as_str());
                s.append("' is not in Done state");
                s
            },
            WtError::TaskNotStarted(a) => {
                let mut s = String::from_str("Task '");
                s.append(a.as_str());
                s.append("' has not been started");
                s
            },
            WtError::ScriptFailed { script, exit_code } => {
                let mut s = String::from_str("Script '");
                s.append(script.as_str());
                s.append("' failed with exit code: ");
                match exit_code {
                    Some(c) => {
                        let ghost before = s@;
                        s.append("Some(");
                        push_signed_decimal(&mut s, *c as i64);
                        s.append(")");
                        proof {
                            assert(s@ =~= before + ("Some("@ + signed_decimal(*c as int) + ")"@));
                        }
                    },
                    None => {
                        s.append("None");
                    },
                }
                s
            },
        }
    }

    /// The message shown for the failure.
    pub fn to_string(&self) -> (r: String)
        ensures
            r@ == self@.message(),
    {
        self.message()
    }
}

} // verus!
