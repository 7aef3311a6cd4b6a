//! The paths and naming conventions of a project.

use vstd::prelude::*;

verus! {

/// The directory of the task definitions.
pub const TASKS_DIR: &'static str = ".wt/tasks";

/// The configuration file.
pub const CONFIG_FILE: &'static str = ".wt/config.yaml";

/// Where worktrees go unless the configuration says otherwise.
pub const DEFAULT_WORKTREE_DIR: &'static str = ".wt/worktrees";

/// The tmux session used unless the configuration says otherwise.
pub const DEFAULT_TMUX_SESSION: &'static str = "wt";

/// What every branch of a task begins with.
pub const BRANCH_PREFIX: &'static str = "wt/";

/// The file of the runtime states.
pub const STATUS_FILE: &'static str = ".wt/status.json";

/// The directory of the extracted logs.
pub const LOGS_DIR: &'static str = ".wt/logs";

/// The directory of the backups that a reset makes.
pub const BACKUPS_DIR: &'static str = ".wt/backups";

/// Seconds without activity after which a running task counts as idle.
pub const IDLE_THRESHOLD_SECS: u64 = 120;

/// The first `n` characters of `s`, or all of it where it is shorter.
pub open spec fn head(s: Seq<char>, n: nat) -> Seq<char> {
    if s.len() <= n {
        s
    } else {
        s.take(n as int)
    }
}

/// The branch of a task: the prefix, the task's name, `-`, and the first four characters
/// of the session id.
pub open spec fn branch_of(task_name: Seq<char>, session_id: Seq<char>) -> Seq<char> {
    "wt/"@ + task_name + "-"@ + head(session_id, 4)
}

/// The pattern that the branches of a task match: the prefix, the name, `-*`.
pub open spec fn branch_pattern_of(task_name: Seq<char>) -> Seq<char> {
    "wt/"@ + task_name + "-*"@
}

/// The first `n` characters of `s`, or all of it where it is shorter.
pub fn head_of(s: &str, n: usize) -> (r: String)
    ensures
        r@ == head(s@, n as nat),
{
    let v = crate::text::chars_of(s);
    if v.len() <= n {
        String::from_str(s)
    } else {
        assert(v@.subrange(0, n as int) =~= v@.take(n as int));
        crate::text::string_of_range(&v, 0, n)
    }
}

/// The name of the branch for a task started under `session_id`.
pub fn branch_name(task_name: &str, session_id: &str) -> (r: String)
    ensures
        r@ == branch_of(task_name@, session_id@),
{
    let mut r = String::from_str(BRANCH_PREFIX);
    r.append(task_name);
    r.append("-");
    let h = head_of(session_id, 4);
    r.append(h.as_str());
    r
}

/// The pattern that finds the branches of a task.
pub fn branch_pattern(task_name: &str) -> (r: String)
    ensures
        r@ == branch_pattern_of(task_name@),
{
    let mut r = String::from_str(BRANCH_PREFIX);
    r.append(task_name);
    r.append("-*");
    r
}

} // verus!
