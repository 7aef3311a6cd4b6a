//! The tmux commands that host the agents.

use vstd::prelude::*;
use crate::error::{WtError, WtErrorModel};
use crate::services::command::{CommandModel, CommandRunner, Outcome, tmux_call};

verus! {

/// `session:window`, the way tmux names a window.
pub open spec fn window_target(session: Seq<char>, window: Seq<char>) -> Seq<char> {
    session + ":"@ + window
}

/// `session:window`.
pub fn target_of(session: &str, window: &str) -> (r: String)
    ensures
        r@ == window_target(session@, window@),
{
    let mut r = String::from_str(session);
    r.append(":");
    r.append(window);
    r
}

/// Asks whether the session exists; the run succeeds where it does.
pub fn session_exists(session: &str) -> (r: CommandRunner)
    ensures
        r@ == tmux_call(seq!["has-session"@, "-t"@, session@]),
{
    let r = CommandRunner::tmux().arg("has-session").arg("-t").arg(session);
    assert(r@.args =~= seq!["has-session"@, "-t"@, session@]);
    r
}

/// Makes a detached session.
pub fn create_session(session: &str) -> (r: CommandRunner)
    ensures
        r@ == tmux_call(seq!["new-session"@, "-d"@, "-s"@, session@]),
{
    let r = CommandRunner::tmux().arg("new-session").arg("-d").arg("-s").arg(session);
    assert(r@.args =~= seq!["new-session"@, "-d"@, "-s"@, session@]);
    r
}

/// The three runs that make a window in `session` with its shell in `cwd`, type
/// `command` into it literally, and press Enter.
pub open spec fn window_calls(
    session: Seq<char>,
    window: Seq<char>,
    cwd: Seq<char>,
    command: Seq<char>,
) -> Seq<CommandModel> {
    seq![
        tmux_call(seq!["new-window"@, "-t"@, session + ":"@, "-n"@, window, "-c"@, cwd]),
        tmux_call(seq!["send-keys"@, "-t"@, window_target(session, window), "-l"@, command]),
        tmux_call(seq!["send-keys"@, "-t"@, window_target(session, window), "Enter"@]),
    ]
}

/// The views of a list of requests.
pub open spec fn calls(v: Seq<CommandRunner>) -> Seq<CommandModel> {
    v.map_values(|i: CommandRunner| i@)
}

/// The runs that make a window for a task and start `command` in it. Each is to be run
/// only where the one before it succeeded.
pub fn create_window(session: &str, window: &str, cwd: &str, command: &str) -> (r: Vec<
    CommandRunner,
>)
    ensures
        calls(r@) == window_calls(session@, window@, cwd@, command@),
{
    let mut first = String::from_str(session);
    first.append(":");
    let target = target_of(session, window);
    let a = CommandRunner::tmux().arg("new-window").arg("-t").arg(first.as_str()).arg("-n").arg(
        window,
    ).arg("-c").arg(cwd);
    let b = CommandRunner::tmux().arg("send-keys").arg("-t").arg(target.as_str()).arg("-l").arg(
        command,
    );
    let c = CommandRunner::tmux().arg("send-keys").arg("-t").arg(target.as_str()).arg("Enter");
    proof {
        assert(a@.args =~= seq!["new-window"@, "-t"@, session@ + ":"@, "-n"@, window@, "-c"@, cwd@]);
        assert(b@.args =~= seq![
            "send-keys"@,
            "-t"@,
            window_target(session@, window@),
            "-l"@,
            command@,
        ]);
        assert(c@.args =~= seq!["send-keys"@, "-t"@, window_target(session@, window@), "Enter"@]);
    }
    let mut r: Vec<CommandRunner> = Vec::new();
    r.push(a);
    r.push(b);
    r.push(c);
    assert(calls(r@) =~= window_calls(session@, window@, cwd@, command@));
    r
}

/// Closes a window.
pub fn kill_window(session: &str, window: &str) -> (r: CommandRunner)
    ensures
        r@ == tmux_call(seq!["kill-window"@, "-t"@, window_target(session@, window@)]),
{
    let target = target_of(session, window);
    let r = CommandRunner::tmux().arg("kill-window").arg("-t").arg(target.as_str());
    assert(r@.args =~= seq!["kill-window"@, "-t"@, window_target(session@, window@)]);
    r
}

/// Closes a session.
pub fn kill_session(session: &str) -> (r: CommandRunner)
    ensures
        r@ == tmux_call(seq!["kill-session"@, "-t"@, session@]),
{
    let r = CommandRunner::tmux().arg("kill-session").arg("-t").arg(session);
    assert(r@.args =~= seq!["kill-session"@, "-t"@, session@]);
    r
}

/// Asks whether the window exists; the run succeeds where it does.
pub fn window_exists(session: &str, window: &str) -> (r: CommandRunner)
    ensures
        r@ == tmux_call(seq!["select-window"@, "-t"@, window_target(session@, window@)]),
{
    let target = target_of(session, window);
    let r = CommandRunner::tmux().arg("select-window").arg("-t").arg(target.as_str());
    assert(r@.args =~= seq!["select-window"@, "-t"@, window_target(session@, window@)]);
    r
}

/// The run that closes the window, where it was found to exist; nothing to run otherwise.
pub fn kill_window_if_exists(session: &str, window: &str, exists: bool) -> (r: Option<
    CommandRunner,
>)
    ensures
        exists ==> r is Some && r->Some_0@ == tmux_call(
            seq!["kill-window"@, "-t"@, window_target(session@, window@)],
        ),
        !exists ==> r is None,
{
    if exists {
        Some(kill_window(session, window))
    } else {
        None
    }
}

/// What closing a window gives, given how the run that `kill_window_if_exists` laid out
/// ended, or `None` where it laid out none: `false` where nothing was run, `true` where
/// the run succeeded, and its error output as a failure of tmux otherwise.
pub fn kill_window_result(killed: Option<&Outcome>) -> (r: Result<bool, WtError>)
    ensures
        match killed {
            None => r is Ok && r->Ok_0 == false,
            Some(o) => if o.success {
                r is Ok && r->Ok_0 == true
            } else {
                r is Err && r->Err_0@ == WtErrorModel::Tmux(o.stderr@)
            },
        },
{
    match killed {
        None => Ok(false),
        Some(o) => if o.success {
            Ok(true)
        } else {
            Err(WtError::Tmux(o.stderr.clone()))
        },
    }
}

} // verus!
