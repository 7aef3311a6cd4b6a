//! What must hold before the transcript of a task is shown, before a task is reviewed,
//! and before its window is entered.

use vstd::prelude::*;
use crate::commands::done::marked;
use crate::error::{WtError, WtErrorModel};
use crate::models::json::{json_quote, json_string};
use crate::models::status::{instance_in, status_in};
use crate::models::store::{StoreModel, TaskStore, targets};
use crate::models::task::{Task, TaskStatus};
use crate::services::tmux::window_target;
use crate::text::{join, joined, texts};

verus! {

/// Why the transcript of `name` cannot be shown.
pub open spec fn tail_refusal(
    s: StoreModel,
    name: Seq<char>,
    worktree_exists: bool,
    transcript_exists: bool,
) -> Option<WtErrorModel> {
    if !s.tasks.dom().contains(name) {
        Some(WtErrorModel::TaskNotFound(name))
    } else if status_in(s.status, name) == TaskStatus::Pending {
        Some(WtErrorModel::TaskNotStarted(name))
    } else if instance_in(s.status, name) is None {
        Some(WtErrorModel::TaskNotFound(name))
    } else if !worktree_exists {
        Some(WtErrorModel::WorktreeNotFound(name))
    } else if instance_in(s.status, name)->Some_0.session_id is None {
        Some(WtErrorModel::NoSessionId(name))
    } else if !transcript_exists {
        Some(WtErrorModel::TranscriptNotFound(name))
    } else {
        None
    }
}

/// Checks that the transcript of `name` can be shown, given whether its worktree and the
/// transcript of its session were found.
pub fn check_tail(store: &TaskStore, name: &str, worktree_exists: bool, transcript_exists: bool) -> (r:
    Result<(), WtError>)
    ensures
        match tail_refusal(store@, name@, worktree_exists, transcript_exists) {
            None => r is Ok,
            Some(e) => r is Err && r->Err_0@ == e,
        },
{
    if !store.tasks.contains_key(name) {
        return Err(WtError::TaskNotFound(String::from_str(name)));
    }
    if store.get_status(name) == TaskStatus::Pending {
        return Err(WtError::TaskNotStarted(String::from_str(name)));
    }
    let instance = match store.get_instance(name) {
        Some(i) => i,
        None => {
            return Err(WtError::TaskNotFound(String::from_str(name)));
        },
    };
    if !worktree_exists {
        return Err(WtError::WorktreeNotFound(String::from_str(name)));
    }
    if instance.session_id.is_none() {
        return Err(WtError::NoSessionId(String::from_str(name)));
    }
    if !transcript_exists {
        return Err(WtError::TranscriptNotFound(String::from_str(name)));
    }
    Ok(())
}

/// How a message of the assistant is written as JSON.
pub open spec fn message_json(content: Seq<char>) -> Seq<char> {
    "  {\n    \"role\": \"assistant\",\n    \"content\": "@ + json_string(content) + "\n  }"@
}

/// The messages as a JSON array, one field to a line.
pub open spec fn messages_json(messages: Seq<Seq<char>>) -> Seq<char> {
    "[\n"@ + joined(messages.map_values(|m: Seq<char>| message_json(m)), ",\n"@) + "\n]"@
}

/// What is shown of the last messages of `name`; fails where there is none.
pub fn render_tail(name: &str, messages: &Vec<String>) -> (r: Result<String, WtError>)
    ensures
        messages.len() == 0 ==> r is Err && r->Err_0@ == WtErrorModel::NoAssistantMessages(name@),
        messages.len() > 0 ==> r is Ok && r->Ok_0@ == messages_json(texts(messages@)),
{
    if messages.len() == 0 {
        return Err(WtError::NoAssistantMessages(String::from_str(name)));
    }
    let mut items: Vec<String> = Vec::new();
    let mut i: usize = 0;
    while i < messages.len()
        invariant
            i <= messages.len(),
            items.len() == i,
            forall|k: int| 0 <= k < i ==> (#[trigger] items@[k])@ == message_json(messages@[k]@),
        decreases messages.len() - i,
    {
        let mut item = String::from_str("  {\n    \"role\": \"assistant\",\n    \"content\": ");
        item.append(json_quote(messages[i].as_str()).as_str());
        item.append("\n  }");
        items.push(item);
        i += 1;
    }
    assert(texts(items@) =~= texts(messages@).map_values(|m: Seq<char>| message_json(m)));
    let mut r = String::from_str("[\n");
    r.append(join(&items, ",\n").as_str());
    r.append("\n]");
    Ok(r)
}

/// Why `name` cannot be reviewed.
pub open spec fn review_refusal(
    s: StoreModel,
    name: Seq<char>,
    window_alive: bool,
    worktree_exists: bool,
    transcript_exists: bool,
) -> Option<WtErrorModel> {
    if !s.tasks.dom().contains(name) || instance_in(s.status, name) is None {
        Some(WtErrorModel::TaskNotFound(name))
    } else if status_in(s.status, name) == TaskStatus::Running && window_alive {
        Some(WtErrorModel::CannotReviewRunning(name))
    } else if status_in(s.status, name) != TaskStatus::Running && status_in(s.status, name)
        != TaskStatus::Done {
        Some(WtErrorModel::TaskNotDone(name))
    } else if !worktree_exists {
        Some(WtErrorModel::WorktreeNotFound(name))
    } else if instance_in(s.status, name)->Some_0.session_id is None {
        Some(WtErrorModel::NoSessionId(name))
    } else if !transcript_exists {
        Some(WtErrorModel::TranscriptNotFound(name))
    } else {
        None
    }
}

/// Checks that `name` can be reviewed: it is done, or it is running and its window is
/// gone, in which case it is marked as done first.
pub fn check_review(
    store: &mut TaskStore,
    name: &str,
    window_alive: bool,
    worktree_exists: bool,
    transcript_exists: bool,
) -> (r: Result<(), WtError>)
    ensures
        match review_refusal(old(store)@, name@, window_alive, worktree_exists, transcript_exists) {
            None => r is Ok,
            Some(e) => r is Err && r->Err_0@ == e,
        },
        final(store)@ == if old(store)@.tasks.dom().contains(name@) && instance_in(
            old(store)@.status,
            name@,
        ) is Some && status_in(old(store)@.status, name@) == TaskStatus::Running && !window_alive {
            marked(old(store)@, name@, TaskStatus::Done)
        } else {
            old(store)@
        },
{
    if !store.tasks.contains_key(name) {
        return Err(WtError::TaskNotFound(String::from_str(name)));
    }
    let has_session = match store.get_instance(name) {
        Some(i) => i.session_id.is_some(),
        None => {
            return Err(WtError::TaskNotFound(String::from_str(name)));
        },
    };
    match store.get_status(name) {
        TaskStatus::Running => {
            if window_alive {
                return Err(WtError::CannotReviewRunning(String::from_str(name)));
            }
            store.set_status(name, TaskStatus::Done);
        },
        TaskStatus::Done => {},
        _ => {
            return Err(WtError::TaskNotDone(String::from_str(name)));
        },
    }
    if !worktree_exists {
        return Err(WtError::WorktreeNotFound(String::from_str(name)));
    }
    if !has_session {
        return Err(WtError::NoSessionId(String::from_str(name)));
    }
    if !transcript_exists {
        return Err(WtError::TranscriptNotFound(String::from_str(name)));
    }
    Ok(())
}

/// The command that takes up the session again in the worktree.
pub open spec fn resume_text(worktree: Seq<char>, agent: Seq<char>, session_id: Seq<char>) -> Seq<
    char,
> {
    "cd "@ + worktree + " && "@ + agent + " -r "@ + session_id
}

/// The command that takes up the session again in the worktree.
pub fn resume_command(worktree: &str, agent: &str, session_id: &str) -> (r: String)
    ensures
        r@ == resume_text(worktree@, agent@, session_id@),
{
    let mut r = String::from_str("cd ");
    r.append(worktree);
    r.append(" && ");
    r.append(agent);
    r.append(" -r ");
    r.append(session_id);
    r
}

/// Why the session, or the window of `name` in it, cannot be entered.
pub open spec fn enter_refusal(
    s: StoreModel,
    session: Seq<char>,
    session_exists: bool,
    name: Option<Seq<char>>,
    window_exists: bool,
) -> Option<WtErrorModel> {
    if !session_exists {
        Some(
            WtErrorModel::Tmux(
                "Session '"@ + session
                    + "' does not exist. Start a task first with: wt start <task>"@,
            ),
        )
    } else {
        match name {
            None => None,
            Some(n) => if !s.tasks.dom().contains(n) {
                Some(WtErrorModel::TaskNotFound(n))
            } else if instance_in(s.status, n) is None {
                Some(
                    WtErrorModel::Tmux(
                        "Task '"@ + n + "' is not running. Start it first with: wt start "@ + n,
                    ),
                )
            } else if !window_exists {
                Some(
                    WtErrorModel::Tmux(
                        "Window '"@ + n
                            + "' no longer exists (agent may have exited).\nThe task status is still 'running'. You can:\n- Run `wt done "@
                            + n + "` to mark it as done\n- Run `wt start "@ + n
                            + "` to restart it"@,
                    ),
                )
            } else {
                None
            },
        }
    }
}

/// Checks that the session can be entered, and names what to attach to: the window of
/// `name`, or the session where no task is named.
pub fn check_enter(
    store: &TaskStore,
    session: &str,
    session_exists: bool,
    name: Option<&str>,
    window_exists: bool,
) -> (r: Result<String, WtError>)
    ensures
        match enter_refusal(
            store@,
            session@,
            session_exists,
            match name {
                Some(n) => Some(n@),
                None => None,
            },
            window_exists,
        ) {
            Some(e) => r is Err && r->Err_0@ == e,
            None => r is Ok && r->Ok_0@ == (match name {
                Some(n) => window_target(session@, n@),
                None => session@,
            }),
        },
{
    if !session_exists {
        let mut m = String::from_str("Session '");
        m.append(session);
        m.append("' does not exist. Start a task first with: wt start <task>");
        return Err(WtError::Tmux(m));
    }
    match name {
        None => Ok(String::from_str(session)),
        Some(n) => {
            if !store.tasks.contains_key(n) {
                return Err(WtError::TaskNotFound(String::from_str(n)));
            }
            if store.get_instance(n).is_none() {
                let mut m = String::from_str("Task '");
                m.append(n);
                m.append("' is not running. Start it first with: wt start ");
                m.append(n);
                return Err(WtError::Tmux(m));
            }
            if !window_exists {
                let mut m = String::from_str("Window '");
                m.append(n);
                m.append(
                    "' no longer exists (agent may have exited).\nThe task status is still 'running'. You can:\n- Run `wt done ",
                );
                m.append(n);
                m.append("` to mark it as done\n- Run `wt start ");
                m.append(n);
                m.append("` to restart it");
                return Err(WtError::Tmux(m));
            }
            Ok(crate::services::tmux::target_of(session, n))
        },
    }
}

/// Whether the logs of the task are extracted: it is not pending and an instance is bound
/// to it.
pub open spec fn has_logs(s: StoreModel, name: Seq<char>) -> bool {
    status_in(s.status, name) != TaskStatus::Pending && instance_in(s.status, name) is Some
}

/// The names of the tasks of `l` whose logs are extracted, in order.
pub open spec fn log_names(s: StoreModel, l: Seq<Task>) -> Seq<Seq<char>>
    decreases l.len(),
{
    if l.len() == 0 {
        Seq::<Seq<char>>::empty()
    } else if has_logs(s, l.last()@.name) {
        log_names(s, l.drop_last()).push(l.last()@.name)
    } else {
        log_names(s, l.drop_last())
    }
}

/// How many tasks of `l` are passed over for want of an instance: those that are not
/// pending and have none.
pub open spec fn logs_skipped(s: StoreModel, l: Seq<Task>) -> nat
    decreases l.len(),
{
    if l.len() == 0 {
        0
    } else {
        logs_skipped(s, l.drop_last()) + if status_in(s.status, l.last()@.name)
            != TaskStatus::Pending && instance_in(s.status, l.last()@.name) is None {
            1nat
        } else {
            0nat
        }
    }
}

/// The tasks whose logs are to be extracted, in the order of the listing by name, and the
/// number of tasks that are passed over for want of an instance.
pub fn plan_logs(store: &TaskStore) -> (r: (Vec<String>, usize))
    ensures
        exists|l: Seq<Task>| #[trigger]
            store.is_listing(l) && texts(r.0@) == log_names(store@, l) && r.1 == logs_skipped(
                store@,
                l,
            ),
{
    let tasks = store.list();
    let ghost l = targets(tasks@);
    let mut names: Vec<String> = Vec::new();
    let mut skipped: usize = 0;
    let mut i: usize = 0;
    assert(l.take(0) =~= Seq::<Task>::empty());
    assert(texts(names@) =~= Seq::<Seq<char>>::empty());
    while i < tasks.len()
        invariant
            i <= tasks.len(),
            l == targets(tasks@),
            skipped <= i,
            texts(names@) == log_names(store@, l.take(i as int)),
            skipped == logs_skipped(store@, l.take(i as int)),
        decreases tasks.len() - i,
    {
        let t = tasks[i];
        proof {
            assert(l.take(i + 1).drop_last() =~= l.take(i as int));
            assert(l.take(i + 1).last() == *t);
        }
        if store.get_status(t.name()) != TaskStatus::Pending {
            if store.get_instance(t.name()).is_some() {
                let ghost before = names@;
                let n = String::from_str(t.name());
                names.push(n);
                assert(texts(names@) =~= texts(before).push(t@.name));
            } else {
                skipped += 1;
            }
        }
        i += 1;
    }
    proof {
        assert(l.take(tasks.len() as int) =~= l);
        assert(store.is_listing(l));
    }
    (names, skipped)
}

/// The last lines of the `logs` command: how many logs were extracted and how many tasks
/// were passed over.
pub fn logs_summary(generated: usize, skipped: usize) -> (r: String)
    ensures
        r@ == "\nGenerated: "@ + crate::text::decimal(generated as nat) + ", Skipped: "@
            + crate::text::decimal(skipped as nat),
{
    let mut r = String::from_str("\nGenerated: ");
    crate::text::push_decimal(&mut r, generated as u64);
    r.append(", Skipped: ");
    crate::text::push_decimal(&mut r, skipped as u64);
    r
}

} // verus!
