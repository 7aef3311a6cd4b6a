//! Marking a task as done, and marking it as merged.

use vstd::prelude::*;
use crate::commands::plan::{Step, StepModel, steps};
use crate::error::{WtError, WtErrorModel};
use crate::models::status::{instance_in, scratch_in, status_in, with_status};
use crate::models::store::{StoreModel, TaskStore};
use crate::models::task::TaskStatus;

verus! {

/// What a scratch task is told when asked to become `what`.
pub open spec fn scratch_notice(name: Seq<char>, what: Seq<char>) -> Seq<char> {
    "Scratch environment '"@ + name + "' cannot be marked as "@ + what + ". Use 'wt archive "@
        + name + "' to clean up."@
}

/// What a scratch task is told when asked to become `what`.
pub fn scratch_refusal(name: &str, what: &str) -> (r: WtError)
    ensures
        r@ == WtErrorModel::InvalidInput(scratch_notice(name@, what@)),
{
    let mut m = String::from_str("Scratch environment '");
    m.append(name);
    m.append("' cannot be marked as ");
    m.append(what);
    m.append(". Use 'wt archive ");
    m.append(name);
    m.append("' to clean up.");
    WtError::InvalidInput(m)
}

/// Why `name` cannot be marked as done: it is a scratch task, it is not defined, or it
/// is not running.
pub open spec fn done_refusal(s: StoreModel, name: Seq<char>) -> Option<WtErrorModel> {
    if scratch_in(s.status, name) {
        Some(WtErrorModel::InvalidInput(scratch_notice(name, "done"@)))
    } else if !s.tasks.dom().contains(name) {
        Some(WtErrorModel::TaskNotFound(name))
    } else if !status_in(s.status, name).allows(TaskStatus::Done) {
        Some(
            WtErrorModel::InvalidStateTransition {
                from: status_in(s.status, name).label(),
                to: TaskStatus::Done.label(),
            },
        )
    } else {
        None
    }
}

/// Why `name` cannot be marked as merged: it is a scratch task, or it is not defined.
/// A task in any status can be marked as merged.
pub open spec fn merged_refusal(s: StoreModel, name: Seq<char>) -> Option<WtErrorModel> {
    if scratch_in(s.status, name) {
        Some(WtErrorModel::InvalidInput(scratch_notice(name, "merged"@)))
    } else if !s.tasks.dom().contains(name) {
        Some(WtErrorModel::TaskNotFound(name))
    } else {
        None
    }
}

/// The store with the status of `name` set to `status` and nothing else changed.
pub open spec fn marked(s: StoreModel, name: Seq<char>, status: TaskStatus) -> StoreModel {
    StoreModel { status: with_status(s.status, name, status), ..s }
}

/// The step that closes the window of `name`, where an instance is bound to it.
pub open spec fn window_steps(s: StoreModel, name: Seq<char>) -> Seq<StepModel> {
    match instance_in(s.status, name) {
        Some(i) => seq![StepModel::KillWindow { session: i.tmux_session, window: i.tmux_window }],
        None => Seq::<StepModel>::empty(),
    }
}

/// The warning given where a task that is neither running nor done is marked as merged.
pub open spec fn merge_warning(s: StoreModel, name: Seq<char>) -> Option<Seq<char>> {
    if status_in(s.status, name).allows(TaskStatus::Merged) {
        None
    } else {
        Some(
            "Warning: Task '"@ + name + "' was in "@ + status_in(s.status, name).label()
                + " state (expected done or running)."@,
        )
    }
}

/// Checks that `name` may be marked as done.
pub fn check_done(store: &TaskStore, name: &str) -> (r: Result<(), WtError>)
    ensures
        match done_refusal(store@, name@) {
            None => r is Ok,
            Some(e) => r is Err && r->Err_0@ == e,
        },
{
    if store.is_scratch(name) {
        return Err(scratch_refusal(name, "done"));
    }
    match store.ensure_exists(name) {
        Err(e) => {
            return Err(e);
        },
        Ok(_) => {},
    }
    store.validate_transition(name, TaskStatus::Done)
}

/// Checks that `name` may be marked as merged.
pub fn check_merged(store: &TaskStore, name: &str) -> (r: Result<(), WtError>)
    ensures
        match merged_refusal(store@, name@) {
            None => r is Ok,
            Some(e) => r is Err && r->Err_0@ == e,
        },
{
    if store.is_scratch(name) {
        return Err(scratch_refusal(name, "merged"));
    }
    store.ensure_exists(name)
}

/// The steps of marking `name` as done: its window is closed where it was found alive.
pub fn plan_done(store: &TaskStore, name: &str, window_alive: bool) -> (r: Vec<Step>)
    ensures
        steps(r@) == if window_alive {
            window_steps(store@, name@)
        } else {
            Seq::<StepModel>::empty()
        },
        forall|i: int| 0 <= i < r.len() ==> (#[trigger] steps(r@)[i]).best_effort(),
{
    if window_alive {
        close_window(store, name)
    } else {
        let r: Vec<Step> = Vec::new();
        assert(steps(r@) =~= Seq::<StepModel>::empty());
        r
    }
}

/// The step that closes the window of `name`, as marking it as merged takes it; a failure
/// of it is a warning.
pub fn close_window(store: &TaskStore, name: &str) -> (r: Vec<Step>)
    ensures
        steps(r@) == window_steps(store@, name@),
        forall|i: int| 0 <= i < r.len() ==> (#[trigger] steps(r@)[i]).best_effort(),
{
    let mut r: Vec<Step> = Vec::new();
    match store.get_instance(name) {
        Some(i) => {
            r.push(
                Step::KillWindow {
                    session: i.tmux_session.clone(),
                    window: i.tmux_window.clone(),
                },
            );
            assert(steps(r@) =~= window_steps(store@, name@));
        },
        None => {
            assert(steps(r@) =~= window_steps(store@, name@));
        },
    }
    r
}

/// The warning to give before `name` is marked as merged, if any.
pub fn warning(store: &TaskStore, name: &str) -> (r: Option<String>)
    ensures
        match merge_warning(store@, name@) {
            Some(w) => r is Some && r->Some_0@ == w,
            None => r is None,
        },
{
    let current = store.get_status(name);
    if current.can_transition_to(&TaskStatus::Merged) {
        None
    } else {
        let mut m = String::from_str("Warning: Task '");
        m.append(name);
        m.append("' was in ");
        m.append(current.display_name());
        m.append(" state (expected done or running).");
        Some(m)
    }
}

/// Records that `name` is done. Its instance stays bound.
pub fn apply_done(store: &mut TaskStore, name: &str)
    ensures
        final(store)@ == marked(old(store)@, name@, TaskStatus::Done),
{
    store.set_status(name, TaskStatus::Done);
}

/// Records that `name` is merged. Its instance stays bound, so that the worktree and the
/// branch can be looked at until the task is archived.
pub fn apply_merged(store: &mut TaskStore, name: &str)
    ensures
        final(store)@ == marked(old(store)@, name@, TaskStatus::Merged),
{
    store.set_status(name, TaskStatus::Merged);
}

/// Marks a running task as done where its window was found closed. Tells whether it did.
pub fn auto_mark_done_if_needed(store: &mut TaskStore, name: &str, window_alive: bool) -> (r:
    bool)
    ensures
        r == (status_in(old(store)@.status, name@) == TaskStatus::Running && !window_alive),
        r ==> final(store)@ == marked(old(store)@, name@, TaskStatus::Done),
        !r ==> final(store)@ == old(store)@,
{
    if store.get_status(name) == TaskStatus::Running && !window_alive {
        store.set_status(name, TaskStatus::Done);
        true
    } else {
        false
    }
}

/// What is said after a task was marked as done.
pub fn done_message(name: &str) -> (r: String)
    ensures
        r@ == "Task '"@ + name@ + "' marked as done.\nAfter PR is merged, run: wt merged "@
            + name@,
{
    let mut m = String::from_str("Task '");
    m.append(name);
    m.append("' marked as done.\nAfter PR is merged, run: wt merged ");
    m.append(name);
    m
}

/// What is said after a task was marked as merged.
pub fn merged_message(name: &str) -> (r: String)
    ensures
        r@ == "Task '"@ + name@
            + "' marked as merged.\nWorktree and branch preserved for review.\nRun 'wt archive "@
            + name@ + "' to cleanup resources."@,
{
    let mut m = String::from_str("Task '");
    m.append(name);
    m.append("' marked as merged.\nWorktree and branch preserved for review.\nRun 'wt archive ");
    m.append(name);
    m.append("' to cleanup resources.");
    m
}

} // verus!
