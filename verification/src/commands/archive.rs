//! Archiving a task: its resources are given back and its instance is cleared.

use vstd::prelude::*;
use crate::commands::done::marked;
use crate::commands::plan::{Step, StepModel, reclaim, reclaim_steps, steps};
use crate::error::{WtError, WtErrorModel};
use crate::models::config::{WtConfig, WtConfigModel};
use crate::models::status::{instance_in, scratch_in, status_in, with_instance, with_status};
use crate::models::store::{StoreModel, TaskStore};
use crate::models::task::TaskStatus;

verus! {

/// Why `name` cannot be archived. A scratch task must be running or merged; any other
/// task must be defined and merged.
pub open spec fn archive_refusal(s: StoreModel, name: Seq<char>) -> Option<WtErrorModel> {
    let current = status_in(s.status, name);
    let wrong = WtErrorModel::InvalidStateTransition { from: current.label(), to: "archived"@ };
    if scratch_in(s.status, name) {
        if current == TaskStatus::Running || current == TaskStatus::Merged {
            None
        } else {
            Some(wrong)
        }
    } else if !s.tasks.dom().contains(name) {
        Some(WtErrorModel::TaskNotFound(name))
    } else if !current.allows(TaskStatus::Archived) {
        Some(wrong)
    } else {
        None
    }
}

/// The store after `name` was archived: the entry of a scratch task is gone; any other
/// task is archived and has no instance.
pub open spec fn archived(s: StoreModel, name: Seq<char>) -> StoreModel {
    if scratch_in(s.status, name) {
        StoreModel { status: s.status.remove(name), ..s }
    } else {
        StoreModel {
            status: with_instance(
                with_status(s.status, name, TaskStatus::Archived),
                name,
                None,
            ),
            ..s
        }
    }
}

/// The steps of an archival: those that give back the instance of `name`, led by the
/// archive script where one is configured. Nothing where no instance is bound.
pub open spec fn archive_steps(s: StoreModel, c: WtConfigModel, name: Seq<char>) -> Seq<
    StepModel,
> {
    match instance_in(s.status, name) {
        Some(i) => reclaim_steps(i, c.archive_script, None),
        None => Seq::<StepModel>::empty(),
    }
}

/// How an archival ended.
#[derive(Debug, Clone, Copy, PartialEq, Eq, Structural)]
pub enum ArchiveOutcome {
    /// The task is archived.
    Archived,
    /// The scratch task is gone from the store.
    ScratchRemoved,
}

/// Checks that `name` may be archived.
pub fn check(store: &TaskStore, name: &str) -> (r: Result<(), WtError>)
    ensures
        match archive_refusal(store@, name@) {
            None => r is Ok,
            Some(e) => r is Err && r->Err_0@ == e,
        },
{
    let current = store.get_status(name);
    if store.is_scratch(name) {
        if current == TaskStatus::Running || current == TaskStatus::Merged {
            Ok(())
        } else {
            Err(
                WtError::InvalidStateTransition {
                    from: String::from_str(current.display_name()),
                    to: String::from_str("archived"),
                },
            )
        }
    } else {
        match store.ensure_exists(name) {
            Err(e) => {
                return Err(e);
            },
            Ok(_) => {},
        }
        store.validate_transition(name, TaskStatus::Archived)
    }
}

/// The steps that give back the resources of `name`. Each is best effort: a failure is
/// a warning, and the steps after it are still taken.
pub fn plan(store: &TaskStore, config: &WtConfig, name: &str) -> (r: Vec<Step>)
    ensures
        steps(r@) == archive_steps(store@, config@, name@),
        forall|i: int| 0 <= i < r.len() ==> (#[trigger] steps(r@)[i]).best_effort(),
{
    match store.get_instance(name) {
        Some(i) => {
            proof {
                crate::commands::plan::lemma_reclaim_best_effort(
                    i@,
                    config@.archive_script,
                    None,
                );
            }
            reclaim(i, &config.archive_script, None)
        },
        None => {
            let r: Vec<Step> = Vec::new();
            assert(steps(r@) =~= Seq::<StepModel>::empty());
            r
        },
    }
}

/// Records the archival of `name`.
pub fn apply(store: &mut TaskStore, name: &str) -> (r: ArchiveOutcome)
    ensures
        final(store)@ == archived(old(store)@, name@),
        r == if scratch_in(old(store)@.status, name@) {
            ArchiveOutcome::ScratchRemoved
        } else {
            ArchiveOutcome::Archived
        },
{
    if store.is_scratch(name) {
        store.status.remove(name);
        ArchiveOutcome::ScratchRemoved
    } else {
        store.set_status(name, TaskStatus::Archived);
        store.set_instance(name, None);
        ArchiveOutcome::Archived
    }
}

/// What is said after an archival.
pub fn message(name: &str, outcome: ArchiveOutcome) -> (r: String)
    ensures
        r@ == match outcome {
            ArchiveOutcome::Archived => "Task '"@ + name@ + "' archived."@,
            ArchiveOutcome::ScratchRemoved => "Scratch environment '"@ + name@ + "' cleaned up."@,
        },
{
    match outcome {
        ArchiveOutcome::Archived => {
            let mut m = String::from_str("Task '");
            m.append(name);
            m.append("' archived.");
            m
        },
        ArchiveOutcome::ScratchRemoved => {
            let mut m = String::from_str("Scratch environment '");
            m.append(name);
            m.append("' cleaned up.");
            m
        },
    }
}

/// A defined task that is not a scratch task and not merged cannot be archived.
pub proof fn lemma_archive_needs_merged(s: StoreModel, name: Seq<char>)
    requires
        s.tasks.dom().contains(name),
        !scratch_in(s.status, name),
        status_in(s.status, name) != TaskStatus::Merged,
    ensures
        archive_refusal(s, name) == Some(
            WtErrorModel::InvalidStateTransition {
                from: status_in(s.status, name).label(),
                to: "archived"@,
            },
        ),
{
}

/// A defined task that was just marked as merged can be archived, and the archival
/// leaves it archived and without an instance.
pub proof fn lemma_archive_after_merged(s: StoreModel, name: Seq<char>)
    requires
        s.tasks.dom().contains(name),
        !scratch_in(s.status, name),
    ensures
        archive_refusal(marked(s, name, TaskStatus::Merged), name) is None,
        instance_in(archived(marked(s, name, TaskStatus::Merged), name).status, name) is None,
        status_in(archived(marked(s, name, TaskStatus::Merged), name).status, name)
            == TaskStatus::Archived,
{
}

} // verus!
