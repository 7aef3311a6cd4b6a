//! Resetting a task to pending, with its resources backed up and given back.

use vstd::prelude::*;
use crate::commands::plan::{Step, StepModel, lemma_reclaim_best_effort, reclaim, reclaim_steps, steps};
use crate::commands::start::worktree_of;
use crate::error::{WtError, WtErrorModel};
use crate::models::config::{WtConfig, WtConfigModel};
use crate::models::status::{instance_in, scratch_in, status_in, with_instance, with_status};
use crate::models::store::{StoreModel, TaskStore, targets};
use crate::models::task::{Task, TaskModel, TaskStatus};
use crate::text::{path_join, texts, texts_contain, same_text};

verus! {

/// Whether the task `t` keeps `name` from being reset: it is another task, depends on
/// `name`, and is neither pending nor archived.
pub open spec fn blocks_reset(s: StoreModel, t: TaskModel, name: Seq<char>) -> bool {
    &&& t.name != name
    &&& t.depends.contains(name)
    &&& status_in(s.status, t.name) != TaskStatus::Pending
    &&& status_in(s.status, t.name) != TaskStatus::Archived
}

/// The first task of `l` that keeps `name` from being reset.
pub open spec fn first_blocking(s: StoreModel, l: Seq<Task>, name: Seq<char>) -> Option<TaskModel>
    decreases l.len(),
{
    if l.len() == 0 {
        None
    } else if blocks_reset(s, l[0]@, name) {
        Some(l[0]@)
    } else {
        first_blocking(s, l.drop_first(), name)
    }
}

/// Why `name` cannot be reset, with the tasks listed as `l`: it is neither defined nor a
/// scratch task, or another task that is under way depends on it.
pub open spec fn reset_refusal(s: StoreModel, l: Seq<Task>, name: Seq<char>) -> Option<
    WtErrorModel,
> {
    if !scratch_in(s.status, name) && !s.tasks.dom().contains(name) {
        Some(WtErrorModel::TaskNotFound(name))
    } else {
        match first_blocking(s, l, name) {
            Some(t) => Some(
                WtErrorModel::HasDependents {
                    task: name,
                    dependent: t.name,
                    status: status_in(s.status, t.name).label(),
                },
            ),
            None => None,
        }
    }
}

/// How a reset ended.
#[derive(Debug, Clone, Copy, PartialEq, Eq, Structural)]
pub enum ResetOutcome {
    /// The task was pending and held nothing: nothing was done.
    AlreadyPending,
    /// The task is pending again and has no instance.
    Reset,
    /// The scratch task is gone from the store.
    ScratchRemoved,
}

/// How a reset of `name` ends, where `cleaned` tells whether resources that no instance
/// spoke of were found and removed.
pub open spec fn reset_outcome(s: StoreModel, name: Seq<char>, cleaned: bool) -> ResetOutcome {
    if scratch_in(s.status, name) {
        ResetOutcome::ScratchRemoved
    } else if instance_in(s.status, name) is None && status_in(s.status, name)
        == TaskStatus::Pending && !cleaned {
        ResetOutcome::AlreadyPending
    } else {
        ResetOutcome::Reset
    }
}

/// The store after a reset of `name`.
pub open spec fn reset_result(s: StoreModel, name: Seq<char>, cleaned: bool) -> StoreModel {
    match reset_outcome(s, name, cleaned) {
        ResetOutcome::ScratchRemoved => StoreModel { status: s.status.remove(name), ..s },
        ResetOutcome::AlreadyPending => s,
        ResetOutcome::Reset => StoreModel {
            status: with_instance(with_status(s.status, name, TaskStatus::Pending), name, None),
            ..s
        },
    }
}

/// The steps of a reset of a task with an instance: the archive script where one is
/// configured, a backup of the worktree, and what gives the instance back.
pub open spec fn reset_steps(s: StoreModel, c: WtConfigModel, name: Seq<char>) -> Seq<StepModel> {
    match instance_in(s.status, name) {
        Some(i) => reclaim_steps(i, c.archive_script, Some(name)),
        None => Seq::<StepModel>::empty(),
    }
}

/// One step for each of `branches` that deletes it.
pub open spec fn branch_deletions(branches: Seq<Seq<char>>) -> Seq<StepModel> {
    branches.map_values(|b: Seq<char>| StepModel::DeleteBranch { branch: b })
}

/// The steps that remove what a failed start left behind: the worktree at the place
/// where the task's worktree goes, where one was found, and the branches that were found
/// under the task's name.
pub open spec fn orphan_steps(
    c: WtConfigModel,
    name: Seq<char>,
    cwd: Seq<char>,
    worktree_found: bool,
    branches: Seq<Seq<char>>,
) -> Seq<StepModel> {
    (if worktree_found {
        seq![StepModel::RemoveWorktree { path: worktree_of(c, name, cwd) }]
    } else {
        Seq::<StepModel>::empty()
    }) + branch_deletions(branches)
}

/// Checks that `name` may be reset. The dependents are looked through in the order of the
/// listing by name, and the first that is under way is named.
pub fn check(store: &TaskStore, name: &str) -> (r: Result<(), WtError>)
    ensures
        exists|l: Seq<Task>| #[trigger]
            store.is_listing(l) && match reset_refusal(store@, l, name@) {
                None => r is Ok,
                Some(e) => r is Err && r->Err_0@ == e,
            },
{
    let tasks = store.list();
    let ghost l = targets(tasks@);
    assert(store.is_listing(l));
    if !store.is_scratch(name) && !store.tasks.contains_key(name) {
        return Err(WtError::TaskNotFound(String::from_str(name)));
    }
    let mut i: usize = 0;
    assert(l.skip(0) =~= l);
    while i < tasks.len()
        invariant
            i <= tasks.len(),
            l == targets(tasks@),
            store.is_listing(l),
            scratch_in(store@.status, name@) || store@.tasks.dom().contains(name@),
            first_blocking(store@, l, name@) == first_blocking(store@, l.skip(i as int), name@),
        decreases tasks.len() - i,
    {
        let task = tasks[i];
        proof {
            assert(l.skip(i as int)[0] == *task);
            assert(l.skip(i as int).drop_first() =~= l.skip(i + 1));
        }
        if !same_text(task.name(), name) && texts_contain(&task.frontmatter.depends, name) {
            let status = store.get_status(task.name());
            if status != TaskStatus::Pending && status != TaskStatus::Archived {
                proof {
                    assert(blocks_reset(store@, task@, name@));
                    assert(first_blocking(store@, l.skip(i as int), name@) == Some(task@));
                    assert(reset_refusal(store@, l, name@) == Some(
                        WtErrorModel::HasDependents {
                            task: name@,
                            dependent: task@.name,
                            status: status.label(),
                        },
                    ));
                }
                return Err(
                    WtError::HasDependents {
                        task: String::from_str(name),
                        dependent: String::from_str(task.name()),
                        status: String::from_str(status.display_name()),
                    },
                );
            }
        }
        i += 1;
    }
    Ok(())
}

/// The steps of a reset of `name` as far as its instance goes. Each is best effort but
/// the backup of the worktree: where that fails, the reset ends.
pub fn plan(store: &TaskStore, config: &WtConfig, name: &str) -> (r: Vec<Step>)
    ensures
        steps(r@) == reset_steps(store@, config@, name@),
        forall|i: int|
            0 <= i < r.len() ==> (#[trigger] steps(r@)[i]).best_effort() || steps(
                r@,
            )[i] is BackupWorktree,
{
    match store.get_instance(name) {
        Some(i) => {
            proof {
                lemma_reclaim_best_effort(i@, config@.archive_script, Some(name@));
            }
            reclaim(i, &config.archive_script, Some(name))
        },
        None => {
            let r: Vec<Step> = Vec::new();
            assert(steps(r@) =~= Seq::<StepModel>::empty());
            r
        },
    }
}

/// The steps that remove what a failed start of `name` left behind. Each is best effort.
pub fn orphan_plan(
    config: &WtConfig,
    name: &str,
    cwd: &str,
    worktree_found: bool,
    branches: &Vec<String>,
) -> (r: Vec<Step>)
    ensures
        steps(r@) == orphan_steps(config@, name@, cwd@, worktree_found, texts(branches@)),
        forall|i: int| 0 <= i < r.len() ==> (#[trigger] steps(r@)[i]).best_effort(),
{
    let mut r: Vec<Step> = Vec::new();
    if worktree_found {
        let dir = path_join(cwd, config.worktree_dir.as_str());
        let worktree = path_join(dir.as_str(), name);
        r.push(Step::RemoveWorktree { path: worktree });
    }
    let ghost head = steps(r@);
    let mut i: usize = 0;
    assert(head + branch_deletions(texts(branches@).take(0)) =~= head);
    while i < branches.len()
        invariant
            i <= branches.len(),
            steps(r@) == head + branch_deletions(texts(branches@).take(i as int)),
            forall|k: int| 0 <= k < r.len() ==> (#[trigger] steps(r@)[k]).best_effort(),
        decreases branches.len() - i,
    {
        let ghost before = steps(r@);
        r.push(Step::DeleteBranch { branch: branches[i].clone() });
        proof {
            let added = StepModel::DeleteBranch { branch: branches@[i as int]@ };
            assert(steps(r@) =~= before.push(added));
            assert(branch_deletions(texts(branches@).take(i + 1)) =~= branch_deletions(
                texts(branches@).take(i as int),
            ).push(added));
            assert forall|k: int| 0 <= k < r.len() implies (#[trigger] steps(r@)[k]).best_effort() by {
                if k < before.len() {
                    assert(steps(r@)[k] == before[k]);
                }
            }
        }
        i += 1;
    }
    assert(texts(branches@).take(branches.len() as int) =~= texts(branches@));
    r
}

/// The steps of a reset of `name`, and whether they remove resources that no instance
/// speaks of: the steps that give back the instance where one is bound, else the steps
/// that remove the worktree and the branches that were found under the task's name.
pub fn full_plan(
    store: &TaskStore,
    config: &WtConfig,
    name: &str,
    cwd: &str,
    worktree_found: bool,
    branches: &Vec<String>,
) -> (r: (Vec<Step>, bool))
    ensures
        steps(r.0@) == if instance_in(store@.status, name@) is Some {
            reset_steps(store@, config@, name@)
        } else {
            orphan_steps(config@, name@, cwd@, worktree_found, texts(branches@))
        },
        r.1 == (instance_in(store@.status, name@) is None && (worktree_found || branches.len()
            > 0)),
        forall|i: int|
            0 <= i < r.0.len() ==> (#[trigger] steps(r.0@)[i]).best_effort() || steps(
                r.0@,
            )[i] is BackupWorktree,
{
    if store.get_instance(name).is_some() {
        (plan(store, config, name), false)
    } else {
        let orphans = orphan_plan(config, name, cwd, worktree_found, branches);
        (orphans, worktree_found || branches.len() > 0)
    }
}

/// Records the reset of `name`, where `cleaned` tells whether resources that no instance
/// spoke of were found and removed.
pub fn apply(store: &mut TaskStore, name: &str, cleaned: bool) -> (r: ResetOutcome)
    ensures
        r == reset_outcome(old(store)@, name@, cleaned),
        final(store)@ == reset_result(old(store)@, name@, cleaned),
{
    if store.is_scratch(name) {
        store.status.remove(name);
        ResetOutcome::ScratchRemoved
    } else if store.get_instance(name).is_none() && store.get_status(name) == TaskStatus::Pending
        && !cleaned {
        ResetOutcome::AlreadyPending
    } else {
        store.set_status(name, TaskStatus::Pending);
        store.set_instance(name, None);
        ResetOutcome::Reset
    }
}

/// What is said after a reset.
pub fn message(name: &str, outcome: ResetOutcome) -> (r: String)
    ensures
        r@ == match outcome {
            ResetOutcome::AlreadyPending => "Task '"@ + name@ + "' is already pending."@,
            ResetOutcome::Reset => "Task '"@ + name@ + "' reset to pending."@,
            ResetOutcome::ScratchRemoved => "Scratch environment '"@ + name@ + "' cleaned up."@,
        },
{
    match outcome {
        ResetOutcome::AlreadyPending => {
            let mut m = String::from_str("Task '");
            m.append(name);
            m.append("' is already pending.");
            m
        },
        ResetOutcome::Reset => {
            let mut m = String::from_str("Task '");
            m.append(name);
            m.append("' reset to pending.");
            m
        },
        ResetOutcome::ScratchRemoved => {
            let mut m = String::from_str("Scratch environment '");
            m.append(name);
            m.append("' cleaned up.");
            m
        },
    }
}

/// Where a task of the listing keeps `name` from being reset, one is found.
pub proof fn lemma_first_blocking_some(s: StoreModel, l: Seq<Task>, name: Seq<char>, k: int)
    requires
        0 <= k < l.len(),
        blocks_reset(s, l[k]@, name),
    ensures
        first_blocking(s, l, name) is Some,
        blocks_reset(s, first_blocking(s, l, name)->Some_0, name),
    decreases l.len(),
{
    if !blocks_reset(s, l[0]@, name) {
        assert(l.drop_first()[k - 1] == l[k]);
        lemma_first_blocking_some(s, l.drop_first(), name, k - 1);
    }
}

/// Where no task of the listing keeps `name` from being reset, none is found.
pub proof fn lemma_first_blocking_none(s: StoreModel, l: Seq<Task>, name: Seq<char>)
    requires
        forall|k: int| 0 <= k < l.len() ==> !blocks_reset(s, #[trigger] l[k]@, name),
    ensures
        first_blocking(s, l, name) is None,
    decreases l.len(),
{
    if l.len() > 0 {
        assert(!blocks_reset(s, l[0]@, name));
        assert forall|k: int| 0 <= k < l.drop_first().len() implies !blocks_reset(
            s,
            #[trigger] l.drop_first()[k]@,
            name,
        ) by {
            assert(l.drop_first()[k] == l[k + 1]);
        }
        lemma_first_blocking_none(s, l.drop_first(), name);
    }
}

/// A task on which a running task depends cannot be reset: the reset fails with
/// `HasDependents`.
pub proof fn lemma_reset_refused_by_running_dependent(
    s: StoreModel,
    l: Seq<Task>,
    name: Seq<char>,
    k: int,
)
    requires
        s.tasks.dom().contains(name) || scratch_in(s.status, name),
        0 <= k < l.len(),
        l[k]@.name != name,
        l[k]@.depends.contains(name),
        status_in(s.status, l[k]@.name) == TaskStatus::Running,
    ensures
        reset_refusal(s, l, name) is Some,
        reset_refusal(s, l, name)->Some_0 is HasDependents,
{
    lemma_first_blocking_some(s, l, name, k);
}

/// Once the dependent `l[k]` was reset, the task that it kept from being reset can be
/// reset, provided that no other dependent is under way.
pub proof fn lemma_reset_allowed_after_dependent_reset(
    s: StoreModel,
    l: Seq<Task>,
    name: Seq<char>,
    k: int,
    cleaned: bool,
)
    requires
        s.tasks.dom().contains(name) || scratch_in(s.status, name),
        0 <= k < l.len(),
        l[k]@.name != name,
        forall|j: int|
            0 <= j < l.len() && (#[trigger] l[j]@).name != l[k]@.name ==> !blocks_reset(
                s,
                l[j]@,
                name,
            ),
        reset_outcome(s, l[k]@.name, cleaned) != ResetOutcome::AlreadyPending,
    ensures
        reset_refusal(reset_result(s, l[k]@.name, cleaned), l, name) is None,
{
    let d = l[k]@.name;
    let s2 = reset_result(s, d, cleaned);
    assert(status_in(s2.status, d) == TaskStatus::Pending);
    assert forall|j: int| 0 <= j < l.len() implies !blocks_reset(s2, #[trigger] l[j]@, name) by {
        if l[j]@.name != d {
            assert(status_in(s2.status, l[j]@.name) == status_in(s.status, l[j]@.name));
            assert(!blocks_reset(s, l[j]@, name));
        }
    }
    lemma_first_blocking_none(s2, l, name);
    assert(s2.tasks == s.tasks);
    assert(scratch_in(s2.status, name) == scratch_in(s.status, name));
}

} // verus!
