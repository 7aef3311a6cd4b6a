//! Giving back the resources of tasks that no longer need them.

use vstd::prelude::*;
use crate::commands::plan::{Step, StepModel, lemma_reclaim_best_effort, reclaim, reclaim_steps, steps};
use crate::models::status::{instance_in, status_in, with_instance};
use crate::models::store::{StoreModel, TaskStore, targets};
use crate::models::task::{Task, TaskStatus};
use crate::text::texts;

verus! {

/// Whether a cleanup takes the task `name`: an instance is bound to it, and it is merged
/// unless the cleanup takes all.
pub open spec fn cleanup_takes(s: StoreModel, name: Seq<char>, all: bool) -> bool {
    instance_in(s.status, name) is Some && (all || status_in(s.status, name)
        == TaskStatus::Merged)
}

/// The names of the tasks of `l` that a cleanup takes, in order.
pub open spec fn cleanup_names(s: StoreModel, l: Seq<Task>, all: bool) -> Seq<Seq<char>>
    decreases l.len(),
{
    if l.len() == 0 {
        Seq::<Seq<char>>::empty()
    } else if cleanup_takes(s, l.last()@.name, all) {
        cleanup_names(s, l.drop_last(), all).push(l.last()@.name)
    } else {
        cleanup_names(s, l.drop_last(), all)
    }
}

/// The store after the instance of `name` was given back: the instance is cleared, the
/// status stays.
pub open spec fn cleaned(s: StoreModel, name: Seq<char>) -> StoreModel {
    StoreModel { status: with_instance(s.status, name, None), ..s }
}

/// The defined tasks that a cleanup takes, in the order of the listing by name.
pub fn candidates(store: &TaskStore, all: bool) -> (r: Vec<String>)
    ensures
        exists|l: Seq<Task>| #[trigger]
            store.is_listing(l) && texts(r@) == cleanup_names(store@, l, all),
{
    let tasks = store.list();
    let ghost l = targets(tasks@);
    let mut r: Vec<String> = Vec::new();
    let mut i: usize = 0;
    assert(l.take(0) =~= Seq::<Task>::empty());
    assert(texts(r@) =~= Seq::<Seq<char>>::empty());
    while i < tasks.len()
        invariant
            i <= tasks.len(),
            l == targets(tasks@),
            texts(r@) == cleanup_names(store@, l.take(i as int), all),
        decreases tasks.len() - i,
    {
        let task = tasks[i];
        proof {
            assert(l.take(i + 1).drop_last() =~= l.take(i as int));
            assert(l.take(i + 1).last() == *task);
        }
        let bound = store.get_instance(task.name()).is_some();
        if bound && (all || store.get_status(task.name()) == TaskStatus::Merged) {
            let ghost before = r@;
            let n = String::from_str(task.name());
            r.push(n);
            assert(texts(r@) =~= texts(before).push(task@.name));
        }
        i += 1;
    }
    proof {
        assert(l.take(tasks.len() as int) =~= l);
        assert(store.is_listing(l));
    }
    r
}

/// The steps that give back the instance of `name`: its window, its worktree and its
/// branch. Each is best effort.
pub fn plan(store: &TaskStore, name: &str) -> (r: Vec<Step>)
    ensures
        steps(r@) == (match instance_in(store@.status, name@) {
            Some(i) => reclaim_steps(i, None, None),
            None => Seq::<StepModel>::empty(),
        }),
        forall|i: int| 0 <= i < r.len() ==> (#[trigger] steps(r@)[i]).best_effort(),
{
    match store.get_instance(name) {
        Some(i) => {
            proof {
                lemma_reclaim_best_effort(i@, None, None);
            }
            reclaim(i, &None, None)
        },
        None => {
            let r: Vec<Step> = Vec::new();
            assert(steps(r@) =~= Seq::<StepModel>::empty());
            r
        },
    }
}

/// Records that the instance of `name` was given back.
pub fn apply(store: &mut TaskStore, name: &str)
    ensures
        final(store)@ == cleaned(old(store)@, name@),
{
    store.set_instance(name, None);
}

/// What is said where a cleanup found nothing to do, and where it is done.
pub fn message(count: usize) -> (r: &'static str)
    ensures
        r@ == if count == 0 {
            "Nothing to clean up."@
        } else {
            "Cleanup complete."@
        },
{
    if count == 0 {
        "Nothing to clean up."
    } else {
        "Cleanup complete."
    }
}

} // verus!
