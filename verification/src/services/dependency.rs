//! What a task's dependencies and dependents allow.

use vstd::prelude::*;
use crate::error::{WtError, WtErrorModel};
use crate::models::status::status_in;
use crate::models::store::{StoreModel, TaskStore, targets};
use crate::models::task::{Task, TaskStatus};
use crate::text::{texts, texts_contain};

verus! {

/// Whether the dependency `dep` lets a dependent start: it is defined, and merged or
/// archived.
pub open spec fn dependency_met(s: StoreModel, dep: Seq<char>) -> bool {
    s.tasks.dom().contains(dep) && status_in(s.status, dep).settles()
}

/// The place of the first of `deps` that does not let a dependent start.
pub open spec fn first_unmet(s: StoreModel, deps: Seq<Seq<char>>) -> Option<int>
    decreases deps.len(),
{
    if deps.len() == 0 {
        None
    } else if !dependency_met(s, deps[0]) {
        Some(0)
    } else {
        match first_unmet(s, deps.drop_first()) {
            Some(i) => Some(i + 1),
            None => None,
        }
    }
}

/// What keeps `name` from starting as far as its dependencies go: the task is not
/// defined, or the first dependency that is not defined or not yet merged or archived.
pub open spec fn dependency_refusal(s: StoreModel, name: Seq<char>) -> Option<WtErrorModel> {
    if !s.tasks.dom().contains(name) {
        Some(WtErrorModel::TaskNotFound(name))
    } else {
        let deps = s.tasks[name].depends;
        match first_unmet(s, deps) {
            None => None,
            Some(i) => if !s.tasks.dom().contains(deps[i]) {
                Some(WtErrorModel::DependencyNotFound(deps[i]))
            } else {
                Some(WtErrorModel::DependencyNotMerged { task: name, dep: deps[i] })
            },
        }
    }
}

/// Checks that every dependency of `task_name` is defined and merged or archived, and
/// names the first that is not.
pub fn check_dependencies_merged(store: &TaskStore, task_name: &str) -> (r: Result<(), WtError>)
    ensures
        match dependency_refusal(store@, task_name@) {
            None => r is Ok,
            Some(e) => r is Err && r->Err_0@ == e,
        },
{
    let task = match store.get(task_name) {
        Some(t) => t,
        None => {
            return Err(WtError::TaskNotFound(String::from_str(task_name)));
        },
    };
    let deps = &task.frontmatter.depends;
    let ghost all = texts(deps@);
    let mut i: usize = 0;
    assert(all.skip(0) =~= all);
    while i < deps.len()
        invariant
            i <= deps.len(),
            all == texts(deps@),
            store@.tasks.dom().contains(task_name@),
            all == store@.tasks[task_name@].depends,
            match first_unmet(store@, all.skip(i as int)) {
                Some(k) => first_unmet(store@, all) == Some(k + i),
                None => first_unmet(store@, all) is None,
            },
        decreases deps.len() - i,
    {
        let dep = &deps[i];
        let ghost rest = all.skip(i as int);
        proof {
            assert(rest[0] == dep@);
            assert(all[i as int] == dep@);
            assert(rest.drop_first() =~= all.skip(i + 1));
        }
        if store.get(dep.as_str()).is_none() {
            assert(first_unmet(store@, rest) == Some(0int));
            return Err(WtError::DependencyNotFound(dep.clone()));
        }
        if !store.get_status(dep.as_str()).is_settled() {
            assert(first_unmet(store@, rest) == Some(0int));
            return Err(
                WtError::DependencyNotMerged {
                    task: String::from_str(task_name),
                    dep: dep.clone(),
                },
            );
        }
        i += 1;
    }
    Ok(())
}

/// The view of a list of tasks with their status.
pub open spec fn named_statuses(v: Seq<(String, TaskStatus)>) -> Seq<(Seq<char>, TaskStatus)> {
    v.map_values(|p: (String, TaskStatus)| (p.0@, p.1))
}

/// The tasks of `l` that depend on `name` and are not pending, each with its status.
pub open spec fn dependents_under_way(
    s: StoreModel,
    l: Seq<Task>,
    name: Seq<char>,
) -> Seq<(Seq<char>, TaskStatus)>
    decreases l.len(),
{
    if l.len() == 0 {
        Seq::<(Seq<char>, TaskStatus)>::empty()
    } else {
        let rest = dependents_under_way(s, l.drop_last(), name);
        let t = l.last()@;
        if t.depends.contains(name) && status_in(s.status, t.name) != TaskStatus::Pending {
            rest.push((t.name, status_in(s.status, t.name)))
        } else {
            rest
        }
    }
}

/// The tasks that depend on `task_name` and are not pending, in the order of the listing
/// by name, each with its status.
pub fn find_non_pending_dependents(store: &TaskStore, task_name: &str) -> (r: Vec<
    (String, TaskStatus),
>)
    ensures
        exists|l: Seq<Task>| #[trigger]
            store.is_listing(l) && named_statuses(r@) == dependents_under_way(
                store@,
                l,
                task_name@,
            ),
{
    let tasks = store.list();
    let ghost l = targets(tasks@);
    let mut r: Vec<(String, TaskStatus)> = Vec::new();
    let mut i: usize = 0;
    assert(l.take(0) =~= Seq::<Task>::empty());
    assert(named_statuses(r@) =~= Seq::<(Seq<char>, TaskStatus)>::empty());
    while i < tasks.len()
        invariant
            i <= tasks.len(),
            l == targets(tasks@),
            named_statuses(r@) == dependents_under_way(store@, l.take(i as int), task_name@),
        decreases tasks.len() - i,
    {
        let task = tasks[i];
        proof {
            assert(l.take(i + 1).drop_last() =~= l.take(i as int));
            assert(l.take(i + 1).last() == *task);
        }
        if texts_contain(&task.frontmatter.depends, task_name) {
            let status = store.get_status(task.name());
            if status != TaskStatus::Pending {
                let ghost old_r = r@;
                let n = String::from_str(task.name());
                r.push((n, status));
                assert(named_statuses(r@) =~= named_statuses(old_r).push((task@.name, status)));
            }
        }
        i += 1;
    }
    proof {
        assert(l.take(tasks.len() as int) =~= l);
        assert(store.is_listing(l));
    }
    r
}

} // verus!
