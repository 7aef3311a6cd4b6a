//! Scratch tasks: environments without a task definition.

use vstd::prelude::*;
use crate::commands::plan::{Step, StepModel, steps};
use crate::commands::start::{StartPlan, StartPlanModel, worktree_of};
use crate::constants::{branch_name, branch_of};
use crate::error::{WtError, WtErrorModel};
use crate::models::checks::name_fault;
use crate::models::config::{WtConfig, WtConfigModel};
use crate::models::status::{with_instance, with_scratch, with_status};
use crate::models::store::{StoreModel, TaskStore};
use crate::models::task::{Instance, InstanceModel, TaskStatus};
use crate::text::{chars_of, copy_texts, decimal, has_prefix, path_join, push_decimal, starts_with, texts};

verus! {

/// The `n`-th scratch name: `s` and the number.
pub open spec fn scratch_name(n: nat) -> Seq<char> {
    "s"@ + decimal(n)
}

/// Whether one of `branches` belongs to a task named `name`: it begins with the branch
/// prefix, the name and `-`.
pub open spec fn has_branch_of(branches: Seq<Seq<char>>, name: Seq<char>) -> bool {
    exists|i: int|
        0 <= i < branches.len() && has_prefix(#[trigger] branches[i], "wt/"@ + name + "-"@)
}

/// Whether the `n`-th scratch name is free: no state is recorded under it and no branch
/// belongs to it.
pub open spec fn scratch_free(s: StoreModel, branches: Seq<Seq<char>>, n: nat) -> bool {
    !s.status.dom().contains(scratch_name(n)) && !has_branch_of(branches, scratch_name(n))
}

/// Why no scratch task can be made under `name`, where `found` holds the branches that
/// were found under that name: the name cannot serve, a task of that name is defined, a
/// state is recorded under it, or a branch is in the way.
pub open spec fn new_refusal(s: StoreModel, name: Seq<char>, found: Seq<Seq<char>>) -> Option<
    WtErrorModel,
> {
    if name_fault(name) is Some {
        Some(WtErrorModel::InvalidTaskFile(name_fault(name)->Some_0))
    } else if s.tasks.dom().contains(name) {
        Some(WtErrorModel::TaskExists(name))
    } else if s.status.dom().contains(name) {
        Some(WtErrorModel::InvalidInput("Name '"@ + name + "' already exists in status.json"@))
    } else if found.len() > 0 {
        Some(WtErrorModel::BranchExists(found[0]))
    } else {
        None
    }
}

/// The plan of a scratch task `name` under `session_id`, from the directory `cwd`: like a
/// start, but the window runs the init script alone, or nothing, and the instance records
/// no session.
pub open spec fn scratch_plan_of(
    c: WtConfigModel,
    name: Seq<char>,
    session_id: Seq<char>,
    cwd: Seq<char>,
) -> StartPlanModel {
    let branch = branch_of(name, session_id);
    let worktree = worktree_of(c, name, cwd);
    let command = match c.init_script {
        Some(s) => s,
        None => Seq::<char>::empty(),
    };
    StartPlanModel {
        branch,
        worktree_path: worktree,
        command,
        instance: InstanceModel {
            branch,
            worktree_path: worktree,
            tmux_session: c.tmux_session,
            tmux_window: name,
            session_id: None,
        },
        steps: seq![
            StepModel::CreateWorktree { branch, path: worktree },
            StepModel::CopyFiles { files: c.copy_files, worktree },
            StepModel::EnsureSession { session: c.tmux_session },
            StepModel::CreateWindow {
                session: c.tmux_session,
                window: name,
                cwd: worktree,
                command,
            },
        ],
    }
}

/// The store after the scratch task `name` was made with `instance`.
pub open spec fn scratch_made(s: StoreModel, name: Seq<char>, instance: InstanceModel) -> StoreModel {
    StoreModel {
        status: with_instance(
            with_scratch(with_status(s.status, name, TaskStatus::Running), name, true),
            name,
            Some(instance),
        ),
        ..s
    }
}

/// Whether one of `branches` belongs to a task named `name`.
fn branch_taken(branches: &Vec<String>, name: &str) -> (r: bool)
    ensures
        r == has_branch_of(texts(branches@), name@),
{
    let mut prefix = String::from_str("wt/");
    prefix.append(name);
    prefix.append("-");
    let p = chars_of(prefix.as_str());
    let mut i: usize = 0;
    while i < branches.len()
        invariant
            i <= branches.len(),
            p@ == "wt/"@ + name@ + "-"@,
            forall|j: int| 0 <= j < i ==> !has_prefix(#[trigger] texts(branches@)[j], p@),
        decreases branches.len() - i,
    {
        let b = chars_of(branches[i].as_str());
        assert(texts(branches@)[i as int] == b@);
        if starts_with(&b, &p) {
            return true;
        }
        i += 1;
    }
    false
}

/// The first scratch name `s1`, `s2`, ... that is free, given the branches that exist.
/// None where every number below the largest `u64` is taken.
pub fn generate_scratch_name(store: &TaskStore, branches: &Vec<String>) -> (r: Option<String>)
    ensures
        match r {
            Some(name) => exists|n: nat|
                1 <= n && name@ == scratch_name(n) && #[trigger] scratch_free(
                    store@,
                    texts(branches@),
                    n,
                ) && forall|m: nat| 1 <= m < n ==> !scratch_free(store@, texts(branches@), m),
            None => forall|m: nat|
                1 <= m < u64::MAX ==> !scratch_free(store@, texts(branches@), m),
        },
{
    let mut n: u64 = 1;
    while n < u64::MAX
        invariant
            1 <= n <= u64::MAX,
            forall|m: nat| 1 <= m < n ==> !scratch_free(store@, texts(branches@), m),
        decreases u64::MAX - n,
    {
        let mut name = String::from_str("s");
        push_decimal(&mut name, n);
        if !store.name_exists_in_status(name.as_str()) && !branch_taken(branches, name.as_str()) {
            assert(scratch_free(store@, texts(branches@), n as nat));
            return Some(name);
        }
        n += 1;
    }
    None
}

/// Checks that a scratch task can be made under `name`, where `found` holds the branches
/// that were found under that name.
pub fn check(store: &TaskStore, name: &str, found: &Vec<String>) -> (r: Result<(), WtError>)
    ensures
        match new_refusal(store@, name@, texts(found@)) {
            None => r is Ok,
            Some(e) => r is Err && r->Err_0@ == e,
        },
{
    match TaskStore::validate_task_name(name) {
        Err(e) => {
            return Err(e);
        },
        Ok(_) => {},
    }
    if store.tasks.contains_key(name) {
        return Err(WtError::TaskExists(String::from_str(name)));
    }
    if store.name_exists_in_status(name) {
        let mut m = String::from_str("Name '");
        m.append(name);
        m.append("' already exists in status.json");
        return Err(WtError::InvalidInput(m));
    }
    if found.len() > 0 {
        return Err(WtError::BranchExists(found[0].clone()));
    }
    Ok(())
}

/// Lays out the making of the scratch task `name` under `session_id`, from the directory
/// `cwd`.
pub fn plan(config: &WtConfig, name: &str, session_id: &str, cwd: &str) -> (r: StartPlan)
    ensures
        r@ == scratch_plan_of(config@, name@, session_id@, cwd@),
{
    let branch = branch_name(name, session_id);
    let dir = path_join(cwd, config.worktree_dir.as_str());
    let worktree = path_join(dir.as_str(), name);
    let command = match &config.init_script {
        Some(s) => s.clone(),
        None => String::new(),
    };
    let instance = Instance {
        branch: branch.clone(),
        worktree_path: worktree.clone(),
        tmux_session: config.tmux_session.clone(),
        tmux_window: String::from_str(name),
        session_id: None,
    };
    let mut sequence: Vec<Step> = Vec::new();
    sequence.push(Step::CreateWorktree { branch: branch.clone(), path: worktree.clone() });
    sequence.push(Step::CopyFiles { files: copy_texts(&config.copy_files), worktree: worktree.clone() });
    sequence.push(Step::EnsureSession { session: config.tmux_session.clone() });
    sequence.push(
        Step::CreateWindow {
            session: config.tmux_session.clone(),
            window: String::from_str(name),
            cwd: worktree.clone(),
            command: command.clone(),
        },
    );
    assert(steps(sequence@) =~= scratch_plan_of(config@, name@, session_id@, cwd@).steps);
    StartPlan { branch, worktree_path: worktree, command, instance, steps: sequence }
}

/// Records the scratch task `name` as running with `instance`.
pub fn apply(store: &mut TaskStore, name: &str, instance: Instance)
    ensures
        final(store)@ == scratch_made(old(store)@, name@, instance@),
{
    store.set_status(name, TaskStatus::Running);
    store.set_scratch(name, true);
    store.set_instance(name, Some(instance));
}

/// What is said after a scratch task was made: its name, where its worktree lies within
/// the project, its branch and its window.
pub open spec fn made_text(c: WtConfigModel, name: Seq<char>, branch: Seq<char>) -> Seq<char> {
    "Created scratch environment '"@ + name + "'\n  Worktree: "@ + c.worktree_dir + "/"@ + name
        + "\n  Branch:   "@ + branch + "\n  Tmux:     "@ + c.tmux_session + ":"@ + name
}

/// What is said after a scratch task was made.
pub fn message(config: &WtConfig, name: &str, branch: &str) -> (r: String)
    ensures
        r@ == made_text(config@, name@, branch@),
{
    let mut r = String::from_str("Created scratch environment '");
    r.append(name);
    r.append("'\n  Worktree: ");
    r.append(config.worktree_dir.as_str());
    r.append("/");
    r.append(name);
    r.append("\n  Branch:   ");
    r.append(branch);
    r.append("\n  Tmux:     ");
    r.append(config.tmux_session.as_str());
    r.append(":");
    r.append(name);
    r
}

/// Checks that a scratch task can be made under `name` and lays its making out under a
/// session id made for it. `found` holds the branches that were found under that name.
pub fn begin(store: &TaskStore, config: &WtConfig, name: &str, found: &Vec<String>, cwd: &str) -> (r:
    Result<StartPlan, WtError>)
    ensures
        match new_refusal(store@, name@, texts(found@)) {
            Some(e) => r is Err && r->Err_0@ == e,
            None => r is Ok && exists|id: Seq<char>|
                id.len() == 36 && r->Ok_0@ == #[trigger] scratch_plan_of(config@, name@, id, cwd@),
        },
{
    match check(store, name, found) {
        Err(e) => Err(e),
        Ok(_) => {
            let id = crate::commands::start::fresh_session_id();
            Ok(plan(config, name, id.as_str(), cwd))
        },
    }
}

} // verus!
