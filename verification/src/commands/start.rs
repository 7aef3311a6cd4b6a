//! Starting a task: from pending to running.

use vstd::prelude::*;
use crate::commands::next::{classify_tasks, ready_in};
use crate::commands::plan::{Step, StepModel, steps};
use crate::constants::{branch_name, branch_of};
use crate::error::{WtError, WtErrorModel};
use crate::models::config::{WtConfig, WtConfigModel};
use crate::models::status::{status_in, with_instance, with_status};
use crate::models::store::{StoreModel, TaskStore, targets};
use crate::models::task::{Instance, InstanceModel, Task, TaskStatus};
use crate::services::dependency::{check_dependencies_merged, dependency_refusal};
use crate::text::{copy_texts, path_join, path_joined, replace_all, replaced, texts};

verus! {

/// Makes a random version 4 UUID with `uuid::Uuid::new_v4` and writes it with its
/// `to_string`, in the hyphenated form, which has 36 characters. Each call gives another
/// id; the length is all that is claimed of it.
#[verifier::external_body]
pub(crate) fn fresh_session_id() -> (r: String)
    ensures
        r@.len() == 36,
{
    uuid::Uuid::new_v4().to_string()
}

/// Why `name` cannot start: it is not defined, it is running already, or one of its
/// dependencies is not defined or not yet merged or archived.
pub open spec fn start_refusal(s: StoreModel, name: Seq<char>) -> Option<WtErrorModel> {
    if !s.tasks.dom().contains(name) {
        Some(WtErrorModel::TaskNotFound(name))
    } else if status_in(s.status, name) == TaskStatus::Running {
        Some(WtErrorModel::AlreadyRunning(name))
    } else {
        dependency_refusal(s, name)
    }
}

/// The store after `name` was started with `instance`.
pub open spec fn started(s: StoreModel, name: Seq<char>, instance: InstanceModel) -> StoreModel {
    StoreModel {
        status: with_instance(
            with_status(s.status, name, TaskStatus::Running),
            name,
            Some(instance),
        ),
        ..s
    }
}

/// What a start makes, as plain sequences.
pub struct StartPlanModel {
    pub branch: Seq<char>,
    pub worktree_path: Seq<char>,
    pub command: Seq<char>,
    pub instance: InstanceModel,
    pub steps: Seq<StepModel>,
}

/// What a start makes: the branch, the worktree, the command of the agent, the instance
/// to record, and the steps to take.
#[derive(Debug)]
pub struct StartPlan {
    pub branch: String,
    pub worktree_path: String,
    pub command: String,
    pub instance: Instance,
    pub steps: Vec<Step>,
}

impl View for StartPlan {
    type V = StartPlanModel;

    open spec fn view(&self) -> StartPlanModel {
        StartPlanModel {
            branch: self.branch@,
            worktree_path: self.worktree_path@,
            command: self.command@,
            instance: self.instance@,
            steps: steps(self.steps@),
        }
    }
}

/// Where the worktree of `name` goes: under the worktree directory, which is taken
/// relative to `cwd` unless it is absolute.
pub open spec fn worktree_of(c: WtConfigModel, name: Seq<char>, cwd: Seq<char>) -> Seq<char> {
    path_joined(path_joined(cwd, c.worktree_dir), name)
}

/// The start arguments with `${task}`, `${branch}` and `${worktree}` filled in, in that
/// order.
pub open spec fn expanded_args(
    c: WtConfigModel,
    name: Seq<char>,
    branch: Seq<char>,
    worktree: Seq<char>,
) -> Seq<char> {
    replaced(
        replaced(replaced(c.start_args, "${task}"@, name), "${branch}"@, branch),
        "${worktree}"@,
        worktree,
    )
}

/// The command typed into the task's window: the agent's command with the expanded
/// arguments and the session id, after the init script where one is configured.
pub open spec fn agent_command(
    c: WtConfigModel,
    name: Seq<char>,
    session_id: Seq<char>,
    cwd: Seq<char>,
) -> Seq<char> {
    let branch = branch_of(name, session_id);
    let worktree = worktree_of(c, name, cwd);
    let agent = c.claude_command + " "@ + expanded_args(c, name, branch, worktree)
        + " --session-id "@ + session_id;
    match c.init_script {
        Some(script) => "("@ + script + ") && "@ + agent,
        None => agent,
    }
}

/// The plan of a start of `name` under `session_id`, from the directory `cwd`.
pub open spec fn start_plan_of(
    c: WtConfigModel,
    name: Seq<char>,
    session_id: Seq<char>,
    cwd: Seq<char>,
) -> StartPlanModel {
    let branch = branch_of(name, session_id);
    let worktree = worktree_of(c, name, cwd);
    let command = agent_command(c, name, session_id, cwd);
    StartPlanModel {
        branch,
        worktree_path: worktree,
        command,
        instance: InstanceModel {
            branch,
            worktree_path: worktree,
            tmux_session: c.tmux_session,
            tmux_window: name,
            session_id: Some(session_id),
        },
        steps: seq![
            StepModel::CreateWorktree { branch, path: worktree },
            StepModel::CopyFiles { files: c.copy_files, worktree },
            StepModel::EnsureSession { session: c.tmux_session },
            StepModel::CreateWindow {
                session: c.tmux_session,
                window: name,
                cwd: worktree,
                command,
            },
        ],
    }
}

/// Checks that `name` may start.
pub fn check(store: &TaskStore, name: &str) -> (r: Result<(), WtError>)
    ensures
        match start_refusal(store@, name@) {
            None => r is Ok,
            Some(e) => r is Err && r->Err_0@ == e,
        },
{
    match store.ensure_exists(name) {
        Err(e) => {
            return Err(e);
        },
        Ok(_) => {},
    }
    if store.get_status(name) == TaskStatus::Running {
        return Err(WtError::AlreadyRunning(String::from_str(name)));
    }
    check_dependencies_merged(store, name)
}

/// Lays out the start of `name` under `session_id`, from the directory `cwd`.
pub fn plan(config: &WtConfig, name: &str, session_id: &str, cwd: &str) -> (r: StartPlan)
    ensures
        r@ == start_plan_of(config@, name@, session_id@, cwd@),
{
    let branch = branch_name(name, session_id);
    let dir = path_join(cwd, config.worktree_dir.as_str());
    let worktree = path_join(dir.as_str(), name);
    let a = replace_all(config.start_args.as_str(), "${task}", name);
    let b = replace_all(a.as_str(), "${branch}", branch.as_str());
    let expanded = replace_all(b.as_str(), "${worktree}", worktree.as_str());
    let mut agent = config.claude_command.clone();
    agent.append(" ");
    agent.append(expanded.as_str());
    agent.append(" --session-id ");
    agent.append(session_id);
    let command = match &config.init_script {
        Some(script) => {
            let mut c = String::from_str("(");
            c.append(script.as_str());
            c.append(") && ");
            c.append(agent.as_str());
            c
        },
        None => agent,
    };
    let instance = Instance {
        branch: branch.clone(),
        worktree_path: worktree.clone(),
        tmux_session: config.tmux_session.clone(),
        tmux_window: String::from_str(name),
        session_id: Some(String::from_str(session_id)),
    };
    let mut sequence: Vec<Step> = Vec::new();
    sequence.push(Step::CreateWorktree { branch: branch.clone(), path: worktree.clone() });
    sequence.push(Step::CopyFiles { files: copy_texts(&config.copy_files), worktree: worktree.clone() });
    sequence.push(Step::EnsureSession { session: config.tmux_session.clone() });
    sequence.push(
        Step::CreateWindow {
            session: config.tmux_session.clone(),
            window: String::from_str(name),
            cwd: worktree.clone(),
            command: command.clone(),
        },
    );
    assert(steps(sequence@) =~= start_plan_of(config@, name@, session_id@, cwd@).steps);
    StartPlan { branch, worktree_path: worktree, command, instance, steps: sequence }
}

/// Fails with `BranchExists` where the branch of the plan was found to be in use.
pub fn conflict(plan: &StartPlan, branch_in_use: bool) -> (r: Result<(), WtError>)
    ensures
        !branch_in_use ==> r is Ok,
        branch_in_use ==> r is Err && r->Err_0@ == WtErrorModel::BranchExists(plan@.branch),
{
    if branch_in_use {
        Err(WtError::BranchExists(plan.branch.clone()))
    } else {
        Ok(())
    }
}

/// Records that `name` runs with `instance`.
pub fn apply(store: &mut TaskStore, name: &str, instance: Instance)
    ensures
        final(store)@ == started(old(store)@, name@, instance@),
{
    store.set_status(name, TaskStatus::Running);
    store.set_instance(name, Some(instance));
}

/// Checks that `name` may start and lays the start out under a session id made for it.
pub fn begin(store: &TaskStore, config: &WtConfig, name: &str, cwd: &str) -> (r: Result<
    StartPlan,
    WtError,
>)
    ensures
        match start_refusal(store@, name@) {
            Some(e) => r is Err && r->Err_0@ == e,
            None => r is Ok && r->Ok_0@.instance.session_id is Some && r->Ok_0@ == start_plan_of(
                config@,
                name@,
                r->Ok_0@.instance.session_id->Some_0,
                cwd@,
            ) && r->Ok_0@.instance.session_id->Some_0.len() == 36,
        },
{
    match check(store, name) {
        Err(e) => Err(e),
        Ok(_) => {
            let id = fresh_session_id();
            Ok(plan(config, name, id.as_str(), cwd))
        },
    }
}

/// The names of a list of tasks.
pub open spec fn task_names(l: Seq<Task>) -> Seq<Seq<char>> {
    l.map_values(|t: Task| t@.name)
}

/// Which tasks a start command is about: every ready task of the listing where `all` is
/// set, else the task that `task_ref` refers to.
pub fn execute(store: &TaskStore, task_ref: Option<&str>, all: bool) -> (r: Result<
    Vec<String>,
    WtError,
>)
    ensures
        all ==> r is Ok && exists|l: Seq<Task>| #[trigger]
            store.is_listing(l) && texts(r->Ok_0@) == task_names(ready_in(store@, l)),
        !all && task_ref is None ==> r is Err && r->Err_0@ == WtErrorModel::InvalidInput(
            "Task name or index required (or use --all to start all ready tasks)"@,
        ),
        !all && task_ref is Some ==> exists|found: Result<String, WtError>| #[trigger]
            store.resolved(task_ref->Some_0@, found) && match found {
                Ok(n) => r is Ok && texts(r->Ok_0@) == seq![n@],
                Err(e) => r is Err && r->Err_0@ == e@,
            },
{
    if all {
        let tasks = store.list();
        let (ready, _) = classify_tasks(&tasks, store);
        let mut names: Vec<String> = Vec::new();
        let mut i: usize = 0;
        let ghost rl = targets(ready@);
        assert(texts(names@) =~= task_names(rl.take(0)));
        while i < ready.len()
            invariant
                i <= ready.len(),
                rl == targets(ready@),
                texts(names@) == task_names(rl.take(i as int)),
            decreases ready.len() - i,
        {
            let ghost before = names@;
            let n = String::from_str(ready[i].name());
            assert(n@ == rl[i as int]@.name);
            names.push(n);
            proof {
                assert(names@ == before.push(n));
                let a = texts(names@);
                let b = task_names(rl.take(i + 1));
                assert(texts(before).len() == before.len());
                assert(rl.len() == ready.len());
                assert(rl.take(i as int).len() == i);
                assert(task_names(rl.take(i as int)).len() == i);
                assert(rl.take(i + 1).len() == i + 1);
                assert(a.len() == b.len());
                assert forall|k: int| 0 <= k < a.len() implies a[k] == b[k] by {
                    if k < i {
                        assert(a[k] == texts(before)[k]);
                        assert(task_names(rl.take(i as int))[k] == b[k]);
                    }
                }
                assert(a =~= b);
            }
            i += 1;
        }
        proof {
            assert(rl.take(ready.len() as int) =~= rl);
            assert(store.is_listing(targets(tasks@)));
        }
        Ok(names)
    } else {
        match task_ref {
            None => Err(
                WtError::InvalidInput(
                    String::from_str(
                        "Task name or index required (or use --all to start all ready tasks)",
                    ),
                ),
            ),
            Some(reference) => {
                let found = store.resolve_task_ref(reference);
                let ghost seen = found;
                match found {
                    Ok(name) => {
                        let mut names: Vec<String> = Vec::new();
                        names.push(name);
                        assert(texts(names@) =~= seq![name@]);
                        assert(store.resolved(reference@, seen));
                        Ok(names)
                    },
                    Err(e) => {
                        assert(store.resolved(reference@, seen));
                        Err(e)
                    },
                }
            },
        }
    }
}

/// A task that was started cannot start again: the second start fails with
/// `AlreadyRunning`, whatever else the store holds.
pub proof fn lemma_second_start_refused(s: StoreModel, name: Seq<char>, instance: InstanceModel)
    requires
        s.tasks.dom().contains(name),
    ensures
        start_refusal(started(s, name, instance), name) == Some(
            WtErrorModel::AlreadyRunning(name),
        ),
{
}

/// What is said after a task was started: where its worktree lies within the project,
/// and its branch.
pub open spec fn started_text(c: WtConfigModel, name: Seq<char>, branch: Seq<char>) -> Seq<char> {
    "OK\n  Worktree: "@ + c.worktree_dir + "/"@ + name + "\n  Branch:   "@ + branch
}

/// What is said after a task was started.
pub fn message(config: &WtConfig, name: &str, branch: &str) -> (r: String)
    ensures
        r@ == started_text(config@, name@, branch@),
{
    let mut r = String::from_str("OK\n  Worktree: ");
    r.append(config.worktree_dir.as_str());
    r.append("/");
    r.append(name);
    r.append("\n  Branch:   ");
    r.append(branch);
    r
}

} // verus!
