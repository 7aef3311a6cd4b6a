//! The steps by which a transition makes and reclaims the resources of a task. The
//! library orders them; whoever runs them reports back how each went.

use vstd::prelude::*;
use crate::models::task::{Instance, InstanceModel};
use crate::text::{opt_text, texts};

verus! {

/// One step, as plain sequences.
pub enum StepModel {
    CreateWorktree { branch: Seq<char>, path: Seq<char> },
    CopyFiles { files: Seq<Seq<char>>, worktree: Seq<char> },
    EnsureSession { session: Seq<char> },
    CreateWindow { session: Seq<char>, window: Seq<char>, cwd: Seq<char>, command: Seq<char> },
    RunScript { script: Seq<char>, worktree: Seq<char> },
    BackupWorktree { task: Seq<char>, worktree: Seq<char> },
    KillWindow { session: Seq<char>, window: Seq<char> },
    RemoveWorktree { path: Seq<char> },
    DeleteBranch { branch: Seq<char> },
    KillSession { session: Seq<char> },
}

/// One step of a transition.
#[derive(Debug)]
pub enum Step {
    /// Make the branch and its worktree at `path`.
    CreateWorktree { branch: String, path: String },
    /// Copy those of `files` that exist from the project into the worktree.
    CopyFiles { files: Vec<String>, worktree: String },
    /// Make the tmux session unless it exists.
    EnsureSession { session: String },
    /// Make the task's window and start `command` in it.
    CreateWindow { session: String, window: String, cwd: String, command: String },
    /// Run `script` with the worktree as its directory, if the worktree exists.
    RunScript { script: String, worktree: String },
    /// Copy the worktree, if it exists, to a backup directory named after the task and
    /// the time.
    BackupWorktree { task: String, worktree: String },
    /// Close the task's window.
    KillWindow { session: String, window: String },
    /// Remove the worktree.
    RemoveWorktree { path: String },
    /// Delete the branch.
    DeleteBranch { branch: String },
    /// Close the tmux session.
    KillSession { session: String },
}

impl View for Step {
    type V = StepModel;

    open spec fn view(&self) -> StepModel {
        match self {
            Step::CreateWorktree { branch, path } => StepModel::CreateWorktree {
                branch: branch@,
                path: path@,
            },
            Step::CopyFiles { files, worktree } => StepModel::CopyFiles {
                files: texts(files@),
                worktree: worktree@,
            },
            Step::EnsureSession { session } => StepModel::EnsureSession { session: session@ },
            Step::CreateWindow { session, window, cwd, command } => StepModel::CreateWindow {
                session: session@,
                window: window@,
                cwd: cwd@,
                command: command@,
            },
            Step::RunScript { script, worktree } => StepModel::RunScript {
                script: script@,
                worktree: worktree@,
            },
            Step::BackupWorktree { task, worktree } => StepModel::BackupWorktree {
                task: task@,
                worktree: worktree@,
            },
            Step::KillWindow { session, window } => StepModel::KillWindow {
                session: session@,
                window: window@,
            },
            Step::RemoveWorktree { path } => StepModel::RemoveWorktree { path: path@ },
            Step::DeleteBranch { branch } => StepModel::DeleteBranch { branch: branch@ },
            Step::KillSession { session } => StepModel::KillSession { session: session@ },
        }
    }
}

impl StepModel {
    /// Whether a failure of the step is only a warning: so it is for every step that
    /// reclaims a resource. A step that makes one must succeed, and so must the backup
    /// of a worktree, after which the worktree is removed.
    pub open spec fn best_effort(self) -> bool {
        match self {
            StepModel::CreateWorktree { .. } => false,
            StepModel::CopyFiles { .. } => false,
            StepModel::EnsureSession { .. } => false,
            StepModel::CreateWindow { .. } => false,
            StepModel::BackupWorktree { .. } => false,
            _ => true,
        }
    }
}

impl Step {
    /// Whether a failure of the step is only a warning, after which the steps that follow
    /// are still run.
    pub fn is_best_effort(&self) -> (r: bool)
        ensures
            r == self@.best_effort(),
    {
        match self {
            Step::CreateWorktree { .. } => false,
            Step::CopyFiles { .. } => false,
            Step::EnsureSession { .. } => false,
            Step::CreateWindow { .. } => false,
            Step::BackupWorktree { .. } => false,
            _ => true,
        }
    }
}

/// The views of a list of steps.
pub open spec fn steps(v: Seq<Step>) -> Seq<StepModel> {
    v.map_values(|s: Step| s@)
}

/// The steps that give back what `instance` holds: the script where one is configured,
/// a backup of the worktree where `backup_for` names the task, and then the window, the
/// worktree and the branch.
pub open spec fn reclaim_steps(
    instance: InstanceModel,
    script: Option<Seq<char>>,
    backup_for: Option<Seq<char>>,
) -> Seq<StepModel> {
    (match script {
        Some(s) => seq![StepModel::RunScript { script: s, worktree: instance.worktree_path }],
        None => Seq::<StepModel>::empty(),
    }) + (match backup_for {
        Some(t) => seq![StepModel::BackupWorktree { task: t, worktree: instance.worktree_path }],
        None => Seq::<StepModel>::empty(),
    }) + seq![
        StepModel::KillWindow { session: instance.tmux_session, window: instance.tmux_window },
        StepModel::RemoveWorktree { path: instance.worktree_path },
        StepModel::DeleteBranch { branch: instance.branch },
    ]
}

/// Every step that gives a resource back is best effort: each of the steps but the
/// backup of the worktree.
pub proof fn lemma_reclaim_best_effort(
    instance: InstanceModel,
    script: Option<Seq<char>>,
    backup_for: Option<Seq<char>>,
)
    ensures
        forall|i: int|
            0 <= i < reclaim_steps(instance, script, backup_for).len() ==> {
                let step = #[trigger] reclaim_steps(instance, script, backup_for)[i];
                step.best_effort() || (backup_for is Some && step is BackupWorktree)
            },
{
    let a = match script {
        Some(s) => seq![StepModel::RunScript { script: s, worktree: instance.worktree_path }],
        None => Seq::<StepModel>::empty(),
    };
    let b = match backup_for {
        Some(t) => seq![StepModel::BackupWorktree { task: t, worktree: instance.worktree_path }],
        None => Seq::<StepModel>::empty(),
    };
    let c = seq![
        StepModel::KillWindow { session: instance.tmux_session, window: instance.tmux_window },
        StepModel::RemoveWorktree { path: instance.worktree_path },
        StepModel::DeleteBranch { branch: instance.branch },
    ];
    let all = reclaim_steps(instance, script, backup_for);
    assert(all == a + b + c);
    assert forall|i: int| 0 <= i < all.len() implies ((#[trigger] all[i]).best_effort() || (
    backup_for is Some && all[i] is BackupWorktree)) by {
        if i < a.len() {
            assert(all[i] == a[i]);
        } else if i < a.len() + b.len() {
            assert(all[i] == b[i - a.len()]);
        } else {
            assert(all[i] == c[i - a.len() - b.len()]);
        }
    }
}

/// The steps that give back what `instance` holds.
pub fn reclaim(instance: &Instance, script: &Option<String>, backup_for: Option<&str>) -> (r: Vec<
    Step,
>)
    ensures
        steps(r@) == reclaim_steps(
            instance@,
            opt_text(*script),
            match backup_for {
                Some(t) => Some(t@),
                None => None,
            },
        ),
{
    let mut r: Vec<Step> = Vec::new();
    match script {
        Some(s) => {
            r.push(Step::RunScript { script: s.clone(), worktree: instance.worktree_path.clone() });
        },
        None => {},
    }
    match backup_for {
        Some(t) => {
            r.push(
                Step::BackupWorktree {
                    task: String::from_str(t),
                    worktree: instance.worktree_path.clone(),
                },
            );
        },
        None => {},
    }
    r.push(
        Step::KillWindow {
            session: instance.tmux_session.clone(),
            window: instance.tmux_window.clone(),
        },
    );
    r.push(Step::RemoveWorktree { path: instance.worktree_path.clone() });
    r.push(Step::DeleteBranch { branch: instance.branch.clone() });
    assert(steps(r@) =~= reclaim_steps(
        instance@,
        opt_text(*script),
        match backup_for {
            Some(t) => Some(t@),
            None => None,
        },
    ));
    r
}

/// The name of the backup directory of a task: the task's name, `-`, and the time stamp.
pub open spec fn backup_name_of(task: Seq<char>, stamp: Seq<char>) -> Seq<char> {
    ".wt/backups"@ + "/"@ + task + "-"@ + stamp
}

/// The backup directory for `task` made at the time that `stamp` writes.
pub fn backup_path(task: &str, stamp: &str) -> (r: String)
    ensures
        r@ == backup_name_of(task@, stamp@),
{
    let mut r = String::from_str(crate::constants::BACKUPS_DIR);
    r.append("/");
    r.append(task);
    r.append("-");
    r.append(stamp);
    r
}

} // verus!
