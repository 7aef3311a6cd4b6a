//! The status of the tasks that are under way: what is shown of each, the counts over all
//! of them, and what can be done with one of them.

use vstd::prelude::*;
use crate::commands::archive::{archive_refusal, archived};
use crate::commands::done::marked;
use crate::commands::inspect::{resume_command, resume_text};
use crate::commands::pretty::{array, array_text, bool_member, bool_text, maybe, member, object, object_text, push_maybe, raw_member, text_member};
use crate::models::json::{json_quote, json_string};
use crate::models::status::{instance_in, status_in};
use crate::models::store::{StoreModel, TaskStore, targets};
use crate::models::task::{Task, TaskStatus};
use crate::services::git::GitMetrics;
use crate::text::{opt_text, same_text, texts};
use crate::tui::app::{App, Observation, ObservationModel, TaskDisplay, TaskDisplayModel, TuiAction, TuiActionModel, display_of, displays, enter_of, task_display};

verus! {

/// What the status reports of one task.
#[derive(Debug)]
pub struct TaskMetrics {
    pub index: usize,
    pub name: String,
    pub status: TaskStatus,
    pub duration_secs: Option<i64>,
    pub duration_human: Option<String>,
    pub context_percent: Option<u8>,
    pub current_tool: Option<String>,
    pub git: Option<GitMetrics>,
    pub idle_secs: Option<u64>,
    pub active: Option<bool>,
    pub tmux_alive: Option<bool>,
    pub session_id: Option<String>,
    pub transcript_exists: Option<bool>,
}

/// The counts over all tasks that the status reports.
#[derive(Debug, Clone, Copy, PartialEq, Eq, Structural)]
pub struct StatusSummary {
    pub running: usize,
    pub done: usize,
    pub total_additions: i32,
    pub total_deletions: i32,
}

/// What the status reports: the tasks and the counts.
#[derive(Debug)]
pub struct StatusOutput {
    pub tasks: Vec<TaskMetrics>,
    pub summary: StatusSummary,
}

/// What an action says of its task.
#[derive(Debug)]
pub struct TaskInfo {
    pub name: String,
    pub status: Option<TaskStatus>,
    pub status_before: Option<TaskStatus>,
    pub status_after: Option<TaskStatus>,
    pub tmux_alive: Option<bool>,
}

/// The command that an action hands to its caller, as plain sequences.
pub struct CommandInfoModel {
    pub cmd_type: Seq<char>,
    pub session: Option<Seq<char>>,
    pub window: Option<Seq<char>>,
    pub worktree: Option<Seq<char>>,
    pub session_id: Option<Seq<char>>,
    pub shell_command: Option<Seq<char>>,
}

/// The command that an action hands to its caller.
#[derive(Debug)]
pub struct CommandInfo {
    pub cmd_type: String,
    pub session: Option<String>,
    pub window: Option<String>,
    pub worktree: Option<String>,
    pub session_id: Option<String>,
    pub shell_command: Option<String>,
}

impl View for CommandInfo {
    type V = CommandInfoModel;

    open spec fn view(&self) -> CommandInfoModel {
        CommandInfoModel {
            cmd_type: self.cmd_type@,
            session: opt_text(self.session),
            window: opt_text(self.window),
            worktree: opt_text(self.worktree),
            session_id: opt_text(self.session_id),
            shell_command: opt_text(self.shell_command),
        }
    }
}

/// The answer to an action.
#[derive(Debug)]
pub struct ActionResponse {
    pub action: String,
    pub success: bool,
    pub error: Option<String>,
    pub task: Option<TaskInfo>,
    pub available_actions: Option<Vec<String>>,
    pub unavailable_actions: Option<Vec<(String, String)>>,
    pub command: Option<CommandInfo>,
}

/// What was found out about `name`: the first entry of `observed` under that name, and
/// for a task without one that its window is gone and nothing else is known.
pub open spec fn observed_for(
    observed: Seq<(Seq<char>, ObservationModel)>,
    name: Seq<char>,
) -> ObservationModel
    decreases observed.len(),
{
    if observed.len() == 0 {
        ObservationModel { tmux_alive: false, metrics: None, git: None, idle_secs: None }
    } else if observed[0].0 == name {
        observed[0].1
    } else {
        observed_for(observed.drop_first(), name)
    }
}

/// The views of a list of observations.
pub open spec fn observations(v: Seq<(String, Observation)>) -> Seq<(Seq<char>, ObservationModel)> {
    v.map_values(|p: (String, Observation)| (p.0@, p.1@))
}

/// Whether a task of this status is shown: a running or done task, and a merged task
/// where `with_merged` is set.
pub open spec fn is_shown(status: TaskStatus, with_merged: bool) -> bool {
    status == TaskStatus::Running || status == TaskStatus::Done || (with_merged && status
        == TaskStatus::Merged)
}

/// The store and the rows after the tasks of `l` were gone through in order: a task that
/// is shown gets a row, and a running task whose window is gone is marked as done.
pub open spec fn board(
    s: StoreModel,
    l: Seq<Task>,
    observed: Seq<(Seq<char>, ObservationModel)>,
    with_merged: bool,
) -> (StoreModel, Seq<TaskDisplayModel>)
    decreases l.len(),
{
    if l.len() == 0 {
        (s, Seq::<TaskDisplayModel>::empty())
    } else {
        let before = board(s, l.drop_last(), observed, with_merged);
        let name = l.last()@.name;
        let status = status_in(before.0.status, name);
        let o = observed_for(observed, name);
        if !is_shown(status, with_merged) {
            before
        } else {
            (
                if status == TaskStatus::Running && !o.tmux_alive {
                    marked(before.0, name, TaskStatus::Done)
                } else {
                    before.0
                },
                before.1.push(display_of(name, status, instance_in(before.0.status, name), o)),
            )
        }
    }
}

pub(crate) fn find_observation<'a>(observed: &'a Vec<(String, Observation)>, name: &str) -> (r: Option<
    &'a Observation,
>)
    ensures
        match r {
            Some(o) => o@ == observed_for(observations(observed@), name@),
            None => observed_for(observations(observed@), name@) == (ObservationModel {
                tmux_alive: false,
                metrics: None,
                git: None,
                idle_secs: None,
            }),
        },
{
    let mut i: usize = 0;
    let ghost all = observations(observed@);
    assert(all.skip(0) =~= all);
    while i < observed.len()
        invariant
            i <= observed.len(),
            all == observations(observed@),
            observed_for(all, name@) == observed_for(all.skip(i as int), name@),
        decreases observed.len() - i,
    {
        proof {
            assert(all.skip(i as int)[0] == (observed@[i as int].0@, observed@[i as int].1@));
            assert(all.skip(i as int).drop_first() =~= all.skip(i + 1));
        }
        if same_text(observed[i].0.as_str(), name) {
            return Some(&observed[i].1);
        }
        i += 1;
    }
    None
}

/// Goes through the defined tasks in the order of the listing by name and makes a row for
/// each that is shown, from what is recorded of it and what was found out about it. A
/// running task whose window was found gone is marked as done in `store`.
pub fn refresh(
    store: &mut TaskStore,
    observed: &Vec<(String, Observation)>,
    with_merged: bool,
) -> (r: Vec<TaskDisplay>)
    ensures
        exists|l: Seq<Task>| #[trigger]
            old(store).is_listing(l) && (final(store)@, displays(r@)) == board(
                old(store)@,
                l,
                observations(observed@),
                with_merged,
            ),
{
    let mut names: Vec<String> = Vec::new();
    let ghost l;
    {
        let tasks = store.list();
        proof {
            l = targets(tasks@);
        }
        let mut i: usize = 0;
        while i < tasks.len()
            invariant
                i <= tasks.len(),
                l == targets(tasks@),
                names.len() == i,
                forall|k: int| 0 <= k < i ==> (#[trigger] names@[k])@ == l[k]@.name,
            decreases tasks.len() - i,
        {
            names.push(String::from_str(tasks[i].name()));
            i += 1;
        }
        assert(store.is_listing(l));
    }
    let ghost start = store@;
    let blank = Observation { tmux_alive: false, metrics: None, git: None, idle_secs: None };
    let mut rows: Vec<TaskDisplay> = Vec::new();
    let mut i: usize = 0;
    assert(l.take(0) =~= Seq::<Task>::empty());
    assert(displays(rows@) =~= Seq::<TaskDisplayModel>::empty());
    while i < names.len()
        invariant
            i <= names.len(),
            names.len() == l.len(),
            forall|k: int| 0 <= k < names.len() ==> (#[trigger] names@[k])@ == l[k]@.name,
            blank@ == (ObservationModel {
                tmux_alive: false,
                metrics: None,
                git: None,
                idle_secs: None,
            }),
            (store@, displays(rows@)) == board(
                start,
                l.take(i as int),
                observations(observed@),
                with_merged,
            ),
        decreases names.len() - i,
    {
        let name = &names[i];
        proof {
            assert(l.take(i + 1).drop_last() =~= l.take(i as int));
            assert(l.take(i + 1).last() == l[i as int]);
        }
        let status = store.get_status(name.as_str());
        let shown = status == TaskStatus::Running || status == TaskStatus::Done || (with_merged
            && status == TaskStatus::Merged);
        if shown {
            let o = match find_observation(observed, name.as_str()) {
                Some(o) => o,
                None => &blank,
            };
            let row = task_display(name.as_str(), status, store.get_instance(name.as_str()), o);
            let ghost before = rows@;
            rows.push(row);
            assert(displays(rows@) =~= displays(before).push(row@));
            let _ = crate::commands::done::auto_mark_done_if_needed(
                store,
                name.as_str(),
                o.tmux_alive,
            );
        }
        i += 1;
    }
    assert(l.take(names.len() as int) =~= l);
    rows
}

/// `a + b`, kept within the range of `i32`.
pub open spec fn capped_add(a: i32, b: i32) -> i32 {
    if a + b > i32::MAX {
        i32::MAX
    } else if a + b < i32::MIN {
        i32::MIN
    } else {
        (a + b) as i32
    }
}

/// The counts over the rows: how many tasks are running and how many are not, and the
/// lines added and deleted, each sum kept within the range of `i32`.
pub open spec fn summary_of(rows: Seq<TaskDisplayModel>) -> StatusSummary
    decreases rows.len(),
{
    if rows.len() == 0 {
        StatusSummary { running: 0, done: 0, total_additions: 0, total_deletions: 0 }
    } else {
        let before = summary_of(rows.drop_last());
        let row = rows.last();
        StatusSummary {
            running: if row.status == TaskStatus::Running {
                (before.running + 1) as usize
            } else {
                before.running
            },
            done: if row.status == TaskStatus::Running {
                before.done
            } else {
                (before.done + 1) as usize
            },
            total_additions: capped_add(before.total_additions, row.additions),
            total_deletions: capped_add(before.total_deletions, row.deletions),
        }
    }
}

pub(crate) fn add_capped(a: i32, b: i32) -> (r: i32)
    ensures
        r == capped_add(a, b),
{
    let sum: i64 = a as i64 + b as i64;
    if sum > i32::MAX as i64 {
        i32::MAX
    } else if sum < i32::MIN as i64 {
        i32::MIN
    } else {
        sum as i32
    }
}

/// The counts over the rows of a status.
pub fn summarize(rows: &Vec<TaskDisplay>) -> (r: StatusSummary)
    ensures
        r == summary_of(displays(rows@)),
{
    let mut r = StatusSummary { running: 0, done: 0, total_additions: 0, total_deletions: 0 };
    let mut i: usize = 0;
    assert(displays(rows@).take(0) =~= Seq::<TaskDisplayModel>::empty());
    while i < rows.len()
        invariant
            i <= rows.len(),
            r.running + r.done == i,
            r == summary_of(displays(rows@).take(i as int)),
        decreases rows.len() - i,
    {
        proof {
            assert(displays(rows@).take(i + 1).drop_last() =~= displays(rows@).take(i as int));
            assert(displays(rows@).take(i + 1).last() == rows@[i as int]@);
        }
        let row = &rows[i];
        if row.status == TaskStatus::Running {
            r.running = r.running + 1;
        } else {
            r.done = r.done + 1;
        }
        r.total_additions = add_capped(r.total_additions, row.additions);
        r.total_deletions = add_capped(r.total_deletions, row.deletions);
        i += 1;
    }
    assert(displays(rows@).take(rows.len() as int) =~= displays(rows@));
    r
}

/// The actions that can be taken on a task that is shown with `status`: its messages can
/// be shown and its window entered while it is running or done; it can be marked as done
/// while running, as merged while done, and archived while merged.
pub open spec fn available_for(status: TaskStatus) -> Seq<Seq<char>> {
    (if status == TaskStatus::Running || status == TaskStatus::Done {
        seq!["tail"@, "enter"@]
    } else {
        Seq::<Seq<char>>::empty()
    }) + (if status == TaskStatus::Running {
        seq!["done"@]
    } else {
        Seq::<Seq<char>>::empty()
    }) + (if status == TaskStatus::Done {
        seq!["merged"@]
    } else {
        Seq::<Seq<char>>::empty()
    }) + (if status == TaskStatus::Merged {
        seq!["archive"@]
    } else {
        Seq::<Seq<char>>::empty()
    })
}

/// Why an action cannot be taken: the status of the task, and the status that the action
/// needs.
pub open spec fn reason(status: TaskStatus, need: Seq<char>) -> Seq<char> {
    "task is "@ + status.label() + " (need "@ + need + ")"@
}

/// The actions that cannot be taken on a task that is shown with `status`, each with the
/// reason.
pub open spec fn unavailable_for(status: TaskStatus) -> Seq<(Seq<char>, Seq<char>)> {
    (if status == TaskStatus::Running || status == TaskStatus::Done {
        Seq::<(Seq<char>, Seq<char>)>::empty()
    } else {
        seq![
            ("tail"@, reason(status, "running or done"@)),
            ("enter"@, reason(status, "running or done"@)),
        ]
    }) + (if status == TaskStatus::Running {
        Seq::<(Seq<char>, Seq<char>)>::empty()
    } else {
        seq![("done"@, reason(status, "running"@))]
    }) + (if status == TaskStatus::Done {
        Seq::<(Seq<char>, Seq<char>)>::empty()
    } else {
        seq![("merged"@, reason(status, "done"@))]
    }) + (if status == TaskStatus::Merged {
        Seq::<(Seq<char>, Seq<char>)>::empty()
    } else {
        seq![("archive"@, reason(status, "merged"@))]
    })
}

/// The views of a list of actions with reasons.
pub open spec fn reasons(v: Seq<(String, String)>) -> Seq<(Seq<char>, Seq<char>)> {
    v.map_values(|p: (String, String)| (p.0@, p.1@))
}

fn why(status: TaskStatus, need: &str) -> (r: String)
    ensures
        r@ == reason(status, need@),
{
    let mut r = String::from_str("task is ");
    r.append(status.display_name());
    r.append(" (need ");
    r.append(need);
    r.append(")");
    r
}

/// Answers the action `list` for the selected task of `app`: which actions can be taken
/// on it and which cannot, and why not.
pub fn handle_list_action(app: &App, task_name: &str) -> (r: ActionResponse)
    requires
        app.chosen() is Some,
    ensures
        r.action@ == "list"@,
        r.success,
        r.error is None,
        r.command is None,
        r.task is Some && r.task->Some_0.name@ == task_name@ && r.task->Some_0.status == Some(
            app.chosen()->Some_0.status,
        ) && r.task->Some_0.tmux_alive == Some(app.chosen()->Some_0.tmux_alive)
            && r.task->Some_0.status_before is None && r.task->Some_0.status_after is None,
        r.available_actions is Some && texts(r.available_actions->Some_0@) == available_for(
            app.chosen()->Some_0.status,
        ),
        r.unavailable_actions is Some && reasons(r.unavailable_actions->Some_0@)
            == unavailable_for(app.chosen()->Some_0.status),
{
    let (status, alive) = match app.selected_task() {
        Some(t) => (t.status, t.tmux_alive),
        None => (TaskStatus::Pending, false),
    };
    let mut available: Vec<String> = Vec::new();
    let mut unavailable: Vec<(String, String)> = Vec::new();
    if status == TaskStatus::Running || status == TaskStatus::Done {
        available.push(String::from_str("tail"));
        available.push(String::from_str("enter"));
    } else {
        unavailable.push((String::from_str("tail"), why(status, "running or done")));
        unavailable.push((String::from_str("enter"), why(status, "running or done")));
    }
    if app.can_mark_done() {
        available.push(String::from_str("done"));
    } else {
        unavailable.push((String::from_str("done"), why(status, "running")));
    }
    if app.can_mark_merged() {
        available.push(String::from_str("merged"));
    } else {
        unavailable.push((String::from_str("merged"), why(status, "done")));
    }
    if app.can_archive() {
        available.push(String::from_str("archive"));
    } else {
        unavailable.push((String::from_str("archive"), why(status, "merged")));
    }
    assert(texts(available@) =~= available_for(status));
    assert(reasons(unavailable@) =~= unavailable_for(status));
    ActionResponse {
        action: String::from_str("list"),
        success: true,
        error: None,
        task: Some(
            TaskInfo {
                name: String::from_str(task_name),
                status: Some(status),
                status_before: None,
                status_after: None,
                tmux_alive: Some(alive),
            },
        ),
        available_actions: Some(available),
        unavailable_actions: Some(unavailable),
        command: None,
    }
}

/// An answer that says of the task `name` how its status changed from `before` to
/// `after`.
pub open spec fn changed(
    r: ActionResponse,
    action: Seq<char>,
    name: Seq<char>,
    before: TaskStatus,
    after: TaskStatus,
) -> bool {
    &&& r.action@ == action
    &&& r.success
    &&& r.error is None
    &&& r.task is Some
    &&& r.task->Some_0.name@ == name
    &&& r.task->Some_0.status is None
    &&& r.task->Some_0.status_before == Some(before)
    &&& r.task->Some_0.status_after == Some(after)
    &&& r.available_actions is None
    &&& r.unavailable_actions is None
    &&& r.command is None
}

/// An answer that says why the action could not be taken on the task `name`, which has
/// the status `status`.
pub open spec fn refused(
    r: ActionResponse,
    action: Seq<char>,
    name: Seq<char>,
    status: TaskStatus,
    error: Seq<char>,
) -> bool {
    &&& r.action@ == action
    &&& !r.success
    &&& r.error is Some
    &&& r.error->Some_0@ == error
    &&& r.task is Some
    &&& r.task->Some_0.name@ == name
    &&& r.task->Some_0.status == Some(status)
    &&& r.task->Some_0.status_before is None
    &&& r.task->Some_0.status_after is None
    &&& r.available_actions is None
    &&& r.unavailable_actions is None
    &&& r.command is None
}

fn change(action: &str, name: &str, before: TaskStatus, after: TaskStatus) -> (r: ActionResponse)
    ensures
        changed(r, action@, name@, before, after),
{
    ActionResponse {
        action: String::from_str(action),
        success: true,
        error: None,
        task: Some(
            TaskInfo {
                name: String::from_str(name),
                status: None,
                status_before: Some(before),
                status_after: Some(after),
                tmux_alive: None,
            },
        ),
        available_actions: None,
        unavailable_actions: None,
        command: None,
    }
}

fn refuse(action: &str, name: &str, status: TaskStatus, alive: Option<bool>, error: String) -> (r:
    ActionResponse)
    ensures
        refused(r, action@, name@, status, error@),
        r.task->Some_0.tmux_alive == alive,
{
    ActionResponse {
        action: String::from_str(action),
        success: false,
        error: Some(error),
        task: Some(
            TaskInfo {
                name: String::from_str(name),
                status: Some(status),
                status_before: None,
                status_after: None,
                tmux_alive: alive,
            },
        ),
        available_actions: None,
        unavailable_actions: None,
        command: None,
    }
}

/// Answers the action `done` for the selected task of `app`: marks it as done in `store`
/// where it is running.
pub fn handle_done_action(app: &App, store: &mut TaskStore, task_name: &str) -> (r:
    ActionResponse)
    requires
        app.chosen() is Some,
    ensures
        app.chosen()->Some_0.status == TaskStatus::Running ==> changed(
            r,
            "done"@,
            task_name@,
            TaskStatus::Running,
            TaskStatus::Done,
        ) && final(store)@ == marked(old(store)@, app.chosen()->Some_0.name, TaskStatus::Done),
        app.chosen()->Some_0.status != TaskStatus::Running ==> refused(
            r,
            "done"@,
            task_name@,
            app.chosen()->Some_0.status,
            "Cannot mark as done: task is not running"@,
        ) && final(store)@ == old(store)@,
{
    let (status, alive) = match app.selected_task() {
        Some(t) => (t.status, t.tmux_alive),
        None => (TaskStatus::Pending, false),
    };
    match app.mark_done(store) {
        Some(_) => change("done", task_name, status, TaskStatus::Done),
        None => refuse(
            "done",
            task_name,
            status,
            Some(alive),
            String::from_str("Cannot mark as done: task is not running"),
        ),
    }
}

/// Answers the action `merged` for the selected task of `app`: marks it as merged in
/// `store` where it is done.
pub fn handle_merged_action(app: &App, store: &mut TaskStore, task_name: &str) -> (r:
    ActionResponse)
    requires
        app.chosen() is Some,
    ensures
        app.chosen()->Some_0.status == TaskStatus::Done ==> changed(
            r,
            "merged"@,
            task_name@,
            TaskStatus::Done,
            TaskStatus::Merged,
        ) && final(store)@ == marked(old(store)@, app.chosen()->Some_0.name, TaskStatus::Merged),
        app.chosen()->Some_0.status != TaskStatus::Done ==> refused(
            r,
            "merged"@,
            task_name@,
            app.chosen()->Some_0.status,
            "Cannot mark as merged: "@ + reason(app.chosen()->Some_0.status, "done"@),
        ) && final(store)@ == old(store)@,
{
    let status = match app.selected_task() {
        Some(t) => t.status,
        None => TaskStatus::Pending,
    };
    match app.mark_merged(store) {
        Some(_) => change("merged", task_name, status, TaskStatus::Merged),
        None => {
            let mut m = String::from_str("Cannot mark as merged: ");
            m.append(why(status, "done").as_str());
            refuse("merged", task_name, status, None, m)
        },
    }
}

/// Answers the action `archive` for the selected task of `app`: archives it in `store`
/// where it is shown as merged and the store lets it be archived.
pub fn handle_archive_action(app: &App, store: &mut TaskStore, task_name: &str) -> (r:
    ActionResponse)
    requires
        app.chosen() is Some,
    ensures
        app.chosen()->Some_0.status != TaskStatus::Merged ==> refused(
            r,
            "archive"@,
            task_name@,
            app.chosen()->Some_0.status,
            "Cannot archive: "@ + reason(app.chosen()->Some_0.status, "merged"@),
        ) && final(store)@ == old(store)@,
        app.chosen()->Some_0.status == TaskStatus::Merged ==> match archive_refusal(
            old(store)@,
            app.chosen()->Some_0.name,
        ) {
            Some(e) => refused(
                r,
                "archive"@,
                task_name@,
                TaskStatus::Merged,
                "Failed to archive: "@ + e.message(),
            ) && final(store)@ == old(store)@,
            None => changed(r, "archive"@, task_name@, TaskStatus::Merged, TaskStatus::Archived)
                && final(store)@ == archived(old(store)@, app.chosen()->Some_0.name),
        },
{
    let status = match app.selected_task() {
        Some(t) => t.status,
        None => TaskStatus::Pending,
    };
    match app.archive() {
        None => {
            let mut m = String::from_str("Cannot archive: ");
            m.append(why(status, "merged").as_str());
            refuse("archive", task_name, status, None, m)
        },
        Some(name) => {
            match crate::commands::archive::check(store, name.as_str()) {
                Err(e) => {
                    let mut m = String::from_str("Failed to archive: ");
                    m.append(e.message().as_str());
                    refuse("archive", task_name, status, None, m)
                },
                Ok(_) => {
                    let _ = crate::commands::archive::apply(store, name.as_str());
                    change("archive", task_name, status, TaskStatus::Archived)
                },
            }
        },
    }
}

/// The command that the action `enter` hands back for what Enter does: the window to
/// switch to, or the worktree and session with the command that takes the session up
/// again.
pub open spec fn command_of(a: TuiActionModel) -> Option<CommandInfoModel> {
    match a {
        TuiActionModel::SwitchTmuxWindow { session, window } => Some(
            CommandInfoModel {
                cmd_type: "tmux_switch"@,
                session: Some(session),
                window: Some(window),
                worktree: None,
                session_id: None,
                shell_command: None,
            },
        ),
        TuiActionModel::AttachTmux { session, window } => Some(
            CommandInfoModel {
                cmd_type: "tmux_switch"@,
                session: Some(session),
                window: Some(window),
                worktree: None,
                session_id: None,
                shell_command: None,
            },
        ),
        TuiActionModel::ShowResume { worktree, session_id, claude_command } => Some(
            CommandInfoModel {
                cmd_type: "resume"@,
                session: None,
                window: None,
                worktree: Some(worktree),
                session_id: Some(session_id),
                shell_command: Some(resume_text(worktree, claude_command, session_id)),
            },
        ),
        _ => None,
    }
}

/// Answers the action `enter` for the selected task of `app`: the window to switch to,
/// or the command that takes the session up again; a failure where the task has neither.
pub fn handle_enter_action(app: &App, task_name: &str, in_tmux: bool) -> (r: ActionResponse)
    requires
        app.chosen() is Some,
    ensures
        r.action@ == "enter"@,
        r.task is Some && r.task->Some_0.name@ == task_name@,
        r.success == (enter_of(app.chosen()->Some_0, app.agent(), in_tmux) is Some),
        r.success ==> r.error is None && r.command is Some && command_of(
            enter_of(app.chosen()->Some_0, app.agent(), in_tmux)->Some_0,
        ) == Some(r.command->Some_0@) && r.task->Some_0.status is None
            && r.available_actions is None && r.unavailable_actions is None,
        !r.success ==> refused(
            r,
            "enter"@,
            task_name@,
            app.chosen()->Some_0.status,
            "Cannot enter: no tmux info available"@,
        ),
{
    let (status, alive) = match app.selected_task() {
        Some(t) => (t.status, t.tmux_alive),
        None => (TaskStatus::Pending, false),
    };
    let info = TaskInfo {
        name: String::from_str(task_name),
        status: None,
        status_before: None,
        status_after: None,
        tmux_alive: None,
    };
    match app.enter_action(in_tmux) {
        Some(TuiAction::SwitchTmuxWindow { session, window }) => ActionResponse {
            action: String::from_str("enter"),
            success: true,
            error: None,
            task: Some(info),
            available_actions: None,
            unavailable_actions: None,
            command: Some(
                CommandInfo {
                    cmd_type: String::from_str("tmux_switch"),
                    session: Some(session),
                    window: Some(window),
                    worktree: None,
                    session_id: None,
                    shell_command: None,
                },
            ),
        },
        Some(TuiAction::AttachTmux { session, window }) => ActionResponse {
            action: String::from_str("enter"),
            success: true,
            error: None,
            task: Some(info),
            available_actions: None,
            unavailable_actions: None,
            command: Some(
                CommandInfo {
                    cmd_type: String::from_str("tmux_switch"),
                    session: Some(session),
                    window: Some(window),
                    worktree: None,
                    session_id: None,
                    shell_command: None,
                },
            ),
        },
        Some(TuiAction::ShowResume { worktree, session_id, claude_command }) => {
            let shell = resume_command(
                worktree.as_str(),
                claude_command.as_str(),
                session_id.as_str(),
            );
            ActionResponse {
                action: String::from_str("enter"),
                success: true,
                error: None,
                task: Some(info),
                available_actions: None,
                unavailable_actions: None,
                command: Some(
                    CommandInfo {
                        cmd_type: String::from_str("resume"),
                        session: None,
                        window: None,
                        worktree: Some(worktree),
                        session_id: Some(session_id),
                        shell_command: Some(shell),
                    },
                ),
            }
        },
        _ => refuse(
            "enter",
            task_name,
            status,
            Some(alive),
            String::from_str("Cannot enter: no tmux info available"),
        ),
    }
}

/// What an action says of its task, as plain values.
pub struct TaskInfoModel {
    pub name: Seq<char>,
    pub status: Option<TaskStatus>,
    pub status_before: Option<TaskStatus>,
    pub status_after: Option<TaskStatus>,
    pub tmux_alive: Option<bool>,
}

impl View for TaskInfo {
    type V = TaskInfoModel;

    open spec fn view(&self) -> TaskInfoModel {
        TaskInfoModel {
            name: self.name@,
            status: self.status,
            status_before: self.status_before,
            status_after: self.status_after,
            tmux_alive: self.tmux_alive,
        }
    }
}

/// The answer to an action, as plain values.
pub struct ResponseModel {
    pub action: Seq<char>,
    pub success: bool,
    pub error: Option<Seq<char>>,
    pub task: Option<TaskInfoModel>,
    pub available_actions: Option<Seq<Seq<char>>>,
    pub unavailable_actions: Option<Seq<(Seq<char>, Seq<char>)>>,
    pub command: Option<CommandInfoModel>,
}

impl View for ActionResponse {
    type V = ResponseModel;

    open spec fn view(&self) -> ResponseModel {
        ResponseModel {
            action: self.action@,
            success: self.success,
            error: opt_text(self.error),
            task: match self.task {
                Some(t) => Some(t@),
                None => None,
            },
            available_actions: match self.available_actions {
                Some(a) => Some(texts(a@)),
                None => None,
            },
            unavailable_actions: match self.unavailable_actions {
                Some(u) => Some(reasons(u@)),
                None => None,
            },
            command: match self.command {
                Some(c) => Some(c@),
                None => None,
            },
        }
    }
}

/// A member whose value is the name of a status, where there is one.
pub open spec fn status_member(key: Seq<char>, status: Option<TaskStatus>) -> Seq<Seq<char>> {
    maybe(
        match status {
            Some(s) => Some(member(key, json_string(s.label()))),
            None => None,
        },
    )
}

/// A member whose value is a string, where there is one.
pub open spec fn optional_member(key: Seq<char>, value: Option<Seq<char>>) -> Seq<Seq<char>> {
    maybe(
        match value {
            Some(v) => Some(member(key, json_string(v))),
            None => None,
        },
    )
}

/// The members of what an action says of its task.
pub open spec fn info_members(t: TaskInfoModel) -> Seq<Seq<char>> {
    seq![member("name"@, json_string(t.name))] + status_member("status"@, t.status)
        + status_member("status_before"@, t.status_before) + status_member(
        "status_after"@,
        t.status_after,
    ) + maybe(
        match t.tmux_alive {
            Some(a) => Some(member("tmux_alive"@, bool_text(a))),
            None => None,
        },
    )
}

/// The members of the command that an action hands back.
pub open spec fn command_members(c: CommandInfoModel) -> Seq<Seq<char>> {
    seq![member("type"@, json_string(c.cmd_type))] + optional_member("session"@, c.session)
        + optional_member("window"@, c.window) + optional_member("worktree"@, c.worktree)
        + optional_member("session_id"@, c.session_id) + optional_member(
        "shell_command"@,
        c.shell_command,
    )
}

/// The members of an answer: the action and whether it succeeded, and then the error,
/// the task, the actions that can and that cannot be taken, and the command, each where
/// the answer holds it.
pub open spec fn response_members(r: ResponseModel) -> Seq<Seq<char>> {
    seq![member("action"@, json_string(r.action)), member("success"@, bool_text(r.success))]
        + optional_member("error"@, r.error) + maybe(
        match r.task {
            Some(t) => Some(member("task"@, object_text(info_members(t), "  "@))),
            None => None,
        },
    ) + maybe(
        match r.available_actions {
            Some(a) => Some(
                member(
                    "available_actions"@,
                    array_text(a.map_values(|x: Seq<char>| json_string(x)), "  "@),
                ),
            ),
            None => None,
        },
    ) + maybe(
        match r.unavailable_actions {
            Some(u) => Some(
                member(
                    "unavailable_actions"@,
                    object_text(
                        u.map_values(|p: (Seq<char>, Seq<char>)| member(p.0, json_string(p.1))),
                        "  "@,
                    ),
                ),
            ),
            None => None,
        },
    ) + maybe(
        match r.command {
            Some(c) => Some(member("command"@, object_text(command_members(c), "  "@))),
            None => None,
        },
    )
}

/// An answer as JSON in the indented form.
pub open spec fn response_json(r: ResponseModel) -> Seq<char> {
    object_text(response_members(r), Seq::<char>::empty())
}

fn push_status(out: &mut Vec<String>, key: &str, status: Option<TaskStatus>)
    ensures
        texts(final(out)@) == texts(old(out)@) + status_member(key@, status),
{
    push_maybe(
        out,
        match status {
            Some(s) => Some(text_member(key, s.display_name())),
            None => None,
        },
    );
}

fn push_optional(out: &mut Vec<String>, key: &str, value: &Option<String>)
    ensures
        texts(final(out)@) == texts(old(out)@) + optional_member(key@, opt_text(*value)),
{
    push_maybe(
        out,
        match value {
            Some(v) => Some(text_member(key, v.as_str())),
            None => None,
        },
    );
}

fn write_info(t: &TaskInfo) -> (r: String)
    ensures
        r@ == object_text(info_members(t@), "  "@),
{
    let mut f: Vec<String> = Vec::new();
    f.push(text_member("name", t.name.as_str()));
    assert(texts(f@) =~= seq![member("name"@, json_string(t@.name))]);
    push_status(&mut f, "status", t.status);
    push_status(&mut f, "status_before", t.status_before);
    push_status(&mut f, "status_after", t.status_after);
    push_maybe(
        &mut f,
        match t.tmux_alive {
            Some(a) => Some(bool_member("tmux_alive", a)),
            None => None,
        },
    );
    assert(texts(f@) =~= info_members(t@));
    object(&f, "  ")
}

fn write_command(c: &CommandInfo) -> (r: String)
    ensures
        r@ == object_text(command_members(c@), "  "@),
{
    let mut f: Vec<String> = Vec::new();
    f.push(text_member("type", c.cmd_type.as_str()));
    assert(texts(f@) =~= seq![member("type"@, json_string(c@.cmd_type))]);
    push_optional(&mut f, "session", &c.session);
    push_optional(&mut f, "window", &c.window);
    push_optional(&mut f, "worktree", &c.worktree);
    push_optional(&mut f, "session_id", &c.session_id);
    push_optional(&mut f, "shell_command", &c.shell_command);
    assert(texts(f@) =~= command_members(c@));
    object(&f, "  ")
}

fn write_available(a: &Vec<String>) -> (r: String)
    ensures
        r@ == array_text(texts(a@).map_values(|x: Seq<char>| json_string(x)), "  "@),
{
    let mut items: Vec<String> = Vec::new();
    let mut i: usize = 0;
    while i < a.len()
        invariant
            i <= a.len(),
            items.len() == i,
            forall|k: int| 0 <= k < i ==> (#[trigger] items@[k])@ == json_string(a@[k]@),
        decreases a.len() - i,
    {
        items.push(json_quote(a[i].as_str()));
        i += 1;
    }
    assert(texts(items@) =~= texts(a@).map_values(|x: Seq<char>| json_string(x)));
    array(&items, "  ")
}

fn write_unavailable(u: &Vec<(String, String)>) -> (r: String)
    ensures
        r@ == object_text(
            reasons(u@).map_values(|p: (Seq<char>, Seq<char>)| member(p.0, json_string(p.1))),
            "  "@,
        ),
{
    let mut items: Vec<String> = Vec::new();
    let mut i: usize = 0;
    while i < u.len()
        invariant
            i <= u.len(),
            items.len() == i,
            forall|k: int|
                0 <= k < i ==> (#[trigger] items@[k])@ == member(
                    u@[k].0@,
                    json_string(u@[k].1@),
                ),
        decreases u.len() - i,
    {
        items.push(text_member(u[i].0.as_str(), u[i].1.as_str()));
        i += 1;
    }
    assert(texts(items@) =~= reasons(u@).map_values(
        |p: (Seq<char>, Seq<char>)| member(p.0, json_string(p.1)),
    ));
    object(&items, "  ")
}

impl ActionResponse {
    /// The answer as JSON.
    pub fn to_json(&self) -> (r: String)
        ensures
            r@ == response_json(self@),
    {
        let mut f: Vec<String> = Vec::new();
        f.push(text_member("action", self.action.as_str()));
        f.push(bool_member("success", self.success));
        assert(texts(f@) =~= seq![
            member("action"@, json_string(self@.action)),
            member("success"@, bool_text(self@.success)),
        ]);
        push_optional(&mut f, "error", &self.error);
        push_maybe(
            &mut f,
            match &self.task {
                Some(t) => Some(raw_member("task", write_info(t).as_str())),
                None => None,
            },
        );
        push_maybe(
            &mut f,
            match &self.available_actions {
                Some(a) => Some(raw_member("available_actions", write_available(a).as_str())),
                None => None,
            },
        );
        push_maybe(
            &mut f,
            match &self.unavailable_actions {
                Some(u) => Some(
                    raw_member("unavailable_actions", write_unavailable(u).as_str()),
                ),
                None => None,
            },
        );
        push_maybe(
            &mut f,
            match &self.command {
                Some(c) => Some(raw_member("command", write_command(c).as_str())),
                None => None,
            },
        );
        assert(texts(f@) =~= response_members(self@));
        let margin = String::new();
        object(&f, margin.as_str())
    }

    /// The answer that an action failed before it came to a task, or on the task `name`.
    pub fn failure(action: &str, name: Option<&str>, error: String) -> (r: ActionResponse)
        ensures
            r@ == (ResponseModel {
                action: action@,
                success: false,
                error: Some(error@),
                task: match name {
                    Some(n) => Some(
                        TaskInfoModel {
                            name: n@,
                            status: None,
                            status_before: None,
                            status_after: None,
                            tmux_alive: None,
                        },
                    ),
                    None => None,
                },
                available_actions: None,
                unavailable_actions: None,
                command: None,
            }),
    {
        ActionResponse {
            action: String::from_str(action),
            success: false,
            error: Some(error),
            task: match name {
                Some(n) => Some(
                    TaskInfo {
                        name: String::from_str(n),
                        status: None,
                        status_before: None,
                        status_after: None,
                        tmux_alive: None,
                    },
                ),
                None => None,
            },
            available_actions: None,
            unavailable_actions: None,
            command: None,
        }
    }
}

} // verus!
