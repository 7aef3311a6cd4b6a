//! The state behind the dashboard: the tasks that are under way, each with what is known
//! of it, and which of them is selected.

use vstd::prelude::*;
use crate::commands::done::marked;
use crate::constants::IDLE_THRESHOLD_SECS;
use crate::display::{duration_text, format_duration};
use crate::models::config::WtConfig;
use crate::models::store::{StoreModel, TaskStore, targets};
use crate::models::task::{Instance, InstanceModel, Task, TaskStatus};
use crate::services::git::GitMetrics;
use crate::services::logs::percent_used;
use crate::services::transcript::{MetricsModel, TranscriptMetrics, seconds_between};
use crate::text::{copy_opt_text, opt_text, same_text, texts};

verus! {

/// What the dashboard asks its caller to do, as plain sequences.
pub enum TuiActionModel {
    Quit,
    SwitchTmuxWindow { session: Seq<char>, window: Seq<char> },
    AttachTmux { session: Seq<char>, window: Seq<char> },
    ShowResume { worktree: Seq<char>, session_id: Seq<char>, claude_command: Seq<char> },
    Tail { name: Seq<char> },
}

/// What the dashboard asks its caller to do.
#[derive(Debug)]
pub enum TuiAction {
    /// Leave.
    Quit,
    /// Inside tmux: switch to the window of the task.
    SwitchTmuxWindow { session: String, window: String },
    /// Outside tmux: attach to the window of the task.
    AttachTmux { session: String, window: String },
    /// The window is gone: show the command that takes the session up again.
    ShowResume { worktree: String, session_id: String, claude_command: String },
    /// Show the last messages of the task.
    Tail { name: String },
}

impl View for TuiAction {
    type V = TuiActionModel;

    open spec fn view(&self) -> TuiActionModel {
        match self {
            TuiAction::Quit => TuiActionModel::Quit,
            TuiAction::SwitchTmuxWindow { session, window } => TuiActionModel::SwitchTmuxWindow {
                session: session@,
                window: window@,
            },
            TuiAction::AttachTmux { session, window } => TuiActionModel::AttachTmux {
                session: session@,
                window: window@,
            },
            TuiAction::ShowResume {
                worktree,
                session_id,
                claude_command,
            } => TuiActionModel::ShowResume {
                worktree: worktree@,
                session_id: session_id@,
                claude_command: claude_command@,
            },
            TuiAction::Tail { name } => TuiActionModel::Tail { name: name@ },
        }
    }
}

/// What is shown of a task, as plain values.
pub struct TaskDisplayModel {
    pub name: Seq<char>,
    pub status: TaskStatus,
    pub duration: Option<Seq<char>>,
    pub context_percent: u8,
    pub additions: i32,
    pub deletions: i32,
    pub active: bool,
    pub tmux_alive: bool,
    pub worktree_path: Option<Seq<char>>,
    pub tmux_session: Option<Seq<char>>,
    pub tmux_window: Option<Seq<char>>,
    pub session_id: Option<Seq<char>>,
    pub commit_count: i32,
    pub has_conflict: bool,
    pub current_tool: Option<Seq<char>>,
}

/// What is shown of a task.
#[derive(Debug)]
pub struct TaskDisplay {
    pub name: String,
    pub status: TaskStatus,
    pub duration: Option<String>,
    pub context_percent: u8,
    pub additions: i32,
    pub deletions: i32,
    pub active: bool,
    pub tmux_alive: bool,
    pub worktree_path: Option<String>,
    pub tmux_session: Option<String>,
    pub tmux_window: Option<String>,
    pub session_id: Option<String>,
    pub commit_count: i32,
    pub has_conflict: bool,
    pub current_tool: Option<String>,
}

impl View for TaskDisplay {
    type V = TaskDisplayModel;

    open spec fn view(&self) -> TaskDisplayModel {
        TaskDisplayModel {
            name: self.name@,
            status: self.status,
            duration: opt_text(self.duration),
            context_percent: self.context_percent,
            additions: self.additions,
            deletions: self.deletions,
            active: self.active,
            tmux_alive: self.tmux_alive,
            worktree_path: opt_text(self.worktree_path),
            tmux_session: opt_text(self.tmux_session),
            tmux_window: opt_text(self.tmux_window),
            session_id: opt_text(self.session_id),
            commit_count: self.commit_count,
            has_conflict: self.has_conflict,
            current_tool: opt_text(self.current_tool),
        }
    }
}

/// The views of a list of displays.
pub open spec fn displays(v: Seq<TaskDisplay>) -> Seq<TaskDisplayModel> {
    v.map_values(|d: TaskDisplay| d@)
}

/// What was found out about a task, as plain values.
pub struct ObservationModel {
    pub tmux_alive: bool,
    pub metrics: Option<MetricsModel>,
    pub git: Option<GitMetrics>,
    pub idle_secs: Option<u64>,
}

/// What was found out about a task: whether its window is alive, what its transcript
/// says, what git reports of its worktree, and for how long nothing changed there.
#[derive(Debug)]
pub struct Observation {
    pub tmux_alive: bool,
    pub metrics: Option<TranscriptMetrics>,
    pub git: Option<GitMetrics>,
    pub idle_secs: Option<u64>,
}

impl View for Observation {
    type V = ObservationModel;

    open spec fn view(&self) -> ObservationModel {
        ObservationModel {
            tmux_alive: self.tmux_alive,
            metrics: match self.metrics {
                Some(m) => Some(m@),
                None => None,
            },
            git: self.git,
            idle_secs: self.idle_secs,
        }
    }
}

/// The status that is shown: a running task whose window is gone counts as done.
pub open spec fn shown_status(status: TaskStatus, tmux_alive: bool) -> TaskStatus {
    if status == TaskStatus::Running && !tmux_alive {
        TaskStatus::Done
    } else {
        status
    }
}

/// How long the session took, in words, where its first and last time are known.
pub open spec fn duration_of(m: Option<MetricsModel>) -> Option<Seq<char>> {
    match m {
        Some(m) => match (m.started_at, m.finished_at) {
            (Some(a), Some(b)) => Some(duration_text(seconds_between(a, b))),
            _ => None,
        },
        None => None,
    }
}

/// What is shown of the task `name` with the recorded `status` and `instance`, given what
/// was found out about it.
pub open spec fn display_of(
    name: Seq<char>,
    status: TaskStatus,
    instance: Option<InstanceModel>,
    o: ObservationModel,
) -> TaskDisplayModel {
    TaskDisplayModel {
        name,
        status: shown_status(status, o.tmux_alive),
        duration: duration_of(o.metrics),
        context_percent: match o.metrics {
            Some(m) => percent_used(
                m.input_tokens as int,
                m.output_tokens as int,
                m.context_window as int,
            ) as u8,
            None => 0,
        },
        additions: match o.git {
            Some(g) => g.additions,
            None => 0,
        },
        deletions: match o.git {
            Some(g) => g.deletions,
            None => 0,
        },
        active: match o.idle_secs {
            Some(idle) => idle < 120,
            None => false,
        },
        tmux_alive: o.tmux_alive,
        worktree_path: match instance {
            Some(i) => Some(i.worktree_path),
            None => None,
        },
        tmux_session: match instance {
            Some(i) => Some(i.tmux_session),
            None => None,
        },
        tmux_window: match instance {
            Some(i) => Some(i.tmux_window),
            None => None,
        },
        session_id: match instance {
            Some(i) => i.session_id,
            None => None,
        },
        commit_count: match o.git {
            Some(g) => g.commits,
            None => 0,
        },
        has_conflict: match o.git {
            Some(g) => g.has_conflict,
            None => false,
        },
        current_tool: match o.metrics {
            Some(m) => m.current_tool,
            None => None,
        },
    }
}

/// What is shown of a task, given what was found out about it.
pub fn task_display(
    name: &str,
    status: TaskStatus,
    instance: Option<&Instance>,
    observed: &Observation,
) -> (r: TaskDisplay)
    ensures
        r@ == display_of(
            name@,
            status,
            match instance {
                Some(i) => Some(i@),
                None => None,
            },
            observed@,
        ),
{
    let shown = if status == TaskStatus::Running && !observed.tmux_alive {
        TaskStatus::Done
    } else {
        status
    };
    let (duration, context_percent, current_tool) = match &observed.metrics {
        Some(m) => (
            match m.duration_secs() {
                Some(secs) => Some(format_duration(secs)),
                None => None,
            },
            m.context_percent(),
            copy_opt_text(&m.current_tool),
        ),
        None => (None, 0, None),
    };
    let (additions, deletions, commit_count, has_conflict) = match observed.git {
        Some(g) => (g.additions, g.deletions, g.commits, g.has_conflict),
        None => (0, 0, 0, false),
    };
    let active = match observed.idle_secs {
        Some(idle) => idle < IDLE_THRESHOLD_SECS,
        None => false,
    };
    let (worktree_path, tmux_session, tmux_window, session_id) = match instance {
        Some(i) => (
            Some(i.worktree_path.clone()),
            Some(i.tmux_session.clone()),
            Some(i.tmux_window.clone()),
            copy_opt_text(&i.session_id),
        ),
        None => (None, None, None, None),
    };
    TaskDisplay {
        name: String::from_str(name),
        status: shown,
        duration,
        context_percent,
        additions,
        deletions,
        active,
        tmux_alive: observed.tmux_alive,
        worktree_path,
        tmux_session,
        tmux_window,
        session_id,
        commit_count,
        has_conflict,
        current_tool,
    }
}

/// The state of the dashboard.
pub struct App {
    pub tasks: Vec<TaskDisplay>,
    pub selected: usize,
    pub config: Option<WtConfig>,
}

/// Where the selection stands after the tasks were replaced by `count` tasks: on the last
/// task where it stood beyond it.
pub open spec fn kept_selection(selected: usize, count: nat) -> usize {
    if selected >= count && count > 0 {
        (count - 1) as usize
    } else {
        selected
    }
}

/// What Enter does on the task `t`: switch or attach to its window where that is alive,
/// else show how to take its session up again. Nothing where the task has no window, or
/// where its window is gone and its worktree or session is not known.
pub open spec fn enter_of(
    t: TaskDisplayModel,
    agent: Seq<char>,
    in_tmux: bool,
) -> Option<TuiActionModel> {
    if t.tmux_session is None || t.tmux_window is None {
        None
    } else if t.tmux_alive {
        if in_tmux {
            Some(
                TuiActionModel::SwitchTmuxWindow {
                    session: t.tmux_session->Some_0,
                    window: t.tmux_window->Some_0,
                },
            )
        } else {
            Some(
                TuiActionModel::AttachTmux {
                    session: t.tmux_session->Some_0,
                    window: t.tmux_window->Some_0,
                },
            )
        }
    } else if t.worktree_path is None || t.session_id is None {
        None
    } else {
        Some(
            TuiActionModel::ShowResume {
                worktree: t.worktree_path->Some_0,
                session_id: t.session_id->Some_0,
                claude_command: agent,
            },
        )
    }
}

impl App {
    /// The task that is selected, as plain values.
    pub open spec fn chosen(&self) -> Option<TaskDisplayModel> {
        if self.selected < self.tasks.len() {
            Some(self.tasks@[self.selected as int]@)
        } else {
            None
        }
    }

    /// The command of the agent: that of the configuration, or the default.
    pub open spec fn agent(&self) -> Seq<char> {
        match self.config {
            Some(c) => c@.claude_command,
            None => crate::models::config::default_config().claude_command,
        }
    }

    /// A dashboard over `tasks`, with the first task selected.
    pub fn new(tasks: Vec<TaskDisplay>, config: Option<WtConfig>) -> (r: Self)
        ensures
            r.tasks@ == tasks@,
            r.selected == 0,
            r.config == config,
    {
        App { tasks, selected: 0, config }
    }

    /// Replaces the tasks. The selection stays, or moves to the last task where it stood
    /// beyond it.
    pub fn refresh(&mut self, tasks: Vec<TaskDisplay>)
        ensures
            final(self).tasks@ == tasks@,
            final(self).selected == kept_selection(old(self).selected, tasks.len() as nat),
            final(self).config == old(self).config,
    {
        self.tasks = tasks;
        if self.selected >= self.tasks.len() && self.tasks.len() > 0 {
            self.selected = self.tasks.len() - 1;
        }
    }

    /// The task that is selected.
    pub fn selected_task(&self) -> (r: Option<&TaskDisplay>)
        ensures
            match r {
                Some(t) => self.chosen() == Some(t@),
                None => self.chosen() is None,
            },
    {
        if self.selected < self.tasks.len() {
            Some(&self.tasks[self.selected])
        } else {
            None
        }
    }

    /// Selects the next task, and the first after the last.
    pub fn next(&mut self)
        ensures
            final(self).tasks == old(self).tasks,
            final(self).config == old(self).config,
            old(self).tasks.len() == 0 ==> final(self).selected == old(self).selected,
            old(self).tasks.len() > 0 ==> final(self).selected == (old(self).selected + 1)
                % (old(self).tasks.len() as int),
    {
        let n = self.tasks.len();
        if n > 0 {
            let at = self.selected % n;
            proof {
                vstd::arithmetic::div_mod::lemma_add_mod_noop(
                    self.selected as int,
                    1,
                    n as int,
                );
                vstd::arithmetic::div_mod::lemma_mod_twice(self.selected as int, n as int);
                if n > 1 {
                    vstd::arithmetic::div_mod::lemma_small_mod(1, n as nat);
                } else {
                    assert(1int % 1 == 0);
                }
            }
            self.selected = (at + 1) % n;
        }
    }

    /// Selects the task before, and the last before the first.
    pub fn previous(&mut self)
        ensures
            final(self).tasks == old(self).tasks,
            final(self).config == old(self).config,
            old(self).tasks.len() == 0 ==> final(self).selected == old(self).selected,
            old(self).tasks.len() > 0 ==> final(self).selected == if old(self).selected == 0 {
                (old(self).tasks.len() - 1) as usize
            } else {
                (old(self).selected - 1) as usize
            },
    {
        if self.tasks.len() > 0 {
            if self.selected == 0 {
                self.selected = self.tasks.len() - 1;
            } else {
                self.selected = self.selected - 1;
            }
        }
    }

    /// Whether the selected task can be marked as done: it is running.
    pub fn can_mark_done(&self) -> (r: bool)
        ensures
            r == (self.chosen() is Some && self.chosen()->Some_0.status == TaskStatus::Running),
    {
        match self.selected_task() {
            Some(t) => t.status == TaskStatus::Running,
            None => false,
        }
    }

    /// Whether the selected task can be marked as merged: it is done.
    pub fn can_mark_merged(&self) -> (r: bool)
        ensures
            r == (self.chosen() is Some && self.chosen()->Some_0.status == TaskStatus::Done),
    {
        match self.selected_task() {
            Some(t) => t.status == TaskStatus::Done,
            None => false,
        }
    }

    /// Whether the selected task can be archived: it is merged.
    pub fn can_archive(&self) -> (r: bool)
        ensures
            r == (self.chosen() is Some && self.chosen()->Some_0.status == TaskStatus::Merged),
    {
        match self.selected_task() {
            Some(t) => t.status == TaskStatus::Merged,
            None => false,
        }
    }

    /// Marks the selected task as done in `store`, where it is running, and names it.
    pub fn mark_done(&self, store: &mut TaskStore) -> (r: Option<String>)
        ensures
            match r {
                Some(name) => self.chosen() is Some && self.chosen()->Some_0.status
                    == TaskStatus::Running && name@ == self.chosen()->Some_0.name && final(store)@ == marked(old(store)@, name@, TaskStatus::Done),
                None => !(self.chosen() is Some && self.chosen()->Some_0.status
                    == TaskStatus::Running) && final(store)@ == old(store)@,
            },
    {
        match self.selected_task() {
            Some(t) => {
                if t.status == TaskStatus::Running {
                    store.set_status(t.name.as_str(), TaskStatus::Done);
                    Some(t.name.clone())
                } else {
                    None
                }
            },
            None => None,
        }
    }

    /// Marks the selected task as merged in `store`, where it is done, and names it.
    pub fn mark_merged(&self, store: &mut TaskStore) -> (r: Option<String>)
        ensures
            match r {
                Some(name) => self.chosen() is Some && self.chosen()->Some_0.status
                    == TaskStatus::Done && name@ == self.chosen()->Some_0.name && final(store)@
                    == marked(old(store)@, name@, TaskStatus::Merged),
                None => !(self.chosen() is Some && self.chosen()->Some_0.status
                    == TaskStatus::Done) && final(store)@ == old(store)@,
            },
    {
        match self.selected_task() {
            Some(t) => {
                if t.status == TaskStatus::Done {
                    store.set_status(t.name.as_str(), TaskStatus::Merged);
                    Some(t.name.clone())
                } else {
                    None
                }
            },
            None => None,
        }
    }

    /// Names the selected task where it is merged, so that it can be archived.
    pub fn archive(&self) -> (r: Option<String>)
        ensures
            match r {
                Some(name) => self.chosen() is Some && self.chosen()->Some_0.status
                    == TaskStatus::Merged && name@ == self.chosen()->Some_0.name,
                None => !(self.chosen() is Some && self.chosen()->Some_0.status
                    == TaskStatus::Merged),
            },
    {
        match self.selected_task() {
            Some(t) => {
                if t.status == TaskStatus::Merged {
                    Some(t.name.clone())
                } else {
                    None
                }
            },
            None => None,
        }
    }

    /// What Enter does on the selected task, inside tmux or outside.
    pub fn enter_action(&self, in_tmux: bool) -> (r: Option<TuiAction>)
        ensures
            match r {
                Some(a) => self.chosen() is Some && enter_of(
                    self.chosen()->Some_0,
                    self.agent(),
                    in_tmux,
                ) == Some(a@),
                None => self.chosen() is None || enter_of(
                    self.chosen()->Some_0,
                    self.agent(),
                    in_tmux,
                ) is None,
            },
    {
        let task = match self.selected_task() {
            Some(t) => t,
            None => {
                return None;
            },
        };
        let session = match &task.tmux_session {
            Some(s) => s,
            None => {
                return None;
            },
        };
        let window = match &task.tmux_window {
            Some(w) => w,
            None => {
                return None;
            },
        };
        if task.tmux_alive {
            if in_tmux {
                Some(
                    TuiAction::SwitchTmuxWindow { session: session.clone(), window: window.clone() },
                )
            } else {
                Some(TuiAction::AttachTmux { session: session.clone(), window: window.clone() })
            }
        } else {
            let worktree = match &task.worktree_path {
                Some(w) => w,
                None => {
                    return None;
                },
            };
            let session_id = match &task.session_id {
                Some(s) => s,
                None => {
                    return None;
                },
            };
            let claude_command = match &self.config {
                Some(c) => c.claude_command.clone(),
                None => crate::models::config::default_claude_command(),
            };
            Some(
                TuiAction::ShowResume {
                    worktree: worktree.clone(),
                    session_id: session_id.clone(),
                    claude_command,
                },
            )
        }
    }

    /// The action that shows the last messages of the selected task, where that is
    /// running or done.
    pub fn tail_action(&self) -> (r: Option<TuiAction>)
        ensures
            match r {
                Some(a) => self.chosen() is Some && (self.chosen()->Some_0.status
                    == TaskStatus::Running || self.chosen()->Some_0.status == TaskStatus::Done)
                    && a@ == (TuiActionModel::Tail { name: self.chosen()->Some_0.name }),
                None => !(self.chosen() is Some && (self.chosen()->Some_0.status
                    == TaskStatus::Running || self.chosen()->Some_0.status == TaskStatus::Done)),
            },
    {
        match self.selected_task() {
            Some(t) => {
                if t.status == TaskStatus::Running || t.status == TaskStatus::Done {
                    Some(TuiAction::Tail { name: t.name.clone() })
                } else {
                    None
                }
            },
            None => None,
        }
    }

    /// The place of the task named `name` among the tasks.
    pub fn position(&self, name: &str) -> (r: Option<usize>)
        ensures
            match r {
                Some(i) => i < self.tasks.len() && self.tasks@[i as int]@.name == name@,
                None => forall|i: int|
                    0 <= i < self.tasks.len() ==> (#[trigger] self.tasks@[i])@.name != name@,
            },
    {
        let mut i: usize = 0;
        while i < self.tasks.len()
            invariant
                i <= self.tasks.len(),
                forall|j: int| 0 <= j < i ==> (#[trigger] self.tasks@[j])@.name != name@,
            decreases self.tasks.len() - i,
        {
            if same_text(self.tasks[i].name.as_str(), name) {
                return Some(i);
            }
            i += 1;
        }
        None
    }
}

} // verus!
