//! Task definitions and the status a task moves through.

use vstd::prelude::*;
use crate::text::{texts, opt_text, copy_texts, copy_opt_text};

verus! {

/// Where a task stands in its lifecycle.
#[derive(Debug, Clone, Copy, PartialEq, Eq, Structural)]
pub enum TaskStatus {
    Pending,
    Running,
    Done,
    Merged,
    Archived,
}

impl Default for TaskStatus {
    fn default() -> (r: Self)
        ensures
            r == TaskStatus::Pending,
    {
        TaskStatus::Pending
    }
}

impl TaskStatus {
    /// The forward transitions of the lifecycle: pending to running, running to done or
    /// merged, done to merged, merged to archived.
    pub open spec fn allows(self, target: TaskStatus) -> bool {
        match (self, target) {
            (TaskStatus::Pending, TaskStatus::Running) => true,
            (TaskStatus::Running, TaskStatus::Done) => true,
            (TaskStatus::Running, TaskStatus::Merged) => true,
            (TaskStatus::Done, TaskStatus::Merged) => true,
            (TaskStatus::Merged, TaskStatus::Archived) => true,
            _ => false,
        }
    }

    /// The lower-case name under which the status is shown and persisted.
    pub open spec fn label(self) -> Seq<char> {
        match self {
            TaskStatus::Pending => "pending"@,
            TaskStatus::Running => "running"@,
            TaskStatus::Done => "done"@,
            TaskStatus::Merged => "merged"@,
            TaskStatus::Archived => "archived"@,
        }
    }

    /// The one-character symbol of the status.
    pub open spec fn symbol(self) -> Seq<char> {
        match self {
            TaskStatus::Pending => "○"@,
            TaskStatus::Running => "●"@,
            TaskStatus::Done => "◉"@,
            TaskStatus::Merged => "✓"@,
            TaskStatus::Archived => "▪"@,
        }
    }

    /// The symbol of the status in Windows-1252 reading.
    pub open spec fn icon_text(self) -> Seq<char> {
        match self {
            TaskStatus::Pending => "â—‹"@,
            TaskStatus::Running => "â—"@,
            TaskStatus::Done => "â—‰"@,
            TaskStatus::Merged => "âœ“"@,
            TaskStatus::Archived => "â–ª"@,
        }
    }

    /// The symbol of the status, between the codes of its colour where `color` is set:
    /// white for pending, green for running, yellow for done, magenta for merged and gray
    /// for archived.
    pub open spec fn colored_symbol(self, color: bool) -> Seq<char> {
        if !color {
            self.symbol()
        } else {
            (match self {
                TaskStatus::Pending => "\x1b[37m"@,
                TaskStatus::Running => "\x1b[32m"@,
                TaskStatus::Done => "\x1b[33m"@,
                TaskStatus::Merged => "\x1b[35m"@,
                TaskStatus::Archived => "\x1b[90m"@,
            }) + self.symbol() + "\x1b[0m"@
        }
    }

    /// Whether a dependency in this status no longer blocks its dependents.
    pub open spec fn settles(self) -> bool {
        self == TaskStatus::Merged || self == TaskStatus::Archived
    }

    /// Whether a task may move from this status to `target`.
    pub fn can_transition_to(&self, target: &TaskStatus) -> (r: bool)
        ensures
            r == self.allows(*target),
    {
        match (*self, *target) {
            (TaskStatus::Pending, TaskStatus::Running) => true,
            (TaskStatus::Running, TaskStatus::Done) => true,
            (TaskStatus::Running, TaskStatus::Merged) => true,
            (TaskStatus::Done, TaskStatus::Merged) => true,
            (TaskStatus::Merged, TaskStatus::Archived) => true,
            _ => false,
        }
    }

    /// The lower-case name of the status.
    pub fn display_name(&self) -> (r: &'static str)
        ensures
            r@ == self.label(),
    {
        match self {
            TaskStatus::Pending => "pending",
            TaskStatus::Running => "running",
            TaskStatus::Done => "done",
            TaskStatus::Merged => "merged",
            TaskStatus::Archived => "archived",
        }
    }

    /// The symbol of the status as it reads where the bytes of its UTF-8 form are taken
    /// for Windows-1252; a byte that Windows-1252 does not map is left out.
    pub fn icon(&self) -> (r: &'static str)
        ensures
            r@ == self.icon_text(),
    {
        match self {
            TaskStatus::Pending => "â—‹",
            TaskStatus::Running => "â—",
            TaskStatus::Done => "â—‰",
            TaskStatus::Merged => "âœ“",
            TaskStatus::Archived => "â–ª",
        }
    }

    /// The one-character symbol of the status.
    pub fn symbol_str(&self) -> (r: &'static str)
        ensures
            r@ == self.symbol(),
    {
        match self {
            TaskStatus::Pending => "○",
            TaskStatus::Running => "●",
            TaskStatus::Done => "◉",
            TaskStatus::Merged => "✓",
            TaskStatus::Archived => "▪",
        }
    }

    /// The symbol of the status, in the colour of the status where `color` is set.
    pub fn colored_icon(&self, color: bool) -> (r: String)
        ensures
            r@ == self.colored_symbol(color),
    {
        if !color {
            return String::from_str(self.symbol_str());
        }
        let mut r = String::from_str(
            match self {
                TaskStatus::Pending => crate::display::WHITE,
                TaskStatus::Running => crate::display::GREEN,
                TaskStatus::Done => crate::display::YELLOW,
                TaskStatus::Merged => crate::display::MAGENTA,
                TaskStatus::Archived => crate::display::GRAY,
            },
        );
        r.append(self.symbol_str());
        r.append(crate::display::RESET);
        r
    }

    /// Whether a dependency in this status no longer blocks its dependents.
    pub fn is_settled(&self) -> (r: bool)
        ensures
            r == self.settles(),
    {
        match self {
            TaskStatus::Merged => true,
            TaskStatus::Archived => true,
            _ => false,
        }
    }
}

/// What an `Instance` holds, as plain sequences.
pub struct InstanceModel {
    pub branch: Seq<char>,
    pub worktree_path: Seq<char>,
    pub tmux_session: Seq<char>,
    pub tmux_window: Seq<char>,
    pub session_id: Option<Seq<char>>,
}

/// The live resources bound to a started task.
#[derive(Debug)]
pub struct Instance {
    pub branch: String,
    pub worktree_path: String,
    pub tmux_session: String,
    pub tmux_window: String,
    pub session_id: Option<String>,
}

impl View for Instance {
    type V = InstanceModel;

    open spec fn view(&self) -> InstanceModel {
        InstanceModel {
            branch: self.branch@,
            worktree_path: self.worktree_path@,
            tmux_session: self.tmux_session@,
            tmux_window: self.tmux_window@,
            session_id: opt_text(self.session_id),
        }
    }
}

impl Clone for Instance {
    fn clone(&self) -> (r: Self)
        ensures
            r@ == self@,
    {
        Instance {
            branch: self.branch.clone(),
            worktree_path: self.worktree_path.clone(),
            tmux_session: self.tmux_session.clone(),
            tmux_window: self.tmux_window.clone(),
            session_id: copy_opt_text(&self.session_id),
        }
    }
}

/// What a task definition declares, as plain sequences.
pub struct FrontmatterModel {
    pub name: Seq<char>,
    pub depends: Seq<Seq<char>>,
}

/// The header of a task definition: its name and the tasks it depends on.
#[derive(Debug)]
pub struct TaskFrontmatter {
    pub name: String,
    pub depends: Vec<String>,
}

impl View for TaskFrontmatter {
    type V = FrontmatterModel;

    open spec fn view(&self) -> FrontmatterModel {
        FrontmatterModel { name: self.name@, depends: texts(self.depends@) }
    }
}

impl Clone for TaskFrontmatter {
    fn clone(&self) -> (r: Self)
        ensures
            r@ == self@,
    {
        TaskFrontmatter { name: self.name.clone(), depends: copy_texts(&self.depends) }
    }
}

/// A task definition, as plain sequences.
pub struct TaskModel {
    pub name: Seq<char>,
    pub depends: Seq<Seq<char>>,
    pub content: Seq<char>,
    pub file_path: Seq<char>,
}

/// A task definition: header, free-text body and the file it came from.
#[derive(Debug)]
pub struct Task {
    pub frontmatter: TaskFrontmatter,
    pub content: String,
    pub file_path: String,
}

impl View for Task {
    type V = TaskModel;

    open spec fn view(&self) -> TaskModel {
        TaskModel {
            name: self.frontmatter.name@,
            depends: texts(self.frontmatter.depends@),
            content: self.content@,
            file_path: self.file_path@,
        }
    }
}

impl Clone for Task {
    fn clone(&self) -> (r: Self)
        ensures
            r@ == self@,
    {
        Task {
            frontmatter: self.frontmatter.clone(),
            content: self.content.clone(),
            file_path: self.file_path.clone(),
        }
    }
}

impl Task {
    /// The task's name.
    pub fn name(&self) -> (r: &str)
        ensures
            r@ == self@.name,
    {
        self.frontmatter.name.as_str()
    }

    /// The names of the tasks this one depends on.
    pub fn depends(&self) -> (r: &[String])
        ensures
            r@ == self.frontmatter.depends@,
    {
        self.frontmatter.depends.as_slice()
    }
}

} // verus!
