//! What the dashboard writes: each line as a list of pieces of text, every piece with its
//! colour and weight. Putting the pieces on the screen is left to the caller.

use vstd::prelude::*;
use crate::models::task::TaskStatus;
use crate::text::{chars_of, decimal, has_prefix, push_decimal, push_signed_decimal, same_text, signed_decimal, starts_with, string_of_range};
use crate::tui::app::{TaskDisplay, TaskDisplayModel, displays};

verus! {

/// The colours of the dashboard.
#[derive(Debug, Clone, Copy, PartialEq, Eq, Structural)]
pub enum Tint {
    Plain,
    Yellow,
    Red,
    White,
    DarkGray,
    Gray,
    Cyan,
    Magenta,
    Green,
    Blue,
}

/// A piece of a line, as plain values.
pub struct SegmentModel {
    pub text: Seq<char>,
    pub tint: Tint,
    pub bold: bool,
}

/// A piece of a line: a text, its colour, and whether it is written bold.
#[derive(Debug)]
pub struct Segment {
    pub text: String,
    pub tint: Tint,
    pub bold: bool,
}

impl View for Segment {
    type V = SegmentModel;

    open spec fn view(&self) -> SegmentModel {
        SegmentModel { text: self.text@, tint: self.tint, bold: self.bold }
    }
}

/// The views of a list of pieces.
pub open spec fn segments(v: Seq<Segment>) -> Seq<SegmentModel> {
    v.map_values(|s: Segment| s@)
}

/// A piece in the given colour, not bold.
pub open spec fn piece(text: Seq<char>, tint: Tint) -> SegmentModel {
    SegmentModel { text, tint, bold: false }
}

/// `n` spaces.
pub open spec fn blanks(n: nat) -> Seq<char> {
    Seq::new(n, |i: int| ' ')
}

/// `s`, followed by the spaces that bring it to `width` characters.
pub open spec fn padded(s: Seq<char>, width: nat) -> Seq<char> {
    if s.len() >= width {
        s
    } else {
        s + blanks((width - s.len()) as nat)
    }
}

/// `s`, after the spaces that bring it to `width` characters.
pub open spec fn aligned(s: Seq<char>, width: nat) -> Seq<char> {
    if s.len() >= width {
        s
    } else {
        blanks((width - s.len()) as nat) + s
    }
}

/// `s` where it has at most `max` characters; else its first `max - 1` characters and an
/// ellipsis.
pub open spec fn truncated(s: Seq<char>, max: nat) -> Seq<char> {
    if s.len() <= max {
        s
    } else {
        s.take(max - 1).push('…')
    }
}

/// Whether two underscores stand at places `i` and `i + 1` of `s`.
pub open spec fn pair_at(s: Seq<char>, i: int) -> bool {
    0 <= i && i + 1 < s.len() && s[i] == '_' && s[i + 1] == '_'
}

/// What follows the last pair of underscores that starts before place `n` of `s`; all of
/// `s` where none does.
pub open spec fn after_pair(s: Seq<char>, n: nat) -> Seq<char>
    decreases n,
{
    if n == 0 {
        s
    } else if pair_at(s, n - 1) {
        s.skip(n + 1 as int)
    } else {
        after_pair(s, (n - 1) as nat)
    }
}

/// The short form of a tool's name: `Web` and `Search` for the two tools of the web, the
/// last part of a name that starts with `mcp__`, and the name itself otherwise.
pub open spec fn short_tool(tool: Seq<char>) -> Seq<char> {
    if tool == "WebFetch"@ {
        "Web"@
    } else if tool == "WebSearch"@ {
        "Search"@
    } else if has_prefix(tool, "mcp__"@) {
        after_pair(tool, tool.len())
    } else {
        tool
    }
}

/// The name of a tool as the dashboard shows it: its short form, in at most 12 characters.
pub open spec fn tool_shown(tool: Seq<char>) -> Seq<char> {
    truncated(short_tool(tool), 12)
}

/// The mark that stands for a task's state: a warning where its worktree is in conflict or
/// its window is gone, else the symbol of what the task does.
pub open spec fn mark_of(t: TaskDisplayModel) -> SegmentModel {
    if t.has_conflict {
        piece("⚠"@, Tint::Red)
    } else {
        match t.status {
            TaskStatus::Done => piece("◉"@, Tint::Blue),
            TaskStatus::Merged => piece("✓"@, Tint::Magenta),
            TaskStatus::Running => if !t.tmux_alive {
                piece("⚠"@, Tint::Yellow)
            } else if t.active {
                piece("●"@, Tint::Green)
            } else {
                piece("○"@, Tint::DarkGray)
            },
            _ => piece("○"@, Tint::DarkGray),
        }
    }
}

/// The pointer before the chosen task; three spaces before any other.
pub open spec fn pointer_of(selected: bool) -> SegmentModel {
    if selected {
        piece(" ▸ "@, Tint::Yellow)
    } else {
        piece("   "@, Tint::Plain)
    }
}

/// The task's name in a column of 12 characters, bold for the chosen task.
pub open spec fn name_of(t: TaskDisplayModel, selected: bool) -> SegmentModel {
    SegmentModel { text: padded(truncated(t.name, 12), 12), tint: Tint::White, bold: selected }
}

/// How long the task has run, to the right of a column of 6 characters; a dash where that
/// is not known.
pub open spec fn duration_of(t: TaskDisplayModel) -> SegmentModel {
    piece(
        match t.duration {
            Some(d) => aligned(d, 6),
            None => "     -"@,
        },
        Tint::DarkGray,
    )
}

/// How much of its context the task's agent has used: red from 95 percent, yellow from 80.
pub open spec fn context_of(t: TaskDisplayModel) -> SegmentModel {
    piece(
        " "@ + aligned(decimal(t.context_percent as nat), 3) + "%"@,
        if t.context_percent >= 95 {
            Tint::Red
        } else if t.context_percent >= 80 {
            Tint::Yellow
        } else {
            Tint::Cyan
        },
    )
}

/// The number of the task's commits; a dash where it has none.
pub open spec fn commits_of(t: TaskDisplayModel) -> SegmentModel {
    piece(
        if t.commit_count > 0 {
            " "@ + aligned(decimal(t.commit_count as nat), 2) + "c"@
        } else {
            "   -"@
        },
        Tint::Magenta,
    )
}

/// The lines that the task has added and deleted, in a column of 12 characters; a dash
/// where it has changed nothing.
pub open spec fn changes_of(t: TaskDisplayModel) -> SegmentModel {
    if t.additions > 0 || t.deletions > 0 {
        piece(
            padded(
                " +"@ + signed_decimal(t.additions as int) + "/-"@ + signed_decimal(
                    t.deletions as int,
                ),
                12,
            ),
            Tint::Gray,
        )
    } else {
        piece(padded(" -"@, 12), Tint::DarkGray)
    }
}

/// What ends the line of a task: the word of a conflict, or the tool that its agent uses,
/// or nothing.
pub open spec fn ending_of(t: TaskDisplayModel) -> Seq<SegmentModel> {
    if t.has_conflict {
        seq![SegmentModel { text: " ⚡CONFLICT"@, tint: Tint::Red, bold: true }]
    } else {
        match t.current_tool {
            Some(tool) => seq![piece(" "@ + tool_shown(tool), Tint::DarkGray)],
            None => Seq::<SegmentModel>::empty(),
        }
    }
}

/// The line of a task on the dashboard.
pub open spec fn task_line(t: TaskDisplayModel, selected: bool) -> Seq<SegmentModel> {
    seq![
        pointer_of(selected),
        mark_of(t),
        piece(" "@, Tint::Plain),
        name_of(t, selected),
        duration_of(t),
        context_of(t),
        commits_of(t),
        changes_of(t),
    ] + ending_of(t)
}

/// The number of tasks in `tasks` that have the status `status`.
pub open spec fn count_of(tasks: Seq<TaskDisplayModel>, status: TaskStatus) -> nat
    decreases tasks.len(),
{
    if tasks.len() == 0 {
        0
    } else {
        count_of(tasks.drop_last(), status) + if tasks.last().status == status {
            1nat
        } else {
            0nat
        }
    }
}

/// The head of the dashboard: its title, and how many tasks run, are done and, where any
/// are, are merged.
pub open spec fn header_line(tasks: Seq<TaskDisplayModel>) -> Seq<SegmentModel> {
    let merged = count_of(tasks, TaskStatus::Merged);
    seq![
        SegmentModel { text: " wt status"@, tint: Tint::Cyan, bold: true },
        piece(blanks(30), Tint::Plain),
        piece(decimal(count_of(tasks, TaskStatus::Running)) + " running"@, Tint::Green),
        piece(" · "@, Tint::Plain),
        piece(decimal(count_of(tasks, TaskStatus::Done)) + " done"@, Tint::Blue),
    ] + if merged > 0 {
        seq![piece(" · "@, Tint::Plain), piece(decimal(merged) + " merged"@, Tint::Magenta)]
    } else {
        Seq::<SegmentModel>::empty()
    }
}

/// A key of the dashboard and what it does.
pub open spec fn key_help(key: Seq<char>, does: Seq<char>) -> Seq<SegmentModel> {
    seq![piece(key, Tint::Yellow), piece(does, Tint::Plain)]
}

/// The keys that act on a task of the given status: `t` follows the agent of a task that
/// runs or is done; `d`, `m` and `a` take a task one step on.
pub open spec fn task_keys(status: Option<TaskStatus>) -> Seq<SegmentModel> {
    match status {
        Some(TaskStatus::Running) => key_help("t"@, " tail  "@) + key_help("d"@, " done  "@),
        Some(TaskStatus::Done) => key_help("t"@, " tail  "@) + key_help("m"@, " merged  "@),
        Some(TaskStatus::Merged) => key_help("a"@, " archive  "@),
        _ => Seq::<SegmentModel>::empty(),
    }
}

/// The foot of the dashboard: the keys that it takes, given the status of the chosen task.
pub open spec fn footer_line(status: Option<TaskStatus>) -> Seq<SegmentModel> {
    seq![piece(" "@, Tint::Plain)] + key_help("↑↓"@, " navigate  "@) + key_help(
        "⏎"@,
        " cd  "@,
    ) + task_keys(status) + key_help("q"@, " quit"@)
}

/// Appends `n` spaces to `s`.
fn push_blanks(s: &mut String, n: usize)
    ensures
        final(s)@ == old(s)@ + blanks(n as nat),
{
    let mut i: usize = 0;
    assert(old(s)@ + blanks(0) =~= old(s)@);
    while i < n
        invariant
            i <= n,
            s@ == old(s)@ + blanks(i as nat),
        decreases n - i,
    {
        s.push(' ');
        assert(s@ =~= old(s)@ + blanks((i + 1) as nat));
        i += 1;
    }
}

/// `text`, followed by the spaces that bring it to `width` characters.
pub fn pad(text: &str, width: usize) -> (r: String)
    ensures
        r@ == padded(text@, width as nat),
{
    let n = text.unicode_len();
    let mut r = text.to_string();
    if n < width {
        push_blanks(&mut r, width - n);
    }
    r
}

/// `text`, after the spaces that bring it to `width` characters.
pub fn align(text: &str, width: usize) -> (r: String)
    ensures
        r@ == aligned(text@, width as nat),
{
    let n = text.unicode_len();
    let mut r = String::new();
    if n < width {
        push_blanks(&mut r, width - n);
    }
    r.append(text);
    assert(r@ =~= aligned(text@, width as nat));
    r
}

/// `text` in at most `max_len` characters: cut, and ended by an ellipsis, where it is
/// longer.
pub fn truncate(text: &str, max_len: usize) -> (r: String)
    requires
        max_len >= 1,
    ensures
        r@ == truncated(text@, max_len as nat),
{
    let v = chars_of(text);
    if v.len() <= max_len {
        text.to_string()
    } else {
        let mut r = string_of_range(&v, 0, max_len - 1);
        r.push('…');
        assert(r@ =~= truncated(text@, max_len as nat));
        r
    }
}

/// The short form of a tool's name, in at most 12 characters.
pub fn format_tool_name(tool: &str) -> (r: String)
    ensures
        r@ == tool_shown(tool@),
{
    if same_text(tool, "WebFetch") {
        truncate("Web", 12)
    } else if same_text(tool, "WebSearch") {
        truncate("Search", 12)
    } else if starts_with(&chars_of(tool), &chars_of("mcp__")) {
        let v = chars_of(tool);
        let mut n: usize = v.len();
        while n > 0
            invariant
                n <= v.len(),
                v@ == tool@,
                short_tool(tool@) == after_pair(v@, n as nat),
            decreases n,
        {
            assert(after_pair(v@, n as nat) == if pair_at(v@, n - 1) {
                v@.skip(n + 1)
            } else {
                after_pair(v@, (n - 1) as nat)
            });
            if n < v.len() && v[n - 1] == '_' && v[n] == '_' {
                let last = string_of_range(&v, n + 1, v.len());
                assert(v@.skip(n + 1) =~= v@.subrange(n + 1, v@.len() as int));
                return truncate(last.as_str(), 12);
            }
            n -= 1;
        }
        truncate(tool, 12)
    } else {
        truncate(tool, 12)
    }
}

/// The mark that stands for a task's state, and its colour.
pub fn get_status_icon(task: &TaskDisplay) -> (r: Segment)
    ensures
        r@ == mark_of(task@),
{
    let (text, tint) = if task.has_conflict {
        ("⚠", Tint::Red)
    } else {
        match task.status {
            TaskStatus::Done => ("◉", Tint::Blue),
            TaskStatus::Merged => ("✓", Tint::Magenta),
            TaskStatus::Running => if !task.tmux_alive {
                ("⚠", Tint::Yellow)
            } else if task.active {
                ("●", Tint::Green)
            } else {
                ("○", Tint::DarkGray)
            },
            _ => ("○", Tint::DarkGray),
        }
    };
    Segment { text: text.to_string(), tint, bold: false }
}

/// A piece in the given colour, not bold.
fn plain(text: String, tint: Tint) -> (r: Segment)
    ensures
        r@ == piece(text@, tint),
{
    Segment { text, tint, bold: false }
}

/// The piece that tells how much of its context the task's agent has used.
fn context_piece(task: &TaskDisplay) -> (r: Segment)
    ensures
        r@ == context_of(task@),
{
    let mut number = String::new();
    push_decimal(&mut number, task.context_percent as u64);
    assert(number@ =~= decimal(task.context_percent as nat));
    let mut text = " ".to_string();
    text.append(align(number.as_str(), 3).as_str());
    text.push('%');
    proof {
        reveal_strlit("%");
        assert("%"@ =~= seq!['%']);
        assert(text@ =~= " "@ + aligned(decimal(task.context_percent as nat), 3) + "%"@);
    }
    let tint = if task.context_percent >= 95 {
        Tint::Red
    } else if task.context_percent >= 80 {
        Tint::Yellow
    } else {
        Tint::Cyan
    };
    plain(text, tint)
}

/// The piece that tells the number of the task's commits.
fn commits_piece(task: &TaskDisplay) -> (r: Segment)
    ensures
        r@ == commits_of(task@),
{
    if task.commit_count > 0 {
        let mut number = String::new();
        push_decimal(&mut number, task.commit_count as u64);
        assert(number@ =~= decimal(task.commit_count as nat));
        let mut text = " ".to_string();
        text.append(align(number.as_str(), 2).as_str());
        text.push('c');
        proof {
            reveal_strlit("c");
            assert("c"@ =~= seq!['c']);
            assert(text@ =~= " "@ + aligned(decimal(task.commit_count as nat), 2) + "c"@);
        }
        plain(text, Tint::Magenta)
    } else {
        plain("   -".to_string(), Tint::Magenta)
    }
}

/// The piece that tells the lines that the task has added and deleted.
fn changes_piece(task: &TaskDisplay) -> (r: Segment)
    ensures
        r@ == changes_of(task@),
{
    if task.additions > 0 || task.deletions > 0 {
        let mut text = " +".to_string();
        push_signed_decimal(&mut text, task.additions as i64);
        text.append("/-");
        push_signed_decimal(&mut text, task.deletions as i64);
        plain(pad(text.as_str(), 12), Tint::Gray)
    } else {
        plain(pad(" -", 12), Tint::DarkGray)
    }
}

/// The line of a task on the dashboard, as the pieces that make it up.
pub fn format_task_line(task: &TaskDisplay, selected: bool) -> (r: Vec<Segment>)
    ensures
        segments(r@) == task_line(task@, selected),
{
    let mut r: Vec<Segment> = Vec::new();
    if selected {
        r.push(plain(" ▸ ".to_string(), Tint::Yellow));
    } else {
        r.push(plain("   ".to_string(), Tint::Plain));
    }
    r.push(get_status_icon(task));
    r.push(plain(" ".to_string(), Tint::Plain));
    let name = truncate(task.name.as_str(), 12);
    r.push(Segment { text: pad(name.as_str(), 12), tint: Tint::White, bold: selected });
    r.push(
        plain(
            match &task.duration {
                Some(d) => align(d.as_str(), 6),
                None => "     -".to_string(),
            },
            Tint::DarkGray,
        ),
    );
    r.push(context_piece(task));
    r.push(commits_piece(task));
    r.push(changes_piece(task));
    if task.has_conflict {
        r.push(Segment { text: " ⚡CONFLICT".to_string(), tint: Tint::Red, bold: true });
    } else {
        match &task.current_tool {
            Some(tool) => {
                let mut text = " ".to_string();
                text.append(format_tool_name(tool.as_str()).as_str());
                r.push(plain(text, Tint::DarkGray));
            },
            None => {},
        }
    }
    assert(segments(r@) =~= task_line(task@, selected));
    r
}

/// The number of tasks in `tasks` that have the status `status`.
pub fn count_status(tasks: &Vec<TaskDisplay>, status: TaskStatus) -> (r: usize)
    ensures
        r == count_of(displays(tasks@), status),
{
    let mut r: usize = 0;
    let mut i: usize = 0;
    assert(displays(tasks@).take(0) =~= Seq::<TaskDisplayModel>::empty());
    while i < tasks.len()
        invariant
            i <= tasks.len(),
            r <= i,
            r == count_of(displays(tasks@).take(i as int), status),
        decreases tasks.len() - i,
    {
        proof {
            assert(displays(tasks@).take(i + 1).drop_last() =~= displays(tasks@).take(i as int));
            assert(displays(tasks@).take(i + 1).last() == tasks@[i as int]@);
        }
        if tasks[i].status == status {
            r += 1;
        }
        i += 1;
    }
    assert(displays(tasks@).take(tasks.len() as int) =~= displays(tasks@));
    r
}

/// A count and the word that says what was counted.
fn counted(n: usize, word: &str, tint: Tint) -> (r: Segment)
    ensures
        r@ == piece(decimal(n as nat) + word@, tint),
{
    let mut text = String::new();
    push_decimal(&mut text, n as u64);
    text.append(word);
    assert(text@ =~= decimal(n as nat) + word@);
    plain(text, tint)
}

/// The head of the dashboard, as the pieces that make it up.
pub fn header(tasks: &Vec<TaskDisplay>) -> (r: Vec<Segment>)
    ensures
        segments(r@) == header_line(displays(tasks@)),
{
    let mut r: Vec<Segment> = Vec::new();
    r.push(Segment { text: " wt status".to_string(), tint: Tint::Cyan, bold: true });
    let mut gap = String::new();
    push_blanks(&mut gap, 30);
    assert(gap@ =~= blanks(30));
    r.push(plain(gap, Tint::Plain));
    r.push(counted(count_status(tasks, TaskStatus::Running), " running", Tint::Green));
    r.push(plain(" · ".to_string(), Tint::Plain));
    r.push(counted(count_status(tasks, TaskStatus::Done), " done", Tint::Blue));
    let merged = count_status(tasks, TaskStatus::Merged);
    if merged > 0 {
        r.push(plain(" · ".to_string(), Tint::Plain));
        r.push(counted(merged, " merged", Tint::Magenta));
    }
    assert(segments(r@) =~= header_line(displays(tasks@)));
    r
}

/// Appends a key of the dashboard and what it does.
fn push_key(r: &mut Vec<Segment>, key: &str, does: &str)
    ensures
        segments(final(r)@) == segments(old(r)@) + key_help(key@, does@),
{
    r.push(plain(key.to_string(), Tint::Yellow));
    r.push(plain(does.to_string(), Tint::Plain));
    assert(segments(r@) =~= segments(old(r)@) + key_help(key@, does@));
}

/// The foot of the dashboard, as the pieces that make it up, given the status of the
/// chosen task.
pub fn footer(status: Option<TaskStatus>) -> (r: Vec<Segment>)
    ensures
        segments(r@) == footer_line(status),
{
    let mut r: Vec<Segment> = Vec::new();
    r.push(plain(" ".to_string(), Tint::Plain));
    assert(segments(r@) =~= seq![piece(" "@, Tint::Plain)]);
    push_key(&mut r, "↑↓", " navigate  ");
    push_key(&mut r, "⏎", " cd  ");
    let ghost before = segments(r@);
    match status {
        Some(TaskStatus::Running) => {
            push_key(&mut r, "t", " tail  ");
            push_key(&mut r, "d", " done  ");
        },
        Some(TaskStatus::Done) => {
            push_key(&mut r, "t", " tail  ");
            push_key(&mut r, "m", " merged  ");
        },
        Some(TaskStatus::Merged) => {
            push_key(&mut r, "a", " archive  ");
        },
        _ => {},
    }
    assert(segments(r@) =~= before + task_keys(status));
    push_key(&mut r, "q", " quit");
    assert(segments(r@) =~= footer_line(status));
    r
}

/// A key that the dashboard reads.
#[derive(Debug, Clone, Copy, PartialEq, Eq, Structural)]
pub enum Key {
    Char(char),
    Up,
    Down,
    Enter,
    Esc,
    Other,
}

/// What a key asks of the dashboard.
#[derive(Debug, Clone, Copy, PartialEq, Eq, Structural)]
pub enum KeyCommand {
    /// Leave the dashboard.
    Quit,
    /// Choose the task above.
    Previous,
    /// Choose the task below.
    Next,
    /// Go to the window of the chosen task.
    Enter,
    /// Show the last messages of the chosen task's agent.
    Tail,
    /// Mark the chosen task as done.
    Done,
    /// Mark the chosen task as merged.
    Merged,
    /// Archive the chosen task.
    Archive,
    /// The key has no meaning.
    Nothing,
}

/// What `key` asks of the dashboard: `q` and escape leave it, the arrows and `k`, `j`
/// move the choice, enter goes to the task, and `t`, `d`, `m`, `a` act on it.
pub open spec fn command_of(key: Key) -> KeyCommand {
    match key {
        Key::Esc => KeyCommand::Quit,
        Key::Up => KeyCommand::Previous,
        Key::Down => KeyCommand::Next,
        Key::Enter => KeyCommand::Enter,
        Key::Other => KeyCommand::Nothing,
        Key::Char(c) => if c == 'q' {
            KeyCommand::Quit
        } else if c == 'k' {
            KeyCommand::Previous
        } else if c == 'j' {
            KeyCommand::Next
        } else if c == 't' {
            KeyCommand::Tail
        } else if c == 'd' {
            KeyCommand::Done
        } else if c == 'm' {
            KeyCommand::Merged
        } else if c == 'a' {
            KeyCommand::Archive
        } else {
            KeyCommand::Nothing
        },
    }
}

/// What `key` asks of the dashboard.
pub fn key_command(key: Key) -> (r: KeyCommand)
    ensures
        r == command_of(key),
{
    match key {
        Key::Esc => KeyCommand::Quit,
        Key::Up => KeyCommand::Previous,
        Key::Down => KeyCommand::Next,
        Key::Enter => KeyCommand::Enter,
        Key::Other => KeyCommand::Nothing,
        Key::Char(c) => if c == 'q' {
            KeyCommand::Quit
        } else if c == 'k' {
            KeyCommand::Previous
        } else if c == 'j' {
            KeyCommand::Next
        } else if c == 't' {
            KeyCommand::Tail
        } else if c == 'd' {
            KeyCommand::Done
        } else if c == 'm' {
            KeyCommand::Merged
        } else if c == 'a' {
            KeyCommand::Archive
        } else {
            KeyCommand::Nothing
        },
    }
}

} // verus!
