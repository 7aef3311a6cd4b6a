//! The report of the `status` command: what is known of every task that is running or
//! done, and the counts over them.

use vstd::prelude::*;
use crate::commands::done::{auto_mark_done_if_needed, marked};
use crate::commands::status::{StatusOutput, StatusSummary, TaskMetrics, capped_add, find_observation, observations, observed_for};
use crate::display::{colored_index, duration_text, format_duration, index_text, running_icon, running_look};
use crate::commands::pretty::{array, array_text, bool_member, bool_text, count_member, maybe, member, number_member, object, object_text, push_maybe, raw_member, text_member};
use crate::models::json::json_string;
use crate::models::status::{instance_in, status_in};
use crate::models::store::{StoreModel, TaskStore, targets};
use crate::models::task::{Instance, InstanceModel, Task, TaskStatus};
use crate::services::git::GitMetrics;
use crate::services::logs::percent_used;
use crate::services::transcript::seconds_between;
use crate::text::{copy_opt_text, decimal, join, joined, opt_text, push_decimal, push_signed_decimal, signed_decimal, texts};
use crate::tui::app::{Observation, ObservationModel, duration_of, shown_status};

verus! {

/// What the status reports of one task, as plain values.
pub struct TaskMetricsModel {
    pub index: usize,
    pub name: Seq<char>,
    pub status: TaskStatus,
    pub duration_secs: Option<i64>,
    pub duration_human: Option<Seq<char>>,
    pub context_percent: Option<u8>,
    pub current_tool: Option<Seq<char>>,
    pub git: Option<GitMetrics>,
    pub idle_secs: Option<u64>,
    pub active: Option<bool>,
    pub tmux_alive: Option<bool>,
    pub session_id: Option<Seq<char>>,
    pub transcript_exists: Option<bool>,
}

impl View for TaskMetrics {
    type V = TaskMetricsModel;

    open spec fn view(&self) -> TaskMetricsModel {
        TaskMetricsModel {
            index: self.index,
            name: self.name@,
            status: self.status,
            duration_secs: self.duration_secs,
            duration_human: opt_text(self.duration_human),
            context_percent: self.context_percent,
            current_tool: opt_text(self.current_tool),
            git: self.git,
            idle_secs: self.idle_secs,
            active: self.active,
            tmux_alive: self.tmux_alive,
            session_id: opt_text(self.session_id),
            transcript_exists: self.transcript_exists,
        }
    }
}

/// The views of a list of task reports.
pub open spec fn all_metrics(v: Seq<TaskMetrics>) -> Seq<TaskMetricsModel> {
    v.map_values(|m: TaskMetrics| m@)
}

/// What the status reports of the task `name` at the display index `index`, given its
/// recorded status and instance and what was found out about it. A running task whose
/// window is gone is reported as done; whether the window is alive is reported of running
/// tasks alone.
pub open spec fn metrics_for(
    index: usize,
    name: Seq<char>,
    status: TaskStatus,
    instance: Option<InstanceModel>,
    o: ObservationModel,
    transcript_exists: Option<bool>,
) -> TaskMetricsModel {
    TaskMetricsModel {
        index,
        name,
        status: shown_status(status, o.tmux_alive),
        duration_secs: match o.metrics {
            Some(m) => match (m.started_at, m.finished_at) {
                (Some(a), Some(b)) => Some(seconds_between(a, b) as i64),
                _ => None,
            },
            None => None,
        },
        duration_human: duration_of(o.metrics),
        context_percent: match o.metrics {
            Some(m) => Some(
                percent_used(
                    m.input_tokens as int,
                    m.output_tokens as int,
                    m.context_window as int,
                ) as u8,
            ),
            None => None,
        },
        current_tool: match o.metrics {
            Some(m) => m.current_tool,
            None => None,
        },
        git: o.git,
        idle_secs: o.idle_secs,
        active: match o.idle_secs {
            Some(idle) => Some(idle < 120),
            None => None,
        },
        tmux_alive: if shown_status(status, o.tmux_alive) == TaskStatus::Running {
            Some(o.tmux_alive)
        } else {
            None
        },
        session_id: match instance {
            Some(i) => i.session_id,
            None => None,
        },
        transcript_exists,
    }
}

/// What the status reports of one task.
pub fn task_metrics(
    index: usize,
    name: &str,
    status: TaskStatus,
    instance: Option<&Instance>,
    observed: &Observation,
    transcript_exists: Option<bool>,
) -> (r: TaskMetrics)
    ensures
        r@ == metrics_for(
            index,
            name@,
            status,
            match instance {
                Some(i) => Some(i@),
                None => None,
            },
            observed@,
            transcript_exists,
        ),
{
    let shown = if status == TaskStatus::Running && !observed.tmux_alive {
        TaskStatus::Done
    } else {
        status
    };
    let (duration_secs, duration_human, context_percent, current_tool) = match &observed.metrics {
        Some(m) => {
            let secs = m.duration_secs();
            (
                secs,
                match secs {
                    Some(s) => Some(format_duration(s)),
                    None => None,
                },
                Some(m.context_percent()),
                copy_opt_text(&m.current_tool),
            )
        },
        None => (None, None, None, None),
    };
    TaskMetrics {
        index,
        name: String::from_str(name),
        status: shown,
        duration_secs,
        duration_human,
        context_percent,
        current_tool,
        git: observed.git,
        idle_secs: observed.idle_secs,
        active: match observed.idle_secs {
            Some(idle) => Some(idle < crate::constants::IDLE_THRESHOLD_SECS),
            None => None,
        },
        tmux_alive: if shown == TaskStatus::Running {
            Some(observed.tmux_alive)
        } else {
            None
        },
        session_id: match instance {
            Some(i) => copy_opt_text(&i.session_id),
            None => None,
        },
        transcript_exists,
    }
}

/// Whether a transcript was found for `name`: what the first entry of `found` under that
/// name says, and nothing where there is none.
pub open spec fn transcript_found(found: Seq<(Seq<char>, bool)>, name: Seq<char>) -> Option<bool>
    decreases found.len(),
{
    if found.len() == 0 {
        None
    } else if found[0].0 == name {
        Some(found[0].1)
    } else {
        transcript_found(found.drop_first(), name)
    }
}

/// The views of a list of names with a truth value each.
pub open spec fn flags(v: Seq<(String, bool)>) -> Seq<(Seq<char>, bool)> {
    v.map_values(|p: (String, bool)| (p.0@, p.1))
}

fn find_flag(found: &Vec<(String, bool)>, name: &str) -> (r: Option<bool>)
    ensures
        r == transcript_found(flags(found@), name@),
{
    let ghost all = flags(found@);
    let mut i: usize = 0;
    assert(all.skip(0) =~= all);
    while i < found.len()
        invariant
            i <= found.len(),
            all == flags(found@),
            transcript_found(all, name@) == transcript_found(all.skip(i as int), name@),
        decreases found.len() - i,
    {
        proof {
            assert(all.skip(i as int)[0] == (found@[i as int].0@, found@[i as int].1));
            assert(all.skip(i as int).drop_first() =~= all.skip(i + 1));
        }
        if crate::text::same_text(found[i].0.as_str(), name) {
            return Some(found[i].1);
        }
        i += 1;
    }
    None
}

/// The store and the task reports after the tasks `l[..n]` were gone through in order: a
/// task that is running or done gets a report under its place in `l` as display index,
/// and a running task whose window is gone is marked as done.
pub open spec fn report_over(
    s: StoreModel,
    l: Seq<Task>,
    n: nat,
    observed: Seq<(Seq<char>, ObservationModel)>,
    found: Seq<(Seq<char>, bool)>,
) -> (StoreModel, Seq<TaskMetricsModel>)
    decreases n,
{
    if n == 0 || n > l.len() {
        (s, Seq::<TaskMetricsModel>::empty())
    } else {
        let before = report_over(s, l, (n - 1) as nat, observed, found);
        let name = l[n - 1]@.name;
        let status = status_in(before.0.status, name);
        let o = observed_for(observed, name);
        if status != TaskStatus::Running && status != TaskStatus::Done {
            before
        } else {
            (
                if status == TaskStatus::Running && !o.tmux_alive {
                    marked(before.0, name, TaskStatus::Done)
                } else {
                    before.0
                },
                before.1.push(
                    metrics_for(
                        n as usize,
                        name,
                        status,
                        instance_in(before.0.status, name),
                        o,
                        transcript_found(found, name),
                    ),
                ),
            )
        }
    }
}

/// How many of the reports are of running tasks.
pub open spec fn running_count(ms: Seq<TaskMetricsModel>) -> nat
    decreases ms.len(),
{
    if ms.len() == 0 {
        0
    } else {
        running_count(ms.drop_last()) + if ms.last().status == TaskStatus::Running {
            1nat
        } else {
            0nat
        }
    }
}

/// The sum of the lines added, or of the lines deleted where `deletions` is set, over the
/// reports that hold what git reports; kept within the range of `i32`.
pub open spec fn changes_sum(ms: Seq<TaskMetricsModel>, deletions: bool) -> i32
    decreases ms.len(),
{
    if ms.len() == 0 {
        0
    } else {
        match ms.last().git {
            Some(g) => capped_add(
                changes_sum(ms.drop_last(), deletions),
                if deletions {
                    g.deletions
                } else {
                    g.additions
                },
            ),
            None => changes_sum(ms.drop_last(), deletions),
        }
    }
}

/// The counts over the reports.
pub open spec fn counts_of(ms: Seq<TaskMetricsModel>) -> StatusSummary {
    StatusSummary {
        running: running_count(ms) as usize,
        done: (ms.len() - running_count(ms)) as usize,
        total_additions: changes_sum(ms, false),
        total_deletions: changes_sum(ms, true),
    }
}

fn count_up(tasks: &Vec<TaskMetrics>) -> (r: StatusSummary)
    ensures
        r == counts_of(all_metrics(tasks@)),
{
    let ghost ms = all_metrics(tasks@);
    let mut running: usize = 0;
    let mut additions: i32 = 0;
    let mut deletions: i32 = 0;
    let mut i: usize = 0;
    assert(ms.take(0) =~= Seq::<TaskMetricsModel>::empty());
    while i < tasks.len()
        invariant
            i <= tasks.len(),
            ms == all_metrics(tasks@),
            running <= i,
            running == running_count(ms.take(i as int)),
            additions == changes_sum(ms.take(i as int), false),
            deletions == changes_sum(ms.take(i as int), true),
        decreases tasks.len() - i,
    {
        proof {
            assert(ms.take(i + 1).drop_last() =~= ms.take(i as int));
            assert(ms.take(i + 1).last() == tasks@[i as int]@);
        }
        if tasks[i].status == TaskStatus::Running {
            running += 1;
        }
        match tasks[i].git {
            Some(g) => {
                additions = crate::commands::status::add_capped(additions, g.additions);
                deletions = crate::commands::status::add_capped(deletions, g.deletions);
            },
            None => {},
        }
        i += 1;
    }
    assert(ms.take(tasks.len() as int) =~= ms);
    StatusSummary {
        running,
        done: tasks.len() - running,
        total_additions: additions,
        total_deletions: deletions,
    }
}

/// Goes through the defined tasks in the order of the listing by name and reports of each
/// that is running or done what is recorded of it and what was found out about it.
/// `found` tells of which tasks a transcript was looked for, and whether it was there. A
/// running task whose window was found gone is marked as done in `store` and reported as
/// done.
pub fn display_status(
    store: &mut TaskStore,
    observed: &Vec<(String, Observation)>,
    found: &Vec<(String, bool)>,
) -> (r: StatusOutput)
    ensures
        exists|l: Seq<Task>| #[trigger]
            old(store).is_listing(l) && (final(store)@, all_metrics(r.tasks@)) == report_over(
                old(store)@,
                l,
                l.len(),
                observations(observed@),
                flags(found@),
            ),
        r.summary == counts_of(all_metrics(r.tasks@)),
{
    let mut names: Vec<String> = Vec::new();
    let ghost l;
    {
        let listed = store.list();
        proof {
            l = targets(listed@);
        }
        let mut i: usize = 0;
        while i < listed.len()
            invariant
                i <= listed.len(),
                l == targets(listed@),
                names.len() == i,
                forall|k: int| 0 <= k < i ==> (#[trigger] names@[k])@ == l[k]@.name,
            decreases listed.len() - i,
        {
            names.push(String::from_str(listed[i].name()));
            i += 1;
        }
        assert(store.is_listing(l));
    }
    let ghost start = store@;
    let blank = Observation { tmux_alive: false, metrics: None, git: None, idle_secs: None };
    let mut tasks: Vec<TaskMetrics> = Vec::new();
    let mut i: usize = 0;
    assert(all_metrics(tasks@) =~= Seq::<TaskMetricsModel>::empty());
    while i < names.len()
        invariant
            i <= names.len(),
            names.len() == l.len(),
            forall|k: int| 0 <= k < names.len() ==> (#[trigger] names@[k])@ == l[k]@.name,
            blank@ == (ObservationModel {
                tmux_alive: false,
                metrics: None,
                git: None,
                idle_secs: None,
            }),
            (store@, all_metrics(tasks@)) == report_over(
                start,
                l,
                i as nat,
                observations(observed@),
                flags(found@),
            ),
        decreases names.len() - i,
    {
        let name = &names[i];
        let status = store.get_status(name.as_str());
        if status == TaskStatus::Running || status == TaskStatus::Done {
            let o = match find_observation(observed, name.as_str()) {
                Some(o) => o,
                None => &blank,
            };
            let row = task_metrics(
                i + 1,
                name.as_str(),
                status,
                store.get_instance(name.as_str()),
                o,
                find_flag(found, name.as_str()),
            );
            let ghost before = tasks@;
            tasks.push(row);
            assert(all_metrics(tasks@) =~= all_metrics(before).push(row@));
            let _ = auto_mark_done_if_needed(store, name.as_str(), o.tmux_alive);
        }
        i += 1;
    }
    let summary = count_up(&tasks);
    StatusOutput { tasks, summary }
}

/// What is added to the line of a running task: that its window is closed, or else that
/// it is idle.
pub open spec fn state_suffix(m: TaskMetricsModel) -> Seq<char> {
    if m.status != TaskStatus::Running {
        Seq::<char>::empty()
    } else if m.tmux_alive == Some(false) {
        " (tmux closed)"@
    } else if m.active == Some(false) {
        " (idle)"@
    } else {
        Seq::<char>::empty()
    }
}

/// The symbol of a task in the report: for a running task the symbol of its activity,
/// else the symbol of its status; in colour where `color` is set.
pub open spec fn report_symbol(m: TaskMetricsModel, color: bool) -> Seq<char> {
    if m.status == TaskStatus::Running {
        let look = running_look(m.tmux_alive, m.active);
        if color {
            look.1 + look.0 + "\x1b[0m"@
        } else {
            look.0
        }
    } else {
        m.status.colored_symbol(color)
    }
}

/// The first line of a task in the report: its index, symbol, name and status, and what
/// is to be said of its session.
pub open spec fn head_line(m: TaskMetricsModel, color: bool) -> Seq<char> {
    index_text(m.index as nat) + " "@ + report_symbol(m, color) + " "@ + m.name + " ("@
        + m.status.label() + ")"@ + state_suffix(m)
}

/// The line that tells how long a task has run, where that is known.
pub open spec fn duration_lines(duration: Option<Seq<char>>) -> Seq<Seq<char>> {
    match duration {
        Some(d) => seq!["    Duration: "@ + d],
        None => Seq::<Seq<char>>::empty(),
    }
}

/// The line that tells of the lines added and deleted, where any were.
pub open spec fn changes_lines(g: GitMetrics) -> Seq<Seq<char>> {
    if g.additions > 0 || g.deletions > 0 {
        seq![
            "    Changes:  +"@ + signed_decimal(g.additions as int) + " -"@ + signed_decimal(
                g.deletions as int,
            ),
        ]
    } else {
        Seq::<Seq<char>>::empty()
    }
}

/// The line that tells of the commits, where there are any.
pub open spec fn commits_lines(g: GitMetrics) -> Seq<Seq<char>> {
    if g.commits > 0 {
        seq!["    Commits:  "@ + signed_decimal(g.commits as int)]
    } else {
        Seq::<Seq<char>>::empty()
    }
}

/// The lines that tell what git reports of a task, where that is known.
pub open spec fn git_lines(git: Option<GitMetrics>) -> Seq<Seq<char>> {
    match git {
        Some(g) => changes_lines(g) + commits_lines(g),
        None => Seq::<Seq<char>>::empty(),
    }
}

/// The lines of one task in the report: its index, symbol, name and status; then its
/// duration, its changes and its commits, where there are any; then an empty line.
pub open spec fn task_lines(m: TaskMetricsModel, color: bool) -> Seq<Seq<char>> {
    seq![head_line(m, color)] + duration_lines(m.duration_human) + git_lines(m.git) + seq![
        Seq::<char>::empty(),
    ]
}

/// The lines of the tasks `ms` in the report, in order.
pub open spec fn tasks_lines(ms: Seq<TaskMetricsModel>, color: bool) -> Seq<Seq<char>>
    decreases ms.len(),
{
    if ms.len() == 0 {
        Seq::<Seq<char>>::empty()
    } else {
        tasks_lines(ms.drop_last(), color) + task_lines(ms.last(), color)
    }
}

/// The last line of the report: the counts.
pub open spec fn summary_line(s: StatusSummary) -> Seq<char> {
    "Summary: "@ + decimal(s.running as nat) + " running, "@ + decimal(s.done as nat)
        + " done | +"@ + signed_decimal(s.total_additions as int) + " -"@ + signed_decimal(
        s.total_deletions as int,
    )
}

/// The report in words, line by line.
pub open spec fn report_lines(ms: Seq<TaskMetricsModel>, s: StatusSummary, color: bool) -> Seq<
    Seq<char>,
> {
    if ms.len() == 0 {
        seq!["No running or done tasks."@]
    } else {
        seq!["Tasks:"@, Seq::<char>::empty()] + tasks_lines(ms, color) + seq![
            "---"@,
            summary_line(s),
        ]
    }
}

fn write_symbol(m: &TaskMetrics, color: bool) -> (r: String)
    ensures
        r@ == report_symbol(m@, color),
{
    if m.status == TaskStatus::Running {
        let (icon, code) = running_icon(m.tmux_alive, m.active);
        if color {
            let mut r = String::from_str(code);
            r.append(icon);
            r.append(crate::display::RESET);
            r
        } else {
            String::from_str(icon)
        }
    } else {
        m.status.colored_icon(color)
    }
}

fn write_suffix(m: &TaskMetrics) -> (r: &'static str)
    ensures
        r@ == state_suffix(m@),
{
    let margin: &'static str = "";
    proof {
        reveal_strlit("");
        assert(""@ =~= Seq::<char>::empty());
    }
    if m.status == TaskStatus::Running {
        match m.tmux_alive {
            Some(false) => " (tmux closed)",
            _ => match m.active {
                Some(false) => " (idle)",
                _ => margin,
            },
        }
    } else {
        margin
    }
}

fn write_head(m: &TaskMetrics, color: bool) -> (r: String)
    ensures
        r@ == head_line(m@, color),
{
    let mut head = colored_index(m.index);
    head.append(" ");
    head.append(write_symbol(m, color).as_str());
    head.append(" ");
    head.append(m.name.as_str());
    head.append(" (");
    head.append(m.status.display_name());
    head.append(")");
    head.append(write_suffix(m));
    head
}

fn push_git(g: GitMetrics, out: &mut Vec<String>)
    ensures
        texts(final(out)@) == texts(old(out)@) + git_lines(Some(g)),
{
    let ghost start = texts(out@);
    if g.additions > 0 || g.deletions > 0 {
        let mut line = String::from_str("    Changes:  +");
        push_signed_decimal(&mut line, g.additions as i64);
        line.append(" -");
        push_signed_decimal(&mut line, g.deletions as i64);
        out.push(line);
    }
    let ghost first = texts(out@);
    assert(first =~= start + changes_lines(g));
    if g.commits > 0 {
        let mut line = String::from_str("    Commits:  ");
        push_signed_decimal(&mut line, g.commits as i64);
        out.push(line);
    }
    assert(texts(out@) =~= first + commits_lines(g));
    assert(texts(out@) =~= start + (changes_lines(g) + commits_lines(g)));
}

fn write_task(m: &TaskMetrics, color: bool, out: &mut Vec<String>)
    ensures
        texts(final(out)@) == texts(old(out)@) + task_lines(m@, color),
{
    let ghost start = texts(out@);
    let head = write_head(m, color);
    out.push(head);
    let ghost first = texts(out@);
    assert(first =~= start + seq![head_line(m@, color)]);
    match &m.duration_human {
        Some(d) => {
            let mut line = String::from_str("    Duration: ");
            line.append(d.as_str());
            out.push(line);
        },
        None => {},
    }
    let ghost second = texts(out@);
    assert(second =~= first + duration_lines(m@.duration_human));
    match m.git {
        Some(g) => {
            push_git(g, out);
        },
        None => {},
    }
    let ghost third = texts(out@);
    assert(third =~= second + git_lines(m@.git));
    out.push(String::new());
    assert(texts(out@) =~= third + seq![Seq::<char>::empty()]);
    assert(texts(out@) =~= start + task_lines(m@, color));
}

/// The report of the `status` command in words. Each line ends with a line feed.
pub fn print_human_readable(output: &StatusOutput, color: bool) -> (r: String)
    ensures
        r@ == joined(report_lines(all_metrics(output.tasks@), output.summary, color), "\n"@)
            + "\n"@,
{
    let ghost ms = all_metrics(output.tasks@);
    let mut out: Vec<String> = Vec::new();
    if output.tasks.len() == 0 {
        out.push(String::from_str("No running or done tasks."));
        assert(texts(out@) =~= report_lines(ms, output.summary, color));
    } else {
        out.push(String::from_str("Tasks:"));
        out.push(String::new());
        let ghost head = texts(out@);
        assert(head =~= seq!["Tasks:"@, Seq::<char>::empty()]);
        let mut i: usize = 0;
        assert(ms.take(0) =~= Seq::<TaskMetricsModel>::empty());
        assert(head + tasks_lines(ms.take(0), color) =~= head);
        while i < output.tasks.len()
            invariant
                i <= output.tasks.len(),
                ms == all_metrics(output.tasks@),
                texts(out@) == head + tasks_lines(ms.take(i as int), color),
            decreases output.tasks.len() - i,
        {
            proof {
                assert(ms.take(i + 1).drop_last() =~= ms.take(i as int));
                assert(ms.take(i + 1).last() == output.tasks@[i as int]@);
            }
            write_task(&output.tasks[i], color, &mut out);
            assert(texts(out@) =~= head + (tasks_lines(ms.take(i as int), color) + task_lines(
                output.tasks@[i as int]@,
                color,
            )));
            i += 1;
        }
        assert(ms.take(output.tasks.len() as int) =~= ms);
        let ghost body = texts(out@);
        out.push(String::from_str("---"));
        let mut line = String::from_str("Summary: ");
        push_decimal(&mut line, output.summary.running as u64);
        line.append(" running, ");
        push_decimal(&mut line, output.summary.done as u64);
        line.append(" done | +");
        push_signed_decimal(&mut line, output.summary.total_additions as i64);
        line.append(" -");
        push_signed_decimal(&mut line, output.summary.total_deletions as i64);
        assert(line@ =~= summary_line(output.summary));
        out.push(line);
        assert(texts(out@) =~= body + seq!["---"@, summary_line(output.summary)]);
        assert(texts(out@) =~= report_lines(ms, output.summary, color));
    }
    let mut r = join(&out, "\n");
    r.append("\n");
    r
}

/// The members that every report of a task has: index, name and status.
pub open spec fn head_members(m: TaskMetricsModel) -> Seq<Seq<char>> {
    seq![
        member("index"@, decimal(m.index as nat)),
        member("name"@, json_string(m.name)),
        member("status"@, json_string(m.status.label())),
    ]
}

/// The members for what the transcript of a task says, each where it is known.
pub open spec fn known_members(m: TaskMetricsModel) -> Seq<Seq<char>> {
    maybe(
        match m.duration_secs {
            Some(d) => Some(member("duration_secs"@, signed_decimal(d as int))),
            None => None,
        },
    ) + maybe(
        match m.duration_human {
            Some(d) => Some(member("duration_human"@, json_string(d))),
            None => None,
        },
    ) + maybe(
        match m.context_percent {
            Some(p) => Some(member("context_percent"@, decimal(p as nat))),
            None => None,
        },
    ) + maybe(
        match m.current_tool {
            Some(t) => Some(member("current_tool"@, json_string(t))),
            None => None,
        },
    )
}

/// The members for what git reports of a worktree, where that is known: its four numbers.
pub open spec fn git_members(git: Option<GitMetrics>) -> Seq<Seq<char>> {
    match git {
        Some(g) => seq![
            member("additions"@, signed_decimal(g.additions as int)),
            member("deletions"@, signed_decimal(g.deletions as int)),
            member("commits"@, signed_decimal(g.commits as int)),
            member("has_conflict"@, bool_text(g.has_conflict)),
        ],
        None => Seq::<Seq<char>>::empty(),
    }
}

/// The members for the state of a task's session, each where it is known.
pub open spec fn state_members(m: TaskMetricsModel) -> Seq<Seq<char>> {
    maybe(
        match m.idle_secs {
            Some(i) => Some(member("idle_secs"@, decimal(i as nat))),
            None => None,
        },
    ) + maybe(
        match m.active {
            Some(a) => Some(member("active"@, bool_text(a))),
            None => None,
        },
    ) + maybe(
        match m.tmux_alive {
            Some(a) => Some(member("tmux_alive"@, bool_text(a))),
            None => None,
        },
    ) + maybe(
        match m.session_id {
            Some(s) => Some(member("session_id"@, json_string(s))),
            None => None,
        },
    ) + maybe(
        match m.transcript_exists {
            Some(e) => Some(member("transcript_exists"@, bool_text(e))),
            None => None,
        },
    )
}

/// The members of the report of one task: index, name and status, then what is known of
/// the task, in the order of the fields; what git reports stands among them with its four
/// numbers.
pub open spec fn metrics_members(m: TaskMetricsModel) -> Seq<Seq<char>> {
    head_members(m) + known_members(m) + git_members(m.git) + state_members(m)
}

/// The members of the counts.
pub open spec fn summary_members(s: StatusSummary) -> Seq<Seq<char>> {
    seq![
        member("running"@, decimal(s.running as nat)),
        member("done"@, decimal(s.done as nat)),
        member("total_additions"@, signed_decimal(s.total_additions as int)),
        member("total_deletions"@, signed_decimal(s.total_deletions as int)),
    ]
}

/// The report as JSON in the indented form: the tasks and the counts.
pub open spec fn report_json(ms: Seq<TaskMetricsModel>, s: StatusSummary) -> Seq<char> {
    object_text(
        seq![
            member(
                "tasks"@,
                array_text(
                    ms.map_values(|m: TaskMetricsModel| object_text(metrics_members(m), "    "@)),
                    "  "@,
                ),
            ),
            member("summary"@, object_text(summary_members(s), "  "@)),
        ],
        Seq::<char>::empty(),
    )
}

fn write_known(m: &TaskMetrics) -> (f: Vec<String>)
    ensures
        texts(f@) == known_members(m@),
{
    let mut f: Vec<String> = Vec::new();
    assert(texts(f@) =~= Seq::<Seq<char>>::empty());
    push_maybe(
        &mut f,
        match m.duration_secs {
            Some(d) => Some(number_member("duration_secs", d)),
            None => None,
        },
    );
    let ghost a = texts(f@);
    push_maybe(
        &mut f,
        match &m.duration_human {
            Some(d) => Some(text_member("duration_human", d.as_str())),
            None => None,
        },
    );
    let ghost b = texts(f@);
    push_maybe(
        &mut f,
        match m.context_percent {
            Some(p) => Some(count_member("context_percent", p as u64)),
            None => None,
        },
    );
    let ghost c = texts(f@);
    push_maybe(
        &mut f,
        match &m.current_tool {
            Some(t) => Some(text_member("current_tool", t.as_str())),
            None => None,
        },
    );
    proof {
        let m1 = maybe(
            match m@.duration_secs {
                Some(d) => Some(member("duration_secs"@, signed_decimal(d as int))),
                None => None,
            },
        );
        assert(a =~= m1);
    }
    f
}

fn write_git(git: Option<GitMetrics>) -> (f: Vec<String>)
    ensures
        texts(f@) == git_members(git),
{
    let mut f: Vec<String> = Vec::new();
    match git {
        Some(g) => {
            f.push(number_member("additions", g.additions as i64));
            f.push(number_member("deletions", g.deletions as i64));
            f.push(number_member("commits", g.commits as i64));
            f.push(bool_member("has_conflict", g.has_conflict));
            assert(texts(f@) =~= git_members(git));
        },
        None => {
            assert(texts(f@) =~= git_members(git));
        },
    }
    f
}

fn write_state(m: &TaskMetrics) -> (f: Vec<String>)
    ensures
        texts(f@) == state_members(m@),
{
    let mut f: Vec<String> = Vec::new();
    assert(texts(f@) =~= Seq::<Seq<char>>::empty());
    push_maybe(
        &mut f,
        match m.idle_secs {
            Some(i) => Some(count_member("idle_secs", i)),
            None => None,
        },
    );
    let ghost a = texts(f@);
    push_maybe(
        &mut f,
        match m.active {
            Some(x) => Some(bool_member("active", x)),
            None => None,
        },
    );
    push_maybe(
        &mut f,
        match m.tmux_alive {
            Some(x) => Some(bool_member("tmux_alive", x)),
            None => None,
        },
    );
    push_maybe(
        &mut f,
        match &m.session_id {
            Some(s) => Some(text_member("session_id", s.as_str())),
            None => None,
        },
    );
    push_maybe(
        &mut f,
        match m.transcript_exists {
            Some(x) => Some(bool_member("transcript_exists", x)),
            None => None,
        },
    );
    proof {
        let m1 = maybe(
            match m@.idle_secs {
                Some(i) => Some(member("idle_secs"@, decimal(i as nat))),
                None => None,
            },
        );
        assert(a =~= m1);
    }
    f
}

fn write_metrics(m: &TaskMetrics) -> (r: String)
    ensures
        r@ == object_text(metrics_members(m@), "    "@),
{
    let mut f: Vec<String> = Vec::new();
    f.push(count_member("index", m.index as u64));
    f.push(text_member("name", m.name.as_str()));
    f.push(text_member("status", m.status.display_name()));
    assert(texts(f@) =~= head_members(m@));
    let mut known = write_known(m);
    let mut git = write_git(m.git);
    let mut state = write_state(m);
    let ghost a = texts(f@);
    let ghost kb = texts(known@);
    let ghost gb = texts(git@);
    let ghost sb = texts(state@);
    f.append(&mut known);
    assert(texts(f@) =~= a + kb);
    f.append(&mut git);
    assert(texts(f@) =~= a + kb + gb);
    f.append(&mut state);
    assert(texts(f@) =~= a + kb + gb + sb);
    object(&f, "    ")
}

/// The report of the `status` command as JSON.
pub fn to_json(output: &StatusOutput) -> (r: String)
    ensures
        r@ == report_json(all_metrics(output.tasks@), output.summary),
{
    let ghost ms = all_metrics(output.tasks@);
    let mut items: Vec<String> = Vec::new();
    let mut i: usize = 0;
    while i < output.tasks.len()
        invariant
            i <= output.tasks.len(),
            ms == all_metrics(output.tasks@),
            items.len() == i,
            forall|k: int|
                0 <= k < i ==> (#[trigger] items@[k])@ == object_text(
                    metrics_members(ms[k]),
                    "    "@,
                ),
        decreases output.tasks.len() - i,
    {
        items.push(write_metrics(&output.tasks[i]));
        i += 1;
    }
    assert(texts(items@) =~= ms.map_values(
        |m: TaskMetricsModel| object_text(metrics_members(m), "    "@),
    ));
    let s = output.summary;
    let mut counts: Vec<String> = Vec::new();
    counts.push(count_member("running", s.running as u64));
    counts.push(count_member("done", s.done as u64));
    counts.push(number_member("total_additions", s.total_additions as i64));
    counts.push(number_member("total_deletions", s.total_deletions as i64));
    assert(texts(counts@) =~= summary_members(s));
    let mut top: Vec<String> = Vec::new();
    top.push(raw_member("tasks", array(&items, "  ").as_str()));
    top.push(raw_member("summary", object(&counts, "  ").as_str()));
    assert(texts(top@) =~= seq![
        member(
            "tasks"@,
            array_text(
                ms.map_values(|m: TaskMetricsModel| object_text(metrics_members(m), "    "@)),
                "  "@,
            ),
        ),
        member("summary"@, object_text(summary_members(s), "  "@)),
    ]);
    let margin = String::new();
    object(&top, margin.as_str())
}

} // verus!
