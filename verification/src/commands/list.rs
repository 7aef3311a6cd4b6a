//! The listing of all tasks: as JSON, or in groups by what can be done with them.

use vstd::prelude::*;
use crate::commands::next::{display_index, index_of, is_ready, json_array, write_json_array};
use crate::display::{colored_index, index_text};
use crate::models::json::{json_quote, json_string};
use crate::models::status::status_in;
use crate::models::store::{StoreModel, TaskStore, targets};
use crate::models::task::{Task, TaskModel, TaskStatus};
use crate::text::{decimal, join, joined, push_decimal, texts};

verus! {

/// How a task is written as JSON: its display index, name, status and dependencies.
pub open spec fn task_json(s: StoreModel, index: nat, t: TaskModel) -> Seq<char> {
    "{\"index\":"@ + decimal(index) + ",\"name\":"@ + json_string(t.name) + ",\"status\":"@
        + json_string(status_in(s.status, t.name).label()) + ",\"depends\":"@ + json_array(
        t.depends,
    ) + "}"@
}

/// The tasks of the listing `l` as JSON objects, each with its place as display index.
pub open spec fn tasks_json(s: StoreModel, l: Seq<Task>) -> Seq<Seq<char>> {
    Seq::new(l.len(), |i: int| task_json(s, (i + 1) as nat, l[i]@))
}

/// The listing `l` as JSON.
pub open spec fn list_json(s: StoreModel, l: Seq<Task>) -> Seq<char> {
    "{\"tasks\":["@ + joined(tasks_json(s, l), ","@) + "]}"@
}

/// The groups of the listing, in the order in which they are shown.
#[derive(Debug, Clone, Copy, PartialEq, Eq, Structural)]
pub enum Group {
    Archived,
    Merged,
    Running,
    Done,
    Ready,
    Blocked,
}

/// The group of a task: that of its status, and for a pending task whether it is ready
/// or blocked.
pub open spec fn group_of(s: StoreModel, t: TaskModel) -> Group {
    match status_in(s.status, t.name) {
        TaskStatus::Archived => Group::Archived,
        TaskStatus::Merged => Group::Merged,
        TaskStatus::Running => Group::Running,
        TaskStatus::Done => Group::Done,
        TaskStatus::Pending => if is_ready(s, t) {
            Group::Ready
        } else {
            Group::Blocked
        },
    }
}

/// The heading of a group.
pub open spec fn group_title(g: Group) -> Seq<char> {
    match g {
        Group::Archived => "Archived"@,
        Group::Merged => "Merged"@,
        Group::Running => "Running"@,
        Group::Done => "Done"@,
        Group::Ready => "Ready"@,
        Group::Blocked => "Blocked"@,
    }
}

/// The display index of a dependency in brackets; nothing for one that is not listed.
pub open spec fn index_mark(l: Seq<Task>, dep: Seq<char>) -> Seq<char> {
    if display_index(l, dep) == 0 {
        Seq::<char>::empty()
    } else {
        "["@ + decimal(display_index(l, dep)) + "]"@
    }
}

/// How a dependency is shown after a task of group `g`: with its display index and the
/// symbol of its status; after a blocked task without the index, and with the symbol of
/// pending where the task waits for it and of merged where it does not.
pub open spec fn dep_text(s: StoreModel, l: Seq<Task>, g: Group, dep: Seq<char>, color: bool) -> Seq<
    char,
> {
    if g == Group::Blocked {
        " "@ + dep + (if status_in(s.status, dep).settles() {
            TaskStatus::Merged.colored_symbol(color)
        } else {
            TaskStatus::Pending.colored_symbol(color)
        })
    } else {
        " "@ + dep + index_mark(l, dep) + status_in(s.status, dep).colored_symbol(color)
    }
}

/// The dependencies of a task as they are shown after it, with commas between them.
pub open spec fn deps_text(
    s: StoreModel,
    l: Seq<Task>,
    g: Group,
    deps: Seq<Seq<char>>,
    color: bool,
) -> Seq<char>
    decreases deps.len(),
{
    if deps.len() == 0 {
        Seq::<char>::empty()
    } else if deps.len() == 1 {
        dep_text(s, l, g, deps[0], color)
    } else {
        deps_text(s, l, g, deps.drop_last(), color) + ","@ + dep_text(s, l, g, deps.last(), color)
    }
}

/// The line of a task in its group: index, symbol and name, and for a task that is
/// neither archived nor merged its dependencies after an arrow.
pub open spec fn group_line(s: StoreModel, l: Seq<Task>, t: TaskModel, color: bool) -> Seq<char> {
    let g = group_of(s, t);
    let head = "  "@ + index_text(display_index(l, t.name)) + " "@ + status_in(
        s.status,
        t.name,
    ).colored_symbol(color) + " "@ + t.name;
    if g == Group::Archived || g == Group::Merged || t.depends.len() == 0 {
        head
    } else {
        head + " ←"@ + deps_text(s, l, g, t.depends, color)
    }
}

/// The lines of the tasks of `part` that belong to the group `g`, in order.
pub open spec fn group_lines(s: StoreModel, l: Seq<Task>, part: Seq<Task>, g: Group, color: bool) -> Seq<
    Seq<char>,
>
    decreases part.len(),
{
    if part.len() == 0 {
        Seq::<Seq<char>>::empty()
    } else if group_of(s, part.last()@) == g {
        group_lines(s, l, part.drop_last(), g, color).push(group_line(s, l, part.last()@, color))
    } else {
        group_lines(s, l, part.drop_last(), g, color)
    }
}

/// What is shown of the group `g`: nothing where it is empty; else its heading with the
/// number of its tasks, their lines, and an empty line unless it is the last group.
pub open spec fn section(s: StoreModel, l: Seq<Task>, g: Group, color: bool) -> Seq<Seq<char>> {
    let lines = group_lines(s, l, l, g, color);
    if lines.len() == 0 {
        Seq::<Seq<char>>::empty()
    } else {
        seq![group_title(g) + " ("@ + decimal(lines.len()) + "):"@] + lines + if g
            == Group::Blocked {
            Seq::<Seq<char>>::empty()
        } else {
            seq![Seq::<char>::empty()]
        }
    }
}

/// The listing `l` in groups, line by line.
pub open spec fn grouped_lines(s: StoreModel, l: Seq<Task>, color: bool) -> Seq<Seq<char>> {
    if l.len() == 0 {
        seq!["No tasks found in .wt/tasks/"@]
    } else {
        section(s, l, Group::Archived, color) + section(s, l, Group::Merged, color) + section(
            s,
            l,
            Group::Running,
            color,
        ) + section(s, l, Group::Done, color) + section(s, l, Group::Ready, color) + section(
            s,
            l,
            Group::Blocked,
            color,
        )
    }
}

fn group_for(store: &TaskStore, t: &Task) -> (r: Group)
    ensures
        r == group_of(store@, t@),
{
    match store.get_status(t.name()) {
        TaskStatus::Archived => Group::Archived,
        TaskStatus::Merged => Group::Merged,
        TaskStatus::Running => Group::Running,
        TaskStatus::Done => Group::Done,
        TaskStatus::Pending => {
            let waiting = crate::commands::next::waiting_for(store, t);
            if waiting.len() == 0 {
                Group::Ready
            } else {
                Group::Blocked
            }
        },
    }
}

fn write_dep(store: &TaskStore, tasks: &Vec<&Task>, g: Group, dep: &str, color: bool) -> (r:
    String)
    ensures
        r@ == dep_text(store@, targets(tasks@), g, dep@, color),
{
    let mut r = String::from_str(" ");
    r.append(dep);
    let status = store.get_status(dep);
    if g == Group::Blocked {
        if status.is_settled() {
            r.append(TaskStatus::Merged.colored_icon(color).as_str());
        } else {
            r.append(TaskStatus::Pending.colored_icon(color).as_str());
        }
    } else {
        let at = index_of(tasks, dep);
        let ghost before = r@;
        if at != 0 {
            r.append("[");
            push_decimal(&mut r, at as u64);
            r.append("]");
            assert(r@ =~= before + index_mark(targets(tasks@), dep@));
        } else {
            assert(r@ =~= before + index_mark(targets(tasks@), dep@));
        }
        r.append(status.colored_icon(color).as_str());
    }
    r
}

fn write_line(store: &TaskStore, tasks: &Vec<&Task>, t: &Task, color: bool) -> (r: String)
    ensures
        r@ == group_line(store@, targets(tasks@), t@, color),
{
    let g = group_for(store, t);
    let mut r = String::from_str("  ");
    r.append(colored_index(index_of(tasks, t.name())).as_str());
    r.append(" ");
    r.append(store.get_status(t.name()).colored_icon(color).as_str());
    r.append(" ");
    r.append(t.name());
    let deps = &t.frontmatter.depends;
    if g == Group::Archived || g == Group::Merged || deps.len() == 0 {
        return r;
    }
    r.append(" ←");
    let ghost head = r@;
    let ghost l = targets(tasks@);
    let mut i: usize = 0;
    assert(head + deps_text(store@, l, g, texts(deps@).take(0), color) =~= head);
    while i < deps.len()
        invariant
            i <= deps.len(),
            l == targets(tasks@),
            deps == &t.frontmatter.depends,
            r@ == head + deps_text(store@, l, g, texts(deps@).take(i as int), color),
        decreases deps.len() - i,
    {
        proof {
            assert(texts(deps@).take(i + 1).drop_last() =~= texts(deps@).take(i as int));
            assert(texts(deps@).take(i + 1).last() == deps@[i as int]@);
        }
        if i > 0 {
            r.append(",");
        }
        let d = write_dep(store, tasks, g, deps[i].as_str(), color);
        r.append(d.as_str());
        proof {
            let e = dep_text(store@, l, g, deps@[i as int]@, color);
            if i == 0 {
                assert(texts(deps@).take(1)[0] == deps@[0]@);
                assert(r@ =~= head + e);
            } else {
                assert(r@ =~= head + (deps_text(
                    store@,
                    l,
                    g,
                    texts(deps@).take(i as int),
                    color,
                ) + ","@ + e));
            }
        }
        i += 1;
    }
    assert(texts(deps@).take(deps.len() as int) =~= texts(deps@));
    r
}

fn write_section(store: &TaskStore, tasks: &Vec<&Task>, g: Group, color: bool, out: &mut Vec<
    String,
>)
    ensures
        texts(final(out)@) == texts(old(out)@) + section(store@, targets(tasks@), g, color),
{
    let ghost l = targets(tasks@);
    let ghost start = texts(out@);
    let mut lines: Vec<String> = Vec::new();
    let mut i: usize = 0;
    assert(l.take(0) =~= Seq::<Task>::empty());
    assert(texts(lines@) =~= Seq::<Seq<char>>::empty());
    while i < tasks.len()
        invariant
            i <= tasks.len(),
            l == targets(tasks@),
            texts(lines@) == group_lines(store@, l, l.take(i as int), g, color),
        decreases tasks.len() - i,
    {
        let t = tasks[i];
        proof {
            assert(l.take(i + 1).drop_last() =~= l.take(i as int));
            assert(l.take(i + 1).last() == *t);
        }
        if group_for(store, t) == g {
            let ghost before = lines@;
            let line = write_line(store, tasks, t, color);
            lines.push(line);
            assert(texts(lines@) =~= texts(before).push(line@));
        }
        i += 1;
    }
    assert(l.take(tasks.len() as int) =~= l);
    if lines.len() == 0 {
        assert(texts(out@) =~= start + section(store@, l, g, color));
        return;
    }
    let mut title = String::from_str(
        match g {
            Group::Archived => "Archived",
            Group::Merged => "Merged",
            Group::Running => "Running",
            Group::Done => "Done",
            Group::Ready => "Ready",
            Group::Blocked => "Blocked",
        },
    );
    title.append(" (");
    push_decimal(&mut title, lines.len() as u64);
    title.append("):");
    let ghost body = texts(lines@);
    out.push(title);
    assert(texts(out@) =~= start.push(title@));
    out.append(&mut lines);
    assert(texts(out@) =~= start.push(title@) + body);
    if g != Group::Blocked {
        out.push(String::new());
        assert(texts(out@) =~= start.push(title@) + body + seq![Seq::<char>::empty()]);
    }
    assert(texts(out@) =~= start + section(store@, l, g, color));
}

/// What the `list` command prints: every defined task in the order of the listing by
/// name, as JSON on one line, as a tree, or in groups by status. Each line ends with a
/// line feed.
pub fn execute(store: &TaskStore, tree: bool, json: bool, color: bool) -> (r: String)
    ensures
        exists|l: Seq<Task>| #[trigger]
            store.is_listing(l) && r@ == if json {
                list_json(store@, l) + "\n"@
            } else if tree {
                joined(crate::commands::tree::tree_lines(store@, l, color), "\n"@) + "\n"@
            } else {
                joined(grouped_lines(store@, l, color), "\n"@) + "\n"@
            },
{
    if tree && !json {
        let out = crate::commands::tree::lines(store, color);
        let mut r = join(&out, "\n");
        r.append("\n");
        return r;
    }
    let tasks = store.list();
    let ghost l = targets(tasks@);
    assert(store.is_listing(l));
    if json {
        let mut items: Vec<String> = Vec::new();
        let mut i: usize = 0;
        while i < tasks.len()
            invariant
                i <= tasks.len(),
                l == targets(tasks@),
                items.len() == i,
                forall|k: int|
                    0 <= k < i ==> (#[trigger] items@[k])@ == task_json(
                        store@,
                        (k + 1) as nat,
                        l[k]@,
                    ),
            decreases tasks.len() - i,
        {
            let t = tasks[i];
            assert(*t == l[i as int]);
            let mut item = String::from_str("{\"index\":");
            push_decimal(&mut item, (i + 1) as u64);
            item.append(",\"name\":");
            item.append(json_quote(t.name()).as_str());
            item.append(",\"status\":");
            item.append(json_quote(store.get_status(t.name()).display_name()).as_str());
            item.append(",\"depends\":");
            item.append(write_json_array(&t.frontmatter.depends).as_str());
            item.append("}");
            items.push(item);
            i += 1;
        }
        assert(texts(items@) =~= tasks_json(store@, l));
        let mut r = String::from_str("{\"tasks\":[");
        r.append(join(&items, ",").as_str());
        r.append("]}");
        r.append("\n");
        r
    } else {
        let mut out: Vec<String> = Vec::new();
        if tasks.len() == 0 {
            out.push(String::from_str("No tasks found in .wt/tasks/"));
            assert(texts(out@) =~= grouped_lines(store@, l, color));
        } else {
            assert(texts(out@) =~= Seq::<Seq<char>>::empty());
            write_section(store, &tasks, Group::Archived, color, &mut out);
            write_section(store, &tasks, Group::Merged, color, &mut out);
            write_section(store, &tasks, Group::Running, color, &mut out);
            write_section(store, &tasks, Group::Done, color, &mut out);
            write_section(store, &tasks, Group::Ready, color, &mut out);
            write_section(store, &tasks, Group::Blocked, color, &mut out);
            assert(texts(out@) =~= grouped_lines(store@, l, color));
        }
        let mut r = join(&out, "\n");
        r.append("\n");
        r
    }
}

} // verus!
