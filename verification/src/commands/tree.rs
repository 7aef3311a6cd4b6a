//! The listing of all tasks as a tree: each task stands under the tasks that it depends
//! on, at the first place where the tree comes by it.

use vstd::prelude::*;
use crate::models::status::status_in;
use crate::models::store::{StoreModel, TaskStore, targets};
use crate::models::task::{Task, TaskModel};
use crate::text::{join, joined, same_text, texts, texts_contain};

verus! {

/// How often `name` occurs in `deps`.
pub open spec fn occurrences(deps: Seq<Seq<char>>, name: Seq<char>) -> nat
    decreases deps.len(),
{
    if deps.len() == 0 {
        0
    } else {
        occurrences(deps.drop_last(), name) + if deps.last() == name {
            1nat
        } else {
            0nat
        }
    }
}

/// The places in `l` of the tasks that depend on `name`, in order; a task that names
/// `name` several times stands there as often.
pub open spec fn children_of(l: Seq<Task>, name: Seq<char>) -> Seq<usize>
    decreases l.len(),
{
    if l.len() == 0 {
        Seq::<usize>::empty()
    } else {
        children_of(l.drop_last(), name) + Seq::new(
            occurrences(l.last()@.depends, name),
            |k: int| (l.len() - 1) as usize,
        )
    }
}

/// The entries of `deps` other than `parent`, in order.
pub open spec fn without(deps: Seq<Seq<char>>, parent: Seq<char>) -> Seq<Seq<char>>
    decreases deps.len(),
{
    if deps.len() == 0 {
        Seq::<Seq<char>>::empty()
    } else if deps.last() == parent {
        without(deps.drop_last(), parent)
    } else {
        without(deps.drop_last(), parent).push(deps.last())
    }
}

/// What joins a task to the line above it: nothing for a task at the top, else a corner
/// for the last task under its parent and a tee for any other.
pub open spec fn connector(is_last: bool, is_root: bool) -> Seq<char> {
    if is_root {
        Seq::<char>::empty()
    } else if is_last {
        "└── "@
    } else {
        "├── "@
    }
}

/// What stands before the lines below a task: nothing below a task at the top, else the
/// task's own prefix, lengthened by blanks below a last task and by a bar below any other.
pub open spec fn child_prefix(prefix: Seq<char>, is_last: bool, is_root: bool) -> Seq<char> {
    if is_root {
        Seq::<char>::empty()
    } else if is_last {
        prefix + "    "@
    } else {
        prefix + "│   "@
    }
}

/// The line of a task in the tree: its name and the symbol of its status, and, under a
/// parent, the other tasks that it depends on.
pub open spec fn tree_line(
    s: StoreModel,
    t: TaskModel,
    prefix: Seq<char>,
    is_last: bool,
    is_root: bool,
    parent: Option<Seq<char>>,
    color: bool,
) -> Seq<char> {
    let others = match parent {
        Some(p) => without(t.depends, p),
        None => Seq::<Seq<char>>::empty(),
    };
    prefix + connector(is_last, is_root) + t.name + " ["@ + status_in(
        s.status,
        t.name,
    ).colored_symbol(color) + "]"@ + if others.len() == 0 {
        Seq::<char>::empty()
    } else {
        " (+"@ + joined(others, ", "@) + ")"@
    }
}

/// The lines of the tree under the task at place `i`, and the names that the tree has
/// come by after them. A task whose name the tree came by before gives no line. `depth`
/// bounds how far down the tree goes.
pub open spec fn node_lines(
    s: StoreModel,
    l: Seq<Task>,
    seen: Seq<Seq<char>>,
    i: usize,
    prefix: Seq<char>,
    is_last: bool,
    is_root: bool,
    parent: Option<Seq<char>>,
    color: bool,
    depth: nat,
) -> (Seq<Seq<char>>, Seq<Seq<char>>)
    decreases depth, 0nat, 0nat,
{
    let t = l[i as int]@;
    if depth == 0 || seen.contains(t.name) {
        (Seq::<Seq<char>>::empty(), seen)
    } else {
        let below = kids_lines(
            s,
            l,
            seen.push(t.name),
            children_of(l, t.name),
            0,
            child_prefix(prefix, is_last, is_root),
            t.name,
            color,
            (depth - 1) as nat,
        );
        (seq![tree_line(s, t, prefix, is_last, is_root, parent, color)] + below.0, below.1)
    }
}

/// The lines of the tree under the tasks `kids[k..]`, which all depend on `parent`, and
/// the names that the tree has come by after them.
pub open spec fn kids_lines(
    s: StoreModel,
    l: Seq<Task>,
    seen: Seq<Seq<char>>,
    kids: Seq<usize>,
    k: nat,
    prefix: Seq<char>,
    parent: Seq<char>,
    color: bool,
    depth: nat,
) -> (Seq<Seq<char>>, Seq<Seq<char>>)
    decreases depth, 1nat, kids.len() - k,
{
    if k >= kids.len() {
        (Seq::<Seq<char>>::empty(), seen)
    } else {
        let first = node_lines(
            s,
            l,
            seen,
            kids[k as int],
            prefix,
            k + 1 == kids.len(),
            false,
            Some(parent),
            color,
            depth,
        );
        let rest = kids_lines(s, l, first.1, kids, k + 1, prefix, parent, color, depth);
        (first.0 + rest.0, rest.1)
    }
}

/// The lines of the trees that start at the tasks `l[j..]`, taken in order, and the names
/// that they have come by; where `roots_only` is set, only tasks without dependencies
/// start a tree.
pub open spec fn pass_lines(
    s: StoreModel,
    l: Seq<Task>,
    seen: Seq<Seq<char>>,
    j: nat,
    roots_only: bool,
    color: bool,
) -> (Seq<Seq<char>>, Seq<Seq<char>>)
    decreases l.len() - j,
{
    if j >= l.len() {
        (Seq::<Seq<char>>::empty(), seen)
    } else {
        let first = if roots_only && l[j as int]@.depends.len() > 0 {
            (Seq::<Seq<char>>::empty(), seen)
        } else {
            node_lines(
                s,
                l,
                seen,
                j as usize,
                Seq::<char>::empty(),
                true,
                true,
                None,
                color,
                l.len(),
            )
        };
        let rest = pass_lines(s, l, first.1, j + 1, roots_only, color);
        (first.0 + rest.0, rest.1)
    }
}

/// The tree view of the listing `l`, line by line: first the trees of the tasks that
/// depend on nothing, then the trees of what is left.
pub open spec fn tree_lines(s: StoreModel, l: Seq<Task>, color: bool) -> Seq<Seq<char>> {
    if l.len() == 0 {
        seq!["No tasks found in .wt/tasks/"@]
    } else {
        let roots = pass_lines(s, l, Seq::empty(), 0, true, color);
        roots.0 + pass_lines(s, l, roots.1, 0, false, color).0
    }
}

fn kids_of(tasks: &Vec<&Task>, name: &str) -> (r: Vec<usize>)
    ensures
        r@ == children_of(targets(tasks@), name@),
        forall|k: int| 0 <= k < r.len() ==> (#[trigger] r@[k]) < tasks.len(),
{
    let ghost l = targets(tasks@);
    let mut r: Vec<usize> = Vec::new();
    let mut j: usize = 0;
    assert(l.take(0) =~= Seq::<Task>::empty());
    while j < tasks.len()
        invariant
            j <= tasks.len(),
            l == targets(tasks@),
            r@ == children_of(l.take(j as int), name@),
            forall|k: int| 0 <= k < r.len() ==> (#[trigger] r@[k]) < tasks.len(),
        decreases tasks.len() - j,
    {
        let deps = &tasks[j].frontmatter.depends;
        let ghost before = r@;
        let ghost all = texts(deps@);
        proof {
            assert(l.take(j + 1).drop_last() =~= l.take(j as int));
            assert(l.take(j + 1).last() == *tasks@[j as int]);
            assert(all.take(0) =~= Seq::<Seq<char>>::empty());
            assert(before + Seq::new(0, |k: int| j) =~= before);
        }
        let mut d: usize = 0;
        while d < deps.len()
            invariant
                d <= deps.len(),
                j < tasks.len(),
                all == texts(deps@),
                r@ == before + Seq::new(occurrences(all.take(d as int), name@), |k: int| j),
                forall|k: int| 0 <= k < before.len() ==> (#[trigger] before[k]) < tasks.len(),
            decreases deps.len() - d,
        {
            proof {
                assert(all.take(d + 1).drop_last() =~= all.take(d as int));
                assert(all.take(d + 1).last() == deps@[d as int]@);
            }
            if same_text(deps[d].as_str(), name) {
                r.push(j);
                assert(r@ =~= before + Seq::new(
                    occurrences(all.take(d + 1), name@),
                    |k: int| j,
                ));
            }
            d += 1;
        }
        proof {
            assert(all.take(deps.len() as int) =~= all);
            assert((l.take(j + 1).len() - 1) as usize == j);
            assert(Seq::new(occurrences(all, name@), |k: int| j) =~= Seq::new(
                occurrences(l.take(j + 1).last()@.depends, name@),
                |k: int| (l.take(j + 1).len() - 1) as usize,
            ));
            assert forall|k: int| 0 <= k < r.len() implies (#[trigger] r@[k]) < tasks.len() by {
                if k < before.len() {
                    assert(r@[k] == before[k]);
                }
            }
        }
        j += 1;
    }
    assert(l.take(tasks.len() as int) =~= l);
    r
}

fn others_of(task: &Task, parent: &str) -> (r: Vec<String>)
    ensures
        texts(r@) == without(task@.depends, parent@),
{
    let deps = &task.frontmatter.depends;
    let mut r: Vec<String> = Vec::new();
    let mut d: usize = 0;
    assert(texts(deps@).take(0) =~= Seq::<Seq<char>>::empty());
    assert(texts(r@) =~= Seq::<Seq<char>>::empty());
    while d < deps.len()
        invariant
            d <= deps.len(),
            deps == &task.frontmatter.depends,
            texts(r@) == without(texts(deps@).take(d as int), parent@),
        decreases deps.len() - d,
    {
        proof {
            assert(texts(deps@).take(d + 1).drop_last() =~= texts(deps@).take(d as int));
            assert(texts(deps@).take(d + 1).last() == deps@[d as int]@);
        }
        if !same_text(deps[d].as_str(), parent) {
            let ghost before = r@;
            r.push(deps[d].clone());
            assert(texts(r@) =~= texts(before).push(deps@[d as int]@));
        }
        d += 1;
    }
    assert(texts(deps@).take(deps.len() as int) =~= texts(deps@));
    r
}

fn write_line(
    store: &TaskStore,
    task: &Task,
    prefix: &str,
    is_last: bool,
    is_root: bool,
    parent: Option<&str>,
    color: bool,
) -> (r: String)
    ensures
        r@ == tree_line(
            store@,
            task@,
            prefix@,
            is_last,
            is_root,
            match parent {
                Some(p) => Some(p@),
                None => None,
            },
            color,
        ),
{
    let mut r = String::from_str(prefix);
    if is_root {
        assert(r@ =~= prefix@ + connector(is_last, is_root));
    } else if is_last {
        r.append("└── ");
    } else {
        r.append("├── ");
    }
    r.append(task.name());
    r.append(" [");
    r.append(store.get_status(task.name()).colored_icon(color).as_str());
    r.append("]");
    let others = match parent {
        Some(p) => others_of(task, p),
        None => {
            let none: Vec<String> = Vec::new();
            assert(texts(none@) =~= Seq::<Seq<char>>::empty());
            none
        },
    };
    let ghost head = r@;
    if others.len() > 0 {
        r.append(" (+");
        r.append(join(&others, ", ").as_str());
        r.append(")");
        assert(r@ =~= head + (" (+"@ + joined(texts(others@), ", "@) + ")"@));
    } else {
        assert(r@ =~= head + Seq::<char>::empty());
    }
    r
}

fn node(
    store: &TaskStore,
    tasks: &Vec<&Task>,
    i: usize,
    prefix: &str,
    is_last: bool,
    is_root: bool,
    parent: Option<&str>,
    color: bool,
    depth: usize,
    seen: &mut Vec<String>,
    out: &mut Vec<String>,
)
    requires
        i < tasks.len(),
    ensures
        texts(final(out)@) == texts(old(out)@) + node_lines(
            store@,
            targets(tasks@),
            texts(old(seen)@),
            i,
            prefix@,
            is_last,
            is_root,
            match parent {
                Some(p) => Some(p@),
                None => None,
            },
            color,
            depth as nat,
        ).0,
        texts(final(seen)@) == node_lines(
            store@,
            targets(tasks@),
            texts(old(seen)@),
            i,
            prefix@,
            is_last,
            is_root,
            match parent {
                Some(p) => Some(p@),
                None => None,
            },
            color,
            depth as nat,
        ).1,
    decreases depth, 0nat, 0nat,
{
    let task = tasks[i];
    let ghost l = targets(tasks@);
    assert(l[i as int] == *task);
    if depth == 0 || texts_contain(seen, task.name()) {
        assert(texts(out@) =~= texts(old(out)@) + Seq::<Seq<char>>::empty());
        return;
    }
    let line = write_line(store, task, prefix, is_last, is_root, parent, color);
    let ghost seen0 = texts(seen@);
    let ghost out0 = texts(out@);
    out.push(line);
    seen.push(String::from_str(task.name()));
    assert(texts(out@) =~= out0.push(line@));
    assert(texts(seen@) =~= seen0.push(task@.name));
    let mut below = String::new();
    if !is_root {
        below = String::from_str(prefix);
        if is_last {
            below.append("    ");
        } else {
            below.append("│   ");
        }
    }
    assert(below@ =~= child_prefix(prefix@, is_last, is_root));
    let kids = kids_of(tasks, task.name());
    kids_from(store, tasks, &kids, 0, below.as_str(), task.name(), color, depth - 1, seen, out);
    proof {
        let sub = kids_lines(
            store@,
            l,
            seen0.push(task@.name),
            children_of(l, task@.name),
            0,
            child_prefix(prefix@, is_last, is_root),
            task@.name,
            color,
            (depth - 1) as nat,
        );
        assert(texts(out@) =~= out0 + (seq![line@] + sub.0));
    }
}

fn kids_from(
    store: &TaskStore,
    tasks: &Vec<&Task>,
    kids: &Vec<usize>,
    k: usize,
    prefix: &str,
    parent: &str,
    color: bool,
    depth: usize,
    seen: &mut Vec<String>,
    out: &mut Vec<String>,
)
    requires
        forall|x: int| 0 <= x < kids.len() ==> (#[trigger] kids@[x]) < tasks.len(),
    ensures
        texts(final(out)@) == texts(old(out)@) + kids_lines(
            store@,
            targets(tasks@),
            texts(old(seen)@),
            kids@,
            k as nat,
            prefix@,
            parent@,
            color,
            depth as nat,
        ).0,
        texts(final(seen)@) == kids_lines(
            store@,
            targets(tasks@),
            texts(old(seen)@),
            kids@,
            k as nat,
            prefix@,
            parent@,
            color,
            depth as nat,
        ).1,
    decreases depth, 1nat, kids.len() - k,
{
    if k >= kids.len() {
        assert(texts(out@) =~= texts(old(out)@) + Seq::<Seq<char>>::empty());
        return;
    }
    let ghost out0 = texts(out@);
    let ghost seen0 = texts(seen@);
    node(store, tasks, kids[k], prefix, k + 1 == kids.len(), false, Some(parent), color, depth, seen, out);
    kids_from(store, tasks, kids, k + 1, prefix, parent, color, depth, seen, out);
    proof {
        let l = targets(tasks@);
        let first = node_lines(
            store@,
            l,
            seen0,
            kids@[k as int],
            prefix@,
            k + 1 == kids.len(),
            false,
            Some(parent@),
            color,
            depth as nat,
        );
        let rest = kids_lines(
            store@,
            l,
            first.1,
            kids@,
            (k + 1) as nat,
            prefix@,
            parent@,
            color,
            depth as nat,
        );
        assert(texts(out@) =~= out0 + (first.0 + rest.0));
    }
}

fn pass(
    store: &TaskStore,
    tasks: &Vec<&Task>,
    roots_only: bool,
    color: bool,
    seen: &mut Vec<String>,
    out: &mut Vec<String>,
)
    ensures
        texts(final(out)@) == texts(old(out)@) + pass_lines(
            store@,
            targets(tasks@),
            texts(old(seen)@),
            0,
            roots_only,
            color,
        ).0,
        texts(final(seen)@) == pass_lines(
            store@,
            targets(tasks@),
            texts(old(seen)@),
            0,
            roots_only,
            color,
        ).1,
{
    let ghost l = targets(tasks@);
    let ghost total = pass_lines(store@, l, texts(seen@), 0, roots_only, color);
    let ghost out0 = texts(out@);
    let mut j: usize = 0;
    assert(out0 + Seq::<Seq<char>>::empty() =~= out0);
    let ghost mut done: Seq<Seq<char>> = Seq::empty();
    while j < tasks.len()
        invariant
            j <= tasks.len(),
            l == targets(tasks@),
            texts(out@) == out0 + done,
            total.0 == done + pass_lines(store@, l, texts(seen@), j as nat, roots_only, color).0,
            total.1 == pass_lines(store@, l, texts(seen@), j as nat, roots_only, color).1,
        decreases tasks.len() - j,
    {
        let ghost seen_j = texts(seen@);
        let ghost out_j = texts(out@);
        assert(l[j as int] == *tasks@[j as int]);
        if !(roots_only && tasks[j].frontmatter.depends.len() > 0) {
            let empty = String::new();
            node(store, tasks, j, empty.as_str(), true, true, None, color, tasks.len(), seen, out);
        } else {
            assert(texts(out@) =~= out_j + Seq::<Seq<char>>::empty());
        }
        proof {
            let first = if roots_only && l[j as int]@.depends.len() > 0 {
                (Seq::<Seq<char>>::empty(), seen_j)
            } else {
                node_lines(
                    store@,
                    l,
                    seen_j,
                    j,
                    Seq::<char>::empty(),
                    true,
                    true,
                    None,
                    color,
                    l.len(),
                )
            };
            let rest = pass_lines(store@, l, first.1, (j + 1) as nat, roots_only, color);
            assert(texts(out@) =~= out0 + (done + first.0));
            assert(total.0 =~= (done + first.0) + rest.0);
            done = done + first.0;
        }
        j += 1;
    }
    assert(total.0 =~= done);
}

/// The tree view of the defined tasks, line by line.
pub fn lines(store: &TaskStore, color: bool) -> (r: Vec<String>)
    ensures
        exists|l: Seq<Task>| #[trigger] store.is_listing(l) && texts(r@) == tree_lines(store@, l, color),
{
    let tasks = store.list();
    let ghost l = targets(tasks@);
    assert(store.is_listing(l));
    let mut out: Vec<String> = Vec::new();
    if tasks.len() == 0 {
        out.push(String::from_str("No tasks found in .wt/tasks/"));
        assert(texts(out@) =~= tree_lines(store@, l, color));
        return out;
    }
    let mut seen: Vec<String> = Vec::new();
    assert(texts(seen@) =~= Seq::<Seq<char>>::empty());
    assert(texts(out@) =~= Seq::<Seq<char>>::empty());
    pass(store, &tasks, true, color, &mut seen, &mut out);
    let ghost first = texts(out@);
    pass(store, &tasks, false, color, &mut seen, &mut out);
    proof {
        let roots = pass_lines(store@, l, Seq::empty(), 0, true, color);
        assert(first =~= roots.0);
        assert(texts(out@) =~= tree_lines(store@, l, color));
    }
    out
}

} // verus!
