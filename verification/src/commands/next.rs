//! Which pending tasks can start, and what the others wait for.

use vstd::prelude::*;
use crate::models::status::{StatusModel, status_in};
use crate::models::store::{StoreModel, TaskStore, targets};
use crate::models::task::{Task, TaskModel, TaskStatus};
use crate::display::{colored_index, index_text};
use crate::models::json::{json_quote, json_string};
use crate::text::{decimal, join, joined, push_decimal, same_text, texts};

verus! {

/// The entries of `deps` whose status is neither merged nor archived, in order.
pub open spec fn unmet(status: StatusModel, deps: Seq<Seq<char>>) -> Seq<Seq<char>>
    decreases deps.len(),
{
    if deps.len() == 0 {
        Seq::<Seq<char>>::empty()
    } else {
        let rest = unmet(status, deps.drop_last());
        if status_in(status, deps.last()).settles() {
            rest
        } else {
            rest.push(deps.last())
        }
    }
}

/// Whether the task is ready: pending, with nothing to wait for.
pub open spec fn is_ready(s: StoreModel, t: TaskModel) -> bool {
    status_in(s.status, t.name) == TaskStatus::Pending && unmet(s.status, t.depends).len() == 0
}

/// Whether the task is blocked: pending, with something to wait for.
pub open spec fn is_blocked(s: StoreModel, t: TaskModel) -> bool {
    status_in(s.status, t.name) == TaskStatus::Pending && unmet(s.status, t.depends).len() > 0
}

/// The ready tasks of `l`, in order.
pub open spec fn ready_in(s: StoreModel, l: Seq<Task>) -> Seq<Task>
    decreases l.len(),
{
    if l.len() == 0 {
        Seq::<Task>::empty()
    } else if is_ready(s, l.last()@) {
        ready_in(s, l.drop_last()).push(l.last())
    } else {
        ready_in(s, l.drop_last())
    }
}

/// The blocked tasks of `l`, in order, each with the dependencies it waits for.
pub open spec fn blocked_in(s: StoreModel, l: Seq<Task>) -> Seq<(Task, Seq<Seq<char>>)>
    decreases l.len(),
{
    if l.len() == 0 {
        Seq::<(Task, Seq<Seq<char>>)>::empty()
    } else if is_blocked(s, l.last()@) {
        blocked_in(s, l.drop_last()).push((l.last(), unmet(s.status, l.last()@.depends)))
    } else {
        blocked_in(s, l.drop_last())
    }
}

/// The view of a list of blocked tasks.
pub open spec fn blocked_view(v: Seq<(&Task, Vec<String>)>) -> Seq<(Task, Seq<Seq<char>>)> {
    v.map_values(|p: (&Task, Vec<String>)| (*p.0, texts(p.1@)))
}

/// Nothing is unmet exactly where every dependency is merged or archived.
pub proof fn lemma_unmet_empty(status: StatusModel, deps: Seq<Seq<char>>)
    ensures
        unmet(status, deps).len() == 0 <==> forall|i: int|
            0 <= i < deps.len() ==> status_in(status, #[trigger] deps[i]).settles(),
    decreases deps.len(),
{
    if deps.len() > 0 {
        let front = deps.drop_last();
        lemma_unmet_empty(status, front);
        if unmet(status, deps).len() == 0 {
            assert forall|i: int| 0 <= i < deps.len() implies status_in(
                status,
                #[trigger] deps[i],
            ).settles() by {
                if i < front.len() {
                    assert(front[i] == deps[i]);
                }
            }
        } else {
            if forall|i: int| 0 <= i < deps.len() ==> status_in(status, #[trigger] deps[i]).settles() {
                assert forall|i: int| 0 <= i < front.len() implies status_in(
                    status,
                    #[trigger] front[i],
                ).settles() by {
                    assert(front[i] == deps[i]);
                }
                assert(status_in(status, deps[deps.len() - 1]).settles());
            }
        }
    }
}

/// A pending task is ready if and only if every entry of its dependencies is merged or
/// archived.
pub proof fn lemma_ready_iff_settled(s: StoreModel, t: TaskModel)
    requires
        status_in(s.status, t.name) == TaskStatus::Pending,
    ensures
        is_ready(s, t) <==> forall|i: int|
            0 <= i < t.depends.len() ==> status_in(s.status, #[trigger] t.depends[i]).settles(),
{
    lemma_unmet_empty(s.status, t.depends);
}

/// A pending task from which all dependencies are taken away is ready.
pub proof fn lemma_no_dependencies_ready(s: StoreModel, t: TaskModel)
    requires
        status_in(s.status, t.name) == TaskStatus::Pending,
    ensures
        is_ready(s, TaskModel { depends: Seq::empty(), ..t }),
{
}

/// The dependencies of `task` that are neither merged nor archived.
pub fn waiting_for(store: &TaskStore, task: &Task) -> (r: Vec<String>)
    ensures
        texts(r@) == unmet(store@.status, task@.depends),
{
    let deps = &task.frontmatter.depends;
    let mut r: Vec<String> = Vec::new();
    let mut i: usize = 0;
    assert(texts(deps@).take(0) =~= Seq::<Seq<char>>::empty());
    assert(texts(r@) =~= Seq::<Seq<char>>::empty());
    while i < deps.len()
        invariant
            i <= deps.len(),
            deps == &task.frontmatter.depends,
            texts(r@) == unmet(store@.status, texts(deps@).take(i as int)),
        decreases deps.len() - i,
    {
        proof {
            assert(texts(deps@).take(i + 1).drop_last() =~= texts(deps@).take(i as int));
            assert(texts(deps@).take(i + 1).last() == deps@[i as int]@);
        }
        if !store.get_status(deps[i].as_str()).is_settled() {
            let ghost old_r = r@;
            r.push(deps[i].clone());
            assert(texts(r@) =~= texts(old_r).push(deps@[i as int]@));
        }
        i += 1;
    }
    assert(texts(deps@).take(deps.len() as int) =~= texts(deps@));
    r
}

/// Sorts the pending tasks of `tasks` into those that are ready and those that are
/// blocked, the latter with what they wait for. Tasks that are not pending are left out.
pub fn classify_tasks<'a>(tasks: &Vec<&'a Task>, store: &TaskStore) -> (r: (
    Vec<&'a Task>,
    Vec<(&'a Task, Vec<String>)>,
))
    ensures
        targets(r.0@) == ready_in(store@, targets(tasks@)),
        blocked_view(r.1@) == blocked_in(store@, targets(tasks@)),
{
    let mut ready: Vec<&'a Task> = Vec::new();
    let mut blocked: Vec<(&'a Task, Vec<String>)> = Vec::new();
    let ghost l = targets(tasks@);
    let mut i: usize = 0;
    assert(l.take(0) =~= Seq::<Task>::empty());
    assert(targets(ready@) =~= Seq::<Task>::empty());
    assert(blocked_view(blocked@) =~= Seq::<(Task, Seq<Seq<char>>)>::empty());
    while i < tasks.len()
        invariant
            i <= tasks.len(),
            l == targets(tasks@),
            targets(ready@) == ready_in(store@, l.take(i as int)),
            blocked_view(blocked@) == blocked_in(store@, l.take(i as int)),
        decreases tasks.len() - i,
    {
        let task: &'a Task = tasks[i];
        proof {
            assert(l.take(i + 1).drop_last() =~= l.take(i as int));
            assert(l.take(i + 1).last() == *task);
        }
        if store.get_status(task.name()) == TaskStatus::Pending {
            let waiting = waiting_for(store, task);
            if waiting.len() == 0 {
                let ghost old_ready = ready@;
                ready.push(task);
                assert(targets(ready@) =~= targets(old_ready).push(*task));
            } else {
                let ghost old_blocked = blocked@;
                let ghost w = texts(waiting@);
                blocked.push((task, waiting));
                assert(blocked_view(blocked@) =~= blocked_view(old_blocked).push((*task, w)));
            }
        }
        i += 1;
    }
    assert(l.take(tasks.len() as int) =~= l);
    (ready, blocked)
}

/// The display index of the task named `name` in the listing `l`: one more than the
/// place of the first task of that name; 0 where there is none.
pub open spec fn display_index(l: Seq<Task>, name: Seq<char>) -> nat
    decreases l.len(),
{
    if l.len() == 0 {
        0
    } else if display_index(l.drop_last(), name) != 0 {
        display_index(l.drop_last(), name)
    } else if l.last()@.name == name {
        l.len()
    } else {
        0
    }
}

/// The display index of the task named `name` in the listing `tasks`.
pub fn index_of(tasks: &Vec<&Task>, name: &str) -> (r: usize)
    ensures
        r == display_index(targets(tasks@), name@),
{
    let mut i: usize = 0;
    let ghost l = targets(tasks@);
    assert(l.take(0) =~= Seq::<Task>::empty());
    while i < tasks.len()
        invariant
            i <= tasks.len(),
            l == targets(tasks@),
            display_index(l.take(i as int), name@) == 0,
        decreases tasks.len() - i,
    {
        proof {
            assert(l.take(i + 1).drop_last() =~= l.take(i as int));
            assert(l.take(i + 1).last() == *tasks@[i as int]);
        }
        if same_text(tasks[i].name(), name) {
            proof {
                lemma_display_index_found(l, name@, i + 1);
            }
            return i + 1;
        }
        i += 1;
    }
    assert(l.take(tasks.len() as int) =~= l);
    0
}

/// An index that was found among the first `k` tasks stays the index in the whole
/// listing.
pub proof fn lemma_display_index_found(l: Seq<Task>, name: Seq<char>, k: int)
    requires
        0 <= k <= l.len(),
        display_index(l.take(k), name) != 0,
    ensures
        display_index(l, name) == display_index(l.take(k), name),
    decreases l.len() - k,
{
    if k < l.len() {
        assert(l.take(k + 1).drop_last() =~= l.take(k));
        lemma_display_index_found(l, name, k + 1);
    } else {
        assert(l.take(k) =~= l);
    }
}

/// A list of strings as a JSON array.
pub open spec fn json_array(items: Seq<Seq<char>>) -> Seq<char> {
    "["@ + joined(items.map_values(|s: Seq<char>| json_string(s)), ","@) + "]"@
}

/// A list of strings as a JSON array.
pub fn write_json_array(items: &Vec<String>) -> (r: String)
    ensures
        r@ == json_array(texts(items@)),
{
    let mut quoted: Vec<String> = Vec::new();
    let mut i: usize = 0;
    while i < items.len()
        invariant
            i <= items.len(),
            quoted.len() == i,
            forall|k: int| 0 <= k < i ==> (#[trigger] quoted@[k])@ == json_string(items@[k]@),
        decreases items.len() - i,
    {
        quoted.push(json_quote(items[i].as_str()));
        i += 1;
    }
    assert(texts(quoted@) =~= texts(items@).map_values(|s: Seq<char>| json_string(s)));
    let mut r = String::from_str("[");
    r.append(join(&quoted, ",").as_str());
    r.append("]");
    r
}

/// How a ready task is written as JSON.
pub open spec fn ready_json(l: Seq<Task>, t: Task) -> Seq<char> {
    "{\"index\":"@ + decimal(display_index(l, t@.name)) + ",\"name\":"@ + json_string(t@.name)
        + "}"@
}

/// How a blocked task is written as JSON.
pub open spec fn blocked_json(l: Seq<Task>, b: (Task, Seq<Seq<char>>)) -> Seq<char> {
    "{\"index\":"@ + decimal(display_index(l, b.0@.name)) + ",\"name\":"@ + json_string(
        b.0@.name,
    ) + ",\"waiting_for\":"@ + json_array(b.1) + "}"@
}

/// What the pending tasks of the listing `l` look like as JSON: the ready ones and the
/// blocked ones, each with its display index.
pub open spec fn next_json(s: StoreModel, l: Seq<Task>) -> Seq<char> {
    "{\"ready\":["@ + joined(ready_in(s, l).map_values(|t: Task| ready_json(l, t)), ","@)
        + "],\"blocked\":["@ + joined(
        blocked_in(s, l).map_values(|b: (Task, Seq<Seq<char>>)| blocked_json(l, b)),
        ","@,
    ) + "]}"@
}

/// How a ready task is shown.
pub open spec fn ready_line(l: Seq<Task>, t: Task, color: bool) -> Seq<char> {
    "  "@ + index_text(display_index(l, t@.name)) + " "@ + TaskStatus::Pending.colored_symbol(
        color,
    ) + " "@ + t@.name
}

/// How a blocked task is shown.
pub open spec fn blocked_line(l: Seq<Task>, b: (Task, Seq<Seq<char>>), color: bool) -> Seq<
    char,
> {
    "  "@ + index_text(display_index(l, b.0@.name)) + " "@
        + TaskStatus::Pending.colored_symbol(color) + " "@ + b.0@.name + " (waiting for: "@
        + joined(b.1, ", "@) + ")"@
}

/// What the pending tasks of the listing `l` look like in words, line by line.
pub open spec fn next_lines(s: StoreModel, l: Seq<Task>, color: bool) -> Seq<Seq<char>> {
    let ready = ready_in(s, l);
    let blocked = blocked_in(s, l);
    if ready.len() == 0 && blocked.len() == 0 {
        seq!["No pending tasks."@]
    } else {
        (if ready.len() > 0 {
            seq!["Ready to start:"@] + ready.map_values(|t: Task| ready_line(l, t, color))
        } else {
            Seq::<Seq<char>>::empty()
        }) + (if blocked.len() > 0 {
            (if ready.len() > 0 {
                seq![Seq::<char>::empty()]
            } else {
                Seq::<Seq<char>>::empty()
            }) + seq!["Blocked:"@] + blocked.map_values(
                |b: (Task, Seq<Seq<char>>)| blocked_line(l, b, color),
            )
        } else {
            Seq::<Seq<char>>::empty()
        })
    }
}

fn write_ready_json(tasks: &Vec<&Task>, t: &Task) -> (r: String)
    ensures
        r@ == ready_json(targets(tasks@), *t),
{
    let mut r = String::from_str("{\"index\":");
    push_decimal(&mut r, index_of(tasks, t.name()) as u64);
    r.append(",\"name\":");
    r.append(json_quote(t.name()).as_str());
    r.append("}");
    r
}

fn write_blocked_json(tasks: &Vec<&Task>, t: &Task, waiting: &Vec<String>) -> (r: String)
    ensures
        r@ == blocked_json(targets(tasks@), (*t, texts(waiting@))),
{
    let mut r = String::from_str("{\"index\":");
    push_decimal(&mut r, index_of(tasks, t.name()) as u64);
    r.append(",\"name\":");
    r.append(json_quote(t.name()).as_str());
    r.append(",\"waiting_for\":");
    r.append(write_json_array(waiting).as_str());
    r.append("}");
    r
}

fn write_ready_line(tasks: &Vec<&Task>, t: &Task, color: bool) -> (r: String)
    ensures
        r@ == ready_line(targets(tasks@), *t, color),
{
    let mut r = String::from_str("  ");
    r.append(colored_index(index_of(tasks, t.name())).as_str());
    r.append(" ");
    r.append(TaskStatus::Pending.colored_icon(color).as_str());
    r.append(" ");
    r.append(t.name());
    proof {
        assert(r@ =~= ready_line(targets(tasks@), *t, color));
    }
    r
}

fn write_blocked_line(tasks: &Vec<&Task>, t: &Task, waiting: &Vec<String>, color: bool) -> (r:
    String)
    ensures
        r@ == blocked_line(targets(tasks@), (*t, texts(waiting@)), color),
{
    let mut r = String::from_str("  ");
    r.append(colored_index(index_of(tasks, t.name())).as_str());
    r.append(" ");
    r.append(TaskStatus::Pending.colored_icon(color).as_str());
    r.append(" ");
    r.append(t.name());
    r.append(" (waiting for: ");
    r.append(join(waiting, ", ").as_str());
    r.append(")");
    proof {
        assert(r@ =~= blocked_line(targets(tasks@), (*t, texts(waiting@)), color));
    }
    r
}

/// What the `next` command prints: the pending tasks, sorted into ready and blocked, as
/// JSON on one line or in words. Each line ends with a line feed.
pub fn execute(store: &TaskStore, json: bool, color: bool) -> (r: String)
    ensures
        exists|l: Seq<Task>| #[trigger]
            store.is_listing(l) && r@ == if json {
                next_json(store@, l) + "\n"@
            } else {
                joined(next_lines(store@, l, color), "\n"@) + "\n"@
            },
{
    let tasks = store.list();
    let ghost l = targets(tasks@);
    assert(store.is_listing(l));
    let (ready, blocked) = classify_tasks(&tasks, store);
    let ghost rs = ready_in(store@, l);
    let ghost bs = blocked_in(store@, l);
    if json {
        let mut a: Vec<String> = Vec::new();
        let mut i: usize = 0;
        while i < ready.len()
            invariant
                i <= ready.len(),
                l == targets(tasks@),
                rs == targets(ready@),
                a.len() == i,
                forall|k: int| 0 <= k < i ==> (#[trigger] a@[k])@ == ready_json(l, rs[k]),
            decreases ready.len() - i,
        {
            a.push(write_ready_json(&tasks, ready[i]));
            i += 1;
        }
        assert(texts(a@) =~= rs.map_values(|t: Task| ready_json(l, t)));
        let mut b: Vec<String> = Vec::new();
        let mut j: usize = 0;
        while j < blocked.len()
            invariant
                j <= blocked.len(),
                l == targets(tasks@),
                bs == blocked_view(blocked@),
                b.len() == j,
                forall|k: int| 0 <= k < j ==> (#[trigger] b@[k])@ == blocked_json(l, bs[k]),
            decreases blocked.len() - j,
        {
            b.push(write_blocked_json(&tasks, blocked[j].0, &blocked[j].1));
            j += 1;
        }
        assert(texts(b@) =~= bs.map_values(|x: (Task, Seq<Seq<char>>)| blocked_json(l, x)));
        let mut r = String::from_str("{\"ready\":[");
        r.append(join(&a, ",").as_str());
        r.append("],\"blocked\":[");
        r.append(join(&b, ",").as_str());
        r.append("]}");
        r.append("\n");
        r
    } else {
        let mut out: Vec<String> = Vec::new();
        if ready.len() == 0 && blocked.len() == 0 {
            out.push(String::from_str("No pending tasks."));
            assert(texts(out@) =~= next_lines(store@, l, color));
        } else {
            if ready.len() > 0 {
                out.push(String::from_str("Ready to start:"));
                let mut i: usize = 0;
                while i < ready.len()
                    invariant
                        i <= ready.len(),
                        l == targets(tasks@),
                        rs == targets(ready@),
                        out.len() == i + 1,
                        out@[0]@ == "Ready to start:"@,
                        forall|k: int|
                            1 <= k < out.len() ==> (#[trigger] out@[k])@ == ready_line(
                                l,
                                rs[k - 1],
                                color,
                            ),
                    decreases ready.len() - i,
                {
                    out.push(write_ready_line(&tasks, ready[i], color));
                    i += 1;
                }
                assert(texts(out@) =~= seq!["Ready to start:"@] + rs.map_values(
                    |t: Task| ready_line(l, t, color),
                ));
            } else {
                assert(texts(out@) =~= Seq::<Seq<char>>::empty());
            }
            let ghost first = texts(out@);
            if blocked.len() > 0 {
                if ready.len() > 0 {
                    out.push(String::new());
                }
                out.push(String::from_str("Blocked:"));
                let ghost base = out@.len();
                let ghost lead = texts(out@);
                let mut j: usize = 0;
                while j < blocked.len()
                    invariant
                        j <= blocked.len(),
                        l == targets(tasks@),
                        bs == blocked_view(blocked@),
                        out.len() == base + j,
                        texts(out@).take(base as int) == lead,
                        lead.len() == base,
                        forall|k: int|
                            0 <= k < j ==> (#[trigger] out@[base + k])@ == blocked_line(
                                l,
                                bs[k],
                                color,
                            ),
                    decreases blocked.len() - j,
                {
                    let ghost before = out@;
                    out.push(write_blocked_line(&tasks, blocked[j].0, &blocked[j].1, color));
                    proof {
                        assert(texts(out@).take(base as int) =~= texts(before).take(base as int));
                    }
                    j += 1;
                }
                proof {
                    let tailing = bs.map_values(
                        |x: (Task, Seq<Seq<char>>)| blocked_line(l, x, color),
                    );
                    assert(texts(out@) =~= lead + tailing) by {
                        assert(texts(out@).len() == lead.len() + tailing.len());
                        assert forall|k: int| 0 <= k < texts(out@).len() implies texts(out@)[k]
                            == (lead + tailing)[k] by {
                            if k < base {
                                assert(texts(out@).take(base as int)[k] == texts(out@)[k]);
                            } else {
                                assert(out@[base + (k - base)]@ == blocked_line(
                                    l,
                                    bs[k - base],
                                    color,
                                ));
                            }
                        }
                    }
                    if ready.len() > 0 {
                        assert(lead =~= first + seq![Seq::<char>::empty()] + seq!["Blocked:"@]);
                    } else {
                        assert(lead =~= first + seq!["Blocked:"@]);
                    }
                    assert(texts(out@) =~= next_lines(store@, l, color));
                }
            } else {
                assert(texts(out@) =~= next_lines(store@, l, color));
            }
        }
        let mut r = join(&out, "\n");
        r.append("\n");
        r
    }
}

} // verus!
