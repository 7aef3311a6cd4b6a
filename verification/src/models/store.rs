//! The task store: the task definitions with the runtime state recorded for them.

use vstd::prelude::*;
use crate::error::WtError;
use crate::graph::{Graph, has_edge, is_cycle, is_walk, lemma_settled_dependencies, lemma_walk_push, reaches_cycle};
use crate::models::name_map::NameMap;
use crate::models::status::{StatusModel, StatusStore, instance_in, opt_instance, scratch_in, status_in, with_instance, with_scratch, with_status};
use crate::models::task::{Instance, Task, TaskModel, TaskStatus};
use crate::text::{comes_before, lemma_text_before_transitive, text_before, texts};

verus! {

/// The task definitions, as a map from name to definition.
pub type TasksModel = Map<Seq<char>, TaskModel>;

/// The store as plain values: the definitions and the recorded states.
pub struct StoreModel {
    pub tasks: TasksModel,
    pub status: StatusModel,
}

impl StoreModel {
    /// The dependency graph of the defined tasks.
    pub open spec fn graph(self) -> Graph {
        self.tasks.map_values(|t: TaskModel| t.depends)
    }
}

/// All task definitions, keyed by name, with the runtime state of every task.
#[derive(Debug)]
pub struct TaskStore {
    pub tasks: NameMap<Task>,
    pub status: StatusStore,
}

impl View for TaskStore {
    type V = StoreModel;

    open spec fn view(&self) -> StoreModel {
        StoreModel { tasks: self.tasks@.map_values(|t: Task| t@), status: self.status@ }
    }
}

impl Default for TaskStore {
    fn default() -> (r: Self)
        ensures
            r@.tasks == Map::<Seq<char>, TaskModel>::empty(),
            r@.status == Map::<Seq<char>, crate::models::status::StateModel>::empty(),
    {
        let r = TaskStore { tasks: NameMap::new(), status: StatusStore::default() };
        assert(r@.tasks =~= Map::<Seq<char>, TaskModel>::empty());
        r
    }
}

/// How many places of `marks` are not set.
pub open spec fn unset_count(marks: Seq<bool>) -> nat
    decreases marks.len(),
{
    if marks.len() == 0 {
        0
    } else {
        unset_count(marks.drop_last()) + if marks.last() {
            0nat
        } else {
            1nat
        }
    }
}

proof fn lemma_unset_update(marks: Seq<bool>, i: int)
    requires
        0 <= i < marks.len(),
        !marks[i],
    ensures
        unset_count(marks.update(i, true)) + 1 == unset_count(marks),
    decreases marks.len(),
{
    let after = marks.update(i, true);
    if i == marks.len() - 1 {
        assert(after.drop_last() =~= marks.drop_last());
    } else {
        assert(after.drop_last() =~= marks.drop_last().update(i, true));
        lemma_unset_update(marks.drop_last(), i);
    }
}

/// The names at the places `path` of `names`.
pub open spec fn names_at(names: Seq<Seq<char>>, path: Seq<usize>) -> Seq<Seq<char>> {
    path.map_values(|i: usize| names[i as int])
}

/// A cycle `c` found at the end of the walk `lead + c`, which begins with `prefix` and
/// comes by no name twice before its last step.
pub open spec fn cycle_found(
    g: Graph,
    prefix: Seq<Seq<char>>,
    lead: Seq<Seq<char>>,
    c: Seq<Seq<char>>,
) -> bool {
    &&& is_cycle(g, c)
    &&& is_walk(g, lead + c)
    &&& (lead + c.drop_last()).no_duplicates()
    &&& prefix.is_prefix_of(lead + c)
}

impl TaskStore {
    /// The task defined under `name`, if any.
    pub fn get(&self, name: &str) -> (r: Option<&Task>)
        ensures
            match r {
                Some(t) => self@.tasks.dom().contains(name@) && t@ == self@.tasks[name@],
                None => !self@.tasks.dom().contains(name@),
            },
    {
        self.tasks.get(name)
    }

    /// The status of `name`; pending where nothing is recorded.
    pub fn get_status(&self, name: &str) -> (r: TaskStatus)
        ensures
            r == status_in(self@.status, name@),
    {
        self.status.get_status(name)
    }

    /// Records `status` for `name`.
    pub fn set_status(&mut self, name: &str, status: TaskStatus)
        ensures
            final(self)@.status == with_status(old(self)@.status, name@, status),
            final(self)@.tasks == old(self)@.tasks,
    {
        self.status.set_status(name, status);
    }

    /// The instance bound to `name`, if any.
    pub fn get_instance(&self, name: &str) -> (r: Option<&Instance>)
        ensures
            match r {
                Some(i) => instance_in(self@.status, name@) == Some(i@),
                None => instance_in(self@.status, name@) is None,
            },
    {
        self.status.get_instance(name)
    }

    /// Binds `instance` to `name`, or clears the binding.
    pub fn set_instance(&mut self, name: &str, instance: Option<Instance>)
        ensures
            final(self)@.status == with_instance(old(self)@.status, name@, opt_instance(instance)),
            final(self)@.tasks == old(self)@.tasks,
    {
        self.status.set_instance(name, instance);
    }

    /// Whether `name` is recorded as a scratch task.
    pub fn is_scratch(&self, name: &str) -> (r: bool)
        ensures
            r == scratch_in(self@.status, name@),
    {
        self.status.is_scratch(name)
    }

    /// Marks `name` as a scratch task, or takes the mark away.
    pub fn set_scratch(&mut self, name: &str, scratch: bool)
        ensures
            final(self)@.status == with_scratch(old(self)@.status, name@, scratch),
            final(self)@.tasks == old(self)@.tasks,
    {
        self.status.set_scratch(name, scratch);
    }

    /// Whether a state is recorded for `name`.
    pub fn name_exists_in_status(&self, name: &str) -> (r: bool)
        ensures
            r == self@.status.dom().contains(name@),
    {
        self.status.name_exists(name)
    }

    /// Fails with `TaskNotFound` unless `name` is defined.
    pub fn ensure_exists(&self, name: &str) -> (r: Result<(), WtError>)
        ensures
            self@.tasks.dom().contains(name@) ==> r is Ok,
            !self@.tasks.dom().contains(name@) ==> r is Err && r->Err_0@
                == crate::error::WtErrorModel::TaskNotFound(name@),
    {
        if self.tasks.contains_key(name) {
            Ok(())
        } else {
            Err(WtError::TaskNotFound(String::from_str(name)))
        }
    }

    /// What the entry list of the definitions says of the graph.
    proof fn lemma_graph(&self)
        requires
            self.tasks.wf(),
        ensures
            self.tasks.names().len() == self.tasks.values().len(),
            self.tasks.names().no_duplicates(),
            forall|k: Seq<char>| self@.graph().dom().contains(k) <==> self.tasks.names().contains(k),
            forall|i: int|
                0 <= i < self.tasks.names().len() ==> self@.graph().dom().contains(
                    #[trigger] self.tasks.names()[i],
                ) && self@.graph()[self.tasks.names()[i]] == texts(
                    self.tasks.values()[i].frontmatter.depends@,
                ),
    {
        self.tasks.lemma_entries();
    }
}


/// The first place of `x` in `v`, if it occurs there.
fn place_of(v: &Vec<usize>, x: usize) -> (r: Option<usize>)
    ensures
        match r {
            Some(k) => k < v.len() && v@[k as int] == x,
            None => !v@.contains(x),
        },
{
    let mut k: usize = 0;
    while k < v.len()
        invariant
            k <= v.len(),
            forall|j: int| 0 <= j < k ==> v@[j] != x,
        decreases v.len() - k,
    {
        if v[k] == x {
            return Some(k);
        }
        k += 1;
    }
    None
}

/// A name without a definition has no dependencies, so it reaches no cycle.
pub proof fn lemma_undefined_reaches_none(g: Graph, n: Seq<char>)
    requires
        !g.dom().contains(n),
    ensures
        !reaches_cycle(g, n),
{
    if reaches_cycle(g, n) {
        let w = choose|w: Seq<Seq<char>>| is_walk(g, w) && w[0] == n && !w.no_duplicates();
        if w.len() >= 2 {
            assert(has_edge(g, w[0], w[1]));
        }
    }
}

impl TaskStore {
    /// The state of a depth-first search: `marks` tells which tasks were entered, `path`
    /// is the chain of tasks being explored. Every task that was entered and left again
    /// reaches no cycle.
    pub closed spec fn search_ok(&self, marks: Seq<bool>, path: Seq<usize>) -> bool {
        let names = self.tasks.names();
        let g = self@.graph();
        &&& self.tasks.wf()
        &&& marks.len() == names.len()
        &&& forall|j: int|
            0 <= j < path.len() ==> (#[trigger] path[j]) < names.len() && marks[path[j] as int]
        &&& path.no_duplicates()
        &&& path.len() > 0 ==> is_walk(g, names_at(names, path))
        &&& forall|i: usize|
            i < names.len() && #[trigger] marks[i as int] && !path.contains(i) ==> !reaches_cycle(
                g,
                names[i as int],
            )
    }

    /// The names of `path[k..]` followed by the name at `ci`.
    fn cycle_names(&self, path: &Vec<usize>, k: usize, ci: usize) -> (c: Vec<String>)
        requires
            k <= path.len(),
            ci < self.tasks.names().len(),
            forall|j: int| 0 <= j < path.len() ==> (#[trigger] path@[j]) < self.tasks.names().len(),
        ensures
            texts(c@) == names_at(self.tasks.names(), path@.subrange(k as int, path.len() as int)).push(
                self.tasks.names()[ci as int],
            ),
    {
        let mut c: Vec<String> = Vec::new();
        let mut j: usize = k;
        while j < path.len()
            invariant
                k <= j <= path.len(),
                ci < self.tasks.names().len(),
                forall|j: int|
                    0 <= j < path.len() ==> (#[trigger] path@[j]) < self.tasks.names().len(),
                texts(c@) == names_at(self.tasks.names(), path@.subrange(k as int, j as int)),
            decreases path.len() - j,
        {
            let ghost before = c@;
            let key = self.tasks.key_at(path[j]).clone();
            c.push(key);
            proof {
                let a = texts(c@);
                let b = names_at(self.tasks.names(), path@.subrange(k as int, j + 1));
                let b0 = names_at(self.tasks.names(), path@.subrange(k as int, j as int));
                assert(c@ == before.push(key));
                assert(texts(before).len() == before.len());
                assert(b0.len() == j - k);
                assert(a.len() == b.len());
                assert forall|x: int| 0 <= x < a.len() implies a[x] == b[x] by {
                    if x < before.len() {
                        assert(a[x] == texts(before)[x]);
                        assert(b0[x] == b[x]);
                    }
                }
                assert(a =~= b);
            }
            j += 1;
        }
        let ghost before = c@;
        let key = self.tasks.key_at(ci).clone();
        c.push(key);
        proof {
            let a = texts(c@);
            let b = names_at(
                self.tasks.names(),
                path@.subrange(k as int, path.len() as int),
            ).push(self.tasks.names()[ci as int]);
            assert(c@ == before.push(key));
            assert(texts(before).len() == before.len());
            assert(a.len() == b.len());
            assert forall|x: int| 0 <= x < a.len() implies a[x] == b[x] by {
                if x < before.len() {
                    assert(a[x] == texts(before)[x]);
                }
            }
            assert(a =~= b);
        }
        c
    }

    proof fn lemma_cycle_on_path(&self, marks: Seq<bool>, path: Seq<usize>, k: int, ci: usize)
        requires
            self.search_ok(marks, path),
            0 <= k < path.len(),
            path[k] == ci,
            has_edge(
                self@.graph(),
                self.tasks.names()[path.last() as int],
                self.tasks.names()[ci as int],
            ),
        ensures
            cycle_found(
                self@.graph(),
                names_at(self.tasks.names(), path).push(self.tasks.names()[ci as int]),
                names_at(self.tasks.names(), path).take(k),
                names_at(self.tasks.names(), path.subrange(k, path.len() as int)).push(
                    self.tasks.names()[ci as int],
                ),
            ),
    {
        let names = self.tasks.names();
        let g = self@.graph();
        let pn = names_at(names, path);
        let w = pn.push(names[ci as int]);
        let lead = pn.take(k);
        let c = names_at(names, path.subrange(k, path.len() as int)).push(names[ci as int]);
        self.lemma_graph();
        lemma_walk_push(g, pn, names[ci as int]);
        assert(lead + c =~= w);
        assert(c =~= w.subrange(k, w.len() as int));
        assert(w[k] == w[w.len() - 1]);
        crate::graph::lemma_repeat_is_cycle(g, w, k, w.len() - 1);
        assert(lead + c.drop_last() =~= pn);
        assert forall|a: int, b: int| 0 <= a < pn.len() && 0 <= b < pn.len() && a != b implies pn[a]
            != pn[b] by {
            assert(path[a] != path[b]);
        }
    }

    /// Explores the task at `ci` depth first. Comes back with a cycle as soon as a
    /// dependency leads to a task on `path`.
    fn visit(&self, ci: usize, marks: &mut Vec<bool>, path: &mut Vec<usize>) -> (r: Option<
        Vec<String>,
    >)
        requires
            self.search_ok(old(marks)@, old(path)@),
            ci < self.tasks.names().len(),
            old(path).len() > 0 ==> has_edge(
                self@.graph(),
                self.tasks.names()[old(path)@.last() as int],
                self.tasks.names()[ci as int],
            ),
        ensures
            r is None ==> final(path)@ == old(path)@,
            r is None ==> self.search_ok(final(marks)@, final(path)@),
            r is None ==> forall|i: int|
                0 <= i < old(marks).len() && old(marks)@[i] ==> final(marks)@[i],
            r is None ==> final(marks)@[ci as int],
            r is None ==> !old(path)@.contains(ci),
            r is None ==> unset_count(final(marks)@) <= unset_count(old(marks)@),
            r is Some ==> exists|lead: Seq<Seq<char>>|
                #[trigger] cycle_found(
                    self@.graph(),
                    names_at(self.tasks.names(), old(path)@).push(self.tasks.names()[ci as int]),
                    lead,
                    texts(r->Some_0@),
                ),
        decreases unset_count(old(marks)@),
    {
        let ghost names = self.tasks.names();
        let ghost g = self@.graph();
        proof {
            self.lemma_graph();
        }
        match place_of(path, ci) {
            Some(k) => {
                let c = self.cycle_names(path, k, ci);
                proof {
                    self.lemma_cycle_on_path(marks@, path@, k as int, ci);
                    assert(cycle_found(
                        self@.graph(),
                        names_at(self.tasks.names(), old(path)@).push(
                            self.tasks.names()[ci as int],
                        ),
                        names_at(self.tasks.names(), path@).take(k as int),
                        texts(c@),
                    ));
                }
                let ghost cs = c@;
                let r = Some(c);
                assert(r->Some_0@ == cs);
                return r;
            },
            None => {},
        }
        if marks[ci] {
            return None;
        }
        proof {
            lemma_unset_update(marks@, ci as int);
        }
        marks.set(ci, true);
        path.push(ci);
        proof {
            let pn = names_at(names, old(path)@);
            assert(names_at(names, path@) =~= pn.push(names[ci as int]));
            if old(path).len() > 0 {
                lemma_walk_push(g, pn, names[ci as int]);
            }
            assert forall|i: usize|
                i < names.len() && #[trigger] marks@[i as int] && !path@.contains(
                    i,
                ) implies !reaches_cycle(g, names[i as int]) by {
                assert(path@[path.len() - 1] == ci);
                assert(i != ci);
                assert(old(marks)@[i as int]);
                if old(path)@.contains(i) {
                    let j = choose|j: int| 0 <= j < old(path).len() && old(path)@[j] == i;
                    assert(path@[j] == i);
                }
            }
            assert forall|a: int, b: int|
                0 <= a < path.len() && 0 <= b < path.len() && a != b implies path@[a]
                != path@[b] by {}
            assert(self.search_ok(marks@, path@));
        }
        let task = self.tasks.value_at(ci);
        let mut d: usize = 0;
        while d < task.frontmatter.depends.len()
            invariant
                d <= task.frontmatter.depends.len(),
                ci < names.len(),
                names == self.tasks.names(),
                g == self@.graph(),
                self.tasks.values().len() == names.len(),
                *task == self.tasks.values()[ci as int],
                g.dom().contains(names[ci as int]),
                g[names[ci as int]] == texts(task.frontmatter.depends@),
                path@ == old(path)@.push(ci),
                !old(path)@.contains(ci),
                self.search_ok(marks@, path@),
                marks@[ci as int],
                marks.len() == old(marks).len(),
                forall|i: int| 0 <= i < old(marks).len() && old(marks)@[i] ==> marks@[i],
                unset_count(marks@) < unset_count(old(marks)@),
                forall|j: int|
                    0 <= j < d ==> !reaches_cycle(g, #[trigger] texts(task.frontmatter.depends@)[j]),
            decreases task.frontmatter.depends.len() - d,
        {
            let dep = &task.frontmatter.depends[d];
            proof {
                assert(texts(task.frontmatter.depends@)[d as int] == dep@);
                assert(has_edge(g, names[ci as int], dep@));
            }
            match self.tasks.index_of(dep.as_str()) {
                Some(di) => {
                    let found = self.visit(di, marks, path);
                    match found {
                        Some(c) => {
                            proof {
                                let lead = choose|lead: Seq<Seq<char>>|
                                    cycle_found(
                                        g,
                                        names_at(names, old(path)@.push(ci)).push(names[di as int]),
                                        lead,
                                        texts(c@),
                                    );
                                let inner = names_at(names, old(path)@.push(ci)).push(
                                    names[di as int],
                                );
                                let outer = names_at(names, old(path)@).push(names[ci as int]);
                                assert(names_at(names, old(path)@.push(ci)) =~= outer);
                                assert(outer.is_prefix_of(inner));
                                assert(outer.is_prefix_of(lead + texts(c@))) by {
                                    assert(inner.is_prefix_of(lead + texts(c@)));
                                    assert((lead + texts(c@)).subrange(0, outer.len() as int)
                                        =~= outer);
                                }
                                assert(cycle_found(g, outer, lead, texts(c@)));
                            }
                            return Some(c);
                        },
                        None => {
                            proof {
                                assert(!reaches_cycle(g, names[di as int]));
                            }
                        },
                    }
                },
                None => {
                    proof {
                        lemma_undefined_reaches_none(g, dep@);
                    }
                },
            }
            d += 1;
        }
        proof {
            assert forall|x: Seq<char>| has_edge(g, names[ci as int], x) implies !reaches_cycle(
                g,
                x,
            ) by {
                let deps = texts(task.frontmatter.depends@);
                let j = choose|j: int| 0 <= j < deps.len() && deps[j] == x;
                assert(!reaches_cycle(g, deps[j]));
            }
            lemma_settled_dependencies(g, names[ci as int]);
        }
        let ghost full = path@;
        path.pop();
        proof {
            assert(path@ =~= old(path)@);
            assert forall|i: usize|
                i < names.len() && #[trigger] marks@[i as int] && !path@.contains(
                    i,
                ) implies !reaches_cycle(g, names[i as int]) by {
                if i != ci {
                    if full.contains(i) {
                        let j = choose|j: int| 0 <= j < full.len() && full[j] == i;
                        assert(j < path.len());
                        assert(path@[j] == i);
                    }
                }
            }
            if path.len() > 0 {
                assert(names_at(names, path@) =~= names_at(names, full).subrange(
                    0,
                    path.len() as int,
                ));
                crate::graph::lemma_subwalk(g, names_at(names, full), 0, path.len() as int);
            }
            assert forall|j: int| 0 <= j < path.len() implies (#[trigger] path@[j]) < names.len()
                && marks@[path@[j] as int] by {
                assert(full[j] == path@[j]);
            }
            assert(self.search_ok(marks@, path@));
        }
        None
    }

    /// Looks for a dependency cycle that can be reached from `start`, depth first along
    /// the dependencies in the order in which they are declared. What comes back is the
    /// part of the explored chain from the first occurrence of the repeated task through
    /// its repetition. Dependencies on tasks that are not defined lead nowhere.
    pub fn detect_cycle(&self, start: &str) -> (r: Option<Vec<String>>)
        ensures
            r is Some <==> reaches_cycle(self@.graph(), start@),
            match r {
                Some(c) => exists|lead: Seq<Seq<char>>|
                    #[trigger] cycle_found(self@.graph(), seq![start@], lead, texts(c@)),
                None => true,
            },
    {
        let n = self.tasks.len();
        proof {
            self.lemma_graph();
        }
        match self.tasks.index_of(start) {
            None => {
                proof {
                    lemma_undefined_reaches_none(self@.graph(), start@);
                }
                None
            },
            Some(ci) => {
                let mut marks: Vec<bool> = Vec::new();
                let mut i: usize = 0;
                while i < n
                    invariant
                        i <= n,
                        marks.len() == i,
                        forall|j: int| 0 <= j < i ==> !marks@[j],
                    decreases n - i,
                {
                    marks.push(false);
                    i += 1;
                }
                let mut path: Vec<usize> = Vec::new();
                assert(self.search_ok(marks@, path@));
                let r = self.visit(ci, &mut marks, &mut path);
                proof {
                    let g = self@.graph();
                    let names = self.tasks.names();
                    match &r {
                        Some(c) => {
                            let lead = choose|lead: Seq<Seq<char>>|
                                cycle_found(
                                    g,
                                    names_at(names, Seq::<usize>::empty()).push(names[ci as int]),
                                    lead,
                                    texts(c@),
                                );
                            assert(names_at(names, Seq::<usize>::empty()).push(names[ci as int])
                                =~= seq![start@]);
                            let w = lead + texts(c@);
                            assert(w[0] == seq![start@][0]);
                            let cs = texts(c@);
                            assert(w[lead.len() as int] == cs[0]);
                            assert(w[w.len() - 1] == cs[cs.len() - 1]);
                            assert(!w.no_duplicates());
                        },
                        None => {
                            assert(!path@.contains(ci));
                        },
                    }
                }
                r
            },
        }
    }
}

/// The tasks that the references of `v` point to.
pub open spec fn targets(v: Seq<&Task>) -> Seq<Task> {
    v.map_values(|t: &Task| *t)
}

/// Whether the tasks of `v` stand in the order of their names.
pub open spec fn sorted_by_name(v: Seq<Task>) -> bool {
    forall|i: int, j: int| 0 <= i < j < v.len() ==> !text_before(v[j]@.name, v[i]@.name)
}

impl TaskStore {
    /// All task definitions, ordered by name; tasks of one name keep the order in which
    /// they were inserted.
    pub fn list(&self) -> (r: Vec<&Task>)
        ensures
            sorted_by_name(targets(r@)),
            targets(r@).to_multiset() == self.tasks.values().to_multiset(),
            r.len() == self.tasks.names().len(),
    {
        broadcast use vstd::seq_lib::group_to_multiset_ensures;

        let n = self.tasks.len();
        let mut out: Vec<&Task> = Vec::new();
        let mut i: usize = 0;
        assert(self.tasks.values().take(0) =~= Seq::<Task>::empty());
        assert(targets(out@) =~= Seq::<Task>::empty());
        while i < n
            invariant
                i <= n,
                n == self.tasks.names().len(),
                n == self.tasks.values().len(),
                out.len() == i,
                sorted_by_name(targets(out@)),
                targets(out@).to_multiset() == self.tasks.values().take(i as int).to_multiset(),
            decreases n - i,
        {
            let t = self.tasks.value_at(i);
            let mut p: usize = 0;
            while p < out.len() && !comes_before(t.name(), out[p].name())
                invariant
                    p <= out.len(),
                    out.len() == i,
                    sorted_by_name(targets(out@)),
                    targets(out@).to_multiset() == self.tasks.values().take(i as int).to_multiset(),
                    forall|q: int| 0 <= q < p ==> !text_before(t@.name, targets(out@)[q]@.name),
                decreases out.len() - p,
            {
                p += 1;
            }
            let ghost before = targets(out@);
            let ghost seen = self.tasks.values().take(i as int);
            assert(p < out.len() ==> text_before(t@.name, before[p as int]@.name));
            assert(forall|q: int| 0 <= q < p ==> !text_before(t@.name, #[trigger] before[q]@.name));
            out.insert(p, t);
            proof {
                let after = targets(out@);
                assert(after =~= before.insert(p as int, *t));
                vstd::seq_lib::to_multiset_insert(before, p as int, *t);
                assert(after.to_multiset() == before.to_multiset().insert(*t));
                assert(self.tasks.values().take(i + 1) =~= seen.push(*t));
                vstd::seq_lib::to_multiset_build(seen, *t);
                assert(seen.push(*t).to_multiset() =~= seen.to_multiset().insert(*t));
                assert(after.to_multiset() == self.tasks.values().take(i + 1).to_multiset());
                assert forall|a: int, b: int| 0 <= a < b < after.len() implies !text_before(
                    after[b]@.name,
                    after[a]@.name,
                ) by {
                    if b == p {
                        assert(after[b] == *t);
                        assert(after[a] == before[a]);
                        assert(!text_before(t@.name, before[a]@.name));
                    } else if a == p {
                        let q = b - 1;
                        assert(after[a] == *t);
                        assert(after[b] == before[q]);
                        assert(text_before(t@.name, before[p as int]@.name));
                        crate::text::lemma_text_before_total(t@.name, before[p as int]@.name);
                        if q > p {
                            assert(!text_before(before[q]@.name, before[p as int]@.name));
                        }
                        if text_before(before[q]@.name, t@.name) {
                            lemma_text_before_transitive(
                                before[q]@.name,
                                t@.name,
                                before[p as int]@.name,
                            );
                        }
                    } else {
                        let a0 = if a < p { a } else { a - 1 };
                        let b0 = if b < p { b } else { b - 1 };
                        assert(after[a] == before[a0] && after[b] == before[b0]);
                        assert(!text_before(before[b0]@.name, before[a0]@.name));
                    }
                }
            }
            i += 1;
        }
        assert(self.tasks.values().take(n as int) =~= self.tasks.values());
        out
    }
}

} // verus!
