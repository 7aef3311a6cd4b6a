//! What the store checks: task names, references to tasks, transitions, and the
//! definitions as a whole.

use vstd::prelude::*;
use crate::error::{WtError, WtErrorModel};
use crate::graph::reaches_cycle;
use crate::models::status::status_in;
use crate::models::store::{StoreModel, TaskStore, TasksModel, cycle_found, sorted_by_name, targets};
use crate::models::task::{Task, TaskModel, TaskStatus};
use crate::text::{all_digits, char_is_space, chars_of, contains_char, contains_text, digits_value, ends_with, find_last, has_infix, has_suffix, is_space, join, joined, last_place, parse_digits, same_text, string_of_range, texts};

verus! {

/// The characters that git refuses in a branch name, in the order in which a name is
/// searched for them.
pub open spec fn forbidden_chars() -> Seq<char> {
    seq!['~', '^', ':', '?', '*', '[', '\\', '@', '{']
}

/// The first character of `list` that occurs in `name`.
pub open spec fn first_listed(name: Seq<char>, list: Seq<char>) -> Option<char>
    decreases list.len(),
{
    if list.len() == 0 {
        None
    } else if name.contains(list[0]) {
        Some(list[0])
    } else {
        first_listed(name, list.drop_first())
    }
}

/// Whether some character of `name` is white space.
pub open spec fn has_space(name: Seq<char>) -> bool {
    exists|i: int| 0 <= i < name.len() && is_space(#[trigger] name[i])
}

/// What is wrong with `name` as a task name, by the first rule that it breaks; `None`
/// for a name that can serve as part of a branch name.
pub open spec fn name_fault(name: Seq<char>) -> Option<Seq<char>> {
    if name.len() == 0 {
        Some("name cannot be empty"@)
    } else if name.contains('/') || name.contains('\\') {
        Some("name cannot contain path separators"@)
    } else if has_space(name) {
        Some("name cannot contain whitespace (invalid for git branch)"@)
    } else if first_listed(name, forbidden_chars()) is Some {
        Some(
            "name cannot contain '"@.push(first_listed(name, forbidden_chars())->Some_0)
                + "' (invalid for git branch)"@,
        )
    } else if name[0] == '-' || name[0] == '.' {
        Some("name cannot start with '-' or '.' (invalid for git branch)"@)
    } else if name.last() == '.' || has_suffix(name, seq!['.', 'l', 'o', 'c', 'k']) {
        Some("name cannot end with '.' or '.lock' (invalid for git branch)"@)
    } else if has_infix(name, seq!['.', '.']) {
        Some("name cannot contain '..' (invalid for git branch)"@)
    } else {
        None
    }
}

/// Whether some character of `name` is white space.
fn contains_space(name: &Vec<char>) -> (r: bool)
    ensures
        r == has_space(name@),
{
    let mut i: usize = 0;
    while i < name.len()
        invariant
            i <= name.len(),
            forall|k: int| 0 <= k < i ==> !is_space(#[trigger] name@[k]),
        decreases name.len() - i,
    {
        if char_is_space(name[i]) {
            return true;
        }
        i += 1;
    }
    false
}

/// The first character of `list[from..]` that occurs in `name`.
fn find_listed(name: &Vec<char>, list: &Vec<char>) -> (r: Option<char>)
    ensures
        r == first_listed(name@, list@),
{
    let mut i: usize = 0;
    assert(list@.skip(0) =~= list@);
    while i < list.len()
        invariant
            i <= list.len(),
            first_listed(name@, list@) == first_listed(name@, list@.skip(i as int)),
        decreases list.len() - i,
    {
        let ghost rest = list@.skip(i as int);
        assert(rest[0] == list@[i as int]);
        assert(rest.drop_first() =~= list@.skip(i + 1));
        if contains_char(name, list[i]) {
            return Some(list[i]);
        }
        i += 1;
    }
    None
}

/// The part of a path that names the file, without its extension: what follows the last
/// `/` once trailing `/` are dropped, up to its last `.` unless that `.` comes first.
/// Empty for a path that ends in `..`.
pub open spec fn file_stem(path: Seq<char>) -> Seq<char>
    decreases path.len(),
{
    if path.len() > 0 && path.last() == '/' {
        file_stem(path.drop_last())
    } else {
        let base = match last_place(path, '/') {
            Some(i) => path.subrange(i + 1, path.len() as int),
            None => path,
        };
        if base == seq!['.', '.'] {
            Seq::<char>::empty()
        } else {
            match last_place(base, '.') {
                Some(i) => if i == 0 {
                    base
                } else {
                    base.take(i)
                },
                None => base,
            }
        }
    }
}

/// The file stem of `path`.
pub fn stem_of(path: &str) -> (r: String)
    ensures
        r@ == file_stem(path@),
{
    let p = chars_of(path);
    let mut end: usize = p.len();
    assert(p@.take(end as int) =~= p@);
    while end > 0 && p[end - 1] == '/'
        invariant
            end <= p.len(),
            file_stem(p@) == file_stem(p@.take(end as int)),
        decreases end,
    {
        assert(p@.take(end as int).last() == p@[end - 1]);
        assert(p@.take(end as int).drop_last() =~= p@.take(end - 1));
        end -= 1;
    }
    let ghost kept = p@.take(end as int);
    assert(end > 0 ==> kept.last() == p@[end - 1]);
    let start: usize = match find_last(&p, end, '/') {
        Some(i) => i + 1,
        None => 0,
    };
    let base = chars_between(&p, start, end);
    proof {
        assert(kept.subrange(0, end as int) =~= kept);
        assert(base@ =~= kept.subrange(start as int, kept.len() as int));
        assert(start == 0 ==> base@ =~= kept);
    }
    if base.len() == 2 && base[0] == '.' && base[1] == '.' {
        assert(base@ =~= seq!['.', '.']);
        return String::new();
    }
    assert(base@ != seq!['.', '.']) by {
        if base@ == seq!['.', '.'] {
            assert(base@[0] == '.' && base@[1] == '.');
        }
    }
    assert(base@.take(base.len() as int) =~= base@);
    match find_last(&base, base.len(), '.') {
        Some(i) => {
            if i == 0 {
                crate::text::string_of(&base)
            } else {
                assert(base@.subrange(0, i as int) =~= base@.take(i as int));
                string_of_range(&base, 0, i)
            }
        },
        None => crate::text::string_of(&base),
    }
}

/// The characters `v[from..to]`.
pub fn chars_between(v: &Vec<char>, from: usize, to: usize) -> (r: Vec<char>)
    requires
        from <= to <= v.len(),
    ensures
        r@ == v@.subrange(from as int, to as int),
{
    let mut r: Vec<char> = Vec::new();
    let mut i: usize = from;
    while i < to
        invariant
            from <= i <= to <= v.len(),
            r@ == v@.subrange(from as int, i as int),
        decreases to - i,
    {
        r.push(v[i]);
        assert(v@.subrange(from as int, i + 1) =~= v@.subrange(from as int, i as int).push(
            v@[i as int],
        ));
        i += 1;
    }
    r
}

impl TaskStore {
    /// Checks that `name` can serve as a task name and as part of a git branch name.
    pub fn validate_task_name(name: &str) -> (r: Result<(), WtError>)
        ensures
            match name_fault(name@) {
                None => r is Ok,
                Some(m) => r is Err && r->Err_0@ == WtErrorModel::InvalidTaskFile(m),
            },
    {
        let n = chars_of(name);
        if n.len() == 0 {
            return Err(WtError::InvalidTaskFile(String::from_str("name cannot be empty")));
        }
        if contains_char(&n, '/') || contains_char(&n, '\\') {
            return Err(
                WtError::InvalidTaskFile(String::from_str("name cannot contain path separators")),
            );
        }
        if contains_space(&n) {
            return Err(
                WtError::InvalidTaskFile(
                    String::from_str("name cannot contain whitespace (invalid for git branch)"),
                ),
            );
        }
        let list: Vec<char> = vec!['~', '^', ':', '?', '*', '[', '\\', '@', '{'];
        assert(list@ =~= forbidden_chars());
        match find_listed(&n, &list) {
            Some(c) => {
                let mut m = String::from_str("name cannot contain '");
                m.push(c);
                m.append("' (invalid for git branch)");
                return Err(WtError::InvalidTaskFile(m));
            },
            None => {},
        }
        if n[0] == '-' || n[0] == '.' {
            return Err(
                WtError::InvalidTaskFile(
                    String::from_str("name cannot start with '-' or '.' (invalid for git branch)"),
                ),
            );
        }
        let lock: Vec<char> = vec!['.', 'l', 'o', 'c', 'k'];
        assert(lock@ =~= seq!['.', 'l', 'o', 'c', 'k']);
        if n[n.len() - 1] == '.' || ends_with(&n, &lock) {
            return Err(
                WtError::InvalidTaskFile(
                    String::from_str(
                        "name cannot end with '.' or '.lock' (invalid for git branch)",
                    ),
                ),
            );
        }
        let dots: Vec<char> = vec!['.', '.'];
        assert(dots@ =~= seq!['.', '.']);
        if contains_text(&n, &dots) {
            return Err(
                WtError::InvalidTaskFile(
                    String::from_str("name cannot contain '..' (invalid for git branch)"),
                ),
            );
        }
        Ok(())
    }

    /// Checks that the task `name` may move to `target`.
    pub fn validate_transition(&self, name: &str, target: TaskStatus) -> (r: Result<(), WtError>)
        ensures
            status_in(self@.status, name@).allows(target) ==> r is Ok,
            !status_in(self@.status, name@).allows(target) ==> r is Err && r->Err_0@
                == (WtErrorModel::InvalidStateTransition {
                from: status_in(self@.status, name@).label(),
                to: target.label(),
            }),
    {
        let current = self.get_status(name);
        if current.can_transition_to(&target) {
            Ok(())
        } else {
            Err(
                WtError::InvalidStateTransition {
                    from: String::from_str(current.display_name()),
                    to: String::from_str(target.display_name()),
                },
            )
        }
    }
}

/// A finding of the validation: what it is about, and what is wrong.
pub type Finding = (Seq<char>, Seq<char>);

/// The views of a list of findings.
pub open spec fn findings(v: Seq<(String, String)>) -> Seq<Finding> {
    v.map_values(|p: (String, String)| (p.0@, p.1@))
}

/// The view of an optional list of names.
pub open spec fn opt_texts(o: Option<Vec<String>>) -> Option<Seq<Seq<char>>> {
    match o {
        Some(v) => Some(texts(v@)),
        None => None,
    }
}

/// One finding for each entry of `deps` that names no defined task, in order.
pub open spec fn missing_findings(
    tasks: TasksModel,
    name: Seq<char>,
    deps: Seq<Seq<char>>,
) -> Seq<Finding>
    decreases deps.len(),
{
    if deps.len() == 0 {
        Seq::<Finding>::empty()
    } else {
        let rest = missing_findings(tasks, name, deps.drop_last());
        if tasks.dom().contains(deps.last()) {
            rest
        } else {
            rest.push((name, "depends on '"@ + deps.last() + "' which doesn't exist"@))
        }
    }
}

/// A finding where the name of the task is not the stem of its file's name.
pub open spec fn mismatch_findings(t: TaskModel) -> Seq<Finding> {
    if t.name == file_stem(t.file_path) {
        Seq::<Finding>::empty()
    } else {
        seq![
            (
                t.file_path,
                "frontmatter name '"@ + t.name + "' doesn't match filename '"@ + file_stem(
                    t.file_path,
                ) + "'"@,
            ),
        ]
    }
}

/// A finding for the cycle that was found from the task, if one was.
pub open spec fn cycle_findings(name: Seq<char>, cycle: Option<Seq<Seq<char>>>) -> Seq<Finding> {
    match cycle {
        Some(c) => seq![(name, "circular dependency detected: "@ + joined(c, " -> "@))],
        None => Seq::<Finding>::empty(),
    }
}

/// The findings about one task: its missing dependencies, then a file name that does not
/// match, then a cycle.
pub open spec fn task_findings(
    tasks: TasksModel,
    t: TaskModel,
    cycle: Option<Seq<Seq<char>>>,
) -> Seq<Finding> {
    missing_findings(tasks, t.name, t.depends) + mismatch_findings(t) + cycle_findings(
        t.name,
        cycle,
    )
}

/// The findings about the tasks of `l`, in order, where `cycles` holds what the search
/// for a cycle brought back for each.
pub open spec fn all_findings(
    tasks: TasksModel,
    l: Seq<Task>,
    cycles: Seq<Option<Seq<Seq<char>>>>,
) -> Seq<Finding>
    decreases l.len(),
{
    if l.len() == 0 || cycles.len() == 0 {
        Seq::<Finding>::empty()
    } else {
        all_findings(tasks, l.drop_last(), cycles.drop_last()) + task_findings(
            tasks,
            l.last()@,
            cycles.last(),
        )
    }
}

/// What a search for a cycle from `start` may answer: a cycle exactly when one can be
/// reached, found at the end of a walk from `start`.
pub open spec fn cycle_answer(s: StoreModel, start: Seq<char>, c: Option<Seq<Seq<char>>>) -> bool {
    &&& c is Some <==> reaches_cycle(s.graph(), start)
    &&& c is Some ==> exists|lead: Seq<Seq<char>>| #[trigger]
        cycle_found(s.graph(), seq![start], lead, c->Some_0)
}

impl TaskStore {
    /// Whether `l` lists the defined tasks by name.
    pub open spec fn is_listing(&self, l: Seq<Task>) -> bool {
        sorted_by_name(l) && l.to_multiset() == self.tasks.values().to_multiset()
    }

    /// Whether `found` holds the findings about the tasks in the listing `l`, with
    /// `cycles` as the answers of the search for a cycle from each task.
    pub open spec fn validated(
        &self,
        l: Seq<Task>,
        cycles: Seq<Option<Seq<Seq<char>>>>,
        found: Seq<Finding>,
    ) -> bool {
        &&& self.is_listing(l)
        &&& cycles.len() == l.len()
        &&& forall|i: int| 0 <= i < l.len() ==> cycle_answer(self@, l[i]@.name, #[trigger] cycles[i])
        &&& found == all_findings(self@.tasks, l, cycles)
    }

    /// The findings about one task, given what the search for a cycle from it brought
    /// back.
    pub fn task_findings(&self, task: &Task, cycle: &Option<Vec<String>>) -> (r: Vec<
        (String, String),
    >)
        ensures
            findings(r@) == task_findings(self@.tasks, task@, opt_texts(*cycle)),
    {
        let mut r: Vec<(String, String)> = Vec::new();
        let deps = &task.frontmatter.depends;
        let mut i: usize = 0;
        assert(texts(deps@).take(0) =~= Seq::<Seq<char>>::empty());
        assert(findings(r@) =~= Seq::<Finding>::empty());
        while i < deps.len()
            invariant
                i <= deps.len(),
                deps == &task.frontmatter.depends,
                findings(r@) == missing_findings(
                    self@.tasks,
                    task@.name,
                    texts(deps@).take(i as int),
                ),
            decreases deps.len() - i,
        {
            let ghost before = texts(deps@).take(i as int);
            let ghost after = texts(deps@).take(i + 1);
            proof {
                assert(after.drop_last() =~= before);
                assert(after.last() == deps@[i as int]@);
            }
            if !self.tasks.contains_key(deps[i].as_str()) {
                let mut m = String::from_str("depends on '");
                m.append(deps[i].as_str());
                m.append("' which doesn't exist");
                let ghost old_r = r@;
                let subject = task.frontmatter.name.clone();
                r.push((subject, m));
                proof {
                    assert(findings(r@) =~= findings(old_r).push((task@.name, m@)));
                }
            }
            i += 1;
        }
        assert(texts(deps@).take(deps.len() as int) =~= texts(deps@));
        let stem = stem_of(task.file_path.as_str());
        if !same_text(task.name(), stem.as_str()) {
            let mut m = String::from_str("frontmatter name '");
            m.append(task.name());
            m.append("' doesn't match filename '");
            m.append(stem.as_str());
            m.append("'");
            let ghost old_r = r@;
            let subject = task.file_path.clone();
            r.push((subject, m));
            proof {
                assert(findings(r@) =~= findings(old_r) + mismatch_findings(task@));
            }
        } else {
            assert(findings(r@) =~= findings(r@) + mismatch_findings(task@));
        }
        match cycle {
            Some(c) => {
                let mut m = String::from_str("circular dependency detected: ");
                let j = join(c, " -> ");
                m.append(j.as_str());
                let ghost old_r = r@;
                let subject = task.frontmatter.name.clone();
                r.push((subject, m));
                proof {
                    assert(findings(r@) =~= findings(old_r) + cycle_findings(
                        task@.name,
                        opt_texts(*cycle),
                    ));
                }
            },
            None => {
                assert(findings(r@) =~= findings(r@) + cycle_findings(
                    task@.name,
                    opt_texts(*cycle),
                ));
            },
        }
        r
    }

    /// Checks every defined task, in the order of the listing by name: dependencies that
    /// name no defined task, a task name that differs from its file's name, and a
    /// dependency cycle that can be reached from the task. An empty result means that
    /// nothing is wrong.
    pub fn validate(&self) -> (r: Vec<(String, String)>)
        ensures
            exists|l: Seq<Task>, cycles: Seq<Option<Seq<Seq<char>>>>| #[trigger]
                self.validated(l, cycles, findings(r@)),
    {
        let tasks = self.list();
        let ghost l = targets(tasks@);
        let ghost mut cycles: Seq<Option<Seq<Seq<char>>>> = Seq::empty();
        let mut r: Vec<(String, String)> = Vec::new();
        let mut i: usize = 0;
        assert(l.take(0) =~= Seq::<Task>::empty());
        assert(findings(r@) =~= Seq::<Finding>::empty());
        while i < tasks.len()
            invariant
                i <= tasks.len(),
                l == targets(tasks@),
                cycles.len() == i,
                forall|k: int| 0 <= k < i ==> cycle_answer(self@, l[k]@.name, #[trigger] cycles[k]),
                findings(r@) == all_findings(self@.tasks, l.take(i as int), cycles),
            decreases tasks.len() - i,
        {
            let task = tasks[i];
            assert(*task == l[i as int]);
            let cycle = self.detect_cycle(task.name());
            let mut more = self.task_findings(task, &cycle);
            let ghost old_r = r@;
            let ghost old_cycles = cycles;
            let ghost added = findings(more@);
            proof {
                cycles = cycles.push(opt_texts(cycle));
                assert(cycles.drop_last() =~= old_cycles);
                assert(l.take(i + 1).drop_last() =~= l.take(i as int));
                assert(l.take(i + 1).last() == l[i as int]);
                assert forall|k: int| 0 <= k < i + 1 implies cycle_answer(
                    self@,
                    l[k]@.name,
                    #[trigger] cycles[k],
                ) by {
                    if k < i {
                        assert(cycles[k] == old_cycles[k]);
                    }
                }
            }
            r.append(&mut more);
            proof {
                assert(findings(r@) =~= findings(old_r) + added);
            }
            i += 1;
        }
        proof {
            assert(l.take(tasks.len() as int) =~= l);
            assert(self.validated(l, cycles, findings(r@)));
        }
        r
    }
}

/// The place in the listing that `r` refers to when read as a display index: `r` is a
/// run of decimal digits that writes a number from 1 to `count`.
pub open spec fn ref_index(r: Seq<char>, count: nat) -> Option<int> {
    if r.len() > 0 && all_digits(r) && 1 <= digits_value(r) <= count {
        Some(digits_value(r) - 1)
    } else {
        None
    }
}

impl StoreModel {
    /// Whether `name` is the name of a defined task or of a recorded state.
    pub open spec fn knows(self, name: Seq<char>) -> bool {
        self.tasks.dom().contains(name) || self.status.dom().contains(name)
    }
}

impl TaskStore {
    /// Whether `r` is what the reference `task_ref` resolves to: the reference itself
    /// where the store knows it as a name; else the name at the place that it gives in a
    /// listing by name; else the failure `TaskNotFound`.
    pub open spec fn resolved(&self, task_ref: Seq<char>, r: Result<String, WtError>) -> bool {
        if self@.knows(task_ref) {
            r is Ok && r->Ok_0@ == task_ref
        } else {
            match ref_index(task_ref, self.tasks.names().len()) {
                Some(i) => r is Ok && exists|l: Seq<Task>| #[trigger]
                    self.is_listing(l) && l.len() == self.tasks.names().len() && r->Ok_0@
                        == l[i]@.name,
                None => r is Err && r->Err_0@ == WtErrorModel::TaskNotFound(task_ref),
            }
        }
    }

    /// Resolves a reference to a task: the name of a defined task or of a recorded state,
    /// or else the 1-based place of a task in the listing by name.
    pub fn resolve_task_ref(&self, task_ref: &str) -> (r: Result<String, WtError>)
        ensures
            self.resolved(task_ref@, r),
    {
        if self.tasks.contains_key(task_ref) || self.status.name_exists(task_ref) {
            return Ok(String::from_str(task_ref));
        }
        let chars = chars_of(task_ref);
        let tasks = self.list();
        assert(chars@.subrange(0, chars.len() as int) =~= chars@);
        let limit: u64 = tasks.len() as u64;
        match parse_digits(&chars, 0, chars.len(), limit) {
            Some(n) => {
                if n >= 1 {
                    let i: usize = (n - 1) as usize;
                    let name = String::from_str(tasks[i].name());
                    proof {
                        let l = targets(tasks@);
                        assert(self.is_listing(l));
                        assert(l[i as int] == *tasks@[i as int]);
                    }
                    Ok(name)
                } else {
                    Err(WtError::TaskNotFound(String::from_str(task_ref)))
                }
            },
            None => Err(WtError::TaskNotFound(String::from_str(task_ref))),
        }
    }
}

} // verus!
