//! Task definition files: a header between two lines of dashes, then free text.

use vstd::prelude::*;
use crate::error::{WtError, WtErrorModel};
use crate::models::json::{json_error, json_fault, json_kind, json_kind_at, json_list, json_list_at, json_text, json_text_at};
use crate::models::store::TaskStore;
use crate::models::task::{FrontmatterModel, Task, TaskFrontmatter, TaskModel};
use crate::models::yaml::{key, yaml_error, yaml_fault, yaml_kind, yaml_kind_at, yaml_list, yaml_list_at, yaml_scalar, yaml_sequence, yaml_text, yaml_text_at, yaml_write_scalar, yaml_write_sequence};
use crate::models::status::StatusStore;
use crate::models::store::TasksModel;
use crate::text::{chars_of, copy_texts, ends_with, find_from, find_in, has_prefix, has_suffix, lemma_find_from, string_of_range, texts, trim_bounds, trimmed};

verus! {

/// The two parts of a task file, as plain sequences.
pub struct FramedModel {
    pub header: Seq<char>,
    pub body: Seq<char>,
}

/// The two parts of a task file: the text of the header, and the body without the white
/// space around it.
#[derive(Debug)]
pub struct Framed {
    pub header: String,
    pub body: String,
}

impl View for Framed {
    type V = FramedModel;

    open spec fn view(&self) -> FramedModel {
        FramedModel { header: self.header@, body: self.body@ }
    }
}

/// The line of three dashes that stands before and after the header.
pub open spec fn fence() -> Seq<char> {
    seq!['-', '-', '-']
}

/// How a task file falls into header and body. The file, without the white space around
/// it, begins with three dashes; the header runs from there to the next three dashes;
/// the body is what follows those, without the white space around it.
pub open spec fn framed(content: Seq<char>) -> Result<FramedModel, Seq<char>> {
    let c = trimmed(content);
    if !has_prefix(c, fence()) {
        Err("Missing frontmatter (must start with ---)"@)
    } else {
        let rest = c.skip(3);
        match find_from(rest, fence(), 0) {
            None => Err("Missing frontmatter end (---)"@),
            Some(end) => Ok(
                FramedModel { header: rest.take(end), body: trimmed(rest.skip(end + 3)) },
            ),
        }
    }
}

/// What the header of a task file declares: a string under `name`, and under `depends`,
/// where that key is there, a list of strings.
pub open spec fn header_of(yaml: Seq<char>) -> Result<FrontmatterModel, Seq<char>> {
    match yaml_fault(yaml) {
        Some(e) => Err("Invalid frontmatter YAML: "@ + e),
        None => match yaml_text_at(yaml, seq!["name"@]) {
            None => Err("Invalid frontmatter YAML: missing field `name`"@),
            Some(name) => if yaml_kind_at(yaml, seq!["depends"@]) is None {
                Ok(FrontmatterModel { name, depends: Seq::empty() })
            } else {
                match yaml_list_at(yaml, seq!["depends"@]) {
                    Some(depends) => Ok(FrontmatterModel { name, depends }),
                    None => Err("Invalid frontmatter YAML: depends: expected a sequence"@),
                }
            },
        },
    }
}

/// The task that a file at `file_path` with the text `content` defines.
pub open spec fn task_of(content: Seq<char>, file_path: Seq<char>) -> Result<
    TaskModel,
    WtErrorModel,
> {
    match framed(content) {
        Err(m) => Err(WtErrorModel::InvalidTaskFile(m)),
        Ok(f) => match header_of(f.header) {
            Err(m) => Err(WtErrorModel::InvalidTaskFile(m)),
            Ok(h) => Ok(
                TaskModel { name: h.name, depends: h.depends, content: f.body, file_path },
            ),
        },
    }
}

/// The header lines of a task: the name, and the dependencies where there are any.
pub open spec fn header_text(f: FrontmatterModel) -> Seq<char> {
    "name: "@ + yaml_scalar(f.name) + if f.depends.len() > 0 {
        "depends:\n"@ + yaml_sequence(f.depends)
    } else {
        Seq::<char>::empty()
    }
}

/// The text of a task file: the header between two lines of dashes, an empty line, the
/// free text and a line end.
pub open spec fn markdown_of(f: FrontmatterModel, content: Seq<char>) -> Seq<char> {
    "---\n"@ + header_text(f) + "---\n\n"@ + content + "\n"@
}

/// Splits the text of a task file into header and body.
pub fn split_frontmatter(content: &str) -> (r: Result<Framed, String>)
    ensures
        match framed(content@) {
            Ok(f) => r is Ok && r->Ok_0@ == f,
            Err(m) => r is Err && r->Err_0@ == m,
        },
{
    let all = chars_of(content);
    assert(all@.subrange(0, all.len() as int) =~= all@);
    let (a, b) = trim_bounds(&all, 0, all.len());
    let ghost c = all@.subrange(a as int, b as int);
    let marks: Vec<char> = vec!['-', '-', '-'];
    assert(marks@ =~= fence());
    let begins = b - a >= 3 && all[a] == '-' && all[a + 1] == '-' && all[a + 2] == '-';
    proof {
        if begins {
            assert(c.subrange(0, 3) =~= fence());
        } else if c.len() >= 3 {
            let p = c.subrange(0, 3);
            assert(p[0] == all@[a as int] && p[1] == all@[a + 1] && p[2] == all@[a + 2]);
            assert(fence()[0] == '-' && fence()[1] == '-' && fence()[2] == '-');
        }
    }
    if !begins {
        return Err(String::from_str("Missing frontmatter (must start with ---)"));
    }
    let rest = crate::models::checks::chars_between(&all, a + 3, b);
    assert(rest@ =~= c.skip(3));
    match find_in(&rest, &marks, 0) {
        None => Err(String::from_str("Missing frontmatter end (---)")),
        Some(end) => {
            proof {
                lemma_find_from(rest@, fence(), 0);
                assert(rest@.subrange(0, end as int) =~= rest@.take(end as int));
                assert(rest@.subrange(end + 3, rest.len() as int) =~= rest@.skip(end + 3));
            }
            let header = string_of_range(&rest, 0, end);
            let (x, y) = trim_bounds(&rest, end + 3, rest.len());
            let body = string_of_range(&rest, x, y);
            Ok(Framed { header, body })
        },
    }
}

/// Reads the header of a task file.
pub fn read_header(yaml: &str) -> (r: Result<TaskFrontmatter, String>)
    ensures
        match header_of(yaml@) {
            Ok(h) => r is Ok && r->Ok_0@ == h,
            Err(m) => r is Err && r->Err_0@ == m,
        },
{
    match yaml_error(yaml) {
        Some(e) => {
            let mut m = String::from_str("Invalid frontmatter YAML: ");
            m.append(e.as_str());
            return Err(m);
        },
        None => {},
    }
    let name_key = key("name");
    let depends_key = key("depends");
    let name = match yaml_text(yaml, &name_key) {
        Some(n) => n,
        None => {
            return Err(String::from_str("Invalid frontmatter YAML: missing field `name`"));
        },
    };
    if yaml_kind(yaml, &depends_key).is_none() {
        let depends: Vec<String> = Vec::new();
        assert(texts(depends@) =~= Seq::<Seq<char>>::empty());
        return Ok(TaskFrontmatter { name, depends });
    }
    match yaml_list(yaml, &depends_key) {
        Some(depends) => Ok(TaskFrontmatter { name, depends }),
        None => Err(String::from_str("Invalid frontmatter YAML: depends: expected a sequence")),
    }
}

/// Writes a task file: the header of `frontmatter` and the free text `content`.
pub fn format_task_markdown(frontmatter: &TaskFrontmatter, content: &str) -> (r: String)
    ensures
        r@ == markdown_of(frontmatter@, content@),
{
    let mut r = String::from_str("---\n");
    r.append("name: ");
    let n = yaml_write_scalar(frontmatter.name.as_str());
    r.append(n.as_str());
    if frontmatter.depends.len() > 0 {
        r.append("depends:\n");
        let d = yaml_write_sequence(&frontmatter.depends);
        r.append(d.as_str());
    }
    r.append("---\n\n");
    r.append(content);
    r.append("\n");
    proof {
        assert(r@ =~= markdown_of(frontmatter@, content@));
    }
    r
}

/// What is needed to make a task: its name, what it depends on, and its description.
#[derive(Debug)]
pub struct TaskInput {
    pub name: String,
    pub depends: Vec<String>,
    pub description: String,
}

impl TaskInput {
    /// The text of the task file for this input.
    pub fn to_markdown(&self) -> (r: String)
        ensures
            r@ == markdown_of(
                FrontmatterModel { name: self.name@, depends: texts(self.depends@) },
                self.description@,
            ),
    {
        let frontmatter = TaskFrontmatter {
            name: self.name.clone(),
            depends: copy_texts(&self.depends),
        };
        format_task_markdown(&frontmatter, self.description.as_str())
    }
}

impl TaskStore {
    /// Reads the task that a file at `file_path` with the text `content` defines.
    pub fn parse_markdown(content: &str, file_path: String) -> (r: Result<Task, WtError>)
        ensures
            match task_of(content@, file_path@) {
                Ok(t) => r is Ok && r->Ok_0@ == t,
                Err(e) => r is Err && r->Err_0@ == e,
            },
    {
        match split_frontmatter(content) {
            Err(m) => Err(WtError::InvalidTaskFile(m)),
            Ok(f) => match read_header(f.header.as_str()) {
                Err(m) => Err(WtError::InvalidTaskFile(m)),
                Ok(frontmatter) => Ok(Task { frontmatter, content: f.body, file_path }),
            },
        }
    }
}

/// What is needed to make a task, as plain sequences.
pub struct TaskInputModel {
    pub name: Seq<char>,
    pub depends: Seq<Seq<char>>,
    pub description: Seq<char>,
}

impl View for TaskInput {
    type V = TaskInputModel;

    open spec fn view(&self) -> TaskInputModel {
        TaskInputModel {
            name: self.name@,
            depends: texts(self.depends@),
            description: self.description@,
        }
    }
}

/// The input that a JSON object stands for: strings under `name` and `description`, and
/// under `depends`, where that key is there, a list of strings.
pub open spec fn input_of(text: Seq<char>) -> Result<TaskInputModel, Seq<char>> {
    match json_fault(text) {
        Some(e) => Err(e),
        None => if json_text_at(text, seq!["name"@]) is None {
            Err("missing field `name`"@)
        } else if json_text_at(text, seq!["description"@]) is None {
            Err("missing field `description`"@)
        } else if json_kind_at(text, seq!["depends"@]) is Some && json_list_at(
            text,
            seq!["depends"@],
        ) is None {
            Err("invalid type: depends must be a list of strings"@)
        } else {
            Ok(
                TaskInputModel {
                    name: json_text_at(text, seq!["name"@])->Some_0,
                    depends: if json_kind_at(text, seq!["depends"@]) is Some {
                        json_list_at(text, seq!["depends"@])->Some_0
                    } else {
                        Seq::empty()
                    },
                    description: json_text_at(text, seq!["description"@])->Some_0,
                },
            )
        },
    }
}

impl TaskInput {
    /// Reads the input for a new task from the text of a JSON object.
    pub fn from_json(text: &str) -> (r: Result<TaskInput, WtError>)
        ensures
            match input_of(text@) {
                Ok(i) => r is Ok && r->Ok_0@ == i,
                Err(m) => r is Err && r->Err_0@ == WtErrorModel::InvalidJson(m),
            },
    {
        match json_error(text) {
            Some(e) => {
                return Err(WtError::InvalidJson(e));
            },
            None => {},
        }
        let name = match json_text(text, &key("name")) {
            Some(n) => n,
            None => {
                return Err(WtError::InvalidJson(String::from_str("missing field `name`")));
            },
        };
        let description = match json_text(text, &key("description")) {
            Some(d) => d,
            None => {
                return Err(
                    WtError::InvalidJson(String::from_str("missing field `description`")),
                );
            },
        };
        let depends_key = key("depends");
        let depends = if json_kind(text, &depends_key).is_some() {
            match json_list(text, &depends_key) {
                Some(l) => l,
                None => {
                    return Err(
                        WtError::InvalidJson(
                            String::from_str("invalid type: depends must be a list of strings"),
                        ),
                    );
                },
            }
        } else {
            let l: Vec<String> = Vec::new();
            assert(texts(l@) =~= Seq::<Seq<char>>::empty());
            l
        };
        Ok(TaskInput { name, depends, description })
    }
}

/// Why no task can be made from `input`, where `file_exists` tells whether a file stands
/// where the task's file would go: the name cannot serve, the file is there, or a
/// dependency names no defined task.
pub open spec fn create_refusal(
    tasks: crate::models::store::TasksModel,
    input: TaskInputModel,
    file_exists: bool,
) -> Option<WtErrorModel> {
    if crate::models::checks::name_fault(input.name) is Some {
        Some(WtErrorModel::InvalidTaskFile(crate::models::checks::name_fault(input.name)->Some_0))
    } else if file_exists {
        Some(WtErrorModel::TaskExists(input.name))
    } else {
        match first_undefined(tasks, input.depends) {
            Some(i) => Some(WtErrorModel::DependencyNotFound(input.depends[i])),
            None => None,
        }
    }
}

/// The place of the first of `deps` that names no defined task.
pub open spec fn first_undefined(
    tasks: crate::models::store::TasksModel,
    deps: Seq<Seq<char>>,
) -> Option<int>
    decreases deps.len(),
{
    if deps.len() == 0 {
        None
    } else if !tasks.dom().contains(deps[0]) {
        Some(0)
    } else {
        match first_undefined(tasks, deps.drop_first()) {
            Some(i) => Some(i + 1),
            None => None,
        }
    }
}

/// The path of the file of the task `name`.
pub open spec fn task_file_of(name: Seq<char>) -> Seq<char> {
    ".wt/tasks"@ + "/"@ + name + ".md"@
}

/// The path of the file of the task `name`.
pub fn task_file(name: &str) -> (r: String)
    ensures
        r@ == task_file_of(name@),
{
    let mut r = String::from_str(crate::constants::TASKS_DIR);
    r.append("/");
    r.append(name);
    r.append(".md");
    r
}

impl TaskStore {
    /// Checks that a task can be made from `input` and hands back the text of its file.
    /// `file_exists` tells whether a file stands where the task's file would go.
    pub fn create(&self, input: &TaskInput, file_exists: bool) -> (r: Result<String, WtError>)
        ensures
            match create_refusal(self@.tasks, input@, file_exists) {
                Some(e) => r is Err && r->Err_0@ == e,
                None => r is Ok && r->Ok_0@ == markdown_of(
                    FrontmatterModel { name: input@.name, depends: input@.depends },
                    input@.description,
                ),
            },
    {
        match TaskStore::validate_task_name(input.name.as_str()) {
            Err(e) => {
                return Err(e);
            },
            Ok(_) => {},
        }
        if file_exists {
            return Err(WtError::TaskExists(input.name.clone()));
        }
        let deps = &input.depends;
        let ghost all = texts(deps@);
        let mut i: usize = 0;
        assert(all.skip(0) =~= all);
        while i < deps.len()
            invariant
                i <= deps.len(),
                all == texts(deps@),
                all == input@.depends,
                !file_exists,
                crate::models::checks::name_fault(input@.name) is None,
                match first_undefined(self@.tasks, all.skip(i as int)) {
                    Some(k) => first_undefined(self@.tasks, all) == Some(k + i),
                    None => first_undefined(self@.tasks, all) is None,
                },
            decreases deps.len() - i,
        {
            proof {
                assert(all.skip(i as int)[0] == deps@[i as int]@);
                assert(all[i as int] == deps@[i as int]@);
                assert(all.skip(i as int).drop_first() =~= all.skip(i + 1));
            }
            if !self.tasks.contains_key(deps[i].as_str()) {
                assert(first_undefined(self@.tasks, all.skip(i as int)) == Some(0int));
                return Err(WtError::DependencyNotFound(deps[i].clone()));
            }
            i += 1;
        }
        Ok(input.to_markdown())
    }
}

/// The views of a list of files: each with its path and its text.
pub open spec fn file_views(v: Seq<(String, String)>) -> Seq<(Seq<char>, Seq<char>)> {
    v.map_values(|f: (String, String)| (f.0@, f.1@))
}

/// Whether a file holds a task definition: its path ends in `.md`.
pub open spec fn is_task_file(path: Seq<char>) -> bool {
    has_suffix(path, seq!['.', 'm', 'd'])
}

/// The warning about a task file that could not be read.
pub open spec fn load_warning(path: Seq<char>, e: WtErrorModel) -> Seq<char> {
    "Warning: Failed to parse "@ + path + ": "@ + e.message()
}

/// The definitions and the warnings after the files `files` were read in order: a task
/// file that defines a task puts it under its name, in the place of a task that stood
/// there; one that defines none gives a warning; any other file is passed over.
pub open spec fn loaded(files: Seq<(Seq<char>, Seq<char>)>) -> (TasksModel, Seq<Seq<char>>)
    decreases files.len(),
{
    if files.len() == 0 {
        (Map::empty(), Seq::empty())
    } else {
        let before = loaded(files.drop_last());
        let f = files.last();
        if !is_task_file(f.0) {
            before
        } else {
            match task_of(f.1, f.0) {
                Ok(t) => (before.0.insert(t.name, t), before.1),
                Err(e) => (before.0, before.1.push(load_warning(f.0, e))),
            }
        }
    }
}

impl TaskStore {
    /// The store of a project, from the text of its status file and the files of its
    /// task directory, each with its path and its text. A task file that cannot be read
    /// does not stop the loading: the store comes back with a warning about it. A status
    /// file that cannot be read does.
    pub fn load(status: Option<&str>, files: &Vec<(String, String)>) -> (r: Result<
        (TaskStore, Vec<String>),
        WtError,
    >)
        ensures
            match status {
                Some(text) if document_states_fail(text@) is Some => r is Err && r->Err_0@
                    == WtErrorModel::InvalidTaskFile(document_states_fail(text@)->Some_0),
                _ => r is Ok && r->Ok_0.0@.tasks == loaded(file_views(files@)).0 && texts(
                    r->Ok_0.1@,
                ) == loaded(file_views(files@)).1 && r->Ok_0.0@.status == (match status {
                    Some(text) => crate::models::document::document_states(text@)->Ok_0,
                    None => Map::empty(),
                }),
            },
    {
        let recorded = match StatusStore::load(status) {
            Ok(s) => s,
            Err(e) => {
                return Err(e);
            },
        };
        let mut store = TaskStore { tasks: crate::models::name_map::NameMap::new(), status: recorded };
        let mut warnings: Vec<String> = Vec::new();
        let suffix: Vec<char> = vec!['.', 'm', 'd'];
        assert(suffix@ =~= seq!['.', 'm', 'd']);
        let ghost all = file_views(files@);
        let ghost states = store@.status;
        let mut i: usize = 0;
        assert(all.take(0) =~= Seq::<(Seq<char>, Seq<char>)>::empty());
        assert(store@.tasks =~= Map::<Seq<char>, TaskModel>::empty());
        assert(texts(warnings@) =~= Seq::<Seq<char>>::empty());
        while i < files.len()
            invariant
                i <= files.len(),
                all == file_views(files@),
                suffix@ == seq!['.', 'm', 'd'],
                store@.status == states,
                store@.tasks == loaded(all.take(i as int)).0,
                texts(warnings@) == loaded(all.take(i as int)).1,
            decreases files.len() - i,
        {
            proof {
                assert(all.take(i + 1).drop_last() =~= all.take(i as int));
                assert(all.take(i + 1).last() == (files@[i as int].0@, files@[i as int].1@));
            }
            let path = chars_of(files[i].0.as_str());
            if ends_with(&path, &suffix) {
                match TaskStore::parse_markdown(files[i].1.as_str(), files[i].0.clone()) {
                    Ok(task) => {
                        let ghost before = store@.tasks;
                        let name = task.frontmatter.name.clone();
                        store.tasks.insert(name, task);
                        assert(store@.tasks =~= before.insert(task@.name, task@));
                    },
                    Err(e) => {
                        let ghost before = warnings@;
                        let mut w = String::from_str("Warning: Failed to parse ");
                        w.append(files[i].0.as_str());
                        w.append(": ");
                        w.append(e.message().as_str());
                        warnings.push(w);
                        assert(texts(warnings@) =~= texts(before).push(w@));
                    },
                }
            }
            i += 1;
        }
        assert(all.take(files.len() as int) =~= all);
        Ok((store, warnings))
    }
}

/// Why the status document `text` holds no states, where it holds none.
pub open spec fn document_states_fail(text: Seq<char>) -> Option<Seq<char>> {
    match crate::models::document::document_states(text) {
        Ok(_) => None,
        Err(e) => Some(e),
    }
}

} // verus!
