//! The persisted form of the runtime states: one JSON document with an entry for each
//! task.

use vstd::prelude::*;
use crate::error::{WtError, WtErrorModel};
use crate::models::json::{JsonKind, json_bool, json_bool_at, json_error, json_fault, json_keys, json_keys_at, json_kind, json_kind_at, json_quote, json_string, json_text, json_text_at};
use crate::models::status::{StateModel, StatusModel, StatusStore, TaskState, opt_instance};
use crate::models::task::{Instance, InstanceModel, TaskStatus};
use crate::models::yaml::key_in;
use crate::text::{opt_text, same_text, texts};

verus! {

/// The status that a lower-case name stands for.
pub open spec fn status_named(label: Seq<char>) -> Option<TaskStatus> {
    if label == "pending"@ {
        Some(TaskStatus::Pending)
    } else if label == "running"@ {
        Some(TaskStatus::Running)
    } else if label == "done"@ {
        Some(TaskStatus::Done)
    } else if label == "merged"@ {
        Some(TaskStatus::Merged)
    } else if label == "archived"@ {
        Some(TaskStatus::Archived)
    } else {
        None
    }
}

/// The status that a lower-case name stands for.
pub fn status_from_name(label: &str) -> (r: Option<TaskStatus>)
    ensures
        r == status_named(label@),
{
    if same_text(label, "pending") {
        Some(TaskStatus::Pending)
    } else if same_text(label, "running") {
        Some(TaskStatus::Running)
    } else if same_text(label, "done") {
        Some(TaskStatus::Done)
    } else if same_text(label, "merged") {
        Some(TaskStatus::Merged)
    } else if same_text(label, "archived") {
        Some(TaskStatus::Archived)
    } else {
        None
    }
}

/// The name of a status stands for that status: writing a status and reading it again
/// gives the same status.
pub proof fn lemma_status_name_round_trip(status: TaskStatus)
    ensures
        status_named(status.label()) == Some(status),
{
    reveal_strlit("pending");
    reveal_strlit("running");
    reveal_strlit("done");
    reveal_strlit("merged");
    reveal_strlit("archived");
    match status {
        TaskStatus::Pending => {},
        TaskStatus::Running => {
            assert("running"@[0] != "pending"@[0]);
        },
        TaskStatus::Done => {
            assert("done"@.len() != "pending"@.len());
            assert("done"@.len() != "running"@.len());
        },
        TaskStatus::Merged => {
            assert("merged"@.len() != "pending"@.len());
            assert("merged"@.len() != "running"@.len());
            assert("merged"@.len() != "done"@.len());
        },
        TaskStatus::Archived => {
            assert("archived"@.len() != "pending"@.len());
            assert("archived"@.len() != "running"@.len());
            assert("archived"@.len() != "done"@.len());
            assert("archived"@.len() != "merged"@.len());
        },
    }
}

/// What the document holds for one task, as plain sequences: the name of its status, the
/// scratch mark where there is one, and its instance.
pub struct RecordModel {
    pub status: Seq<char>,
    pub scratch: Option<bool>,
    pub instance: Option<InstanceModel>,
}

/// What the document holds for one task.
#[derive(Debug)]
pub struct StateRecord {
    pub status: String,
    pub scratch: Option<bool>,
    pub instance: Option<Instance>,
}

impl View for StateRecord {
    type V = RecordModel;

    open spec fn view(&self) -> RecordModel {
        RecordModel {
            status: self.status@,
            scratch: self.scratch,
            instance: opt_instance(self.instance),
        }
    }
}

/// The record that is written for a state: the scratch mark is written only where it is
/// set.
pub open spec fn record_of(s: StateModel) -> RecordModel {
    RecordModel {
        status: s.status.label(),
        scratch: if s.scratch {
            Some(true)
        } else {
            None
        },
        instance: s.instance,
    }
}

/// The state that a record stands for: a record without a scratch mark is no scratch
/// task. None where the record names no status.
pub open spec fn state_of(r: RecordModel) -> Option<StateModel> {
    match status_named(r.status) {
        Some(status) => Some(
            StateModel {
                status,
                scratch: match r.scratch {
                    Some(b) => b,
                    None => false,
                },
                instance: r.instance,
            },
        ),
        None => None,
    }
}

/// The record that is written for a state stands for that state again: status, scratch
/// mark and instance.
pub proof fn lemma_record_round_trip(s: StateModel)
    ensures
        state_of(record_of(s)) == Some(s),
{
    lemma_status_name_round_trip(s.status);
}

/// The records that are written for the states of a store stand for the same states under
/// the same names: writing puts down the record of each state, and reading takes the
/// state of each record. That the text of the document reads back is what `save` checks.
pub proof fn lemma_records_round_trip(m: StatusModel, name: Seq<char>)
    requires
        m.dom().contains(name),
    ensures
        m.map_values(|s: StateModel| record_of(s)).dom() == m.dom(),
        state_of(m.map_values(|s: StateModel| record_of(s))[name]) == Some(m[name]),
{
    lemma_record_round_trip(m[name]);
    assert(m.map_values(|s: StateModel| record_of(s)).dom() =~= m.dom());
}

impl TaskState {
    /// The record that is written for this state.
    pub fn to_record(&self) -> (r: StateRecord)
        ensures
            r@ == record_of(self@),
    {
        StateRecord {
            status: String::from_str(self.status.display_name()),
            scratch: if self.scratch {
                Some(true)
            } else {
                None
            },
            instance: crate::models::status::copy_opt_instance(&self.instance),
        }
    }

    /// The state that a record stands for; where the record names no status, the reason
    /// why it stands for none.
    pub fn from_record(record: StateRecord) -> (r: Result<TaskState, String>)
        ensures
            match state_of(record@) {
                Some(s) => r is Ok && r->Ok_0@ == s,
                None => r is Err && r->Err_0@ == "Invalid status.json: unknown status '"@
                    + record@.status + "'"@,
            },
    {
        match status_from_name(record.status.as_str()) {
            Some(status) => Ok(
                TaskState {
                    status,
                    scratch: match record.scratch {
                        Some(b) => b,
                        None => false,
                    },
                    instance: record.instance,
                },
            ),
            None => {
                let mut m = String::from_str("Invalid status.json: unknown status '");
                m.append(record.status.as_str());
                m.append("'");
                Err(m)
            },
        }
    }
}

/// The path of a field of the entry of `name`.
pub open spec fn field_path(name: Seq<char>, field: Seq<char>) -> Seq<Seq<char>> {
    seq!["tasks"@, name, field]
}

/// The path of a field of the instance of `name`.
pub open spec fn instance_path(name: Seq<char>, field: Seq<char>) -> Seq<Seq<char>> {
    seq!["tasks"@, name, "instance"@, field]
}

/// What the document says is wrong with the entry of `name`: the text after the prefix
/// that every such message has.
pub open spec fn entry_fault(name: Seq<char>, what: Seq<char>) -> Seq<char> {
    "Invalid status.json: task '"@ + name + "': "@ + what
}

/// Whether a value of the kind `kind` can stand where a string may be left out: nothing,
/// null, or a string.
pub open spec fn may_be_text(kind: Option<JsonKind>) -> bool {
    kind is None || kind == Some(JsonKind::Null) || kind == Some(JsonKind::Text)
}

/// The instance that the document `text` holds for `name`: none where the entry has no
/// instance or null for it; else an object with its four strings, and the session id
/// where there is one. A session id that is neither a string nor null is refused.
pub open spec fn instance_at(text: Seq<char>, name: Seq<char>) -> Result<
    Option<InstanceModel>,
    Seq<char>,
> {
    let kind = json_kind_at(text, field_path(name, "instance"@));
    if kind is None || kind == Some(JsonKind::Null) {
        Ok(None)
    } else if kind != Some(JsonKind::Object) {
        Err(entry_fault(name, "instance must be an object"@))
    } else if json_text_at(text, instance_path(name, "branch"@)) is None {
        Err(entry_fault(name, "missing field `branch`"@))
    } else if json_text_at(text, instance_path(name, "worktree_path"@)) is None {
        Err(entry_fault(name, "missing field `worktree_path`"@))
    } else if json_text_at(text, instance_path(name, "tmux_session"@)) is None {
        Err(entry_fault(name, "missing field `tmux_session`"@))
    } else if json_text_at(text, instance_path(name, "tmux_window"@)) is None {
        Err(entry_fault(name, "missing field `tmux_window`"@))
    } else if !may_be_text(json_kind_at(text, instance_path(name, "session_id"@))) {
        Err(entry_fault(name, "invalid type: `session_id` must be a string"@))
    } else {
        Ok(
            Some(
                InstanceModel {
                    branch: json_text_at(text, instance_path(name, "branch"@))->Some_0,
                    worktree_path: json_text_at(
                        text,
                        instance_path(name, "worktree_path"@),
                    )->Some_0,
                    tmux_session: json_text_at(text, instance_path(name, "tmux_session"@))->Some_0,
                    tmux_window: json_text_at(text, instance_path(name, "tmux_window"@))->Some_0,
                    session_id: json_text_at(text, instance_path(name, "session_id"@)),
                },
            ),
        )
    }
}

/// The record that the document `text` holds for `name`: an object with the name of the
/// status, and with the scratch mark and the instance where they are there. A scratch mark
/// that is no truth value is refused.
pub open spec fn record_at(text: Seq<char>, name: Seq<char>) -> Result<RecordModel, Seq<char>> {
    if json_kind_at(text, seq!["tasks"@, name]) != Some(JsonKind::Object) {
        Err(entry_fault(name, "invalid type: expected an object"@))
    } else {
        match json_text_at(text, field_path(name, "status"@)) {
            None => Err(entry_fault(name, "missing field `status`"@)),
            Some(label) => match instance_at(text, name) {
                Err(m) => Err(m),
                Ok(instance) => {
                    let kind = json_kind_at(text, field_path(name, "scratch"@));
                    if kind is Some && kind != Some(JsonKind::Bool) {
                        Err(entry_fault(name, "invalid type: `scratch` must be true or false"@))
                    } else {
                        Ok(
                            RecordModel {
                                status: label,
                                scratch: json_bool_at(text, field_path(name, "scratch"@)),
                                instance,
                            },
                        )
                    }
                },
            },
        }
    }
}

/// Why a record that names no status stands for no state.
pub open spec fn unknown_status(label: Seq<char>) -> Seq<char> {
    "Invalid status.json: unknown status '"@ + label + "'"@
}

/// The state that the document `text` holds for `name`: the state that its record stands
/// for.
pub open spec fn state_at(text: Seq<char>, name: Seq<char>) -> Result<StateModel, Seq<char>> {
    match record_at(text, name) {
        Err(m) => Err(m),
        Ok(record) => match state_of(record) {
            Some(s) => Ok(s),
            None => Err(unknown_status(record.status)),
        },
    }
}

/// The states that the document `text` holds for the tasks `names`, read in order.
pub open spec fn states_over(text: Seq<char>, names: Seq<Seq<char>>) -> Result<
    StatusModel,
    Seq<char>,
>
    decreases names.len(),
{
    if names.len() == 0 {
        Ok(Map::empty())
    } else {
        match states_over(text, names.drop_last()) {
            Err(m) => Err(m),
            Ok(states) => match state_at(text, names.last()) {
                Err(m) => Err(m),
                Ok(s) => Ok(states.insert(names.last(), s)),
            },
        }
    }
}

/// The states that a status document holds, or why it holds none: it is no JSON, it has
/// no object under `tasks`, or an entry is not in order.
pub open spec fn document_states(text: Seq<char>) -> Result<StatusModel, Seq<char>> {
    match json_fault(text) {
        Some(e) => Err("Invalid status.json: "@ + e),
        None => match json_keys_at(text, seq!["tasks"@]) {
            None => Err("Invalid status.json: missing field `tasks`"@),
            Some(names) => states_over(text, names),
        },
    }
}

fn path3(name: &str, field: &str) -> (r: Vec<String>)
    ensures
        texts(r@) == field_path(name@, field@),
{
    let mut r: Vec<String> = Vec::new();
    r.push(String::from_str("tasks"));
    r.push(String::from_str(name));
    r.push(String::from_str(field));
    assert(texts(r@) =~= field_path(name@, field@));
    r
}

fn path4(name: &str, field: &str) -> (r: Vec<String>)
    ensures
        texts(r@) == instance_path(name@, field@),
{
    let mut r: Vec<String> = Vec::new();
    r.push(String::from_str("tasks"));
    r.push(String::from_str(name));
    r.push(String::from_str("instance"));
    r.push(String::from_str(field));
    assert(texts(r@) =~= instance_path(name@, field@));
    r
}

fn fault_of(name: &str, what: &str) -> (r: String)
    ensures
        r@ == entry_fault(name@, what@),
{
    let mut m = String::from_str("Invalid status.json: task '");
    m.append(name);
    m.append("': ");
    m.append(what);
    m
}

fn read_instance(text: &str, name: &str) -> (r: Result<Option<Instance>, String>)
    ensures
        match instance_at(text@, name@) {
            Ok(i) => r is Ok && opt_instance(r->Ok_0) == i,
            Err(m) => r is Err && r->Err_0@ == m,
        },
{
    match json_kind(text, &path3(name, "instance")) {
        None => {
            return Ok(None);
        },
        Some(JsonKind::Null) => {
            return Ok(None);
        },
        Some(JsonKind::Object) => {},
        Some(_) => {
            return Err(fault_of(name, "instance must be an object"));
        },
    }
    let branch = match json_text(text, &path4(name, "branch")) {
        Some(t) => t,
        None => {
            return Err(fault_of(name, "missing field `branch`"));
        },
    };
    let worktree_path = match json_text(text, &path4(name, "worktree_path")) {
        Some(t) => t,
        None => {
            return Err(fault_of(name, "missing field `worktree_path`"));
        },
    };
    let tmux_session = match json_text(text, &path4(name, "tmux_session")) {
        Some(t) => t,
        None => {
            return Err(fault_of(name, "missing field `tmux_session`"));
        },
    };
    let tmux_window = match json_text(text, &path4(name, "tmux_window")) {
        Some(t) => t,
        None => {
            return Err(fault_of(name, "missing field `tmux_window`"));
        },
    };
    match json_kind(text, &path4(name, "session_id")) {
        None => {},
        Some(JsonKind::Null) => {},
        Some(JsonKind::Text) => {},
        Some(_) => {
            return Err(fault_of(name, "invalid type: `session_id` must be a string"));
        },
    }
    let session_id = json_text(text, &path4(name, "session_id"));
    Ok(Some(Instance { branch, worktree_path, tmux_session, tmux_window, session_id }))
}

fn read_record(text: &str, name: &str) -> (r: Result<StateRecord, String>)
    ensures
        match record_at(text@, name@) {
            Ok(record) => r is Ok && r->Ok_0@ == record,
            Err(m) => r is Err && r->Err_0@ == m,
        },
{
    match json_kind(text, &key_in("tasks", name)) {
        Some(JsonKind::Object) => {},
        _ => {
            return Err(fault_of(name, "invalid type: expected an object"));
        },
    }
    let status = match json_text(text, &path3(name, "status")) {
        Some(l) => l,
        None => {
            return Err(fault_of(name, "missing field `status`"));
        },
    };
    let instance = match read_instance(text, name) {
        Ok(i) => i,
        Err(m) => {
            return Err(m);
        },
    };
    match json_kind(text, &path3(name, "scratch")) {
        None => {},
        Some(JsonKind::Bool) => {},
        Some(_) => {
            return Err(fault_of(name, "invalid type: `scratch` must be true or false"));
        },
    }
    let scratch = json_bool(text, &path3(name, "scratch"));
    Ok(StateRecord { status, scratch, instance })
}

fn read_state(text: &str, name: &str) -> (r: Result<TaskState, String>)
    ensures
        match state_at(text@, name@) {
            Ok(s) => r is Ok && r->Ok_0@ == s,
            Err(m) => r is Err && r->Err_0@ == m,
        },
{
    match read_record(text, name) {
        Err(m) => Err(m),
        Ok(record) => match TaskState::from_record(record) {
            Ok(state) => Ok(state),
            Err(m) => Err(m),
        },
    }
}

impl StatusStore {
    /// The runtime states of a project, from the text of its status file: a project
    /// without the file has no state recorded, so that all its tasks are pending.
    pub fn load(content: Option<&str>) -> (r: Result<StatusStore, WtError>)
        ensures
            match content {
                None => r is Ok && r->Ok_0@ == Map::<Seq<char>, StateModel>::empty(),
                Some(text) => match document_states(text@) {
                    Ok(m) => r is Ok && r->Ok_0@ == m,
                    Err(e) => r is Err && r->Err_0@ == WtErrorModel::InvalidTaskFile(e),
                },
            },
    {
        match content {
            None => Ok(StatusStore::default()),
            Some(text) => StatusStore::from_json(text),
        }
    }

    /// Reads the states from the text of a status document.
    pub fn from_json(text: &str) -> (r: Result<StatusStore, WtError>)
        ensures
            match document_states(text@) {
                Ok(m) => r is Ok && r->Ok_0@ == m,
                Err(e) => r is Err && r->Err_0@ == WtErrorModel::InvalidTaskFile(e),
            },
    {
        match json_error(text) {
            Some(e) => {
                let mut m = String::from_str("Invalid status.json: ");
                m.append(e.as_str());
                return Err(WtError::InvalidTaskFile(m));
            },
            None => {},
        }
        let tasks_key = crate::models::yaml::key("tasks");
        let names = match json_keys(text, &tasks_key) {
            Some(n) => n,
            None => {
                return Err(
                    WtError::InvalidTaskFile(
                        String::from_str("Invalid status.json: missing field `tasks`"),
                    ),
                );
            },
        };
        let mut store = StatusStore::default();
        let mut i: usize = 0;
        assert(texts(names@).take(0) =~= Seq::<Seq<char>>::empty());
        while i < names.len()
            invariant
                i <= names.len(),
                json_fault(text@) is None,
                json_keys_at(text@, seq!["tasks"@]) == Some(texts(names@)),
                states_over(text@, texts(names@).take(i as int)) == Ok::<
                    StatusModel,
                    Seq<char>,
                >(store@),
            decreases names.len() - i,
        {
            proof {
                assert(texts(names@).take(i + 1).drop_last() =~= texts(names@).take(i as int));
                assert(texts(names@).take(i + 1).last() == names@[i as int]@);
            }
            match read_state(text, names[i].as_str()) {
                Err(m) => {
                    proof {
                        assert(states_over(text@, texts(names@).take(i + 1)) == Err::<
                            StatusModel,
                            Seq<char>,
                        >(m@));
                        lemma_states_over_fails(text@, texts(names@), i + 1);
                    }
                    return Err(WtError::InvalidTaskFile(m));
                },
                Ok(state) => {
                    let ghost before = store@;
                    store.tasks.insert(names[i].clone(), state);
                    assert(store@ =~= before.insert(names@[i as int]@, state@));
                },
            }
            i += 1;
        }
        assert(texts(names@).take(names.len() as int) =~= texts(names@));
        Ok(store)
    }
}

/// Where reading the first `k` entries fails, reading all of them fails the same way.
pub proof fn lemma_states_over_fails(text: Seq<char>, names: Seq<Seq<char>>, k: int)
    requires
        0 <= k <= names.len(),
        states_over(text, names.take(k)) is Err,
    ensures
        states_over(text, names) == states_over(text, names.take(k)),
    decreases names.len() - k,
{
    if k < names.len() {
        assert(names.take(k + 1).drop_last() =~= names.take(k));
        lemma_states_over_fails(text, names, k + 1);
    } else {
        assert(names.take(k) =~= names);
    }
}

/// How an instance is written: an object with its four strings, and the session id
/// where there is one.
pub open spec fn instance_text(i: InstanceModel) -> Seq<char> {
    "{\n        \"branch\": "@ + json_string(i.branch) + ",\n        \"worktree_path\": "@
        + json_string(i.worktree_path) + ",\n        \"tmux_session\": "@ + json_string(
        i.tmux_session,
    ) + ",\n        \"tmux_window\": "@ + json_string(i.tmux_window) + (match i.session_id {
        Some(s) => ",\n        \"session_id\": "@ + json_string(s),
        None => Seq::<char>::empty(),
    }) + "\n      }"@
}

/// How the record of a task is written: the name of the task, and an object with the
/// name of the status, the scratch mark where there is one, and the instance where there
/// is one.
pub open spec fn entry_text(name: Seq<char>, s: RecordModel) -> Seq<char> {
    "    "@ + json_string(name) + ": {\n      \"status\": "@ + json_string(s.status) + (match s.scratch {
        Some(true) => ",\n      \"scratch\": true"@,
        Some(false) => ",\n      \"scratch\": false"@,
        None => Seq::<char>::empty(),
    }) + (match s.instance {
        Some(i) => ",\n      \"instance\": "@ + instance_text(i),
        None => Seq::<char>::empty(),
    }) + "\n    }"@
}

/// The records `states` of the tasks `names`, written one after the other.
pub open spec fn entries_text(names: Seq<Seq<char>>, states: Seq<RecordModel>) -> Seq<char>
    decreases names.len(),
{
    if names.len() == 0 || states.len() == 0 {
        Seq::<char>::empty()
    } else if names.len() == 1 {
        entry_text(names[0], states[0])
    } else {
        entries_text(names.drop_last(), states.drop_last()) + ",\n"@ + entry_text(
            names.last(),
            states.last(),
        )
    }
}

/// The text of the status document that holds the records `states` for the tasks
/// `names`.
pub open spec fn document_text(names: Seq<Seq<char>>, states: Seq<RecordModel>) -> Seq<char> {
    if names.len() == 0 {
        "{\n  \"tasks\": {}\n}"@
    } else {
        "{\n  \"tasks\": {\n"@ + entries_text(names, states) + "\n  }\n}"@
    }
}

/// The records that are written for a list of states.
pub open spec fn state_views(v: Seq<TaskState>) -> Seq<RecordModel> {
    v.map_values(|s: TaskState| record_of(s@))
}

fn write_instance(out: &mut String, i: &Instance)
    ensures
        final(out)@ == old(out)@ + instance_text(i@),
{
    let ghost before = out@;
    out.append("{\n        \"branch\": ");
    out.append(json_quote(i.branch.as_str()).as_str());
    out.append(",\n        \"worktree_path\": ");
    out.append(json_quote(i.worktree_path.as_str()).as_str());
    out.append(",\n        \"tmux_session\": ");
    out.append(json_quote(i.tmux_session.as_str()).as_str());
    out.append(",\n        \"tmux_window\": ");
    out.append(json_quote(i.tmux_window.as_str()).as_str());
    match &i.session_id {
        Some(s) => {
            out.append(",\n        \"session_id\": ");
            out.append(json_quote(s.as_str()).as_str());
        },
        None => {},
    }
    out.append("\n      }");
    assert(out@ =~= before + instance_text(i@));
}

fn write_entry(out: &mut String, name: &str, s: &StateRecord)
    ensures
        final(out)@ == old(out)@ + entry_text(name@, s@),
{
    let ghost before = out@;
    out.append("    ");
    out.append(json_quote(name).as_str());
    out.append(": {\n      \"status\": ");
    out.append(json_quote(s.status.as_str()).as_str());
    match s.scratch {
        Some(true) => {
            out.append(",\n      \"scratch\": true");
        },
        Some(false) => {
            out.append(",\n      \"scratch\": false");
        },
        None => {},
    }
    match &s.instance {
        Some(i) => {
            out.append(",\n      \"instance\": ");
            write_instance(out, i);
        },
        None => {},
    }
    out.append("\n    }");
    assert(out@ =~= before + entry_text(name@, s@));
}

impl StatusStore {
    /// The text of the status document for this store: the record of every state, in the
    /// order in which the names were first recorded.
    pub fn to_json(&self) -> (r: String)
        ensures
            r@ == document_text(self.tasks.names(), state_views(self.tasks.values())),
    {
        let n = self.tasks.len();
        if n == 0 {
            return String::from_str("{\n  \"tasks\": {}\n}");
        }
        let ghost names = self.tasks.names();
        let ghost states = state_views(self.tasks.values());
        let mut out = String::from_str("{\n  \"tasks\": {\n");
        let ghost head = out@;
        let mut i: usize = 0;
        assert(head + entries_text(names.take(0), states.take(0)) =~= head);
        while i < n
            invariant
                i <= n,
                n == self.tasks.names().len(),
                n == self.tasks.values().len(),
                names == self.tasks.names(),
                states == state_views(self.tasks.values()),
                out@ == head + entries_text(names.take(i as int), states.take(i as int)),
            decreases n - i,
        {
            proof {
                assert(names.take(i + 1).drop_last() =~= names.take(i as int));
                assert(states.take(i + 1).drop_last() =~= states.take(i as int));
                assert(names.take(i + 1).last() == names[i as int]);
                assert(states.take(i + 1).last() == states[i as int]);
            }
            if i > 0 {
                out.append(",\n");
            }
            let record = self.tasks.value_at(i).to_record();
            write_entry(&mut out, self.tasks.key_at(i).as_str(), &record);
            proof {
                let e = entry_text(names[i as int], states[i as int]);
                if i == 0 {
                    assert(names.take(1)[0] == names[0]);
                    assert(states.take(1)[0] == states[0]);
                    assert(out@ =~= head + e);
                } else {
                    assert(out@ =~= head + (entries_text(
                        names.take(i as int),
                        states.take(i as int),
                    ) + ",\n"@ + e));
                }
            }
            i += 1;
        }
        proof {
            assert(names.take(n as int) =~= names);
            assert(states.take(n as int) =~= states);
        }
        out.append("\n  }\n}");
        out
    }
}

/// Whether two optional strings hold the same text.
fn same_opt_text(a: &Option<String>, b: &Option<String>) -> (r: bool)
    ensures
        r == (opt_text(*a) == opt_text(*b)),
{
    match (a, b) {
        (Some(x), Some(y)) => same_text(x.as_str(), y.as_str()),
        (None, None) => true,
        _ => false,
    }
}

/// Whether two instances hold the same resources.
fn same_instance(a: &Instance, b: &Instance) -> (r: bool)
    ensures
        r == (a@ == b@),
{
    same_text(a.branch.as_str(), b.branch.as_str()) && same_text(
        a.worktree_path.as_str(),
        b.worktree_path.as_str(),
    ) && same_text(a.tmux_session.as_str(), b.tmux_session.as_str()) && same_text(
        a.tmux_window.as_str(),
        b.tmux_window.as_str(),
    ) && same_opt_text(&a.session_id, &b.session_id)
}

/// Whether two states are the same: status, scratch mark and instance.
pub fn same_state(a: &TaskState, b: &TaskState) -> (r: bool)
    ensures
        r == (a@ == b@),
{
    let instances = match (&a.instance, &b.instance) {
        (Some(x), Some(y)) => same_instance(x, y),
        (None, None) => true,
        _ => false,
    };
    a.status == b.status && a.scratch == b.scratch && instances
}

impl StatusStore {
    /// Whether every name of this store has the same state in `other`.
    fn within(&self, other: &StatusStore) -> (r: bool)
        ensures
            r == (forall|k: Seq<char>| #[trigger]
                self@.dom().contains(k) ==> other@.dom().contains(k) && other@[k] == self@[k]),
    {
        let mut i: usize = 0;
        let n = self.tasks.len();
        proof {
            self.tasks.lemma_names();
        }
        while i < n
            invariant
                i <= n,
                n == self.tasks.names().len(),
                forall|k: Seq<char>| self.tasks@.dom().contains(k) <==> self.tasks.names().contains(k),
                forall|j: int|
                    0 <= j < i ==> other@.dom().contains(#[trigger] self.tasks.names()[j])
                        && other@[self.tasks.names()[j]] == self@[self.tasks.names()[j]],
            decreases n - i,
        {
            let name = self.tasks.key_at(i);
            let state = self.tasks.value_at(i);
            match other.tasks.get(name.as_str()) {
                Some(found) => {
                    if !same_state(state, found) {
                        assert(self@.dom().contains(name@));
                        assert(other@[name@] != self@[name@]);
                        return false;
                    }
                },
                None => {
                    assert(self@.dom().contains(name@));
                    assert(!other@.dom().contains(name@));
                    return false;
                },
            }
            i += 1;
        }
        proof {
            assert forall|k: Seq<char>| #[trigger] self@.dom().contains(k) implies other@.dom().contains(
                k,
            ) && other@[k] == self@[k] by {
                assert(self.tasks.names().contains(k));
                let j = choose|j: int| 0 <= j < self.tasks.names().len() && self.tasks.names()[j] == k;
                assert(self.tasks.names()[j] == k);
            }
        }
        true
    }

    /// Whether this store and `other` hold the same states under the same names.
    pub fn same_as(&self, other: &StatusStore) -> (r: bool)
        ensures
            r == (self@ == other@),
    {
        let r = self.within(other) && other.within(self);
        proof {
            if r {
                assert(self@ =~= other@);
            }
        }
        r
    }

    /// The text of the status document for this store.
    pub open spec fn written(&self) -> Seq<char> {
        document_text(self.tasks.names(), state_views(self.tasks.values()))
    }

    /// Whether the status document of this store reads back as the states of this store.
    pub open spec fn reads_back(&self) -> bool {
        document_states(self.written()) == Ok::<StatusModel, Seq<char>>(self@)
    }

    /// The text of the status document for this store, handed out where it reads back as
    /// the states of this store, so that `load` makes this store of it again. Where it does
    /// not read back so, nothing is handed out and the failure says so.
    pub fn save(&self) -> (r: Result<String, WtError>)
        ensures
            self.reads_back() ==> r is Ok && r->Ok_0@ == self.written(),
            !self.reads_back() ==> r is Err && r->Err_0@ == (WtErrorModel::Io {
                operation: "write"@,
                path: ".wt/status.json"@,
                message: "the status document does not read back as it was written"@,
            }),
    {
        let text = self.to_json();
        let same = match StatusStore::from_json(text.as_str()) {
            Ok(back) => self.same_as(&back),
            Err(_) => false,
        };
        if same {
            Ok(text)
        } else {
            Err(
                WtError::Io {
                    operation: String::from_str("write"),
                    path: String::from_str(crate::constants::STATUS_FILE),
                    message: String::from_str(
                        "the status document does not read back as it was written",
                    ),
                },
            )
        }
    }

    /// What `load` makes of what `save` hands out: this very store, where the status
    /// document reads back, and the failure of `save` where it does not.
    pub fn reload(&self) -> (r: Result<StatusStore, WtError>)
        ensures
            self.reads_back() ==> r is Ok && r->Ok_0@ == self@,
            !self.reads_back() ==> r is Err && r->Err_0@ == (WtErrorModel::Io {
                operation: "write"@,
                path: ".wt/status.json"@,
                message: "the status document does not read back as it was written"@,
            }),
    {
        match self.save() {
            Ok(text) => StatusStore::load(Some(text.as_str())),
            Err(e) => Err(e),
        }
    }
}

impl crate::models::store::TaskStore {
    /// The text that is written to the status file: the status document of the runtime
    /// states.
    pub fn save_status(&self) -> (r: String)
        ensures
            r@ == document_text(
                self.status.tasks.names(),
                state_views(self.status.tasks.values()),
            ),
    {
        self.status.to_json()
    }
}

} // verus!
