//! The runtime state of every task: its status, whether it is a scratch task, and the
//! resources bound to it.

use vstd::prelude::*;
use crate::models::name_map::NameMap;
use crate::models::task::{Instance, InstanceModel, TaskStatus};

verus! {

/// The runtime state of one task, as plain values.
pub struct StateModel {
    pub status: TaskStatus,
    pub scratch: bool,
    pub instance: Option<InstanceModel>,
}

/// The view of an optional instance.
pub open spec fn opt_instance(o: Option<Instance>) -> Option<InstanceModel> {
    match o {
        Some(i) => Some(i@),
        None => None,
    }
}

/// A copy of an optional instance.
pub fn copy_opt_instance(o: &Option<Instance>) -> (r: Option<Instance>)
    ensures
        opt_instance(r) == opt_instance(*o),
{
    match o {
        Some(i) => Some(i.clone()),
        None => None,
    }
}

/// The runtime state of one task.
#[derive(Debug)]
pub struct TaskState {
    pub status: TaskStatus,
    pub scratch: bool,
    pub instance: Option<Instance>,
}

impl View for TaskState {
    type V = StateModel;

    open spec fn view(&self) -> StateModel {
        StateModel {
            status: self.status,
            scratch: self.scratch,
            instance: opt_instance(self.instance),
        }
    }
}

/// The state of a task that no entry speaks of: pending, not scratch, no instance.
pub open spec fn blank_state() -> StateModel {
    StateModel { status: TaskStatus::Pending, scratch: false, instance: None }
}

impl Default for TaskState {
    fn default() -> (r: Self)
        ensures
            r@ == blank_state(),
    {
        TaskState { status: TaskStatus::Pending, scratch: false, instance: None }
    }
}

impl Clone for TaskState {
    fn clone(&self) -> (r: Self)
        ensures
            r@ == self@,
    {
        TaskState {
            status: self.status,
            scratch: self.scratch,
            instance: copy_opt_instance(&self.instance),
        }
    }
}

/// The recorded states, as a map from task name to state.
pub type StatusModel = Map<Seq<char>, StateModel>;

/// The state of `name`: its entry, or the blank state where it has none.
pub open spec fn state_in(m: StatusModel, name: Seq<char>) -> StateModel {
    if m.dom().contains(name) {
        m[name]
    } else {
        blank_state()
    }
}

/// The status of `name`; a task without an entry is pending.
pub open spec fn status_in(m: StatusModel, name: Seq<char>) -> TaskStatus {
    state_in(m, name).status
}

/// The instance bound to `name`, if any.
pub open spec fn instance_in(m: StatusModel, name: Seq<char>) -> Option<InstanceModel> {
    state_in(m, name).instance
}

/// Whether `name` is recorded as a scratch task.
pub open spec fn scratch_in(m: StatusModel, name: Seq<char>) -> bool {
    state_in(m, name).scratch
}

/// `m` with the status of `name` set; an entry is made where there was none.
pub open spec fn with_status(m: StatusModel, name: Seq<char>, status: TaskStatus) -> StatusModel {
    m.insert(name, StateModel { status, ..state_in(m, name) })
}

/// `m` with the instance of `name` set; an entry is made where there was none.
pub open spec fn with_instance(
    m: StatusModel,
    name: Seq<char>,
    instance: Option<InstanceModel>,
) -> StatusModel {
    m.insert(name, StateModel { instance, ..state_in(m, name) })
}

/// `m` with the scratch mark of `name` set; an entry is made where there was none.
pub open spec fn with_scratch(m: StatusModel, name: Seq<char>, scratch: bool) -> StatusModel {
    m.insert(name, StateModel { scratch, ..state_in(m, name) })
}

/// The runtime states of all tasks, keyed by task name.
#[derive(Debug)]
pub struct StatusStore {
    pub tasks: NameMap<TaskState>,
}

impl View for StatusStore {
    type V = StatusModel;

    open spec fn view(&self) -> StatusModel {
        self.tasks@.map_values(|s: TaskState| s@)
    }
}

impl Default for StatusStore {
    fn default() -> (r: Self)
        ensures
            r@ == Map::<Seq<char>, StateModel>::empty(),
    {
        let r = StatusStore { tasks: NameMap::new() };
        assert(r@ =~= Map::<Seq<char>, StateModel>::empty());
        r
    }
}

impl StatusStore {
    /// The status of `name`; pending where nothing is recorded.
    pub fn get_status(&self, name: &str) -> (r: TaskStatus)
        ensures
            r == status_in(self@, name@),
    {
        match self.tasks.get(name) {
            Some(s) => s.status,
            None => TaskStatus::Pending,
        }
    }

    /// Records `status` for `name` and keeps the rest of its state.
    pub fn set_status(&mut self, name: &str, status: TaskStatus)
        ensures
            final(self)@ == with_status(old(self)@, name@, status),
    {
        let state = match self.tasks.get(name) {
            Some(s) => TaskState {
                status,
                scratch: s.scratch,
                instance: copy_opt_instance(&s.instance),
            },
            None => TaskState { status, scratch: false, instance: None },
        };
        self.tasks.insert(String::from_str(name), state);
        assert(self@ =~= with_status(old(self)@, name@, status));
    }

    /// The instance bound to `name`, if any.
    pub fn get_instance(&self, name: &str) -> (r: Option<&Instance>)
        ensures
            match r {
                Some(i) => instance_in(self@, name@) == Some(i@),
                None => instance_in(self@, name@) is None,
            },
    {
        match self.tasks.get(name) {
            Some(s) => match &s.instance {
                Some(i) => Some(i),
                None => None,
            },
            None => None,
        }
    }

    /// Binds `instance` to `name`, or clears the binding, and keeps the rest of its state.
    pub fn set_instance(&mut self, name: &str, instance: Option<Instance>)
        ensures
            final(self)@ == with_instance(old(self)@, name@, opt_instance(instance)),
    {
        let state = match self.tasks.get(name) {
            Some(s) => TaskState { status: s.status, scratch: s.scratch, instance },
            None => TaskState { status: TaskStatus::Pending, scratch: false, instance },
        };
        self.tasks.insert(String::from_str(name), state);
        assert(self@ =~= with_instance(old(self)@, name@, opt_instance(instance)));
    }

    /// Whether `name` is recorded as a scratch task.
    pub fn is_scratch(&self, name: &str) -> (r: bool)
        ensures
            r == scratch_in(self@, name@),
    {
        match self.tasks.get(name) {
            Some(s) => s.scratch,
            None => false,
        }
    }

    /// Marks `name` as a scratch task, or takes the mark away.
    pub fn set_scratch(&mut self, name: &str, scratch: bool)
        ensures
            final(self)@ == with_scratch(old(self)@, name@, scratch),
    {
        let state = match self.tasks.get(name) {
            Some(s) => TaskState {
                status: s.status,
                scratch,
                instance: copy_opt_instance(&s.instance),
            },
            None => TaskState { status: TaskStatus::Pending, scratch, instance: None },
        };
        self.tasks.insert(String::from_str(name), state);
        assert(self@ =~= with_scratch(old(self)@, name@, scratch));
    }

    /// Whether anything is recorded for `name`.
    pub fn name_exists(&self, name: &str) -> (r: bool)
        ensures
            r == self@.dom().contains(name@),
    {
        self.tasks.contains_key(name)
    }

    /// Drops whatever is recorded for `name`.
    pub fn remove(&mut self, name: &str)
        ensures
            final(self)@ == old(self)@.remove(name@),
    {
        let _ = self.tasks.remove(name);
        assert(self@ =~= old(self)@.remove(name@));
    }
}

} // verus!
