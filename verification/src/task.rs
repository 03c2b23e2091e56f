//! The task record and its mathematical model.

use vstd::prelude::*;

verus! {

/// One entry of a todo list.
#[derive(Debug, PartialEq, Eq)]
pub struct Task {
    /// Identifies the task within its list; lookups take the first match.
    pub name: String,
    /// Free-form text of the task.
    pub value: String,
    /// Creation time, in seconds since the Unix epoch.
    pub timestamp: i64,
    /// Whether the task has been completed.
    pub completed: bool,
}

/// The mathematical model of a [`Task`].
pub struct TaskView {
    pub name: Seq<char>,
    pub value: Seq<char>,
    pub timestamp: int,
    pub completed: bool,
}

impl View for Task {
    type V = TaskView;

    open spec fn view(&self) -> TaskView {
        TaskView {
            name: self.name@,
            value: self.value@,
            timestamp: self.timestamp as int,
            completed: self.completed,
        }
    }
}

/// The model of a task as it is when it has just been added.
pub open spec fn fresh_task(name: Seq<char>, value: Seq<char>, timestamp: int) -> TaskView {
    TaskView { name, value, timestamp, completed: false }
}

impl Task {
    /// A task that has not been completed yet.
    pub fn new(name: String, value: String, timestamp: i64) -> (task: Task)
        ensures
            task@ == fresh_task(name@, value@, timestamp as int),
    {
        Task { name, value, timestamp, completed: false }
    }
}

} // verus!
