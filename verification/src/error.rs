//! The failures of an operation on a list.

use vstd::prelude::*;
use vstd::string::StringExecFns;

verus! {

/// Why an operation failed. Each failure carries what it is about, the names
/// of the list and the task, as plain text.
#[derive(Debug, PartialEq, Eq)]
pub enum TodoError {
    /// A list of this name is already there.
    ListAlreadyExists { todo_name: String },
    /// No list of this name is there.
    ListNotFound { todo_name: String },
    /// The list holds no task of this name.
    TaskNotFound { todo_name: String, task_name: String },
    /// A file or a directory could not be read or written.
    IOFailure { detail: String },
    /// The user's home directory, under which the lists are kept, is unknown.
    HomeDirectoryUnresolvable,
}

impl TodoError {
    /// The text of [`TodoError::message`].
    pub open spec fn message_text(self) -> Seq<char> {
        match self {
            TodoError::ListAlreadyExists { todo_name } => "Todo list "@ + todo_name@
                + " already exists!"@,
            TodoError::ListNotFound { todo_name } => "Todo list "@ + todo_name@
                + " does not exist!"@,
            TodoError::TaskNotFound { todo_name, task_name } => "Task with name "@ + task_name@
                + " in "@ + todo_name@ + " not found!"@,
            TodoError::IOFailure { detail } => "Input or output failed: "@ + detail@,
            TodoError::HomeDirectoryUnresolvable => "Home directory not found!"@,
        }
    }

    /// A description of the failure for the user, with the names of the list
    /// and the task in it and no styling.
    pub fn message(&self) -> (text: String)
        ensures
            text@ == self.message_text(),
    {
        match self {
            TodoError::ListAlreadyExists { todo_name } => {
                let mut text = String::from_str("Todo list ");
                text.append(todo_name.as_str());
                text.append(" already exists!");
                text
            },
            TodoError::ListNotFound { todo_name } => {
                let mut text = String::from_str("Todo list ");
                text.append(todo_name.as_str());
                text.append(" does not exist!");
                text
            },
            TodoError::TaskNotFound { todo_name, task_name } => {
                let mut text = String::from_str("Task with name ");
                text.append(task_name.as_str());
                text.append(" in ");
                text.append(todo_name.as_str());
                text.append(" not found!");
                text
            },
            TodoError::IOFailure { detail } => {
                let mut text = String::from_str("Input or output failed: ");
                text.append(detail.as_str());
                text
            },
            TodoError::HomeDirectoryUnresolvable => String::from_str("Home directory not found!"),
        }
    }
}

} // verus!
