//! The commands of the program.

use vstd::prelude::*;

verus! {

/// The command line, once it has been parsed.
#[derive(Debug, PartialEq, Eq)]
pub struct Cli {
    pub command: Commands,
}

/// The commands. Each names the list that it works on; where a command can
/// name a task too, it works on the whole list if it names none.
#[derive(Debug, PartialEq, Eq)]
pub enum Commands {
    /// Create a new, empty list.
    Create { todo_name: String },
    /// Add a task to a list.
    Add { todo_name: String, value: String, task_name: Option<String> },
    /// Complete one task of a list, or all of them.
    Complete { todo_name: String, task_name: Option<String> },
    /// Remove one task from a list, or the list itself.
    Remove { todo_name: String, task_name: Option<String> },
    /// Show one task of a list, or all of them.
    List { todo_name: String, task_name: Option<String> },
}

impl Commands {
    /// The name of the list that the command works on.
    pub open spec fn list_name(self) -> String {
        match self {
            Commands::Create { todo_name } => todo_name,
            Commands::Add { todo_name, .. } => todo_name,
            Commands::Complete { todo_name, .. } => todo_name,
            Commands::Remove { todo_name, .. } => todo_name,
            Commands::List { todo_name, .. } => todo_name,
        }
    }

    /// The name of the list that the command works on.
    pub fn todo_name(&self) -> (name: &String)
        ensures
            *name == self.list_name(),
    {
        match self {
            Commands::Create { todo_name } => todo_name,
            Commands::Add { todo_name, .. } => todo_name,
            Commands::Complete { todo_name, .. } => todo_name,
            Commands::Remove { todo_name, .. } => todo_name,
            Commands::List { todo_name, .. } => todo_name,
        }
    }
}

} // verus!
