//! What each command comes to.
//!
//! A command is carried out in two steps. [`plan`] decides from the command
//! and from whether the list's file exists what is done with the file:
//! creating it, deleting it or reading it. Where it is read, [`apply`] carries
//! the request out on the tasks that were read and says what is done with
//! them. The caller touches the file in between and afterwards.

use vstd::prelude::*;
use crate::cli::{Cli, Commands};
use crate::error::TodoError;
use crate::storage::{create_todo, get_todo_path, todo_path};
use crate::task::Task;
use crate::tasks::{
    add_to_todo, all_completed, complete_all_tasks, complete_task, get_task, has_task, is_added,
    is_completed_in, is_first_task, is_removed_from, remove_task,
};

verus! {

/// What is asked of the tasks of a list that has been read.
#[derive(Debug, PartialEq, Eq)]
pub enum TaskRequest {
    /// Append a task; where no name is given, it is named by its position.
    Add { value: String, given_name: Option<String> },
    /// Complete the first task of this name.
    Complete { task_name: String },
    /// Complete every task.
    CompleteAll,
    /// Remove the first task of this name.
    Remove { task_name: String },
    /// Show the first task of this name.
    Show { task_name: String },
    /// Show every task.
    ShowAll,
}

/// What is done with a list's file to carry a command out.
#[derive(Debug, PartialEq, Eq)]
pub enum Step {
    /// Create the file, empty.
    CreateFile,
    /// Delete the file.
    DeleteFile,
    /// Read the file and carry the request out on its tasks.
    LoadTasks(TaskRequest),
}

/// A list's file and what is done with it.
#[derive(Debug, PartialEq, Eq)]
pub struct Plan {
    pub path: String,
    pub step: Step,
}

/// What is done with the tasks once a request has been carried out on them.
#[derive(Debug, PartialEq, Eq)]
pub enum Reply {
    /// The tasks have changed: write them back to the file.
    Save,
    /// Show all tasks, or that there are none.
    ShowAll,
    /// Show the task that was found.
    ShowTask(Task),
}

impl Commands {
    /// What the command does with the file of its list.
    pub open spec fn planned_step(self) -> Step {
        match self {
            Commands::Create { .. } => Step::CreateFile,
            Commands::Add { value, task_name, .. } => Step::LoadTasks(
                TaskRequest::Add { value, given_name: task_name },
            ),
            Commands::Complete { task_name: Some(task_name), .. } => Step::LoadTasks(
                TaskRequest::Complete { task_name },
            ),
            Commands::Complete { task_name: None, .. } => Step::LoadTasks(TaskRequest::CompleteAll),
            Commands::Remove { task_name: Some(task_name), .. } => Step::LoadTasks(
                TaskRequest::Remove { task_name },
            ),
            Commands::Remove { task_name: None, .. } => Step::DeleteFile,
            Commands::List { task_name: Some(task_name), .. } => Step::LoadTasks(
                TaskRequest::Show { task_name },
            ),
            Commands::List { task_name: None, .. } => Step::LoadTasks(TaskRequest::ShowAll),
        }
    }

    /// What the command does with the file of its list.
    pub fn step(&self) -> (step: Step)
        ensures
            step == self.planned_step(),
    {
        match self {
            Commands::Create { .. } => Step::CreateFile,
            Commands::Add { value, task_name, .. } => {
                let given_name = match task_name {
                    Some(name) => Some(name.clone()),
                    None => None,
                };
                Step::LoadTasks(TaskRequest::Add { value: value.clone(), given_name })
            },
            Commands::Complete { task_name, .. } => match task_name {
                Some(name) => Step::LoadTasks(TaskRequest::Complete { task_name: name.clone() }),
                None => Step::LoadTasks(TaskRequest::CompleteAll),
            },
            Commands::Remove { task_name, .. } => match task_name {
                Some(name) => Step::LoadTasks(TaskRequest::Remove { task_name: name.clone() }),
                None => Step::DeleteFile,
            },
            Commands::List { task_name, .. } => match task_name {
                Some(name) => Step::LoadTasks(TaskRequest::Show { task_name: name.clone() }),
                None => Step::LoadTasks(TaskRequest::ShowAll),
            },
        }
    }
}

/// Decides what is done with the file of the list that `cli` names.
/// `file_exists` says whether there is a file at the list's path.
///
/// Creating a list that exists fails with `ListAlreadyExists`; every other
/// command on a list that does not exist fails with `ListNotFound`. Otherwise
/// the plan holds the list's path and the step that the command comes to.
pub fn plan(todos_path: &String, cli: &Cli, file_exists: bool) -> (result: Result<Plan, TodoError>)
    ensures
        cli.command is Create && file_exists ==> result == Err::<Plan, TodoError>(
            TodoError::ListAlreadyExists { todo_name: cli.command.list_name() },
        ),
        !(cli.command is Create) && !file_exists ==> result == Err::<Plan, TodoError>(
            TodoError::ListNotFound { todo_name: cli.command.list_name() },
        ),
        (cli.command is Create) != file_exists ==> {
            &&& result matches Ok(plan)
            &&& plan.path@ == todo_path(todos_path@, cli.command.list_name()@)
            &&& plan.step == cli.command.planned_step()
        },
{
    let todo_name = cli.command.todo_name();
    let path = match &cli.command {
        Commands::Create { .. } => create_todo(todos_path, todo_name, file_exists)?,
        _ => get_todo_path(todos_path, todo_name, file_exists)?,
    };
    Ok(Plan { path, step: cli.command.step() })
}

/// Carries `request` out on the tasks that were read from the list
/// `todo_name`, and says what is done with them then.
///
/// A request that names a task works on the first task of that name and
/// fails with `TaskNotFound` where there is none; the tasks then stay as they
/// were. A task that is added is created at the time that the clock gives.
pub fn apply(request: TaskRequest, todo_name: &String, tasks: &mut Vec<Task>) -> (result: Result<
    Reply,
    TodoError,
>)
    ensures
        match request {
            TaskRequest::Add { value, given_name } => {
                &&& result == Ok::<Reply, TodoError>(Reply::Save)
                &&& exists|timestamp: i64|
                    is_added(
                        old(tasks)@,
                        final(tasks)@,
                        given_name.deep_view(),
                        value@,
                        timestamp as int,
                    )
            },
            TaskRequest::Complete { task_name } => if has_task(old(tasks)@, task_name@) {
                &&& result == Ok::<Reply, TodoError>(Reply::Save)
                &&& is_completed_in(old(tasks)@, final(tasks)@, task_name@)
            } else {
                &&& result == Err::<Reply, TodoError>(
                    TodoError::TaskNotFound { todo_name: *todo_name, task_name },
                )
                &&& final(tasks)@ == old(tasks)@
            },
            TaskRequest::CompleteAll => {
                &&& result == Ok::<Reply, TodoError>(Reply::Save)
                &&& final(tasks)@ == all_completed(old(tasks)@)
            },
            TaskRequest::Remove { task_name } => if has_task(old(tasks)@, task_name@) {
                &&& result == Ok::<Reply, TodoError>(Reply::Save)
                &&& is_removed_from(old(tasks)@, final(tasks)@, task_name@)
            } else {
                &&& result == Err::<Reply, TodoError>(
                    TodoError::TaskNotFound { todo_name: *todo_name, task_name },
                )
                &&& final(tasks)@ == old(tasks)@
            },
            TaskRequest::Show { task_name } => {
                &&& final(tasks)@ == old(tasks)@
                &&& if has_task(old(tasks)@, task_name@) {
                    &&& result matches Ok(Reply::ShowTask(task))
                    &&& exists|index: int|
                        is_first_task(old(tasks)@, task_name@, index) && task == old(tasks)@[index]
                } else {
                    result == Err::<Reply, TodoError>(
                        TodoError::TaskNotFound { todo_name: *todo_name, task_name },
                    )
                }
            },
            TaskRequest::ShowAll => {
                &&& result == Ok::<Reply, TodoError>(Reply::ShowAll)
                &&& final(tasks)@ == old(tasks)@
            },
        },
{
    match request {
        TaskRequest::Add { value, given_name } => {
            add_to_todo(tasks, &given_name, value);
            Ok(Reply::Save)
        },
        TaskRequest::Complete { task_name } => {
            complete_task(tasks, todo_name, &task_name)?;
            Ok(Reply::Save)
        },
        TaskRequest::CompleteAll => {
            complete_all_tasks(tasks);
            Ok(Reply::Save)
        },
        TaskRequest::Remove { task_name } => {
            remove_task(tasks, todo_name, &task_name)?;
            Ok(Reply::Save)
        },
        TaskRequest::Show { task_name } => {
            let task = get_task(tasks, todo_name, &task_name)?;
            let shown = Task {
                name: task.name.clone(),
                value: task.value.clone(),
                timestamp: task.timestamp,
                completed: task.completed,
            };
            Ok(Reply::ShowTask(shown))
        },
        TaskRequest::ShowAll => Ok(Reply::ShowAll),
    }
}

} // verus!
