//! Where a list is kept, and what is decided about its file before it is
//! created, read or deleted. The file itself is the caller's to touch: the
//! functions here take what the caller found out about it.

use vstd::prelude::*;
use vstd::string::StringExecFns;
use crate::error::TodoError;
use crate::task::Task;

verus! {

/// The path that `std::path::Path::join` gives for a directory and a path
/// adjoined to it.
pub uninterp spec fn joined_path(directory: Seq<char>, file_name: Seq<char>) -> Seq<char>;

/// Adjoins `file_name` to `directory` with `std::path::Path::join`.
///
/// The contract gives the result a name and claims no more than that it
/// depends on the two texts alone. Both arguments are valid UTF-8, so the
/// joined path is too, and turning it back into a `String` loses nothing.
#[verifier::external_body]
fn join_path(directory: &str, file_name: &str) -> (path: String)
    ensures
        path@ == joined_path(directory@, file_name@),
{
    std::path::Path::new(directory).join(file_name).to_string_lossy().into_owned()
}

/// The directory in which the lists are kept: `.todos` under the user's home
/// directory. Without a home directory there is no such place.
pub fn todos_directory(home: Option<String>) -> (result: Result<String, TodoError>)
    ensures
        match home {
            Some(home_path) => {
                &&& result matches Ok(path)
                &&& path@ == joined_path(home_path@, ".todos"@)
            },
            None => result == Err::<String, TodoError>(TodoError::HomeDirectoryUnresolvable),
        },
{
    match home {
        Some(home_path) => Ok(join_path(home_path.as_str(), ".todos")),
        None => Err(TodoError::HomeDirectoryUnresolvable),
    }
}

/// The path of the file that holds the list `todo_name` under the directory
/// `todos_path`: the file is named after the list, with the extension `.json`.
pub open spec fn todo_path(todos_path: Seq<char>, todo_name: Seq<char>) -> Seq<char> {
    joined_path(todos_path, todo_name + ".json"@)
}

/// Computes the path of the file that holds the list `todo_name`.
pub fn todo_file_path(todos_path: &String, todo_name: &String) -> (path: String)
    ensures
        path@ == todo_path(todos_path@, todo_name@),
{
    let mut file_name = todo_name.clone();
    file_name.append(".json");
    join_path(todos_path.as_str(), file_name.as_str())
}

/// Resolves a list to its file. `file_exists` says whether there is a file at
/// [`todo_path`]; a list exists exactly when its file does.
pub fn get_todo_path(todos_path: &String, todo_name: &String, file_exists: bool) -> (result:
    Result<String, TodoError>)
    ensures
        file_exists ==> {
            &&& result matches Ok(path)
            &&& path@ == todo_path(todos_path@, todo_name@)
        },
        !file_exists ==> result == Err::<String, TodoError>(
            TodoError::ListNotFound { todo_name: *todo_name },
        ),
{
    if !file_exists {
        return Err(TodoError::ListNotFound { todo_name: todo_name.clone() });
    }
    Ok(todo_file_path(todos_path, todo_name))
}

/// Decides whether the list `todo_name` can be created. `file_exists` says
/// whether there is a file at [`todo_path`] already. On success the result is
/// the path at which the caller creates an empty file.
pub fn create_todo(todos_path: &String, todo_name: &String, file_exists: bool) -> (result: Result<
    String,
    TodoError,
>)
    ensures
        !file_exists ==> {
            &&& result matches Ok(path)
            &&& path@ == todo_path(todos_path@, todo_name@)
        },
        file_exists ==> result == Err::<String, TodoError>(
            TodoError::ListAlreadyExists { todo_name: *todo_name },
        ),
{
    if file_exists {
        return Err(TodoError::ListAlreadyExists { todo_name: todo_name.clone() });
    }
    Ok(todo_file_path(todos_path, todo_name))
}

/// Why the content of a list's file yielded no tasks.
#[derive(Debug, PartialEq, Eq)]
pub enum ReadFailure {
    /// The content is empty, or it is not a sequence of task records.
    Unparsable,
    /// The file could not be read to its end.
    Unreadable { detail: String },
}

/// Settles what a read of a list's file comes to. Content that cannot be
/// parsed, an empty file among it, reads as a list without tasks; a file
/// that cannot be read is a failure.
pub fn read_todo_file(outcome: Result<Vec<Task>, ReadFailure>) -> (result: Result<
    Vec<Task>,
    TodoError,
>)
    ensures
        match outcome {
            Ok(tasks) => result == Ok::<Vec<Task>, TodoError>(tasks),
            Err(ReadFailure::Unparsable) => {
                &&& result matches Ok(tasks)
                &&& tasks@ == Seq::<Task>::empty()
            },
            Err(ReadFailure::Unreadable { detail }) => result == Err::<Vec<Task>, TodoError>(
                TodoError::IOFailure { detail },
            ),
        },
{
    match outcome {
        Ok(tasks) => Ok(tasks),
        Err(ReadFailure::Unparsable) => Ok(Vec::new()),
        Err(ReadFailure::Unreadable { detail }) => Err(TodoError::IOFailure { detail }),
    }
}

} // verus!
