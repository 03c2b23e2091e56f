use todos::error::TodoError;
use todos::storage::{
    create_todo, get_todo_path, read_todo_file, todo_file_path, todos_directory, ReadFailure,
};
use todos::task::Task;

fn root() -> String {
    "/home/user/.todos".to_string()
}

#[test]
fn todo_file_path_joins_directory_and_file_name() {
    assert_eq!(todo_file_path(&root(), &"groceries".to_string()), "/home/user/.todos/groceries.json");
    assert_eq!(todo_file_path(&"lists".to_string(), &"a".to_string()), "lists/a.json");
    assert_eq!(todo_file_path(&"lists/".to_string(), &"a.b".to_string()), "lists/a.b.json");
}

#[test]
fn todo_file_path_differs_from_both_arguments() {
    let path = todo_file_path(&root(), &"groceries".to_string());
    assert_ne!(path, root());
    assert_ne!(path, "groceries");
    assert_ne!(path, "groceries.json");
}

#[test]
fn get_todo_path_gives_the_path_of_a_list_that_exists() {
    let found = get_todo_path(&root(), &"groceries".to_string(), true);
    assert_eq!(found, Ok("/home/user/.todos/groceries.json".to_string()));
}

#[test]
fn get_todo_path_fails_for_a_list_that_does_not_exist() {
    let found = get_todo_path(&root(), &"groceries".to_string(), false);
    assert_eq!(found, Err(TodoError::ListNotFound { todo_name: "groceries".to_string() }));
}

#[test]
fn create_todo_gives_the_path_of_the_new_list() {
    let made = create_todo(&root(), &"groceries".to_string(), false);
    assert_eq!(made, Ok("/home/user/.todos/groceries.json".to_string()));
}

#[test]
fn create_todo_fails_for_a_list_that_exists() {
    let made = create_todo(&root(), &"groceries".to_string(), true);
    assert_eq!(made, Err(TodoError::ListAlreadyExists { todo_name: "groceries".to_string() }));
}

#[test]
fn todos_directory_lies_under_the_home_directory() {
    assert_eq!(todos_directory(Some("/home/user".to_string())), Ok("/home/user/.todos".to_string()));
    assert_eq!(todos_directory(Some("/".to_string())), Ok("/.todos".to_string()));
}

#[test]
fn todos_directory_fails_without_a_home_directory() {
    assert_eq!(todos_directory(None), Err(TodoError::HomeDirectoryUnresolvable));
}

#[test]
fn read_todo_file_hands_parsed_tasks_on() {
    let tasks = vec![
        Task { name: "0".to_string(), value: "milk".to_string(), timestamp: 1, completed: false },
        Task { name: "e1".to_string(), value: "eggs".to_string(), timestamp: 2, completed: true },
    ];
    let same = vec![
        Task { name: "0".to_string(), value: "milk".to_string(), timestamp: 1, completed: false },
        Task { name: "e1".to_string(), value: "eggs".to_string(), timestamp: 2, completed: true },
    ];
    assert_eq!(read_todo_file(Ok(tasks)), Ok(same));
    assert_eq!(read_todo_file(Ok(Vec::new())), Ok(Vec::new()));
}

#[test]
fn read_todo_file_reads_unparsable_content_as_empty() {
    assert_eq!(read_todo_file(Err(ReadFailure::Unparsable)), Ok(Vec::new()));
}

#[test]
fn read_todo_file_fails_for_a_file_that_cannot_be_read() {
    let outcome = read_todo_file(Err(ReadFailure::Unreadable { detail: "permission denied".to_string() }));
    assert_eq!(outcome, Err(TodoError::IOFailure { detail: "permission denied".to_string() }));
}
