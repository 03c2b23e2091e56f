use todos::error::TodoError;

#[test]
fn message_of_list_already_exists_names_the_list() {
    let error = TodoError::ListAlreadyExists { todo_name: "groceries".to_string() };
    assert_eq!(error.message(), "Todo list groceries already exists!");
}

#[test]
fn message_of_list_not_found_names_the_list() {
    let error = TodoError::ListNotFound { todo_name: "groceries".to_string() };
    assert_eq!(error.message(), "Todo list groceries does not exist!");
}

#[test]
fn message_of_task_not_found_names_the_task_and_the_list() {
    let error = TodoError::TaskNotFound {
        todo_name: "groceries".to_string(),
        task_name: "butter".to_string(),
    };
    assert_eq!(error.message(), "Task with name butter in groceries not found!");
}

#[test]
fn message_of_io_failure_holds_the_detail() {
    let error = TodoError::IOFailure { detail: "disk full".to_string() };
    assert_eq!(error.message(), "Input or output failed: disk full");
}

#[test]
fn message_of_home_directory_unresolvable() {
    assert_eq!(TodoError::HomeDirectoryUnresolvable.message(), "Home directory not found!");
}

#[test]
fn message_keeps_names_as_they_are() {
    let error = TodoError::TaskNotFound { todo_name: "".to_string(), task_name: "a b".to_string() };
    assert_eq!(error.message(), "Task with name a b in  not found!");
}
