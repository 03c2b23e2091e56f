//! Operations on the task sequence of one list.

use vstd::prelude::*;
use vstd::string::{StrSliceExecFns, StringExecFns};
use crate::clock::current_timestamp;
use crate::error::TodoError;
use crate::task::{fresh_task, Task};

verus! {

/// Whether some task of `tasks` is called `name`.
pub open spec fn has_task(tasks: Seq<Task>, name: Seq<char>) -> bool {
    exists|i: int| 0 <= i < tasks.len() && (#[trigger] tasks[i]).name@ == name
}

/// Whether `index` is the position of the first task of `tasks` called
/// `name`: the one that a lookup by name finds.
pub open spec fn is_first_task(tasks: Seq<Task>, name: Seq<char>, index: int) -> bool {
    &&& 0 <= index < tasks.len()
    &&& tasks[index].name@ == name
    &&& forall|j: int| 0 <= j < index ==> (#[trigger] tasks[j]).name@ != name
}

/// Looks a task up by name: the position of the first task called
/// `task_name`, or `None` where the list holds no such task.
pub fn find_task(tasks: &Vec<Task>, task_name: &String) -> (found: Option<usize>)
    ensures
        match found {
            Some(index) => is_first_task(tasks@, task_name@, index as int),
            None => !has_task(tasks@, task_name@),
        },
{
    let mut index: usize = 0;
    while index < tasks.len()
        invariant
            index <= tasks.len(),
            forall|j: int| 0 <= j < index ==> (#[trigger] tasks@[j]).name@ != task_name@,
        decreases tasks.len() - index,
    {
        if tasks[index].name.eq(task_name) {
            return Some(index);
        }
        index += 1;
    }
    None
}

/// The first task called `task_name`. Where the list holds no such task, the
/// failure names the list and the task.
pub fn get_task<'a>(tasks: &'a Vec<Task>, todo_name: &String, task_name: &String) -> (result:
    Result<&'a Task, TodoError>)
    ensures
        has_task(tasks@, task_name@) ==> {
            &&& result matches Ok(task)
            &&& exists|index: int|
                is_first_task(tasks@, task_name@, index) && *task == tasks@[index]
        },
        !has_task(tasks@, task_name@) ==> result == Err::<&Task, TodoError>(
            TodoError::TaskNotFound { todo_name: *todo_name, task_name: *task_name },
        ),
{
    match find_task(tasks, task_name) {
        Some(index) => Ok(&tasks[index]),
        None => Err(
            TodoError::TaskNotFound { todo_name: todo_name.clone(), task_name: task_name.clone() },
        ),
    }
}

/// The decimal digit `d`, for `d` from 0 to 9, as a text of one character.
pub open spec fn digit(d: int) -> Seq<char> {
    "0123456789"@.subrange(d, d + 1)
}

/// The decimal numeral of `n`, without sign or leading zeros.
pub open spec fn decimal(n: nat) -> Seq<char>
    decreases n,
{
    if n < 10 {
        digit(n as int)
    } else {
        decimal(n / 10) + digit((n % 10) as int)
    }
}

/// Writes `n` as a decimal numeral.
pub fn decimal_string(n: usize) -> (text: String)
    ensures
        text@ == decimal(n as nat),
    decreases n,
{
    let digits = "0123456789";
    proof {
        reveal_strlit("0123456789");
    }
    let last: usize = n % 10;
    let last_digit = digits.substring_ascii(last, last + 1);
    if n < 10 {
        String::from_str(last_digit)
    } else {
        let mut text = decimal_string(n / 10);
        text.append(last_digit);
        text
    }
}

/// The name that a new task gets in a list of `count` tasks: the name given
/// for it or, where none is given, the numeral of `count`.
pub open spec fn task_name_for(given: Option<Seq<char>>, count: nat) -> Seq<char> {
    match given {
        Some(name) => name,
        None => decimal(count),
    }
}

/// Settles the name of a new task for a list that holds `count` tasks.
pub fn resolve_task_name(task_name: &Option<String>, count: usize) -> (name: String)
    ensures
        name@ == task_name_for(task_name.deep_view(), count as nat),
{
    match task_name {
        Some(name) => name.clone(),
        None => decimal_string(count),
    }
}

/// Whether `after` is `before` with one more task at its end: not completed,
/// created at `timestamp`, with the text `value`, and named by
/// [`task_name_for`].
pub open spec fn is_added(
    before: Seq<Task>,
    after: Seq<Task>,
    given: Option<Seq<char>>,
    value: Seq<char>,
    timestamp: int,
) -> bool {
    &&& after.len() == before.len() + 1
    &&& after.drop_last() == before
    &&& after.last()@ == fresh_task(task_name_for(given, before.len()), value, timestamp)
}

/// Appends a task created at `timestamp` to the list.
pub fn push_task(tasks: &mut Vec<Task>, task_name: &Option<String>, value: String, timestamp: i64)
    ensures
        is_added(old(tasks)@, final(tasks)@, task_name.deep_view(), value@, timestamp as int),
{
    let name = resolve_task_name(task_name, tasks.len());
    tasks.push(Task::new(name, value, timestamp));
    assert(tasks@.drop_last() =~= old(tasks)@);
}

/// Appends a task created now to the list. The time is read from the clock,
/// so the contract leaves it open; [`push_task`] says the same of a given time.
pub fn add_to_todo(tasks: &mut Vec<Task>, task_name: &Option<String>, value: String)
    ensures
        exists|timestamp: i64|
            is_added(old(tasks)@, final(tasks)@, task_name.deep_view(), value@, timestamp as int),
{
    let timestamp = current_timestamp();
    push_task(tasks, task_name, value, timestamp);
}

/// `task` once it has been completed: nothing else of it changes.
pub open spec fn completed(task: Task) -> Task {
    Task { completed: true, ..task }
}

/// `tasks` with the task at `index` completed.
pub open spec fn with_completed(tasks: Seq<Task>, index: int) -> Seq<Task> {
    tasks.update(index, completed(tasks[index]))
}

/// Whether `after` is `before` with the first task called `name` completed.
pub open spec fn is_completed_in(before: Seq<Task>, after: Seq<Task>, name: Seq<char>) -> bool {
    exists|index: int|
        is_first_task(before, name, index) && after == with_completed(before, index)
}

/// Completes the first task called `task_name`. Where the list holds no such
/// task, the list stays as it is and the failure names the list and the task.
pub fn complete_task(tasks: &mut Vec<Task>, todo_name: &String, task_name: &String) -> (result:
    Result<(), TodoError>)
    ensures
        has_task(old(tasks)@, task_name@) ==> {
            &&& result is Ok
            &&& is_completed_in(old(tasks)@, final(tasks)@, task_name@)
        },
        !has_task(old(tasks)@, task_name@) ==> {
            &&& result == Err::<(), TodoError>(
                TodoError::TaskNotFound { todo_name: *todo_name, task_name: *task_name },
            )
            &&& final(tasks)@ == old(tasks)@
        },
{
    match find_task(tasks, task_name) {
        Some(index) => {
            tasks[index].completed = true;
            assert(is_first_task(old(tasks)@, task_name@, index as int));
            assert(tasks@ =~= with_completed(old(tasks)@, index as int));
            Ok(())
        },
        None => Err(
            TodoError::TaskNotFound { todo_name: todo_name.clone(), task_name: task_name.clone() },
        ),
    }
}

/// `tasks` with every task completed.
pub open spec fn all_completed(tasks: Seq<Task>) -> Seq<Task> {
    tasks.map_values(|task: Task| completed(task))
}

/// Completes every task of the list, whatever its state was.
pub fn complete_all_tasks(tasks: &mut Vec<Task>)
    ensures
        final(tasks)@ == all_completed(old(tasks)@),
{
    let mut index: usize = 0;
    while index < tasks.len()
        invariant
            index <= tasks.len(),
            tasks.len() == old(tasks).len(),
            forall|j: int| 0 <= j < index ==> (#[trigger] tasks@[j]) == completed(old(tasks)@[j]),
            forall|j: int| index <= j < tasks.len() ==> (#[trigger] tasks@[j]) == old(tasks)@[j],
        decreases tasks.len() - index,
    {
        tasks[index].completed = true;
        index += 1;
    }
    assert(tasks@ =~= all_completed(old(tasks)@));
}

/// Whether `after` is `before` without the first task called `name`.
pub open spec fn is_removed_from(before: Seq<Task>, after: Seq<Task>, name: Seq<char>) -> bool {
    exists|index: int| is_first_task(before, name, index) && after == before.remove(index)
}

/// Removes the first task called `task_name`; the tasks behind it move up by
/// one place. Where the list holds no such task, the list stays as it is and
/// the failure names the list and the task.
pub fn remove_task(tasks: &mut Vec<Task>, todo_name: &String, task_name: &String) -> (result:
    Result<(), TodoError>)
    ensures
        has_task(old(tasks)@, task_name@) ==> {
            &&& result is Ok
            &&& is_removed_from(old(tasks)@, final(tasks)@, task_name@)
        },
        !has_task(old(tasks)@, task_name@) ==> {
            &&& result == Err::<(), TodoError>(
                TodoError::TaskNotFound { todo_name: *todo_name, task_name: *task_name },
            )
            &&& final(tasks)@ == old(tasks)@
        },
{
    match find_task(tasks, task_name) {
        Some(index) => {
            tasks.remove(index);
            assert(is_first_task(old(tasks)@, task_name@, index as int));
            Ok(())
        },
        None => Err(
            TodoError::TaskNotFound { todo_name: todo_name.clone(), task_name: task_name.clone() },
        ),
    }
}

} // verus!
