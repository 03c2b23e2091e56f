//! The plain text in which tasks are shown. Headings and colours are left to
//! the caller; what is written of each task is settled here.

use vstd::prelude::*;
use vstd::string::StringExecFns;
use crate::task::{Task, TaskView};

verus! {

/// What `chrono` writes for the moment `timestamp` seconds after the Unix
/// epoch, taken in UTC, in the form `%d.%m.%Y %H:%M:%S`, or `None` where
/// `chrono::DateTime` cannot hold that moment.
pub uninterp spec fn formatted_time(timestamp: int) -> Option<Seq<char>>;

/// Makes a `chrono::DateTime<Utc>` of `timestamp` with
/// `DateTime::from_timestamp` and writes it with `DateTime::format` under the
/// pattern `%d.%m.%Y %H:%M:%S`.
///
/// The contract gives the result a name and claims no more than that it
/// depends on `timestamp` alone: the time zone is fixed, no locale takes
/// part, and every item of the pattern is one that `chrono` knows, so that
/// writing the text cannot fail.
#[verifier::external_body]
fn format_timestamp(timestamp: i64) -> (text: Option<String>)
    ensures
        text.deep_view() == formatted_time(timestamp as int),
{
    match chrono::DateTime::from_timestamp(timestamp, 0) {
        Some(moment) => Some(moment.format("%d.%m.%Y %H:%M:%S").to_string()),
        None => None,
    }
}

/// The creation time as it is shown: a moment that cannot be written shows
/// as the Unix epoch.
pub open spec fn time_text(formatted: Option<Seq<char>>) -> Seq<char> {
    match formatted {
        Some(text) => text,
        None => "01.01.1970 00:00:00"@,
    }
}

/// Settles the text of a creation time from what formatting it gave.
pub fn shown_time(formatted: Option<String>) -> (text: String)
    ensures
        text@ == time_text(formatted.deep_view()),
{
    match formatted {
        Some(text) => text,
        None => String::from_str("01.01.1970 00:00:00"),
    }
}

/// The text of the creation time `timestamp`.
pub open spec fn creation_time_text(timestamp: int) -> Seq<char> {
    time_text(formatted_time(timestamp))
}

/// Writes the creation time `timestamp` as day, month and year and hour,
/// minute and second, in UTC.
pub fn creation_time(timestamp: i64) -> (text: String)
    ensures
        text@ == creation_time_text(timestamp as int),
{
    shown_time(format_timestamp(timestamp))
}

/// How the completion flag is written.
pub open spec fn flag_text(completed: bool) -> Seq<char> {
    if completed {
        "true"@
    } else {
        "false"@
    }
}

/// The lines that show a task under its heading: its text on one line, its
/// state and the creation time `time` on the next.
pub open spec fn details_text(task: TaskView, time: Seq<char>) -> Seq<char> {
    task.value + "\n"@ + "Completed="@ + flag_text(task.completed) + " - "@ + time + "\n"@
}

/// Writes the lines that show `task` under its heading, with `time` for its
/// creation time.
pub fn task_details(task: &Task, time: &String) -> (text: String)
    ensures
        text@ == details_text(task@, time@),
{
    let mut text = task.value.clone();
    text.append("\n");
    text.append("Completed=");
    if task.completed {
        text.append("true");
    } else {
        text.append("false");
    }
    text.append(" - ");
    text.append(time.as_str());
    text.append("\n");
    text
}

/// What is shown of one task that was asked for by name, under its heading.
pub open spec fn task_text(task: TaskView) -> Seq<char> {
    details_text(task, creation_time_text(task.timestamp))
}

/// Writes what is shown of one task that was asked for by name.
pub fn task_report(task: &Task) -> (text: String)
    ensures
        text@ == task_text(task@),
{
    let time = creation_time(task.timestamp);
    task_details(task, &time)
}

/// What is shown of one task within its list: a line with its name, then
/// its details, then two empty lines.
pub open spec fn entry_text(task: TaskView) -> Seq<char> {
    "Task "@ + task.name + "\n"@ + task_text(task) + "\n\n"@
}

/// The entries of `tasks` one after the other.
pub open spec fn entries_text(tasks: Seq<Task>) -> Seq<char>
    decreases tasks.len(),
{
    if tasks.len() == 0 {
        Seq::empty()
    } else {
        entries_text(tasks.drop_last()) + entry_text(tasks.last()@)
    }
}

/// What is shown of a whole list under its heading: its entries in their
/// order, or a line that says that there are none.
pub open spec fn todo_text(tasks: Seq<Task>) -> Seq<char> {
    if tasks.len() == 0 {
        "Empty...\n"@
    } else {
        entries_text(tasks)
    }
}

/// Writes what is shown of a whole list.
pub fn todo_report(tasks: &Vec<Task>) -> (text: String)
    ensures
        text@ == todo_text(tasks@),
{
    if tasks.is_empty() {
        return String::from_str("Empty...\n");
    }
    let mut text = String::new();
    let mut index: usize = 0;
    while index < tasks.len()
        invariant
            index <= tasks.len(),
            text@ == entries_text(tasks@.take(index as int)),
        decreases tasks.len() - index,
    {
        let task = &tasks[index];
        let details = task_report(task);
        text.append("Task ");
        text.append(task.name.as_str());
        text.append("\n");
        text.append(details.as_str());
        text.append("\n\n");
        proof {
            let shown = tasks@.take(index + 1);
            assert(shown.drop_last() =~= tasks@.take(index as int));
            assert(shown.last() == *task);
        }
        index += 1;
    }
    assert(tasks@.take(index as int) =~= tasks@);
    text
}

} // verus!
