//! What holds of the operations on a task sequence, stated over the
//! predicates and functions that their contracts use.

use vstd::prelude::*;
use crate::task::{fresh_task, Task};
use crate::tasks::{
    all_completed, decimal, digit, has_task, is_added, is_completed_in, is_first_task,
    is_removed_from, task_name_for, with_completed,
};

verus! {

/// A name that some task bears is borne by a first task, and by one only:
/// a lookup by name finds exactly one task.
pub proof fn law_lookup_finds_one_task(tasks: Seq<Task>, name: Seq<char>)
    requires
        has_task(tasks, name),
    ensures
        exists|index: int| is_first_task(tasks, name, index),
        forall|i: int, j: int|
            is_first_task(tasks, name, i) && is_first_task(tasks, name, j) ==> i == j,
{
    let some = choose|i: int| 0 <= i < tasks.len() && (#[trigger] tasks[i]).name@ == name;
    lemma_has_first(tasks, name, some);
    assert forall|i: int, j: int|
        is_first_task(tasks, name, i) && is_first_task(tasks, name, j) implies i == j by {
        if i < j {
            assert(tasks[i].name@ != name);
        } else if j < i {
            assert(tasks[j].name@ != name);
        }
    }
}

proof fn lemma_has_first(tasks: Seq<Task>, name: Seq<char>, index: int)
    requires
        0 <= index < tasks.len(),
        tasks[index].name@ == name,
    ensures
        exists|first: int| is_first_task(tasks, name, first),
    decreases index,
{
    if exists|j: int| 0 <= j < index && (#[trigger] tasks[j]).name@ == name {
        let earlier = choose|j: int| 0 <= j < index && (#[trigger] tasks[j]).name@ == name;
        lemma_has_first(tasks, name, earlier);
    } else {
        assert(is_first_task(tasks, name, index));
    }
}

/// The number that a decimal digit stands for.
pub open spec fn digit_value(c: char) -> int {
    c as int - '0' as int
}

/// The number that a decimal numeral stands for.
pub open spec fn numeral_value(text: Seq<char>) -> int
    decreases text.len(),
{
    if text.len() == 0 {
        0
    } else {
        10 * numeral_value(text.drop_last()) + digit_value(text.last())
    }
}

/// The name that a task gets by its position is the decimal numeral of the
/// position: it is made of the digits `0` to `9`, begins with `0` only for
/// the position 0, and read as a number it gives the position back.
pub proof fn law_positional_name_is_a_numeral(count: nat)
    ensures
        task_name_for(None, count) == decimal(count),
        decimal(count).len() >= 1,
        forall|i: int|
            0 <= i < decimal(count).len() ==> '0' <= #[trigger] decimal(count)[i] <= '9',
        decimal(count)[0] == '0' <==> count == 0,
        numeral_value(decimal(count)) == count,
    decreases count,
{
    reveal_strlit("0123456789");
    let last = digit((count % 10) as int);
    assert(digit_value(last[0]) == count % 10);
    if count < 10 {
        assert(decimal(count).drop_last() =~= Seq::<char>::empty());
        assert(numeral_value(decimal(count).drop_last()) == 0);
    } else {
        law_positional_name_is_a_numeral(count / 10);
        let front = decimal(count / 10);
        assert(decimal(count).drop_last() =~= front);
        assert(decimal(count).last() == last[0]);
        assert(decimal(count)[0] == front[0]);
        assert forall|i: int| 0 <= i < decimal(count).len() implies '0' <= #[trigger] decimal(
            count,
        )[i] <= '9' by {
            if i >= front.len() {
                assert(decimal(count)[i] == last[i - front.len()]);
            }
        }
    }
}

/// A task to be added under a name of its own.
pub struct NamedEntry {
    pub name: Seq<char>,
    pub value: Seq<char>,
    /// The time that the clock gave when the task was added.
    pub timestamp: int,
}

/// Whether `lists` are the states of one list in a run of additions: the
/// entry `entries[k]` is added to `lists[k]` under its own name, which gives
/// `lists[k + 1]`.
pub open spec fn is_run_of_additions(lists: Seq<Seq<Task>>, entries: Seq<NamedEntry>) -> bool {
    &&& lists.len() == entries.len() + 1
    &&& forall|k: int|
        0 <= k < entries.len() ==> is_added(
            lists[k],
            lists[k + 1],
            Some((#[trigger] entries[k]).name),
            entries[k].value,
            entries[k].timestamp,
        )
}

/// After a run of additions under names of their own, the added tasks stand
/// behind the tasks that were there, in the order in which they were added,
/// each with its name, its text and its time, and not completed.
pub proof fn law_added_tasks_stand_in_order(lists: Seq<Seq<Task>>, entries: Seq<NamedEntry>)
    requires
        is_run_of_additions(lists, entries),
    ensures
        lists.last().len() == lists[0].len() + entries.len(),
        forall|i: int| 0 <= i < lists[0].len() ==> (#[trigger] lists.last()[i]) == lists[0][i],
        forall|k: int|
            0 <= k < entries.len() ==> (#[trigger] lists.last()[lists[0].len() + k])@
                == fresh_task(entries[k].name, entries[k].value, entries[k].timestamp),
    decreases entries.len(),
{
    if entries.len() > 0 {
        let count = entries.len() - 1;
        let earlier_lists = lists.drop_last();
        let earlier = entries.drop_last();
        assert forall|k: int| 0 <= k < earlier.len() implies is_added(
            earlier_lists[k],
            earlier_lists[k + 1],
            Some((#[trigger] earlier[k]).name),
            earlier[k].value,
            earlier[k].timestamp,
        ) by {
            assert(entries[k] == earlier[k]);
        }
        law_added_tasks_stand_in_order(earlier_lists, earlier);
        let middle = lists[count];
        let last = lists.last();
        assert(earlier_lists.last() == middle);
        assert(earlier_lists[0] == lists[0]);
        assert(is_added(
            middle,
            last,
            Some(entries[count].name),
            entries[count].value,
            entries[count].timestamp,
        ));
        assert forall|i: int| 0 <= i < middle.len() implies (#[trigger] last[i]) == middle[i] by {
            assert(last.drop_last()[i] == last[i]);
        }
        assert forall|k: int| 0 <= k < entries.len() implies (#[trigger] last[lists[0].len()
            + k])@ == fresh_task(entries[k].name, entries[k].value, entries[k].timestamp) by {
            if k < count {
                assert(middle[lists[0].len() + k]@ == fresh_task(
                    earlier[k].name,
                    earlier[k].value,
                    earlier[k].timestamp,
                ));
            }
        }
    }
}

/// After a run of additions to an empty list under distinct names, each
/// added task is the one that a lookup by its name finds.
pub proof fn law_added_tasks_are_found_by_name(lists: Seq<Seq<Task>>, entries: Seq<NamedEntry>)
    requires
        is_run_of_additions(lists, entries),
        lists[0].len() == 0,
        forall|i: int, j: int| 0 <= i < j < entries.len() ==> entries[i].name != entries[j].name,
    ensures
        forall|k: int|
            0 <= k < entries.len() ==> is_first_task(lists.last(), (#[trigger] entries[k]).name, k),
{
    let list = lists.last();
    law_added_tasks_stand_in_order(lists, entries);
    assert forall|k: int| 0 <= k < entries.len() implies is_first_task(
        list,
        (#[trigger] entries[k]).name,
        k,
    ) by {
        assert(list[0 + k]@.name == entries[k].name);
        assert forall|j: int| 0 <= j < k implies (#[trigger] list[j]).name@ != entries[k].name by {
            assert(list[0 + j]@.name == entries[j].name);
        }
    }
}

/// Where the clock did not go back from one addition to the next, the times
/// of the added tasks do not decrease along the list.
pub proof fn law_added_tasks_are_timed_in_order(lists: Seq<Seq<Task>>, entries: Seq<NamedEntry>)
    requires
        is_run_of_additions(lists, entries),
        forall|i: int, j: int|
            0 <= i <= j < entries.len() ==> entries[i].timestamp <= entries[j].timestamp,
    ensures
        forall|p: int, q: int|
            lists[0].len() <= p <= q < lists.last().len() ==> (#[trigger] lists.last()[p]).timestamp
                <= (#[trigger] lists.last()[q]).timestamp,
{
    let list = lists.last();
    let start = lists[0].len();
    law_added_tasks_stand_in_order(lists, entries);
    assert forall|p: int, q: int| start <= p <= q < list.len() implies (#[trigger] list[p]).timestamp
        <= (#[trigger] list[q]).timestamp by {
        let i = p - start;
        let j = q - start;
        assert(list[start + i]@.timestamp == entries[i].timestamp);
        assert(list[start + j]@.timestamp == entries[j].timestamp);
    }
}

/// Completing a task by name changes the completion flag of the task that
/// the name finds and nothing else: no other task, and no other field of it.
pub proof fn law_complete_changes_one_flag(before: Seq<Task>, after: Seq<Task>, name: Seq<char>)
    requires
        is_completed_in(before, after, name),
    ensures
        after.len() == before.len(),
        forall|i: int|
            0 <= i < before.len() ==> #[trigger] after[i] == if is_first_task(before, name, i) {
                Task { completed: true, ..before[i] }
            } else {
                before[i]
            },
{
    let index = choose|index: int|
        is_first_task(before, name, index) && after == with_completed(before, index);
    assert forall|i: int| 0 <= i < before.len() implies #[trigger] after[i] == if is_first_task(
        before,
        name,
        i,
    ) {
        Task { completed: true, ..before[i] }
    } else {
        before[i]
    } by {
        if is_first_task(before, name, i) && i != index {
            if i < index {
                assert(before[i].name@ != name);
            } else {
                assert(before[index].name@ != name);
            }
        }
    }
}

/// After all tasks have been completed, every task is completed and is
/// otherwise what it was; an empty list stays empty; and completing all
/// tasks once more changes nothing.
pub proof fn law_complete_all_completes_each(tasks: Seq<Task>)
    ensures
        all_completed(tasks).len() == tasks.len(),
        forall|i: int|
            0 <= i < tasks.len() ==> #[trigger] all_completed(tasks)[i] == (Task {
                completed: true,
                ..tasks[i]
            }),
        all_completed(all_completed(tasks)) == all_completed(tasks),
{
    assert(all_completed(all_completed(tasks)) =~= all_completed(tasks));
}

/// Removing a task by name takes the task that the name finds out of the
/// list: the list is shorter by one, the tasks before that task stay where
/// they were, and those behind it move up by one place, so that the tasks
/// that remain keep their order.
pub proof fn law_remove_keeps_order(before: Seq<Task>, after: Seq<Task>, name: Seq<char>)
    requires
        is_removed_from(before, after, name),
    ensures
        after.len() == before.len() - 1,
        forall|index: int| #[trigger]
            is_first_task(before, name, index) ==> {
                &&& forall|i: int| 0 <= i < index ==> #[trigger] after[i] == before[i]
                &&& forall|i: int| index <= i < after.len() ==> #[trigger] after[i] == before[i + 1]
            },
{
    let removed = choose|index: int|
        is_first_task(before, name, index) && after == before.remove(index);
    assert forall|index: int| #[trigger] is_first_task(before, name, index) implies {
        &&& forall|i: int| 0 <= i < index ==> #[trigger] after[i] == before[i]
        &&& forall|i: int| index <= i < after.len() ==> #[trigger] after[i] == before[i + 1]
    } by {
        if index < removed {
            assert(before[index].name@ != name);
        } else if removed < index {
            assert(before[removed].name@ != name);
        }
    }
}

} // verus!
