//! The task list and its three mutations.
//!
//! The list is a plain `Vec<Task>` that the caller owns. Each operation is
//! specified over the list's model, a `Seq<TaskView>`.

use vstd::prelude::*;
use vstd::string::StringExecFns;
use crate::task::{list_view, Task, TaskError, TaskView};
use crate::text::{append_decimal, decimal};

verus! {

/// The list after a new, unfinished task with the given text joined its end.
pub open spec fn with_added(tasks: Seq<TaskView>, description: Seq<char>) -> Seq<TaskView> {
    tasks.push(TaskView { description, complete: false })
}

/// The list after the task at `index` (counted from 0) was marked as done.
pub open spec fn with_completed(tasks: Seq<TaskView>, index: int) -> Seq<TaskView>
    recommends
        0 <= index < tasks.len(),
{
    tasks.update(index, TaskView { description: tasks[index].description, complete: true })
}

/// The list after the task at `index` (counted from 0) left it.
pub open spec fn with_removed(tasks: Seq<TaskView>, index: int) -> Seq<TaskView>
    recommends
        0 <= index < tasks.len(),
{
    tasks.remove(index)
}

/// Appends a new, unfinished task. Always succeeds.
pub fn add_task(tasks: &mut Vec<Task>, description: String)
    ensures
        final(tasks)@ == old(tasks)@.push((Task { description, complete: false })),
        list_view(final(tasks)@) == with_added(list_view(old(tasks)@), description@),
{
    tasks.push(Task { description: description, complete: false });
    assert(list_view(tasks@) =~= with_added(list_view(old(tasks)@), description@));
}

/// Marks the task at `index` (counted from 0) as done.
///
/// Fails with `InvalidIndex`, and changes nothing, when no task stands there.
pub fn complete_task(tasks: &mut Vec<Task>, index: usize) -> (result: Result<(), TaskError>)
    ensures
        index < old(tasks)@.len() ==> result == Ok::<(), TaskError>(()),
        index < old(tasks)@.len() ==> final(tasks)@ == old(tasks)@.update(
            index as int,
            (Task { description: old(tasks)@[index as int].description, complete: true }),
        ),
        index < old(tasks)@.len() ==> list_view(final(tasks)@) == with_completed(
            list_view(old(tasks)@),
            index as int,
        ),
        index >= old(tasks)@.len() ==> result == Err::<(), TaskError>(TaskError::InvalidIndex),
        index >= old(tasks)@.len() ==> final(tasks)@ == old(tasks)@,
{
    if index >= tasks.len() {
        return Err(TaskError::InvalidIndex);
    }
    tasks[index].complete = true;
    assert(list_view(tasks@) =~= with_completed(list_view(old(tasks)@), index as int));
    Ok(())
}

/// Deletes the task at `index` (counted from 0); the tasks behind it move up by one.
///
/// Fails with `InvalidIndex`, and changes nothing, when no task stands there.
pub fn remove_task(tasks: &mut Vec<Task>, index: usize) -> (result: Result<(), TaskError>)
    ensures
        index < old(tasks)@.len() ==> result == Ok::<(), TaskError>(()),
        index < old(tasks)@.len() ==> final(tasks)@ == old(tasks)@.remove(index as int),
        index < old(tasks)@.len() ==> list_view(final(tasks)@) == with_removed(
            list_view(old(tasks)@),
            index as int,
        ),
        index >= old(tasks)@.len() ==> result == Err::<(), TaskError>(TaskError::InvalidIndex),
        index >= old(tasks)@.len() ==> final(tasks)@ == old(tasks)@,
{
    if index >= tasks.len() {
        return Err(TaskError::InvalidIndex);
    }
    tasks.remove(index);
    assert(list_view(tasks@) =~= with_removed(list_view(old(tasks)@), index as int));
    Ok(())
}

/// The mark in a row's brackets: a check mark for a finished task, else a blank.
pub open spec fn status_mark(complete: bool) -> char {
    if complete {
        '\u{2713}'
    } else {
        ' '
    }
}

/// The row that shows `task` at `position` (counted from 1): the position, the
/// mark in square brackets, and the text, with one blank between them.
pub open spec fn row_text(position: nat, task: TaskView) -> Seq<char> {
    decimal(position) + seq![' ', '[', status_mark(task.complete), ']', ' '] + task.description
}

/// The listing of `tasks`: one row for each, in order, numbered from 1.
pub open spec fn rows_of(tasks: Seq<TaskView>) -> Seq<Seq<char>> {
    Seq::new(tasks.len(), |i: int| row_text((i + 1) as nat, tasks[i]))
}

/// The texts that a vector of strings holds.
pub open spec fn texts_of(lines: Seq<String>) -> Seq<Seq<char>> {
    lines.map_values(|line: String| line@)
}

/// Writes the row that shows `task` at `position` (counted from 1).
pub fn view_row(position: usize, task: &Task) -> (row: String)
    ensures
        row@ == row_text(position as nat, task@),
{
    proof {
        reveal_strlit(" [");
        reveal_strlit("\u{2713}");
        reveal_strlit(" ");
        reveal_strlit("] ");
    }
    let mut row = String::new();
    append_decimal(&mut row, position);
    row.append(" [");
    if task.complete {
        row.append("\u{2713}");
    } else {
        row.append(" ");
    }
    row.append("] ");
    row.append(task.description.as_str());
    assert(row@ =~= row_text(position as nat, task@));
    row
}

/// Lists the tasks: one row for each, in order, numbered from 1. Changes nothing.
pub fn view_tasks(tasks: &Vec<Task>) -> (rows: Vec<String>)
    ensures
        rows@.len() == tasks@.len(),
        texts_of(rows@) == rows_of(list_view(tasks@)),
{
    let mut rows: Vec<String> = Vec::new();
    let mut i: usize = 0;
    while i < tasks.len()
        invariant
            i <= tasks@.len(),
            rows@.len() == i,
            forall|j: int|
                0 <= j < i ==> (#[trigger] rows@[j])@ == row_text((j + 1) as nat, tasks@[j]@),
        decreases tasks@.len() - i,
    {
        let row = view_row(i + 1, &tasks[i]);
        rows.push(row);
        i = i + 1;
    }
    assert(texts_of(rows@) =~= rows_of(list_view(tasks@)));
    rows
}

/// A task added to the empty list is listed alone: its row holds the position
/// 1, a blank mark and the task's text.
pub proof fn first_task_is_listed_alone(description: Seq<char>)
    ensures
        rows_of(with_added(Seq::empty(), description)) == seq![
            seq!['1', ' ', '[', ' ', ']', ' '] + description,
        ],
{
    let tasks = with_added(Seq::empty(), description);
    assert(decimal(1) =~= seq!['1']);
    assert(row_text(1, tasks[0]) =~= seq!['1', ' ', '[', ' ', ']', ' '] + description);
    assert(rows_of(tasks) =~= seq![seq!['1', ' ', '[', ' ', ']', ' '] + description]);
}

/// After a task was marked as done, its row shows the check mark behind the
/// same position and before the same text, and every other row is as it was.
pub proof fn completed_task_is_marked(tasks: Seq<TaskView>, index: int)
    requires
        0 <= index < tasks.len(),
    ensures
        rows_of(with_completed(tasks, index)).len() == rows_of(tasks).len(),
        rows_of(with_completed(tasks, index))[index] == decimal((index + 1) as nat) + seq![
            ' ',
            '[',
            '\u{2713}',
            ']',
            ' ',
        ] + tasks[index].description,
        forall|j: int|
            0 <= j < tasks.len() && j != index ==> #[trigger] rows_of(
                with_completed(tasks, index),
            )[j] == rows_of(tasks)[j],
{
}

/// After a task was removed, the list holds the other tasks in their order:
/// those before it keep their rows, and those behind it move up by one
/// position with their marks and texts unchanged.
pub proof fn removed_task_leaves_listing(tasks: Seq<TaskView>, index: int)
    requires
        0 <= index < tasks.len(),
    ensures
        with_removed(tasks, index) == tasks.subrange(0, index) + tasks.subrange(
            index + 1,
            tasks.len() as int,
        ),
        rows_of(with_removed(tasks, index)).len() == rows_of(tasks).len() - 1,
        forall|j: int|
            0 <= j < index ==> #[trigger] rows_of(with_removed(tasks, index))[j] == rows_of(
                tasks,
            )[j],
        forall|j: int|
            index <= j < tasks.len() - 1 ==> #[trigger] rows_of(with_removed(tasks, index))[j]
                == row_text((j + 1) as nat, tasks[j + 1]),
{
    assert(with_removed(tasks, index) =~= tasks.subrange(0, index) + tasks.subrange(
        index + 1,
        tasks.len() as int,
    ));
}

} // verus!
