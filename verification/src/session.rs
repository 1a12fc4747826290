//! One step of the command loop.
//!
//! The loop itself reads lines, prints and writes the backing file, which is
//! not this library's work. What the library decides is the step: from the
//! list and a command to the list after it, and to what the loop has to do
//! next.

use vstd::prelude::*;
use vstd::string::StringExecFns;
use crate::command::{command_of, parse_command, Command, CommandView};
use crate::store::{
    add_task, complete_task, remove_task, rows_of, texts_of, view_tasks, with_added,
    with_completed, with_removed,
};
use crate::task::{list_view, Task, TaskError, TaskView};

verus! {

/// What the loop has to do after a command that succeeded.
#[derive(Clone, Debug, PartialEq, Eq)]
pub enum Outcome {
    /// The list has changed: write it to the backing file.
    Save,
    /// The list is as it was: print these lines.
    Print(Vec<String>),
}

/// What an outcome is in contracts.
pub enum OutcomeView {
    Save,
    Print(Seq<Seq<char>>),
}

impl View for Outcome {
    type V = OutcomeView;

    open spec fn view(&self) -> OutcomeView {
        match self {
            Outcome::Save => OutcomeView::Save,
            Outcome::Print(lines) => OutcomeView::Print(texts_of(lines@)),
        }
    }
}

/// Whether a task stands at `position` (counted from 1) in `tasks`.
pub open spec fn has_position(tasks: Seq<TaskView>, position: usize) -> bool {
    1 <= position <= tasks.len()
}

/// The list after `command`. A command that fails leaves the list as it was.
pub open spec fn list_after(tasks: Seq<TaskView>, command: CommandView) -> Seq<TaskView> {
    match command {
        CommandView::Add(text) => with_added(tasks, text),
        CommandView::Complete(position) => if has_position(tasks, position) {
            with_completed(tasks, position - 1)
        } else {
            tasks
        },
        CommandView::Remove(position) => if has_position(tasks, position) {
            with_removed(tasks, position - 1)
        } else {
            tasks
        },
        CommandView::List => tasks,
        CommandView::Unknown => tasks,
    }
}

/// What `command` answers on the list `tasks`.
///
/// `add` always asks for a save. `complete` and `remove` ask for one where a
/// task stands at the position, and fail with `InvalidIndex` where none does,
/// position 0 included. `view` prints the listing. An unknown command prints
/// one line that says so.
pub open spec fn outcome_of(tasks: Seq<TaskView>, command: CommandView) -> Result<
    OutcomeView,
    TaskError,
> {
    match command {
        CommandView::Add(_) => Ok(OutcomeView::Save),
        CommandView::Complete(position) => if has_position(tasks, position) {
            Ok(OutcomeView::Save)
        } else {
            Err(TaskError::InvalidIndex)
        },
        CommandView::Remove(position) => if has_position(tasks, position) {
            Ok(OutcomeView::Save)
        } else {
            Err(TaskError::InvalidIndex)
        },
        CommandView::List => Ok(OutcomeView::Print(rows_of(tasks))),
        CommandView::Unknown => Ok(OutcomeView::Print(seq!["Invalid command"@])),
    }
}

/// `complete` and `remove` at a position where no task stands, position 0 or
/// one beyond the list's end, fail with `InvalidIndex` and leave the list as
/// it was.
pub proof fn missing_position_is_rejected(tasks: Seq<TaskView>, position: usize)
    requires
        position == 0 || position > tasks.len(),
    ensures
        outcome_of(tasks, CommandView::Complete(position)) == Err::<OutcomeView, TaskError>(
            TaskError::InvalidIndex,
        ),
        outcome_of(tasks, CommandView::Remove(position)) == Err::<OutcomeView, TaskError>(
            TaskError::InvalidIndex,
        ),
        list_after(tasks, CommandView::Complete(position)) == tasks,
        list_after(tasks, CommandView::Remove(position)) == tasks,
{
}

/// The index (counted from 0) of the task at `position` (counted from 1).
///
/// Position 0 names no task.
pub fn index_of_position(position: usize) -> (index: Result<usize, TaskError>)
    ensures
        position >= 1 ==> index == Ok::<usize, TaskError>((position - 1) as usize),
        position == 0 ==> index == Err::<usize, TaskError>(TaskError::InvalidIndex),
{
    if position == 0 {
        Err(TaskError::InvalidIndex)
    } else {
        Ok(position - 1)
    }
}

/// Carries out `command` on the list.
pub fn execute(tasks: &mut Vec<Task>, command: Command) -> (result: Result<Outcome, TaskError>)
    ensures
        list_view(final(tasks)@) == list_after(list_view(old(tasks)@), command@),
        final(tasks)@.len() == list_after(list_view(old(tasks)@), command@).len(),
        result is Ok ==> outcome_of(list_view(old(tasks)@), command@) == Ok::<
            OutcomeView,
            TaskError,
        >(result->Ok_0@),
        result is Err ==> outcome_of(list_view(old(tasks)@), command@) == Err::<
            OutcomeView,
            TaskError,
        >(result->Err_0),
        result is Err || command@ is List || command@ is Unknown ==> final(tasks)@ == old(
            tasks,
        )@,
{
    match command {
        Command::Add(text) => {
            add_task(tasks, text);
            Ok(Outcome::Save)
        },
        Command::Complete(position) => {
            let index = match index_of_position(position) {
                Ok(index) => index,
                Err(e) => {
                    return Err(e);
                },
            };
            match complete_task(tasks, index) {
                Ok(()) => Ok(Outcome::Save),
                Err(e) => Err(e),
            }
        },
        Command::Remove(position) => {
            let index = match index_of_position(position) {
                Ok(index) => index,
                Err(e) => {
                    return Err(e);
                },
            };
            match remove_task(tasks, index) {
                Ok(()) => Ok(Outcome::Save),
                Err(e) => Err(e),
            }
        },
        Command::List => {
            let rows = view_tasks(tasks);
            Ok(Outcome::Print(rows))
        },
        Command::Unknown => {
            let mut lines: Vec<String> = Vec::new();
            lines.push(String::from_str("Invalid command"));
            assert(texts_of(lines@) =~= seq!["Invalid command"@]);
            Ok(Outcome::Print(lines))
        },
    }
}

/// What `run_line` leaves of the list `tasks` after the line `line`.
pub open spec fn list_after_line(tasks: Seq<TaskView>, line: Seq<char>) -> Seq<TaskView> {
    match command_of(line) {
        Ok(command) => list_after(tasks, command),
        Err(_) => tasks,
    }
}

/// What `run_line` answers for the line `line` on the list `tasks`.
pub open spec fn outcome_of_line(tasks: Seq<TaskView>, line: Seq<char>) -> Result<
    OutcomeView,
    TaskError,
> {
    match command_of(line) {
        Ok(command) => outcome_of(tasks, command),
        Err(e) => Err(e),
    }
}

/// Reads one line and carries out what it asks for.
///
/// A line that fails, in reading or in carrying out, leaves the list as it was.
pub fn run_line(tasks: &mut Vec<Task>, line: &str) -> (result: Result<Outcome, TaskError>)
    ensures
        list_view(final(tasks)@) == list_after_line(list_view(old(tasks)@), line@),
        final(tasks)@.len() == list_after_line(list_view(old(tasks)@), line@).len(),
        result is Ok ==> outcome_of_line(list_view(old(tasks)@), line@) == Ok::<
            OutcomeView,
            TaskError,
        >(result->Ok_0@),
        result is Err ==> outcome_of_line(list_view(old(tasks)@), line@) == Err::<
            OutcomeView,
            TaskError,
        >(result->Err_0),
        result is Err ==> final(tasks)@ == old(tasks)@,
{
    match parse_command(line) {
        Ok(command) => execute(tasks, command),
        Err(e) => Err(e),
    }
}

} // verus!
