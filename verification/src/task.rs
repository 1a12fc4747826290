//! The task record and the errors that the tracker reports.

use vstd::prelude::*;
use vstd::string::StringExecFns;

verus! {

/// One entry of the list: a short text and whether it has been done.
///
/// A task carries no identifier. It is referred to by its place in the list,
/// which changes when an earlier task is removed.
#[derive(Clone, Debug, PartialEq, Eq)]
pub struct Task {
    pub description: String,
    pub complete: bool,
}

/// What a task is in contracts: its text as a sequence of characters, and its flag.
pub struct TaskView {
    pub description: Seq<char>,
    pub complete: bool,
}

impl View for Task {
    type V = TaskView;

    open spec fn view(&self) -> TaskView {
        TaskView { description: self.description@, complete: self.complete }
    }
}

/// The model of a whole list: the views of its tasks, in order.
pub open spec fn list_view(tasks: Seq<Task>) -> Seq<TaskView> {
    tasks.map_values(|t: Task| t@)
}

/// The step of a save at which the backing file failed.
#[derive(Clone, Copy, Debug, PartialEq, Eq, Structural)]
pub enum WriteStage {
    /// The file could not be created.
    Create,
    /// The file was created, and writing the list into it failed.
    Write,
}

/// The failures that the tracker tells apart.
#[derive(Clone, Copy, Debug, PartialEq, Eq, Structural)]
pub enum TaskError {
    /// No task stands at the position that was named.
    InvalidIndex,
    /// `complete` or `remove` was given something that is not a number.
    ParseError,
    /// The backing file exists and does not hold a list of tasks.
    CorruptStore,
    /// The backing file could not be created or written.
    WriteFailure(WriteStage),
}

impl TaskError {
    /// The text of the message for each failure.
    pub open spec fn message_text(self) -> Seq<char> {
        match self {
            TaskError::InvalidIndex => "Invalid task index"@,
            TaskError::ParseError => "Invalid task number"@,
            TaskError::CorruptStore => "Failed to read tasks from file"@,
            TaskError::WriteFailure(WriteStage::Create) => "Failed to create tasks file"@,
            TaskError::WriteFailure(WriteStage::Write) => "Failed to write tasks to file"@,
        }
    }

    /// The message to show the user for this failure.
    pub fn message(&self) -> (text: String)
        ensures
            text@ == self.message_text(),
    {
        match self {
            TaskError::InvalidIndex => String::from_str("Invalid task index"),
            TaskError::ParseError => String::from_str("Invalid task number"),
            TaskError::CorruptStore => String::from_str("Failed to read tasks from file"),
            TaskError::WriteFailure(WriteStage::Create) => String::from_str(
                "Failed to create tasks file",
            ),
            TaskError::WriteFailure(WriteStage::Write) => String::from_str(
                "Failed to write tasks to file",
            ),
        }
    }
}

} // verus!
