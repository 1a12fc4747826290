//! What loading and saving the list come to.
//!
//! Opening, reading and writing the backing file is the caller's work. The
//! caller reports how it went, and the library says what that means: which
//! list the session starts with, and which failure a save ended in.

use vstd::prelude::*;
use crate::task::{Task, TaskError, WriteStage};

verus! {

/// The backing file's path, relative to the working directory.
pub const STORE_PATH: &'static str = "tasks.json";

/// How reading the backing file went.
#[derive(Clone, Debug, PartialEq, Eq)]
pub enum ReadReport {
    /// There is no backing file.
    Missing,
    /// The file exists and does not hold a list of tasks.
    Malformed,
    /// The file holds these tasks.
    Tasks(Vec<Task>),
}

/// How writing the backing file went.
#[derive(Clone, Copy, Debug, PartialEq, Eq, Structural)]
pub enum WriteReport {
    /// The whole list is in the file.
    Written,
    /// The file could not be created.
    NotCreated,
    /// The file was created, and writing the list into it failed.
    NotWritten,
}

/// The list that a session starts with.
///
/// A missing file is no failure: the session starts with the empty list. A
/// file that holds something else than a list of tasks is a `CorruptStore`.
pub fn load_result(report: ReadReport) -> (result: Result<Vec<Task>, TaskError>)
    ensures
        report is Missing ==> result is Ok && result->Ok_0@ == Seq::<Task>::empty(),
        report is Malformed ==> result == Err::<Vec<Task>, TaskError>(TaskError::CorruptStore),
        report is Tasks ==> result == Ok::<Vec<Task>, TaskError>(report->Tasks_0),
{
    match report {
        ReadReport::Missing => Ok(Vec::new()),
        ReadReport::Malformed => Err(TaskError::CorruptStore),
        ReadReport::Tasks(tasks) => Ok(tasks),
    }
}

/// What a save ended in: success, or a `WriteFailure` with the step that failed.
pub fn save_result(report: WriteReport) -> (result: Result<(), TaskError>)
    ensures
        report == WriteReport::Written ==> result == Ok::<(), TaskError>(()),
        report == WriteReport::NotCreated ==> result == Err::<(), TaskError>(
            TaskError::WriteFailure(WriteStage::Create),
        ),
        report == WriteReport::NotWritten ==> result == Err::<(), TaskError>(
            TaskError::WriteFailure(WriteStage::Write),
        ),
{
    match report {
        WriteReport::Written => Ok(()),
        WriteReport::NotCreated => Err(TaskError::WriteFailure(WriteStage::Create)),
        WriteReport::NotWritten => Err(TaskError::WriteFailure(WriteStage::Write)),
    }
}

} // verus!
