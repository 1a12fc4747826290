//! A small task tracker: an ordered list of short text tasks that can be
//! added to, marked as done, removed from and listed.
//!
//! - `task`: the task record and the failures that are told apart.
//! - `store`: the list's operations and its listing.
//! - `text`: decimal numbers, written and read.
//! - `command`: a command line, split and read.
//! - `session`: one step of the command loop.
//! - `storage`: what loading and saving the list come to.
//!
//! The library reads no input, prints nothing and touches no file: it says
//! what is to be printed or saved, and its caller does it.

pub mod command;
pub mod session;
pub mod storage;
pub mod store;
pub mod task;
pub mod text;
