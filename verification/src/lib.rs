//! A verified core for a small todo-list manager.
//!
//! A list is an ordered sequence of tasks kept in one file per list. This
//! crate holds everything that is decided or computed about such a list; the
//! program around it reads and writes the files.

pub mod cli;
mod clock;
pub mod dispatch;
pub mod error;
pub mod laws;
pub mod report;
pub mod storage;
pub mod task;
pub mod tasks;
