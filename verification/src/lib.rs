//! A small to-do list: an ordered collection of tasks addressed by their
//! 1-based position, with the commands that add, list, complete and delete
//! them.
//!
//! The library holds the list and its rules; it touches neither files nor the
//! console. A command works on the list as it was loaded and answers with a
//! [`command::Report`]: the lines to show, and whether the list has to be
//! saved. Whoever runs the command reads the snapshot, hands over what the
//! read gave ([`store::Snapshot`]), saves the list where the report asks for
//! it, and shows the lines.
//!
//! - [`item`]: one task and its completion flag.
//! - [`list`]: the list, and what adding, completing and deleting do to it.
//! - [`render`]: the lines of a listing.
//! - [`command`]: the four commands and their reports.
//! - [`store`]: what a read of the snapshot amounts to.
//! - [`error`]: the failures, and which of them end a command.
//! - [`laws`]: what holds of the operations for every list.

pub mod command;
pub mod error;
pub mod item;
pub mod laws;
pub mod list;
pub mod render;
pub mod store;
