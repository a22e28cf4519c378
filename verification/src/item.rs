//! A single task record.

use vstd::prelude::*;

verus! {

/// What a task record stands for in contracts: its text and whether it is done.
pub struct ItemView {
    pub task: Seq<char>,
    pub done: bool,
}

/// A task with its completion flag.
#[derive(Debug, Clone, PartialEq, Eq)]
pub struct TodoItem {
    pub task: String,
    pub done: bool,
}

impl View for TodoItem {
    type V = ItemView;

    open spec fn view(&self) -> ItemView {
        ItemView { task: self.task@, done: self.done }
    }
}

/// The record that a freshly added task starts as: its text, not yet done.
pub open spec fn pending(task: Seq<char>) -> ItemView {
    ItemView { task, done: false }
}

impl TodoItem {
    /// A new, not yet completed task. Any text is accepted, the empty one too.
    pub fn new(task: String) -> (item: TodoItem)
        ensures
            item@ == pending(task@),
    {
        TodoItem { task, done: false }
    }
}

} // verus!
