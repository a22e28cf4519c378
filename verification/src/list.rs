//! The collection: tasks in the order in which they were added, addressed by
//! their 1-based position.

use vstd::prelude::*;

use crate::error::TodoError;
use crate::item::{pending, ItemView, TodoItem};

verus! {

/// The list in which `items` stand in their order.
pub open spec fn list_of(items: Seq<TodoItem>) -> Seq<ItemView> {
    items.map_values(|item: TodoItem| item@)
}

/// Whether `position` addresses an item of `items`: positions count from 1.
pub open spec fn valid_position(items: Seq<ItemView>, position: int) -> bool {
    1 <= position <= items.len()
}

/// `items` with a new, not yet completed task at the end.
pub open spec fn added(items: Seq<ItemView>, task: Seq<char>) -> Seq<ItemView> {
    items.push(pending(task))
}

/// `items` after each task of `tasks` was added in turn.
pub open spec fn added_all(items: Seq<ItemView>, tasks: Seq<Seq<char>>) -> Seq<ItemView>
    decreases tasks.len(),
{
    if tasks.len() == 0 {
        items
    } else {
        added(added_all(items, tasks.drop_last()), tasks.last())
    }
}

/// `items` with the item at `position` marked as done; unchanged where
/// `position` addresses no item.
pub open spec fn completed(items: Seq<ItemView>, position: int) -> Seq<ItemView> {
    if valid_position(items, position) {
        items.update(position - 1, ItemView { task: items[position - 1].task, done: true })
    } else {
        items
    }
}

/// `items` without the item at `position`, the later ones moved up by one;
/// unchanged where `position` addresses no item.
pub open spec fn deleted(items: Seq<ItemView>, position: int) -> Seq<ItemView> {
    if valid_position(items, position) {
        items.remove(position - 1)
    } else {
        items
    }
}

/// The to-do list.
#[derive(Debug, Clone, PartialEq, Eq)]
pub struct TodoList {
    pub items: Vec<TodoItem>,
}

impl View for TodoList {
    type V = Seq<ItemView>;

    open spec fn view(&self) -> Seq<ItemView> {
        list_of(self.items@)
    }
}

impl TodoList {
    /// The empty list: what a first run starts from.
    pub fn new() -> (list: TodoList)
        ensures
            list@ == Seq::<ItemView>::empty(),
    {
        TodoList { items: Vec::new() }
    }

    /// The number of items.
    pub fn len(&self) -> (len: usize)
        ensures
            len == self@.len(),
    {
        self.items.len()
    }

    /// Whether the list holds no item.
    pub fn is_empty(&self) -> (empty: bool)
        ensures
            empty == (self@.len() == 0),
    {
        self.items.len() == 0
    }

    /// Whether `position` addresses an item: it is neither 0 nor beyond the
    /// last item.
    pub fn is_valid_position(&self, position: usize) -> (valid: bool)
        ensures
            valid == valid_position(self@, position as int),
    {
        position != 0 && position <= self.items.len()
    }

    /// Appends a new task, not yet completed. Every earlier item keeps its
    /// position.
    pub fn add(&mut self, task: String)
        ensures
            final(self)@ == added(old(self)@, task@),
    {
        self.items.push(TodoItem::new(task));
    }

    /// Marks the item at `position` as done. A position that addresses no item
    /// is refused with `InvalidIndex`, and the list stays as it was.
    pub fn complete(&mut self, position: usize) -> (result: Result<(), TodoError>)
        ensures
            result is Ok <==> valid_position(old(self)@, position as int),
            result is Err ==> result == Err::<(), TodoError>(TodoError::InvalidIndex),
            final(self)@ == completed(old(self)@, position as int),
    {
        if !self.is_valid_position(position) {
            return Err(TodoError::InvalidIndex);
        }
        self.items[position - 1].done = true;
        Ok(())
    }

    /// Removes the item at `position` and hands it back; the items behind it
    /// move up by one position. A position that addresses no item is refused
    /// with `InvalidIndex`, and the list stays as it was.
    pub fn delete(&mut self, position: usize) -> (result: Result<TodoItem, TodoError>)
        ensures
            result is Ok <==> valid_position(old(self)@, position as int),
            result matches Ok(item) ==> item@ == old(self)@[position - 1],
            result matches Err(error) ==> error == TodoError::InvalidIndex,
            final(self)@ == deleted(old(self)@, position as int),
    {
        if !self.is_valid_position(position) {
            return Err(TodoError::InvalidIndex);
        }
        let item = self.items.remove(position - 1);
        Ok(item)
    }
}

} // verus!
