//! The boundary to the persisted snapshot. Reading and writing it happens
//! elsewhere; here stands what a read amounts to.

use vstd::prelude::*;

use crate::error::TodoError;
use crate::item::{ItemView, TodoItem};
use crate::list::{list_of, TodoList};

verus! {

/// What reading the persisted snapshot gave.
#[derive(Debug, Clone, PartialEq, Eq)]
pub enum Snapshot {
    /// There is no snapshot: nothing has been saved yet.
    Missing,
    /// There is a snapshot, but it could not be read; with the reason.
    Unreadable(String),
    /// The snapshot was read, but it is not a list of items; with the reason.
    Malformed(String),
    /// The snapshot holds these items, in this order.
    Items(Vec<TodoItem>),
}

/// Turns what was read into the list to work on. A missing snapshot is the
/// empty list, not an error. An unreadable one is an `Io` error, a malformed
/// one a `Deserialize` error, each with the reason it came with. Otherwise the
/// list holds the snapshot's items, unchanged and in their order.
pub fn load_todos(snapshot: Snapshot) -> (result: Result<TodoList, TodoError>)
    ensures
        match snapshot {
            Snapshot::Missing => result matches Ok(list) && list@ == Seq::<ItemView>::empty(),
            Snapshot::Unreadable(reason) => result == Err::<TodoList, TodoError>(
                TodoError::Io(reason),
            ),
            Snapshot::Malformed(reason) => result == Err::<TodoList, TodoError>(
                TodoError::Deserialize(reason),
            ),
            Snapshot::Items(items) => result matches Ok(list) && list.items == items && list@
                == list_of(items@),
        },
{
    match snapshot {
        Snapshot::Missing => Ok(TodoList::new()),
        Snapshot::Unreadable(reason) => Err(TodoError::Io(reason)),
        Snapshot::Malformed(reason) => Err(TodoError::Deserialize(reason)),
        Snapshot::Items(items) => Ok(TodoList { items }),
    }
}

} // verus!
