//! What can go wrong, and which of it ends a command.

use vstd::prelude::*;

verus! {

/// The failures of the to-do list, as a closed set.
///
/// `Io` and `Deserialize` carry the reason given by whoever read or wrote the
/// persisted snapshot. `InvalidIndex` is a position outside `1..=len`.
#[derive(Debug, Clone, PartialEq, Eq)]
pub enum TodoError {
    Io(String),
    Deserialize(String),
    InvalidIndex,
}

/// The warning shown for a position that addresses no item.
pub open spec fn invalid_index_message() -> Seq<char> {
    "⚠️ Invalid task number!"@
}

/// What leads the line that reports a fatal error.
pub open spec fn failure_prefix() -> Seq<char> {
    "Error: "@
}

impl TodoError {
    /// Whether the error ends the command: everything but an invalid position.
    pub open spec fn fatal(&self) -> bool {
        !(self is InvalidIndex)
    }

    /// The text of the error: the carried reason, or the invalid-position warning.
    pub open spec fn text(&self) -> Seq<char> {
        match self {
            TodoError::Io(reason) => reason@,
            TodoError::Deserialize(reason) => reason@,
            TodoError::InvalidIndex => invalid_index_message(),
        }
    }

    /// Whether the error ends the command. An invalid position does not: the
    /// command is skipped with a warning.
    pub fn is_fatal(&self) -> (fatal: bool)
        ensures
            fatal == self.fatal(),
    {
        match self {
            TodoError::InvalidIndex => false,
            _ => true,
        }
    }

    /// The text of the error.
    pub fn message(&self) -> (message: String)
        ensures
            message@ == self.text(),
    {
        match self {
            TodoError::Io(reason) => reason.clone(),
            TodoError::Deserialize(reason) => reason.clone(),
            TodoError::InvalidIndex => "⚠️ Invalid task number!".to_owned(),
        }
    }

    /// The line that reports the error to the user of a command: the text
    /// behind `failure_prefix()`.
    pub fn failure_line(&self) -> (line: String)
        ensures
            line@ == failure_prefix() + self.text(),
    {
        let mut line = "Error: ".to_owned();
        let message = self.message();
        line.append(message.as_str());
        line
    }
}

} // verus!
