//! The four commands. Each works on the list as it was loaded and answers with
//! a report: the lines to show, and whether the list has to be saved.

use vstd::prelude::*;

use crate::error::{invalid_index_message, TodoError};
use crate::item::ItemView;
use crate::list::{added, completed, deleted, valid_position, TodoList};
use crate::render::{decimal, decimal_text, heading, line, listing, render_line};

verus! {

/// What a report stands for in contracts.
pub struct ReportView {
    pub lines: Seq<Seq<char>>,
    pub save: bool,
}

/// The answer to a command: the lines to show, in order, and whether the list
/// was changed and has to be saved before they are shown.
#[derive(Debug, Clone, PartialEq, Eq)]
pub struct Report {
    pub lines: Vec<String>,
    pub save: bool,
}

impl View for Report {
    type V = ReportView;

    open spec fn view(&self) -> ReportView {
        ReportView { lines: self.lines@.map_values(|text: String| text@), save: self.save }
    }
}

/// What a command stands for in contracts.
pub enum CommandView {
    Add { task: Seq<char> },
    List,
    Complete { index: int },
    Delete { index: int },
}

/// A command of the to-do list. `index` is a 1-based position.
#[derive(Debug, Clone, PartialEq, Eq)]
pub enum Command {
    Add { task: String },
    List,
    Complete { index: usize },
    Delete { index: usize },
}

impl View for Command {
    type V = CommandView;

    open spec fn view(&self) -> CommandView {
        match self {
            Command::Add { task } => CommandView::Add { task: task@ },
            Command::List => CommandView::List,
            Command::Complete { index } => CommandView::Complete { index: *index as int },
            Command::Delete { index } => CommandView::Delete { index: *index as int },
        }
    }
}

/// The confirmation that a task was added.
pub open spec fn added_message() -> Seq<char> {
    "✅ Task added!"@
}

/// The confirmation that the item at `index` was marked as done.
pub open spec fn completed_message(index: nat) -> Seq<char> {
    "✅ Task "@ + decimal(index) + " marked as completed!"@
}

/// The confirmation that the item at `index` was removed.
pub open spec fn deleted_message(index: nat) -> Seq<char> {
    "🗑️ Task "@ + decimal(index) + " deleted!"@
}

/// The report on adding a task: the confirmation, and the list is saved.
pub open spec fn add_report() -> ReportView {
    ReportView { lines: seq![added_message()], save: true }
}

/// The report on listing `items`: the listing, and nothing is saved.
pub open spec fn show_report(items: Seq<ItemView>) -> ReportView {
    ReportView { lines: listing(items), save: false }
}

/// The report on a position that addresses no item: the warning, and nothing
/// is saved.
pub open spec fn invalid_index_report() -> ReportView {
    ReportView { lines: seq![invalid_index_message()], save: false }
}

/// The report on completing the item at `index` of `items`.
pub open spec fn complete_report(items: Seq<ItemView>, index: int) -> ReportView {
    if valid_position(items, index) {
        ReportView { lines: seq![completed_message(index as nat)], save: true }
    } else {
        invalid_index_report()
    }
}

/// The report on deleting the item at `index` of `items`.
pub open spec fn delete_report(items: Seq<ItemView>, index: int) -> ReportView {
    if valid_position(items, index) {
        ReportView { lines: seq![deleted_message(index as nat)], save: true }
    } else {
        invalid_index_report()
    }
}

/// The list that `command` leaves behind when it is run on `items`.
pub open spec fn items_after(items: Seq<ItemView>, command: CommandView) -> Seq<ItemView> {
    match command {
        CommandView::Add { task } => added(items, task),
        CommandView::List => items,
        CommandView::Complete { index } => completed(items, index),
        CommandView::Delete { index } => deleted(items, index),
    }
}

/// The report with which `command` answers when it is run on `items`.
pub open spec fn report_on(items: Seq<ItemView>, command: CommandView) -> ReportView {
    match command {
        CommandView::Add { task } => add_report(),
        CommandView::List => show_report(items),
        CommandView::Complete { index } => complete_report(items, index),
        CommandView::Delete { index } => delete_report(items, index),
    }
}

/// A report of one line.
fn single_line(text: String, save: bool) -> (report: Report)
    ensures
        report@ == (ReportView { lines: seq![text@], save }),
{
    let mut lines: Vec<String> = Vec::new();
    lines.push(text);
    let report = Report { lines, save };
    assert(report@.lines =~= seq![text@]);
    report
}

/// The report on a position that addresses no item.
fn invalid_index() -> (report: Report)
    ensures
        report@ == invalid_index_report(),
{
    single_line(TodoError::InvalidIndex.message(), false)
}

/// Appends `task` to the list as a new, not yet completed item. Always
/// succeeds; any text is accepted.
pub fn add_todo(todos: &mut TodoList, task: String) -> (report: Report)
    ensures
        final(todos)@ == added(old(todos)@, task@),
        report@ == add_report(),
{
    todos.add(task);
    single_line("✅ Task added!".to_owned(), true)
}

/// Lists the items in order, each with its 1-based position, its completion
/// marker and its text, under a heading; for an empty list, the message that
/// there is none. The list is only read.
pub fn show_todos(todos: &TodoList) -> (report: Report)
    ensures
        report@ == show_report(todos@),
{
    if todos.is_empty() {
        return single_line("📂 No todos found!".to_owned(), false);
    }
    let mut lines: Vec<String> = Vec::new();
    lines.push("📋 Your Todos:".to_owned());
    let mut i: usize = 0;
    while i < todos.items.len()
        invariant
            i <= todos.items.len(),
            lines@.len() == i + 1,
            lines@[0]@ == heading(),
            forall|k: int|
                0 <= k < i ==> (#[trigger] lines@[k + 1])@ == line((k + 1) as nat, todos@[k]),
        decreases todos.items.len() - i,
    {
        lines.push(render_line(i + 1, &todos.items[i]));
        i += 1;
    }
    let report = Report { lines, save: false };
    assert(report@.lines =~= listing(todos@));
    report
}

/// Marks the item at the 1-based position `index` as done. Where `index` is 0
/// or beyond the last item, the list stays as it was and the report is the
/// invalid-index warning, with nothing to save.
pub fn complete_todo(todos: &mut TodoList, index: usize) -> (report: Report)
    ensures
        final(todos)@ == completed(old(todos)@, index as int),
        report@ == complete_report(old(todos)@, index as int),
{
    match todos.complete(index) {
        Ok(()) => {
            let mut text = "✅ Task ".to_owned();
            let number = decimal_text(index);
            text.append(number.as_str());
            text.append(" marked as completed!");
            single_line(text, true)
        },
        Err(_) => invalid_index(),
    }
}

/// Removes the item at the 1-based position `index`; the items behind it move
/// up by one position. Where `index` is 0 or beyond the last item, the list
/// stays as it was and the report is the invalid-index warning, with nothing
/// to save.
pub fn delete_todo(todos: &mut TodoList, index: usize) -> (report: Report)
    ensures
        final(todos)@ == deleted(old(todos)@, index as int),
        report@ == delete_report(old(todos)@, index as int),
{
    match todos.delete(index) {
        Ok(_) => {
            let mut text = "🗑️ Task ".to_owned();
            let number = decimal_text(index);
            text.append(number.as_str());
            text.append(" deleted!");
            single_line(text, true)
        },
        Err(_) => invalid_index(),
    }
}

/// Runs `command` on the list as it was loaded.
pub fn execute(todos: &mut TodoList, command: Command) -> (report: Report)
    ensures
        final(todos)@ == items_after(old(todos)@, command@),
        report@ == report_on(old(todos)@, command@),
{
    match command {
        Command::Add { task } => add_todo(todos, task),
        Command::List => show_todos(todos),
        Command::Complete { index } => complete_todo(todos, index),
        Command::Delete { index } => delete_todo(todos, index),
    }
}

} // verus!
