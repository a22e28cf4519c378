//! How the list is shown: one line per item, with its position, a completion
//! marker and its text.

use vstd::prelude::*;

use crate::item::{ItemView, TodoItem};

verus! {

/// The character of the decimal digit `d`.
pub open spec fn digit(d: int) -> char {
    if d == 0 {
        '0'
    } else if d == 1 {
        '1'
    } else if d == 2 {
        '2'
    } else if d == 3 {
        '3'
    } else if d == 4 {
        '4'
    } else if d == 5 {
        '5'
    } else if d == 6 {
        '6'
    } else if d == 7 {
        '7'
    } else if d == 8 {
        '8'
    } else {
        '9'
    }
}

/// `n` written in decimal, without leading zeros.
pub open spec fn decimal(n: nat) -> Seq<char>
    decreases n,
{
    if n < 10 {
        seq![digit(n as int)]
    } else {
        decimal(n / 10).push(digit((n % 10) as int))
    }
}

/// The number that the digit character `c` stands for.
pub open spec fn digit_value(c: char) -> nat {
    if c == '1' {
        1
    } else if c == '2' {
        2
    } else if c == '3' {
        3
    } else if c == '4' {
        4
    } else if c == '5' {
        5
    } else if c == '6' {
        6
    } else if c == '7' {
        7
    } else if c == '8' {
        8
    } else if c == '9' {
        9
    } else {
        0
    }
}

/// The number that `digits` denote when they are read as a decimal numeral.
pub open spec fn denoted(digits: Seq<char>) -> nat
    decreases digits.len(),
{
    if digits.len() == 0 {
        0
    } else {
        10 * denoted(digits.drop_last()) + digit_value(digits.last())
    }
}

/// What stands between the brackets of a line: a check mark for a completed
/// item, a blank for one that is still open.
pub open spec fn marker(done: bool) -> Seq<char> {
    if done {
        seq!['✔']
    } else {
        seq![' ']
    }
}

/// The line that shows `item` at `position`: the position, a colon, the marker
/// in square brackets, and the task's text.
pub open spec fn line(position: nat, item: ItemView) -> Seq<char> {
    decimal(position) + seq![':', ' ', '['] + marker(item.done) + seq![']', ' '] + item.task
}

/// What is shown in place of a listing when there is no item.
pub open spec fn empty_message() -> Seq<char> {
    "📂 No todos found!"@
}

/// The heading of a listing.
pub open spec fn heading() -> Seq<char> {
    "📋 Your Todos:"@
}

/// The lines of the listing of `items`, in order: the heading and one line per
/// item, or the lone message that there is none.
pub open spec fn listing(items: Seq<ItemView>) -> Seq<Seq<char>> {
    if items.len() == 0 {
        seq![empty_message()]
    } else {
        seq![heading()] + Seq::new(items.len(), |k: int| line((k + 1) as nat, items[k]))
    }
}

/// The text of one decimal digit.
fn digit_text(d: usize) -> (text: &'static str)
    requires
        d < 10,
    ensures
        text@ == seq![digit(d as int)],
{
    proof {
        reveal_strlit("0");
        reveal_strlit("1");
        reveal_strlit("2");
        reveal_strlit("3");
        reveal_strlit("4");
        reveal_strlit("5");
        reveal_strlit("6");
        reveal_strlit("7");
        reveal_strlit("8");
        reveal_strlit("9");
    }
    let text = match d {
        0 => "0",
        1 => "1",
        2 => "2",
        3 => "3",
        4 => "4",
        5 => "5",
        6 => "6",
        7 => "7",
        8 => "8",
        _ => "9",
    };
    assert(text@ =~= seq![digit(d as int)]);
    text
}

/// Writes `n` in decimal.
pub fn decimal_text(n: usize) -> (text: String)
    ensures
        text@ == decimal(n as nat),
    decreases n,
{
    if n < 10 {
        digit_text(n).to_owned()
    } else {
        let mut text = decimal_text(n / 10);
        text.append(digit_text(n % 10));
        assert(text@ =~= decimal(n as nat));
        text
    }
}

/// Renders the line that shows `item` at `position`.
pub fn render_line(position: usize, item: &TodoItem) -> (text: String)
    ensures
        text@ == line(position as nat, item@),
{
    proof {
        reveal_strlit(": [");
        reveal_strlit("✔");
        reveal_strlit(" ");
        reveal_strlit("] ");
    }
    let mut text = decimal_text(position);
    text.append(": [");
    text.append(if item.done { "✔" } else { " " });
    text.append("] ");
    text.append(item.task.as_str());
    assert(text@ =~= line(position as nat, item@));
    text
}

} // verus!
