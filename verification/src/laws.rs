//! What holds of the operations, whatever the list, the tasks and the
//! position.

use vstd::prelude::*;

use crate::command::{
    complete_report, delete_report, invalid_index_report, items_after, report_on, CommandView,
};
use crate::error::{invalid_index_message, TodoError};
use crate::item::{pending, ItemView};
use crate::list::{added_all, completed, deleted, valid_position};
use crate::render::{
    decimal, denoted, digit, digit_value, empty_message, heading, line, listing,
};

verus! {

/// The decimal text of a number denotes that number: it is made of digits,
/// at least one, reads back as the number, and starts with a zero only for
/// zero itself.
pub proof fn law_decimal_denotes(n: nat)
    ensures
        decimal(n).len() >= 1,
        forall|i: int|
            0 <= i < decimal(n).len() ==> (#[trigger] decimal(n)[i]) == digit(
                digit_value(decimal(n)[i]) as int,
            ),
        denoted(decimal(n)) == n,
        n > 0 ==> decimal(n)[0] != '0',
    decreases n,
{
    if n >= 10 {
        law_decimal_denotes(n / 10);
        assert(decimal(n).drop_last() =~= decimal(n / 10));
        assert(decimal(n)[0] == decimal(n / 10)[0]);
    } else {
        assert(decimal(n).drop_last() =~= Seq::<char>::empty());
        assert(denoted(Seq::<char>::empty()) == 0);
    }
    assert(digit_value(decimal(n).last()) == n % 10);
}

/// Different numbers have different decimal texts.
pub proof fn law_decimal_distinct(m: nat, n: nat)
    requires
        m != n,
    ensures
        decimal(m) != decimal(n),
{
    law_decimal_denotes(m);
    law_decimal_denotes(n);
}

/// The listing of an empty list is the lone message that there is no item.
/// Every other listing is the heading and then one line per item, in the
/// list's order: the item at position `p` is shown by line `p`, under its own
/// position.
pub proof fn law_listing_follows_list(items: Seq<ItemView>)
    ensures
        items.len() == 0 ==> listing(items) == seq![empty_message()],
        items.len() > 0 ==> listing(items).len() == items.len() + 1,
        items.len() > 0 ==> listing(items)[0] == heading(),
        forall|p: int|
            1 <= p <= items.len() ==> #[trigger] listing(items)[p] == line(p as nat, items[p - 1]),
{
}

/// Tasks added one after another stand behind the items that were there
/// before, in the order in which they were added, each not yet done. The
/// earlier items keep their positions.
pub proof fn law_added_in_order(items: Seq<ItemView>, tasks: Seq<Seq<char>>)
    ensures
        added_all(items, tasks).len() == items.len() + tasks.len(),
        forall|k: int| 0 <= k < items.len() ==> #[trigger] added_all(items, tasks)[k] == items[k],
        forall|k: int|
            0 <= k < tasks.len() ==> #[trigger] added_all(items, tasks)[items.len() + k] == pending(
                tasks[k],
            ),
    decreases tasks.len(),
{
    if tasks.len() > 0 {
        law_added_in_order(items, tasks.drop_last());
    }
}

/// After any sequence of additions to the empty list, the listing shows the
/// tasks in the exact order in which they were added, each under its position
/// and as not yet done.
pub proof fn law_additions_listed_in_order(tasks: Seq<Seq<char>>)
    ensures
        tasks.len() > 0 ==> listing(added_all(Seq::empty(), tasks)).len() == tasks.len() + 1,
        tasks.len() > 0 ==> listing(added_all(Seq::empty(), tasks))[0] == heading(),
        forall|p: int|
            1 <= p <= tasks.len() ==> #[trigger] listing(added_all(Seq::empty(), tasks))[p] == line(
                p as nat,
                pending(tasks[p - 1]),
            ),
{
    let items = added_all(Seq::empty(), tasks);
    law_added_in_order(Seq::empty(), tasks);
    law_listing_follows_list(items);
    assert forall|p: int| 1 <= p <= tasks.len() implies #[trigger] listing(items)[p] == line(
        p as nat,
        pending(tasks[p - 1]),
    ) by {
        assert(items[0 + (p - 1)] == pending(tasks[p - 1]));
    }
}

/// Completing the item at a valid position marks that item as done and
/// changes nothing else: the list keeps its length, the item keeps its text,
/// and every other item stays as it was. In the listing only the line of that
/// item can differ, and it shows the item as done.
pub proof fn law_complete_marks_one(items: Seq<ItemView>, position: int)
    requires
        valid_position(items, position),
    ensures
        completed(items, position).len() == items.len(),
        completed(items, position)[position - 1] == (ItemView {
            task: items[position - 1].task,
            done: true,
        }),
        forall|k: int|
            0 <= k < items.len() && k != position - 1 ==> #[trigger] completed(items, position)[k]
                == items[k],
        listing(completed(items, position)).len() == listing(items).len(),
        listing(completed(items, position))[position] == line(
            position as nat,
            ItemView { task: items[position - 1].task, done: true },
        ),
        forall|p: int|
            0 <= p < listing(items).len() && p != position ==> #[trigger] listing(
                completed(items, position),
            )[p] == listing(items)[p],
{
}

/// Completing an item twice leaves the list as completing it once does.
pub proof fn law_complete_idempotent(items: Seq<ItemView>, position: int)
    ensures
        completed(completed(items, position), position) == completed(items, position),
        complete_report(completed(items, position), position) == complete_report(items, position),
{
    if valid_position(items, position) {
        assert(completed(completed(items, position), position) =~= completed(items, position));
    }
}

/// Deleting the item at a valid position removes exactly that item: the list
/// is shorter by one, the items before the position stay where they were, and
/// each item behind it moves up by one position.
pub proof fn law_delete_removes_one(items: Seq<ItemView>, position: int)
    requires
        valid_position(items, position),
    ensures
        deleted(items, position).len() == items.len() - 1,
        forall|k: int| 0 <= k < position - 1 ==> #[trigger] deleted(items, position)[k] == items[k],
        forall|k: int|
            position - 1 <= k < items.len() - 1 ==> #[trigger] deleted(items, position)[k]
                == items[k + 1],
{
}

/// After a deletion the listing shows the remaining items in their order, each
/// under its new position: the lines before the deleted one are unchanged, and
/// the item that stood one position further back is now shown at `p`. When the
/// only item was deleted, the listing is the message that there is none.
pub proof fn law_delete_listed(items: Seq<ItemView>, position: int)
    requires
        valid_position(items, position),
    ensures
        items.len() == 1 ==> listing(deleted(items, position)) == seq![empty_message()],
        items.len() > 1 ==> listing(deleted(items, position)).len() == listing(items).len() - 1,
        forall|p: int|
            items.len() > 1 && 0 <= p < position ==> #[trigger] listing(deleted(items, position))[p]
                == listing(items)[p],
        forall|p: int|
            position <= p < items.len() ==> #[trigger] listing(deleted(items, position))[p] == line(
                p as nat,
                items[p],
            ),
{
    if items.len() == 1 {
        assert(listing(deleted(items, position)) =~= seq![empty_message()]);
    }
}

/// Position 0 and the position behind the last item address no item, whatever
/// the list.
pub proof fn law_zero_and_past_end_invalid(items: Seq<ItemView>)
    ensures
        !valid_position(items, 0),
        !valid_position(items, items.len() as int + 1),
{
}

/// A position that addresses no item changes nothing: neither completing nor
/// deleting alters the list, nothing is saved, and the answer is the one
/// warning line. The error behind it is not fatal.
pub proof fn law_invalid_position_skipped(items: Seq<ItemView>, position: int)
    requires
        !valid_position(items, position),
    ensures
        completed(items, position) == items,
        deleted(items, position) == items,
        complete_report(items, position) == invalid_index_report(),
        delete_report(items, position) == invalid_index_report(),
        invalid_index_report().lines == seq![invalid_index_message()],
        !invalid_index_report().save,
        !TodoError::InvalidIndex.fatal(),
{
}

/// The place in the list before `command` of the item that stands at index
/// `j` (from 0) after it. An index at or behind the old length is that of an
/// item that the command added.
pub open spec fn origin(items: Seq<ItemView>, command: CommandView, j: int) -> int {
    match command {
        CommandView::Delete { index } => if valid_position(items, index) && index - 1 <= j {
            j + 1
        } else {
            j
        },
        _ => j,
    }
}

/// No command reopens an item or alters its text. Every item that a command
/// leaves in the list is an item of the list before it, with the same text and
/// still done if it was done, or it is the task that the command added, not
/// yet done.
pub proof fn law_done_stays_done(items: Seq<ItemView>, command: CommandView, j: int)
    requires
        0 <= j < items_after(items, command).len(),
    ensures
        0 <= origin(items, command, j),
        origin(items, command, j) < items.len() ==> {
            &&& items_after(items, command)[j].task == items[origin(items, command, j)].task
            &&& items[origin(items, command, j)].done ==> items_after(items, command)[j].done
        },
        origin(items, command, j) >= items.len() ==> {
            &&& command is Add
            &&& j == items.len()
            &&& items_after(items, command)[j] == pending(command->task)
        },
{
}

/// No command reorders the list: of two items that a command leaves in it, the
/// one that stands first stood first before.
pub proof fn law_order_kept(items: Seq<ItemView>, command: CommandView, i: int, j: int)
    requires
        0 <= i < j < items_after(items, command).len(),
    ensures
        origin(items, command, i) < origin(items, command, j),
{
}

/// The list is saved exactly when a command may have changed it: after an
/// addition, and after completing or deleting at a valid position. Where
/// nothing is saved, the list is as it was.
pub proof fn law_saved_when_changed(items: Seq<ItemView>, command: CommandView)
    ensures
        report_on(items, command).save <==> (command is Add || (command is Complete
            && valid_position(items, command->Complete_index)) || (command is Delete
            && valid_position(items, command->Delete_index))),
        !report_on(items, command).save ==> items_after(items, command) == items,
{
}

} // verus!
