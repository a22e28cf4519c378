use todo_list::command::{add_todo, complete_todo, delete_todo, show_todos};
use todo_list::error::TodoError;
use todo_list::item::TodoItem;
use todo_list::list::TodoList;

fn item(task: &str, done: bool) -> TodoItem {
    TodoItem { task: task.to_string(), done }
}

fn three() -> TodoList {
    TodoList { items: vec![item("a", false), item("b", true), item("c", false)] }
}

#[test]
fn new_item_is_not_done() {
    assert_eq!(TodoItem::new("Read".to_string()), item("Read", false));
}

#[test]
fn new_list_is_empty() {
    let todos = TodoList::new();
    assert_eq!(todos.len(), 0);
    assert!(todos.is_empty());
    assert!(todos.items.is_empty());
}

#[test]
fn additions_keep_their_order() {
    let mut todos = TodoList::new();
    let tasks = ["first", "second", "third", "fourth"];
    for task in tasks {
        let report = add_todo(&mut todos, task.to_string());
        assert_eq!(report.lines, vec!["✅ Task added!".to_string()]);
        assert!(report.save);
    }
    assert_eq!(todos.len(), 4);
    assert!(!todos.is_empty());
    for (k, task) in tasks.iter().enumerate() {
        assert_eq!(todos.items[k], item(task, false));
    }
    assert_eq!(
        show_todos(&todos).lines,
        vec![
            "📋 Your Todos:".to_string(),
            "1: [ ] first".to_string(),
            "2: [ ] second".to_string(),
            "3: [ ] third".to_string(),
            "4: [ ] fourth".to_string(),
        ]
    );
}

#[test]
fn addition_goes_behind_what_is_there() {
    let mut todos = three();
    todos.add("d".to_string());
    assert_eq!(
        todos.items,
        vec![item("a", false), item("b", true), item("c", false), item("d", false)]
    );
}

#[test]
fn empty_text_and_duplicates_are_accepted() {
    let mut todos = TodoList::new();
    add_todo(&mut todos, String::new());
    add_todo(&mut todos, "twice".to_string());
    add_todo(&mut todos, "twice".to_string());
    assert_eq!(todos.items, vec![item("", false), item("twice", false), item("twice", false)]);
    assert_eq!(
        show_todos(&todos).lines,
        vec![
            "📋 Your Todos:".to_string(),
            "1: [ ] ".to_string(),
            "2: [ ] twice".to_string(),
            "3: [ ] twice".to_string(),
        ]
    );
}

#[test]
fn complete_marks_only_the_addressed_item() {
    let mut todos = three();
    assert_eq!(todos.complete(3), Ok(()));
    assert_eq!(todos.items, vec![item("a", false), item("b", true), item("c", true)]);
    assert_eq!(
        show_todos(&todos).lines,
        vec![
            "📋 Your Todos:".to_string(),
            "1: [ ] a".to_string(),
            "2: [✔] b".to_string(),
            "3: [✔] c".to_string(),
        ]
    );
}

#[test]
fn complete_twice_is_complete_once() {
    let mut once = three();
    let mut twice = three();
    let first = complete_todo(&mut once, 1);
    complete_todo(&mut twice, 1);
    let second = complete_todo(&mut twice, 1);
    assert_eq!(once, twice);
    assert_eq!(first, second);
    assert_eq!(first.lines, vec!["✅ Task 1 marked as completed!".to_string()]);
    assert!(first.save);
    assert_eq!(once.items, vec![item("a", true), item("b", true), item("c", false)]);
}

#[test]
fn complete_of_a_done_item_keeps_it_done() {
    let mut todos = three();
    assert_eq!(todos.complete(2), Ok(()));
    assert_eq!(todos, three());
}

#[test]
fn delete_first_moves_the_rest_up() {
    let mut todos = three();
    assert_eq!(todos.delete(1), Ok(item("a", false)));
    assert_eq!(todos.items, vec![item("b", true), item("c", false)]);
    assert_eq!(
        show_todos(&todos).lines,
        vec!["📋 Your Todos:".to_string(), "1: [✔] b".to_string(), "2: [ ] c".to_string()]
    );
}

#[test]
fn delete_middle_keeps_the_first_and_moves_the_last() {
    let mut todos = three();
    let report = delete_todo(&mut todos, 2);
    assert_eq!(report.lines, vec!["🗑️ Task 2 deleted!".to_string()]);
    assert!(report.save);
    assert_eq!(todos.items, vec![item("a", false), item("c", false)]);
    assert_eq!(todos.len(), 2);
}

#[test]
fn delete_last_keeps_the_others() {
    let mut todos = three();
    assert_eq!(todos.delete(3), Ok(item("c", false)));
    assert_eq!(todos.items, vec![item("a", false), item("b", true)]);
}

#[test]
fn delete_removes_one_of_two_equal_items() {
    let mut todos = TodoList { items: vec![item("same", false), item("same", false)] };
    assert_eq!(todos.delete(1), Ok(item("same", false)));
    assert_eq!(todos.items, vec![item("same", false)]);
}

#[test]
fn position_zero_is_invalid() {
    let mut todos = three();
    assert!(!todos.is_valid_position(0));
    assert_eq!(todos.complete(0), Err(TodoError::InvalidIndex));
    assert_eq!(todos.delete(0), Err(TodoError::InvalidIndex));
    assert_eq!(todos, three());
    let report = complete_todo(&mut todos, 0);
    assert_eq!(report.lines, vec!["⚠️ Invalid task number!".to_string()]);
    assert!(!report.save);
    let report = delete_todo(&mut todos, 0);
    assert_eq!(report.lines, vec!["⚠️ Invalid task number!".to_string()]);
    assert!(!report.save);
    assert_eq!(todos, three());
}

#[test]
fn position_behind_the_last_is_invalid() {
    let mut todos = three();
    assert!(todos.is_valid_position(1));
    assert!(todos.is_valid_position(3));
    assert!(!todos.is_valid_position(4));
    assert!(!todos.is_valid_position(usize::MAX));
    assert_eq!(todos.complete(4), Err(TodoError::InvalidIndex));
    assert_eq!(todos.delete(4), Err(TodoError::InvalidIndex));
    assert_eq!(todos.complete(usize::MAX), Err(TodoError::InvalidIndex));
    assert_eq!(todos.delete(usize::MAX), Err(TodoError::InvalidIndex));
    let report = complete_todo(&mut todos, 4);
    assert_eq!(report.lines, vec!["⚠️ Invalid task number!".to_string()]);
    assert!(!report.save);
    let report = delete_todo(&mut todos, 4);
    assert_eq!(report.lines, vec!["⚠️ Invalid task number!".to_string()]);
    assert!(!report.save);
    assert_eq!(todos, three());
}

#[test]
fn every_position_is_invalid_in_an_empty_list() {
    let mut todos = TodoList::new();
    assert!(!todos.is_valid_position(0));
    assert!(!todos.is_valid_position(1));
    assert_eq!(todos.complete(1), Err(TodoError::InvalidIndex));
    assert_eq!(todos.delete(1), Err(TodoError::InvalidIndex));
    assert!(todos.is_empty());
}
