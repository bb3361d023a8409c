use termod::todo_widget::Section;
use termod::todo_widget::TodoItem;
use termod::todo_widget::TodoItems;

fn item(title: &str, completed_at: Option<i64>) -> TodoItem {
    TodoItem { title: title.to_string(), completed_at, added_at: 1000, working: false }
}

fn sample() -> TodoItems {
    TodoItems::new(vec![
        item("one", None),
        item("two", Some(2000)),
        item("three", None),
        item("four", Some(3000)),
    ])
}

#[test]
fn new_splits_items_by_completion_keeping_order() {
    let items = sample();
    assert!(matches!(items.active_section, Section::TODO));
    assert_eq!(items.todo_items.len(), 2);
    assert_eq!(items.todo_items[0].title, "one");
    assert_eq!(items.todo_items[1].title, "three");
    assert_eq!(items.done_items.len(), 2);
    assert_eq!(items.done_items[0].title, "two");
    assert_eq!(items.done_items[1].title, "four");
    assert!(items.removed_items.is_empty());
    assert_eq!(items.highlighted_todo_item, 0);
    assert_eq!(items.highlighted_done_item, 0);
}

#[test]
fn empty_has_no_items_anywhere() {
    let items = TodoItems::empty();
    assert!(items.todo_items.is_empty());
    assert!(items.done_items.is_empty());
    assert!(items.removed_items.is_empty());
}

#[test]
fn next_and_prev_stop_at_the_ends() {
    let mut items = sample();
    items.next_item();
    assert_eq!(items.highlighted_todo_item, 1);
    items.next_item();
    assert_eq!(items.highlighted_todo_item, 1);
    items.prev_item();
    assert_eq!(items.highlighted_todo_item, 0);
    items.prev_item();
    assert_eq!(items.highlighted_todo_item, 0);
}

#[test]
fn next_and_prev_do_nothing_on_an_empty_list() {
    let mut items = TodoItems::empty();
    items.next_item();
    items.prev_item();
    assert_eq!(items.highlighted_todo_item, 0);
}

#[test]
fn toggle_section_switches_which_highlight_moves() {
    let mut items = sample();
    items.toggle_section();
    assert!(matches!(items.active_section, Section::DONE));
    items.next_item();
    assert_eq!(items.highlighted_done_item, 1);
    assert_eq!(items.highlighted_todo_item, 0);
    items.toggle_section();
    assert!(matches!(items.active_section, Section::TODO));
}

#[test]
fn remove_moves_the_highlighted_item_to_the_removed_list() {
    let mut items = sample();
    items.remove_selected_item();
    assert_eq!(items.todo_items.len(), 1);
    assert_eq!(items.todo_items[0].title, "three");
    assert_eq!(items.removed_items.len(), 1);
    assert_eq!(items.removed_items[0].title, "one");
}

#[test]
fn remove_steps_the_highlight_back_at_the_end() {
    let mut items = sample();
    items.next_item();
    items.remove_selected_item();
    assert_eq!(items.todo_items.len(), 1);
    assert_eq!(items.highlighted_todo_item, 0);
}

#[test]
fn remove_does_nothing_with_an_empty_section() {
    let mut items = TodoItems::empty();
    items.remove_selected_item();
    assert!(items.removed_items.is_empty());
}

#[test]
fn undo_returns_the_last_removed_item_to_its_section() {
    let mut items = sample();
    items.remove_selected_item();
    items.undo_last_remove();
    assert_eq!(items.todo_items.len(), 2);
    assert_eq!(items.todo_items[1].title, "one");
    assert!(items.removed_items.is_empty());
    items.undo_last_remove();
    assert_eq!(items.todo_items.len(), 2);
}

#[test]
fn completing_an_item_stamps_it_and_moves_it_to_the_front_of_done() {
    let mut items = sample();
    items.toggle_selected_item_completeness_at(5000);
    assert_eq!(items.todo_items.len(), 1);
    assert_eq!(items.done_items.len(), 3);
    assert_eq!(items.done_items[0].title, "one");
    assert_eq!(items.done_items[0].completed_at, Some(5000));
}

#[test]
fn reopening_a_done_item_clears_its_stamp_and_appends_it_to_todo() {
    let mut items = sample();
    items.toggle_section();
    items.toggle_selected_item_completeness_at(5000);
    assert_eq!(items.done_items.len(), 1);
    assert_eq!(items.todo_items.len(), 3);
    assert_eq!(items.todo_items[2].title, "two");
    assert_eq!(items.todo_items[2].completed_at, None);
}

#[test]
fn toggling_working_flips_only_the_highlighted_open_item() {
    let mut items = sample();
    items.toggle_selected_item_working();
    assert!(items.todo_items[0].working);
    assert!(!items.todo_items[1].working);
    items.toggle_selected_item_working();
    assert!(!items.todo_items[0].working);
    items.toggle_section();
    items.toggle_selected_item_working();
    assert!(!items.todo_items[0].working);
}

#[test]
fn calculate_age_clamps_a_backwards_clock_to_zero() {
    let it = item("x", None);
    assert_eq!(it.calculate_age_at(4000), 3000);
    assert_eq!(it.calculate_age_at(500), 0);
}
