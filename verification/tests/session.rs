use todo_tui::controller::{Action, Key, TodoList};
use todo_tui::todo::{Todo, TodoData};

fn session(titles: &[&str]) -> TodoList {
    let todos: Vec<Todo> = titles.iter().map(|t| Todo::new(t.to_string())).collect();
    let mut list = TodoList::new(TodoData { todos });
    list.select_first();
    list
}

#[test]
fn new_wraps_loaded_collection_unselected() {
    let data = TodoData { todos: vec![Todo::new("a".to_string())] };
    let list = TodoList::new(data);
    assert_eq!(list.items.items.len(), 1);
    assert_eq!(list.items.selected, None);
}

#[test]
fn select_first_points_at_index_zero() {
    let list = session(&["a", "b"]);
    assert_eq!(list.items.selected, Some(0));
}

#[test]
fn select_first_on_empty_collection_leaves_cursor_unset() {
    let list = session(&[]);
    assert_eq!(list.items.selected, None);
}

#[test]
fn toggle_twice_restores_the_flag() {
    let mut t = Todo::new("x".to_string());
    assert!(!t.done);
    t.toggle();
    assert!(t.done);
    t.toggle();
    assert!(!t.done);
    assert_eq!(t.title, "x");
}

#[test]
fn toggle_key_flips_only_the_selected_entry() {
    let mut list = session(&["a", "b"]);
    let a = list.handle_key(Key::Char('t'));
    assert!(matches!(a, Action::Continue));
    assert!(list.items.items[0].done);
    assert!(!list.items.items[1].done);
}

#[test]
fn up_and_down_move_the_cursor() {
    let mut list = session(&["a", "b", "c"]);
    list.handle_key(Key::Down);
    assert_eq!(list.items.selected, Some(1));
    list.handle_key(Key::Up);
    assert_eq!(list.items.selected, Some(0));
    list.handle_key(Key::Up);
    assert_eq!(list.items.selected, Some(2));
}

#[test]
fn delete_key_removes_the_selected_entry() {
    let mut list = session(&["a", "b", "c"]);
    list.handle_key(Key::Down);
    list.handle_key(Key::Char('d'));
    assert_eq!(list.items.items.len(), 2);
    assert_eq!(list.items.items[0].title, "a");
    assert_eq!(list.items.items[1].title, "c");
    assert_eq!(list.items.selected, Some(1));
}

#[test]
fn quit_key_reports_quit_and_changes_nothing() {
    let mut list = session(&["a"]);
    let a = list.handle_key(Key::Char('q'));
    assert!(matches!(a, Action::Quit));
    assert_eq!(list.items.items.len(), 1);
    assert_eq!(list.items.selected, Some(0));
}

#[test]
fn unrecognized_keys_are_ignored() {
    let mut list = session(&["a", "b"]);
    for k in [Key::Char('x'), Key::Char('Q'), Key::Other] {
        let a = list.handle_key(k);
        assert!(matches!(a, Action::Continue));
    }
    assert_eq!(list.items.selected, Some(0));
    assert_eq!(list.items.items.len(), 2);
    assert!(!list.items.items[0].done);
}

#[test]
fn buy_milk_session_saves_toggled_item() {
    // Load [{"Buy milk", false}], receive [toggle, down, quit]: the down
    // wraps on the single item, and the saved output is [{"Buy milk", true}].
    let mut list = session(&["Buy milk"]);
    let quit = list.handle_keys(&vec![Key::Char('t'), Key::Down, Key::Char('q')]);
    assert!(quit);
    let saved = TodoData { todos: list.items.items };
    assert_eq!(saved.todos.len(), 1);
    assert_eq!(saved.todos[0].title, "Buy milk");
    assert!(saved.todos[0].done);
}

#[test]
fn empty_session_ignores_everything_and_saves_empty() {
    let mut list = session(&[]);
    let quit = list.handle_keys(&vec![
        Key::Up,
        Key::Down,
        Key::Char('t'),
        Key::Char('d'),
        Key::Char('q'),
    ]);
    assert!(quit);
    assert_eq!(list.items.selected, None);
    let saved = TodoData { todos: list.items.items };
    assert!(saved.todos.is_empty());
}

#[test]
fn key_batch_stops_at_quit() {
    let mut list = session(&["a", "b"]);
    let quit = list.handle_keys(&vec![Key::Down, Key::Char('q'), Key::Char('d')]);
    assert!(quit);
    // the delete after quit was never dispatched
    assert_eq!(list.items.items.len(), 2);
    assert_eq!(list.items.selected, Some(1));
}

#[test]
fn key_batch_without_quit_reports_no_quit() {
    let mut list = session(&["a", "b"]);
    let quit = list.handle_keys(&vec![Key::Down, Key::Down]);
    assert!(!quit);
    assert_eq!(list.items.selected, Some(0));
}
