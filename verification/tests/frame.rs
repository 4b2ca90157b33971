use todo_tui::controller::{Key, TodoList};
use todo_tui::render::{checkbox_marker, render_frame};
use todo_tui::todo::{Todo, TodoData};
use todo_tui::workspace::get_db_filename_from_workspace_name;

#[test]
fn checkbox_markers() {
    assert_eq!(checkbox_marker(true), "[x] ");
    assert_eq!(checkbox_marker(false), "[ ] ");
}

#[test]
fn frame_mirrors_items_and_highlights_selection() {
    let todos = vec![Todo::new("first".to_string()), Todo::new("second".to_string())];
    let mut list = TodoList::new(TodoData { todos });
    list.select_first();
    list.handle_key(Key::Char('t'));
    list.handle_key(Key::Down);

    let frame = render_frame(&list.items);
    assert_eq!(frame.len(), 2);
    assert_eq!(frame[0].title, "first");
    assert!(frame[0].checked);
    assert!(!frame[0].highlighted);
    assert_eq!(frame[1].title, "second");
    assert!(!frame[1].checked);
    assert!(frame[1].highlighted);
}

#[test]
fn frame_of_empty_list_is_empty() {
    let list = TodoList::new(TodoData { todos: vec![] });
    let frame = render_frame(&list.items);
    assert!(frame.is_empty());
}

#[test]
fn workspace_name_maps_to_db_filename() {
    assert_eq!(get_db_filename_from_workspace_name("work".to_string()), "db.work.json");
    assert_eq!(get_db_filename_from_workspace_name("".to_string()), "db..json");
}
