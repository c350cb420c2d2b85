use todo_api::todo::{Todo, TodoId, TodoStatus};
use todo_api::ui::{App, ActiveField, Filter, Key, Mode, UiAction};

fn todo(id: u128, title: &str, status: TodoStatus, at: u64) -> Todo {
    Todo {
        id: TodoId(id),
        title: title.to_string(),
        description: None,
        status,
        created_at: at,
        updated_at: at,
    }
}

fn app_with_pending_and_done() -> App {
    let mut app = App::new();
    app.load(vec![
        todo(2, "newer pending", TodoStatus::Pending, 200),
        todo(1, "older done", TodoStatus::Done, 100),
    ]);
    app
}

#[test]
fn filter_cycle_shows_pending_then_all_again() {
    let mut app = app_with_pending_and_done();
    assert_eq!(app.filter, Filter::All);
    assert_eq!(app.filtered_indices, vec![0, 1]);

    // one press: only the pending item is visible
    app.handle_key(Key::Char('f'));
    assert_eq!(app.filter, Filter::Pending);
    assert_eq!(app.filtered_indices, vec![0]);
    assert_eq!(app.items[app.filtered_indices[0]].status, TodoStatus::Pending);

    // two presses land on Done, not back on All: the cycle has period three
    app.handle_key(Key::Char('f'));
    assert_eq!(app.filter, Filter::Done);
    assert_eq!(app.filtered_indices, vec![1]);

    // the third press is back at All with both items visible
    app.handle_key(Key::Char('f'));
    assert_eq!(app.filter, Filter::All);
    assert_eq!(app.filtered_indices, vec![0, 1]);
}

#[test]
fn empty_filtered_view_clears_selection() {
    let mut app = App::new();
    app.load(vec![todo(1, "only done", TodoStatus::Done, 100)]);
    app.handle_key(Key::Char('f'));
    assert_eq!(app.filter, Filter::Pending);
    assert!(app.filtered_indices.is_empty());
    assert_eq!(app.selected, 0);
    // confirming or deleting with nothing selected does nothing
    assert!(matches!(app.handle_key(Key::Enter), UiAction::Continue));
    assert!(matches!(app.handle_key(Key::Char('d')), UiAction::Continue));
}

#[test]
fn cursor_moves_within_filtered_bounds() {
    let mut app = App::new();
    app.load(vec![
        todo(3, "c", TodoStatus::Pending, 300),
        todo(2, "b", TodoStatus::Pending, 200),
        todo(1, "a", TodoStatus::Pending, 100),
    ]);
    assert_eq!(app.selected, 0);
    app.handle_key(Key::Up);
    assert_eq!(app.selected, 0);
    app.handle_key(Key::Down);
    assert_eq!(app.selected, 1);
    app.handle_key(Key::Down);
    assert_eq!(app.selected, 2);
    app.handle_key(Key::Down);
    assert_eq!(app.selected, 2);
    app.handle_key(Key::Up);
    assert_eq!(app.selected, 1);
}

#[test]
fn confirm_toggles_the_selected_item() {
    let mut app = app_with_pending_and_done();
    let a = app.handle_key(Key::Enter);
    match a {
        UiAction::UpdateThenReload(id, input) => {
            assert_eq!(id, TodoId(2));
            assert_eq!(input.title, None);
            assert_eq!(input.description, None);
            assert_eq!(input.status, Some(TodoStatus::Done));
        },
        _ => panic!("expected an update action"),
    }
    // toggling the done item proposes pending
    app.handle_key(Key::Down);
    match app.handle_key(Key::Enter) {
        UiAction::UpdateThenReload(id, input) => {
            assert_eq!(id, TodoId(1));
            assert_eq!(input.status, Some(TodoStatus::Pending));
        },
        _ => panic!("expected an update action"),
    }
}

#[test]
fn delete_steps_cursor_back() {
    let mut app = app_with_pending_and_done();
    app.handle_key(Key::Down);
    assert_eq!(app.selected, 1);
    match app.handle_key(Key::Char('d')) {
        UiAction::DeleteThenReload(id) => assert_eq!(id, TodoId(1)),
        _ => panic!("expected a delete action"),
    }
    assert_eq!(app.selected, 0);
}

#[test]
fn create_draft_trims_and_requires_a_title() {
    let mut app = App::new();
    app.load(vec![]);
    app.handle_key(Key::Char('n'));
    assert_eq!(app.mode, Mode::Create);
    assert_eq!(app.field, ActiveField::Title);

    // an all-whitespace title saves nothing, but still reloads
    app.handle_key(Key::Char(' '));
    app.handle_key(Key::Char(' '));
    let a = app.handle_key(Key::Enter);
    assert!(matches!(a, UiAction::Reload));
    assert_eq!(app.mode, Mode::View);

    // a real title is trimmed; an all-whitespace description becomes absence
    app.handle_key(Key::Char('n'));
    for c in [' ', 'a', 'b', ' '] {
        app.handle_key(Key::Char(c));
    }
    app.handle_key(Key::Tab);
    assert_eq!(app.field, ActiveField::Description);
    app.handle_key(Key::Char(' '));
    match app.handle_key(Key::Enter) {
        UiAction::CreateThenReload(input) => {
            assert_eq!(input.title, "ab");
            assert_eq!(input.description, None);
        },
        _ => panic!("expected a create action"),
    }
}

#[test]
fn create_draft_keeps_inner_spaces_and_description() {
    let mut app = App::new();
    app.load(vec![]);
    app.handle_key(Key::Char('n'));
    for c in ['a', ' ', 'b'] {
        app.handle_key(Key::Char(c));
    }
    app.handle_key(Key::Tab);
    for c in [' ', 'd', 'x'] {
        app.handle_key(Key::Char(c));
    }
    // backspace erases in the focused field
    app.handle_key(Key::Backspace);
    match app.handle_key(Key::Enter) {
        UiAction::CreateThenReload(input) => {
            assert_eq!(input.title, "a b");
            assert_eq!(input.description.as_deref(), Some("d"));
        },
        _ => panic!("expected a create action"),
    }
}

#[test]
fn edit_draft_prefills_and_writes_empty_description() {
    let mut app = App::new();
    app.load(vec![Todo {
        id: TodoId(5),
        title: "old title".to_string(),
        description: Some("old desc".to_string()),
        status: TodoStatus::Pending,
        created_at: 10,
        updated_at: 10,
    }]);
    app.handle_key(Key::Char('e'));
    assert_eq!(app.mode, Mode::Edit);
    assert_eq!(app.draft_title, "old title".chars().collect::<Vec<char>>());
    assert_eq!(app.draft_desc, "old desc".chars().collect::<Vec<char>>());

    // erase the whole description: an empty description is written as an
    // explicit empty string, while an empty title is omitted
    app.handle_key(Key::Tab);
    for _ in 0.."old desc".len() {
        app.handle_key(Key::Backspace);
    }
    app.handle_key(Key::Tab);
    for _ in 0.."old title".len() {
        app.handle_key(Key::Backspace);
    }
    match app.handle_key(Key::Enter) {
        UiAction::UpdateThenReload(id, input) => {
            assert_eq!(id, TodoId(5));
            assert_eq!(input.title, None);
            assert_eq!(input.description.as_deref(), Some(""));
            assert_eq!(input.status, None);
        },
        _ => panic!("expected an update action"),
    }
    assert_eq!(app.mode, Mode::View);
}

#[test]
fn escape_discards_the_draft() {
    let mut app = App::new();
    app.load(vec![]);
    app.handle_key(Key::Char('n'));
    app.handle_key(Key::Char('x'));
    let a = app.handle_key(Key::Esc);
    assert!(matches!(a, UiAction::Continue));
    assert_eq!(app.mode, Mode::View);
    assert!(app.draft_title.is_empty());
}

#[test]
fn quit_only_from_view_mode() {
    let mut app = App::new();
    app.load(vec![]);
    assert!(matches!(app.handle_key(Key::Char('q')), UiAction::Quit));
    app.handle_key(Key::Char('n'));
    // while drafting, q is text
    assert!(matches!(app.handle_key(Key::Char('q')), UiAction::Continue));
    assert_eq!(app.draft_title, vec!['q']);
}

#[test]
fn reload_clamps_the_cursor() {
    let mut app = App::new();
    app.load(vec![
        todo(2, "b", TodoStatus::Pending, 200),
        todo(1, "a", TodoStatus::Pending, 100),
    ]);
    app.handle_key(Key::Down);
    assert_eq!(app.selected, 1);
    app.load(vec![todo(2, "b", TodoStatus::Pending, 200)]);
    assert_eq!(app.selected, 0);
    app.load(vec![]);
    assert_eq!(app.selected, 0);
    assert!(app.filtered_indices.is_empty());
}
