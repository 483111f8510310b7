use rtasks::{App, Key, Mode, Outcome};

fn type_text(app: &mut App, s: &str) {
    for c in s.chars() {
        assert_eq!(app.handle_key(Key::Char(c)), Outcome::Continue);
    }
}

fn app_with(titles: &[&str]) -> App {
    let mut app = App::new();
    for t in titles {
        app.add_task(t.to_string(), String::new());
    }
    app
}

#[test]
fn add_through_keys_commits_trimmed_title() {
    let mut app = App::new();
    assert_eq!(app.handle_key(Key::Char('a')), Outcome::Continue);
    assert_eq!(app.mode, Mode::AddTitle);
    type_text(&mut app, "  Buy milk ");
    assert_eq!(app.input_buffer, "  Buy milk ");
    assert_eq!(app.handle_key(Key::Enter), Outcome::Persist);
    assert_eq!(app.mode, Mode::Normal);
    assert_eq!(app.input_buffer, "");
    assert_eq!(app.tasks.len(), 1);
    assert_eq!(app.tasks[0].title, "Buy milk");
    assert_eq!(app.tasks[0].description, "");
    assert_eq!(app.tasks[0].id, 1);
}

#[test]
fn blank_title_enter_adds_nothing() {
    let mut app = App::new();
    app.handle_key(Key::Char('A'));
    type_text(&mut app, "  ");
    assert_eq!(app.handle_key(Key::Enter), Outcome::Continue);
    assert_eq!(app.mode, Mode::Normal);
    assert_eq!(app.input_buffer, "");
    assert!(app.tasks.is_empty());
    assert_eq!(app.next_id, 1);
}

#[test]
fn escape_resets_every_text_mode() {
    for start in ['a', 'e', 'd'] {
        let mut app = app_with(&["first"]);
        app.handle_key(Key::Char(start));
        assert_ne!(app.mode, Mode::Normal);
        type_text(&mut app, "xyz");
        assert_eq!(app.handle_key(Key::Esc), Outcome::Continue);
        assert_eq!(app.mode, Mode::Normal);
        assert_eq!(app.input_buffer, "");
        assert_eq!(app.tasks.len(), 1);
        assert_eq!(app.tasks[0].title, "first");
        assert_eq!(app.tasks[0].description, "");
    }
}

#[test]
fn edit_title_starts_from_current_title() {
    let mut app = app_with(&["old"]);
    app.handle_key(Key::Char('e'));
    assert_eq!(app.mode, Mode::EditTitle);
    assert_eq!(app.input_buffer, "old");
    app.handle_key(Key::Backspace);
    app.handle_key(Key::Backspace);
    app.handle_key(Key::Backspace);
    app.handle_key(Key::Backspace);
    assert_eq!(app.input_buffer, "");
    type_text(&mut app, "new ");
    assert_eq!(app.handle_key(Key::Enter), Outcome::Persist);
    assert_eq!(app.tasks[0].title, "new");
    assert_eq!(app.mode, Mode::Normal);
}

#[test]
fn edit_description_commits_trimmed_text() {
    let mut app = app_with(&["t"]);
    app.handle_key(Key::Char('D'));
    assert_eq!(app.mode, Mode::EditDescription);
    assert_eq!(app.input_buffer, "");
    type_text(&mut app, "\tdetails\t");
    assert_eq!(app.handle_key(Key::Enter), Outcome::Persist);
    assert_eq!(app.tasks[0].description, "details");
}

#[test]
fn edit_keys_ignored_on_empty_list() {
    let mut app = App::new();
    assert_eq!(app.handle_key(Key::Char('e')), Outcome::Continue);
    assert_eq!(app.mode, Mode::Normal);
    assert_eq!(app.handle_key(Key::Char('d')), Outcome::Continue);
    assert_eq!(app.mode, Mode::Normal);
}

#[test]
fn quit_keys() {
    let mut app = App::new();
    assert_eq!(app.handle_key(Key::Char('q')), Outcome::Quit);
    assert_eq!(app.handle_key(Key::Char('Q')), Outcome::Quit);
    app.handle_key(Key::Char('a'));
    assert_eq!(app.handle_key(Key::Char('q')), Outcome::Continue);
    assert_eq!(app.input_buffer, "q");
    assert_eq!(app.handle_key(Key::Ctrl('x')), Outcome::Continue);
    assert_eq!(app.input_buffer, "q");
    assert_eq!(app.handle_key(Key::Ctrl('c')), Outcome::Quit);
}

#[test]
fn command_keys_change_list() {
    let mut app = app_with(&["a", "b", "c"]);
    assert_eq!(app.handle_key(Key::Down), Outcome::Continue);
    assert_eq!(app.handle_key(Key::Down), Outcome::Continue);
    assert_eq!(app.selected_index, 2);
    assert_eq!(app.handle_key(Key::Char(' ')), Outcome::Persist);
    assert!(app.tasks[2].completed);
    assert_eq!(app.handle_key(Key::Delete), Outcome::Persist);
    assert_eq!(app.tasks.len(), 2);
    assert_eq!(app.selected_index, 1);
    assert_eq!(app.handle_key(Key::Up), Outcome::Continue);
    assert_eq!(app.selected_index, 0);
    assert_eq!(app.handle_key(Key::Other), Outcome::Continue);
    assert_eq!(app.handle_key(Key::Char('z')), Outcome::Continue);
    assert_eq!(app.tasks.len(), 2);
}

#[test]
fn delete_and_toggle_on_empty_list_persist_nothing() {
    let mut app = App::new();
    assert_eq!(app.handle_key(Key::Delete), Outcome::Continue);
    assert_eq!(app.handle_key(Key::Char(' ')), Outcome::Continue);
}

#[test]
fn backspace_on_empty_buffer_is_harmless() {
    let mut app = App::new();
    app.handle_key(Key::Char('a'));
    assert_eq!(app.handle_key(Key::Backspace), Outcome::Continue);
    assert_eq!(app.input_buffer, "");
    assert_eq!(app.mode, Mode::AddTitle);
}
