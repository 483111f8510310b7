use rtasks::{list_entry, pad_to, render, trim_text, App, Key, Style, Task};

#[test]
fn empty_list_shows_placeholder_and_bars() {
    let app = App::new();
    let lines = render(&app, 40, 10);
    assert_eq!(lines.len(), 3);
    assert_eq!(lines[0].row, 0);
    assert_eq!(lines[0].style, Style::Banner);
    assert_eq!(lines[0].text, " RTasks - Terminal Task Manager         ");
    assert_eq!(lines[1].row, 2);
    assert_eq!(lines[1].style, Style::Hint);
    assert_eq!(lines[1].text, "No tasks yet. Press 'A' to add your first task!");
    assert_eq!(lines[2].row, 9);
    assert_eq!(lines[2].style, Style::Footer);
    assert!(lines[2].text.starts_with(" Controls:"));
}

#[test]
fn task_lines_show_glyph_id_title_and_description() {
    let mut app = App::new();
    app.add_task("Buy milk".to_string(), String::new());
    app.add_task("Call Bob".to_string(), "urgent".to_string());
    app.selected_index = 1;
    app.tasks[0].completed = true;
    let lines = render(&app, 20, 10);
    assert_eq!(lines.len(), 4);
    assert_eq!(lines[1].row, 2);
    assert_eq!(lines[1].text, "[X] 1 Buy milk");
    assert_eq!(lines[1].note, "");
    assert_eq!(lines[1].style, Style::Done);
    assert_eq!(lines[2].row, 3);
    assert_eq!(lines[2].text, "[ ] 2 Call Bob");
    assert_eq!(lines[2].note, " - urgent");
    assert_eq!(lines[2].style, Style::Selected);
}

#[test]
fn open_unselected_task_is_plain() {
    let mut app = App::new();
    app.add_task("a".to_string(), String::new());
    app.add_task("b".to_string(), String::new());
    let lines = render(&app, 10, 10);
    assert_eq!(lines[1].style, Style::Selected);
    assert_eq!(lines[2].style, Style::Pending);
}

#[test]
fn list_is_cut_at_the_bottom() {
    let mut app = App::new();
    for t in ["a", "b", "c", "d", "e", "f"] {
        app.add_task(t.to_string(), String::new());
    }
    let lines = render(&app, 10, 6);
    // rows 2 and 3 hold tasks, row 4 stays empty, row 5 is the footer
    assert_eq!(lines.len(), 4);
    assert_eq!(lines[2].row, 3);
    assert_eq!(lines[3].row, 5);
}

#[test]
fn text_mode_shows_prompt_and_echo() {
    let mut app = App::new();
    app.add_task("a".to_string(), String::new());
    app.handle_key(Key::Char('a'));
    app.handle_key(Key::Char('h'));
    app.handle_key(Key::Char('i'));
    let lines = render(&app, 10, 12);
    assert_eq!(lines.len(), 5);
    assert_eq!(lines[1].row, 2);
    assert_eq!(lines[1].style, Style::Prompt);
    assert_eq!(
        lines[1].text,
        "Adding new task. Type title and press Enter (Esc to cancel):"
    );
    assert_eq!(lines[2].row, 3);
    assert_eq!(lines[2].style, Style::Echo);
    assert_eq!(lines[2].text, "> hi");
    assert_eq!(lines[3].row, 5);
    assert_eq!(lines[3].style, Style::Pending);
    assert_eq!(lines[4].text, " Press Enter to confirm | Esc to cancel");
}

#[test]
fn tiny_terminal_has_no_footer_row() {
    let app = App::new();
    let lines = render(&app, 0, 0);
    assert_eq!(lines.len(), 2);
    assert_eq!(lines[0].text, " RTasks - Terminal Task Manager");
}

#[test]
fn list_entry_formats() {
    let mut t = Task::new(42, "Call Bob".to_string(), "urgent".to_string());
    assert_eq!(list_entry(&t), "\u{2b1c} [42] Call Bob - urgent");
    t.completed = true;
    t.description = String::new();
    assert_eq!(list_entry(&t), "\u{2705} [42] Call Bob");
}

#[test]
fn trim_and_pad() {
    assert_eq!(trim_text(" \t a b \n"), "a b");
    assert_eq!(trim_text("   "), "");
    assert_eq!(trim_text("\u{3000}x\u{a0}"), "x");
    assert_eq!(pad_to("ab", 5), "ab   ");
    assert_eq!(pad_to("abcdef", 3), "abcdef");
    assert_eq!(pad_to("\u{e9}", 3), "\u{e9}  ");
}
