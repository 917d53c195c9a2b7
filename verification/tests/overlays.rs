use todo_tui::application::Application;
use todo_tui::confirm::{Confirm, ConfirmAction};
use todo_tui::input::{InputBox, InputMode, InputResult};
use todo_tui::key::{Key, MediaKey, ModifierKey};
use todo_tui::layout::Rect;
use todo_tui::popup::{
    color_based_on_popup_kind, help_popup, lines_based_on_popup, Popup, PopupCloseBehavior,
    PopupKind,
};
use todo_tui::state::{ApplicationState, SelectState};
use todo_tui::style::{Color, Padding};
use todo_tui::todo::Todo;
use todo_tui::ui::{Route, UIState};

fn app_with(titles: &[&str]) -> Application {
    let mut app = Application::new();
    for title in titles {
        app.state.append_todo(title);
    }
    app.state.select_state.fit(app.state.todos.len());
    app
}

fn type_text(app: &mut Application, text: &str) {
    for c in text.chars() {
        app.handle_key(Key::Char(c), false);
    }
}

fn buffer_of(input: &InputBox) -> String {
    input.text()
}

#[test]
fn confirm_toggle_follows_the_parity_of_presses() {
    let keys = [Key::Left, Key::Right, Key::Char('h'), Key::Char('l')];
    let mut confirm = Confirm::new();
    assert!(!confirm.selected);
    for n in 1..=12usize {
        assert_eq!(confirm.handle_key(keys[n % 4]), None);
        assert_eq!(confirm.selected, n % 2 == 1);
    }
}

#[test]
fn confirm_answers_on_enter_and_esc() {
    let mut confirm = Confirm::new().with_message("Sure?");
    assert_eq!(confirm.message, "Sure?");
    assert_eq!(confirm.handle_key(Key::Enter), Some(false));
    assert_eq!(confirm.handle_key(Key::Right), None);
    assert_eq!(confirm.handle_key(Key::Enter), Some(true));
    assert_eq!(confirm.handle_key(Key::Esc), Some(false));
    assert!(confirm.selected);
    assert_eq!(confirm.handle_key(Key::Char('x')), None);
    assert_eq!(confirm.handle_key(Key::Up), None);
    assert!(confirm.selected);
}

#[test]
fn confirm_carries_its_action() {
    let confirm = Confirm::new().action(ConfirmAction::Rename("x".to_string()));
    assert!(matches!(confirm.action, Some(ConfirmAction::Rename(ref t)) if t == "x"));
    assert!(Confirm::new().action.is_none());
}

#[test]
fn confirm_labels_bracket_the_highlighted_option() {
    let mut confirm = Confirm::new();
    assert_eq!(confirm.button_labels(), ("Yes".to_string(), "[ Cancel ]".to_string()));
    confirm.handle_key(Key::Left);
    assert_eq!(confirm.button_labels(), ("[ Yes ]".to_string(), "Cancel".to_string()));
}

#[test]
fn confirm_takes_the_key_before_popup_and_input() {
    let mut app = app_with(&["one"]);
    app.ui.show_input(InputBox::edit("abc"));
    app.ui.show_popup(Popup::new("note").close_on_any_key());
    app.ui.show_confirm(Confirm::new());
    assert_eq!(app.ui.active(), Route::Confirm);

    app.handle_key(Key::Char('l'), false);
    assert!(app.ui.confirm.as_ref().unwrap().selected);
    assert!(app.ui.popup.is_some());
    assert_eq!(buffer_of(app.ui.inputbox.as_ref().unwrap()), "abc");
    assert!(app.running);

    app.handle_key(Key::Char('q'), false);
    assert!(app.ui.confirm.is_some() && app.ui.popup.is_some() && app.running);

    app.handle_key(Key::Esc, false);
    assert!(app.ui.confirm.is_none());
    assert_eq!(app.ui.active(), Route::Popup);
    app.handle_key(Key::Char('z'), false);
    assert!(app.ui.popup.is_none());
    assert_eq!(app.ui.active(), Route::Input);
    app.handle_key(Key::Char('z'), false);
    assert_eq!(buffer_of(app.ui.inputbox.as_ref().unwrap()), "abcz");
    app.handle_key(Key::Esc, false);
    assert_eq!(app.ui.active(), Route::Base);
    assert!(app.running);
}

#[test]
fn popup_closes_on_its_key_only() {
    let mut app = Application::new();
    app.handle_key(Key::Char('?'), false);
    let popup = app.ui.popup.as_ref().unwrap();
    assert_eq!(popup.close_behavior, PopupCloseBehavior::Specific(Key::Char('?')));
    app.handle_key(Key::Char('x'), false);
    assert!(app.ui.popup.is_some());
    app.handle_key(Key::Char('q'), false);
    assert!(app.ui.popup.is_some() && app.running);
    app.handle_key(Key::Char('?'), false);
    assert!(app.ui.popup.is_none());
}

#[test]
fn popup_close_behaviors() {
    let any = Popup::new("m").close_on_any_key();
    assert!(any.is_closed_by(Key::Char('x')) && any.is_closed_by(Key::F(3)));
    let default = Popup::new("m");
    assert!(default.is_closed_by(Key::Esc) && !default.is_closed_by(Key::Enter));
    let mut never = Popup::new("m");
    never.close_behavior = PopupCloseBehavior::Never;
    assert!(!never.is_closed_by(Key::Esc) && !never.is_closed_by(Key::Char('x')));

    let mut app = Application::new();
    app.ui.show_popup(never);
    app.handle_key(Key::Esc, false);
    assert!(app.ui.popup.is_some() && app.running);
    app.ui.close_popup();
    assert!(app.ui.popup.is_none());
    app.ui.close_popup();
    assert!(app.ui.popup.is_none());
}

#[test]
fn popup_builders_set_their_fields() {
    let popup = Popup::new("text");
    assert_eq!(popup.kind, PopupKind::Info);
    assert_eq!(popup.message, "text");
    assert_eq!(popup.title, None);
    assert_eq!(popup.styles.border_color, Color::Rgb(172, 161, 207));
    assert_eq!(popup.styles.padding, Padding::new(2, 2, 1, 1));
    assert_eq!(popup.styles.max_width, None);
    assert!(popup.styles.show_title);

    let popup = popup
        .kind(PopupKind::Error)
        .title("Oops")
        .with_max_width(30)
        .with_padding(Padding::uniform(3))
        .close_on(Key::Enter);
    assert_eq!(popup.kind, PopupKind::Error);
    assert_eq!(popup.styles.border_color, Color::Rgb(245, 161, 145));
    assert_eq!(popup.title.as_deref(), Some("Oops"));
    assert_eq!(popup.styles.max_width, Some(30));
    assert_eq!(popup.styles.padding, Padding { left: 3, right: 3, top: 3, bottom: 3 });
    assert_eq!(popup.close_behavior, PopupCloseBehavior::Specific(Key::Enter));
    let popup = popup.with_border_color(Color::Rgb(1, 2, 3)).no_title();
    assert_eq!(popup.styles.border_color, Color::Rgb(1, 2, 3));
    assert_eq!(Popup::new("m").with_border_color(Color::LightBlue).styles.border_color, Color::LightBlue);
    assert!(!popup.styles.show_title);
}

#[test]
fn popup_kinds_have_their_colours() {
    assert_eq!(color_based_on_popup_kind(PopupKind::Error), Color::Rgb(245, 161, 145));
    assert_eq!(color_based_on_popup_kind(PopupKind::Success), Color::Rgb(144, 185, 159));
    assert_eq!(color_based_on_popup_kind(PopupKind::Help), Color::Rgb(226, 158, 202));
    assert_eq!(color_based_on_popup_kind(PopupKind::Info), Color::Rgb(172, 161, 207));
}

#[test]
fn popup_lines_name_title_and_key() {
    let lines = lines_based_on_popup(&help_popup(), "?");
    assert_eq!(lines.top.as_deref(), Some(" Controls "));
    assert_eq!(lines.prefix, " Press ");
    assert_eq!(lines.key, "<?>");
    assert_eq!(lines.suffix, " to close this popup. ");

    let lines = lines_based_on_popup(&Popup::new("m").kind(PopupKind::Success).close_on_any_key(), "");
    assert_eq!(lines.top.as_deref(), Some(" Success "));
    assert_eq!(lines.key, "any key");
    for (kind, title) in [
        (PopupKind::Help, " Help "),
        (PopupKind::Error, " Error "),
        (PopupKind::Info, " Info "),
    ] {
        assert_eq!(lines_based_on_popup(&Popup::new("m").kind(kind), "Esc").top.as_deref(), Some(title));
    }
    let mut never = Popup::new("m").no_title();
    never.close_behavior = PopupCloseBehavior::Never;
    let lines = lines_based_on_popup(&never, "Esc");
    assert_eq!(lines.top, None);
    assert_eq!(lines.key, "");
}

#[test]
fn help_popup_lists_the_commands() {
    let popup = help_popup();
    assert_eq!(popup.kind, PopupKind::Help);
    assert_eq!(popup.title.as_deref(), Some("Controls"));
    let lines: Vec<&str> = popup.message.lines().collect();
    assert_eq!(lines.len(), 8);
    assert_eq!(lines[0], " a -> append a todo");
    assert_eq!(lines[3], " Enter -> mark as completed");
    assert_eq!(lines[7], " ? -> toggle help");
}

#[test]
fn popup_content_is_wrapped_to_the_box() {
    let popup = Popup::new("a b c");
    assert_eq!(popup.content_lines(Rect::new(0, 0, 8, 5)), vec!["a b".to_string(), "c".to_string()]);
    assert_eq!(popup.content_lines(Rect::new(0, 0, 2, 5)), todo_tui::text::wrap_text("a b c", 0));
}

#[test]
fn input_edit_then_backspace_twice() {
    let mut app = app_with(&["Task 1", "Task 2", "Task 3"]);
    app.state.select_state.select(Some(1));
    app.handle_key(Key::Char('r'), false);
    {
        let input = app.ui.inputbox.as_ref().unwrap();
        assert_eq!(input.mode, InputMode::Edit);
        assert_eq!(buffer_of(input), "Task 2");
        assert_eq!(input.cursor, 6);
    }
    app.handle_key(Key::Backspace, false);
    {
        let input = app.ui.inputbox.as_ref().unwrap();
        assert_eq!(buffer_of(input), "Task ");
        assert_eq!(input.cursor, 5);
    }
    app.handle_key(Key::Backspace, false);
    let input = app.ui.inputbox.as_ref().unwrap();
    assert_eq!(buffer_of(input), "Task");
    assert_eq!(input.cursor, 4);
}

#[test]
fn input_edits_at_the_cursor() {
    let mut input = InputBox::edit("abc");
    assert!(matches!(input.handle_key(Key::Left), InputResult::Continue));
    assert!(matches!(input.handle_key(Key::Left), InputResult::Continue));
    assert_eq!(input.cursor, 1);
    input.handle_key(Key::Char('X'));
    assert_eq!((buffer_of(&input).as_str(), input.cursor), ("aXbc", 2));
    input.handle_key(Key::Delete);
    assert_eq!((buffer_of(&input).as_str(), input.cursor), ("aXc", 2));
    input.handle_key(Key::Backspace);
    assert_eq!((buffer_of(&input).as_str(), input.cursor), ("ac", 1));
    input.handle_key(Key::Right);
    input.handle_key(Key::Right);
    input.handle_key(Key::Right);
    assert_eq!(input.cursor, 2);
    input.handle_key(Key::Delete);
    assert_eq!((buffer_of(&input).as_str(), input.cursor), ("ac", 2));
    for _ in 0..5 {
        input.handle_key(Key::Left);
    }
    assert_eq!(input.cursor, 0);
    input.handle_key(Key::Backspace);
    assert_eq!((buffer_of(&input).as_str(), input.cursor), ("ac", 0));
    input.handle_key(Key::Tab);
    input.handle_key(Key::Up);
    assert_eq!((buffer_of(&input).as_str(), input.cursor), ("ac", 0));
}

#[test]
fn input_stops_at_its_limit() {
    let mut input = InputBox::insert().with_max_chars(3);
    for c in "abcdef".chars() {
        input.handle_key(Key::Char(c));
    }
    assert_eq!((buffer_of(&input).as_str(), input.cursor), ("abc", 3));
    let mut input = InputBox::insert();
    assert_eq!(input.styles.max_chars, 46);
    for _ in 0..60 {
        input.handle_key(Key::Char('x'));
    }
    assert_eq!(input.buffer.len(), 46);
}

#[test]
fn input_submits_and_cancels() {
    let mut input = InputBox::insert();
    assert_eq!(input.mode, InputMode::Insert);
    assert!(matches!(input.handle_key(Key::Enter), InputResult::Continue));
    input.handle_key(Key::Char('h'));
    input.handle_key(Key::Char('i'));
    match input.handle_key(Key::Enter) {
        InputResult::Submit(text) => assert_eq!(text, "hi"),
        other => panic!("{:?}", other),
    }
    assert_eq!(buffer_of(&input), "hi");
    assert!(matches!(input.handle_key(Key::Esc), InputResult::Cancel));
    assert_eq!(buffer_of(&input), "hi");
}

#[test]
fn input_titles_and_cursor_position() {
    assert_eq!(InputBox::insert().title_text().as_deref(), Some(" Append a todo "));
    assert_eq!(InputBox::edit("x").title_text().as_deref(), Some(" Rename a todo "));
    assert_eq!(InputBox::edit("x").title("Name").title_text().as_deref(), Some(" Name "));
    assert_eq!(InputBox::edit("x").title("Name").no_title().title_text(), None);
    let input = InputBox::edit("hello").with_padding(Padding::new(2, 1, 0, 0));
    assert_eq!(input.cursor_position(Rect::new(15, 11, 50, 3)), (15 + 5 + 3, 12));
    assert_eq!(input.cursor_position(Rect::new(65534, 65535, 1, 0)), (65535, 65535));
    let input = InputBox::insert().with_fg_color(Color::Rgb(9, 8, 7));
    assert_eq!(input.styles.fg_color, Color::Rgb(9, 8, 7));
    assert_eq!(InputBox::insert().styles.fg_color, Color::Rgb(245, 161, 145));
    assert_eq!(InputBox::edit("").styles.fg_color, Color::Rgb(234, 141, 165));
}

#[test]
fn delete_confirmed_removes_the_selected_item() {
    let mut app = app_with(&["one", "two", "three"]);
    app.state.select_state.select(Some(1));
    app.handle_key(Key::Char('d'), false);
    {
        let confirm = app.ui.confirm.as_ref().unwrap();
        assert!(matches!(confirm.action, Some(ConfirmAction::Remove)));
        assert_eq!(confirm.message, "Remove this todo?");
        assert!(!confirm.selected);
    }
    app.handle_key(Key::Right, false);
    assert_eq!(app.state.todos.len(), 3);
    app.handle_key(Key::Enter, false);
    assert!(app.ui.confirm.is_none());
    assert_eq!(app.state.todos.len(), 2);
    assert_eq!(app.state.todos[0].title, "one");
    assert_eq!(app.state.todos[1].title, "three");
}

#[test]
fn delete_declined_removes_nothing() {
    let mut app = app_with(&["one", "two", "three"]);
    app.handle_key(Key::Char('d'), false);
    app.handle_key(Key::Enter, false);
    assert!(app.ui.confirm.is_none());
    assert_eq!(app.state.todos.len(), 3);
    app.handle_key(Key::Char('d'), false);
    app.handle_key(Key::Right, false);
    app.handle_key(Key::Esc, false);
    assert!(app.ui.confirm.is_none());
    assert_eq!(app.state.todos.len(), 3);
    assert!(app.running);
}

#[test]
fn append_on_an_empty_list_makes_one_open_item() {
    let mut state = ApplicationState::new();
    state.append_todo("New task");
    assert_eq!(state.todos.len(), 1);
    assert_eq!(state.todos[0].title, "New task");
    assert!(!state.todos[0].done);
    assert_eq!(state.select_state.selected(), Some(1));
}

#[test]
fn append_through_input_and_confirm() {
    let mut app = Application::new();
    app.handle_key(Key::Char('a'), false);
    assert_eq!(app.ui.active(), Route::Input);
    type_text(&mut app, "New task");
    app.handle_key(Key::Enter, false);
    assert!(app.ui.inputbox.is_none());
    {
        let confirm = app.ui.confirm.as_ref().unwrap();
        assert_eq!(confirm.message, "Append this todo?");
        assert!(matches!(confirm.action, Some(ConfirmAction::Append(ref t)) if t == "New task"));
    }
    assert!(app.state.todos.is_empty());
    app.handle_key(Key::Char('h'), false);
    app.handle_key(Key::Enter, false);
    assert_eq!(app.ui.active(), Route::Base);
    assert_eq!(app.state.todos.len(), 1);
    assert_eq!(app.state.todos[0].title, "New task");
    assert!(!app.state.todos[0].done);
}

#[test]
fn rename_through_input_and_confirm() {
    let mut app = app_with(&["one", "two"]);
    app.state.select_state.select(Some(0));
    app.handle_key(Key::Char('r'), false);
    type_text(&mut app, "!");
    app.handle_key(Key::Enter, false);
    {
        let confirm = app.ui.confirm.as_ref().unwrap();
        assert_eq!(confirm.message, "Rename this todo?");
        assert!(matches!(confirm.action, Some(ConfirmAction::Rename(ref t)) if t == "one!"));
    }
    app.handle_key(Key::Left, false);
    app.handle_key(Key::Enter, false);
    assert_eq!(app.state.todos[0].title, "one!");
    assert_eq!(app.state.todos[1].title, "two");
}

#[test]
fn empty_input_is_not_submitted() {
    let mut app = Application::new();
    app.handle_key(Key::Char('a'), false);
    app.handle_key(Key::Enter, false);
    assert!(app.ui.inputbox.is_some() && app.ui.confirm.is_none());
    app.handle_key(Key::Esc, false);
    assert!(app.ui.inputbox.is_none() && app.running);
}

#[test]
fn commands_without_a_selected_item_do_nothing() {
    let mut app = Application::new();
    app.handle_key(Key::Char('r'), false);
    assert_eq!(app.ui.active(), Route::Base);
    app.handle_key(Key::Enter, false);
    app.handle_key(Key::Char('d'), false);
    app.handle_key(Key::Char('l'), false);
    app.handle_key(Key::Enter, false);
    assert!(app.state.todos.is_empty());

    let mut app = app_with(&["only"]);
    app.handle_key(Key::Char('d'), false);
    app.handle_key(Key::Right, false);
    app.handle_key(Key::Enter, false);
    assert!(app.state.todos.is_empty());
    app.handle_key(Key::Enter, false);
    app.handle_key(Key::Char('r'), false);
    app.state.rename_todo("x");
    app.state.remove_todo();
    assert!(app.state.get_current_todo().is_none());
    assert!(app.state.todos.is_empty() && app.ui.inputbox.is_none());
}

#[test]
fn list_keys_move_toggle_and_quit() {
    let mut app = app_with(&["one", "two"]);
    assert_eq!(app.state.select_state.selected(), Some(1));
    app.handle_key(Key::Char('k'), false);
    assert_eq!(app.state.select_state.selected(), Some(0));
    app.handle_key(Key::Up, false);
    assert_eq!(app.state.select_state.selected(), Some(0));
    app.handle_key(Key::Enter, false);
    assert!(app.state.todos[0].done && !app.state.todos[1].done);
    app.handle_key(Key::Char('j'), false);
    app.handle_key(Key::Down, false);
    assert_eq!(app.state.select_state.selected(), Some(2));
    app.handle_key(Key::Enter, false);
    assert!(app.state.todos[0].done && !app.state.todos[1].done);
    app.handle_key(Key::Char('x'), false);
    app.handle_key(Key::Char('c'), false);
    assert!(app.running);
    app.handle_key(Key::Char('q'), false);
    assert!(!app.running);
    let mut app = Application::new();
    app.handle_key(Key::Esc, false);
    assert!(!app.running);
}

#[test]
fn termination_chord_wins_over_every_overlay() {
    let mut app = app_with(&["one"]);
    app.ui.show_input(InputBox::edit("abc"));
    app.ui.show_popup(Popup::new("note"));
    app.ui.show_confirm(Confirm::new().action(ConfirmAction::Remove));
    app.handle_key(Key::Char('c'), true);
    assert!(!app.running);
    assert!(app.ui.confirm.is_some() && app.ui.popup.is_some());
    assert_eq!(buffer_of(app.ui.inputbox.as_ref().unwrap()), "abc");
    assert_eq!(app.state.todos.len(), 1);
}

#[test]
fn overlay_slots_replace_and_clear() {
    let mut ui = UIState::default();
    assert_eq!(ui.active(), Route::Base);
    ui.close_confirm();
    ui.close_input();
    ui.show_popup(Popup::new("first"));
    ui.show_popup(Popup::new("second"));
    assert_eq!(ui.popup.as_ref().unwrap().message, "second");
    ui.show_input(InputBox::insert());
    ui.show_input(InputBox::edit("x"));
    assert_eq!(ui.inputbox.as_ref().unwrap().mode, InputMode::Edit);
    ui.show_confirm(Confirm::new().with_message("a"));
    ui.show_confirm(Confirm::new().with_message("b"));
    assert_eq!(ui.confirm.as_ref().unwrap().message, "b");
    ui.close_confirm();
    assert!(ui.confirm.is_none() && ui.popup.is_some() && ui.inputbox.is_some());
    ui.close_popup();
    assert!(ui.popup.is_none() && ui.inputbox.is_some());
    ui.close_input();
    assert_eq!(ui.active(), Route::Base);
}

#[test]
fn selection_steps_and_fits() {
    let mut s = SelectState::default();
    assert_eq!(s.selected(), None);
    s.select_next();
    assert_eq!(s.selected(), Some(0));
    s.select_next();
    assert_eq!(s.selected(), Some(1));
    s.select_previous();
    s.select_previous();
    assert_eq!(s.selected(), Some(0));
    s.select(None);
    s.select_previous();
    assert_eq!(s.selected(), Some(usize::MAX));
    s.select_next();
    assert_eq!(s.selected(), Some(usize::MAX));
    s.fit(3);
    assert_eq!(s.selected(), Some(2));
    s.fit(5);
    assert_eq!(s.selected(), Some(2));
    s.fit(0);
    assert_eq!(s.selected(), None);
    s.fit(4);
    assert_eq!(s.selected(), None);
}

#[test]
fn selecting_nothing_rewinds_the_list() {
    let mut s = SelectState { offset: 7, selected: Some(9) };
    s.select_next();
    assert_eq!(s, SelectState { offset: 7, selected: Some(10) });
    s.select_previous();
    s.fit(5);
    assert_eq!(s, SelectState { offset: 7, selected: Some(4) });
    s.select(None);
    assert_eq!(s, SelectState { offset: 0, selected: None });
    let mut s = SelectState { offset: 7, selected: Some(9) };
    s.fit(0);
    assert_eq!(s, SelectState { offset: 0, selected: None });
}

#[test]
fn popup_closes_on_a_media_key_only_if_it_is_the_same() {
    let popup = Popup::new("m").close_on(Key::Media(MediaKey::Play));
    assert!(popup.is_closed_by(Key::Media(MediaKey::Play)));
    assert!(!popup.is_closed_by(Key::Media(MediaKey::Stop)));
    assert!(!popup.is_closed_by(Key::Modifier(ModifierKey::LeftShift)));
    assert!(!popup.is_closed_by(Key::F(1)));
    assert!(Popup::new("m").close_on(Key::F(1)).is_closed_by(Key::F(1)));
    assert!(!Popup::new("m").close_on(Key::F(1)).is_closed_by(Key::F(2)));
}

#[test]
fn state_edits_the_selected_item() {
    let mut state = ApplicationState::new();
    assert_eq!(state.select_state.selected(), Some(0));
    state.append_todo("a");
    state.append_todo("b");
    state.rename_todo("ignored");
    state.toggle_current();
    assert_eq!(state.todos[1].title, "b");
    state.select_state.fit(2);
    state.rename_todo("c");
    state.toggle_current();
    assert_eq!(state.todos[1].title, "c");
    assert!(state.todos[1].done && !state.todos[0].done);
    let current = state.get_current_todo().unwrap();
    assert_eq!((current.title.as_str(), current.done), ("c", true));
    state.remove_todo();
    assert_eq!(state.todos.len(), 1);
    assert!(state.get_current_todo().is_none());
    state.remove_todo();
    assert_eq!(state.todos.len(), 1);
}

#[test]
fn todo_label_shows_the_tick() {
    let mut todo = Todo::new("Write");
    assert_eq!(todo.label(), " [ ] Write");
    todo.toggle_done();
    assert_eq!(todo.label(), " [\u{2713}] Write");
}
