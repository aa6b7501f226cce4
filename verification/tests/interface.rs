use mypass_tui::save::confirm_retry;
use mypass_tui::{
    App, Exit, FieldRules, Form, FormResult, KeyCode, KeyEvent, KeyEventKind, KeyModifiers, Mode,
    PasswordEntry, Secret,
};

fn key(code: KeyCode) -> KeyEvent {
    KeyEvent::new(code, KeyModifiers::none())
}

fn rules() -> FieldRules {
    FieldRules { max_name_len: 16, spoofing: vec!['\u{202e}', '\u{200b}'] }
}

fn entry(name: &str, password: &str) -> PasswordEntry {
    PasswordEntry {
        name: name.into(),
        username: String::new(),
        password: password.into(),
        url: None,
        realm: None,
    }
}

fn names(app: &App) -> Vec<&str> {
    app.entries.iter().map(|e| e.name.as_str()).collect()
}

fn open_form(app: &mut App) -> &mut Form {
    let Mode::Edit(form) = &mut app.mode else {
        panic!()
    };
    form
}

#[test]
fn create_edit_delete_and_choose_exit() {
    let mut app = App::new(vec![], rules());
    app.handle_key(key(KeyCode::Char('n')));
    let Mode::Edit(form) = &mut app.mode else {
        panic!()
    };
    form.name = "example".into();
    form.username = "alice".into();
    form.password = "secret".into();
    app.handle_key(key(KeyCode::Enter));
    assert_eq!(app.entries[0].name, "example");
    assert!(app.dirty);
    app.handle_key(key(KeyCode::Char('e')));
    let Mode::Edit(form) = &mut app.mode else {
        panic!()
    };
    form.username = "bob".into();
    app.handle_key(key(KeyCode::Enter));
    assert_eq!(app.entries[0].username, "bob");
    app.handle_key(key(KeyCode::Char('d')));
    app.handle_key(key(KeyCode::Char('y')));
    assert!(app.entries.is_empty());
    app.handle_key(key(KeyCode::Char('q')));
    assert!(matches!(app.mode, Mode::ConfirmExit));
    assert!(app.handle_key(key(KeyCode::Char('s'))));
    assert_eq!(app.exit, Exit::Save);
}

#[test]
fn browse_shortcut_keys() {
    let mut app = App::new(vec![], rules());
    app.handle_key(key(KeyCode::Enter));
    app.handle_key(key(KeyCode::Delete));
    assert!(matches!(app.mode, Mode::Browse));

    app.handle_key(key(KeyCode::Insert));
    let Mode::Edit(form) = &mut app.mode else {
        panic!()
    };
    form.name = "example".into();
    form.password = "secret".into();
    app.handle_key(key(KeyCode::Enter));

    app.handle_key(key(KeyCode::Enter));
    assert!(matches!(app.mode, Mode::Edit(_)));
    app.handle_key(key(KeyCode::Esc));
    app.handle_key(key(KeyCode::Delete));
    assert!(matches!(app.mode, Mode::ConfirmDelete));
    app.handle_key(key(KeyCode::Esc));
    assert_eq!(app.entries.len(), 1);
    app.handle_key(key(KeyCode::Esc));
    assert!(matches!(app.mode, Mode::ConfirmExit));
}

#[test]
fn form_rejects_duplicates_and_realm_without_url() {
    let entries = vec![PasswordEntry {
        name: "one".into(),
        username: String::new(),
        password: "pw".into(),
        url: None,
        realm: None,
    }];
    let mut form = Form::new();
    form.name = "one".into();
    form.password = "pw".into();
    assert!(matches!(
        form.handle_key(key(KeyCode::Enter), &entries, &rules()),
        FormResult::Error(_)
    ));
    form.name = "two".into();
    form.realm = "Admin".into();
    assert!(matches!(
        form.handle_key(key(KeyCode::Enter), &entries, &rules()),
        FormResult::Error(_)
    ));
}

#[test]
fn delete_confirmation_ignores_unrelated_keys() {
    let mut app = App::new(
        vec![PasswordEntry {
            name: "one".into(),
            username: String::new(),
            password: "pw".into(),
            url: None,
            realm: None,
        }],
        rules(),
    );
    app.handle_key(key(KeyCode::Char('d')));
    app.handle_key(key(KeyCode::Down));
    assert!(matches!(app.mode, Mode::ConfirmDelete));
    assert_eq!(app.entries.len(), 1);
}

#[test]
fn form_can_edit_in_the_middle_of_a_field() {
    let mut form = Form::new();
    for c in "ac".chars() {
        form.handle_key(key(KeyCode::Char(c)), &[], &rules());
    }
    form.handle_key(key(KeyCode::Left), &[], &rules());
    form.handle_key(key(KeyCode::Char('b')), &[], &rules());
    assert_eq!(form.name, "abc");
    form.handle_key(key(KeyCode::Backspace), &[], &rules());
    assert_eq!(form.name, "ac");
    form.handle_key(key(KeyCode::Delete), &[], &rules());
    assert_eq!(form.name, "a");
}

#[test]
fn entries_are_listed_without_regard_to_case() {
    let app = App::new(
        vec![
            entry("Zebra", "1"),
            entry("apple", "2"),
            entry("\u{c4}ther", "3"),
            entry("Apple", "4"),
            entry("\u{e4}gypten", "5"),
        ],
        rules(),
    );
    assert_eq!(names(&app), ["apple", "Apple", "Zebra", "\u{e4}gypten", "\u{c4}ther"]);
    assert_eq!(app.selected, 0);
    assert!(!app.dirty);
}

#[test]
fn entries_with_equal_keys_keep_their_order() {
    let app = App::new(
        vec![entry("b", "1"), entry("A", "2"), entry("B", "3"), entry("a", "4"), entry("b", "5")],
        rules(),
    );
    assert_eq!(names(&app), ["A", "a", "b", "B", "b"]);
    let passwords: Vec<&str> = app.entries.iter().map(|e| e.password.expose()).collect();
    assert_eq!(passwords, ["2", "4", "1", "3", "5"]);
}

#[test]
fn selection_moves_within_the_list() {
    let mut app = App::new(vec![entry("a", "1"), entry("b", "2"), entry("c", "3")], rules());
    app.handle_key(key(KeyCode::Up));
    assert_eq!(app.selected, 0);
    app.handle_key(key(KeyCode::Down));
    app.handle_key(key(KeyCode::Char('j')));
    app.handle_key(key(KeyCode::Down));
    assert_eq!(app.selected, 2);
    app.handle_key(key(KeyCode::Char('k')));
    assert_eq!(app.selected, 1);
    app.handle_key(key(KeyCode::End));
    assert_eq!(app.selected, 2);
    app.handle_key(key(KeyCode::Home));
    assert_eq!(app.selected, 0);
    app.handle_key(key(KeyCode::Down));
    app.handle_key(key(KeyCode::Up));
    assert_eq!(app.selected, 0);
}

#[test]
fn deleting_the_last_entry_selects_the_one_before() {
    let mut app = App::new(vec![entry("a", "1"), entry("b", "2")], rules());
    app.handle_key(key(KeyCode::End));
    app.handle_key(key(KeyCode::Delete));
    app.handle_key(key(KeyCode::Char('N')));
    assert_eq!(app.entries.len(), 2);
    assert!(!app.dirty);
    app.handle_key(key(KeyCode::Delete));
    app.handle_key(key(KeyCode::Char('Y')));
    assert_eq!(names(&app), ["a"]);
    assert_eq!(app.selected, 0);
    assert!(app.dirty);
}

#[test]
fn saved_entry_is_selected_in_its_new_place() {
    let mut app = App::new(vec![entry("a", "1"), entry("b", "2"), entry("c", "3")], rules());
    app.handle_key(key(KeyCode::Enter));
    open_form(&mut app).name = "Z".into();
    app.handle_key(key(KeyCode::Enter));
    assert_eq!(names(&app), ["b", "c", "Z"]);
    assert_eq!(app.selected, 2);
    app.handle_key(key(KeyCode::Char('n')));
    let form = open_form(&mut app);
    form.name = "Bee".into();
    form.password = "pw".into();
    app.handle_key(key(KeyCode::Enter));
    assert_eq!(names(&app), ["b", "Bee", "c", "Z"]);
    assert_eq!(app.selected, 1);
}

#[test]
fn cancelled_form_changes_nothing() {
    let mut app = App::new(vec![entry("a", "1")], rules());
    app.handle_key(key(KeyCode::Char('e')));
    app.handle_key(key(KeyCode::Char('x')));
    assert_eq!(open_form(&mut app).name, "ax");
    assert!(!app.handle_key(key(KeyCode::Esc)));
    assert_eq!(names(&app), ["a"]);
    assert!(!app.dirty);
    assert!(app.handle_key(key(KeyCode::Esc)));
    assert_eq!(app.exit, Exit::Clean);
}

#[test]
fn unchanged_entry_is_accepted() {
    let mut app = App::new(
        vec![PasswordEntry {
            name: "a".into(),
            username: "u".into(),
            password: "p".into(),
            url: Some("https://a.example".into()),
            realm: Some("r".into()),
        }],
        FieldRules { max_name_len: 17, spoofing: vec![] },
    );
    app.handle_key(key(KeyCode::Enter));
    assert_eq!(open_form(&mut app).cursor, 1);
    app.handle_key(key(KeyCode::Enter));
    assert_eq!(app.entries[0].name, "a");
    assert_eq!(app.entries[0].username, "u");
    assert_eq!(app.entries[0].password.expose(), "p");
    assert_eq!(app.entries[0].url.as_deref(), Some("https://a.example"));
    assert_eq!(app.entries[0].realm.as_deref(), Some("r"));
}

#[test]
fn leaving_with_changes_asks_first() {
    let mut app = App::new(vec![entry("a", "1")], rules());
    app.dirty = true;
    assert!(!app.handle_key(KeyEvent::new(KeyCode::Char('c'), KeyModifiers::control())));
    assert!(matches!(app.mode, Mode::ConfirmExit));
    assert!(!app.handle_key(key(KeyCode::Char('x'))));
    assert!(matches!(app.mode, Mode::ConfirmExit));
    assert!(!app.handle_key(key(KeyCode::Esc)));
    assert!(matches!(app.mode, Mode::Browse));
    app.handle_key(key(KeyCode::Char('q')));
    assert!(app.handle_key(key(KeyCode::Char('D'))));
    assert_eq!(app.exit, Exit::Discard);
}

#[test]
fn control_c_leaves_where_nothing_has_changed() {
    let mut app = App::new(vec![entry("a", "1")], rules());
    assert!(app.handle_key(KeyEvent::new(KeyCode::Char('c'), KeyModifiers::control())));
    assert_eq!(app.exit, Exit::Clean);
    assert!(!app.copy_requested);
}

#[test]
fn only_presses_count() {
    let mut app = App::new(vec![], rules());
    let mut event = key(KeyCode::Esc);
    event.kind = KeyEventKind::Release;
    assert!(!app.handle_event(event));
    event.kind = KeyEventKind::Repeat;
    assert!(!app.handle_event(event));
    assert_eq!(app.exit, Exit::Running);
    event.kind = KeyEventKind::Press;
    assert!(app.handle_event(event));
    assert_eq!(app.exit, Exit::Clean);
}

#[test]
fn copying_asks_for_the_selected_password() {
    let mut app = App::new(vec![entry("a", "1"), entry("b", "2")], rules());
    assert!(app.copy_request().is_none());
    app.handle_key(key(KeyCode::Down));
    app.handle_key(key(KeyCode::Char('c')));
    assert_eq!(app.copy_request(), Some("2"));
    app.finish_copy(Ok(Secret::new("2".into())));
    assert!(app.copy_request().is_none());
    assert_eq!(app.message.as_deref(), Some("Password copied to clipboard"));
    assert_eq!(app.copied_password.as_ref().map(|s| s.expose()), Some("2"));
    app.handle_key(key(KeyCode::Char('c')));
    assert!(app.message.is_none());
    app.finish_copy(Err("no display".into()));
    assert_eq!(app.message.as_deref(), Some("Clipboard error: no display"));
    assert_eq!(app.copied_password.as_ref().map(|s| s.expose()), Some("2"));
    let mut empty = App::new(vec![], rules());
    empty.handle_key(key(KeyCode::Char('c')));
    assert!(empty.copy_request().is_none());
}

fn reason(form: &mut Form, entries: &[PasswordEntry]) -> String {
    match form.handle_key(key(KeyCode::Enter), entries, &rules()) {
        FormResult::Error(message) => message,
        _ => panic!(),
    }
}

#[test]
fn form_says_what_is_wrong() {
    let entries = vec![entry("one", "1"), entry("two", "2")];
    let mut form = Form::new();
    assert_eq!(reason(&mut form, &entries), "Name must not be empty");
    form.name = "two".into();
    assert_eq!(reason(&mut form, &entries), "Password must not be empty");
    form.password = "pw".into();
    form.realm = "r".into();
    assert_eq!(reason(&mut form, &entries), "A realm requires a URL");
    form.url = "u".into();
    assert_eq!(reason(&mut form, &entries), "An entry with that name already exists");
    form.editing = Some(0);
    assert_eq!(reason(&mut form, &entries), "An entry with that name already exists");
    form.editing = Some(1);
    assert!(matches!(
        form.handle_key(key(KeyCode::Enter), &entries, &rules()),
        FormResult::Save(_)
    ));
    form.name = "a\u{9c}b".into();
    assert_eq!(reason(&mut form, &entries), "Name contains unsafe characters");
    form.name = "12345678901234567".into();
    form.username = "\u{7f}".into();
    assert_eq!(reason(&mut form, &entries), "Name is too long");
    form.name = "1234567890123456".into();
    assert_eq!(reason(&mut form, &entries), "Username contains unsafe characters");
    form.username = "\u{a0}\u{ad}".into();
    form.url = "x\u{202e}".into();
    assert_eq!(reason(&mut form, &entries), "URL contains unsafe characters");
    form.url = "\u{e9}".repeat(17);
    assert_eq!(reason(&mut form, &entries), "URL is too long");
    form.url = "\u{e9}".repeat(16);
    form.realm = "\n".into();
    assert_eq!(reason(&mut form, &entries), "Realm contains unsafe characters");
    form.realm = "x".repeat(17);
    assert_eq!(reason(&mut form, &entries), "Realm is too long");
    form.realm = String::new();
    form.url = String::new();
    form.password = "\u{1}\u{202e}".repeat(20);
    match form.handle_key(key(KeyCode::Enter), &entries, &rules()) {
        FormResult::Save(saved) => {
            assert_eq!(saved.password.expose(), "\u{1}\u{202e}".repeat(20));
            assert!(saved.url.is_none());
            assert!(saved.realm.is_none());
        },
        _ => panic!(),
    }
}

#[test]
fn rejected_form_shows_the_reason_until_the_next_key() {
    let mut app = App::new(vec![], rules());
    app.handle_key(key(KeyCode::Char('n')));
    app.handle_key(key(KeyCode::Enter));
    assert_eq!(open_form(&mut app).error.as_deref(), Some("Name must not be empty"));
    app.handle_key(key(KeyCode::Char('x')));
    assert!(open_form(&mut app).error.is_none());
    assert_eq!(open_form(&mut app).name, "x");
}

#[test]
fn bytes_and_characters_are_told_apart() {
    let value = "a\u{e9}\u{20ac}\u{1f600}";
    assert_eq!(Form::byte_at(value, 0), 0);
    assert_eq!(Form::byte_at(value, 1), 1);
    assert_eq!(Form::byte_at(value, 2), 3);
    assert_eq!(Form::byte_at(value, 3), 6);
    assert_eq!(Form::byte_at(value, 4), 10);
    assert_eq!(Form::byte_at(value, 99), 10);
    assert_eq!(Form::byte_at("", 1), 0);
}

#[test]
fn wide_characters_are_edited_as_one() {
    let mut form = Form::new();
    for c in "\u{e9}\u{1f600}".chars() {
        form.handle_key(key(KeyCode::Char(c)), &[], &rules());
    }
    form.handle_key(key(KeyCode::Left), &[], &rules());
    form.handle_key(key(KeyCode::Char('\u{20ac}')), &[], &rules());
    assert_eq!(form.name, "\u{e9}\u{20ac}\u{1f600}");
    assert_eq!(form.cursor, 2);
    form.handle_key(key(KeyCode::Backspace), &[], &rules());
    assert_eq!(form.name, "\u{e9}\u{1f600}");
    form.handle_key(key(KeyCode::Home), &[], &rules());
    form.handle_key(key(KeyCode::Backspace), &[], &rules());
    form.handle_key(key(KeyCode::Delete), &[], &rules());
    assert_eq!(form.name, "\u{1f600}");
    form.handle_key(key(KeyCode::End), &[], &rules());
    form.handle_key(key(KeyCode::Delete), &[], &rules());
    assert_eq!(form.name, "\u{1f600}");
    form.handle_key(key(KeyCode::Right), &[], &rules());
    assert_eq!(form.cursor, 1);
    form.handle_key(KeyEvent::new(KeyCode::Char('x'), KeyModifiers::control()), &[], &rules());
    assert_eq!(form.name, "\u{1f600}");
}

#[test]
fn erasing_undoes_typing() {
    let mut form = Form::edit(0, &entry("abc", "p"));
    form.handle_key(key(KeyCode::Left), &[], &rules());
    form.handle_key(key(KeyCode::Char('x')), &[], &rules());
    form.handle_key(key(KeyCode::Left), &[], &rules());
    form.handle_key(key(KeyCode::Delete), &[], &rules());
    assert_eq!(form.name, "abc");
    assert_eq!(form.cursor, 2);
}

#[test]
fn fields_form_a_ring() {
    let mut form = Form::edit(
        3,
        &PasswordEntry {
            name: "n".into(),
            username: "us".into(),
            password: "pas".into(),
            url: Some("urls".into()),
            realm: None,
        },
    );
    assert_eq!(form.editing, Some(3));
    assert_eq!(form.fields(), ["n", "us", "pas", "urls", ""]);
    let mut cursors = vec![];
    for _ in 0..5 {
        form.handle_key(key(KeyCode::Tab), &[], &rules());
        cursors.push(form.cursor);
    }
    assert_eq!(cursors, [2, 3, 4, 0, 1]);
    assert_eq!(form.active, 0);
    form.handle_key(key(KeyCode::Up), &[], &rules());
    assert_eq!(form.active, 4);
    form.handle_key(key(KeyCode::Char('r')), &[], &rules());
    assert_eq!(form.active_value(), "r");
    form.handle_key(key(KeyCode::BackTab), &[], &rules());
    form.handle_key(key(KeyCode::Down), &[], &rules());
    assert_eq!(form.active, 4);
    form.move_field(3);
    assert_eq!((form.active, form.cursor), (2, 3));
    form.active_mut().push('s');
    assert_eq!(form.password, "pass");
}

#[test]
fn new_form_is_empty_with_room_for_a_password() {
    let form = Form::new();
    assert_eq!(form.fields(), ["", "", "", "", ""]);
    assert!(form.password.capacity() >= 64);
    let form = Form::edit(0, &entry("n", "x"));
    assert_eq!(form.password, "x");
    assert!(form.password.capacity() >= 64);
    let form = Form::edit(0, &entry("n", &"x".repeat(100)));
    assert_eq!(form.password.len(), 100);
    assert!(form.password.capacity() >= 100);
}

#[test]
fn wiped_form_holds_nothing_but_the_error() {
    let mut form = Form::edit(2, &entry("abc", "secret"));
    form.move_field(2);
    form.error = Some("bad".into());
    form.zeroize();
    assert_eq!(form.fields(), ["", "", "", "", ""]);
    assert_eq!((form.editing, form.active, form.cursor), (None, 0, 0));
    assert_eq!(form.error.as_deref(), Some("bad"));
}

#[test]
fn secrets_give_their_text() {
    assert_eq!(Secret::new("pw".into()).expose(), "pw");
    assert_eq!(Secret::from("pw").expose(), "pw");
}

#[test]
fn ordering_an_ordered_list_changes_nothing() {
    let entries = vec![entry("b", "1"), entry("A", "2"), entry("a", "3"), entry("B", "4")];
    let once = App::new(entries, rules());
    let order: Vec<String> = once.entries.iter().map(|e| e.name.clone()).collect();
    let twice = App::new(once.entries, rules());
    assert_eq!(names(&twice), order);
}

#[test]
fn saving_changes_no_other_entry() {
    let mut app = App::new(vec![entry("a", "1"), entry("b", "2"), entry("c", "3")], rules());
    app.handle_key(key(KeyCode::Down));
    app.handle_key(key(KeyCode::Enter));
    let form = open_form(&mut app);
    form.name = "d".into();
    form.password = "4".into();
    app.handle_key(key(KeyCode::Enter));
    let kept: Vec<(&str, &str)> =
        app.entries.iter().map(|e| (e.name.as_str(), e.password.expose())).collect();
    assert_eq!(kept, [("a", "1"), ("c", "3"), ("d", "4")]);
    app.handle_key(key(KeyCode::Char('n')));
    let form = open_form(&mut app);
    form.name = "a".into();
    form.password = "5".into();
    app.handle_key(key(KeyCode::Enter));
    assert_eq!(names(&app), ["a", "c", "d"]);
    assert!(open_form(&mut app).error.is_some());
}

#[test]
fn copying_between_keys_keeps_the_session_sound() {
    let mut app = App::new(vec![entry("b", "2"), entry("a", "1")], rules());
    app.handle_event(key(KeyCode::Down));
    app.handle_event(key(KeyCode::Char('c')));
    app.finish_copy(Err("busy".into()));
    app.handle_event(key(KeyCode::Enter));
    let selected = app.selected;
    assert_eq!(open_form(&mut app).editing, Some(selected));
    app.handle_event(key(KeyCode::Esc));
    app.handle_event(key(KeyCode::Char('c')));
    app.finish_copy(Ok(Secret::new("2".into())));
    assert_eq!(names(&app), ["a", "b"]);
    assert!(!app.dirty);
    assert!(app.handle_event(key(KeyCode::Char('q'))));
    assert_eq!(app.exit, Exit::Clean);
    assert_eq!(app.copied_password.as_ref().map(|s| s.expose()), Some("2"));
}

#[test]
fn answers_are_read_without_the_white_space_around_them() {
    for c in '\0'..=char::MAX {
        let white = matches!(
            c,
            '\u{9}'..='\u{d}'
                | '\u{20}'
                | '\u{85}'
                | '\u{a0}'
                | '\u{1680}'
                | '\u{2000}'..='\u{200a}'
                | '\u{2028}'
                | '\u{2029}'
                | '\u{202f}'
                | '\u{205f}'
                | '\u{3000}'
        );
        assert_eq!(confirm_retry(&format!("{c}n{c}")), !white);
    }
}
