use mypass_tui::draw::{
    draw_form, draw_form_rows, draw_popup, form_has_room, Block, Color, Content, DrawOp, EntryText, FormText,
    Highlight, ScreenText, Span, Widget, Wrap,
};
use mypass_tui::layout::{centered, has_center, Rect};
use mypass_tui::save::{
    confirm_retry, declines, ending, save_with_retry, Closing, Ending, SaveAction, SaveEvent,
};
use mypass_tui::text::{decimal, mask, text_le, trim, window};
use mypass_tui::{
    App, Exit, FieldRules, Form, KeyCode, KeyEvent, KeyModifiers, PasswordEntry, Secret,
};

fn rect(x: u16, y: u16, width: u16, height: u16) -> Rect {
    Rect { x, y, width, height }
}

fn entry(name: &str) -> PasswordEntry {
    PasswordEntry {
        name: name.into(),
        username: "user".into(),
        password: "hunter2".into(),
        url: None,
        realm: None,
    }
}

fn app(names: &[&str]) -> App {
    App::new(
        names.iter().map(|name| entry(name)).collect(),
        FieldRules { max_name_len: 64, spoofing: vec![] },
    )
}

fn no_form() -> FormText {
    FormText {
        name: String::new(),
        username: String::new(),
        url: String::new(),
        realm: String::new(),
    }
}

fn texts(app: &App) -> ScreenText {
    ScreenText {
        entries: app
            .entries
            .iter()
            .map(|e| EntryText {
                name: format!("<{}>", e.name),
                username: e.username.clone(),
                url: e.url.clone(),
                realm: e.realm.clone(),
            })
            .collect(),
        form: no_form(),
    }
}

fn press(app: &mut App, code: KeyCode) {
    app.handle_key(KeyEvent::new(code, KeyModifiers::none()));
}

fn line(label: &str, value: &str) -> Vec<Span> {
    vec![
        Span { text: label.into(), bold: true },
        Span { text: value.into(), bold: false },
    ]
}

fn plain(text: &str, color: Color, area: Rect) -> DrawOp {
    DrawOp::Render {
        widget: Widget::Paragraph {
            content: Content::Plain(text.into()),
            block: None,
            color: Some(color),
            wrap: Wrap::Cut,
        },
        area,
    }
}

fn field(title: &str, text: &str, color: Option<Color>, area: Rect) -> DrawOp {
    DrawOp::Render {
        widget: Widget::Paragraph {
            content: Content::Plain(text.into()),
            block: Some(Block { title: title.into(), color }),
            color: None,
            wrap: Wrap::Cut,
        },
        area,
    }
}

#[test]
fn screen_shows_list_details_and_help() {
    let app = app(&["b", "a"]);
    let ops = app.draw(&texts(&app), rect(0, 0, 80, 24));
    assert_eq!(
        ops,
        vec![
            DrawOp::Render {
                widget: Widget::List {
                    border: Block { title: " Entries (2) ".into(), color: None },
                    items: vec!["<a>".into(), "<b>".into()],
                    selected: Some(0),
                    highlight: Highlight {
                        foreground: Color::Black,
                        background: Color::Cyan,
                        bold: true,
                        symbol: "> ".into(),
                    },
                },
                area: rect(0, 0, 32, 22),
            },
            DrawOp::Render {
                widget: Widget::Paragraph {
                    content: Content::Lines(vec![
                        line("Name: ", "<a>"),
                        line("Username: ", "user"),
                        line("Password: ", "••••••••"),
                        line("URL: ", ""),
                        line("Realm: ", ""),
                    ]),
                    block: Some(Block { title: " Details ".into(), color: None }),
                    color: None,
                    wrap: Wrap::Fold,
                },
                area: rect(32, 0, 48, 22),
            },
            plain(
                "↑/↓ move  c copy  n/Ins new  e/Enter edit  d/Del delete  q/Esc quit",
                Color::Gray,
                rect(0, 22, 80, 2),
            ),
        ]
    );
}

#[test]
fn empty_vault_says_so() {
    let mut app = app(&[]);
    app.dirty = true;
    app.message = Some("hello".into());
    let area = rect(1, 2, 3, 4);
    let ops = app.draw_panes(&texts(&app), area, area, area);
    assert_eq!(ops.len(), 3);
    match &ops[0] {
        DrawOp::Render { widget: Widget::List { border, items, selected, .. }, .. } => {
            assert_eq!(border.title, " Entries (0) * ");
            assert!(items.is_empty());
            assert!(selected.is_none());
        },
        _ => panic!(),
    }
    match &ops[1] {
        DrawOp::Render { widget: Widget::Paragraph { content: Content::Lines(lines), .. }, .. } => {
            assert_eq!(
                *lines,
                vec![vec![Span {
                    text: "The vault is empty. Press n or Insert to create an entry.".into(),
                    bold: false,
                }]]
            );
        },
        _ => panic!(),
    }
    assert_eq!(ops[2], plain("hello", Color::Yellow, area));
}

#[test]
fn questions_stand_in_the_middle() {
    let mut app = app(&["a"]);
    press(&mut app, KeyCode::Char('d'));
    let ops = app.draw(&texts(&app), rect(0, 0, 80, 24));
    assert_eq!(ops.len(), 5);
    assert_eq!(
        ops[3..],
        draw_popup(
            " Delete entry? ",
            "Delete selected entry?  y yes  n/Esc no",
            54,
            5,
            rect(0, 0, 80, 24)
        )
    );
    assert_eq!(ops[3], DrawOp::Render { widget: Widget::Clear, area: rect(13, 9, 54, 5) });
    assert_eq!(
        ops[4],
        DrawOp::Render {
            widget: Widget::Paragraph {
                content: Content::Plain("Delete selected entry?  y yes  n/Esc no".into()),
                block: Some(Block { title: " Delete entry? ".into(), color: None }),
                color: None,
                wrap: Wrap::FoldTrimmed,
            },
            area: rect(13, 9, 54, 5),
        }
    );
    press(&mut app, KeyCode::Char('y'));
    press(&mut app, KeyCode::Char('q'));
    let ops = app.draw(&texts(&app), rect(0, 0, 80, 24));
    assert_eq!(
        ops[3..],
        draw_popup(
            " Unsaved changes ",
            "s save  d discard  Esc keep editing",
            52,
            5,
            rect(0, 0, 80, 24)
        )
    );
}

#[test]
fn form_shows_its_fields_and_the_cursor() {
    let mut form = Form::edit(0, &entry("ab"));
    form.move_field(2);
    let text = FormText {
        name: "ab".into(),
        username: "user".into(),
        url: String::new(),
        realm: String::new(),
    };
    let ops = draw_form(rect(0, 0, 80, 24), &form, &text);
    let area = rect(5, 1, 70, 21);
    assert_eq!(
        ops,
        vec![
            DrawOp::Render { widget: Widget::Clear, area },
            DrawOp::Render {
                widget: Widget::Block(Block { title: " Edit entry ".into(), color: None }),
                area,
            },
            field(" Name ", "ab", None, rect(7, 2, 66, 3)),
            field(" Username ", "user", None, rect(7, 5, 66, 3)),
            field(" Password ", "•••••••", Some(Color::Cyan), rect(7, 8, 66, 3)),
            DrawOp::SetCursor { x: 15, y: 9 },
            field(" URL ", "", None, rect(7, 11, 66, 3)),
            field(" Realm ", "", None, rect(7, 14, 66, 3)),
            plain("Tab/↑/↓ field  Enter save  Esc cancel", Color::Gray, rect(7, 17, 66, 4)),
        ]
    );
}

#[test]
fn long_text_is_shown_around_the_cursor() {
    let mut form = Form::new();
    form.name = "abcdefghij".into();
    form.cursor = 10;
    form.error = Some("wrong".into());
    let text = FormText { name: "abcdefghij".into(), ..no_form() };
    let row = rect(0, 0, 6, 3);
    let rows = vec![row, row, row, row, row, rect(0, 9, 6, 1)];
    let ops = draw_form_rows(rect(0, 0, 10, 10), &rows, &form, &text);
    assert_eq!(ops.len(), 9);
    assert_eq!(
        ops[1],
        DrawOp::Render {
            widget: Widget::Block(Block { title: " New entry ".into(), color: None }),
            area: rect(0, 0, 10, 10),
        }
    );
    assert_eq!(ops[2], field(" Name ", "hij", Some(Color::Cyan), row));
    assert_eq!(ops[3], DrawOp::SetCursor { x: 4, y: 1 });
    assert_eq!(ops[8], plain("wrong", Color::Red, rect(0, 9, 6, 1)));
    form.cursor = 3;
    let low = rect(0, 0, 6, 2);
    let rows = vec![low, row, row, row, row, row];
    let ops = draw_form_rows(rect(0, 0, 10, 10), &rows, &form, &text);
    assert_eq!(ops.len(), 8);
    assert_eq!(ops[2], field(" Name ", "abcd", Some(Color::Cyan), low));
}

#[test]
fn passwords_are_not_shown() {
    let mut one = app(&["a"]);
    let mut other = app(&["a"]);
    other.entries[0].password = "1234567".into();
    press(&mut one, KeyCode::Char('e'));
    press(&mut other, KeyCode::Char('e'));
    let area = rect(0, 0, 80, 24);
    assert_eq!(one.draw(&texts(&one), area), other.draw(&texts(&other), area));
}

#[test]
fn form_fits_small_screens() {
    for size in 0..12 {
        let area = rect(0, 0, size, size);
        let ops = draw_form(area, &Form::new(), &no_form());
        assert!(ops.len() >= 8);
    }
}

#[test]
fn centered_areas() {
    assert_eq!(centered(70, 21, rect(0, 0, 80, 24)), rect(5, 1, 70, 21));
    assert_eq!(centered(70, 21, rect(3, 4, 75, 10)), rect(5, 4, 70, 10));
    assert_eq!(centered(70, 21, rect(3, 4, 0, 0)), rect(3, 4, 0, 0));
}

#[test]
fn answers_that_decline() {
    assert!(!confirm_retry(" n\r\n"));
    assert!(!confirm_retry("\u{3000}no\u{2003}\n"));
    assert!(!confirm_retry("N"));
    assert!(!confirm_retry("No\n"));
    assert!(confirm_retry("\n"));
    assert!(confirm_retry(""));
    assert!(confirm_retry("NO"));
    assert!(confirm_retry("n o"));
    assert!(confirm_retry("y\n"));
    assert!(declines("no"));
    assert!(!declines(" no"));
}

#[test]
fn saving_goes_on_until_it_works_or_is_given_up() {
    assert_eq!(save_with_retry(SaveEvent::Chosen, 12, "/tmp/v"), SaveAction::Store);
    assert_eq!(
        save_with_retry(SaveEvent::Stored, 12, "/tmp/v"),
        SaveAction::Report("Saved 12 entries to /tmp/v.".into())
    );
    assert_eq!(
        save_with_retry(SaveEvent::Failed("disk full".into()), 12, "/tmp/v"),
        SaveAction::Ask("Could not save the vault: disk full".into())
    );
    assert_eq!(save_with_retry(SaveEvent::Answer("\n".into()), 12, "/tmp/v"), SaveAction::Store);
    assert_eq!(
        save_with_retry(SaveEvent::Answer("n\n".into()), 12, "/tmp/v"),
        SaveAction::GiveUp("Changes discarded.".into())
    );
}

#[test]
fn endings() {
    assert_eq!(ending(Exit::Save), Ending::Save);
    assert_eq!(ending(Exit::Discard), Ending::Tell("Changes discarded.".into()));
    assert_eq!(ending(Exit::Clean), Ending::Nothing);
}

#[test]
fn texts_are_cut_and_ordered() {
    assert_eq!(decimal(0), "0");
    assert_eq!(decimal(1029384756), "1029384756");
    assert_eq!(decimal(usize::MAX), format!("{}", usize::MAX));
    assert_eq!(mask(3), "•••");
    assert_eq!(window("abcdef", 2, 3), "cde");
    assert_eq!(window("abcdef", 4, usize::MAX), "ef");
    assert_eq!(window("abcdef", 9, 3), "");
    assert_eq!(trim("\t a b \n"), "a b");
    assert_eq!(trim(" \n "), "");
    assert!(text_le("", "a"));
    assert!(text_le("ab", "abc"));
    assert!(!text_le("abc", "ab"));
    assert!(text_le("a\u{ffff}", "a\u{10000}"));
    assert!(!text_le("b", "abc"));
}

#[test]
fn room_is_told_before_drawing() {
    assert!(has_center(54, 5, rect(0, 0, 80, 24)));
    assert!(has_center(54, 5, rect(u16::MAX, u16::MAX, 54, 6)));
    assert!(!has_center(54, 5, rect(u16::MAX, 0, 56, 5)));
    assert!(!has_center(54, 5, rect(0, u16::MAX, 54, 7)));
    assert!(form_has_room(rect(0, 0, 0, 0)));
    assert!(form_has_room(rect(0, 0, u16::MAX, u16::MAX)));
    assert!(form_has_room(rect(u16::MAX - 3, 0, 3, 3)));
    assert!(!form_has_room(rect(u16::MAX - 2, 0, 1, 1)));
    assert!(!form_has_room(rect(0, u16::MAX, 80, 1)));
    let mut app = app(&["a"]);
    let corner = rect(u16::MAX, u16::MAX, 60, 7);
    assert!(app.has_room(corner));
    press(&mut app, KeyCode::Char('d'));
    assert!(!app.has_room(corner));
    press(&mut app, KeyCode::Esc);
    press(&mut app, KeyCode::Char('n'));
    assert!(!app.has_room(corner));
    assert!(app.has_room(rect(0, 0, 80, 24)));
}

#[test]
fn parts_lie_in_the_screen() {
    for (width, height) in [(0, 0), (1, 1), (7, 3), (33, 6), (200, 90)] {
        let app = app(&["a"]);
        for op in app.draw(&texts(&app), rect(3, 5, width, height)) {
            match op {
                DrawOp::Render { area, .. } => {
                    assert!(3 <= area.x && area.x + area.width <= 3 + width);
                    assert!(5 <= area.y && area.y + area.height <= 5 + height);
                },
                DrawOp::SetCursor { .. } => panic!(),
            }
        }
    }
}

#[test]
fn closing_clears_the_clipboard_last() {
    let mut app = app(&["a"]);
    press(&mut app, KeyCode::Char('c'));
    app.finish_copy(Ok(Secret::new("hunter2".into())));
    press(&mut app, KeyCode::Char('q'));
    assert_eq!(app.closing(), Closing { ending: Ending::Nothing, clear_after: true });
    app.exit = Exit::Save;
    assert_eq!(app.closing(), Closing { ending: Ending::Save, clear_after: true });
    app.copied_password = None;
    app.exit = Exit::Discard;
    assert_eq!(
        app.closing(),
        Closing { ending: Ending::Tell("Changes discarded.".into()), clear_after: false }
    );
}

#[test]
fn raw_text_is_that_of_the_interface() {
    let mut app = app(&["b", "a"]);
    app.entries[1].url = Some("u".into());
    app.entries[1].realm = Some("r".into());
    let text = app.raw_text();
    assert_eq!(text.entries.len(), 2);
    assert_eq!((text.entries[0].name.as_str(), text.entries[1].name.as_str()), ("a", "b"));
    assert_eq!(text.entries[1].username, "user");
    assert_eq!(text.entries[0].url, None);
    assert_eq!(text.entries[1].url.as_deref(), Some("u"));
    assert_eq!(text.entries[1].realm.as_deref(), Some("r"));
    assert_eq!(text.form.name, "");
    press(&mut app, KeyCode::End);
    press(&mut app, KeyCode::Enter);
    let text = app.raw_text();
    assert_eq!(
        [&text.form.name, &text.form.username, &text.form.url, &text.form.realm],
        ["b", "user", "u", "r"]
    );
}

#[test]
fn only_the_active_row_needs_a_cell_for_the_cursor() {
    let edge = rect(u16::MAX, u16::MAX, 3, 3);
    let rows = vec![rect(0, 0, 6, 3), edge, edge, edge, edge, edge];
    let ops = draw_form_rows(rect(0, 0, 10, 10), &rows, &Form::new(), &no_form());
    assert_eq!(ops[3], DrawOp::SetCursor { x: 1, y: 1 });
    assert_eq!(ops.len(), 9);
}
