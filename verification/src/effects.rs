//! What each key does to the form and to the list, and what becomes of a form that
//! is sent off, said of texts, places and entries.

use vstd::prelude::*;

use crate::app;
use crate::app::{App, AppView, Exit, Mode, ModeView};
use crate::entry;
use crate::entry::{EntryView, PasswordEntry};
use crate::form;
use crate::form::{FieldRules, Form, FormResult, FormResultView, FormView};
use crate::key::{KeyCode, KeyEvent, KeyEventKind};
use crate::laws;
use crate::laws::Step;
use crate::text;

verus! {

/// A key that types a character puts that character, and no other, at the cursor
/// of the active field and moves the cursor behind it. The rest of the form stays.
pub proof fn law_typing_inserts_the_character(
    form: FormView,
    key: KeyEvent,
    c: char,
    entries: Seq<EntryView>,
    rules: FieldRules,
)
    requires
        form.wf(),
        key.code == KeyCode::Char(c),
        !key.modifiers.control,
    ensures
        ({
            let old_text = form.fields[form.active];
            let after = form.after(key);
            &&& after.fields.len() == 5
            &&& after.fields[form.active] == old_text.take(form.cursor) + seq![c] + old_text.skip(
                form.cursor,
            )
            &&& forall|i: int|
                0 <= i < 5 && i != form.active ==> #[trigger] after.fields[i] == form.fields[i]
            &&& after.cursor == form.cursor + 1
            &&& after.active == form.active
            &&& after.editing == form.editing
            &&& after.error is None
            &&& form.result(key, entries, rules) == FormResultView::Continue
        }),
{
    let old_text = form.fields[form.active];
    assert(form.after(key).fields[form.active] =~= old_text.take(form.cursor) + seq![c]
        + old_text.skip(form.cursor));
}

/// With the control key held, a key types nothing.
pub proof fn law_control_types_nothing(
    form: FormView,
    key: KeyEvent,
    entries: Seq<EntryView>,
    rules: FieldRules,
)
    requires
        form.wf(),
        key.code is Char,
        key.modifiers.control,
    ensures
        form.after(key) == (FormView { error: None, ..form }),
        form.result(key, entries, rules) == FormResultView::Continue,
{
}

/// Backspace takes out the character before the cursor, and nothing where there is
/// none. The rest of the form stays.
pub proof fn law_backspace_takes_the_character_before(
    form: FormView,
    key: KeyEvent,
    entries: Seq<EntryView>,
    rules: FieldRules,
)
    requires
        form.wf(),
        key.code == KeyCode::Backspace,
    ensures
        ({
            let old_text = form.fields[form.active];
            let after = form.after(key);
            &&& form.cursor > 0 ==> after.fields[form.active] == old_text.take(form.cursor - 1)
                + old_text.skip(form.cursor) && after.cursor == form.cursor - 1
            &&& form.cursor == 0 ==> after.fields[form.active] == old_text && after.cursor == 0
            &&& after.fields.len() == 5
            &&& forall|i: int|
                0 <= i < 5 && i != form.active ==> #[trigger] after.fields[i] == form.fields[i]
            &&& after.active == form.active
            &&& after.editing == form.editing
            &&& after.error is None
            &&& form.result(key, entries, rules) == FormResultView::Continue
        }),
{
    let old_text = form.fields[form.active];
    if form.cursor > 0 {
        assert(form.after(key).fields[form.active] =~= old_text.take(form.cursor - 1)
            + old_text.skip(form.cursor));
    }
}

/// Delete takes out the character behind the cursor, and nothing where there is
/// none. The cursor and the rest of the form stay.
pub proof fn law_delete_takes_the_character_behind(
    form: FormView,
    key: KeyEvent,
    entries: Seq<EntryView>,
    rules: FieldRules,
)
    requires
        form.wf(),
        key.code == KeyCode::Delete,
    ensures
        ({
            let old_text = form.fields[form.active];
            let after = form.after(key);
            &&& form.cursor < old_text.len() ==> after.fields[form.active] == old_text.take(
                form.cursor,
            ) + old_text.skip(form.cursor + 1)
            &&& form.cursor == old_text.len() ==> after.fields[form.active] == old_text
            &&& after.cursor == form.cursor
            &&& after.fields.len() == 5
            &&& forall|i: int|
                0 <= i < 5 && i != form.active ==> #[trigger] after.fields[i] == form.fields[i]
            &&& after.active == form.active
            &&& after.editing == form.editing
            &&& after.error is None
            &&& form.result(key, entries, rules) == FormResultView::Continue
        }),
{
    let old_text = form.fields[form.active];
    if form.cursor < old_text.len() {
        assert(form.after(key).fields[form.active] =~= old_text.take(form.cursor) + old_text.skip(
            form.cursor + 1,
        ));
    }
}

/// The keys that move the cursor change nothing else: one to the left or to the
/// right as far as the text goes, to its start, or to its end.
pub proof fn law_cursor_keys_move_the_cursor(
    form: FormView,
    key: KeyEvent,
    entries: Seq<EntryView>,
    rules: FieldRules,
)
    requires
        form.wf(),
        key.code == KeyCode::Left || key.code == KeyCode::Right || key.code == KeyCode::Home
            || key.code == KeyCode::End,
    ensures
        ({
            let len = form.fields[form.active].len();
            let after = form.after(key);
            &&& key.code == KeyCode::Left && form.cursor > 0 ==> after.cursor == form.cursor - 1
            &&& key.code == KeyCode::Left && form.cursor == 0 ==> after.cursor == 0
            &&& key.code == KeyCode::Right && form.cursor < len ==> after.cursor == form.cursor + 1
            &&& key.code == KeyCode::Right && form.cursor == len ==> after.cursor == len
            &&& key.code == KeyCode::Home ==> after.cursor == 0
            &&& key.code == KeyCode::End ==> after.cursor == len
            &&& after == (FormView { cursor: after.cursor, error: None, ..form })
            &&& form.result(key, entries, rules) == FormResultView::Continue
        }),
{
}

/// Tab and Down lead to the next field, BackTab and Up to the one before, in a
/// ring, and each to the end of the text there. No text changes.
pub proof fn law_field_keys_change_the_field(
    form: FormView,
    key: KeyEvent,
    entries: Seq<EntryView>,
    rules: FieldRules,
)
    requires
        form.wf(),
        key.code == KeyCode::Tab || key.code == KeyCode::Down || key.code == KeyCode::BackTab
            || key.code == KeyCode::Up,
    ensures
        ({
            let after = form.after(key);
            let on = key.code == KeyCode::Tab || key.code == KeyCode::Down;
            &&& on && form.active < 4 ==> after.active == form.active + 1
            &&& on && form.active == 4 ==> after.active == 0
            &&& !on && form.active > 0 ==> after.active == form.active - 1
            &&& !on && form.active == 0 ==> after.active == 4
            &&& after.cursor == form.fields[after.active].len()
            &&& after == (FormView {
                active: after.active,
                cursor: after.cursor,
                error: None,
                ..form
            })
            &&& form.result(key, entries, rules) == FormResultView::Continue
        }),
{
}

/// Going on by some fields goes through the ring of the five, to the end of the
/// text there.
pub proof fn law_moving_counts_fields(form: FormView, delta: int)
    requires
        form.wf(),
        0 <= delta,
    ensures
        form.moved(0).active == form.active,
        0 <= form.moved(delta).active < 5,
        form.moved(delta + 1).active == if form.moved(delta).active == 4 {
            0
        } else {
            form.moved(delta).active + 1
        },
        form.moved(delta).cursor == form.fields[form.moved(delta).active].len(),
        form.moved(delta) == (FormView {
            active: form.moved(delta).active,
            cursor: form.moved(delta).cursor,
            ..form
        }),
{
}

/// The remaining keys leave the form as it is but for what was wrong with it: Esc
/// gives it up, Enter sends it off, and the others do nothing.
pub proof fn law_other_keys_leave_the_form(
    form: FormView,
    key: KeyEvent,
    entries: Seq<EntryView>,
    rules: FieldRules,
)
    requires
        form.wf(),
        key.code == KeyCode::Esc || key.code == KeyCode::Enter || key.code == KeyCode::Insert
            || key.code == KeyCode::Other,
    ensures
        form.after(key) == (FormView { error: None, ..form }),
        key.code == KeyCode::Esc ==> form.result(key, entries, rules) == FormResultView::Cancel,
        key.code == KeyCode::Enter ==> form.result(key, entries, rules) == form.submitted(
            entries,
            rules,
        ),
        key.code == KeyCode::Insert || key.code == KeyCode::Other ==> form.result(
            key,
            entries,
            rules,
        ) == FormResultView::Continue,
{
}

/// The entry that a form gives holds its five texts, whether the form is on a new
/// entry or on one of the list: name, user name and password as they are, and URL
/// and realm where they are not empty.
pub proof fn law_saved_entry_holds_the_fields(
    form: FormView,
    entries: Seq<EntryView>,
    rules: FieldRules,
    entry: EntryView,
)
    requires
        form.wf(),
        form.submitted(entries, rules) == FormResultView::Save(entry),
    ensures
        entry.name == form.fields[0],
        entry.username == form.fields[1],
        entry.password == form.fields[2],
        match entry.url {
            Some(url) => url == form.fields[3] && url.len() > 0,
            None => form.fields[3] == Seq::<char>::empty(),
        },
        match entry.realm {
            Some(realm) => realm == form.fields[4] && realm.len() > 0,
            None => form.fields[4] == Seq::<char>::empty(),
        },
        form::or_empty(entry.url) == form.fields[3],
        form::or_empty(entry.realm) == form.fields[4],
{
    if form.fields[3].len() == 0 {
        assert(form.fields[3] =~= Seq::<char>::empty());
    }
    if form.fields[4].len() == 0 {
        assert(form.fields[4] =~= Seq::<char>::empty());
    }
}

/// Whether the text holds a control code, or a character that the vault counts as
/// spoofing.
pub open spec fn holds_unsafe(value: Seq<char>, rules: FieldRules) -> bool {
    exists|i: int|
        #![trigger value[i]]
        0 <= i < value.len() && (value[i] as int <= 0x1f || 0x7f <= value[i] as int <= 0x9f
            || rules.spoofing@.contains(value[i]))
}

/// A character is unsafe where it is a control code or one that the vault counts as
/// spoofing, and a text is where it holds such a character.
pub proof fn law_unsafe_characters(rules: FieldRules, c: char, value: Seq<char>)
    ensures
        rules.is_unsafe(c) <==> c as int <= 0x1f || 0x7f <= c as int <= 0x9f || (exists|j: int|
            0 <= j < rules.spoofing@.len() && #[trigger] rules.spoofing@[j] == c),
        rules.has_unsafe(value) <==> holds_unsafe(value, rules),
{
    if rules.has_unsafe(value) {
        let i = choose|i: int| 0 <= i < value.len() && rules.is_unsafe(#[trigger] value[i]);
        assert(holds_unsafe(value, rules));
    }
    if holds_unsafe(value, rules) {
        let i = choose|i: int|
            #![trigger value[i]]
            0 <= i < value.len() && (value[i] as int <= 0x1f || 0x7f <= value[i] as int <= 0x9f
                || rules.spoofing@.contains(value[i]));
        assert(rules.is_unsafe(value[i]));
    }
}

/// Whether an entry of the list has the name, other than the one at that place.
pub open spec fn is_name_of_another(
    name: Seq<char>,
    entries: Seq<EntryView>,
    place: Option<int>,
) -> bool {
    exists|i: int|
        0 <= i < entries.len() && place != Some(i) && (#[trigger] entries[i]).name == name
}

/// A form is refused for the first demand that it does not meet, and with the words
/// for that demand, whether it is on a new entry or on one of the list: a name, a
/// password, a URL beside a realm, a name that no other entry has, and then safe
/// characters and at most so many of them in name, user name, URL and realm.
pub proof fn law_refusals_name_the_demand(
    form: FormView,
    entries: Seq<EntryView>,
    rules: FieldRules,
)
    requires
        form.wf(),
    ensures
        ({
            let name = form.fields[0];
            let username = form.fields[1];
            let password = form.fields[2];
            let url = form.fields[3];
            let realm = form.fields[4];
            let max = rules.max_name_len;
            let out = form.submitted(entries, rules);
            let named = name.len() > 0;
            let complete = named && password.len() > 0 && (realm.len() > 0 ==> url.len() > 0);
            let free = complete && !is_name_of_another(name, entries, form.editing);
            let name_fine = free && !holds_unsafe(name, rules) && name.len() <= max;
            let user_fine = name_fine && !holds_unsafe(username, rules) && username.len() <= max;
            let url_fine = user_fine && !holds_unsafe(url, rules) && url.len() <= max;
            let all_fine = url_fine && !holds_unsafe(realm, rules) && realm.len() <= max;
            &&& !named ==> out == FormResultView::Error("Name must not be empty"@)
            &&& named && password.len() == 0 ==> out == FormResultView::Error(
                "Password must not be empty"@,
            )
            &&& named && password.len() > 0 && realm.len() > 0 && url.len() == 0 ==> out
                == FormResultView::Error("A realm requires a URL"@)
            &&& complete && is_name_of_another(name, entries, form.editing) ==> out
                == FormResultView::Error("An entry with that name already exists"@)
            &&& free && holds_unsafe(name, rules) ==> out == FormResultView::Error(
                "Name"@ + " contains unsafe characters"@,
            )
            &&& free && !holds_unsafe(name, rules) && name.len() > max ==> out
                == FormResultView::Error("Name"@ + " is too long"@)
            &&& name_fine && holds_unsafe(username, rules) ==> out == FormResultView::Error(
                "Username"@ + " contains unsafe characters"@,
            )
            &&& name_fine && !holds_unsafe(username, rules) && username.len() > max ==> out
                == FormResultView::Error("Username"@ + " is too long"@)
            &&& user_fine && holds_unsafe(url, rules) ==> out == FormResultView::Error(
                "URL"@ + " contains unsafe characters"@,
            )
            &&& user_fine && !holds_unsafe(url, rules) && url.len() > max ==> out
                == FormResultView::Error("URL"@ + " is too long"@)
            &&& url_fine && holds_unsafe(realm, rules) ==> out == FormResultView::Error(
                "Realm"@ + " contains unsafe characters"@,
            )
            &&& url_fine && !holds_unsafe(realm, rules) && realm.len() > max ==> out
                == FormResultView::Error("Realm"@ + " is too long"@)
            &&& all_fine <==> out is Save
        }),
{
    law_unsafe_characters(rules, 'x', form.fields[0]);
    law_unsafe_characters(rules, 'x', form.fields[1]);
    law_unsafe_characters(rules, 'x', form.fields[3]);
    law_unsafe_characters(rules, 'x', form.fields[4]);
    assert(form.name_taken(entries) == is_name_of_another(form.fields[0], entries, form.editing));
}

/// A form on a new entry is empty, with the cursor in the first field.
pub proof fn law_new_form_is_empty()
    ensures
        form::new_form().editing is None,
        form::new_form().active == 0,
        form::new_form().cursor == 0,
        form::new_form().fields.len() == 5,
        forall|i: int|
            0 <= i < 5 ==> #[trigger] form::new_form().fields[i] == Seq::<char>::empty(),
        form::new_form().error is None,
{
}

/// A form on an entry of the list knows its place and holds its texts, with the
/// cursor behind the name.
pub proof fn law_opened_form_holds_the_entry(index: int, entry: EntryView)
    ensures
        ({
            let opened = form::form_on(index, entry);
            &&& opened.editing == Some(index)
            &&& opened.active == 0
            &&& opened.cursor == entry.name.len()
            &&& opened.fields.len() == 5
            &&& opened.fields[0] == entry.name
            &&& opened.fields[1] == entry.username
            &&& opened.fields[2] == entry.password
            &&& entry.url matches Some(url) ==> opened.fields[3] == url
            &&& entry.url is None ==> opened.fields[3] == Seq::<char>::empty()
            &&& entry.realm matches Some(realm) ==> opened.fields[4] == realm
            &&& entry.realm is None ==> opened.fields[4] == Seq::<char>::empty()
            &&& opened.error is None
        }),
{
}

/// Of a form that was overwritten, nothing is left but the error.
pub proof fn law_overwritten_form_is_empty(form: FormView)
    ensures
        form.zeroized().editing is None,
        form.zeroized().active == 0,
        form.zeroized().cursor == 0,
        form.zeroized().fields.len() == 5,
        forall|i: int|
            0 <= i < 5 ==> #[trigger] form.zeroized().fields[i] == Seq::<char>::empty(),
        form.zeroized().error == form.error,
{
}

/// The interface opens on all entries of the vault, in the order of their whole
/// names in lower case, those of equal ones as they stood, with the first selected
/// and nothing changed, said, copied or open.
pub proof fn law_vault_is_opened(entries: Seq<EntryView>, lower: Seq<char>)
    ensures
        ({
            let opened = app::opened(entries);
            &&& opened.entries.to_multiset() == entries.to_multiset()
            &&& forall|i: int, j: int|
                #![trigger opened.entries[i], opened.entries[j]]
                0 <= i < j < opened.entries.len() ==> text::lex_le(
                    text::lowercase_of(opened.entries[i].name),
                    text::lowercase_of(opened.entries[j].name),
                )
            &&& opened.entries.filter(|e: EntryView| text::lowercase_of(e.name) == lower)
                == entries.filter(|e: EntryView| text::lowercase_of(e.name) == lower)
            &&& opened.selected == 0
            &&& !opened.dirty
            &&& opened.mode == ModeView::Browse
            &&& opened.message is None
            &&& opened.copied_password is None
            &&& opened.exit == Exit::Running
            &&& !opened.copy_requested
        }),
{
    laws::law_sorting_is_stable(entries, lower);
}

/// The keys that move the selection change nothing else: one up or down as far as
/// the list goes, to its start, or to its end.
pub proof fn law_list_keys_move_the_selection(app: AppView, key: KeyEvent, rules: FieldRules)
    requires
        app.wf(),
        app.mode is Browse,
    ensures
        ({
            let after = app.after(key, rules);
            let len = app.entries.len();
            let up = key.code == KeyCode::Up || key.code == KeyCode::Char('k');
            let down = key.code == KeyCode::Down || key.code == KeyCode::Char('j');
            let home = key.code == KeyCode::Home;
            let end = key.code == KeyCode::End;
            &&& up && app.selected > 0 ==> after.selected == app.selected - 1
            &&& up && app.selected == 0 ==> after.selected == 0
            &&& down && app.selected + 1 < len ==> after.selected == app.selected + 1
            &&& down && app.selected + 1 >= len ==> after.selected == app.selected
            &&& home ==> after.selected == 0
            &&& end && len > 0 ==> after.selected == len - 1
            &&& end && len == 0 ==> after.selected == 0
            &&& up || down || home || end ==> after == (AppView {
                selected: after.selected,
                message: None,
                copy_requested: false,
                ..app
            })
        }),
{
}

/// From the list, `n` and Insert open an empty form, `e` and Enter one on the
/// selected entry with its texts in it, and `d` and Delete the question whether to
/// delete it. The last four do nothing where there is no entry. Nothing else
/// changes.
pub proof fn law_list_keys_open_what_they_name(app: AppView, key: KeyEvent, rules: FieldRules)
    requires
        app.wf(),
        app.mode is Browse,
    ensures
        ({
            let after = app.after(key, rules);
            let plain = AppView { message: None, copy_requested: false, ..app };
            let new = key.code == KeyCode::Char('n') || key.code == KeyCode::Insert;
            let edit = key.code == KeyCode::Char('e') || key.code == KeyCode::Enter;
            let delete = key.code == KeyCode::Char('d') || key.code == KeyCode::Delete;
            &&& new || edit || delete ==> after == (AppView { mode: after.mode, ..plain })
            &&& new ==> (after.mode matches ModeView::Edit(opened) && {
                &&& opened.editing is None
                &&& opened.active == 0 && opened.cursor == 0 && opened.fields.len() == 5
                &&& forall|i: int|
                    0 <= i < 5 ==> #[trigger] opened.fields[i] == Seq::<char>::empty()
                &&& opened.error is None
            })
            &&& edit && app.entries.len() > 0 ==> (after.mode matches ModeView::Edit(opened) && {
                let entry = app.entries[app.selected];
                &&& opened.editing == Some(app.selected)
                &&& opened.active == 0 && opened.fields.len() == 5
                &&& opened.cursor == entry.name.len()
                &&& opened.fields[0] == entry.name
                &&& opened.fields[1] == entry.username
                &&& opened.fields[2] == entry.password
                &&& entry.url matches Some(url) ==> opened.fields[3] == url
                &&& entry.url is None ==> opened.fields[3] == Seq::<char>::empty()
                &&& entry.realm matches Some(realm) ==> opened.fields[4] == realm
                &&& entry.realm is None ==> opened.fields[4] == Seq::<char>::empty()
                &&& opened.error is None
            })
            &&& delete && app.entries.len() > 0 ==> after.mode == ModeView::ConfirmDelete
            &&& (edit || delete) && app.entries.len() == 0 ==> after == plain
        }),
{
}

/// From the list, `q`, Esc and `c` with the control key leave the interface where
/// nothing has changed, and else open the question what to do with the changes.
/// Nothing else changes.
pub proof fn law_list_keys_leave(app: AppView, key: KeyEvent, rules: FieldRules)
    requires
        app.wf(),
        app.mode is Browse,
        key.code == KeyCode::Char('q') || key.code == KeyCode::Esc || (key.code == KeyCode::Char(
            'c',
        ) && key.modifiers.control),
    ensures
        app.dirty ==> app.after(key, rules) == (AppView {
            mode: ModeView::ConfirmExit,
            message: None,
            copy_requested: false,
            ..app
        }),
        !app.dirty ==> app.after(key, rules) == (AppView {
            exit: Exit::Clean,
            message: None,
            copy_requested: false,
            ..app
        }),
{
}

/// The keys that the list does not know do nothing, nor does `c` where there is no
/// entry.
pub proof fn law_other_keys_leave_the_list(app: AppView, key: KeyEvent, rules: FieldRules)
    requires
        app.wf(),
        app.mode is Browse,
        match key.code {
            KeyCode::Char('c') => !key.modifiers.control && app.entries.len() == 0,
            KeyCode::Char(c) => c != 'k' && c != 'j' && c != 'n' && c != 'e' && c != 'd' && c
                != 'q',
            KeyCode::Tab | KeyCode::BackTab | KeyCode::Backspace | KeyCode::Left | KeyCode::Right
            | KeyCode::Other => true,
            _ => false,
        },
    ensures
        app.after(key, rules) == (AppView { message: None, copy_requested: false, ..app }),
{
}

/// To the question whether to delete the selected entry, a yes takes that entry out
/// and leaves the others in their order, with the selection where it was or on the
/// last entry. A no or Esc goes back to the list, and any other key waits on.
pub proof fn law_answers_to_the_delete_question(app: AppView, key: KeyEvent, rules: FieldRules)
    requires
        app.wf(),
        app.mode is ConfirmDelete,
    ensures
        ({
            let after = app.after(key, rules);
            let yes = key.code == KeyCode::Char('y') || key.code == KeyCode::Char('Y');
            let no = key.code == KeyCode::Char('n') || key.code == KeyCode::Char('N') || key.code
                == KeyCode::Esc;
            let left = app.entries.take(app.selected) + app.entries.skip(app.selected + 1);
            &&& yes ==> after == (AppView {
                entries: left,
                selected: if app.selected < left.len() {
                    app.selected
                } else if left.len() > 0 {
                    left.len() - 1
                } else {
                    0
                },
                dirty: true,
                mode: ModeView::Browse,
                message: None,
                copy_requested: false,
                ..app
            })
            &&& no ==> after == (AppView {
                mode: ModeView::Browse,
                message: None,
                copy_requested: false,
                ..app
            })
            &&& !yes && !no ==> after == (AppView { message: None, copy_requested: false, ..app })
        }),
{
    assert(app.entries.remove(app.selected) =~= app.entries.take(app.selected) + app.entries.skip(
        app.selected + 1,
    ));
}

/// To the question what to do with the changes, `s` leaves to save them, `d` leaves
/// to give them up, Esc goes back to the list, and any other key waits on. No entry
/// changes.
pub proof fn law_answers_to_the_exit_question(app: AppView, key: KeyEvent, rules: FieldRules)
    requires
        app.wf(),
        app.mode is ConfirmExit,
    ensures
        ({
            let after = app.after(key, rules);
            let save = key.code == KeyCode::Char('s') || key.code == KeyCode::Char('S');
            let discard = key.code == KeyCode::Char('d') || key.code == KeyCode::Char('D');
            let plain = AppView { message: None, copy_requested: false, ..app };
            &&& save ==> after == (AppView { exit: Exit::Save, mode: ModeView::Browse, ..plain })
            &&& discard ==> after == (AppView {
                exit: Exit::Discard,
                mode: ModeView::Browse,
                ..plain
            })
            &&& key.code == KeyCode::Esc ==> after == (AppView { mode: ModeView::Browse, ..plain })
            &&& !save && !discard && key.code != KeyCode::Esc ==> after == plain
        }),
{
}

/// While a form is open, a key other than Enter and Esc goes to the form and changes
/// nothing else.
pub proof fn law_keys_go_to_the_open_form(
    app: AppView,
    form: FormView,
    key: KeyEvent,
    rules: FieldRules,
)
    requires
        app.wf(),
        app.mode == ModeView::Edit(form),
        key.code != KeyCode::Enter,
        key.code != KeyCode::Esc,
    ensures
        app.after(key, rules) == (AppView {
            mode: ModeView::Edit(form.after(key)),
            message: None,
            copy_requested: false,
            ..app
        }),
{
}

/// Enter on a form that is accepted stores its texts as an entry: as a new one, or
/// in the place of the one that was edited. All other entries stay, the list is in
/// the order of the whole names in lower case, those of equal ones as they stood,
/// and the first entry of that name is selected. The vault counts as changed, and
/// nothing else does.
pub proof fn law_sent_form_is_stored(
    app: AppView,
    form: FormView,
    key: KeyEvent,
    rules: FieldRules,
    lower: Seq<char>,
)
    requires
        app.wf(),
        app.mode == ModeView::Edit(form),
        key.code == KeyCode::Enter,
        form.submitted(app.entries, rules) is Save,
    ensures
        ({
            let after = app.after(key, rules);
            let entry = form.submitted(app.entries, rules)->Save_0;
            let stored = match form.editing {
                Some(index) => app.entries.update(index, entry),
                None => app.entries.push(entry),
            };
            &&& entry.name == form.fields[0]
            &&& entry.username == form.fields[1]
            &&& entry.password == form.fields[2]
            &&& form::or_empty(entry.url) == form.fields[3]
            &&& form::or_empty(entry.realm) == form.fields[4]
            &&& after.entries.to_multiset() == stored.to_multiset()
            &&& forall|i: int, j: int|
                #![trigger after.entries[i], after.entries[j]]
                0 <= i < j < after.entries.len() ==> text::lex_le(
                    text::lowercase_of(after.entries[i].name),
                    text::lowercase_of(after.entries[j].name),
                )
            &&& after.entries.filter(|e: EntryView| text::lowercase_of(e.name) == lower)
                == stored.filter(|e: EntryView| text::lowercase_of(e.name) == lower)
            &&& 0 <= after.selected < after.entries.len()
            &&& after.entries[after.selected].name == form.fields[0]
            &&& forall|j: int|
                0 <= j < after.selected ==> (#[trigger] after.entries[j]).name != form.fields[0]
            &&& after == (AppView {
                entries: after.entries,
                selected: after.selected,
                dirty: true,
                mode: ModeView::Browse,
                message: None,
                copy_requested: false,
                ..app
            })
        }),
{
    let entry = form.submitted(app.entries, rules)->Save_0;
    law_saved_entry_holds_the_fields(form, app.entries, rules, entry);
    laws::law_sorting_is_stable(app::with_saved(app.entries, form.editing, entry), lower);
    laws::law_saved_entry_is_selected(app, form.editing, entry);
    laws::law_position_is_first(app.after(key, rules).entries, entry.name);
}

/// Only the pressing of a key counts.
pub proof fn law_only_presses_count(app: AppView, event: KeyEvent, rules: FieldRules)
    ensures
        event.kind == KeyEventKind::Press ==> app.after_event(event, rules) == app.after(
            event,
            rules,
        ),
        event.kind != KeyEventKind::Press ==> app.after_event(event, rules) == app,
{
}

/// Once a password is on the clipboard, whatever was copied before, it is the one
/// that is remembered, and the user is told so. After a failure the one before is
/// remembered still, and the user is told why. Nothing else changes.
pub proof fn law_copying_is_remembered(
    app: AppView,
    password: Seq<char>,
    reason: Seq<char>,
)
    ensures
        app.copied(Ok(password)) == (AppView {
            copied_password: Some(password),
            message: Some("Password copied to clipboard"@),
            copy_requested: false,
            ..app
        }),
        app.copied(Err(reason)) == (AppView {
            message: Some("Clipboard error: "@ + reason),
            copy_requested: false,
            ..app
        }),
{
}

/// The last password that was put on the clipboard is the one that is remembered,
/// whatever keys and failures come after it.
pub proof fn law_last_copied_password_is_remembered(
    app: AppView,
    password: Seq<char>,
    steps: Seq<Step>,
    rules: FieldRules,
)
    requires
        forall|i: int|
            0 <= i < steps.len() ==> !((#[trigger] steps[i]) matches Step::Copied(outcome)
                && outcome is Ok),
    ensures
        laws::after_all(app.copied(Ok(password)), steps, rules).copied_password == Some(password),
{
    lemma_copied_password_stays(app.copied(Ok(password)), steps, rules);
}

proof fn lemma_copied_password_stays(app: AppView, steps: Seq<Step>, rules: FieldRules)
    requires
        forall|i: int|
            0 <= i < steps.len() ==> !((#[trigger] steps[i]) matches Step::Copied(outcome)
                && outcome is Ok),
    ensures
        laws::after_all(app, steps, rules).copied_password == app.copied_password,
    decreases steps.len(),
{
    if steps.len() > 0 && app.exit == Exit::Running {
        let first = steps[0];
        let rest = steps.drop_first();
        assert forall|i: int| 0 <= i < rest.len() implies !((
        #[trigger] rest[i]) matches Step::Copied(outcome) && outcome is Ok) by {
            assert(rest[i] == steps[i + 1]);
        }
        if let Step::Event(event) = first {
            laws::law_copying_is_asked_for(app, event, rules);
        }
        lemma_copied_password_stays(laws::after_step(app, first, rules), rest, rules);
    }
}

/// The views of entries, forms and the interface hold what stands in their fields.
pub proof fn law_views_hold_the_fields(entry: PasswordEntry, form: Form, app: App)
    ensures
        entry@.name == entry.name@,
        entry@.username == entry.username@,
        entry@.password == entry.password@,
        entry@.url == entry::text_view(entry.url),
        entry@.realm == entry::text_view(entry.realm),
        form@.fields == seq![form.name@, form.username@, form.password@, form.url@, form.realm@],
        form@.active == form.active,
        form@.cursor == form.cursor,
        form.editing matches Some(index) ==> form@.editing == Some(index as int),
        form.editing is None ==> form@.editing is None,
        form@.error == entry::text_view(form.error),
        app@.entries.len() == app.entries@.len(),
        forall|i: int|
            0 <= i < app.entries@.len() ==> #[trigger] app@.entries[i] == app.entries@[i]@,
        app@.selected == app.selected,
        app@.dirty == app.dirty,
        app@.mode == (match app.mode {
            Mode::Browse => ModeView::Browse,
            Mode::Edit(open) => ModeView::Edit(open@),
            Mode::ConfirmDelete => ModeView::ConfirmDelete,
            Mode::ConfirmExit => ModeView::ConfirmExit,
        }),
        app@.message == entry::text_view(app.message),
        app.copied_password matches Some(secret) ==> app@.copied_password == Some(secret@),
        app.copied_password is None ==> app@.copied_password is None,
        app@.exit == app.exit,
        app@.copy_requested == app.copy_requested,
{
}

/// The views of optional texts and of what becomes of a form hold what is in them.
pub proof fn law_views_of_results(value: String, entry: PasswordEntry)
    ensures
        entry::text_view(Some(value)) == Some(value@),
        entry::text_view(None) is None,
        form::or_empty(Some(value@)) == value@,
        form::or_empty(None) == Seq::<char>::empty(),
        FormResult::Save(entry)@ == FormResultView::Save(entry@),
        FormResult::Error(value)@ == FormResultView::Error(value@),
        FormResult::Cancel@ == FormResultView::Cancel,
        FormResult::Continue@ == FormResultView::Continue,
{
}

} // verus!
