//! The interface as a whole: the list, what is open in front of it, and what
//! each key does.

use vstd::prelude::*;

use crate::entry;
use crate::entry::{EntryView, PasswordEntry};
use crate::form;
use crate::form::{FieldRules, Form, FormResult, FormResultView, FormView};
use crate::key::{KeyCode, KeyEvent, KeyEventKind};
use crate::secret::Secret;

verus! {

/// Whether the interface is still open, and how it was left.
#[derive(Clone, Copy, Debug, PartialEq, Eq, Structural)]
pub enum Exit {
    /// It is open.
    Running,
    /// It was left with nothing to save.
    Clean,
    /// It was left, and the entries are to be saved.
    Save,
    /// It was left, and the changes are given up.
    Discard,
}

/// What is open in front of the list.
pub enum Mode {
    /// Nothing: the keys go to the list.
    Browse,
    /// A form.
    Edit(Form),
    /// The question whether to delete the selected entry.
    ConfirmDelete,
    /// The question what to do with unsaved changes.
    ConfirmExit,
}

/// The state of the interface.
pub struct App {
    /// The entries, in the order in which they are listed.
    pub entries: Vec<PasswordEntry>,
    /// The place of the selected entry, 0 where there is none.
    pub selected: usize,
    /// Whether the entries have changed.
    pub dirty: bool,
    /// What is open in front of the list.
    pub mode: Mode,
    /// What the last key came to, if that is to be told.
    pub message: Option<String>,
    /// The password that was copied last.
    pub copied_password: Option<Secret>,
    /// Whether the interface is still open.
    pub exit: Exit,
    /// Whether the last key asks for the selected password on the clipboard.
    pub copy_requested: bool,
    /// What the vault demands of the texts that it shows.
    pub rules: FieldRules,
}

/// What a `Mode` holds.
#[verifier::ext_equal]
pub enum ModeView {
    Browse,
    Edit(FormView),
    ConfirmDelete,
    ConfirmExit,
}

/// What an `App` holds, but for the rules, which never change.
#[verifier::ext_equal]
pub struct AppView {
    pub entries: Seq<EntryView>,
    pub selected: int,
    pub dirty: bool,
    pub mode: ModeView,
    pub message: Option<Seq<char>>,
    pub copied_password: Option<Seq<char>>,
    pub exit: Exit,
    pub copy_requested: bool,
}

impl View for Mode {
    type V = ModeView;

    open spec fn view(&self) -> ModeView {
        match *self {
            Mode::Browse => ModeView::Browse,
            Mode::Edit(form) => ModeView::Edit(form@),
            Mode::ConfirmDelete => ModeView::ConfirmDelete,
            Mode::ConfirmExit => ModeView::ConfirmExit,
        }
    }
}

impl View for App {
    type V = AppView;

    open spec fn view(&self) -> AppView {
        AppView {
            entries: entry::entry_views(self.entries@),
            selected: self.selected as int,
            dirty: self.dirty,
            mode: self.mode@,
            message: entry::text_view(self.message),
            copied_password: match self.copied_password {
                Some(secret) => Some(secret@),
                None => None,
            },
            exit: self.exit,
            copy_requested: self.copy_requested,
        }
    }
}

/// The interface as it opens on a vault.
pub open spec fn opened(entries: Seq<EntryView>) -> AppView {
    AppView {
        entries: entry::sorted_entries(entries),
        selected: 0,
        dirty: false,
        mode: ModeView::Browse,
        message: None,
        copied_password: None,
        exit: Exit::Running,
        copy_requested: false,
    }
}

/// A list with the entry of a form in it, before it is ordered again: in the
/// place of the one that was edited, or as a new one at the end.
pub open spec fn with_saved(
    entries: Seq<EntryView>,
    editing: Option<int>,
    entry: EntryView,
) -> Seq<EntryView> {
    match editing {
        Some(index) => entries.update(index, entry),
        None => entries.push(entry),
    }
}

impl AppView {
    /// The interface is in one of its states: the selection is an entry where
    /// there is one, an open form is on a new entry or on one of the list, and
    /// only an entry can be up for deletion or for copying.
    pub open spec fn wf(self) -> bool {
        &&& 0 <= self.selected
        &&& self.selected < self.entries.len() || self.selected == 0
        &&& match self.mode {
            ModeView::Browse => true,
            ModeView::Edit(form) => {
                &&& form.wf()
                &&& form.editing matches Some(index) ==> 0 <= index < self.entries.len()
            },
            ModeView::ConfirmDelete => self.entries.len() > 0,
            ModeView::ConfirmExit => true,
        }
        &&& self.copy_requested ==> self.entries.len() > 0
    }

    /// The interface with something else open in front of the list.
    pub open spec fn with_mode(self, mode: ModeView) -> AppView {
        AppView { mode, ..self }
    }

    /// The interface with another selection.
    pub open spec fn with_selected(self, selected: int) -> AppView {
        AppView { selected, ..self }
    }

    /// The interface after the wish to leave it: left where nothing has changed,
    /// and else with the question what to do with the changes.
    pub open spec fn leaving(self) -> AppView {
        if self.dirty {
            self.with_mode(ModeView::ConfirmExit)
        } else {
            AppView { exit: Exit::Clean, ..self }
        }
    }

    /// The list after a key.
    pub open spec fn browsed(self, key: KeyEvent) -> AppView {
        match key.code {
            KeyCode::Up | KeyCode::Char('k') => self.with_selected(
                vstd::math::max(self.selected - 1, 0),
            ),
            KeyCode::Down | KeyCode::Char('j') => if self.selected + 1 < self.entries.len() {
                self.with_selected(self.selected + 1)
            } else {
                self
            },
            KeyCode::Home => self.with_selected(0),
            KeyCode::End => self.with_selected(vstd::math::max(self.entries.len() - 1, 0)),
            KeyCode::Char('n') | KeyCode::Insert => self.with_mode(
                ModeView::Edit(form::new_form()),
            ),
            KeyCode::Char('e') | KeyCode::Enter => if self.entries.len() > 0 {
                self.with_mode(
                    ModeView::Edit(form::form_on(self.selected, self.entries[self.selected])),
                )
            } else {
                self
            },
            KeyCode::Char('d') | KeyCode::Delete => if self.entries.len() > 0 {
                self.with_mode(ModeView::ConfirmDelete)
            } else {
                self
            },
            KeyCode::Char('c') => if key.modifiers.control {
                self.leaving()
            } else if self.entries.len() > 0 {
                AppView { copy_requested: true, ..self }
            } else {
                self
            },
            KeyCode::Char('q') | KeyCode::Esc => self.leaving(),
            _ => self,
        }
    }

    /// The list without the selected entry.
    pub open spec fn deleted(self) -> AppView {
        let entries = self.entries.remove(self.selected);
        AppView {
            entries,
            selected: vstd::math::min(self.selected, vstd::math::max(entries.len() - 1, 0)),
            dirty: true,
            mode: ModeView::Browse,
            ..self
        }
    }

    /// The list with the entry of a form in it, ordered again, and with that entry
    /// selected.
    pub open spec fn saved(self, editing: Option<int>, entry: EntryView) -> AppView {
        let entries = entry::sorted_entries(with_saved(self.entries, editing, entry));
        let place = entry::position_of(entries, entry.name);
        AppView {
            entries,
            selected: if place < entries.len() {
                place
            } else {
                0
            },
            dirty: true,
            mode: ModeView::Browse,
            ..self
        }
    }

    /// The interface after a key that goes to a form.
    pub open spec fn edited(self, form: FormView, key: KeyEvent, rules: FieldRules) -> AppView {
        match form.result(key, self.entries, rules) {
            FormResultView::Continue => self.with_mode(ModeView::Edit(form.after(key))),
            FormResultView::Cancel => self.with_mode(ModeView::Browse),
            FormResultView::Save(entry) => self.saved(form.editing, entry),
            FormResultView::Error(message) => self.with_mode(
                ModeView::Edit((FormView { error: Some(message), ..form.after(key) })),
            ),
        }
    }

    /// The interface after a key.
    pub open spec fn after(self, key: KeyEvent, rules: FieldRules) -> AppView {
        let app = AppView { message: None, copy_requested: false, ..self };
        match self.mode {
            ModeView::Browse => app.browsed(key),
            ModeView::ConfirmDelete => match key.code {
                KeyCode::Char('y') | KeyCode::Char('Y') => app.deleted(),
                KeyCode::Esc | KeyCode::Char('n') | KeyCode::Char('N') => app.with_mode(
                    ModeView::Browse,
                ),
                _ => app,
            },
            ModeView::ConfirmExit => match key.code {
                KeyCode::Char('s') | KeyCode::Char('S') => AppView {
                    exit: Exit::Save,
                    mode: ModeView::Browse,
                    ..app
                },
                KeyCode::Char('d') | KeyCode::Char('D') => AppView {
                    exit: Exit::Discard,
                    mode: ModeView::Browse,
                    ..app
                },
                KeyCode::Esc => app.with_mode(ModeView::Browse),
                _ => app,
            },
            ModeView::Edit(form) => app.edited(form, key, rules),
        }
    }

    /// The interface after a key event: of those, only the pressing of a key does
    /// anything.
    pub open spec fn after_event(self, event: KeyEvent, rules: FieldRules) -> AppView {
        if event.kind == KeyEventKind::Press {
            self.after(event, rules)
        } else {
            self
        }
    }

    /// The interface after the attempt to put the password on the clipboard.
    pub open spec fn copied(self, outcome: Result<Seq<char>, Seq<char>>) -> AppView {
        match outcome {
            Ok(password) => AppView {
                copied_password: Some(password),
                message: Some("Password copied to clipboard"@),
                copy_requested: false,
                ..self
            },
            Err(error) => AppView {
                message: Some("Clipboard error: "@ + error),
                copy_requested: false,
                ..self
            },
        }
    }
}

/// Every key leads from a state of the interface to a state of it.
pub proof fn lemma_after_wf(app: AppView, key: KeyEvent, rules: FieldRules)
    requires
        app.wf(),
    ensures
        app.after(key, rules).wf(),
{
    if let ModeView::Edit(form) = app.mode {
        if let FormResultView::Save(entry) = form.result(key, app.entries, rules) {
            let entries = with_saved(app.entries, form.editing, entry);
            entry::lemma_sorted_len(entries);
            entry::lemma_position_range(entry::sorted_entries(entries), entry.name);
        }
    }
}

impl App {
    /// The interface as it opens on a vault.
    pub fn new(entries: Vec<PasswordEntry>, rules: FieldRules) -> (app: Self)
        ensures
            app@ == opened(entry::entry_views(entries@)),
            app@.wf(),
            app.rules == rules,
    {
        let mut entries = entries;
        entry::sort_entries(&mut entries);
        App {
            entries,
            selected: 0,
            dirty: false,
            mode: Mode::Browse,
            message: None,
            copied_password: None,
            exit: Exit::Running,
            copy_requested: false,
            rules,
        }
    }

    /// Takes a key that goes to the list.
    pub fn handle_browse(&mut self, key: KeyEvent)
        requires
            old(self)@.wf(),
        ensures
            final(self)@ == old(self)@.browsed(key),
            final(self)@.wf(),
            final(self).rules == old(self).rules,
    {
        match key.code {
            KeyCode::Up | KeyCode::Char('k') => {
                self.selected = self.selected.saturating_sub(1);
            },
            KeyCode::Down | KeyCode::Char('j') => {
                if self.entries.len() > 0 && self.selected < self.entries.len() - 1 {
                    self.selected = self.selected + 1;
                }
            },
            KeyCode::Home => {
                self.selected = 0;
            },
            KeyCode::End => {
                self.selected = self.entries.len().saturating_sub(1);
            },
            KeyCode::Char('n') | KeyCode::Insert => {
                self.mode = Mode::Edit(Form::new());
            },
            KeyCode::Char('e') | KeyCode::Enter => {
                if !self.entries.is_empty() {
                    self.mode = Mode::Edit(
                        Form::edit(self.selected, &self.entries[self.selected]),
                    );
                }
            },
            KeyCode::Char('d') | KeyCode::Delete => {
                if !self.entries.is_empty() {
                    self.mode = Mode::ConfirmDelete;
                }
            },
            KeyCode::Char('c') => {
                if key.modifiers.control {
                    self.leave();
                } else if !self.entries.is_empty() {
                    self.copy_requested = true;
                }
            },
            KeyCode::Char('q') | KeyCode::Esc => {
                self.leave();
            },
            _ => {},
        }
    }

    /// Takes a key and says whether the interface was left.
    pub fn handle_key(&mut self, key: KeyEvent) -> (left: bool)
        requires
            old(self)@.wf(),
        ensures
            final(self)@ == old(self)@.after(key, old(self).rules),
            final(self)@.wf(),
            final(self).rules == old(self).rules,
            left == (final(self)@.exit != Exit::Running),
    {
        proof {
            lemma_after_wf(old(self)@, key, old(self).rules);
        }
        self.message = None;
        self.copy_requested = false;
        let mut mode = Mode::Browse;
        core::mem::swap(&mut mode, &mut self.mode);
        match mode {
            Mode::Browse => self.handle_browse(key),
            Mode::ConfirmDelete => match key.code {
                KeyCode::Char('y') | KeyCode::Char('Y') => {
                    self.delete_selected();
                },
                KeyCode::Esc | KeyCode::Char('n') | KeyCode::Char('N') => {},
                _ => {
                    self.mode = Mode::ConfirmDelete;
                },
            },
            Mode::ConfirmExit => match key.code {
                KeyCode::Char('s') | KeyCode::Char('S') => {
                    self.exit = Exit::Save;
                },
                KeyCode::Char('d') | KeyCode::Char('D') => {
                    self.exit = Exit::Discard;
                },
                KeyCode::Esc => {},
                _ => {
                    self.mode = Mode::ConfirmExit;
                },
            },
            Mode::Edit(mut form) => {
                let editing = form.editing;
                match form.handle_key(key, self.entries.as_slice(), &self.rules) {
                    FormResult::Continue => {
                        self.mode = Mode::Edit(form);
                    },
                    FormResult::Cancel => {},
                    FormResult::Save(entry) => {
                        self.save_entry(editing, entry);
                    },
                    FormResult::Error(message) => {
                        form.error = Some(message);
                        self.mode = Mode::Edit(form);
                    },
                }
            },
        }
        self.exit != Exit::Running
    }

    /// Takes a key event: of those, only the pressing of a key does anything.
    pub fn handle_event(&mut self, event: KeyEvent) -> (left: bool)
        requires
            old(self)@.wf(),
        ensures
            final(self)@ == old(self)@.after_event(event, old(self).rules),
            final(self)@.wf(),
            final(self).rules == old(self).rules,
            left == (event.kind == KeyEventKind::Press && final(self)@.exit != Exit::Running),
    {
        event.kind == KeyEventKind::Press && self.handle_key(event)
    }

    /// Takes the selected entry out of the list.
    fn delete_selected(&mut self)
        requires
            old(self)@.selected < old(self)@.entries.len(),
            old(self)@.mode == ModeView::Browse,
        ensures
            final(self)@ == old(self)@.deleted(),
            final(self).rules == old(self).rules,
    {
        self.entries.remove(self.selected);
        let last = self.entries.len().saturating_sub(1);
        if last < self.selected {
            self.selected = last;
        }
        self.dirty = true;
        assert(entry::entry_views(self.entries@) =~= old(self)@.entries.remove(
            old(self)@.selected,
        ));
    }

    /// Puts the entry of a form into the list.
    fn save_entry(&mut self, editing: Option<usize>, entry: PasswordEntry)
        requires
            editing matches Some(index) ==> index < old(self)@.entries.len(),
            old(self)@.mode == ModeView::Browse,
        ensures
            final(self)@ == old(self)@.saved(
                match editing {
                    Some(index) => Some(index as int),
                    None => None,
                },
                entry@,
            ),
            final(self).rules == old(self).rules,
    {
        let name = entry.name.clone();
        match editing {
            Some(index) => {
                self.entries.set(index, entry);
                assert(entry::entry_views(self.entries@) =~= old(self)@.entries.update(
                    index as int,
                    entry@,
                ));
            },
            None => {
                self.entries.push(entry);
                assert(entry::entry_views(self.entries@) =~= old(self)@.entries.push(entry@));
            },
        }
        entry::sort_entries(&mut self.entries);
        self.selected = match entry::find_entry(self.entries.as_slice(), &name) {
            Some(place) => place,
            None => 0,
        };
        self.dirty = true;
    }

    /// The password that the last key asks for on the clipboard, if it does.
    pub fn copy_request(&self) -> (password: Option<&str>)
        requires
            self@.wf(),
        ensures
            match password {
                Some(text) => self@.copy_requested && text@
                    == self@.entries[self@.selected].password,
                None => !self@.copy_requested,
            },
    {
        if self.copy_requested {
            Some(self.entries[self.selected].password.expose())
        } else {
            None
        }
    }

    /// Takes note of the attempt to put the password on the clipboard: the
    /// password that is there now, or why it is not.
    pub fn finish_copy(&mut self, outcome: Result<Secret, String>)
        ensures
            final(self)@ == old(self)@.copied(
                match outcome {
                    Ok(secret) => Ok(secret@),
                    Err(error) => Err(error@),
                },
            ),
            old(self)@.wf() ==> final(self)@.wf(),
            final(self).rules == old(self).rules,
    {
        self.copy_requested = false;
        match outcome {
            Ok(secret) => {
                self.copied_password = Some(secret);
                self.message = Some("Password copied to clipboard".to_string());
            },
            Err(error) => {
                self.message = Some("Clipboard error: ".to_string().concat(error.as_str()));
            },
        }
    }

    /// Leaves the interface, or asks what to do with changes.
    fn leave(&mut self)
        ensures
            final(self)@ == old(self)@.leaving(),
            final(self).rules == old(self).rules,
    {
        if self.dirty {
            self.mode = Mode::ConfirmExit;
        } else {
            self.exit = Exit::Clean;
        }
    }
}

} // verus!
