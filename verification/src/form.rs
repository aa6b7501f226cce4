//! The form in which an entry is written.

use vstd::prelude::*;

use crate::entry;
use crate::entry::{EntryView, PasswordEntry};
use crate::key::{KeyCode, KeyEvent};
use crate::secret;
use crate::secret::Secret;
use crate::text;

verus! {

/// What a vault demands of the texts that it shows.
pub struct FieldRules {
    /// The largest number of characters that a text may have.
    pub max_name_len: usize,
    /// The characters that can make a text look like another one.
    pub spoofing: Vec<char>,
}

impl FieldRules {
    /// Whether no text that is shown may hold the character.
    pub open spec fn is_unsafe(self, c: char) -> bool {
        text::is_control(c) || self.spoofing@.contains(c)
    }

    /// Whether the text holds a character that none may hold.
    pub open spec fn has_unsafe(self, value: Seq<char>) -> bool {
        exists|i: int| 0 <= i < value.len() && self.is_unsafe(#[trigger] value[i])
    }

    /// Whether no text that is shown may hold the character.
    pub fn rejects(&self, c: char) -> (rejected: bool)
        ensures
            rejected == self.is_unsafe(c),
    {
        if c.is_control() {
            return true;
        }
        let mut i: usize = 0;
        while i < self.spoofing.len()
            invariant
                i <= self.spoofing@.len(),
                forall|j: int| 0 <= j < i ==> self.spoofing@[j] != c,
            decreases self.spoofing@.len() - i,
        {
            if self.spoofing[i] == c {
                return true;
            }
            i = i + 1;
        }
        false
    }

    /// Whether the text holds a character that none may hold.
    pub fn rejects_text(&self, value: &str) -> (rejected: bool)
        ensures
            rejected == self.has_unsafe(value@),
    {
        for c in it: value.chars()
            invariant
                it.seq() == value@,
                forall|j: int| 0 <= j < it.index() ==> !self.is_unsafe(#[trigger] value@[j]),
        {
            if self.rejects(c) {
                assert(self.is_unsafe(value@[it.index()]));
                return true;
            }
        }
        false
    }
}

/// A form, open on a new entry or on one of the list. What is in it is
/// overwritten before its memory is given back.
pub struct Form {
    /// The place in the list of the entry that is edited, or `None` for a new one.
    pub editing: Option<usize>,
    /// The field that takes the keys: 0 name, 1 user name, 2 password, 3 URL,
    /// 4 realm.
    pub active: usize,
    /// How many characters of that field stand before the cursor.
    pub cursor: usize,
    pub name: String,
    pub username: String,
    pub password: String,
    pub url: String,
    pub realm: String,
    /// What was wrong when the form was last sent off.
    pub error: Option<String>,
}

/// What a form holds.
#[verifier::ext_equal]
pub struct FormView {
    pub editing: Option<int>,
    pub active: int,
    pub cursor: int,
    /// Name, user name, password, URL and realm.
    pub fields: Seq<Seq<char>>,
    pub error: Option<Seq<char>>,
}

/// What became of a key that the form took.
pub enum FormResult {
    /// The form stays open.
    Continue,
    /// The form is given up.
    Cancel,
    /// The form is done, and this is its entry.
    Save(PasswordEntry),
    /// The form cannot be sent off as it is, for the reason given.
    Error(String),
}

/// What a `FormResult` says.
#[verifier::ext_equal]
pub enum FormResultView {
    Continue,
    Cancel,
    Save(EntryView),
    Error(Seq<char>),
}

impl View for FormResult {
    type V = FormResultView;

    open spec fn view(&self) -> FormResultView {
        match *self {
            FormResult::Continue => FormResultView::Continue,
            FormResult::Cancel => FormResultView::Cancel,
            FormResult::Save(entry) => FormResultView::Save(entry@),
            FormResult::Error(message) => FormResultView::Error(message@),
        }
    }
}

impl View for Form {
    type V = FormView;

    open spec fn view(&self) -> FormView {
        FormView {
            editing: match self.editing {
                Some(index) => Some(index as int),
                None => None,
            },
            active: self.active as int,
            cursor: self.cursor as int,
            fields: seq![self.name@, self.username@, self.password@, self.url@, self.realm@],
            error: entry::text_view(self.error),
        }
    }
}

impl FormView {
    /// The form is in one of its states: one of its five fields is active, and
    /// the cursor stands in the text of that field or at its end.
    pub open spec fn wf(self) -> bool {
        &&& self.fields.len() == 5
        &&& 0 <= self.active < 5
        &&& 0 <= self.cursor <= self.text().len()
    }

    /// The text of the active field.
    pub open spec fn text(self) -> Seq<char> {
        self.fields[self.active]
    }

    /// The form with another text in the active field and another cursor.
    pub open spec fn with_text(self, value: Seq<char>, cursor: int) -> FormView {
        FormView { fields: self.fields.update(self.active, value), cursor, ..self }
    }

    /// The form with the cursor elsewhere.
    pub open spec fn with_cursor(self, cursor: int) -> FormView {
        FormView { cursor, ..self }
    }

    /// The form `delta` fields further on, in a ring, with the cursor at the end
    /// of that field.
    pub open spec fn moved(self, delta: int) -> FormView {
        let active = (self.active + delta) % 5;
        FormView { active, cursor: self.fields[active].len() as int, ..self }
    }

    /// The form with `c` typed at the cursor.
    pub open spec fn typed(self, c: char) -> FormView {
        self.with_text(self.text().insert(self.cursor, c), self.cursor + 1)
    }

    /// The form without the character before the cursor, if there is one.
    pub open spec fn erased_before(self) -> FormView {
        if self.cursor > 0 {
            self.with_text(self.text().remove(self.cursor - 1), self.cursor - 1)
        } else {
            self
        }
    }

    /// The form without the character behind the cursor, if there is one.
    pub open spec fn erased_behind(self) -> FormView {
        if self.cursor < self.text().len() {
            self.with_text(self.text().remove(self.cursor), self.cursor)
        } else {
            self
        }
    }

    /// The entry that the form describes: an empty URL or realm is none.
    pub open spec fn entry(self) -> EntryView {
        EntryView {
            name: self.fields[0],
            username: self.fields[1],
            password: self.fields[2],
            url: optional(self.fields[3]),
            realm: optional(self.fields[4]),
        }
    }

    /// Whether an entry other than the one that is edited has the name.
    pub open spec fn name_taken(self, entries: Seq<EntryView>) -> bool {
        exists|i: int|
            0 <= i < entries.len() && self.editing != Some(i) && (#[trigger] entries[i]).name
                == self.fields[0]
    }

    /// What sending the form off comes to: the first of the demands that it does
    /// not meet, or else its entry.
    pub open spec fn submitted(self, entries: Seq<EntryView>, rules: FieldRules) -> FormResultView {
        if self.fields[0].len() == 0 {
            FormResultView::Error("Name must not be empty"@)
        } else if self.fields[2].len() == 0 {
            FormResultView::Error("Password must not be empty"@)
        } else if self.fields[4].len() > 0 && self.fields[3].len() == 0 {
            FormResultView::Error("A realm requires a URL"@)
        } else if self.name_taken(entries) {
            FormResultView::Error("An entry with that name already exists"@)
        } else if field_problem("Name"@, self.fields[0], rules) is Some {
            FormResultView::Error(field_problem("Name"@, self.fields[0], rules)->0)
        } else if field_problem("Username"@, self.fields[1], rules) is Some {
            FormResultView::Error(field_problem("Username"@, self.fields[1], rules)->0)
        } else if field_problem("URL"@, self.fields[3], rules) is Some {
            FormResultView::Error(field_problem("URL"@, self.fields[3], rules)->0)
        } else if field_problem("Realm"@, self.fields[4], rules) is Some {
            FormResultView::Error(field_problem("Realm"@, self.fields[4], rules)->0)
        } else {
            FormResultView::Save(self.entry())
        }
    }

    /// The form after a key, whatever becomes of it.
    pub open spec fn after(self, key: KeyEvent) -> FormView {
        let form = FormView { error: None, ..self };
        match key.code {
            KeyCode::Tab | KeyCode::Down => form.moved(1),
            KeyCode::BackTab | KeyCode::Up => form.moved(4),
            KeyCode::Left => form.with_cursor(vstd::math::max(form.cursor - 1, 0)),
            KeyCode::Right => form.with_cursor(
                vstd::math::min(form.cursor + 1, form.text().len() as int),
            ),
            KeyCode::Home => form.with_cursor(0),
            KeyCode::End => form.with_cursor(form.text().len() as int),
            KeyCode::Backspace => form.erased_before(),
            KeyCode::Delete => form.erased_behind(),
            KeyCode::Char(c) => if key.modifiers.control {
                form
            } else {
                form.typed(c)
            },
            _ => form,
        }
    }

    /// What becomes of the form after a key.
    pub open spec fn result(
        self,
        key: KeyEvent,
        entries: Seq<EntryView>,
        rules: FieldRules,
    ) -> FormResultView {
        match key.code {
            KeyCode::Esc => FormResultView::Cancel,
            KeyCode::Enter => self.submitted(entries, rules),
            _ => FormResultView::Continue,
        }
    }

    /// The form with everything but the error overwritten.
    pub open spec fn zeroized(self) -> FormView {
        FormView {
            editing: None,
            active: 0,
            cursor: 0,
            fields: Seq::new(5, |i: int| Seq::<char>::empty()),
            error: self.error,
        }
    }
}

/// A text that counts as none where it is empty.
pub open spec fn optional(value: Seq<char>) -> Option<Seq<char>> {
    if value.len() == 0 {
        None
    } else {
        Some(value)
    }
}

/// What keeps a text out of the vault, if anything does.
pub open spec fn field_problem(label: Seq<char>, value: Seq<char>, rules: FieldRules) -> Option<
    Seq<char>,
> {
    if rules.has_unsafe(value) {
        Some(label + " contains unsafe characters"@)
    } else if value.len() > rules.max_name_len {
        Some(label + " is too long"@)
    } else {
        None
    }
}

fn check_field(label: &str, value: &str, rules: &FieldRules) -> (problem: Option<String>)
    ensures
        entry::text_view(problem) == field_problem(label@, value@, *rules),
{
    if rules.rejects_text(value) {
        return Some(label.to_string().concat(" contains unsafe characters"));
    }
    if value.unicode_len() > rules.max_name_len {
        return Some(label.to_string().concat(" is too long"));
    }
    None
}

fn optional_text(value: &String) -> (inner: Option<String>)
    ensures
        entry::text_view(inner) == optional(value@),
{
    if value.as_str().is_empty() {
        None
    } else {
        Some(value.clone())
    }
}

fn text_or_empty(value: &Option<String>) -> (inner: String)
    ensures
        inner@ == or_empty(entry::text_view(*value)),
{
    match value {
        Some(inner) => inner.clone(),
        None => String::new(),
    }
}

/// The form that opens on an entry of the list.
pub open spec fn form_on(index: int, entry: EntryView) -> FormView {
    FormView {
        editing: Some(index),
        active: 0,
        cursor: entry.name.len() as int,
        fields: seq![
            entry.name,
            entry.username,
            entry.password,
            or_empty(entry.url),
            or_empty(entry.realm),
        ],
        error: None,
    }
}

/// A text, the empty one where there is none.
pub open spec fn or_empty(value: Option<Seq<char>>) -> Seq<char> {
    match value {
        Some(chars) => chars,
        None => Seq::empty(),
    }
}

/// The form that opens on a new entry.
pub open spec fn new_form() -> FormView {
    FormView {
        editing: None,
        active: 0,
        cursor: 0,
        fields: Seq::new(5, |i: int| Seq::<char>::empty()),
        error: None,
    }
}

impl Form {
    /// The form for a new entry.
    pub fn new() -> (form: Self)
        ensures
            form@ == new_form(),
            form@.wf(),
    {
        Form {
            editing: None,
            active: 0,
            cursor: 0,
            name: String::new(),
            username: String::new(),
            password: String::with_capacity(64),
            url: String::new(),
            realm: String::new(),
            error: None,
        }
    }

    /// The form for an entry of the list, with the cursor behind its name.
    pub fn edit(index: usize, entry: &PasswordEntry) -> (form: Self)
        ensures
            form@ == form_on(index as int, entry@),
            form@.wf(),
    {
        let password = if entry.password.expose().len() > 64 {
            entry.password.expose().to_string()
        } else {
            let mut password = String::with_capacity(64);
            password.append(entry.password.expose());
            password
        };
        Form {
            editing: Some(index),
            active: 0,
            cursor: entry.name.as_str().unicode_len(),
            name: entry.name.clone(),
            username: entry.username.clone(),
            password,
            url: text_or_empty(&entry.url),
            realm: text_or_empty(&entry.realm),
            error: None,
        }
    }

    /// The texts of the five fields.
    pub fn fields(&self) -> (fields: [&str; 5])
        ensures
            forall|i: int| 0 <= i < 5 ==> (#[trigger] fields@[i])@ == self@.fields[i],
    {
        [
            self.name.as_str(),
            self.username.as_str(),
            self.password.as_str(),
            self.url.as_str(),
            self.realm.as_str(),
        ]
    }

    /// The text of the active field, to be changed. A number past the last field
    /// stands for the last one.
    pub fn active_mut(&mut self) -> (field: &mut String)
        ensures
            field@ == old(self)@.fields[vstd::math::min(old(self)@.active, 4)],
            final(self)@ == (FormView {
                fields: old(self)@.fields.update(
                    vstd::math::min(old(self)@.active, 4),
                    final(field)@,
                ),
                ..old(self)@
            }),
            final(self).editing == old(self).editing,
            final(self).error == old(self).error,
    {
        match self.active {
            0 => &mut self.name,
            1 => &mut self.username,
            2 => &mut self.password,
            3 => &mut self.url,
            _ => &mut self.realm,
        }
    }

    /// The text of the active field.
    pub fn active_value(&self) -> (value: &str)
        requires
            self.active < 5,
        ensures
            value@ == self@.text(),
    {
        self.fields()[self.active]
    }

    /// Goes `delta` fields on, in a ring, and to the end of that field.
    pub fn move_field(&mut self, delta: usize)
        requires
            old(self).active + delta <= usize::MAX,
        ensures
            final(self)@ == old(self)@.moved(delta as int),
    {
        self.active = (self.active + delta) % 5;
        self.cursor = self.active_value().unicode_len();
    }

    /// The byte at which the character with the given number starts, or the
    /// length of the text in bytes where it has no such character.
    pub fn byte_at(value: &str, char_index: usize) -> (index: usize)
        ensures
            index == text::byte_offset(
                value@,
                vstd::math::min(char_index as int, value@.len() as int),
            ),
    {
        let len = value.unicode_len();
        if char_index < len {
            assert(value@.subrange(0, char_index as int) =~= value@.take(char_index as int));
            value.substring_char(0, char_index).as_bytes().len()
        } else {
            assert(value@.take(len as int) =~= value@);
            value.as_bytes().len()
        }
    }

    /// Whether an entry other than the one that is edited has the name.
    fn has_taken_name(&self, entries: &[PasswordEntry]) -> (taken: bool)
        ensures
            taken == self@.name_taken(entry::entry_views(entries@)),
    {
        let ghost views = entry::entry_views(entries@);
        let mut i: usize = 0;
        while i < entries.len()
            invariant
                i <= entries@.len(),
                views == entry::entry_views(entries@),
                forall|j: int|
                    0 <= j < i ==> !(self@.editing != Some(j) && (#[trigger] views[j]).name
                        == self@.fields[0]),
            decreases entries@.len() - i,
        {
            let edited = match self.editing {
                Some(index) => index == i,
                None => false,
            };
            if !edited && entries[i].name.eq(&self.name) {
                assert(views[i as int].name == self@.fields[0]);
                return true;
            }
            i = i + 1;
        }
        false
    }

    /// Sends the form off: names the first demand that it does not meet, or
    /// gives its entry.
    pub fn submit(&self, entries: &[PasswordEntry], rules: &FieldRules) -> (result: FormResult)
        ensures
            result@ == self@.submitted(entry::entry_views(entries@), *rules),
    {
        if self.name.as_str().is_empty() {
            return FormResult::Error("Name must not be empty".to_string());
        }
        if self.password.as_str().is_empty() {
            return FormResult::Error("Password must not be empty".to_string());
        }
        if !self.realm.as_str().is_empty() && self.url.as_str().is_empty() {
            return FormResult::Error("A realm requires a URL".to_string());
        }
        if self.has_taken_name(entries) {
            return FormResult::Error("An entry with that name already exists".to_string());
        }
        if let Some(problem) = check_field("Name", self.name.as_str(), rules) {
            return FormResult::Error(problem);
        }
        if let Some(problem) = check_field("Username", self.username.as_str(), rules) {
            return FormResult::Error(problem);
        }
        if let Some(problem) = check_field("URL", self.url.as_str(), rules) {
            return FormResult::Error(problem);
        }
        if let Some(problem) = check_field("Realm", self.realm.as_str(), rules) {
            return FormResult::Error(problem);
        }
        FormResult::Save(
            PasswordEntry {
                name: self.name.clone(),
                username: self.username.clone(),
                password: Secret::new(self.password.clone()),
                url: optional_text(&self.url),
                realm: optional_text(&self.realm),
            },
        )
    }

    /// Takes a key: moves the cursor, changes the text, or sends the form off.
    pub fn handle_key(
        &mut self,
        key: KeyEvent,
        entries: &[PasswordEntry],
        rules: &FieldRules,
    ) -> (result: FormResult)
        requires
            old(self)@.wf(),
        ensures
            final(self)@ == old(self)@.after(key),
            final(self)@.wf(),
            result@ == old(self)@.result(key, entry::entry_views(entries@), *rules),
    {
        self.error = None;
        match key.code {
            KeyCode::Esc => {
                return FormResult::Cancel;
            },
            KeyCode::Enter => {
                return self.submit(entries, rules);
            },
            KeyCode::Tab | KeyCode::Down => self.move_field(1),
            KeyCode::BackTab | KeyCode::Up => self.move_field(4),
            KeyCode::Left => {
                self.cursor = self.cursor.saturating_sub(1);
            },
            KeyCode::Right => {
                let len = self.active_value().unicode_len();
                if self.cursor < len {
                    self.cursor = self.cursor + 1;
                }
            },
            KeyCode::Home => {
                self.cursor = 0;
            },
            KeyCode::End => {
                self.cursor = self.active_value().unicode_len();
            },
            KeyCode::Backspace => {
                if self.cursor > 0 {
                    self.erase(self.cursor - 1);
                    self.cursor = self.cursor - 1;
                }
            },
            KeyCode::Delete => {
                if self.cursor < self.active_value().unicode_len() {
                    self.erase(self.cursor);
                }
            },
            KeyCode::Char(c) => {
                if !key.modifiers.control {
                    let index = Self::byte_at(self.active_value(), self.cursor);
                    self.active_mut().insert(index, c);
                    self.cursor = self.cursor + 1;
                }
            },
            _ => {},
        }
        FormResult::Continue
    }

    /// Takes the character with the given number out of the active field.
    fn erase(&mut self, place: usize)
        requires
            old(self)@.wf(),
            place < old(self)@.text().len(),
            place < usize::MAX,
        ensures
            final(self)@ == old(self)@.with_text(
                old(self)@.text().remove(place as int),
                old(self)@.cursor,
            ),
    {
        let start = Self::byte_at(self.active_value(), place);
        let end = Self::byte_at(self.active_value(), place + 1);
        text::remove_range(self.active_mut(), start, end);
        proof {
            let old_text = old(self)@.text();
            assert(old_text.take(place as int) + old_text.skip(place + 1) =~= old_text.remove(
                place as int,
            ));
        }
    }

    /// Overwrites everything in the form but the error.
    pub fn zeroize(&mut self)
        ensures
            final(self)@ == old(self)@.zeroized(),
        opens_invariants none
        no_unwind
    {
        self.editing = None;
        self.active = 0;
        self.cursor = 0;
        secret::zeroize_text(&mut self.name);
        secret::zeroize_text(&mut self.username);
        secret::zeroize_text(&mut self.password);
        secret::zeroize_text(&mut self.url);
        secret::zeroize_text(&mut self.realm);
    }
}

impl Drop for Form {
    fn drop(&mut self)
        ensures
            final(self)@ == old(self)@.zeroized(),
        opens_invariants none
        no_unwind
    {
        self.zeroize();
    }
}

} // verus!
