//! The logic of a terminal interface to a password vault: the list of entries,
//! the form that edits one of them, what each key does, when the vault is to be
//! saved, and what the screen shows.
//!
//! Reading keys, drawing, the clipboard and the vault itself are left to the
//! program around it.

pub mod app;
pub mod draw;
pub mod effects;
pub mod entry;
pub mod form;
pub mod key;
pub mod laws;
pub mod layout;
pub mod save;
pub mod secret;
pub mod shown;
pub mod text;

pub use app::{App, Exit, Mode};
pub use entry::PasswordEntry;
pub use form::{FieldRules, Form, FormResult};
pub use key::{KeyCode, KeyEvent, KeyEventKind, KeyModifiers};
pub use secret::Secret;
