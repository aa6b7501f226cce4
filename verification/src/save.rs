//! What follows when the interface is left: whether the vault is saved, and what
//! happens when that fails.

use vstd::prelude::*;

use crate::app::{App, Exit};
use crate::text;

verus! {

/// What is to be done once the interface is left.
#[derive(Clone, Debug, PartialEq, Eq)]
pub enum Ending {
    /// The vault is to be saved.
    Save,
    /// The user is to be told this.
    Tell(String),
    /// Nothing.
    Nothing,
}

/// What an `Ending` holds.
#[verifier::ext_equal]
pub enum EndingView {
    Save,
    Tell(Seq<char>),
    Nothing,
}

impl View for Ending {
    type V = EndingView;

    open spec fn view(&self) -> EndingView {
        match *self {
            Ending::Save => EndingView::Save,
            Ending::Tell(message) => EndingView::Tell(message@),
            Ending::Nothing => EndingView::Nothing,
        }
    }
}

/// What is to be done once the interface is left in that way.
pub open spec fn ending_of(exit: Exit) -> EndingView {
    match exit {
        Exit::Save => EndingView::Save,
        Exit::Discard => EndingView::Tell("Changes discarded."@),
        _ => EndingView::Nothing,
    }
}

/// What is to be done once the interface is left in that way.
pub fn ending(exit: Exit) -> (ending: Ending)
    requires
        exit != Exit::Running,
    ensures
        ending@ == ending_of(exit),
{
    match exit {
        Exit::Save => Ending::Save,
        Exit::Discard => Ending::Tell("Changes discarded.".to_string()),
        _ => Ending::Nothing,
    }
}

/// What is to be done once the interface is left, in this order.
#[derive(Clone, Debug, PartialEq, Eq)]
pub struct Closing {
    /// What comes first.
    pub ending: Ending,
    /// Whether, whatever came of that, the clipboard is to be cleared of the
    /// copied password.
    pub clear_after: bool,
}

impl App {
    /// What is to be done once the interface is left.
    pub fn closing(&self) -> (closing: Closing)
        requires
            self@.exit != Exit::Running,
        ensures
            closing.ending@ == ending_of(self@.exit),
            closing.clear_after == (self@.copied_password is Some),
    {
        Closing { ending: ending(self.exit), clear_after: self.copied_password.is_some() }
    }
}

/// What happened while the vault was being saved.
#[derive(Clone, Debug, PartialEq, Eq)]
pub enum SaveEvent {
    /// The user chose to save it.
    Chosen,
    /// It was saved.
    Stored,
    /// It could not be saved, for the reason given.
    Failed(String),
    /// The user gave this answer to the question whether to try again.
    Answer(String),
}

/// What is to be done next to save the vault.
#[derive(Clone, Debug, PartialEq, Eq)]
pub enum SaveAction {
    /// Try to save it.
    Store,
    /// Tell the user what went wrong, and ask whether to try again.
    Ask(String),
    /// Tell the user that it was saved. This ends the saving.
    Report(String),
    /// Tell the user that the changes are lost. This ends the saving.
    GiveUp(String),
}

/// What a `SaveEvent` holds.
#[verifier::ext_equal]
pub enum SaveEventView {
    Chosen,
    Stored,
    Failed(Seq<char>),
    Answer(Seq<char>),
}

/// What a `SaveAction` holds.
#[verifier::ext_equal]
pub enum SaveActionView {
    Store,
    Ask(Seq<char>),
    Report(Seq<char>),
    GiveUp(Seq<char>),
}

impl View for SaveEvent {
    type V = SaveEventView;

    open spec fn view(&self) -> SaveEventView {
        match *self {
            SaveEvent::Chosen => SaveEventView::Chosen,
            SaveEvent::Stored => SaveEventView::Stored,
            SaveEvent::Failed(reason) => SaveEventView::Failed(reason@),
            SaveEvent::Answer(line) => SaveEventView::Answer(line@),
        }
    }
}

impl View for SaveAction {
    type V = SaveActionView;

    open spec fn view(&self) -> SaveActionView {
        match *self {
            SaveAction::Store => SaveActionView::Store,
            SaveAction::Ask(message) => SaveActionView::Ask(message@),
            SaveAction::Report(message) => SaveActionView::Report(message@),
            SaveAction::GiveUp(message) => SaveActionView::GiveUp(message@),
        }
    }
}

/// The answers that mean no.
pub open spec fn is_no(answer: Seq<char>) -> bool {
    answer == "n"@ || answer == "N"@ || answer == "no"@ || answer == "No"@
}

/// Whether the answer, which has no white space around it, is a no.
pub fn declines(answer: &str) -> (no: bool)
    ensures
        no == is_no(answer@),
{
    let answer = answer.to_string();
    answer.eq(&"n".to_string()) || answer.eq(&"N".to_string()) || answer.eq(&"no".to_string())
        || answer.eq(&"No".to_string())
}

/// Whether the answer to the question whether to try again is anything but a no.
pub fn confirm_retry(line: &str) -> (retry: bool)
    ensures
        retry == !is_no(text::trimmed(line@)),
{
    !declines(text::trim(line))
}

/// What is to be done next to save that many entries to that file.
pub open spec fn save_step(event: SaveEventView, count: nat, file: Seq<char>) -> SaveActionView {
    match event {
        SaveEventView::Chosen => SaveActionView::Store,
        SaveEventView::Stored => SaveActionView::Report(
            "Saved "@ + text::decimal_of(count) + " entries to "@ + file + "."@,
        ),
        SaveEventView::Failed(reason) => SaveActionView::Ask(
            "Could not save the vault: "@ + reason,
        ),
        SaveEventView::Answer(line) => if is_no(text::trimmed(line)) {
            SaveActionView::GiveUp("Changes discarded."@)
        } else {
            SaveActionView::Store
        },
    }
}

/// What is to be done next to save that many entries to that file.
pub fn save_with_retry(event: SaveEvent, count: usize, file: &str) -> (action: SaveAction)
    ensures
        action@ == save_step(event@, count as nat, file@),
{
    match event {
        SaveEvent::Chosen => SaveAction::Store,
        SaveEvent::Stored => {
            let count = text::decimal(count);
            SaveAction::Report(
                "Saved ".to_string().concat(count.as_str()).concat(" entries to ").concat(
                    file,
                ).concat("."),
            )
        },
        SaveEvent::Failed(reason) => {
            SaveAction::Ask("Could not save the vault: ".to_string().concat(reason.as_str()))
        },
        SaveEvent::Answer(line) => {
            if confirm_retry(line.as_str()) {
                SaveAction::Store
            } else {
                SaveAction::GiveUp("Changes discarded.".to_string())
            }
        },
    }
}

} // verus!
