use vstd::prelude::*;
use vstd::string::StringExecFns;

use crate::event::{DialogResponse, Event};
use crate::source::Source;

verus! {

/// What a dialog response asks the options dialog to do.
#[derive(Clone, Copy, Debug, PartialEq, Eq, Structural)]
pub enum OptionsDialogChoice {
    /// Take the edited pattern over and close.
    Save,
    /// Close and discard the edit.
    Close,
    /// The window is already gone; just forget it.
    Forget,
    /// An unexpected response: note it aloud and close.
    WarnAndClose,
}

/// The options dialog's decisions: it owns the output file name pattern
/// and decides, when the dialog closes, whether the edited pattern is
/// taken over and announced.  The widgets themselves live outside the
/// core.
pub struct OptionsDialog {
    outputFileNamesPattern: String,
    isOpen: bool,
}

impl OptionsDialog {
    /// The pattern in effect.
    pub closed spec fn spec_pattern(self) -> Seq<char> {
        self.outputFileNamesPattern@
    }

    /// Whether the dialog is showing.
    pub closed spec fn spec_is_open(self) -> bool {
        self.isOpen
    }

    /// A closed dialog holding the given pattern.
    pub fn new(outputFileNamesPattern: &str) -> (r: OptionsDialog)
        ensures
            r.spec_pattern() == outputFileNamesPattern@,
            !r.spec_is_open(),
    {
        OptionsDialog { outputFileNamesPattern: outputFileNamesPattern.to_owned(), isOpen: false }
    }

    /// Opens the dialog; the caller shows it and puts the returned pattern
    /// into the entry.
    pub fn open(&mut self) -> (r: String)
        ensures
            final(self).spec_pattern() == old(self).spec_pattern(),
            final(self).spec_is_open(),
            r@ == old(self).spec_pattern(),
    {
        self.isOpen = true;
        self.outputFileNamesPattern.clone()
    }

    /// What to do for a dialog response: apply saves, cancel closes, a
    /// deleted window is forgotten, anything else is noted aloud and
    /// closed.
    pub fn onDialogResponded(&self, response: DialogResponse) -> (r: OptionsDialogChoice)
        ensures
            r == (match response {
                DialogResponse::Apply => OptionsDialogChoice::Save,
                DialogResponse::Cancel => OptionsDialogChoice::Close,
                DialogResponse::DeleteEvent => OptionsDialogChoice::Forget,
                _ => OptionsDialogChoice::WarnAndClose,
            }),
    {
        match response {
            DialogResponse::Apply => OptionsDialogChoice::Save,
            DialogResponse::Cancel => OptionsDialogChoice::Close,
            DialogResponse::DeleteEvent => OptionsDialogChoice::Forget,
            _ => OptionsDialogChoice::WarnAndClose,
        }
    }

    /// The save button was pressed with this pattern in the entry.  An
    /// unchanged pattern is taken silently; a changed one is stored and
    /// announced.  Either way the dialog closes.  Without an open dialog
    /// there is nothing to save — the caller notes it aloud.
    pub fn onSaveDialog(&mut self, newPattern: &str) -> (r: Option<(Source, Event)>)
        ensures
            !old(self).spec_is_open() ==> *final(self) == *old(self) && r is None,
            old(self).spec_is_open() ==> {
                &&& final(self).spec_pattern() == newPattern@
                &&& !final(self).spec_is_open()
                &&& match r {
                    Some(emitted) => {
                        &&& old(self).spec_pattern() != newPattern@
                        &&& emitted.0 == Source::OptionsDialog
                        &&& emitted.1 matches Event::OutputFileNamesPatternChanged(p) && p@
                            == newPattern@
                    },
                    None => old(self).spec_pattern() == newPattern@,
                }
            },
    {
        if !self.isOpen {
            return None;
        }
        let newOwned = newPattern.to_owned();
        let mut emitted: Option<(Source, Event)> = None;
        if !(self.outputFileNamesPattern == newOwned) {
            self.outputFileNamesPattern = newPattern.to_owned();
            emitted = Some(
                (Source::OptionsDialog, Event::OutputFileNamesPatternChanged(newOwned)),
            );
        }
        self.close();
        emitted
    }

    /// The window was deleted behind our back: forget it.
    pub fn onDialogDeleted(&mut self)
        ensures
            final(self).spec_pattern() == old(self).spec_pattern(),
            !final(self).spec_is_open(),
    {
        self.isOpen = false;
    }

    /// Closes the dialog, keeping the pattern.
    pub fn close(&mut self)
        ensures
            final(self).spec_pattern() == old(self).spec_pattern(),
            !final(self).spec_is_open(),
    {
        self.isOpen = false;
    }
}

} // verus!
