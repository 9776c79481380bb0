use vstd::prelude::*;
use vstd::string::StringExecFns;

use crate::event::{DialogResponse, Event};
use crate::source::Source;

verus! {

/// What a dialog response asks a folder-chooser button to do.
#[derive(Clone, Copy, Debug, PartialEq, Eq, Structural)]
pub enum FolderDialogChoice {
    /// Read the selected folder and announce it.
    Accepted,
    /// Close the dialog and keep everything as it was.
    Cancelled,
    /// The window is already gone; just forget it.
    Deleted,
    /// An unexpected response: note it aloud and close.
    Unknown,
}

/// The decisions behind a button that opens a folder-chooser dialog: which
/// source tag its chosen folders carry, which tag its dialog's responses
/// carry, and whether a dialog is currently up.  The widgets themselves
/// live outside the core.
pub struct ChooseFolderButton {
    source: Source,
    dialogSource: Source,
    hasDialog: bool,
}

impl ChooseFolderButton {
    /// The tag under which this button announces chosen folders.
    pub closed spec fn spec_source(self) -> Source {
        self.source
    }

    /// The tag under which this button's dialog responds.
    pub closed spec fn spec_dialog_source(self) -> Source {
        self.dialogSource
    }

    /// Whether a dialog is up.
    pub closed spec fn spec_has_dialog(self) -> bool {
        self.hasDialog
    }

    /// A button with no dialog up yet.
    pub fn new(source: Source, dialogSource: Source) -> (r: ChooseFolderButton)
        ensures
            r.spec_source() == source,
            r.spec_dialog_source() == dialogSource,
            !r.spec_has_dialog(),
    {
        ChooseFolderButton { source, dialogSource, hasDialog: false }
    }

    /// The button was clicked: a dialog goes up.  The caller shows one and
    /// wires its responses to the returned source tag.
    pub fn onClicked(&mut self) -> (r: Source)
        ensures
            final(self).spec_source() == old(self).spec_source(),
            final(self).spec_dialog_source() == old(self).spec_dialog_source(),
            final(self).spec_has_dialog(),
            r == old(self).spec_dialog_source(),
    {
        self.hasDialog = true;
        self.dialogSource
    }

    /// What to do for a dialog response.
    pub fn onDialogResponded(&self, response: DialogResponse) -> (r: FolderDialogChoice)
        ensures
            r == (match response {
                DialogResponse::Accept => FolderDialogChoice::Accepted,
                DialogResponse::Cancel => FolderDialogChoice::Cancelled,
                DialogResponse::DeleteEvent => FolderDialogChoice::Deleted,
                _ => FolderDialogChoice::Unknown,
            }),
    {
        match response {
            DialogResponse::Accept => FolderDialogChoice::Accepted,
            DialogResponse::Cancel => FolderDialogChoice::Cancelled,
            DialogResponse::DeleteEvent => FolderDialogChoice::Deleted,
            _ => FolderDialogChoice::Unknown,
        }
    }

    /// The dialog was accepted with this folder selected (or with none).
    /// With a dialog up and a folder selected, the folder is announced
    /// under the button's source tag; without either, nothing happens and
    /// a missing dialog is noted aloud by the caller.  The caller closes
    /// the dialog window; the button still remembers it.
    pub fn onDialogAccepted(&mut self, folder: Option<&str>) -> (r: Option<(Source, Event)>)
        ensures
            final(self).spec_source() == old(self).spec_source(),
            final(self).spec_dialog_source() == old(self).spec_dialog_source(),
            final(self).spec_has_dialog() == old(self).spec_has_dialog(),
            match r {
                Some(emitted) => {
                    &&& old(self).spec_has_dialog()
                    &&& emitted.0 == old(self).spec_source()
                    &&& folder matches Some(f) && emitted.1 matches Event::FolderChosen(p) && p@
                        == f@
                },
                None => !old(self).spec_has_dialog() || folder is None,
            },
    {
        if !self.hasDialog {
            return None;
        }
        match folder {
            Some(f) => Some((self.source, Event::FolderChosen(f.to_owned()))),
            None => None,
        }
    }

    /// The dialog was cancelled: it closes and is forgotten.
    pub fn onDialogCancelled(&mut self)
        ensures
            final(self).spec_source() == old(self).spec_source(),
            final(self).spec_dialog_source() == old(self).spec_dialog_source(),
            !final(self).spec_has_dialog(),
    {
        self.hasDialog = false;
    }

    /// The window was deleted behind our back: forget it.
    pub fn onDialogDeleted(&mut self)
        ensures
            final(self).spec_source() == old(self).spec_source(),
            final(self).spec_dialog_source() == old(self).spec_dialog_source(),
            !final(self).spec_has_dialog(),
    {
        self.hasDialog = false;
    }

    /// An unexpected response: the caller notes it aloud; any dialog is
    /// closed and forgotten.
    pub fn onUnknownDialogResponse(&mut self)
        ensures
            final(self).spec_source() == old(self).spec_source(),
            final(self).spec_dialog_source() == old(self).spec_dialog_source(),
            !final(self).spec_has_dialog(),
    {
        self.hasDialog = false;
    }
}

} // verus!
