use vstd::prelude::*;

verus! {

/// Text typed into the author filter entry.
pub type CommitAuthorFilter = String;

/// A calendar year as shown by the year spin button.
pub type Year = i32;

/// A calendar month, 1 (January) through 12 (December).
pub type MonthNumber = u8;

/// Answer a dialog gave when it was closed.
#[derive(Clone, Copy, Debug, PartialEq, Eq, Structural)]
pub enum DialogResponse {
    Accept,
    Apply,
    Cancel,
    DeleteEvent,
    Other,
}

/// The derived output directory, together with the user-chosen prefix it
/// was derived from.
#[derive(Clone, Debug, PartialEq, Eq)]
pub struct OutputPathInfo {
    pub full: String,
    pub prefix: String,
}

/// Closed union of everything the application reacts to.  Each variant
/// carries at most one payload, always a plain value: widget handles never
/// enter the core, and a repository is represented by its path.
#[derive(Clone, Debug, PartialEq, Eq)]
pub enum Event {
    Clicked,
    CommitAuthorFilterChanged(CommitAuthorFilter),
    CommitLogChanged,
    CommitSelected(String),
    CommitUnselected,
    DialogResponded(DialogResponse),
    FolderChosen(String),
    GenerateReportRequested,
    MarkCommitForReportToggled(usize),
    MonthFilterChanged(MonthNumber),
    OpenOptionsRequested,
    OutputFileNamesPatternChanged(String),
    OutputPathChanged(OutputPathInfo),
    PartialOutputPathChanged(String),
    PanePositionChanged(i32),
    RepositoryChanged(String),
    SelectionChanged(Option<usize>),
    WindowMaximized(bool),
    YearFilterChanged(Year),
    ZoomRequested(i32),
}

} // verus!
