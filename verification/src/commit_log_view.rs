use vstd::prelude::*;

use crate::commit_log::CommitLog;
use crate::event::Event;
use crate::source::Source;

verus! {

/// Turns a selection change in the commit log view into the event the view
/// emits: the id of the commit on the selected row, or an unselection.
/// Rows come back from the presentation echoing indices this log produced,
/// so an out-of-range row is a programming error and stays excluded.
pub fn handleSelectionChanged(log: &CommitLog, selectedRow: Option<usize>) -> (r: (Source, Event))
    requires
        selectedRow matches Some(row) ==> row < log@.len(),
    ensures
        match selectedRow {
            Some(row) => r == (
                Source::CommitLogView,
                Event::CommitSelected(log@[row as int].id),
            ),
            None => r == (Source::CommitLogView, Event::CommitUnselected),
        },
{
    match selectedRow {
        Some(row) => {
            let commit = log.getCommits();
            let id = commit[row].id.clone();
            (Source::CommitLogView, Event::CommitSelected(id))
        },
        None => (Source::CommitLogView, Event::CommitUnselected),
    }
}

} // verus!
