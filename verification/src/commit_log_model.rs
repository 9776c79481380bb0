use vstd::prelude::*;

use crate::commit_log::{set_marked, CommitLog};

verus! {

/// A toggle arrived for a row of the presentation: the row's report mark
/// flips, and the new value goes back so the presentation can show it.
/// Rows only ever echo indices the log itself produced, so an out-of-range
/// row is a programming error and stays excluded.
pub fn onMarkCommitForReportToggled(log: &mut CommitLog, row: usize) -> (newValue: bool)
    requires
        row < old(log)@.len(),
    ensures
        newValue == !old(log)@[row as int].markedForReport,
        final(log)@ == set_marked(old(log)@, row as int, newValue),
{
    let current = match log.getCommit(row) {
        Some(commit) => commit.markedForReport,
        None => false,
    };
    let newValue = !current;
    log.setMarkedForReport(row, newValue);
    newValue
}

} // verus!
