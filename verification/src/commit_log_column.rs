use vstd::prelude::*;

verus! {

/// The columns of the commit log presentation, in their layout order.
#[derive(Clone, Copy, Debug, PartialEq, Eq, Structural)]
pub enum CommitLogColumn {
    Report,
    Message,
    Date,
    Author,
    Email,
    OriginalRow,
}

/// The position of a column in the layout.
pub open spec fn spec_column_index(c: CommitLogColumn) -> u32 {
    match c {
        CommitLogColumn::Report => 0u32,
        CommitLogColumn::Message => 1u32,
        CommitLogColumn::Date => 2u32,
        CommitLogColumn::Author => 3u32,
        CommitLogColumn::Email => 4u32,
        CommitLogColumn::OriginalRow => 5u32,
    }
}

impl CommitLogColumn {
    /// The position of this column in the layout.
    pub fn index(self) -> (r: u32)
        ensures
            r == spec_column_index(self),
    {
        match self {
            CommitLogColumn::Report => 0,
            CommitLogColumn::Message => 1,
            CommitLogColumn::Date => 2,
            CommitLogColumn::Author => 3,
            CommitLogColumn::Email => 4,
            CommitLogColumn::OriginalRow => 5,
        }
    }
}

/// An index into the unfiltered commit log, as the presentation stores it
/// in its original-row column.
pub type OriginalRow = u32;

} // verus!
