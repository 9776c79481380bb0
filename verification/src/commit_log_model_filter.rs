use vstd::prelude::*;
use vstd::string::StringExecFns;

use crate::commit_log::{CommitInfo, CommitLog};
use crate::event::Event;
use crate::source::Source;

verus! {

/// The visibility filter over the commit log: a row is shown only when its
/// date matches the chosen month and year and, if an author text is set,
/// its author equals that text exactly.
pub struct CommitLogModelFilter {
    authorFilter: String,
    monthFilter: u8,
    yearFilter: i32,
}

impl CommitLogModelFilter {
    /// The author text a row must equal exactly; empty means no author
    /// restriction.
    pub closed spec fn spec_author(self) -> Seq<char> {
        self.authorFilter@
    }

    /// The month (1 through 12) a row's date must have.
    pub closed spec fn spec_month(self) -> int {
        self.monthFilter as int
    }

    /// The year a row's date must have.
    pub closed spec fn spec_year(self) -> int {
        self.yearFilter as int
    }

    /// A fresh filter: no author restriction, January of year 1.
    pub fn new() -> (r: CommitLogModelFilter)
        ensures
            r.spec_author().len() == 0,
            r.spec_month() == 1,
            r.spec_year() == 1,
    {
        CommitLogModelFilter { authorFilter: String::new(), monthFilter: 1, yearFilter: 1 }
    }

    /// Stores a new author text.  The caller re-filters the presentation
    /// afterwards.
    pub fn onCommitAuthorFilterChanged(&mut self, filter: &str)
        ensures
            final(self).spec_author() == filter@,
            final(self).spec_month() == old(self).spec_month(),
            final(self).spec_year() == old(self).spec_year(),
    {
        self.authorFilter = filter.to_owned();
    }

    /// Stores a new month.  The caller re-filters the presentation
    /// afterwards.
    pub fn onMonthChanged(&mut self, month: u8)
        requires
            1 <= month <= 12,
        ensures
            final(self).spec_month() == month as int,
            final(self).spec_author() == old(self).spec_author(),
            final(self).spec_year() == old(self).spec_year(),
    {
        self.monthFilter = month;
    }

    /// Stores a new year.  The caller re-filters the presentation
    /// afterwards.
    pub fn onYearChanged(&mut self, year: i32)
        ensures
            final(self).spec_year() == year as int,
            final(self).spec_author() == old(self).spec_author(),
            final(self).spec_month() == old(self).spec_month(),
    {
        self.yearFilter = year;
    }

    /// A toggle arriving from the filtered presentation is re-emitted,
    /// under this component's own source tag, with the row translated to
    /// the unfiltered log (the caller translates before calling).
    pub fn onReportCommitToggled(&self, unfilteredRow: usize) -> (r: (Source, Event))
        ensures
            r == (Source::CommitLogModelFilter, Event::MarkCommitForReportToggled(unfilteredRow)),
    {
        (Source::CommitLogModelFilter, Event::MarkCommitForReportToggled(unfilteredRow))
    }

    /// Whether one row passes the filter.
    pub fn isVisible(&self, c: &CommitInfo) -> (r: bool)
        ensures
            r == spec_visible(*self, *c),
    {
        if !(c.date.year == self.yearFilter) {
            return false;
        }
        if !(c.date.month == self.monthFilter) {
            return false;
        }
        if self.authorFilter.as_str().is_empty() {
            return true;
        }
        c.author == self.authorFilter
    }

    /// The rows of the log that the filter shows, in log order.
    pub fn visibleCommits(&self, log: &CommitLog) -> (r: Vec<CommitInfo>)
        ensures
            r@ == spec_visible_set(*self, log@),
    {
        let commits = log.getCommits();
        let mut out: Vec<CommitInfo> = Vec::new();
        let mut i: usize = 0;
        proof {
            reveal(Seq::filter);
            assert(log@.take(0) =~= Seq::<CommitInfo>::empty());
            assert(spec_visible_set(*self, log@.take(0)) =~= Seq::<CommitInfo>::empty());
        }
        while i < commits.len()
            invariant
                0 <= i <= commits@.len(),
                commits@ == log@,
                out@ == spec_visible_set(*self, log@.take(i as int)),
            decreases commits@.len() - i,
        {
            proof {
                reveal(Seq::filter);
                assert(log@.take(i + 1).drop_last() =~= log@.take(i as int));
                assert(log@.take(i + 1).last() == log@[i as int]);
            }
            if self.isVisible(&commits[i]) {
                out.push(cloneCommitInfo(&commits[i]));
            }
            i = i + 1;
        }
        proof {
            assert(log@.take(log@.len() as int) =~= log@);
        }
        out
    }
}

/// The filter predicate: same year, same month, and either no author text
/// or exactly that author.
pub open spec fn spec_visible(f: CommitLogModelFilter, c: CommitInfo) -> bool {
    &&& c.date.year as int == f.spec_year()
    &&& c.date.month as int == f.spec_month()
    &&& (f.spec_author().len() == 0 || c.author@ == f.spec_author())
}

/// The rows a filter keeps, in order.
pub open spec fn spec_visible_set(f: CommitLogModelFilter, commits: Seq<CommitInfo>) -> Seq<
    CommitInfo,
> {
    commits.filter(|c: CommitInfo| spec_visible(f, c))
}

/// An equal copy of a row.
fn cloneCommitInfo(c: &CommitInfo) -> (r: CommitInfo)
    ensures
        r == *c,
{
    CommitInfo {
        id: c.id.clone(),
        summary: c.summary.clone(),
        date: c.date,
        author: c.author.clone(),
        email: c.email.clone(),
        markedForReport: c.markedForReport,
    }
}

/// Filtering a sequence in which every row already passes keeps it intact.
proof fn lemma_filter_keeps_all_visible(f: CommitLogModelFilter, commits: Seq<CommitInfo>)
    requires
        forall|i: int| 0 <= i < commits.len() ==> spec_visible(f, #[trigger] commits[i]),
    ensures
        spec_visible_set(f, commits) == commits,
    decreases commits.len(),
{
    reveal(Seq::filter);
    if commits.len() > 0 {
        lemma_filter_keeps_all_visible(f, commits.drop_last());
        assert(spec_visible_set(f, commits) =~= commits);
    } else {
        assert(spec_visible_set(f, commits) =~= commits);
    }
}

/// Law: applying the same filter twice shows the same rows as applying it
/// once.
pub proof fn lemma_filter_idempotent(f: CommitLogModelFilter, commits: Seq<CommitInfo>)
    ensures
        spec_visible_set(f, spec_visible_set(f, commits)) == spec_visible_set(f, commits),
{
    let pred = |c: CommitInfo| spec_visible(f, c);
    let once = spec_visible_set(f, commits);
    assert forall|i: int| 0 <= i < once.len() implies spec_visible(f, #[trigger] once[i]) by {
        commits.lemma_filter_pred(pred, i);
    }
    lemma_filter_keeps_all_visible(f, once);
}

} // verus!
