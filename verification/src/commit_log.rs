use vstd::prelude::*;
use vstd::string::StringExecFns;

use crate::date_time::{makeDateTime, spec_make_date_time, DateTime};

verus! {

/// The raw fields of one commit, exactly as the repository walker hands
/// them over: optional texts are absent where the underlying data was not
/// valid UTF-8, and the lossy variant carries the replacement-decoded bytes.
#[derive(Clone, Debug)]
pub struct CommitRecord {
    pub id: String,
    pub summary: Option<String>,
    pub summaryLossy: Option<String>,
    pub authorName: Option<String>,
    pub authorEmail: Option<String>,
    pub timeSeconds: i64,
    pub timeOffsetMinutes: i32,
}

/// One row of the commit log.
#[derive(Clone, Debug)]
pub struct CommitInfo {
    pub id: String,
    pub summary: String,
    pub date: DateTime,
    pub author: String,
    pub email: String,
    pub markedForReport: bool,
}

/// Why a commit log could not be built from a record.
#[derive(Clone, Copy, Debug, PartialEq, Eq, Structural)]
pub enum CommitLogError {
    /// A commit's timestamp or offset lies outside the representable
    /// range.  Malformed repository data is fatal to this component;
    /// callers abort with a diagnostic.
    TimestampOutOfRange,
}

/// The summary text a record yields: the UTF-8 summary when present, else
/// the lossily decoded bytes, else a placeholder.
pub open spec fn spec_summary(r: CommitRecord) -> Seq<char> {
    match r.summary {
        Some(s) => s@,
        None => match r.summaryLossy {
            Some(s) => s@,
            None => ("<UNKNOWN SUMMARY>")@,
        },
    }
}

/// An author or email text, with a placeholder where the signature was not
/// valid UTF-8.
pub open spec fn spec_signature_text(o: Option<String>) -> Seq<char> {
    match o {
        Some(s) => s@,
        None => ("<invalid UTF-8>")@,
    }
}

/// The row that a record loads into: same id, the summary and signature
/// fallbacks applied, the timestamp converted, and the mark cleared.
pub open spec fn info_matches(r: CommitRecord, c: CommitInfo) -> bool {
    &&& c.id@ == r.id@
    &&& c.summary@ == spec_summary(r)
    &&& Some(c.date) == spec_make_date_time(r.timeSeconds as int, r.timeOffsetMinutes as int)
    &&& c.author@ == spec_signature_text(r.authorName)
    &&& c.email@ == spec_signature_text(r.authorEmail)
    &&& c.markedForReport == false
}

/// A fully loaded log: one row per record, in walking order.
pub open spec fn loaded(records: Seq<CommitRecord>, commits: Seq<CommitInfo>) -> bool {
    &&& commits.len() == records.len()
    &&& forall|i: int| 0 <= i < records.len() ==> info_matches(records[i], #[trigger] commits[i])
}

/// `c` with its report mark set to `m` and nothing else changed.
pub open spec fn with_marked(c: CommitInfo, m: bool) -> CommitInfo {
    CommitInfo { markedForReport: m, ..c }
}

/// The log's rows after one mark changes.
pub open spec fn set_marked(s: Seq<CommitInfo>, row: int, m: bool) -> Seq<CommitInfo> {
    s.update(row, with_marked(s[row], m))
}

/// The texts of a record's signature field, with the fallback applied.
fn signatureText(o: &Option<String>) -> (r: String)
    ensures
        r@ == spec_signature_text(*o),
{
    match o {
        Some(s) => s.clone(),
        None => String::from_str("<invalid UTF-8>"),
    }
}

/// The summary of a record, with the fallbacks applied.
fn getSummary(r: &CommitRecord) -> (s: String)
    ensures
        s@ == spec_summary(*r),
{
    match &r.summary {
        Some(s) => s.clone(),
        None => match &r.summaryLossy {
            Some(s) => s.clone(),
            None => String::from_str("<UNKNOWN SUMMARY>"),
        },
    }
}

/// Builds one log row from one record; fails when the timestamp cannot be
/// converted.
fn buildCommitInfo(r: &CommitRecord) -> (c: Result<CommitInfo, CommitLogError>)
    ensures
        match c {
            Ok(info) => info_matches(*r, info),
            Err(e) => {
                &&& e == CommitLogError::TimestampOutOfRange
                &&& spec_make_date_time(r.timeSeconds as int, r.timeOffsetMinutes as int) is None
            },
        },
{
    let date = match makeDateTime(r.timeSeconds, r.timeOffsetMinutes) {
        Some(d) => d,
        None => return Err(CommitLogError::TimestampOutOfRange),
    };
    Ok(
        CommitInfo {
            id: r.id.clone(),
            summary: getSummary(r),
            date,
            author: signatureText(&r.authorName),
            email: signatureText(&r.authorEmail),
            markedForReport: false,
        },
    )
}

/// Builds all rows of a log, in record order.
fn buildCommitInfos(records: &Vec<CommitRecord>) -> (r: Result<Vec<CommitInfo>, CommitLogError>)
    ensures
        match r {
            Ok(commits) => loaded(records@, commits@),
            Err(e) => {
                &&& e == CommitLogError::TimestampOutOfRange
                &&& exists|i: int|
                    0 <= i < records@.len() && spec_make_date_time(
                        (#[trigger] records@[i]).timeSeconds as int,
                        records@[i].timeOffsetMinutes as int,
                    ) is None
            },
        },
{
    let mut commits: Vec<CommitInfo> = Vec::new();
    let mut i: usize = 0;
    while i < records.len()
        invariant
            0 <= i <= records@.len(),
            commits@.len() == i,
            forall|j: int| 0 <= j < i ==> info_matches(records@[j], #[trigger] commits@[j]),
        decreases records@.len() - i,
    {
        match buildCommitInfo(&records[i]) {
            Ok(info) => commits.push(info),
            Err(e) => {
                return Err(e);
            },
        }
        i = i + 1;
    }
    Ok(commits)
}

/// The in-memory commit log: the rows of the active repository's history,
/// most recent first, each with its mutable report mark.  The whole content
/// is replaced on every repository change, never patched.
pub struct CommitLog {
    commits: Vec<CommitInfo>,
}

impl View for CommitLog {
    type V = Seq<CommitInfo>;

    closed spec fn view(&self) -> Seq<CommitInfo> {
        self.commits@
    }
}

impl CommitLog {
    /// A log over the given walked history, or an empty log when no
    /// repository is active yet.  Loading at construction emits no event.
    pub fn new(records: Option<&Vec<CommitRecord>>) -> (r: Result<CommitLog, CommitLogError>)
        ensures
            match r {
                Ok(log) => match records {
                    Some(rs) => loaded(rs@, log@),
                    None => log@.len() == 0,
                },
                Err(e) => {
                    &&& e == CommitLogError::TimestampOutOfRange
                    &&& records matches Some(rs) && exists|i: int|
                        0 <= i < rs@.len() && spec_make_date_time(
                            (#[trigger] rs@[i]).timeSeconds as int,
                            rs@[i].timeOffsetMinutes as int,
                        ) is None
                },
            },
    {
        match records {
            Some(rs) => {
                let commits = buildCommitInfos(rs)?;
                Ok(CommitLog { commits })
            },
            None => Ok(CommitLog { commits: Vec::new() }),
        }
    }

    /// All rows, in load order.
    pub fn getCommits(&self) -> (r: &Vec<CommitInfo>)
        ensures
            r@ == self@,
    {
        &self.commits
    }

    /// The row at `row`, or nothing when the index is past the end.
    pub fn getCommit(&self, row: usize) -> (r: Option<&CommitInfo>)
        ensures
            match r {
                Some(c) => row < self@.len() && *c == self@[row as int],
                None => row >= self@.len(),
            },
    {
        if row < self.commits.len() {
            Some(&self.commits[row])
        } else {
            None
        }
    }

    /// Sets one row's report mark in place.  A row the log never produced
    /// is a programming error, so callers must stay in range.
    pub fn setMarkedForReport(&mut self, row: usize, markedForReport: bool)
        requires
            row < old(self)@.len(),
        ensures
            final(self)@ == set_marked(old(self)@, row as int, markedForReport),
    {
        let c = &self.commits[row];
        let info = CommitInfo {
            id: c.id.clone(),
            summary: c.summary.clone(),
            date: c.date,
            author: c.author.clone(),
            email: c.email.clone(),
            markedForReport,
        };
        self.commits.set(row, info);
        proof {
            assert(self@ =~= set_marked(old(self)@, row as int, markedForReport));
        }
    }

    /// Replaces the whole content with the newly walked history and says
    /// whether a commit-log-changed event must follow: it does exactly when
    /// the repository had any commit at all.  On failure the log is left as
    /// it was; callers treat the failure as fatal.
    pub fn onRepositoryChanged(&mut self, records: &Vec<CommitRecord>) -> (r: Result<
        bool,
        CommitLogError,
    >)
        ensures
            match r {
                Ok(emit) => loaded(records@, final(self)@) && emit == (records@.len() > 0),
                Err(e) => {
                    &&& final(self)@ == old(self)@
                    &&& e == CommitLogError::TimestampOutOfRange
                    &&& exists|i: int|
                        0 <= i < records@.len() && spec_make_date_time(
                            (#[trigger] records@[i]).timeSeconds as int,
                            records@[i].timeOffsetMinutes as int,
                        ) is None
                },
            },
    {
        let commits = buildCommitInfos(records)?;
        self.commits = commits;
        Ok(self.commits.len() > 0)
    }
}

/// Two rows carrying the same texts, date and mark.
pub open spec fn infos_alike(a: CommitInfo, b: CommitInfo) -> bool {
    &&& a.id@ == b.id@
    &&& a.summary@ == b.summary@
    &&& a.date == b.date
    &&& a.author@ == b.author@
    &&& a.email@ == b.email@
    &&& a.markedForReport == b.markedForReport
}

/// Law: loading the same walked history twice gives the same log, row for
/// row — every field of every row is a function of the records alone.
pub proof fn lemma_reload_deterministic(
    records: Seq<CommitRecord>,
    a: Seq<CommitInfo>,
    b: Seq<CommitInfo>,
)
    requires
        loaded(records, a),
        loaded(records, b),
    ensures
        a.len() == b.len(),
        forall|i: int| 0 <= i < a.len() ==> infos_alike(#[trigger] a[i], b[i]),
{
    assert forall|i: int| 0 <= i < a.len() implies infos_alike(#[trigger] a[i], b[i]) by {
        assert(info_matches(records[i], a[i]));
        assert(info_matches(records[i], b[i]));
    }
}

/// Law: marking a row and then restoring the mark it had before leaves the
/// log exactly as it was; in particular marking and unmarking a freshly
/// loaded row (whose mark starts cleared) is an involution.
pub proof fn lemma_set_marked_involution(s: Seq<CommitInfo>, row: int, value: bool)
    requires
        0 <= row < s.len(),
    ensures
        set_marked(set_marked(s, row, value), row, s[row].markedForReport) == s,
{
    assert(with_marked(with_marked(s[row], value), s[row].markedForReport) == s[row]);
    assert(set_marked(set_marked(s, row, value), row, s[row].markedForReport) =~= s);
}

/// Law: overwriting a mark twice keeps only the second write.
pub proof fn lemma_set_marked_last_wins(s: Seq<CommitInfo>, row: int, first: bool, second: bool)
    requires
        0 <= row < s.len(),
    ensures
        set_marked(set_marked(s, row, first), row, second) == set_marked(s, row, second),
{
    assert(with_marked(with_marked(s[row], first), second) == with_marked(s[row], second));
    assert(set_marked(set_marked(s, row, first), row, second) =~= set_marked(s, row, second));
}

} // verus!
