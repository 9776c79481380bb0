#![allow(non_snake_case)]

use rusty_tax_break::commit_log::{CommitLog, CommitLogError, CommitRecord};
use rusty_tax_break::commit_log_model::onMarkCommitForReportToggled;

fn record(id: &str, summary: &str, author: &str, email: &str, seconds: i64) -> CommitRecord {
    CommitRecord {
        id: id.to_string(),
        summary: Some(summary.to_string()),
        summaryLossy: None,
        authorName: Some(author.to_string()),
        authorEmail: Some(email.to_string()),
        timeSeconds: seconds,
        timeOffsetMinutes: 0,
    }
}

#[test]
fn loadsRecordsInOrderWithConvertedDates() {
    let records = vec![
        record("aaa", "first", "Ann", "ann@example.org", 0),
        record("bbb", "second", "Bob", "bob@example.org", 86_400),
    ];
    let log = CommitLog::new(Some(&records)).unwrap();
    let commits = log.getCommits();
    assert_eq!(commits.len(), 2);
    assert_eq!(commits[0].id, "aaa");
    assert_eq!(commits[0].summary, "first");
    assert_eq!(commits[0].author, "Ann");
    assert_eq!(commits[0].email, "ann@example.org");
    assert_eq!(commits[0].date.year, 1970);
    assert_eq!(commits[0].date.month, 1);
    assert_eq!(commits[0].date.day, 1);
    assert_eq!(commits[0].date.hour, 0);
    assert!(!commits[0].markedForReport);
    assert_eq!(commits[1].date.day, 2);
}

#[test]
fn honoursTheCommitTimeOffset() {
    let mut r = record("aaa", "s", "A", "a@b", 0);
    r.timeOffsetMinutes = 120;
    let log = CommitLog::new(Some(&vec![r])).unwrap();
    let c = &log.getCommits()[0];
    assert_eq!(c.date.hour, 2);
    assert_eq!(c.date.offsetSeconds, 7200);
}

#[test]
fn reloadingTheSameRecordsGivesTheSameLog() {
    let records = vec![
        record("aaa", "first", "Ann", "a@b", 123_456_789),
        record("bbb", "second", "Bob", "b@c", 987_654_321),
    ];
    let mut log1 = CommitLog::new(None).unwrap();
    let mut log2 = CommitLog::new(None).unwrap();
    log1.onRepositoryChanged(&records).unwrap();
    log2.onRepositoryChanged(&records).unwrap();
    let a = log1.getCommits();
    let b = log2.getCommits();
    assert_eq!(a.len(), b.len());
    for (x, y) in a.iter().zip(b.iter()) {
        assert_eq!(x.id, y.id);
        assert_eq!(x.summary, y.summary);
        assert_eq!(x.date, y.date);
        assert_eq!(x.author, y.author);
        assert_eq!(x.email, y.email);
        assert_eq!(x.markedForReport, y.markedForReport);
    }
}

#[test]
fn emptyRepositoryLeavesTheLogEmptyAndSilent() {
    let mut log = CommitLog::new(None).unwrap();
    let emit = log.onRepositoryChanged(&vec![]).unwrap();
    assert!(!emit, "no commit-log-changed event for an empty repository");
    assert_eq!(log.getCommits().len(), 0);
}

#[test]
fn filledRepositoryAnnouncesTheNewLog() {
    let mut log = CommitLog::new(None).unwrap();
    let emit = log.onRepositoryChanged(&vec![record("aaa", "s", "A", "a@b", 0)]).unwrap();
    assert!(emit);
    assert_eq!(log.getCommits().len(), 1);
}

#[test]
fn reloadingReplacesEverything() {
    let mut log = CommitLog::new(Some(&vec![record("aaa", "s", "A", "a@b", 0)])).unwrap();
    log.setMarkedForReport(0, true);
    log.onRepositoryChanged(&vec![record("bbb", "t", "B", "b@c", 0)]).unwrap();
    let commits = log.getCommits();
    assert_eq!(commits.len(), 1);
    assert_eq!(commits[0].id, "bbb");
    assert!(!commits[0].markedForReport, "marks do not survive a reload");
}

#[test]
fn markingThenUnmarkingRestoresTheRow() {
    let mut log = CommitLog::new(Some(&vec![record("aaa", "s", "A", "a@b", 0)])).unwrap();
    assert!(!log.getCommit(0).unwrap().markedForReport);
    log.setMarkedForReport(0, true);
    assert!(log.getCommit(0).unwrap().markedForReport);
    log.setMarkedForReport(0, false);
    assert!(!log.getCommit(0).unwrap().markedForReport);
    assert_eq!(log.getCommit(0).unwrap().summary, "s");
}

#[test]
fn togglingFlipsTheMarkAndReportsTheNewValue() {
    let mut log = CommitLog::new(Some(&vec![record("aaa", "s", "A", "a@b", 0)])).unwrap();
    assert!(onMarkCommitForReportToggled(&mut log, 0));
    assert!(log.getCommit(0).unwrap().markedForReport);
    assert!(!onMarkCommitForReportToggled(&mut log, 0));
    assert!(!log.getCommit(0).unwrap().markedForReport);
}

#[test]
fn getCommitPastTheEndIsNone() {
    let log = CommitLog::new(Some(&vec![record("aaa", "s", "A", "a@b", 0)])).unwrap();
    assert!(log.getCommit(0).is_some());
    assert!(log.getCommit(1).is_none());
}

#[test]
fn summaryFallsBackToLossyThenPlaceholder() {
    let mut r = record("aaa", "ignored", "A", "a@b", 0);
    r.summary = None;
    r.summaryLossy = Some("lossy \u{fffd} text".to_string());
    let log = CommitLog::new(Some(&vec![r])).unwrap();
    assert_eq!(log.getCommits()[0].summary, "lossy \u{fffd} text");

    let mut r2 = record("aaa", "ignored", "A", "a@b", 0);
    r2.summary = None;
    r2.summaryLossy = None;
    let log2 = CommitLog::new(Some(&vec![r2])).unwrap();
    assert_eq!(log2.getCommits()[0].summary, "<UNKNOWN SUMMARY>");
}

#[test]
fn missingSignatureTextsGetThePlaceholder() {
    let mut r = record("aaa", "s", "ignored", "ignored", 0);
    r.authorName = None;
    r.authorEmail = None;
    let log = CommitLog::new(Some(&vec![r])).unwrap();
    assert_eq!(log.getCommits()[0].author, "<invalid UTF-8>");
    assert_eq!(log.getCommits()[0].email, "<invalid UTF-8>");
}

#[test]
fn unrepresentableTimestampIsFatal() {
    let r = record("aaa", "s", "A", "a@b", i64::MAX);
    let result = CommitLog::new(Some(&vec![r]));
    assert!(matches!(result, Err(CommitLogError::TimestampOutOfRange)));
}

#[test]
fn lastSupportedSecondLoadsAtUtc() {
    // the last second of the supported calendar at UTC converts cleanly
    let r = record("aaa", "s", "A", "a@b", 253_402_300_799);
    let log = CommitLog::new(Some(&vec![r])).unwrap();
    let date = log.getCommits()[0].date;
    assert_eq!(date.year, 9999);
    assert_eq!(date.month, 12);
    assert_eq!(date.day, 31);
    assert_eq!(date.hour, 23);
}

#[test]
fn offsetPushingPastTheSupportedYearsIsFatalNotAPanic() {
    // shifting the last supported second one hour east leaves the
    // supported years; this must come back as an error, not a panic
    let mut r = record("aaa", "s", "A", "a@b", 253_402_300_799);
    r.timeOffsetMinutes = 60;
    assert!(matches!(
        CommitLog::new(Some(&vec![r])),
        Err(CommitLogError::TimestampOutOfRange)
    ));
}

#[test]
fn overflowingTimeOffsetIsFatal() {
    let mut r = record("aaa", "s", "A", "a@b", 0);
    r.timeOffsetMinutes = i32::MAX;
    assert!(matches!(
        CommitLog::new(Some(&vec![r])),
        Err(CommitLogError::TimestampOutOfRange)
    ));
}

#[test]
fn failedReloadLeavesTheOldLogIntact() {
    let mut log = CommitLog::new(Some(&vec![record("aaa", "s", "A", "a@b", 0)])).unwrap();
    let err = log.onRepositoryChanged(&vec![record("bbb", "t", "B", "b@c", i64::MAX)]);
    assert!(err.is_err());
    assert_eq!(log.getCommits().len(), 1);
    assert_eq!(log.getCommits()[0].id, "aaa");
}
