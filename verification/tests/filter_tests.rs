#![allow(non_snake_case)]

use rusty_tax_break::commit_log::{CommitLog, CommitRecord};
use rusty_tax_break::commit_log_model_filter::CommitLogModelFilter;
use rusty_tax_break::event::Event;
use rusty_tax_break::source::Source;

fn recordAt(id: &str, author: &str, secondsIntoJuly2023: i64) -> CommitRecord {
    // 2023-07-01 00:00:00 UTC is 1688169600
    CommitRecord {
        id: id.to_string(),
        summary: Some("s".to_string()),
        summaryLossy: None,
        authorName: Some(author.to_string()),
        authorEmail: Some("a@b".to_string()),
        timeSeconds: 1_688_169_600 + secondsIntoJuly2023,
        timeOffsetMinutes: 0,
    }
}

fn julyLog() -> CommitLog {
    let records = vec![
        recordAt("aaa", "Anna", 0),
        recordAt("bbb", "Bob", 3600),
        recordAt("ccc", "Anna", 40 * 86_400),  // falls into August
    ];
    CommitLog::new(Some(&records)).unwrap()
}

fn julyFilter() -> CommitLogModelFilter {
    let mut filter = CommitLogModelFilter::new();
    filter.onMonthChanged(7);
    filter.onYearChanged(2023);
    filter
}

#[test]
fn filtersByYearAndMonth() {
    let log = julyLog();
    let filter = julyFilter();
    let visible = filter.visibleCommits(&log);
    assert_eq!(visible.len(), 2);
    assert_eq!(visible[0].id, "aaa");
    assert_eq!(visible[1].id, "bbb");
}

#[test]
fn authorMatchIsExactEquality() {
    let log = julyLog();
    let mut filter = julyFilter();
    filter.onCommitAuthorFilterChanged("Ann");
    // "Ann" is a prefix of "Anna" but not equal to it: nothing matches
    let visible = filter.visibleCommits(&log);
    assert_eq!(visible.len(), 0);

    filter.onCommitAuthorFilterChanged("Anna");
    let visible = filter.visibleCommits(&log);
    assert_eq!(visible.len(), 1);
    assert_eq!(visible[0].id, "aaa");
}

#[test]
fn emptyAuthorTextMeansNoAuthorRestriction() {
    let log = julyLog();
    let mut filter = julyFilter();
    filter.onCommitAuthorFilterChanged("");
    assert_eq!(filter.visibleCommits(&log).len(), 2);
}

#[test]
fn wrongYearHidesEverything() {
    let log = julyLog();
    let mut filter = julyFilter();
    filter.onYearChanged(2022);
    assert_eq!(filter.visibleCommits(&log).len(), 0);
}

#[test]
fn applyingTheSameFilterTwiceChangesNothing() {
    let log = julyLog();
    let filter = julyFilter();
    let once = filter.visibleCommits(&log);
    // every row the filter kept still passes the same filter
    let twice: Vec<_> = once.iter().filter(|c| filter.isVisible(c)).collect();
    assert_eq!(twice.len(), once.len());
    for (a, b) in twice.iter().zip(once.iter()) {
        assert_eq!(a.id, b.id);
    }
}

#[test]
fn reEmitsToggleUnderItsOwnTag() {
    let filter = julyFilter();
    let (source, event) = filter.onReportCommitToggled(4);
    assert_eq!(source, Source::CommitLogModelFilter);
    assert_eq!(event, Event::MarkCommitForReportToggled(4));
}
