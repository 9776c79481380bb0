#![allow(non_snake_case)]

use rusty_tax_break::commit_diff::{getMessage, makeCommitSummary, tabulateCommitMessage};
use rusty_tax_break::date_time::DateTime;
use rusty_tax_break::diff_formatter::DiffFormatter;

#[test]
fn tabulatesEveryMessageLine() {
    assert_eq!(tabulateCommitMessage("one\ntwo"), "    one\n    two\n");
    assert_eq!(tabulateCommitMessage("single"), "    single\n");
    assert_eq!(tabulateCommitMessage(""), "");
}

#[test]
fn buildsTheCommitHeaderBlock() {
    let epoch = DateTime { year: 1970, month: 1, day: 1, hour: 0, minute: 0, second: 0, offsetSeconds: 0 };
    let summary = makeCommitSummary("deadbeef", "Ann", "ann@example.org", &epoch, "Fix it\n\nBody")
        .unwrap();
    assert_eq!(
        summary,
        "Commit: deadbeef\nAuthor: Ann <ann@example.org>\nDate:   Thu, 01 Jan 1970 00:00:00 +0000\n\n    Fix it\n    \n    Body\n\n"
    );
}

#[test]
fn rendersTheCommitOffsetInTheDate() {
    let date = DateTime { year: 2023, month: 7, day: 14, hour: 12, minute: 30, second: 5, offsetSeconds: 7200 };
    let summary = makeCommitSummary("abc", "A", "a@b", &date, "m").unwrap();
    assert!(summary.contains("Fri, 14 Jul 2023 12:30:05 +0200"), "got: {summary}");
}

#[test]
fn messageFallsBackToLossyText() {
    assert_eq!(getMessage(&Some("good".to_string()), &"lossy".to_string()), "good");
    assert_eq!(getMessage(&None, &"lossy".to_string()), "lossy");
}

#[test]
fn formatsDiffLinesByOrigin() {
    let mut formatter = DiffFormatter::new();
    assert!(formatter.format('F', "diff --git a/x b/x\n"));
    assert!(formatter.format('H', "@@ -1 +1 @@\n"));
    assert!(formatter.format(' ', "context\n"));
    assert!(formatter.format('-', "old\n"));
    assert!(formatter.format('+', "new\n"));
    assert_eq!(
        formatter.takeText(),
        "diff --git a/x b/x\n@@ -1 +1 @@\n context\n-old\n+new\n"
    );
}

#[test]
fn contentLinesKeepTheirPrefix() {
    let mut formatter = DiffFormatter::new();
    formatter.addContent('+', "added\n");
    formatter.addFileHeader("header\n");
    formatter.addHunkInfo("hunk\n");
    assert_eq!(formatter.takeText(), "+added\nheader\nhunk\n");
}
