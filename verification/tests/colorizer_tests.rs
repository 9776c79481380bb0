#![allow(non_snake_case)]

use rusty_tax_break::diff_colorizer::{
    classifyLine, hunkHeaderTagEnd, hunkHeaderTagEndFrom, regionTags, DiffColorizer, LineClass,
    Span,
};
use rusty_tax_break::line_number::LineNumber;

#[test]
fn lineNumbersAdvance() {
    assert_eq!(LineNumber(3).advancedBy(4), LineNumber(7));
}

fn span(class: LineClass, start: usize, end: usize) -> Span {
    Span { class, startLine: LineNumber(start), endLine: LineNumber(end) }
}

#[test]
fn classifiesLinesByFirstCharacter() {
    assert_eq!(classifyLine("+added"), Some(LineClass::Added));
    assert_eq!(classifyLine("-removed"), Some(LineClass::Removed));
    assert_eq!(classifyLine("@@ -1 +1 @@"), Some(LineClass::HunkHeader));
    assert_eq!(classifyLine(" context"), Some(LineClass::Normal));
    assert_eq!(classifyLine("Commit: 123"), Some(LineClass::Normal));
    assert_eq!(classifyLine("Author: x"), Some(LineClass::Normal));
    assert_eq!(classifyLine("Date:   y"), Some(LineClass::Normal));
    assert_eq!(classifyLine("diff --git a/x b/x"), Some(LineClass::FileHeader));
    assert_eq!(classifyLine(""), None);
}

#[test]
fn colorizesAMixedDiff() {
    let mut colorizer = DiffColorizer::new();
    let text = "diff --git a/x b/x\n@@ -1,2 +1,3 @@ foo\n context\n+added\n+more\n-removed\n";
    let result = colorizer.colorize(text);
    assert_eq!(
        result.spans,
        vec![
            span(LineClass::FileHeader, 0, 1),
            span(LineClass::HunkHeader, 1, 2),
            span(LineClass::Normal, 2, 3),
            span(LineClass::Added, 3, 5),
            span(LineClass::Removed, 5, 6),
        ]
    );
    assert_eq!(result.hunkHeaderLines, vec![LineNumber(1)]);
}

#[test]
fn colorizesEmptyTextToNothing() {
    let mut colorizer = DiffColorizer::new();
    let result = colorizer.colorize("");
    assert_eq!(result.spans, vec![]);
    assert_eq!(result.hunkHeaderLines, vec![]);
}

#[test]
fn blankLinesExtendTheOpenRun() {
    let mut colorizer = DiffColorizer::new();
    let result = colorizer.colorize("+a\n\n+b\n");
    assert_eq!(result.spans, vec![span(LineClass::Added, 0, 3)]);
}

#[test]
fn eachPassStartsAfresh() {
    let mut colorizer = DiffColorizer::new();
    let first = colorizer.colorize("+a\n");
    assert_eq!(first.spans, vec![span(LineClass::Added, 0, 1)]);
    let second = colorizer.colorize("-b\n");
    assert_eq!(second.spans, vec![span(LineClass::Removed, 0, 1)]);
}

#[test]
fn spansCoverEveryLineExactlyOnce() {
    let mut colorizer = DiffColorizer::new();
    let text = "header\n+a\n-b\n c\n@@ -1 +1 @@\n+d\n";
    let result = colorizer.colorize(text);
    let lineCount = text.lines().count();
    let mut covered = vec![0usize; lineCount];
    for s in &result.spans {
        assert!(s.startLine.0 < s.endLine.0, "span must not be empty");
        for line in s.startLine.0..s.endLine.0 {
            covered[line] += 1;
        }
    }
    assert!(covered.iter().all(|c| *c == 1), "each line in exactly one span");
}

#[test]
fn consecutiveHunkHeadersShareARunButKeepTheirOwnTags() {
    let mut colorizer = DiffColorizer::new();
    let result = colorizer.colorize("@@ -1 +1 @@\n@@ -2 +2 @@\n+x\n");
    assert_eq!(
        result.spans,
        vec![span(LineClass::HunkHeader, 0, 2), span(LineClass::Added, 2, 3)]
    );
    assert_eq!(result.hunkHeaderLines, vec![LineNumber(0), LineNumber(1)]);
}

#[test]
fn hunkHeaderTagEndsAtFirstMatch() {
    // the nested tag ends exactly after the first " @@", whatever follows
    assert_eq!(hunkHeaderTagEnd("@@ -1,2 +1,3 @@ foo"), Some(15));
    assert_eq!(hunkHeaderTagEnd("@@ -1,2 +1,3 @@ something else entirely"), Some(15));
    assert_eq!(hunkHeaderTagEnd("@@ -1,2 +1,3 @@"), Some(15));
    assert_eq!(hunkHeaderTagEnd("@@ -1 +1 @@"), Some(11));
    assert_eq!(hunkHeaderTagEnd("@@ broken header"), None);
}

#[test]
fn hunkHeaderTagSearchContinuesIntoFollowingLines() {
    let lines: Vec<String> = vec![
        "@@ broken header".to_string(),
        "+x".to_string(),
        "rest @@ tail".to_string(),
    ];
    // the first ` @@` anywhere at or after the hunk line: line 2, after column 7
    assert_eq!(hunkHeaderTagEndFrom(&lines, 0), Some((2, 7)));
    // a terminator on the hunk line itself wins
    let direct: Vec<String> = vec!["@@ -1 +1 @@ foo".to_string(), " @@ later".to_string()];
    assert_eq!(hunkHeaderTagEndFrom(&direct, 0), Some((0, 11)));
    // no terminator anywhere
    let never: Vec<String> = vec!["@@ broken".to_string(), "+x".to_string()];
    assert_eq!(hunkHeaderTagEndFrom(&never, 0), None);
}

#[test]
fn regionTagsSkipNormalAndHunkRuns() {
    let mut colorizer = DiffColorizer::new();
    let result = colorizer.colorize("header\n+a\n c\n@@ -1 +1 @@\n-b\n");
    let tags = regionTags(&result.spans);
    assert_eq!(
        tags,
        vec![
            span(LineClass::FileHeader, 0, 1),
            span(LineClass::Added, 1, 2),
            span(LineClass::Removed, 4, 5),
        ]
    );
}
