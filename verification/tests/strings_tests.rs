#![allow(non_snake_case)]

use rusty_tax_break::strings::{findFirstMatch, intToString, replaceAll, splitLines, twoDigits};

#[test]
fn formatsIntegersInDecimal() {
    assert_eq!(intToString(0), "0");
    assert_eq!(intToString(7), "7");
    assert_eq!(intToString(2023), "2023");
    assert_eq!(intToString(-45), "-45");
    assert_eq!(intToString(i32::MAX), "2147483647");
    assert_eq!(intToString(i32::MIN), "-2147483648");
}

#[test]
fn formatsTwoDigitNumbersZeroPadded() {
    assert_eq!(twoDigits(0), "00");
    assert_eq!(twoDigits(7), "07");
    assert_eq!(twoDigits(12), "12");
    assert_eq!(twoDigits(99), "99");
}

#[test]
fn findsTheFirstOccurrence() {
    assert_eq!(findFirstMatch("abcabc", "bc", 0), Some(1));
    assert_eq!(findFirstMatch("abcabc", "bc", 2), Some(4));
    assert_eq!(findFirstMatch("abcabc", "xy", 0), None);
    assert_eq!(findFirstMatch("abc", "", 1), Some(1));
}

#[test]
fn replacesEveryOccurrenceLeftmostFirst() {
    assert_eq!(replaceAll("a<t>b<t>", "<t>", "X"), "aXbX");
    assert_eq!(replaceAll("no tokens", "<t>", "X"), "no tokens");
    assert_eq!(replaceAll("aaa", "aa", "b"), "ba");
    assert_eq!(replaceAll("", "aa", "b"), "");
}

#[test]
fn splitsTextIntoLines() {
    assert_eq!(splitLines("a\nb\r\nc"), vec!["a", "b", "c"]);
    assert_eq!(splitLines("a\n"), vec!["a"]);
    assert_eq!(splitLines(""), Vec::<String>::new());
    assert_eq!(splitLines("\n"), vec![""]);
    assert_eq!(splitLines("a\n\nb"), vec!["a", "", "b"]);
}
