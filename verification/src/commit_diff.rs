use vstd::prelude::*;
use vstd::string::StrSliceExecFns;
use vstd::string::StringExecFns;

use crate::date_time::{formatRfc2822, rfc2822_of, DateTime};
use crate::strings::{pushChar, spec_lines, splitLines, views_of};

verus! {

/// The indented message lines: four spaces before every line, a line break
/// after each.
pub open spec fn tabulated_lines(lines: Seq<Seq<char>>) -> Seq<char>
    decreases lines.len(),
{
    if lines.len() == 0 {
        Seq::empty()
    } else {
        seq![' ', ' ', ' ', ' '] + lines[0] + seq!['\n'] + tabulated_lines(lines.skip(1))
    }
}

/// A whole message, indented line by line.
pub open spec fn spec_tabulated(message: Seq<char>) -> Seq<char> {
    tabulated_lines(spec_lines(message))
}

/// Indents every line of a commit message by four spaces, closing each
/// with a line break.
pub fn tabulateCommitMessage(message: &str) -> (r: String)
    ensures
        r@ == spec_tabulated(message@),
{
    let lines = splitLines(message);
    let ghost vs = views_of(lines@);
    let mut result = String::new();
    let mut i: usize = 0;
    proof {
        assert(vs.skip(0) =~= vs);
    }
    while i < lines.len()
        invariant
            0 <= i <= lines@.len(),
            vs == views_of(lines@),
            vs == spec_lines(message@),
            spec_tabulated(message@) == result@ + tabulated_lines(vs.skip(i as int)),
        decreases lines@.len() - i,
    {
        proof {
            reveal_strlit("    ");
            assert(("    ")@ =~= seq![' ', ' ', ' ', ' ']);
            assert(vs.skip(i as int)[0] == vs[i as int]);
            assert(vs.skip(i as int).skip(1) =~= vs.skip(i + 1));
            assert(vs[i as int] == lines@[i as int]@);
        }
        result.append("    ");
        result.append(lines[i].as_str());
        pushChar(&mut result, '\n');
        i = i + 1;
    }
    proof {
        assert(vs.skip(lines@.len() as int) =~= Seq::<Seq<char>>::empty());
        assert(result@ =~= spec_tabulated(message@));
    }
    result
}

/// The message text a commit yields: the UTF-8 message when present, else
/// the lossily decoded bytes.
pub open spec fn spec_message(message: Option<String>, messageLossy: String) -> Seq<char> {
    match message {
        Some(m) => m@,
        None => messageLossy@,
    }
}

/// The message of a commit, falling back to the replacement-decoded bytes
/// where the message was not valid UTF-8.
pub fn getMessage(message: &Option<String>, messageLossy: &String) -> (r: String)
    ensures
        r@ == spec_message(*message, *messageLossy),
{
    match message {
        Some(m) => m.clone(),
        None => messageLossy.clone(),
    }
}

/// The header block over a diff: id, author, date in RFC 2822 form, and
/// the indented message.
pub open spec fn spec_commit_summary(
    id: Seq<char>,
    authorName: Seq<char>,
    authorEmail: Seq<char>,
    dateText: Seq<char>,
    message: Seq<char>,
) -> Seq<char> {
    ("Commit: ")@ + id + ("\nAuthor: ")@ + authorName + (" <")@ + authorEmail + (">\nDate:   ")@
        + dateText + ("\n\n")@ + spec_tabulated(message) + ("\n")@
}

/// Builds the human-readable header block for one commit: its id, its
/// author with email, its date rendered RFC 2822, and its message indented.
/// Nothing is returned when the date cannot be rendered.
pub fn makeCommitSummary(
    id: &str,
    authorName: &str,
    authorEmail: &str,
    time: &DateTime,
    message: &str,
) -> (r: Option<String>)
    ensures
        match r {
            Some(s) => rfc2822_of(*time) matches Some(dateText) && s@ == spec_commit_summary(
                id@,
                authorName@,
                authorEmail@,
                dateText,
                message@,
            ),
            None => rfc2822_of(*time) is None,
        },
{
    let dateText = match formatRfc2822(time) {
        Some(d) => d,
        None => return None,
    };
    let mut s = String::new();
    s.append("Commit: ");
    s.append(id);
    s.append("\nAuthor: ");
    s.append(authorName);
    s.append(" <");
    s.append(authorEmail);
    s.append(">\nDate:   ");
    s.append(dateText.as_str());
    s.append("\n\n");
    let tabulated = tabulateCommitMessage(message);
    s.append(tabulated.as_str());
    s.append("\n");
    Some(s)
}

} // verus!
