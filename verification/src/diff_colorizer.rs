use vstd::prelude::*;
use vstd::string::StrSliceExecFns;

use crate::line_number::LineNumber;
use crate::strings::{findFirstMatch, match_at, spec_lines, splitLines, views_of};

verus! {

/// Visual classification of one line of formatted diff text, decided by the
/// line's first character.
#[derive(Clone, Copy, Debug, PartialEq, Eq, Structural)]
pub enum LineClass {
    Normal,
    Added,
    Removed,
    HunkHeader,
    FileHeader,
}

/// A maximal run of consecutive lines sharing one classification, spanning
/// `[startLine, endLine)`.
#[derive(Clone, Copy, Debug, PartialEq, Eq, Structural)]
pub struct Span {
    pub class: LineClass,
    pub startLine: LineNumber,
    pub endLine: LineNumber,
}

/// Everything one colorization pass decides: the classification runs, and
/// the lines that additionally carry a hunk-header tag of their own.
#[derive(Clone, Debug, PartialEq, Eq)]
pub struct ColorizeResult {
    pub spans: Vec<Span>,
    pub hunkHeaderLines: Vec<LineNumber>,
}

/// How a line is classified: `+` added, `-` removed, `@` a hunk header, a
/// space or the commit-metadata initials `C`/`A`/`D` normal text, anything
/// else a file header.  An empty line is not classified at all.
pub open spec fn spec_line_class(line: Seq<char>) -> Option<LineClass> {
    if line.len() == 0 {
        None
    } else if line[0] == '+' {
        Some(LineClass::Added)
    } else if line[0] == '-' {
        Some(LineClass::Removed)
    } else if line[0] == '@' {
        Some(LineClass::HunkHeader)
    } else if line[0] == ' ' || line[0] == 'C' || line[0] == 'A' || line[0] == 'D' {
        Some(LineClass::Normal)
    } else {
        Some(LineClass::FileHeader)
    }
}

/// Classifies one line by its first character.
pub fn classifyLine(line: &str) -> (r: Option<LineClass>)
    ensures
        r == spec_line_class(line@),
{
    if line.unicode_len() == 0 {
        return None;
    }
    let c = line.get_char(0);
    if c == '+' {
        Some(LineClass::Added)
    } else if c == '-' {
        Some(LineClass::Removed)
    } else if c == '@' {
        Some(LineClass::HunkHeader)
    } else if c == ' ' || c == 'C' || c == 'A' || c == 'D' {
        Some(LineClass::Normal)
    } else {
        Some(LineClass::FileHeader)
    }
}

/// The classification runs of `lines[i..]`, given that the run open so far
/// began at `curStart` with class `curClass`.  An unclassified (empty) line
/// neither closes nor changes the open run; the run still open at the end
/// of the text is closed there.
pub open spec fn spans_rec(
    lines: Seq<Seq<char>>,
    i: int,
    curStart: int,
    curClass: LineClass,
) -> Seq<Span>
    decreases lines.len() - i,
{
    if i < 0 || i >= lines.len() {
        if curStart < lines.len() {
            seq![
                Span {
                    class: curClass,
                    startLine: LineNumber(curStart as usize),
                    endLine: LineNumber(lines.len() as usize),
                },
            ]
        } else {
            Seq::empty()
        }
    } else {
        match spec_line_class(lines[i]) {
            None => spans_rec(lines, i + 1, curStart, curClass),
            Some(c) => {
                if c == curClass {
                    spans_rec(lines, i + 1, curStart, curClass)
                } else if i > curStart {
                    seq![
                        Span {
                            class: curClass,
                            startLine: LineNumber(curStart as usize),
                            endLine: LineNumber(i as usize),
                        },
                    ] + spans_rec(lines, i + 1, i, c)
                } else {
                    spans_rec(lines, i + 1, i, c)
                }
            },
        }
    }
}

/// The classification runs of a whole text.  The automaton starts each pass
/// in the normal state at line zero.
pub open spec fn spec_spans(lines: Seq<Seq<char>>) -> Seq<Span> {
    spans_rec(lines, 0, 0, LineClass::Normal)
}

/// The hunk-header lines of `lines[i..]`: each gets its own nested tag on
/// top of whatever run it lies in.
pub open spec fn hunk_lines_rec(lines: Seq<Seq<char>>, i: int) -> Seq<LineNumber>
    decreases lines.len() - i,
{
    if i < 0 || i >= lines.len() {
        Seq::empty()
    } else if spec_line_class(lines[i]) == Some(LineClass::HunkHeader) {
        seq![LineNumber(i as usize)] + hunk_lines_rec(lines, i + 1)
    } else {
        hunk_lines_rec(lines, i + 1)
    }
}

/// All hunk-header lines of a text, in order.
pub open spec fn spec_hunk_lines(lines: Seq<Seq<char>>) -> Seq<LineNumber> {
    hunk_lines_rec(lines, 0)
}

/// The streaming line classifier.  It keeps only the state of the run that
/// is currently open: its class and the line where it began.
pub struct DiffColorizer {
    state: LineClass,
    tagStartLine: LineNumber,
}

impl DiffColorizer {
    /// A colorizer ready for its first pass.  The scratch state it keeps
    /// between lines is reset at the start of every pass, so a fresh one
    /// and a reused one colorize alike.
    pub fn new() -> DiffColorizer {
        DiffColorizer { state: LineClass::Normal, tagStartLine: LineNumber(0) }
    }

    /// Classifies every line of `diff` in one pass and returns the maximal
    /// same-classified runs plus the hunk-header lines.  The pass always
    /// starts afresh in the normal state.
    pub fn colorize(&mut self, diff: &str) -> (r: ColorizeResult)
        ensures
            r.spans@ == spec_spans(spec_lines(diff@)),
            r.hunkHeaderLines@ == spec_hunk_lines(spec_lines(diff@)),
    {
        let lines = splitLines(diff);
        let ghost vs = views_of(lines@);
        let n = lines.len();
        let mut spans: Vec<Span> = Vec::new();
        let mut hunkHeaderLines: Vec<LineNumber> = Vec::new();
        let mut state = LineClass::Normal;
        let mut tagStartLine: usize = 0;
        let mut i: usize = 0;
        while i < n
            invariant
                vs == spec_lines(diff@),
                vs == views_of(lines@),
                n == lines@.len(),
                vs.len() == n,
                0 <= tagStartLine <= i <= n,
                spec_spans(vs) == spans@ + spans_rec(vs, i as int, tagStartLine as int, state),
                spec_hunk_lines(vs) == hunkHeaderLines@ + hunk_lines_rec(vs, i as int),
            decreases n - i,
        {
            proof {
                assert(vs[i as int] == lines@[i as int]@);
            }
            match classifyLine(lines[i].as_str()) {
                None => {},
                Some(c) => {
                    if !(c == state) {
                        if i > tagStartLine {
                            let span = Span {
                                class: state,
                                startLine: LineNumber(tagStartLine),
                                endLine: LineNumber(i),
                            };
                            let ghost spansPrev = spans@;
                            spans.push(span);
                            proof {
                                let rest = spans_rec(vs, i + 1, i as int, c);
                                assert(spansPrev + (seq![span] + rest) =~= spans@ + rest);
                            }
                        }
                        tagStartLine = i;
                        state = c;
                    }
                    if c == LineClass::HunkHeader {
                        let ghost hunksPrev = hunkHeaderLines@;
                        hunkHeaderLines.push(LineNumber(i));
                        proof {
                            let rest = hunk_lines_rec(vs, i + 1);
                            assert(hunksPrev + (seq![LineNumber(i as usize)] + rest)
                                =~= hunkHeaderLines@ + rest);
                        }
                    }
                },
            }
            i = i + 1;
        }
        if tagStartLine < n {
            let span = Span {
                class: state,
                startLine: LineNumber(tagStartLine),
                endLine: LineNumber(n),
            };
            let ghost spansPrev = spans@;
            spans.push(span);
            proof {
                assert(spansPrev + seq![span] =~= spans@);
            }
        }
        self.state = state;
        self.tagStartLine = LineNumber(tagStartLine);
        proof {
            assert(spans@ =~= spec_spans(vs));
            assert(hunkHeaderLines@ =~= spec_hunk_lines(vs));
        }
        ColorizeResult { spans, hunkHeaderLines }
    }
}

/// The spans that receive a visual region tag: normal runs need none, and
/// hunk headers are tagged per line, not per run.
pub open spec fn spec_region_tags(spans: Seq<Span>) -> Seq<Span> {
    spans.filter(|s: Span| s.class != LineClass::Normal && s.class != LineClass::HunkHeader)
}

/// Keeps the spans that actually receive a visual region tag.
pub fn regionTags(spans: &Vec<Span>) -> (r: Vec<Span>)
    ensures
        r@ == spec_region_tags(spans@),
{
    let mut out: Vec<Span> = Vec::new();
    let mut i: usize = 0;
    proof {
        reveal(Seq::filter);
        assert(spans@.take(0) =~= Seq::<Span>::empty());
        assert(spec_region_tags(spans@.take(0)) =~= Seq::<Span>::empty());
    }
    while i < spans.len()
        invariant
            0 <= i <= spans@.len(),
            out@ == spec_region_tags(spans@.take(i as int)),
        decreases spans@.len() - i,
    {
        let s = spans[i];
        proof {
            reveal(Seq::filter);
            assert(spans@.take(i + 1).drop_last() =~= spans@.take(i as int));
            assert(spans@.take(i + 1).last() == s);
        }
        if !(s.class == LineClass::Normal) && !(s.class == LineClass::HunkHeader) {
            out.push(s);
        }
        i = i + 1;
    }
    proof {
        assert(spans@.take(spans@.len() as int) =~= spans@);
    }
    out
}

/// Where the nested hunk-header tag on a hunk line ends: one past the
/// first occurrence of the literal ` @@` in the line (hunk headers look
/// like `@@ -a,b +c,d @@ context`), counted in characters from the line's
/// start; nothing when the line has no such occurrence and the search
/// must carry on in the following text.
pub fn hunkHeaderTagEnd(line: &str) -> (r: Option<usize>)
    ensures
        match r {
            Some(end) => {
                &&& end >= 3
                &&& end <= line@.len()
                &&& match_at(line@, (" @@")@, end - 3)
                &&& forall|j: int| 0 <= j < end - 3 ==> !match_at(line@, (" @@")@, j)
            },
            None => forall|j: int| 0 <= j ==> !match_at(line@, (" @@")@, j),
        },
{
    proof {
        reveal_strlit(" @@");
    }
    let len = line.unicode_len();
    match findFirstMatch(line, " @@", 0) {
        Some(i) => {
            proof {
                assert(i + 3 <= len);
            }
            Some(i + 3)
        },
        None => None,
    }
}

/// Where the nested hunk-header tag beginning at `startLine` ends when the
/// search for the first ` @@` carries on into the following lines, as the
/// text buffer's forward search does: the line holding the first
/// occurrence at or after `startLine`, with the column one past it.
/// Nothing when the rest of the text has no occurrence at all.  The
/// pattern holds no line break, so searching line by line sees every
/// occurrence the buffer search sees.
pub fn hunkHeaderTagEndFrom(lines: &Vec<String>, startLine: usize) -> (r: Option<(usize, usize)>)
    requires
        startLine <= lines@.len(),
    ensures
        match r {
            Some(found) => {
                &&& startLine <= found.0 < lines@.len()
                &&& 3 <= found.1 <= lines@[found.0 as int]@.len()
                &&& match_at(lines@[found.0 as int]@, (" @@")@, found.1 - 3)
                &&& forall|j: int|
                    0 <= j < found.1 - 3 ==> !match_at(lines@[found.0 as int]@, (" @@")@, j)
                &&& forall|k: int, j: int|
                    startLine <= k < found.0 && 0 <= j ==> !match_at(lines@[k]@, (" @@")@, j)
            },
            None => forall|k: int, j: int|
                startLine <= k < lines@.len() && 0 <= j ==> !match_at(lines@[k]@, (" @@")@, j),
        },
{
    let mut k: usize = startLine;
    while k < lines.len()
        invariant
            startLine <= k <= lines@.len(),
            forall|k2: int, j: int|
                startLine <= k2 < k && 0 <= j ==> !match_at(lines@[k2]@, (" @@")@, j),
        decreases lines@.len() - k,
    {
        match hunkHeaderTagEnd(lines[k].as_str()) {
            Some(end) => {
                return Some((k, end));
            },
            None => {},
        }
        k = k + 1;
    }
    None
}

/// A sequence of spans that tiles `[start, end)` seamlessly: each span is
/// non-empty, the first begins at `start`, the last ends at `end`, and each
/// span ends exactly where the next begins.
pub open spec fn spans_chain(spans: Seq<Span>, start: int, end: int) -> bool {
    &&& (spans.len() == 0 ==> start == end)
    &&& (spans.len() > 0 ==> spans[0].startLine.0 == start
        && spans[spans.len() - 1].endLine.0 == end)
    &&& forall|k: int| 0 <= k < spans.len() ==> (#[trigger] spans[k]).startLine.0
        < spans[k].endLine.0
    &&& forall|k: int|
        #![trigger spans[k], spans[k + 1]]
        0 <= k < spans.len() - 1 ==> spans[k].endLine.0 == spans[k + 1].startLine.0
}

/// In a chain, an earlier span ends before (or exactly where) a later one
/// begins: spans never overlap.
pub proof fn lemma_chain_ordered(spans: Seq<Span>, start: int, end: int, k1: int, k2: int)
    requires
        spans_chain(spans, start, end),
        0 <= k1 < k2 < spans.len(),
    ensures
        spans[k1].endLine.0 <= spans[k2].startLine.0,
    decreases k2 - k1,
{
    if k2 == k1 + 1 {
        assert(spans[k1].endLine.0 == spans[k1 + 1].startLine.0);
    } else {
        lemma_chain_ordered(spans, start, end, k1, k2 - 1);
        assert(spans[k2 - 1].endLine.0 == spans[(k2 - 1) + 1].startLine.0);
    }
}

/// Some span of `spans` contains line `l`.
pub open spec fn covered_by(spans: Seq<Span>, l: int) -> bool {
    exists|k: int|
        0 <= k < spans.len() && (#[trigger] spans[k]).startLine.0 <= l < spans[k].endLine.0
}

#[verifier::rlimit(100)]
proof fn lemma_spans_rec_partition(lines: Seq<Seq<char>>, i: int, curStart: int, curClass: LineClass)
    requires
        0 <= curStart <= i <= lines.len() <= usize::MAX,
    ensures
        spans_chain(spans_rec(lines, i, curStart, curClass), curStart, lines.len() as int),
        forall|l: int|
            curStart <= l < lines.len() ==> #[trigger] covered_by(
                spans_rec(lines, i, curStart, curClass),
                l,
            ),
    decreases lines.len() - i,
{
    let spans = spans_rec(lines, i, curStart, curClass);
    if i >= lines.len() {
        // the still-open run is closed at the end of the text
        if curStart < lines.len() {
            assert forall|l: int| curStart <= l < lines.len() implies covered_by(spans, l) by {
                assert(0 <= 0 < spans.len() && spans[0].startLine.0 <= l < spans[0].endLine.0);
            }
        }
    } else {
        match spec_line_class(lines[i]) {
            None => {
                lemma_spans_rec_partition(lines, i + 1, curStart, curClass);
            },
            Some(c) => {
                if c == curClass {
                    lemma_spans_rec_partition(lines, i + 1, curStart, curClass);
                } else if i > curStart {
                    lemma_spans_rec_partition(lines, i + 1, i, c);
                    let head = Span {
                        class: curClass,
                        startLine: LineNumber(curStart as usize),
                        endLine: LineNumber(i as usize),
                    };
                    let rest = spans_rec(lines, i + 1, i, c);
                    assert(spans == seq![head] + rest);
                    assert(spans[0] == head);
                    assert(forall|k: int| 0 <= k < rest.len() ==> spans[k + 1] == rest[k]);
                    assert(rest.len() > 0);
                    assert(spans[spans.len() - 1] == rest[rest.len() - 1]);
                    assert forall|k: int| 0 <= k < spans.len() implies (#[trigger] spans[k]).startLine.0
                        < spans[k].endLine.0 by {
                        if k > 0 {
                            assert(spans[k] == rest[k - 1]);
                        }
                    }
                    assert forall|k: int|
                        #![trigger spans[k], spans[k + 1]]
                        0 <= k < spans.len() - 1 implies spans[k].endLine.0
                        == spans[k + 1].startLine.0 by {
                        if k == 0 {
                            assert(spans[1] == rest[0]);
                        } else {
                            assert(spans[k] == rest[k - 1]);
                            assert(spans[k + 1] == rest[k]);
                            assert(rest[k - 1].endLine.0 == rest[(k - 1) + 1].startLine.0);
                        }
                    }
                    assert forall|l: int| curStart <= l < lines.len() implies covered_by(
                        spans,
                        l,
                    ) by {
                        if l < i {
                            assert(0 <= 0 < spans.len() && spans[0].startLine.0 <= l
                                < spans[0].endLine.0);
                        } else {
                            assert(covered_by(rest, l));
                            let k0 = choose|k0: int|
                                0 <= k0 < rest.len() && (#[trigger] rest[k0]).startLine.0 <= l
                                    < rest[k0].endLine.0;
                            assert(0 <= k0 + 1 < spans.len() && spans[k0 + 1].startLine.0 <= l
                                < spans[k0 + 1].endLine.0);
                        }
                    }
                } else {
                    lemma_spans_rec_partition(lines, i + 1, i, c);
                }
            },
        }
    }
}

/// Law: the classification runs of any text tile the text's lines without
/// gap and without overlap — every line lies in exactly one run, runs touch
/// exactly, and none is empty.
pub proof fn lemma_colorize_partition(lines: Seq<Seq<char>>)
    requires
        lines.len() <= usize::MAX,
    ensures
        spans_chain(spec_spans(lines), 0, lines.len() as int),
        forall|l: int| 0 <= l < lines.len() ==> #[trigger] covered_by(spec_spans(lines), l),
{
    lemma_spans_rec_partition(lines, 0, 0, LineClass::Normal);
}

} // verus!
