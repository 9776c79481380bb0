use vstd::prelude::*;
use vstd::string::StrSliceExecFns;
use vstd::string::StringExecFns;

verus! {

/// Relies on std's `String::push`: appends exactly the given character at
/// the end and changes nothing else.
#[verifier::external_body]
pub fn pushChar(s: &mut String, c: char)
    ensures
        final(s)@ == old(s)@.push(c),
{
    s.push(c);
}

/// The view of an optional text.
pub open spec fn opt_text(o: Option<String>) -> Option<Seq<char>> {
    match o {
        Some(s) => Some(s@),
        None => None,
    }
}

/// The decimal digit character for a value between 0 and 9.
pub open spec fn digit_char(d: int) -> char {
    if d == 0 {
        '0'
    } else if d == 1 {
        '1'
    } else if d == 2 {
        '2'
    } else if d == 3 {
        '3'
    } else if d == 4 {
        '4'
    } else if d == 5 {
        '5'
    } else if d == 6 {
        '6'
    } else if d == 7 {
        '7'
    } else if d == 8 {
        '8'
    } else {
        '9'
    }
}

/// Decimal notation of a non-negative number, without leading zeros
/// (except for the number 0 itself).
pub open spec fn spec_dec_nat(n: nat) -> Seq<char>
    decreases n,
{
    if n < 10 {
        seq![digit_char(n as int)]
    } else {
        spec_dec_nat(n / 10) + seq![digit_char((n % 10) as int)]
    }
}

/// Decimal notation of an integer: a minus sign before the digits when the
/// number is negative.
pub open spec fn spec_dec_int(n: int) -> Seq<char> {
    if n < 0 {
        seq!['-'] + spec_dec_nat((-n) as nat)
    } else {
        spec_dec_nat(n as nat)
    }
}

/// A number below 100 as exactly two digits, zero-padded.
pub open spec fn spec_two_digits(n: int) -> Seq<char> {
    seq![digit_char(n / 10), digit_char(n % 10)]
}

/// Appends the single digit `d` to `s`.
pub fn pushDigit(s: &mut String, d: u32)
    requires
        d < 10,
    ensures
        final(s)@ == old(s)@.push(digit_char(d as int)),
{
    match d {
        0 => {
            proof { reveal_strlit("0"); }
            s.append("0");
        },
        1 => {
            proof { reveal_strlit("1"); }
            s.append("1");
        },
        2 => {
            proof { reveal_strlit("2"); }
            s.append("2");
        },
        3 => {
            proof { reveal_strlit("3"); }
            s.append("3");
        },
        4 => {
            proof { reveal_strlit("4"); }
            s.append("4");
        },
        5 => {
            proof { reveal_strlit("5"); }
            s.append("5");
        },
        6 => {
            proof { reveal_strlit("6"); }
            s.append("6");
        },
        7 => {
            proof { reveal_strlit("7"); }
            s.append("7");
        },
        8 => {
            proof { reveal_strlit("8"); }
            s.append("8");
        },
        _ => {
            proof { reveal_strlit("9"); }
            s.append("9");
        },
    }
    proof {
        assert(s@ =~= old(s)@.push(digit_char(d as int)));
    }
}

/// Appends the decimal digits of `n` to `s`.
pub fn appendDecU32(s: &mut String, n: u32)
    ensures
        final(s)@ == old(s)@ + spec_dec_nat(n as nat),
    decreases n,
{
    if n < 10 {
        pushDigit(s, n);
        proof {
            assert(s@ =~= old(s)@ + spec_dec_nat(n as nat));
        }
    } else {
        appendDecU32(s, n / 10);
        pushDigit(s, n % 10);
        proof {
            assert(s@ =~= old(s)@ + spec_dec_nat(n as nat));
        }
    }
}

/// The decimal notation of `n` as a string.
pub fn intToString(n: i32) -> (r: String)
    ensures
        r@ == spec_dec_int(n as int),
{
    let mut s = String::new();
    if n >= 0 {
        appendDecU32(&mut s, n as u32);
    } else {
        proof { reveal_strlit("-"); }
        s.append("-");
        let magnitude: i64 = -(n as i64);
        appendDecU32(&mut s, magnitude as u32);
        proof {
            assert(s@ =~= spec_dec_int(n as int));
        }
    }
    s
}

/// `n` as exactly two digits, zero-padded; for months and the like.
pub fn twoDigits(n: u8) -> (r: String)
    requires
        n < 100,
    ensures
        r@ == spec_two_digits(n as int),
{
    let mut s = String::new();
    pushDigit(&mut s, (n / 10) as u32);
    pushDigit(&mut s, (n % 10) as u32);
    proof {
        assert(s@ =~= spec_two_digits(n as int));
    }
    s
}

/// The pattern occurs in `s` at position `i`.
pub open spec fn match_at(s: Seq<char>, pattern: Seq<char>, i: int) -> bool {
    &&& 0 <= i
    &&& i + pattern.len() <= s.len()
    &&& s.subrange(i, i + pattern.len()) =~= pattern
}

/// Whether the pattern occurs in `s` exactly at position `i`.
pub fn matchesAt(s: &str, pattern: &str, i: usize) -> (r: bool)
    requires
        i <= s@.len(),
    ensures
        r == match_at(s@, pattern@, i as int),
{
    let sLen = s.unicode_len();
    let patternLen = pattern.unicode_len();
    if patternLen > sLen - i {
        proof {
            assert(!match_at(s@, pattern@, i as int));
        }
        return false;
    }
    let mut j: usize = 0;
    while j < patternLen
        invariant
            0 <= j <= patternLen,
            i + patternLen <= sLen,
            sLen == s@.len(),
            patternLen == pattern@.len(),
            forall|k: int| 0 <= k < j ==> s@[i + k] == pattern@[k],
        decreases patternLen - j,
    {
        if s.get_char(i + j) != pattern.get_char(j) {
            proof {
                assert(s@.subrange(i as int, i + pattern@.len())[j as int] != pattern@[j as int]);
            }
            return false;
        }
        j = j + 1;
    }
    proof {
        assert(s@.subrange(i as int, i + pattern@.len()) =~= pattern@);
    }
    true
}

/// Position of the first occurrence of the pattern in `s` at or after
/// `from`, or `None` when it does not occur there.
pub fn findFirstMatch(s: &str, pattern: &str, from: usize) -> (r: Option<usize>)
    requires
        from <= s@.len(),
    ensures
        match r {
            Some(i) => {
                &&& from <= i
                &&& match_at(s@, pattern@, i as int)
                &&& forall|j: int| from <= j < i ==> !match_at(s@, pattern@, j)
            },
            None => forall|j: int| from <= j ==> !match_at(s@, pattern@, j),
        },
{
    let sLen = s.unicode_len();
    let mut i: usize = from;
    while i < sLen
        invariant
            from <= i <= sLen,
            sLen == s@.len(),
            forall|j: int| from <= j < i ==> !match_at(s@, pattern@, j),
        decreases sLen - i,
    {
        if matchesAt(s, pattern, i) {
            return Some(i);
        }
        i = i + 1;
    }
    if matchesAt(s, pattern, sLen) {
        return Some(sLen);
    }
    proof {
        assert(forall|j: int| from <= j ==> j > sLen ==> !match_at(s@, pattern@, j));
    }
    None
}

/// Law: where the first occurrence of a pattern falls is decided by the
/// text up to and including that occurrence alone — any text that agrees
/// there has its first occurrence at the same place, whatever follows.
pub proof fn lemma_first_match_from_prefix(a: Seq<char>, b: Seq<char>, pattern: Seq<char>, i: int)
    requires
        0 <= i,
        i + pattern.len() <= a.len(),
        i + pattern.len() <= b.len(),
        a.subrange(0, i + pattern.len()) == b.subrange(0, i + pattern.len()),
        match_at(a, pattern, i),
        forall|j: int| 0 <= j < i ==> !match_at(a, pattern, j),
    ensures
        match_at(b, pattern, i),
        forall|j: int| 0 <= j < i ==> !match_at(b, pattern, j),
{
    assert forall|k: int| 0 <= k < i + pattern.len() implies a[k] == b[k] by {
        assert(a.subrange(0, i + pattern.len())[k] == a[k]);
        assert(b.subrange(0, i + pattern.len())[k] == b[k]);
    }
    assert(b.subrange(i, i + pattern.len()) =~= a.subrange(i, i + pattern.len()));
    assert forall|j: int| 0 <= j < i implies !match_at(b, pattern, j) by {
        if match_at(b, pattern, j) {
            assert(a.subrange(j, j + pattern.len()) =~= b.subrange(j, j + pattern.len()));
            assert(match_at(a, pattern, j));
        }
    }
}

/// `s` with every occurrence of the pattern replaced, leftmost first and
/// without overlap, by the replacement.
pub open spec fn spec_replace(s: Seq<char>, pattern: Seq<char>, replacement: Seq<char>) -> Seq<char>
    decreases s.len(),
{
    if pattern.len() == 0 {
        s
    } else if s.len() < pattern.len() {
        s
    } else if s.subrange(0, pattern.len() as int) =~= pattern {
        replacement + spec_replace(s.skip(pattern.len() as int), pattern, replacement)
    } else {
        seq![s[0]] + spec_replace(s.skip(1), pattern, replacement)
    }
}

/// Replaces every occurrence of the pattern in `s`, leftmost first and
/// without overlap, by the replacement.
pub fn replaceAll(s: &str, pattern: &str, replacement: &str) -> (r: String)
    requires
        pattern@.len() > 0,
    ensures
        r@ == spec_replace(s@, pattern@, replacement@),
{
    let sLen = s.unicode_len();
    let patternLen = pattern.unicode_len();
    let mut out = String::new();
    let mut i: usize = 0;
    proof {
        assert(s@.skip(0) =~= s@);
    }
    while i < sLen
        invariant
            0 <= i <= sLen,
            sLen == s@.len(),
            patternLen == pattern@.len(),
            patternLen > 0,
            spec_replace(s@, pattern@, replacement@)
                == out@ + spec_replace(s@.skip(i as int), pattern@, replacement@),
        decreases sLen - i,
    {
        let ghost rest = s@.skip(i as int);
        if patternLen <= sLen - i && matchesAt(s, pattern, i) {
            out.append(replacement);
            proof {
                assert(rest.subrange(0, pattern@.len() as int) =~= s@.subrange(
                    i as int,
                    i + pattern@.len(),
                ));
                assert(rest.skip(pattern@.len() as int) =~= s@.skip(i + pattern@.len()));
            }
            i = i + patternLen;
        } else {
            let c = s.get_char(i);
            pushChar(&mut out, c);
            proof {
                if rest.len() >= pattern@.len() {
                    assert(rest.subrange(0, pattern@.len() as int) =~= s@.subrange(
                        i as int,
                        i + pattern@.len(),
                    ));
                    assert(!(rest.subrange(0, pattern@.len() as int) =~= pattern@));
                }
                assert(rest[0] == s@[i as int]);
                assert(rest.skip(1) =~= s@.skip(i + 1));
                assert(out@ + spec_replace(s@.skip(i + 1), pattern@, replacement@)
                    =~= spec_replace(s@, pattern@, replacement@));
            }
            i = i + 1;
        }
    }
    proof {
        assert(s@.skip(sLen as int) =~= Seq::<char>::empty());
        assert(out@ =~= spec_replace(s@, pattern@, replacement@));
    }
    out
}

/// A line accumulated up to a newline, with a carriage return immediately
/// before the newline stripped.
pub open spec fn strip_cr(line: Seq<char>) -> Seq<char> {
    if line.len() > 0 && line[line.len() - 1] == '\r' {
        line.drop_last()
    } else {
        line
    }
}

/// The lines of `s`, split at each newline; a carriage return directly
/// before a newline belongs to the line break, and a final line needs no
/// closing newline.  `cur` holds the characters of the line begun before
/// position `i`.
pub open spec fn lines_rec(s: Seq<char>, i: int, cur: Seq<char>) -> Seq<Seq<char>>
    decreases s.len() - i,
{
    if i < 0 || i >= s.len() {
        if cur.len() > 0 {
            seq![cur]
        } else {
            Seq::empty()
        }
    } else if s[i] == '\n' {
        seq![strip_cr(cur)] + lines_rec(s, i + 1, Seq::empty())
    } else {
        lines_rec(s, i + 1, cur.push(s[i]))
    }
}

/// The lines of `s`, as `str::lines` yields them.
pub open spec fn spec_lines(s: Seq<char>) -> Seq<Seq<char>> {
    lines_rec(s, 0, Seq::empty())
}

/// The views of a sequence of strings.
pub open spec fn views_of(ls: Seq<String>) -> Seq<Seq<char>> {
    ls.map_values(|l: String| l@)
}

/// Splits `s` into its lines.
pub fn splitLines(s: &str) -> (r: Vec<String>)
    ensures
        views_of(r@) == spec_lines(s@),
{
    let sLen = s.unicode_len();
    let mut out: Vec<String> = Vec::new();
    let mut lineStart: usize = 0;
    let mut i: usize = 0;
    proof {
        assert(views_of(out@) =~= Seq::<Seq<char>>::empty());
        assert(s@.subrange(0, 0) =~= Seq::<char>::empty());
    }
    while i < sLen
        invariant
            0 <= lineStart <= i <= sLen,
            sLen == s@.len(),
            spec_lines(s@) == views_of(out@) + lines_rec(
                s@,
                i as int,
                s@.subrange(lineStart as int, i as int),
            ),
        decreases sLen - i,
    {
        let ghost cur = s@.subrange(lineStart as int, i as int);
        if s.get_char(i) == '\n' {
            let lineEnd: usize = if i > lineStart && s.get_char(i - 1) == '\r' {
                i - 1
            } else {
                i
            };
            let line = s.substring_char(lineStart, lineEnd).to_owned();
            proof {
                assert(line@ =~= strip_cr(cur));
            }
            let ghost previousViews = views_of(out@);
            out.push(line);
            proof {
                assert(views_of(out@) =~= previousViews.push(line@));
                assert(s@.subrange(i + 1, i + 1) =~= Seq::<char>::empty());
            }
            i = i + 1;
            lineStart = i;
        } else {
            proof {
                assert(s@.subrange(lineStart as int, i + 1) =~= cur.push(s@[i as int]));
            }
            i = i + 1;
        }
    }
    if lineStart < sLen {
        let line = s.substring_char(lineStart, sLen).to_owned();
        let ghost previousViews = views_of(out@);
        out.push(line);
        proof {
            assert(views_of(out@) =~= previousViews.push(line@));
        }
    }
    proof {
        assert(views_of(out@) =~= spec_lines(s@));
    }
    out
}

} // verus!
