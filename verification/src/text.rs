//! Text as sequences of characters: replacing, escaping line breaks so that a
//! multi-line value fits on one line, undoing that, and splitting into lines.

use vstd::prelude::*;
use vstd::std_specs::iter::IteratorSpec;
use vstd::string::StringExecFns;

verus! {

/// `p` is what `s` begins with.
pub open spec fn has_prefix(s: Seq<char>, p: Seq<char>) -> bool {
    p.len() <= s.len() && s.take(p.len() as int) == p
}

/// `s` with every occurrence of `from` replaced by `to`. Occurrences are
/// found from the left and do not overlap; what has been put in is not
/// searched again. An empty `from` occurs nowhere.
pub open spec fn replaced(s: Seq<char>, from: Seq<char>, to: Seq<char>) -> Seq<char>
    decreases s.len(),
{
    if from.len() == 0 || s.len() == 0 {
        s
    } else if has_prefix(s, from) {
        to + replaced(s.skip(from.len() as int), from, to)
    } else {
        s.take(1) + replaced(s.skip(1), from, to)
    }
}

/// The line feed character, alone.
pub open spec fn line_feed() -> Seq<char> {
    seq!['\n']
}

/// Carriage return followed by line feed.
pub open spec fn carriage_return_line_feed() -> Seq<char> {
    seq!['\r', '\n']
}

/// A backslash followed by the letter `n`: what stands for a line feed in an
/// escaped value.
pub open spec fn line_feed_marker() -> Seq<char> {
    seq!['\\', 'n']
}

/// `s` with Unix line endings: each carriage return + line feed pair has
/// become a line feed.
pub open spec fn normalized(s: Seq<char>) -> Seq<char> {
    replaced(s, carriage_return_line_feed(), line_feed())
}

/// The single-line form of `s`: line endings normalized, then each line feed
/// replaced by the two-character marker.
pub open spec fn escaped(s: Seq<char>) -> Seq<char> {
    replaced(normalized(s), line_feed(), line_feed_marker())
}

/// `s` with each marker turned back into a line feed.
pub open spec fn unescaped(s: Seq<char>) -> Seq<char> {
    replaced(s, line_feed_marker(), line_feed())
}

/// The characters of `s`, one by one.
pub fn chars_of(s: &str) -> (v: Vec<char>)
    ensures
        v@ == s@,
{
    let mut v: Vec<char> = Vec::new();
    for c in it: s.chars()
        invariant
            it.seq() == s@,
            v@ == s@.take(it.index() as int),
    {
        v.push(c);
    }
    v
}

/// The string made of the characters `v[lo..hi]`.
pub fn text_of_range(v: &Vec<char>, lo: usize, hi: usize) -> (s: String)
    requires
        lo <= hi <= v.len(),
    ensures
        s@ == v@.subrange(lo as int, hi as int),
{
    let mut s = String::new();
    let mut i: usize = lo;
    while i < hi
        invariant
            lo <= i <= hi <= v.len(),
            s@ == v@.subrange(lo as int, i as int),
        decreases hi - i,
    {
        s.push(v[i]);
        i += 1;
    }
    s
}

/// Whether `pat` stands in `text` at position `at`.
fn occurs_at(text: &Vec<char>, at: usize, pat: &Vec<char>) -> (r: bool)
    requires
        at <= text.len(),
    ensures
        r == has_prefix(text@.skip(at as int), pat@),
{
    if pat.len() > text.len() - at {
        return false;
    }
    let mut k: usize = 0;
    while k < pat.len()
        invariant
            k <= pat.len(),
            at + pat.len() <= text.len(),
            forall|j: int| 0 <= j < k ==> text@[at + j] == pat@[j],
        decreases pat.len() - k,
    {
        if text[at + k] != pat[k] {
            assert(text@.skip(at as int).take(pat.len() as int)[k as int] != pat@[k as int]);
            return false;
        }
        k += 1;
    }
    assert(text@.skip(at as int).take(pat.len() as int) =~= pat@);
    true
}

/// Whether `a` and `b` are the same text.
pub fn same_text(a: &str, b: &str) -> (r: bool)
    ensures
        r == (a@ == b@),
{
    let mut rest_a = a.chars();
    let mut rest_b = b.chars();
    let ghost mut n: int = 0;
    loop
        invariant
            0 <= n <= a@.len(),
            n <= b@.len(),
            rest_a.remaining() == a@.skip(n),
            rest_b.remaining() == b@.skip(n),
            a@.take(n) == b@.take(n),
        decreases a@.len() - n,
    {
        let next_a = rest_a.next();
        let next_b = rest_b.next();
        match (next_a, next_b) {
            (None, None) => {
                assert(a@ =~= a@.take(n));
                assert(b@ =~= b@.take(n));
                return true;
            },
            (Some(x), Some(y)) => {
                if x != y {
                    assert(a@[n] != b@[n]);
                    return false;
                }
                proof {
                    assert(a@.take(n + 1) =~= a@.take(n).push(a@[n]));
                    assert(b@.take(n + 1) =~= b@.take(n).push(b@[n]));
                    assert(a@.skip(n).drop_first() =~= a@.skip(n + 1));
                    assert(b@.skip(n).drop_first() =~= b@.skip(n + 1));
                    n = n + 1;
                }
            },
            _ => {
                return false;
            },
        }
    }
}

/// Whether `text` begins with `prefix`.
pub fn starts_with(text: &str, prefix: &str) -> (r: bool)
    ensures
        r == has_prefix(text@, prefix@),
{
    let src = chars_of(text);
    let pat = chars_of(prefix);
    proof {
        assert(src@.skip(0) =~= text@);
    }
    occurs_at(&src, 0, &pat)
}

/// Replaces every occurrence of `from` in `text` by `to`, from the left and
/// without overlap. With an empty `from` the text comes back unchanged.
pub fn replace_all(text: &str, from: &str, to: &str) -> (r: String)
    ensures
        r@ == replaced(text@, from@, to@),
{
    let src = chars_of(text);
    let pat = chars_of(from);
    let mut out = String::new();
    if pat.len() == 0 {
        out.append(text);
        return out;
    }
    let mut i: usize = 0;
    proof {
        assert(text@.skip(0) =~= text@);
        assert(out@ + replaced(text@, from@, to@) =~= replaced(text@, from@, to@));
    }
    while i < src.len()
        invariant
            i <= src.len(),
            src@ == text@,
            pat@ == from@,
            pat.len() > 0,
            out@ + replaced(text@.skip(i as int), from@, to@) == replaced(text@, from@, to@),
        decreases src.len() - i,
    {
        let ghost rest = text@.skip(i as int);
        if occurs_at(&src, i, &pat) {
            proof {
                assert(rest.skip(pat.len() as int) =~= text@.skip(i + pat.len()));
                assert((out@ + to@) + replaced(rest.skip(pat.len() as int), from@, to@) =~= out@
                    + (to@ + replaced(rest.skip(pat.len() as int), from@, to@)));
            }
            out.append(to);
            i += pat.len();
        } else {
            proof {
                assert(rest.skip(1) =~= text@.skip(i + 1));
                assert(rest.take(1) =~= seq![src@[i as int]]);
                assert(out@.push(src@[i as int]) + replaced(rest.skip(1), from@, to@) =~= out@ + (
                rest.take(1) + replaced(rest.skip(1), from@, to@)));
            }
            out.push(src[i]);
            i += 1;
        }
    }
    out
}

/// Escapes the line breaks of `s` so that it fits on one line: each carriage
/// return + line feed pair and each lone line feed becomes a backslash
/// followed by `n`.
pub fn escape_newlines(s: &str) -> (r: String)
    ensures
        r@ == escaped(s@),
{
    proof {
        reveal_strlit("\r\n");
        reveal_strlit("\n");
        reveal_strlit("\\n");
        assert("\r\n"@ =~= carriage_return_line_feed());
        assert("\n"@ =~= line_feed());
        assert("\\n"@ =~= line_feed_marker());
    }
    let unix = replace_all(s, "\r\n", "\n");
    replace_all(unix.as_str(), "\n", "\\n")
}

/// Turns each backslash followed by `n` in `s` back into a line feed.
pub fn unescape_newlines(s: &str) -> (r: String)
    ensures
        r@ == unescaped(s@),
{
    proof {
        reveal_strlit("\n");
        reveal_strlit("\\n");
        assert("\n"@ =~= line_feed());
        assert("\\n"@ =~= line_feed_marker());
    }
    replace_all(s, "\\n", "\n")
}

/// A backslash stands at `i` in `s`, and the letter `n` right after it.
pub open spec fn marker_at(s: Seq<char>, i: int) -> bool {
    0 <= i && i + 1 < s.len() && s[i] == '\\' && s[i + 1] == 'n'
}

/// `s` holds a backslash directly followed by the letter `n`.
pub open spec fn has_marker(s: Seq<char>) -> bool {
    exists|i: int| marker_at(s, i)
}

/// The first character of a text whose line feeds were replaced by markers.
proof fn lemma_marked_head(t: Seq<char>)
    requires
        t.len() > 0,
    ensures
        replaced(t, line_feed(), line_feed_marker()).len() > 0,
        t[0] == '\n' ==> replaced(t, line_feed(), line_feed_marker())[0] == '\\',
        t[0] != '\n' ==> replaced(t, line_feed(), line_feed_marker())[0] == t[0],
{
    if t[0] == '\n' {
        assert(t.take(1) =~= line_feed());
    } else {
        assert(t.take(1)[0] != line_feed()[0]);
    }
}

/// One step of undoing the markers of `t`: what comes back is either the
/// first character of `t` and the rest undone, or, where `t` itself begins
/// with a marker, a line feed and what follows the marker undone.
proof fn lemma_round_trip_step(t: Seq<char>)
    requires
        t.len() > 0,
    ensures
        marker_at(t, 0) ==> unescaped(replaced(t, line_feed(), line_feed_marker())) == line_feed()
            + unescaped(replaced(t.skip(2), line_feed(), line_feed_marker())),
        !marker_at(t, 0) ==> unescaped(replaced(t, line_feed(), line_feed_marker())) == t.take(1)
            + unescaped(replaced(t.skip(1), line_feed(), line_feed_marker())),
{
    let lf = line_feed();
    let m = line_feed_marker();
    let e = replaced(t, lf, m);
    let rest = replaced(t.skip(1), lf, m);
    if t[0] == '\n' {
        assert(t.take(1) =~= lf);
        assert(e == m + rest);
        assert(e.take(2) =~= m);
        assert(e.skip(2) =~= rest);
        assert(t.take(1) == lf);
    } else {
        assert(t.take(1)[0] != lf[0]);
        assert(e == t.take(1) + rest);
        if marker_at(t, 0) {
            let u = t.skip(1);
            assert(u[0] == 'n');
            assert(u.take(1)[0] != lf[0]);
            assert(rest == u.take(1) + replaced(u.skip(1), lf, m));
            assert(u.skip(1) =~= t.skip(2));
            assert(e.take(2) =~= m);
            assert(e.skip(2) =~= replaced(t.skip(2), lf, m));
        } else {
            if t.len() > 1 {
                lemma_marked_head(t.skip(1));
            }
            if e.len() >= 2 {
                assert(e.take(2)[0] == t[0]);
                assert(e.take(2)[1] == rest[0]);
                assert(e.take(2) != m);
            }
            assert(!has_prefix(e, m));
            assert(e.take(1) =~= t.take(1));
            assert(e.skip(1) =~= rest);
        }
    }
}

/// Undoing the markers of a text never makes it longer than the text was,
/// and gives the text back exactly where it held no marker of its own.
proof fn lemma_round_trip_marked(t: Seq<char>)
    ensures
        unescaped(replaced(t, line_feed(), line_feed_marker())).len() <= t.len(),
        has_marker(t) ==> unescaped(replaced(t, line_feed(), line_feed_marker())).len() < t.len(),
        !has_marker(t) ==> unescaped(replaced(t, line_feed(), line_feed_marker())) == t,
    decreases t.len(),
{
    if t.len() > 0 {
        lemma_round_trip_step(t);
        if marker_at(t, 0) {
            lemma_round_trip_marked(t.skip(2));
        } else {
            let u = t.skip(1);
            lemma_round_trip_marked(u);
            if has_marker(t) {
                let i = choose|i: int| marker_at(t, i);
                assert(marker_at(u, i - 1));
            } else {
                assert forall|i: int| !marker_at(u, i) by {
                    assert(!marker_at(t, i + 1));
                }
                assert(t.take(1) + u =~= t);
            }
        }
    }
}

/// Escaping and then unescaping gives back the text with Unix line endings,
/// on exactly those texts that, once normalized, hold no backslash directly
/// followed by `n`: such a pair cannot be told from a marker afterwards.
pub proof fn lemma_escape_round_trip(s: Seq<char>)
    ensures
        unescaped(escaped(s)) == normalized(s) <==> !has_marker(normalized(s)),
{
    lemma_round_trip_marked(normalized(s));
}

/// A text whose line feeds were replaced by markers holds no line feed.
proof fn lemma_marked_has_no_line_feed(t: Seq<char>)
    ensures
        !replaced(t, line_feed(), line_feed_marker()).contains('\n'),
    decreases t.len(),
{
    let lf = line_feed();
    let m = line_feed_marker();
    let e = replaced(t, lf, m);
    if t.len() > 0 {
        let rest = replaced(t.skip(1), lf, m);
        lemma_marked_has_no_line_feed(t.skip(1));
        if has_prefix(t, lf) {
            assert(e == m + rest);
            assert forall|i: int| 0 <= i < e.len() implies e[i] != '\n' by {
                if i >= 2 {
                    assert(e[i] == rest[i - 2]);
                    assert(rest.contains(rest[i - 2]));
                }
            }
        } else {
            assert(t.take(1) != lf);
            if t[0] == '\n' {
                assert(t.take(1) =~= lf);
            }
            assert(e == t.take(1) + rest);
            assert forall|i: int| 0 <= i < e.len() implies e[i] != '\n' by {
                if i >= 1 {
                    assert(e[i] == rest[i - 1]);
                    assert(rest.contains(rest[i - 1]));
                }
            }
        }
    }
}

/// An escaped text is a single line: no line feed is left in it.
pub proof fn lemma_escaped_is_single_line(s: Seq<char>)
    ensures
        !escaped(s).contains('\n'),
{
    lemma_marked_has_no_line_feed(normalized(s));
}

/// Where the first line feed of `s` stands, or the length of `s` if it holds
/// none.
pub open spec fn first_line_feed(s: Seq<char>) -> int
    decreases s.len(),
{
    if s.len() == 0 || s[0] == '\n' {
        0
    } else {
        1 + first_line_feed(s.skip(1))
    }
}

/// `line` without the carriage return at its end, if it has one.
pub open spec fn without_carriage_return(line: Seq<char>) -> Seq<char> {
    if line.len() > 0 && line.last() == '\r' {
        line.drop_last()
    } else {
        line
    }
}

/// The lines of `s`. A line ends at a line feed; the line feed, and a
/// carriage return right before it, belong to no line. What follows the last
/// line feed is a line of its own unless it is empty, and keeps a carriage
/// return at its end. The empty text has no lines.
pub open spec fn lines_of(s: Seq<char>) -> Seq<Seq<char>>
    decreases s.len(),
{
    if s.len() == 0 {
        Seq::empty()
    } else {
        let k = first_line_feed(s);
        if 0 <= k < s.len() {
            seq![without_carriage_return(s.take(k))] + lines_of(s.skip(k + 1))
        } else {
            seq![s]
        }
    }
}

/// A stretch without line feeds that ends at a line feed, or at the end of
/// the text, reaches the first line feed.
proof fn lemma_first_line_feed(s: Seq<char>, k: int)
    requires
        0 <= k <= s.len(),
        forall|j: int| 0 <= j < k ==> s[j] != '\n',
        k < s.len() ==> s[k] == '\n',
    ensures
        first_line_feed(s) == k,
    decreases k,
{
    if k > 0 {
        lemma_first_line_feed(s.skip(1), k - 1);
    }
}

/// Splits `s` into its lines, line endings left out.
pub fn split_lines(s: &str) -> (lines: Vec<String>)
    ensures
        lines.deep_view() == lines_of(s@),
{
    let text = chars_of(s);
    let mut lines: Vec<String> = Vec::new();
    let mut start: usize = 0;
    let mut i: usize = 0;
    proof {
        assert(text@.skip(0) =~= text@);
        assert(lines.deep_view() + lines_of(text@) =~= lines_of(text@));
    }
    while i < text.len()
        invariant
            start <= i <= text.len(),
            text@ == s@,
            forall|j: int| start <= j < i ==> text@[j] != '\n',
            lines.deep_view() + lines_of(text@.skip(start as int)) == lines_of(s@),
        decreases text.len() - i,
    {
        if text[i] == '\n' {
            let ghost rest = text@.skip(start as int);
            let ghost before = lines.deep_view();
            let end: usize = if i > start && text[i - 1] == '\r' {
                i - 1
            } else {
                i
            };
            let line = text_of_range(&text, start, end);
            proof {
                lemma_first_line_feed(rest, i - start);
                assert(rest.take(i - start) =~= text@.subrange(start as int, i as int));
                assert(line@ =~= without_carriage_return(rest.take(i - start)));
                assert(rest.skip(i - start + 1) =~= text@.skip(i + 1));
            }
            lines.push(line);
            proof {
                assert(lines.deep_view() =~= before.push(line@));
                assert(before.push(line@) + lines_of(text@.skip(i + 1)) =~= before + (seq![line@]
                    + lines_of(text@.skip(i + 1))));
            }
            start = i + 1;
        }
        i += 1;
    }
    if start < text.len() {
        let ghost rest = text@.skip(start as int);
        let ghost before = lines.deep_view();
        let line = text_of_range(&text, start, text.len());
        proof {
            lemma_first_line_feed(rest, rest.len() as int);
            assert(line@ =~= rest);
        }
        lines.push(line);
        proof {
            assert(lines.deep_view() =~= before.push(line@));
            assert(before.push(line@) =~= before + seq![rest]);
        }
    } else {
        proof {
            assert(lines.deep_view() + Seq::<Seq<char>>::empty() =~= lines.deep_view());
        }
    }
    lines
}

} // verus!
