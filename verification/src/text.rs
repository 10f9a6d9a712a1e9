//! Character-level text utilities shared by the search predicate and the
//! metadata heuristics.

use vstd::prelude::*;
use vstd::string::{StrSliceExecFns, StringExecFns};

verus! {

/// `needle` occurs in `hay` as a contiguous run of characters.
pub open spec fn is_substring(needle: Seq<char>, hay: Seq<char>) -> bool {
    exists|i: int| occurs_at(needle, hay, i)
}

/// `needle` occurs in `hay` starting at position `i`.
pub open spec fn occurs_at(needle: Seq<char>, hay: Seq<char>, i: int) -> bool {
    &&& 0 <= i
    &&& i + needle.len() <= hay.len()
    &&& hay.subrange(i, i + needle.len()) == needle
}

/// The characters of a string slice, in order.
pub fn chars_of(s: &str) -> (v: Vec<char>)
    ensures
        v@ == s@,
{
    let mut v: Vec<char> = Vec::new();
    for c in it: s.chars()
        invariant
            v@ == it.seq().take(it.index() as int),
            it.seq() == s@,
    {
        v.push(c);
    }
    v
}

/// The texts one after the other, with `separator` between each two.
pub open spec fn join(parts: Seq<Seq<char>>, separator: Seq<char>) -> Seq<char>
    decreases parts.len(),
{
    if parts.len() == 0 {
        Seq::empty()
    } else if parts.len() == 1 {
        parts[0]
    } else {
        join(parts.drop_last(), separator) + separator + parts.last()
    }
}

/// Joins strings, with `separator` between each two.
pub fn join_strings(parts: &Vec<String>, separator: &str) -> (r: String)
    ensures
        r@ == join(Seq::new(parts@.len(), |i: int| parts@[i]@), separator@),
{
    let ghost all = Seq::new(parts@.len(), |i: int| parts@[i]@);
    let mut joined = String::new();
    let mut k: usize = 0;
    assert(all.subrange(0, 0) =~= Seq::<Seq<char>>::empty());
    while k < parts.len()
        invariant
            k <= parts.len(),
            all == Seq::new(parts@.len(), |i: int| parts@[i]@),
            joined@ == join(all.subrange(0, k as int), separator@),
        decreases parts.len() - k,
    {
        proof {
            let upto = all.subrange(0, k + 1);
            assert(upto.drop_last() =~= all.subrange(0, k as int));
            assert(upto.last() == parts@[k as int]@);
        }
        if k > 0 {
            joined.append(separator);
        }
        joined.append(parts[k].as_str());
        k += 1;
    }
    assert(all.subrange(0, all.len() as int) =~= all);
    joined
}

/// `s` begins with `p`.
pub open spec fn has_prefix(s: Seq<char>, p: Seq<char>) -> bool {
    p.len() <= s.len() && s.subrange(0, p.len() as int) == p
}

/// Whether two string slices hold the same text.
pub fn str_eq(a: &str, b: &str) -> (r: bool)
    ensures
        r == (a@ == b@),
{
    let x = a.to_owned();
    let y = b.to_owned();
    x == y
}

/// What follows `prefix` in `s`, where `s` begins with `prefix`.
pub fn strip_prefix<'a>(s: &'a str, prefix: &str) -> (r: Option<&'a str>)
    ensures
        match r {
            Some(rest) => has_prefix(s@, prefix@) && rest@ == s@.subrange(
                prefix@.len() as int,
                s@.len() as int,
            ),
            None => !has_prefix(s@, prefix@),
        },
{
    let sc = chars_of(s);
    let pc = chars_of(prefix);
    if pc.len() > sc.len() {
        return None;
    }
    let mut i: usize = 0;
    while i < pc.len()
        invariant
            i <= pc.len(),
            pc.len() <= sc.len(),
            sc@ == s@,
            pc@ == prefix@,
            sc@.subrange(0, i as int) == pc@.subrange(0, i as int),
        decreases pc.len() - i,
    {
        if sc[i] != pc[i] {
            assert(s@.subrange(0, prefix@.len() as int)[i as int] != prefix@[i as int]);
            return None;
        }
        assert(sc@.subrange(0, i + 1) =~= sc@.subrange(0, i as int).push(sc@[i as int]));
        assert(pc@.subrange(0, i + 1) =~= pc@.subrange(0, i as int).push(pc@[i as int]));
        i += 1;
    }
    assert(pc@.subrange(0, pc@.len() as int) =~= pc@);
    Some(s.substring_char(pc.len(), sc.len()))
}

/// The lower-case form of a text, as `str::to_lowercase` gives it.
pub uninterp spec fn lowercase(s: Seq<char>) -> Seq<char>;

/// Calls `str::to_lowercase`, which maps every character to its lower-case
/// form by the Unicode tables. The contract only names the result; it claims
/// nothing about what the result holds.
#[verifier::external_body]
pub(crate) fn to_lowercase(s: &str) -> (r: String)
    ensures
        r@ == lowercase(s@),
{
    s.to_lowercase()
}

/// Whether `needle` occurs in the part `text[start..end]`.
pub fn span_contains(text: &Vec<char>, start: usize, end: usize, needle: &Vec<char>) -> (r: bool)
    requires
        start <= end <= text.len(),
    ensures
        r == is_substring(needle@, text@.subrange(start as int, end as int)),
{
    let ghost hay = text@.subrange(start as int, end as int);
    let n = needle.len();
    if n > end - start {
        assert forall|i: int| !occurs_at(needle@, hay, i) by {}
        return false;
    }
    let last = end - n;
    let mut i: usize = start;
    while i <= last
        invariant
            start <= i <= last + 1,
            last + n == end,
            end <= text.len(),
            n == needle.len(),
            hay == text@.subrange(start as int, end as int),
            forall|k: int| 0 <= k < i - start ==> !occurs_at(needle@, hay, k),
        decreases last + 1 - i,
    {
        let mut j: usize = 0;
        while j < n && text[i + j] == needle[j]
            invariant
                j <= n,
                n == needle.len(),
                i + n <= end,
                end <= text.len(),
                start <= i,
                hay == text@.subrange(start as int, end as int),
                forall|k: int| 0 <= k < j ==> text@[i + k] == needle@[k],
            decreases n - j,
        {
            j += 1;
        }
        if j == n {
            assert(hay.subrange(i - start, i - start + n) =~= needle@);
            assert(occurs_at(needle@, hay, i - start));
            return true;
        }
        assert(!occurs_at(needle@, hay, i - start)) by {
            if occurs_at(needle@, hay, i - start) {
                assert(hay.subrange(i - start, i - start + n)[j as int] == needle@[j as int]);
            }
        }
        i += 1;
    }
    assert forall|k: int| !occurs_at(needle@, hay, k) by {}
    false
}

/// The characters with the Unicode property `White_Space`.
pub open spec fn is_whitespace(c: char) -> bool {
    let u = c as u32;
    ||| 0x09 <= u <= 0x0D
    ||| u == 0x20
    ||| u == 0x85
    ||| u == 0xA0
    ||| u == 0x1680
    ||| 0x2000 <= u <= 0x200A
    ||| u == 0x2028
    ||| u == 0x2029
    ||| u == 0x202F
    ||| u == 0x205F
    ||| u == 0x3000
}

/// Whether `c` is white space.
pub fn char_is_whitespace(c: char) -> (r: bool)
    ensures
        r == is_whitespace(c),
{
    let u: u32 = c as u32;
    (0x09 <= u && u <= 0x0D) || u == 0x20 || u == 0x85 || u == 0xA0 || u == 0x1680 || (0x2000 <= u
        && u <= 0x200A) || u == 0x2028 || u == 0x2029 || u == 0x202F || u == 0x205F || u == 0x3000
}

/// `s` without the white space at its start.
pub open spec fn trim_start(s: Seq<char>) -> Seq<char>
    decreases s.len(),
{
    if s.len() > 0 && is_whitespace(s[0]) {
        trim_start(s.drop_first())
    } else {
        s
    }
}

/// `s` without the white space at its end.
pub open spec fn trim_end(s: Seq<char>) -> Seq<char>
    decreases s.len(),
{
    if s.len() > 0 && is_whitespace(s.last()) {
        trim_end(s.drop_last())
    } else {
        s
    }
}

/// `s` without the white space at both ends.
pub open spec fn trim(s: Seq<char>) -> Seq<char> {
    trim_end(trim_start(s))
}

/// Nothing but white space.
pub open spec fn is_blank(s: Seq<char>) -> bool {
    trim(s).len() == 0
}

/// The bounds of `text[start..end]` without the white space at both ends.
pub fn trim_span(text: &Vec<char>, start: usize, end: usize) -> (r: (usize, usize))
    requires
        start <= end <= text.len(),
    ensures
        start <= r.0 <= r.1 <= end,
        text@.subrange(r.0 as int, r.1 as int) == trim(text@.subrange(start as int, end as int)),
{
    let mut s: usize = start;
    while s < end && char_is_whitespace(text[s])
        invariant
            start <= s <= end,
            end <= text.len(),
            trim_start(text@.subrange(start as int, end as int)) == trim_start(
                text@.subrange(s as int, end as int),
            ),
        decreases end - s,
    {
        assert(text@.subrange(s as int, end as int).drop_first() =~= text@.subrange(
            s + 1,
            end as int,
        ));
        s += 1;
    }
    let mut e: usize = end;
    while e > s && char_is_whitespace(text[e - 1])
        invariant
            s <= e <= end,
            end <= text.len(),
            trim_end(text@.subrange(s as int, end as int)) == trim_end(
                text@.subrange(s as int, e as int),
            ),
        decreases e - s,
    {
        assert(text@.subrange(s as int, e as int).drop_last() =~= text@.subrange(
            s as int,
            e - 1,
        ));
        e -= 1;
    }
    (s, e)
}

/// `l` without a carriage return at its end.
pub open spec fn strip_cr(l: Seq<char>) -> Seq<char> {
    if l.len() > 0 && l.last() == '\r' {
        l.drop_last()
    } else {
        l
    }
}

/// The position of the first line feed in `s`, or the length of `s` if it
/// has none.
pub open spec fn first_newline(s: Seq<char>) -> int
    decreases s.len(),
{
    if s.len() == 0 || s[0] == '\n' {
        0
    } else {
        1 + first_newline(s.drop_first())
    }
}

/// The lines of a text. A line ends at a line feed; the line feed, and a
/// carriage return just before it, are not part of the line. A last line
/// without a line feed counts if it is not empty.
pub open spec fn lines(s: Seq<char>) -> Seq<Seq<char>>
    decreases s.len(),
{
    if s.len() == 0 {
        Seq::empty()
    } else {
        let i = first_newline(s);
        if 0 <= i < s.len() {
            seq![strip_cr(s.subrange(0, i))] + lines(s.subrange(i + 1, s.len() as int))
        } else {
            seq![s]
        }
    }
}

/// Where the first line feed is, given that none comes before `i`.
pub proof fn lemma_first_newline(s: Seq<char>, i: int)
    requires
        0 <= i <= s.len(),
        forall|k: int| 0 <= k < i ==> s[k] != '\n',
        i < s.len() ==> s[i] == '\n',
    ensures
        first_newline(s) == i,
    decreases i,
{
    if i > 0 {
        lemma_first_newline(s.drop_first(), i - 1);
    }
}

/// The parts of `text` that the spans mark.
pub open spec fn span_texts(text: Seq<char>, spans: Seq<(usize, usize)>) -> Seq<Seq<char>> {
    Seq::new(spans.len(), |k: int| text.subrange(spans[k].0 as int, spans[k].1 as int))
}

/// Every span lies inside a text of length `len`.
pub open spec fn spans_inside(spans: Seq<(usize, usize)>, len: nat) -> bool {
    forall|k: int| 0 <= k < spans.len() ==> (#[trigger] spans[k]).0 <= spans[k].1 <= len
}

/// Splits a text into its lines, each given by its start and end.
pub fn split_lines(text: &Vec<char>) -> (spans: Vec<(usize, usize)>)
    ensures
        spans_inside(spans@, text@.len()),
        span_texts(text@, spans@) == lines(text@),
{
    let mut spans: Vec<(usize, usize)> = Vec::new();
    let mut start: usize = 0;
    let mut i: usize = 0;
    let ghost len = text@.len() as int;
    assert(text@.subrange(0, len) =~= text@);
    assert(span_texts(text@, spans@) =~= Seq::empty());
    while i < text.len()
        invariant
            start <= i <= text.len(),
            len == text@.len(),
            spans_inside(spans@, text@.len()),
            forall|k: int| start <= k < i ==> text@[k] != '\n',
            lines(text@) == span_texts(text@, spans@) + lines(text@.subrange(start as int, len)),
        decreases text.len() - i,
    {
        if text[i] == '\n' {
            let end = if i > start && text[i - 1] == '\r' {
                i - 1
            } else {
                i
            };
            proof {
                let rest = text@.subrange(start as int, len);
                lemma_first_newline(rest, i - start);
                assert(rest.subrange(0, i - start) =~= text@.subrange(start as int, i as int));
                assert(rest.subrange(i - start + 1, rest.len() as int) =~= text@.subrange(
                    i + 1,
                    len,
                ));
                assert(strip_cr(text@.subrange(start as int, i as int)) =~= text@.subrange(
                    start as int,
                    end as int,
                ));
                assert(span_texts(text@, spans@.push((start, end))) =~= span_texts(text@, spans@)
                    + seq![text@.subrange(start as int, end as int)]);
            }
            spans.push((start, end));
            start = i + 1;
        }
        i += 1;
    }
    if start < text.len() {
        proof {
            let rest = text@.subrange(start as int, len);
            lemma_first_newline(rest, rest.len() as int);
            assert(span_texts(text@, spans@.push((start, text.len()))) =~= span_texts(
                text@,
                spans@,
            ) + seq![rest]);
        }
        spans.push((start, text.len()));
    }
    spans
}

/// `a` comes before `b` in the order of strings: at the first position
/// where they differ `a` has the smaller character, or `a` ends there and
/// `b` does not.
pub open spec fn text_less(a: Seq<char>, b: Seq<char>) -> bool
    decreases a.len(),
{
    if b.len() == 0 {
        false
    } else if a.len() == 0 {
        true
    } else if a[0] != b[0] {
        (a[0] as u32) < (b[0] as u32)
    } else {
        text_less(a.drop_first(), b.drop_first())
    }
}

/// Each text comes before all that follow it, so none occurs twice.
pub open spec fn strictly_ascending(s: Seq<Seq<char>>) -> bool {
    forall|i: int, j: int| 0 <= i < j < s.len() ==> text_less(#[trigger] s[i], #[trigger] s[j])
}

} // verus!
