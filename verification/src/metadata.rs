//! Heuristics that derive a pattern's description, category and tags from
//! the text of its system prompt.

use crate::pattern::{opt_text, texts};
use crate::text::{
    chars_of, is_blank, is_substring, join, lines, lowercase, span_contains, span_texts,
    spans_inside,
    split_lines, strictly_ascending, text_less, to_lowercase, trim, trim_span,
};
use vstd::prelude::*;
use vstd::string::{StrSliceExecFns, StringExecFns};

verus! {

/// The longest description that the fallback hands back, in characters.
pub const MAX_DESCRIPTION_CHARS: usize = 200;

/// The kinds of line that the description heuristic looks for.
#[derive(Debug, Clone, Copy, PartialEq, Eq)]
pub enum LineKind {
    /// Holds one of the markers `# IDENTITY` and `# PURPOSE`.
    Marker,
    /// Not blank and, once trimmed, not a heading.
    Describing,
    /// Neither blank nor a heading: the start of a paragraph.
    Opening,
    /// Nothing but white space.
    Blank,
}

/// A line that begins with `#`.
pub open spec fn is_heading(line: Seq<char>) -> bool {
    line.len() > 0 && line[0] == '#'
}

/// A line that holds one of the two markers.
pub open spec fn is_marker(line: Seq<char>) -> bool {
    is_substring("# IDENTITY"@, line) || is_substring("# PURPOSE"@, line)
}

/// Whether `line` is of the given kind.
pub open spec fn line_is(kind: LineKind, line: Seq<char>) -> bool {
    match kind {
        LineKind::Marker => is_marker(line),
        LineKind::Describing => trim(line).len() > 0 && !is_heading(trim(line)),
        LineKind::Opening => !is_blank(line) && !is_heading(line),
        LineKind::Blank => is_blank(line),
    }
}

/// The index of the first line of the given kind at or after `from`; the
/// number of lines if there is none.
pub open spec fn first_from(ls: Seq<Seq<char>>, from: int, kind: LineKind) -> int
    decreases ls.len() - from,
{
    if from < 0 || from >= ls.len() {
        ls.len() as int
    } else if line_is(kind, ls[from]) {
        from
    } else {
        first_from(ls, from + 1, kind)
    }
}

/// The lines joined by single spaces.
pub open spec fn join_lines(ls: Seq<Seq<char>>) -> Seq<char> {
    join(ls, seq![' '])
}

/// The first `n` characters of `s`, or all of `s` if it has fewer.
pub open spec fn truncate(s: Seq<char>, n: nat) -> Seq<char> {
    if s.len() <= n {
        s
    } else {
        s.subrange(0, n as int)
    }
}

/// The description that follows a marker: the first describing line after
/// the first marker line, trimmed.
pub open spec fn marked_description(ls: Seq<Seq<char>>) -> Option<Seq<char>> {
    let m = first_from(ls, 0, LineKind::Marker);
    let d = first_from(ls, m + 1, LineKind::Describing);
    if m < ls.len() && d < ls.len() {
        Some(trim(ls[d]))
    } else {
        None
    }
}

/// The first paragraph: the lines from the first opening line up to the next
/// blank line, joined by spaces and cut to the maximum length.
pub open spec fn first_paragraph(ls: Seq<Seq<char>>) -> Seq<char> {
    let start = first_from(ls, 0, LineKind::Opening);
    let end = first_from(ls, start, LineKind::Blank);
    truncate(join_lines(ls.subrange(start, end)), MAX_DESCRIPTION_CHARS as nat)
}

/// The description of a system prompt.
pub open spec fn description_of(content: Seq<char>) -> Seq<char> {
    let ls = lines(content);
    match marked_description(ls) {
        Some(d) => d,
        None => first_paragraph(ls),
    }
}

/// Whether the line `text[span.0..span.1]` is of the given kind.
fn span_is(kind: LineKind, text: &Vec<char>, span: (usize, usize)) -> (r: bool)
    requires
        span.0 <= span.1 <= text.len(),
    ensures
        r == line_is(kind, text@.subrange(span.0 as int, span.1 as int)),
{
    match kind {
        LineKind::Marker => {
            let identity = chars_of("# IDENTITY");
            let purpose = chars_of("# PURPOSE");
            span_contains(text, span.0, span.1, &identity) || span_contains(
                text,
                span.0,
                span.1,
                &purpose,
            )
        },
        LineKind::Describing => {
            let (s, e) = trim_span(text, span.0, span.1);
            s < e && text[s] != '#'
        },
        LineKind::Opening => {
            let (s, e) = trim_span(text, span.0, span.1);
            s < e && !(span.0 < span.1 && text[span.0] == '#')
        },
        LineKind::Blank => {
            let (s, e) = trim_span(text, span.0, span.1);
            s == e
        },
    }
}

/// Finds the first line of the given kind at or after `from`.
fn find_line(kind: LineKind, text: &Vec<char>, spans: &Vec<(usize, usize)>, from: usize) -> (r:
    usize)
    requires
        spans_inside(spans@, text@.len()),
    ensures
        r == first_from(span_texts(text@, spans@), from as int, kind),
        r <= spans.len(),
{
    let ghost ls = span_texts(text@, spans@);
    let mut i: usize = from;
    while i < spans.len()
        invariant
            from <= i,
            spans_inside(spans@, text@.len()),
            ls == span_texts(text@, spans@),
            first_from(ls, from as int, kind) == first_from(ls, i as int, kind),
        decreases spans.len() - i,
    {
        assert(spans@[i as int].0 <= spans@[i as int].1 <= text@.len());
        if span_is(kind, text, spans[i]) {
            return i;
        }
        i += 1;
    }
    spans.len()
}

/// Joins the lines `spans[start..end]` by single spaces.
fn join_spans(content: &str, spans: &Vec<(usize, usize)>, start: usize, end: usize) -> (r: String)
    requires
        spans_inside(spans@, content@.len()),
        start <= end <= spans.len(),
    ensures
        r@ == join_lines(span_texts(content@, spans@).subrange(start as int, end as int)),
{
    let ghost ls = span_texts(content@, spans@);
    let mut joined = String::new();
    let mut k: usize = start;
    assert(ls.subrange(start as int, start as int) =~= Seq::empty());
    while k < end
        invariant
            start <= k <= end,
            end <= spans.len(),
            spans_inside(spans@, content@.len()),
            ls == span_texts(content@, spans@),
            joined@ == join_lines(ls.subrange(start as int, k as int)),
        decreases end - k,
    {
        assert(spans@[k as int].0 <= spans@[k as int].1 <= content@.len());
        let piece = content.substring_char(spans[k].0, spans[k].1);
        proof {
            reveal_strlit(" ");
            let upto = ls.subrange(start as int, k + 1);
            assert(upto.drop_last() =~= ls.subrange(start as int, k as int));
            assert(upto.last() == piece@);
            assert(" "@ =~= seq![' ']);
        }
        if k > start {
            joined.append(" ");
        }
        joined.append(piece);
        k += 1;
    }
    joined
}

/// Derives the description of a pattern from its system prompt.
///
/// Where the prompt has a line with the marker `# IDENTITY` or `# PURPOSE`,
/// the description is the first line after it that is neither blank nor a
/// heading, trimmed. Otherwise, and where no such line follows the marker,
/// it is the first paragraph of the prompt, cut to 200 characters.
pub fn extract_description(content: &str) -> (r: String)
    ensures
        r@ == description_of(content@),
{
    let text = chars_of(content);
    let spans = split_lines(&text);
    let ghost ls = lines(content@);
    let marker = find_line(LineKind::Marker, &text, &spans, 0);
    if marker < spans.len() {
        let found = find_line(LineKind::Describing, &text, &spans, marker + 1);
        if found < spans.len() {
            assert(spans@[found as int].0 <= spans@[found as int].1 <= text@.len());
            let (s, e) = trim_span(&text, spans[found].0, spans[found].1);
            assert(ls[found as int] == text@.subrange(
                spans@[found as int].0 as int,
                spans@[found as int].1 as int,
            ));
            return content.substring_char(s, e).to_owned();
        }
    }
    let start = find_line(LineKind::Opening, &text, &spans, 0);
    let end = find_line(LineKind::Blank, &text, &spans, start);
    proof {
        lemma_first_from_bounds(ls, start as int, LineKind::Blank);
    }
    let joined = join_spans(content, &spans, start, end);
    if joined.as_str().unicode_len() <= MAX_DESCRIPTION_CHARS {
        joined
    } else {
        joined.as_str().substring_char(0, MAX_DESCRIPTION_CHARS).to_owned()
    }
}

/// A search that starts inside the lines ends at or after its start.
pub proof fn lemma_first_from_bounds(ls: Seq<Seq<char>>, from: int, kind: LineKind)
    requires
        0 <= from <= ls.len(),
    ensures
        from <= first_from(ls, from, kind) <= ls.len(),
    decreases ls.len() - from,
{
    if from < ls.len() && !line_is(kind, ls[from]) {
        lemma_first_from_bounds(ls, from + 1, kind);
    }
}

/// The keyword rules, in the order in which they are applied.
#[derive(Debug, Clone, Copy, PartialEq, Eq)]
pub enum RuleGroup {
    Security,
    Writing,
    Coding,
    Analysis,
    Summarization,
}

/// Whether the lower-cased text holds one of the group's keywords.
pub open spec fn group_matches(group: RuleGroup, lower: Seq<char>) -> bool {
    match group {
        RuleGroup::Security => is_substring("security"@, lower) || is_substring("threat"@, lower)
            || is_substring("vulnerability"@, lower),
        RuleGroup::Writing => is_substring("writing"@, lower) || is_substring("essay"@, lower)
            || is_substring("article"@, lower),
        RuleGroup::Coding => is_substring("code"@, lower) || is_substring("programming"@, lower)
            || is_substring("software"@, lower),
        RuleGroup::Analysis => is_substring("analyze"@, lower) || is_substring("analysis"@, lower)
            || is_substring("extract"@, lower),
        RuleGroup::Summarization => is_substring("summarize"@, lower) || is_substring(
            "summary"@,
            lower,
        ),
    }
}

/// The tag that a matching group adds.
pub open spec fn group_tag(group: RuleGroup) -> Seq<char> {
    match group {
        RuleGroup::Security => "security"@,
        RuleGroup::Writing => "writing"@,
        RuleGroup::Coding => "coding"@,
        RuleGroup::Analysis => "analysis"@,
        RuleGroup::Summarization => "summarization"@,
    }
}

/// The category of a lower-cased text: that of the first matching group
/// among security, writing and coding.
pub open spec fn category_of(lower: Seq<char>) -> Option<Seq<char>> {
    if group_matches(RuleGroup::Security, lower) {
        Some(group_tag(RuleGroup::Security))
    } else if group_matches(RuleGroup::Writing, lower) {
        Some(group_tag(RuleGroup::Writing))
    } else if group_matches(RuleGroup::Coding, lower) {
        Some(group_tag(RuleGroup::Coding))
    } else {
        None
    }
}

/// The tag of `group` if the group matches, else nothing.
pub open spec fn tag_if_matches(group: RuleGroup, lower: Seq<char>) -> Seq<Seq<char>> {
    if group_matches(group, lower) {
        seq![group_tag(group)]
    } else {
        Seq::empty()
    }
}

/// The tags of a lower-cased text: the tag of every matching group, in
/// ascending order.
pub open spec fn tags_of(lower: Seq<char>) -> Seq<Seq<char>> {
    tag_if_matches(RuleGroup::Analysis, lower) + tag_if_matches(RuleGroup::Coding, lower)
        + tag_if_matches(RuleGroup::Security, lower) + tag_if_matches(
        RuleGroup::Summarization,
        lower,
    ) + tag_if_matches(RuleGroup::Writing, lower)
}

/// Tests one keyword rule against a lower-cased text.
pub fn rule_matches(group: RuleGroup, lower: &Vec<char>) -> (r: bool)
    ensures
        r == group_matches(group, lower@),
{
    let n = lower.len();
    assert(lower@.subrange(0, n as int) =~= lower@);
    match group {
        RuleGroup::Security => span_contains(lower, 0, n, &chars_of("security"))
            || span_contains(lower, 0, n, &chars_of("threat")) || span_contains(
            lower,
            0,
            n,
            &chars_of("vulnerability"),
        ),
        RuleGroup::Writing => span_contains(lower, 0, n, &chars_of("writing")) || span_contains(
            lower,
            0,
            n,
            &chars_of("essay"),
        ) || span_contains(lower, 0, n, &chars_of("article")),
        RuleGroup::Coding => span_contains(lower, 0, n, &chars_of("code")) || span_contains(
            lower,
            0,
            n,
            &chars_of("programming"),
        ) || span_contains(lower, 0, n, &chars_of("software")),
        RuleGroup::Analysis => span_contains(lower, 0, n, &chars_of("analyze")) || span_contains(
            lower,
            0,
            n,
            &chars_of("analysis"),
        ) || span_contains(lower, 0, n, &chars_of("extract")),
        RuleGroup::Summarization => span_contains(lower, 0, n, &chars_of("summarize"))
            || span_contains(lower, 0, n, &chars_of("summary")),
    }
}

/// The name of a group's tag.
pub fn tag_name(group: RuleGroup) -> (r: String)
    ensures
        r@ == group_tag(group),
{
    match group {
        RuleGroup::Security => String::from_str("security"),
        RuleGroup::Writing => String::from_str("writing"),
        RuleGroup::Coding => String::from_str("coding"),
        RuleGroup::Analysis => String::from_str("analysis"),
        RuleGroup::Summarization => String::from_str("summarization"),
    }
}

/// Derives category and tags from a text that is already in lower case.
///
/// The category is that of the first matching rule among security, writing
/// and coding. The tags are those of all matching rules, sorted and without
/// repetition.
pub fn classify(lower: &str) -> (r: (Option<String>, Vec<String>))
    ensures
        opt_text(r.0) == category_of(lower@),
        texts(r.1@) == tags_of(lower@),
{
    let lower = chars_of(lower);
    let security = rule_matches(RuleGroup::Security, &lower);
    let writing = rule_matches(RuleGroup::Writing, &lower);
    let coding = rule_matches(RuleGroup::Coding, &lower);
    let analysis = rule_matches(RuleGroup::Analysis, &lower);
    let summarization = rule_matches(RuleGroup::Summarization, &lower);
    let category = if security {
        Some(tag_name(RuleGroup::Security))
    } else if writing {
        Some(tag_name(RuleGroup::Writing))
    } else if coding {
        Some(tag_name(RuleGroup::Coding))
    } else {
        None
    };
    let mut tags: Vec<String> = Vec::new();
    assert(texts(tags@) =~= Seq::empty());
    if analysis {
        tags.push(tag_name(RuleGroup::Analysis));
    }
    assert(texts(tags@) =~= tag_if_matches(RuleGroup::Analysis, lower@));
    let ghost t1 = texts(tags@);
    if coding {
        tags.push(tag_name(RuleGroup::Coding));
    }
    assert(texts(tags@) =~= t1 + tag_if_matches(RuleGroup::Coding, lower@));
    let ghost t2 = texts(tags@);
    if security {
        tags.push(tag_name(RuleGroup::Security));
    }
    assert(texts(tags@) =~= t2 + tag_if_matches(RuleGroup::Security, lower@));
    let ghost t3 = texts(tags@);
    if summarization {
        tags.push(tag_name(RuleGroup::Summarization));
    }
    assert(texts(tags@) =~= t3 + tag_if_matches(RuleGroup::Summarization, lower@));
    let ghost t4 = texts(tags@);
    if writing {
        tags.push(tag_name(RuleGroup::Writing));
    }
    assert(texts(tags@) =~= t4 + tag_if_matches(RuleGroup::Writing, lower@));
    (category, tags)
}

/// Derives category and tags of a pattern from its system prompt.
///
/// The prompt is lower-cased and tested against the keyword rules, as
/// [`classify`] says.
pub fn extract_metadata(content: &str) -> (r: (Option<String>, Vec<String>))
    ensures
        opt_text(r.0) == category_of(lowercase(content@)),
        texts(r.1@) == tags_of(lowercase(content@)),
{
    let lowered = to_lowercase(content);
    classify(lowered.as_str())
}

/// The five tag names in ascending order.
proof fn lemma_tag_names_ascend()
    ensures
        text_less("analysis"@, "coding"@),
        text_less("coding"@, "security"@),
        text_less("security"@, "summarization"@),
        text_less("summarization"@, "writing"@),
{
    reveal_strlit("analysis");
    reveal_strlit("coding");
    reveal_strlit("security");
    reveal_strlit("summarization");
    reveal_strlit("writing");
    reveal_with_fuel(text_less, 3);
}

/// The order of texts is transitive.
pub proof fn lemma_text_less_transitive(a: Seq<char>, b: Seq<char>, c: Seq<char>)
    requires
        text_less(a, b),
        text_less(b, c),
    ensures
        text_less(a, c),
    decreases a.len(),
{
    if a.len() > 0 && a[0] == b[0] && b[0] == c[0] {
        lemma_text_less_transitive(a.drop_first(), b.drop_first(), c.drop_first());
    }
}

/// Every text of `x` comes before `bound`.
pub open spec fn all_before(x: Seq<Seq<char>>, bound: Seq<char>) -> bool {
    forall|i: int| 0 <= i < x.len() ==> text_less(#[trigger] x[i], bound)
}

/// Appending at most one tag that comes after all others keeps the order.
proof fn lemma_append_tag(x: Seq<Seq<char>>, y: Seq<Seq<char>>, tag: Seq<char>)
    requires
        strictly_ascending(x),
        all_before(x, tag),
        y == seq![tag] || y == Seq::<Seq<char>>::empty(),
    ensures
        strictly_ascending(x + y),
        forall|bound: Seq<char>|
            all_before(x, bound) && text_less(tag, bound) ==> #[trigger] all_before(x + y, bound),
{
    let z = x + y;
    assert forall|i: int, j: int| 0 <= i < j < z.len() implies text_less(
        #[trigger] z[i],
        #[trigger] z[j],
    ) by {
        if j < x.len() {
            assert(z[i] == x[i] && z[j] == x[j]);
        } else {
            assert(z[j] == tag);
            assert(z[i] == x[i]);
        }
    }
    assert forall|bound: Seq<char>|
        all_before(x, bound) && text_less(tag, bound) implies #[trigger] all_before(
        x + y,
        bound,
    ) by {
        assert forall|i: int| 0 <= i < z.len() implies text_less(#[trigger] z[i], bound) by {
            if i < x.len() {
                assert(z[i] == x[i]);
            } else {
                assert(z[i] == tag);
            }
        }
    }
}

/// The tags of any text are in ascending order, so no tag occurs twice.
pub proof fn lemma_tags_sorted(lower: Seq<char>)
    ensures
        strictly_ascending(tags_of(lower)),
{
    lemma_tag_names_ascend();
    let a = "analysis"@;
    let c = "coding"@;
    let s = "security"@;
    let u = "summarization"@;
    let w = "writing"@;
    lemma_text_less_transitive(a, c, s);
    lemma_text_less_transitive(a, s, u);
    lemma_text_less_transitive(a, u, w);
    lemma_text_less_transitive(c, s, u);
    lemma_text_less_transitive(c, u, w);
    lemma_text_less_transitive(s, u, w);
    let t0 = Seq::<Seq<char>>::empty();
    let t1 = t0 + tag_if_matches(RuleGroup::Analysis, lower);
    let t2 = t1 + tag_if_matches(RuleGroup::Coding, lower);
    let t3 = t2 + tag_if_matches(RuleGroup::Security, lower);
    let t4 = t3 + tag_if_matches(RuleGroup::Summarization, lower);
    let t5 = t4 + tag_if_matches(RuleGroup::Writing, lower);
    lemma_append_tag(t0, tag_if_matches(RuleGroup::Analysis, lower), a);
    assert(all_before(t1, c) && all_before(t1, s) && all_before(t1, u) && all_before(t1, w));
    lemma_append_tag(t1, tag_if_matches(RuleGroup::Coding, lower), c);
    assert(all_before(t2, s) && all_before(t2, u) && all_before(t2, w));
    lemma_append_tag(t2, tag_if_matches(RuleGroup::Security, lower), s);
    assert(all_before(t3, u) && all_before(t3, w));
    lemma_append_tag(t3, tag_if_matches(RuleGroup::Summarization, lower), u);
    assert(all_before(t4, w));
    lemma_append_tag(t4, tag_if_matches(RuleGroup::Writing, lower), w);
    assert(t1 =~= tag_if_matches(RuleGroup::Analysis, lower));
    assert(t5 == tags_of(lower));
}

/// The category of a text, where it has one, is among its tags.
pub proof fn lemma_category_is_a_tag(lower: Seq<char>)
    ensures
        category_of(lower) matches Some(c) ==> tags_of(lower).contains(c),
{
    let t1 = tag_if_matches(RuleGroup::Analysis, lower);
    let t2 = t1 + tag_if_matches(RuleGroup::Coding, lower);
    let t3 = t2 + tag_if_matches(RuleGroup::Security, lower);
    let t4 = t3 + tag_if_matches(RuleGroup::Summarization, lower);
    let t5 = t4 + tag_if_matches(RuleGroup::Writing, lower);
    if group_matches(RuleGroup::Security, lower) {
        assert(t3[t2.len() as int] == group_tag(RuleGroup::Security));
        assert(t5[t2.len() as int] == group_tag(RuleGroup::Security));
    } else if group_matches(RuleGroup::Writing, lower) {
        assert(t5[t4.len() as int] == group_tag(RuleGroup::Writing));
    } else if group_matches(RuleGroup::Coding, lower) {
        assert(t2[t1.len() as int] == group_tag(RuleGroup::Coding));
        assert(t5[t1.len() as int] == group_tag(RuleGroup::Coding));
    }
}

/// A description taken from the first paragraph never has more than the
/// maximum number of characters.
pub proof fn lemma_paragraph_is_short(ls: Seq<Seq<char>>)
    ensures
        first_paragraph(ls).len() <= MAX_DESCRIPTION_CHARS,
{
}

} // verus!
