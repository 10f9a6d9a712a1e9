//! A pattern: a named prompt template with the metadata derived from it.

use crate::text::{chars_of, is_substring, lowercase, span_contains, to_lowercase};
use std::path::PathBuf;
use std::time::SystemTime;
use vstd::prelude::*;
use vstd::string::StringExecFns;

verus! {

/// A location in the file system. The crate never looks inside one: it is
/// handed over by whoever scanned the pattern directory and kept as it came.
#[verifier::external_type_specification]
#[verifier::external_body]
pub struct ExPathBuf(PathBuf);

/// A point in time as the operating system reports it, kept as it came.
#[verifier::external_type_specification]
#[verifier::external_body]
pub struct ExSystemTime(SystemTime);

/// `PathBuf::clone` hands back a path equal to the one it was given.
pub assume_specification[ <PathBuf as Clone>::clone ](p: &PathBuf) -> (r: PathBuf)
    ensures
        r == *p,
;

/// `SystemTime::clone` hands back the same point in time.
pub assume_specification[ <SystemTime as Clone>::clone ](t: &SystemTime) -> (r: SystemTime)
    ensures
        r == *t,
;

/// The prefix that turns a pattern name into a tool name.
pub const TOOL_PREFIX: &'static str = "fabric_";

/// A pattern.
///
/// The system prompt is present and not empty: a directory without one, or
/// with an empty one, yields no pattern at all.
#[derive(Debug, Clone)]
pub struct Pattern {
    /// Pattern name (the name of its directory).
    pub name: String,
    /// Short description taken from the system prompt.
    pub description: String,
    /// The system prompt.
    pub system_prompt: String,
    /// The user prompt template, where the pattern has one.
    pub user_prompt: Option<String>,
    /// At most one category.
    pub category: Option<String>,
    /// Tags, sorted and without repetition when they come from ingestion.
    pub tags: Vec<String>,
    /// Where the pattern was read from.
    pub path: PathBuf,
    /// When the pattern's directory was last modified.
    pub modified: SystemTime,
}

/// The mathematical model of a [`Pattern`].
pub struct PatternV {
    pub name: Seq<char>,
    pub description: Seq<char>,
    pub system_prompt: Seq<char>,
    pub user_prompt: Option<Seq<char>>,
    pub category: Option<Seq<char>>,
    pub tags: Seq<Seq<char>>,
    pub path: PathBuf,
    pub modified: SystemTime,
}

/// The text of an optional string.
pub open spec fn opt_text(s: Option<String>) -> Option<Seq<char>> {
    match s {
        Some(t) => Some(t@),
        None => None,
    }
}

/// The texts of a list of strings.
pub open spec fn texts(v: Seq<String>) -> Seq<Seq<char>> {
    Seq::new(v.len(), |i: int| v[i]@)
}

impl View for Pattern {
    type V = PatternV;

    open spec fn view(&self) -> PatternV {
        PatternV {
            name: self.name@,
            description: self.description@,
            system_prompt: self.system_prompt@,
            user_prompt: opt_text(self.user_prompt),
            category: opt_text(self.category),
            tags: texts(self.tags@),
            path: self.path,
            modified: self.modified,
        }
    }
}

impl PatternV {
    /// The name under which the pattern is offered as a tool.
    pub open spec fn tool_name(self) -> Seq<char> {
        TOOL_PREFIX@ + self.name
    }
}

/// The texts that a query is held against: name, description, tags and
/// category of a pattern, all in lower case.
#[derive(Debug, Clone)]
pub struct SearchKey {
    pub name: String,
    pub description: String,
    pub tags: Vec<String>,
    pub category: Option<String>,
}

/// The mathematical model of a [`SearchKey`].
pub struct SearchKeyV {
    pub name: Seq<char>,
    pub description: Seq<char>,
    pub tags: Seq<Seq<char>>,
    pub category: Option<Seq<char>>,
}

impl View for SearchKey {
    type V = SearchKeyV;

    open spec fn view(&self) -> SearchKeyV {
        SearchKeyV {
            name: self.name@,
            description: self.description@,
            tags: texts(self.tags@),
            category: opt_text(self.category),
        }
    }
}

/// Whether `q` occurs in one of the texts.
pub open spec fn occurs_in_some(all: Seq<Seq<char>>, q: Seq<char>) -> bool {
    exists|i: int| 0 <= i < all.len() && is_substring(q, #[trigger] all[i])
}

impl SearchKeyV {
    /// Whether `q` occurs in the name, in the description, in a tag or in
    /// the category. An absent category holds nothing.
    pub open spec fn holds(self, q: Seq<char>) -> bool {
        ||| is_substring(q, self.name)
        ||| is_substring(q, self.description)
        ||| occurs_in_some(self.tags, q)
        ||| match self.category {
            Some(c) => is_substring(q, c),
            None => false,
        }
    }
}

/// The lower-case forms of a list of texts.
pub open spec fn lowered(all: Seq<Seq<char>>) -> Seq<Seq<char>> {
    Seq::new(all.len(), |i: int| lowercase(all[i]))
}

/// The search key of a pattern.
pub open spec fn search_key(pattern: PatternV) -> SearchKeyV {
    SearchKeyV {
        name: lowercase(pattern.name),
        description: lowercase(pattern.description),
        tags: lowered(pattern.tags),
        category: match pattern.category {
            Some(c) => Some(lowercase(c)),
            None => None,
        },
    }
}

/// Whether a pattern matches a free-text query: the lower-cased query occurs
/// in the lower-cased name, description, category or one of the tags. A
/// pattern without category does not match by category.
pub open spec fn matches_query(pattern: PatternV, query: Seq<char>) -> bool {
    search_key(pattern).holds(lowercase(query))
}

/// The models of a list of patterns.
pub open spec fn patterns_view(patterns: Seq<Pattern>) -> Seq<PatternV> {
    Seq::new(patterns.len(), |i: int| patterns[i]@)
}

impl SearchKey {
    /// Whether `query` occurs in one of the texts of the key.
    pub fn holds(&self, query: &str) -> (r: bool)
        ensures
            r == self@.holds(query@),
    {
        let q = chars_of(query);
        if holds_text(self.name.as_str(), &q) {
            return true;
        }
        if holds_text(self.description.as_str(), &q) {
            return true;
        }
        let mut i: usize = 0;
        while i < self.tags.len()
            invariant
                i <= self.tags.len(),
                q@ == query@,
                forall|k: int| 0 <= k < i ==> !is_substring(q@, #[trigger] texts(self.tags@)[k]),
            decreases self.tags.len() - i,
        {
            if holds_text(self.tags[i].as_str(), &q) {
                assert(is_substring(q@, self@.tags[i as int]));
                assert(occurs_in_some(self@.tags, q@));
                return true;
            }
            i += 1;
        }
        match &self.category {
            Some(c) => holds_text(c.as_str(), &q),
            None => false,
        }
    }
}

/// Whether `needle` occurs in `field`.
fn holds_text(field: &str, needle: &Vec<char>) -> (r: bool)
    ensures
        r == is_substring(needle@, field@),
{
    let hay = chars_of(field);
    assert(hay@.subrange(0, hay@.len() as int) =~= hay@);
    span_contains(&hay, 0, hay.len(), needle)
}

impl Pattern {
    /// The name under which the pattern is offered as a tool: the prefix
    /// `fabric_` followed by the pattern's name.
    pub fn tool_name(&self) -> (r: String)
        ensures
            r@ == self@.tool_name(),
    {
        let mut r = String::from_str(TOOL_PREFIX);
        r.append(self.name.as_str());
        r
    }

    /// The texts that a query is held against, in lower case.
    pub fn search_key(&self) -> (r: SearchKey)
        ensures
            r@ == search_key(self@),
    {
        let mut tags: Vec<String> = Vec::new();
        let mut i: usize = 0;
        while i < self.tags.len()
            invariant
                i <= self.tags.len(),
                tags@.len() == i,
                forall|k: int| 0 <= k < i ==> (#[trigger] tags@[k])@ == lowercase(self.tags@[k]@),
            decreases self.tags.len() - i,
        {
            tags.push(to_lowercase(self.tags[i].as_str()));
            i += 1;
        }
        assert(texts(tags@) =~= lowered(texts(self.tags@)));
        let category = match &self.category {
            Some(c) => Some(to_lowercase(c.as_str())),
            None => None,
        };
        SearchKey {
            name: to_lowercase(self.name.as_str()),
            description: to_lowercase(self.description.as_str()),
            tags,
            category,
        }
    }

    /// Whether the pattern matches a free-text query, without regard to
    /// case.
    pub fn matches(&self, query: &str) -> (r: bool)
        ensures
            r == matches_query(self@, query@),
    {
        let q = to_lowercase(query);
        self.search_key().holds(q.as_str())
    }

    /// Whether the pattern has a user prompt template.
    pub fn has_user_prompt(&self) -> (r: bool)
        ensures
            r == self@.user_prompt.is_some(),
    {
        self.user_prompt.is_some()
    }
}

/// Matching does not depend on the case of the query: two queries with the
/// same lower-case form match the same patterns.
pub proof fn lemma_matching_ignores_query_case(pattern: PatternV, q1: Seq<char>, q2: Seq<char>)
    requires
        lowercase(q1) == lowercase(q2),
    ensures
        matches_query(pattern, q1) == matches_query(pattern, q2),
{
}

/// Matching does not depend on the case of the pattern's name: a pattern
/// with another name of the same lower-case form matches the same queries.
pub proof fn lemma_matching_ignores_name_case(pattern: PatternV, name: Seq<char>, q: Seq<char>)
    requires
        lowercase(name) == lowercase(pattern.name),
    ensures
        matches_query(PatternV { name, ..pattern }, q) == matches_query(pattern, q),
{
}

/// Matching is by substring: a query whose lower-case form occurs in the
/// lower-case form of the name, of the description, of the category or of
/// a tag matches, and no other query does.
pub proof fn lemma_matching_is_by_substring(pattern: PatternV, q: Seq<char>)
    ensures
        matches_query(pattern, q) <==> {
            ||| is_substring(lowercase(q), lowercase(pattern.name))
            ||| is_substring(lowercase(q), lowercase(pattern.description))
            ||| (exists|i: int|
                0 <= i < pattern.tags.len() && is_substring(
                    lowercase(q),
                    lowercase(#[trigger] pattern.tags[i]),
                ))
            ||| (pattern.category matches Some(c) && is_substring(lowercase(q), lowercase(c)))
        },
{
    let key = search_key(pattern);
    let lq = lowercase(q);
    if occurs_in_some(key.tags, lq) {
        let i = choose|i: int| 0 <= i < key.tags.len() && is_substring(lq, #[trigger] key.tags[i]);
        assert(is_substring(lq, lowercase(pattern.tags[i])));
    }
    if exists|i: int|
        0 <= i < pattern.tags.len() && is_substring(lq, lowercase(#[trigger] pattern.tags[i])) {
        let i = choose|i: int|
            0 <= i < pattern.tags.len() && is_substring(lq, lowercase(#[trigger] pattern.tags[i]));
        assert(is_substring(lq, key.tags[i]));
    }
}

} // verus!
