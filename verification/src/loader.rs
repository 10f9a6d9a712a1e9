//! Ingestion: from what a scan of the pattern directory found to the
//! patterns of the catalog.

use crate::error::{Error, ErrorV};
use crate::metadata::{category_of, description_of, extract_description, extract_metadata, tags_of};
use crate::pattern::{opt_text, patterns_view, texts, Pattern, PatternV};
use crate::text::lowercase;
use std::path::PathBuf;
use std::time::SystemTime;
use vstd::prelude::*;
use vstd::string::StringExecFns;

verus! {

/// A place where the pattern directory may be, and whether a probe found it
/// there.
#[derive(Debug, Clone)]
pub struct CandidateDir {
    /// The place.
    pub path: PathBuf,
    /// The place, as it is named in messages.
    pub location: String,
    /// Whether something exists at the place.
    pub exists: bool,
}

/// The locations of a list of candidates, in order.
pub open spec fn locations_of(candidates: Seq<CandidateDir>) -> Seq<Seq<char>> {
    Seq::new(candidates.len(), |i: int| candidates[i].location@)
}

/// The index of the first candidate that exists.
pub open spec fn first_existing(candidates: Seq<CandidateDir>) -> Option<int>
    decreases candidates.len(),
{
    if candidates.len() == 0 {
        None
    } else if candidates[0].exists {
        Some(0int)
    } else {
        match first_existing(candidates.drop_first()) {
            Some(i) => Some(i + 1),
            None => None,
        }
    }
}

/// Finds the first candidate that exists.
pub fn find_first_existing(candidates: &Vec<CandidateDir>) -> (r: Option<usize>)
    ensures
        match r {
            Some(i) => first_existing(candidates@) == Some(i as int) && i < candidates.len(),
            None => first_existing(candidates@) is None,
        },
{
    let ghost all = candidates@;
    assert(all.subrange(0, all.len() as int) =~= all);
    let mut i: usize = 0;
    while i < candidates.len()
        invariant
            i <= candidates.len(),
            all == candidates@,
            match first_existing(all.subrange(i as int, all.len() as int)) {
                Some(j) => first_existing(all) == Some(j + i),
                None => first_existing(all) is None,
            },
        decreases candidates.len() - i,
    {
        let ghost rest = all.subrange(i as int, all.len() as int);
        assert(rest[0] == all[i as int]);
        assert(rest.drop_first() =~= all.subrange(i + 1, all.len() as int));
        if candidates[i].exists {
            return Some(i);
        }
        i += 1;
    }
    None
}

/// What was read of one subdirectory of the pattern directory.
#[derive(Debug)]
pub struct PatternSource {
    /// The subdirectory's name, where it is valid Unicode.
    pub name: Option<String>,
    /// The subdirectory.
    pub path: PathBuf,
    /// The content of `system.md`, or why it could not be read.
    pub system: Result<String, String>,
    /// The content of `user.md`, where it could be read.
    pub user: Option<String>,
    /// When the subdirectory was last modified, or why that is not known.
    pub modified: Result<SystemTime, String>,
}

/// The mathematical model of a [`PatternSource`].
pub struct SourceV {
    pub name: Option<Seq<char>>,
    pub path: PathBuf,
    pub system: Result<Seq<char>, Seq<char>>,
    pub user: Option<Seq<char>>,
    pub modified: Result<SystemTime, Seq<char>>,
}

impl View for PatternSource {
    type V = SourceV;

    open spec fn view(&self) -> SourceV {
        SourceV {
            name: opt_text(self.name),
            path: self.path,
            system: match self.system {
                Ok(s) => Ok(s@),
                Err(e) => Err(e@),
            },
            user: opt_text(self.user),
            modified: match self.modified {
                Ok(t) => Ok(t),
                Err(e) => Err(e@),
            },
        }
    }
}

/// The models of a list of sources.
pub open spec fn sources_view(sources: Seq<PatternSource>) -> Seq<SourceV> {
    Seq::new(sources.len(), |i: int| sources[i]@)
}

/// The pattern that a source yields, or why it yields none.
///
/// A source without a usable name yields no pattern, nor does one whose
/// system prompt could not be read or is empty, nor one whose modification
/// time is unknown. An unreadable user prompt only leaves the pattern
/// without one.
pub open spec fn pattern_from(source: SourceV) -> Result<PatternV, ErrorV> {
    match source.name {
        None => Err(ErrorV::InvalidPattern { name: "unknown"@, reason: "Invalid path"@ }),
        Some(name) => match source.system {
            Err(why) => Err(
                ErrorV::InvalidPattern { name, reason: "Failed to read system.md: "@ + why },
            ),
            Ok(system) => if system.len() == 0 {
                Err(ErrorV::InvalidPattern { name, reason: "system.md is empty"@ })
            } else {
                match source.modified {
                    Err(why) => Err(ErrorV::Io(why)),
                    Ok(modified) => Ok(
                        PatternV {
                            name,
                            description: description_of(system),
                            system_prompt: system,
                            user_prompt: source.user,
                            category: category_of(lowercase(system)),
                            tags: tags_of(lowercase(system)),
                            path: source.path,
                            modified,
                        },
                    ),
                }
            },
        },
    }
}

/// The patterns that a list of sources yields: one for each source that
/// yields a pattern, in the order of the sources.
pub open spec fn ingest(sources: Seq<SourceV>) -> Seq<PatternV>
    decreases sources.len(),
{
    if sources.len() == 0 {
        Seq::empty()
    } else {
        let before = ingest(sources.drop_last());
        match pattern_from(sources.last()) {
            Ok(pattern) => before.push(pattern),
            Err(_) => before,
        }
    }
}

/// The model of what a scan gave.
pub open spec fn scan_view(scanned: Result<Vec<PatternSource>, String>) -> Result<
    Seq<SourceV>,
    Seq<char>,
> {
    match scanned {
        Ok(sources) => Ok(sources_view(sources@)),
        Err(why) => Err(why@),
    }
}

/// The catalog that a scan yields, or the failure of a scan that could not
/// read the directory.
pub open spec fn catalog_of(scan: Result<Seq<SourceV>, Seq<char>>) -> Result<
    Seq<PatternV>,
    ErrorV,
> {
    match scan {
        Ok(sources) => Ok(ingest(sources)),
        Err(why) => Err(ErrorV::Io(why)),
    }
}

/// Knows the pattern directory and makes the catalog of what is read from
/// it.
pub struct PatternLoader {
    patterns_dir: PathBuf,
}

impl PatternLoader {
    /// The directory that the loader reads patterns from.
    pub closed spec fn dir(&self) -> PathBuf {
        self.patterns_dir
    }

    /// Picks the first candidate that exists.
    ///
    /// Fails when none exists; the failure lists the locations of all
    /// candidates in the order in which they were tried.
    pub fn resolve_patterns_dir(candidates: &Vec<CandidateDir>) -> (r: Result<PathBuf, Error>)
        ensures
            match r {
                Ok(path) => first_existing(candidates@) matches Some(i) && path
                    == candidates@[i].path,
                Err(e) => first_existing(candidates@) is None && e@ == (
                ErrorV::PatternDirectoryNotFound { locations: locations_of(candidates@) }),
            },
    {
        match find_first_existing(candidates) {
            Some(i) => Ok(candidates[i].path.clone()),
            None => {
                let mut tried: Vec<String> = Vec::new();
                let mut i: usize = 0;
                while i < candidates.len()
                    invariant
                        i <= candidates.len(),
                        tried@.len() == i,
                        forall|k: int|
                            0 <= k < i ==> (#[trigger] tried@[k])@ == candidates@[k].location@,
                    decreases candidates.len() - i,
                {
                    tried.push(candidates[i].location.clone());
                    i += 1;
                }
                assert(texts(tried@) =~= locations_of(candidates@));
                Err(Error::pattern_directory_not_found(tried))
            },
        }
    }

    /// A loader for the first candidate that exists.
    ///
    /// Fails when none exists, as [`PatternLoader::resolve_patterns_dir`]
    /// does.
    pub fn new(candidates: &Vec<CandidateDir>) -> (r: Result<PatternLoader, Error>)
        ensures
            match r {
                Ok(loader) => first_existing(candidates@) matches Some(i) && loader.dir()
                    == candidates@[i].path,
                Err(e) => first_existing(candidates@) is None && e@ == (
                ErrorV::PatternDirectoryNotFound { locations: locations_of(candidates@) }),
            },
    {
        match PatternLoader::resolve_patterns_dir(candidates) {
            Ok(patterns_dir) => Ok(PatternLoader { patterns_dir }),
            Err(e) => Err(e),
        }
    }

    /// A loader for the given directory.
    pub fn with_directory(patterns_dir: PathBuf) -> (r: PatternLoader)
        ensures
            r.dir() == patterns_dir,
    {
        PatternLoader { patterns_dir }
    }

    /// The directory that the loader reads patterns from.
    pub fn patterns_dir(&self) -> (r: &PathBuf)
        ensures
            *r == self.dir(),
    {
        &self.patterns_dir
    }

    /// Why a source yields no pattern; `None` for a source that yields
    /// one.
    pub fn rejection(source: &PatternSource) -> (r: Option<Error>)
        ensures
            match r {
                Some(e) => pattern_from(source@) == Err::<PatternV, ErrorV>(e@),
                None => pattern_from(source@) is Ok,
            },
    {
        let name = match &source.name {
            Some(name) => name,
            None => {
                return Some(Error::invalid_pattern("unknown", "Invalid path"));
            },
        };
        match &source.system {
            Ok(text) => {
                if text.as_str().is_empty() {
                    return Some(Error::invalid_pattern(name.as_str(), "system.md is empty"));
                }
            },
            Err(why) => {
                let mut reason = String::from_str("Failed to read system.md: ");
                reason.append(why.as_str());
                return Some(Error::invalid_pattern(name.as_str(), reason.as_str()));
            },
        }
        match &source.modified {
            Ok(_) => None,
            Err(why) => Some(Error::Io(why.clone())),
        }
    }

    /// Makes a pattern of what was read of one subdirectory.
    ///
    /// The description, the category and the tags are derived from the
    /// system prompt, which must be there and must not be empty.
    pub fn load_pattern(source: PatternSource) -> (r: Result<Pattern, Error>)
        ensures
            match r {
                Ok(pattern) => pattern_from(source@) == Ok::<PatternV, ErrorV>(pattern@),
                Err(e) => pattern_from(source@) == Err::<PatternV, ErrorV>(e@),
            },
    {
        match PatternLoader::rejection(&source) {
            Some(e) => {
                return Err(e);
            },
            None => {},
        }
        match (source.name, source.system, source.modified) {
            (Some(name), Ok(system_prompt), Ok(modified)) => {
                let description = extract_description(system_prompt.as_str());
                let (category, tags) = extract_metadata(system_prompt.as_str());
                Ok(
                    Pattern {
                        name,
                        description,
                        system_prompt,
                        user_prompt: source.user,
                        category,
                        tags,
                        path: source.path,
                        modified,
                    },
                )
            },
            // Not reached: a source that is not rejected has all three.
            _ => Err(Error::invalid_pattern("unknown", "Invalid path")),
        }
    }

    /// Makes patterns of the subdirectories that were read, in their order.
    ///
    /// A subdirectory that yields no pattern is left out. It never makes
    /// the whole run fail.
    pub fn collect_patterns(sources: Vec<PatternSource>) -> (r: Vec<Pattern>)
        ensures
            patterns_view(r@) == ingest(sources_view(sources@)),
    {
        let ghost all = sources_view(sources@);
        let ghost given = sources@;
        let mut patterns: Vec<Pattern> = Vec::new();
        for source in it: sources
            invariant
                it.seq() == given,
                all == sources_view(given),
                patterns_view(patterns@) == ingest(all.take(it.index() as int)),
        {
            let ghost i = it.index() as int;
            let ghost before = patterns_view(patterns@);
            proof {
                assert(all.take(i + 1).drop_last() =~= all.take(i));
                assert(all.take(i + 1).last() == source@);
            }
            match PatternLoader::load_pattern(source) {
                Ok(pattern) => {
                    patterns.push(pattern);
                    assert(patterns_view(patterns@) =~= before.push(pattern@));
                },
                Err(_) => {},
            }
        }
        assert(all.take(all.len() as int) =~= all);
        patterns
    }

    /// Makes the catalog of what a scan of the pattern directory gave: the
    /// subdirectories that were read, or the reason why the directory could
    /// not be read.
    ///
    /// An unreadable directory is a failure. An unusable subdirectory is
    /// not: it is left out of the catalog.
    pub fn load_all(&self, scanned: Result<Vec<PatternSource>, String>) -> (r: Result<
        Vec<Pattern>,
        Error,
    >)
        ensures
            match r {
                Ok(patterns) => catalog_of(scan_view(scanned)) == Ok::<Seq<PatternV>, ErrorV>(
                    patterns_view(patterns@),
                ),
                Err(e) => catalog_of(scan_view(scanned)) == Err::<Seq<PatternV>, ErrorV>(e@),
            },
    {
        match scanned {
            Ok(sources) => Ok(PatternLoader::collect_patterns(sources)),
            Err(why) => Err(Error::Io(why)),
        }
    }
}

/// A source without system prompt, or with an empty one, yields no
/// pattern.
pub proof fn lemma_system_prompt_is_required(source: SourceV)
    requires
        source.system is Err || source.system == Ok::<Seq<char>, Seq<char>>(Seq::empty()),
    ensures
        pattern_from(source) is Err,
{
}

/// Every pattern of a catalog has a system prompt that is not empty.
pub proof fn lemma_patterns_have_system_prompt(sources: Seq<SourceV>)
    ensures
        forall|i: int|
            0 <= i < ingest(sources).len() ==> (#[trigger] ingest(sources)[i]).system_prompt.len()
                > 0,
    decreases sources.len(),
{
    if sources.len() > 0 {
        lemma_patterns_have_system_prompt(sources.drop_last());
    }
}

/// A source with a name, a system prompt and a modification time yields a
/// pattern, whether or not it has a user prompt.
pub proof fn lemma_user_prompt_is_optional(source: SourceV)
    requires
        source.name is Some,
        source.system matches Ok(system) && system.len() > 0,
        source.modified is Ok,
    ensures
        pattern_from(source) is Ok,
        pattern_from(source)->Ok_0.user_prompt == source.user,
{
}

/// Ingestion goes source by source: the patterns of two lists of sources
/// one after the other are those of the first list followed by those of the
/// second.
pub proof fn lemma_ingest_concat(a: Seq<SourceV>, b: Seq<SourceV>)
    ensures
        ingest(a + b) == ingest(a) + ingest(b),
    decreases b.len(),
{
    if b.len() == 0 {
        assert(a + b =~= a);
        assert(ingest(a) + ingest(b) =~= ingest(a));
    } else {
        lemma_ingest_concat(a, b.drop_last());
        assert((a + b).drop_last() =~= a + b.drop_last());
        assert((a + b).last() == b.last());
        match pattern_from(b.last()) {
            Ok(pattern) => {
                assert(ingest(a + b) =~= ingest(a) + ingest(b));
            },
            Err(_) => {},
        }
    }
}

/// A source that yields no pattern is skipped and changes nothing else:
/// the catalog is what it would be without that source.
pub proof fn lemma_unusable_source_is_skipped(a: Seq<SourceV>, bad: SourceV, b: Seq<SourceV>)
    requires
        pattern_from(bad) is Err,
    ensures
        ingest(a.push(bad) + b) == ingest(a + b),
{
    lemma_ingest_concat(a.push(bad), b);
    lemma_ingest_concat(a, b);
    assert(a.push(bad).drop_last() =~= a);
}

/// The catalog never has more patterns than there were sources.
pub proof fn lemma_ingest_len(sources: Seq<SourceV>)
    ensures
        ingest(sources).len() <= sources.len(),
    decreases sources.len(),
{
    if sources.len() > 0 {
        lemma_ingest_len(sources.drop_last());
    }
}

} // verus!
