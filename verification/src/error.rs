//! The failures that the crate reports, and the text of each.

use crate::pattern::texts;
use crate::text::{join, join_strings};
use vstd::prelude::*;
use vstd::string::StringExecFns;

verus! {

/// A failure.
#[derive(Debug, Clone)]
pub enum Error {
    /// No pattern directory exists at any candidate location.
    PatternDirectoryNotFound { locations: Vec<String> },
    /// A pattern directory that yields no pattern.
    InvalidPattern { name: String, reason: String },
    /// No pattern of this name.
    PatternNotFound(String),
    /// The Fabric executable failed on a pattern.
    PatternExecutionFailed { pattern: String, message: String },
    /// An embedding of the wrong size.
    InvalidEmbeddingDimension { expected: usize, actual: usize },
    /// A column layout that does not fit.
    InvalidArrowSchema(String),
    /// A violation of the protocol.
    McpProtocolError(String),
    /// Bad or missing configuration.
    ConfigError(String),
    /// A failure of input or output, by its text.
    Io(String),
    /// A failure of the columnar layer, by its text.
    Arrow(String),
    /// A failure to read or write a Parquet file, by its text.
    Parquet(String),
    /// A failure to read or write JSON, by its text.
    Json(String),
    /// A failure to read TOML, by its text.
    Toml(String),
}

/// The mathematical model of an [`Error`].
pub enum ErrorV {
    PatternDirectoryNotFound { locations: Seq<Seq<char>> },
    InvalidPattern { name: Seq<char>, reason: Seq<char> },
    PatternNotFound(Seq<char>),
    PatternExecutionFailed { pattern: Seq<char>, message: Seq<char> },
    InvalidEmbeddingDimension { expected: nat, actual: nat },
    InvalidArrowSchema(Seq<char>),
    McpProtocolError(Seq<char>),
    ConfigError(Seq<char>),
    Io(Seq<char>),
    Arrow(Seq<char>),
    Parquet(Seq<char>),
    Json(Seq<char>),
    Toml(Seq<char>),
}

impl View for Error {
    type V = ErrorV;

    open spec fn view(&self) -> ErrorV {
        match self {
            Error::PatternDirectoryNotFound { locations } => ErrorV::PatternDirectoryNotFound {
                locations: texts(locations@),
            },
            Error::InvalidPattern { name, reason } => ErrorV::InvalidPattern {
                name: name@,
                reason: reason@,
            },
            Error::PatternNotFound(name) => ErrorV::PatternNotFound(name@),
            Error::PatternExecutionFailed { pattern, message } => ErrorV::PatternExecutionFailed {
                pattern: pattern@,
                message: message@,
            },
            Error::InvalidEmbeddingDimension { expected, actual } => {
                ErrorV::InvalidEmbeddingDimension { expected: *expected as nat, actual: *actual as nat }
            },
            Error::InvalidArrowSchema(s) => ErrorV::InvalidArrowSchema(s@),
            Error::McpProtocolError(s) => ErrorV::McpProtocolError(s@),
            Error::ConfigError(s) => ErrorV::ConfigError(s@),
            Error::Io(s) => ErrorV::Io(s@),
            Error::Arrow(s) => ErrorV::Arrow(s@),
            Error::Parquet(s) => ErrorV::Parquet(s@),
            Error::Json(s) => ErrorV::Json(s@),
            Error::Toml(s) => ErrorV::Toml(s@),
        }
    }
}

/// The character of a decimal digit.
pub open spec fn digit_char(d: int) -> char {
    if d == 0 {
        '0'
    } else if d == 1 {
        '1'
    } else if d == 2 {
        '2'
    } else if d == 3 {
        '3'
    } else if d == 4 {
        '4'
    } else if d == 5 {
        '5'
    } else if d == 6 {
        '6'
    } else if d == 7 {
        '7'
    } else if d == 8 {
        '8'
    } else {
        '9'
    }
}

/// A natural number in decimal, without leading zeros.
pub open spec fn decimal_text(n: nat) -> Seq<char>
    decreases n,
{
    if n < 10 {
        seq![digit_char(n as int)]
    } else {
        decimal_text(n / 10).push(digit_char((n % 10) as int))
    }
}

/// A text as `Debug` formatting writes it: in double quotes, with quotes,
/// backslashes and characters that do not print written as escapes.
pub uninterp spec fn debug_text(s: Seq<char>) -> Seq<char>;

/// Formats a string with the standard library's `Debug` formatting
/// (`{:?}`). The contract only names the result.
#[verifier::external_body]
fn format_debug(s: &str) -> (r: String)
    ensures
        r@ == debug_text(s@),
{
    format!("{:?}", s)
}

/// The `Debug` forms of a list of texts.
pub open spec fn debug_texts(items: Seq<Seq<char>>) -> Seq<Seq<char>> {
    Seq::new(items.len(), |i: int| debug_text(items[i]))
}

/// The items in square brackets, separated by a comma and a space.
pub open spec fn bracketed(items: Seq<Seq<char>>) -> Seq<char> {
    "["@ + join(items, ", "@) + "]"@
}

/// A list of texts as it is shown in messages: the `Debug` form of each,
/// in square brackets.
pub open spec fn debug_list(items: Seq<Seq<char>>) -> Seq<char> {
    bracketed(debug_texts(items))
}

/// The text for a missing pattern directory, given the list of locations
/// as it is to be shown.
pub open spec fn directory_not_found_text(listed: Seq<char>) -> Seq<char> {
    "Pattern directory not found. Tried: "@ + listed
}

impl ErrorV {
    /// The text that describes the failure.
    pub open spec fn message(self) -> Seq<char> {
        match self {
            ErrorV::PatternDirectoryNotFound { locations } => directory_not_found_text(
                debug_list(locations),
            ),
            ErrorV::InvalidPattern { name, reason } => "Invalid pattern '"@ + name + "': "@ + reason,
            ErrorV::PatternNotFound(name) => "Pattern '"@ + name + "' not found"@,
            ErrorV::PatternExecutionFailed { pattern, message } => "Failed to execute pattern '"@
                + pattern + "': "@ + message,
            ErrorV::InvalidEmbeddingDimension { expected, actual } => {
                "Invalid embedding dimension: expected "@ + decimal_text(expected) + ", got "@
                    + decimal_text(actual)
            },
            ErrorV::InvalidArrowSchema(s) => "Invalid Arrow schema: "@ + s,
            ErrorV::McpProtocolError(s) => "MCP protocol error: "@ + s,
            ErrorV::ConfigError(s) => "Configuration error: "@ + s,
            ErrorV::Io(s) => s,
            ErrorV::Arrow(s) => s,
            ErrorV::Parquet(s) => s,
            ErrorV::Json(s) => s,
            ErrorV::Toml(s) => s,
        }
    }
}

/// The one-character string of a decimal digit.
fn digit_str(d: u64) -> (r: &'static str)
    requires
        d < 10,
    ensures
        r@ == seq![digit_char(d as int)],
{
    proof {
        reveal_strlit("0");
        reveal_strlit("1");
        reveal_strlit("2");
        reveal_strlit("3");
        reveal_strlit("4");
        reveal_strlit("5");
        reveal_strlit("6");
        reveal_strlit("7");
        reveal_strlit("8");
        reveal_strlit("9");
    }
    let r = if d == 0 {
        "0"
    } else if d == 1 {
        "1"
    } else if d == 2 {
        "2"
    } else if d == 3 {
        "3"
    } else if d == 4 {
        "4"
    } else if d == 5 {
        "5"
    } else if d == 6 {
        "6"
    } else if d == 7 {
        "7"
    } else if d == 8 {
        "8"
    } else {
        "9"
    };
    assert(r@ =~= seq![digit_char(d as int)]);
    r
}

/// Writes a number in decimal.
pub fn decimal(n: u64) -> (r: String)
    ensures
        r@ == decimal_text(n as nat),
    decreases n,
{
    if n < 10 {
        String::from_str(digit_str(n))
    } else {
        let mut r = decimal(n / 10);
        r.append(digit_str(n % 10));
        assert(r@ =~= decimal_text((n / 10) as nat).push(digit_char((n % 10) as int)));
        r
    }
}

/// Writes items as a list: in square brackets, separated by a comma and a
/// space.
pub fn bracketed_list(items: &Vec<String>) -> (r: String)
    ensures
        r@ == bracketed(texts(items@)),
{
    let mut r = String::from_str("[");
    assert(texts(items@) =~= Seq::new(items@.len(), |i: int| items@[i]@));
    r.append(join_strings(items, ", ").as_str());
    r.append("]");
    r
}

/// Writes a list of strings, each in its `Debug` form.
fn format_debug_list(items: &Vec<String>) -> (r: String)
    ensures
        r@ == debug_list(texts(items@)),
{
    let mut shown: Vec<String> = Vec::new();
    let mut i: usize = 0;
    while i < items.len()
        invariant
            i <= items.len(),
            shown@.len() == i,
            forall|k: int| 0 <= k < i ==> (#[trigger] shown@[k])@ == debug_text(items@[k]@),
        decreases items.len() - i,
    {
        shown.push(format_debug(items[i].as_str()));
        i += 1;
    }
    assert(texts(shown@) =~= debug_texts(texts(items@)));
    bracketed_list(&shown)
}

/// Writes the text for a missing pattern directory around the list of
/// locations as it is to be shown.
pub fn directory_not_found_message(listed: &str) -> (r: String)
    ensures
        r@ == directory_not_found_text(listed@),
{
    let mut r = String::from_str("Pattern directory not found. Tried: ");
    r.append(listed);
    r
}

impl Error {
    /// The failure of an execution of `pattern`.
    pub fn pattern_execution_failed(pattern: &str, message: &str) -> (r: Error)
        ensures
            r@ == (ErrorV::PatternExecutionFailed { pattern: pattern@, message: message@ }),
    {
        Error::PatternExecutionFailed {
            pattern: String::from_str(pattern),
            message: String::from_str(message),
        }
    }

    /// The failure to make a pattern of the directory `name`.
    pub fn invalid_pattern(name: &str, reason: &str) -> (r: Error)
        ensures
            r@ == (ErrorV::InvalidPattern { name: name@, reason: reason@ }),
    {
        Error::InvalidPattern { name: String::from_str(name), reason: String::from_str(reason) }
    }

    /// The failure to find a pattern directory at any of `locations`.
    pub fn pattern_directory_not_found(locations: Vec<String>) -> (r: Error)
        ensures
            r@ == (ErrorV::PatternDirectoryNotFound { locations: texts(locations@) }),
    {
        Error::PatternDirectoryNotFound { locations }
    }

    /// The text that describes the failure.
    pub fn message(&self) -> (r: String)
        ensures
            r@ == self@.message(),
    {
        match self {
            Error::PatternDirectoryNotFound { locations } => {
                directory_not_found_message(format_debug_list(locations).as_str())
            },
            Error::InvalidPattern { name, reason } => {
                let mut r = String::from_str("Invalid pattern '");
                r.append(name.as_str());
                r.append("': ");
                r.append(reason.as_str());
                r
            },
            Error::PatternNotFound(name) => {
                let mut r = String::from_str("Pattern '");
                r.append(name.as_str());
                r.append("' not found");
                r
            },
            Error::PatternExecutionFailed { pattern, message } => {
                let mut r = String::from_str("Failed to execute pattern '");
                r.append(pattern.as_str());
                r.append("': ");
                r.append(message.as_str());
                r
            },
            Error::InvalidEmbeddingDimension { expected, actual } => {
                let mut r = String::from_str("Invalid embedding dimension: expected ");
                r.append(decimal(*expected as u64).as_str());
                r.append(", got ");
                r.append(decimal(*actual as u64).as_str());
                r
            },
            Error::InvalidArrowSchema(s) => {
                let mut r = String::from_str("Invalid Arrow schema: ");
                r.append(s.as_str());
                r
            },
            Error::McpProtocolError(s) => {
                let mut r = String::from_str("MCP protocol error: ");
                r.append(s.as_str());
                r
            },
            Error::ConfigError(s) => {
                let mut r = String::from_str("Configuration error: ");
                r.append(s.as_str());
                r
            },
            Error::Io(s) => s.clone(),
            Error::Arrow(s) => s.clone(),
            Error::Parquet(s) => s.clone(),
            Error::Json(s) => s.clone(),
            Error::Toml(s) => s.clone(),
        }
    }
}

} // verus!
