//! Name patterns: regular expressions matched against base names.
//!
//! Compiling and matching are done by the `regex` crate. What a pattern
//! compiles to, and which texts it matches, is not restated here: the two
//! names below stand for the crate's answers, which depend on the pattern
//! text and the haystack alone.

use vstd::prelude::*;

verus! {

#[verifier::external_type_specification]
#[verifier::external_body]
pub struct ExRegex(regex::Regex);

#[verifier::external_type_specification]
#[verifier::external_body]
pub struct ExRegexError(regex::Error);

/// Whether `regex::Regex::new` accepts the pattern text.
pub uninterp spec fn compiles(pattern: Seq<char>) -> bool;

/// Whether the regex compiled from the pattern text has a match anywhere in
/// the text.
pub uninterp spec fn pattern_matches(pattern: Seq<char>, text: Seq<char>) -> bool;

/// Relies on `regex::Regex::new`: it returns `Ok` exactly for the patterns
/// it accepts with its default settings, which depends on the text alone.
#[verifier::external_body]
fn compile_regex(pattern: &str) -> (r: Result<regex::Regex, regex::Error>)
    ensures
        r.is_ok() == compiles(pattern@),
{
    regex::Regex::new(pattern)
}

/// A compiled name pattern, with the text it was compiled from.
///
/// Values are built only by `NamePattern::new`, so `re` is always the regex
/// compiled from `source`.
pub struct NamePattern {
    source: String,
    re: regex::Regex,
}

/// Relies on `regex::Regex::is_match`: true if and only if the regex has a
/// match anywhere in the haystack. The regex is the one compiled from the
/// pattern's source text.
#[verifier::external_body]
fn regex_is_match(p: &NamePattern, text: &str) -> (r: bool)
    ensures
        r == pattern_matches(p.source@, text@),
{
    p.re.is_match(text)
}

impl NamePattern {
    /// The text this pattern was compiled from.
    pub closed spec fn view(&self) -> Seq<char> {
        self.source@
    }

    /// Compiles a pattern; `None` where the regex crate refuses it.
    pub fn new(pattern: &str) -> (r: Option<NamePattern>)
        ensures
            r.is_some() == compiles(pattern@),
            r matches Some(p) ==> p@ == pattern@,
    {
        match compile_regex(pattern) {
            Ok(re) => Some(NamePattern { source: pattern.to_owned(), re }),
            Err(_) => None,
        }
    }

    /// The text this pattern was compiled from.
    pub fn as_str(&self) -> (r: &str)
        ensures
            r@ == self@,
    {
        self.source.as_str()
    }

    /// Whether the pattern matches anywhere in `text` (no anchoring beyond
    /// what the pattern itself writes).
    pub fn is_match(&self, text: &str) -> (r: bool)
        ensures
            r == pattern_matches(self@, text@),
    {
        regex_is_match(self, text)
    }
}

} // verus!
