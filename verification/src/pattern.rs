//! Compiled text patterns, backed by the regex crate.
//!
//! A `CompiledPattern` keeps the compiled regex beside the pattern text it
//! was compiled from, so contracts elsewhere can speak of matching purely in
//! terms of that text. Matching itself is the regex crate's work; the two
//! trusted wrappers below state exactly what is relied on.

use vstd::prelude::*;

verus! {

#[verifier::external_type_specification]
#[verifier::external_body]
pub struct ExRegex(regex::Regex);

/// Whether the regex crate accepts `pattern` as a pattern (well-formed and
/// within the default size limit). Names the success of `regex::Regex::new`,
/// which depends on the pattern text alone.
pub uninterp spec fn regex_pattern_valid(pattern: Seq<char>) -> bool;

/// Whether `text` contains a match of `pattern` anywhere. Names the result
/// of `regex::Regex::is_match`, which depends on the pattern and the
/// haystack alone.
pub uninterp spec fn regex_match(pattern: Seq<char>, text: Seq<char>) -> bool;

/// A compiled pattern together with the pattern text it came from.
pub struct CompiledPattern {
    regex: regex::Regex,
    source: String,
}

impl CompiledPattern {
    /// The pattern text this value was compiled from.
    pub closed spec fn pattern(self) -> Seq<char> {
        self.source@
    }

    /// Relies on regex::Regex::new: compilation succeeds exactly on the
    /// patterns the crate accepts, and the compiled value is kept beside its
    /// source text.
    #[verifier::external_body]
    pub(crate) fn compile(pattern: &str) -> (r: Option<CompiledPattern>)
        ensures
            r is Some <==> regex_pattern_valid(pattern@),
            r matches Some(compiled) ==> compiled.pattern() == pattern@,
    {
        match regex::Regex::new(pattern) {
            Ok(regex) => Some(CompiledPattern { regex, source: pattern.to_string() }),
            Err(_) => None,
        }
    }

    /// Relies on regex::Regex::is_match: whether the haystack contains a
    /// match of the pattern this value was compiled from.
    #[verifier::external_body]
    pub(crate) fn is_match(&self, text: &str) -> (matched: bool)
        ensures
            matched == regex_match(self.pattern(), text@),
    {
        self.regex.is_match(text)
    }
}

} // verus!
