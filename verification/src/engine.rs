use vstd::prelude::*;

use crate::translate::escaped_char;

verus! {

/// Declares `regex::Regex`, the compiled form that the pattern-matching
/// engine hands back, so that a `CompiledMatcher` can hold one.
#[verifier::external_type_specification]
#[verifier::external_body]
pub struct ExRegex(regex::Regex);

/// Declares `regex::Error`, the error type of `regex::Regex::new`.
#[verifier::external_type_specification]
#[verifier::external_body]
pub struct ExRegexError(regex::Error);

/// What `regex::Regex::is_match` returns for a regex compiled with the
/// default configuration from the source `pattern`, run on `text`. Such a
/// regex's behaviour is a function of the two strings alone.
pub uninterp spec fn regex_match(pattern: Seq<char>, text: Seq<char>) -> bool;

/// Whether `regex::Regex::new` with the default configuration accepts
/// `pattern`. Acceptance is deterministic: a function of the pattern
/// string alone.
pub uninterp spec fn regex_compiles(pattern: Seq<char>) -> bool;

/// An immutable matcher compiled from one raw wildcard pattern. It tests a
/// candidate string against the anchored pattern recorded in `source`, and
/// is never mutated after construction.
pub struct CompiledMatcher {
    regex: regex::Regex,
    source: String,
}

impl View for CompiledMatcher {
    type V = Seq<char>;

    closed spec fn view(&self) -> Seq<char> {
        self.source@
    }
}

impl CompiledMatcher {
    /// Whether this matcher accepts `text`: the engine's verdict for the
    /// recorded pattern source on `text`.
    pub open spec fn accepts(self, text: Seq<char>) -> bool {
        regex_match(self@, text)
    }

    /// The source string of the anchored pattern this matcher was compiled
    /// from.
    pub fn as_str(&self) -> (r: &str)
        ensures
            r@ == self@,
    {
        self.source.as_str()
    }
}

/// Relies on `regex::Regex::new` (default configuration): it succeeds on a
/// given source string or rejects it deterministically, and on success the
/// returned regex was compiled from exactly that string, which the matcher
/// records beside it; on failure the engine's error is handed back.
#[verifier::external_body]
pub(crate) fn compile_regex(pattern: String) -> (r: Result<CompiledMatcher, regex::Error>)
    ensures
        (r is Ok) == regex_compiles(pattern@),
        r matches Ok(m) ==> m@ == pattern@,
{
    match regex::Regex::new(&pattern) {
        Ok(regex) => Ok(CompiledMatcher { regex, source: pattern }),
        Err(e) => Err(e),
    }
}

/// Relies on `regex::Regex::is_match`: deterministic in the regex's source
/// pattern and the haystack. Every `CompiledMatcher` is built by
/// `compile_regex`, so the recorded source is the pattern its regex was
/// compiled from.
#[verifier::external_body]
pub(crate) fn matcher_is_match(m: &CompiledMatcher, text: &str) -> (r: bool)
    ensures
        r == regex_match(m@, text@),
{
    m.regex.is_match(text)
}

/// Relies on `regex::escape`: it puts a `\` before every character the
/// engine treats as syntax and leaves every other character unchanged.
#[verifier::external_body]
pub(crate) fn escape_char(c: char) -> (r: String)
    ensures
        r@ == escaped_char(c),
{
    regex::escape(c.to_string().as_str())
}

} // verus!
