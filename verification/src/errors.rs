use vstd::prelude::*;

verus! {

/// Reason reported when a pattern does not start with `@`.
pub open spec fn reason_not_fully_qualified() -> Seq<char> {
    "patterns need to be fully-qualified, starting with a @"@
}

/// Reason reported when a pattern holds an `@` beyond the leading one.
pub open spec fn reason_more_than_one_at() -> Seq<char> {
    "patterns cannot contain more than one @"@
}

/// Reason reported when splitting the pattern body on `:` does not yield
/// exactly two parts.
pub open spec fn reason_wrong_part_count() -> Seq<char> {
    "expected exactly 2 parts in the pattern, separated by :"@
}

/// Reason reported when the localpart or the domain of a pattern is empty.
pub open spec fn reason_empty_part() -> Seq<char> {
    "rejecting empty part"@
}

/// The two ways compilation can fail: the caller's pattern is structurally
/// invalid, or the otherwise well-formed assembled pattern was rejected by
/// the underlying engine (a defensive case).
#[derive(Debug)]
pub enum PatternError {
    InvalidPattern(String),
    RegexError(regex::Error),
}

impl From<regex::Error> for PatternError {
    fn from(err: regex::Error) -> Self {
        PatternError::RegexError(err)
    }
}

impl vstd::std_specs::convert::FromSpecImpl<regex::Error> for PatternError {
    open spec fn obeys_from_spec() -> bool {
        true
    }

    open spec fn from_spec(err: regex::Error) -> PatternError {
        PatternError::RegexError(err)
    }
}

} // verus!
