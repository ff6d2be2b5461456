use vstd::prelude::*;

use crate::engine::{compile_regex, regex_compiles, CompiledMatcher};
use crate::errors::{
    reason_empty_part, reason_more_than_one_at, reason_not_fully_qualified,
    reason_wrong_part_count, PatternError,
};
use crate::translate::{get_pattern, translate_segment};
use vstd::string::StrSliceExecFns;
use vstd::string::StringExecFns;

verus! {

/// Whether `s` holds the character `c` anywhere.
pub open spec fn contains_char(s: Seq<char>, c: char) -> bool {
    exists|i: int| 0 <= i < s.len() && s[i] == c
}

/// How many times the character `c` occurs in `s`.
pub open spec fn count_char(s: Seq<char>, c: char) -> nat
    decreases s.len(),
{
    if s.len() == 0 {
        0
    } else {
        count_char(s.drop_last(), c) + (if s.last() == c {
            1nat
        } else {
            0nat
        })
    }
}

/// The pattern with its leading `@` removed.
pub open spec fn pattern_body(p: Seq<char>) -> Seq<char> {
    p.drop_first()
}

/// The position of a `:` in `s`; the position of the separator whenever
/// `s` holds exactly one.
pub open spec fn colon_split_at(s: Seq<char>) -> int {
    choose|i: int| 0 <= i < s.len() && s[i] == ':'
}

/// The localpart segment of a pattern: what stands between the leading `@`
/// and the `:` separator.
pub open spec fn localpart_of(p: Seq<char>) -> Seq<char> {
    pattern_body(p).subrange(0, colon_split_at(pattern_body(p)))
}

/// The domain segment of a pattern: what follows the `:` separator.
pub open spec fn domain_of(p: Seq<char>) -> Seq<char> {
    pattern_body(p).subrange(
        colon_split_at(pattern_body(p)) + 1,
        pattern_body(p).len() as int,
    )
}

/// A structurally valid raw pattern: it starts with `@`, holds no further
/// `@`, its body splits on exactly one `:`, and neither resulting segment
/// is empty.
pub open spec fn valid_pattern(p: Seq<char>) -> bool {
    &&& p.len() >= 1 && p[0] == '@'
    &&& !contains_char(pattern_body(p), '@')
    &&& count_char(pattern_body(p), ':') == 1
    &&& localpart_of(p).len() > 0
    &&& domain_of(p).len() > 0
}

/// The reason an invalid pattern is rejected with: the first structural
/// rule it breaks, in the order the rules are checked.
pub open spec fn invalid_reason(p: Seq<char>) -> Seq<char> {
    if !(p.len() >= 1 && p[0] == '@') {
        reason_not_fully_qualified()
    } else if contains_char(pattern_body(p), '@') {
        reason_more_than_one_at()
    } else if count_char(pattern_body(p), ':') != 1 {
        reason_wrong_part_count()
    } else {
        reason_empty_part()
    }
}

/// The anchored engine pattern a valid raw pattern compiles to: start
/// anchor, literal `@`, the translated localpart, literal `:`, the
/// translated domain, end anchor.
pub open spec fn translated(p: Seq<char>) -> Seq<char> {
    "^@"@ + translate_segment(localpart_of(p)) + ":"@ + translate_segment(domain_of(p)) + "$"@
}

/// Whether one raw pattern compiles all the way through: it is
/// structurally valid and the engine accepts its translation.
pub open spec fn pattern_compiles(p: Seq<char>) -> bool {
    valid_pattern(p) && regex_compiles(translated(p))
}

proof fn lemma_count_char_zero(s: Seq<char>, c: char)
    ensures
        (count_char(s, c) == 0) <==> (forall|i: int| 0 <= i < s.len() ==> s[i] != c),
    decreases s.len(),
{
    if s.len() > 0 {
        lemma_count_char_zero(s.drop_last(), c);
        assert(forall|i: int| 0 <= i < s.len() - 1 ==> s.drop_last()[i] == s[i]);
        assert(s.last() == s[s.len() - 1]);
    }
}

proof fn lemma_count_char_one(s: Seq<char>, c: char)
    requires
        count_char(s, c) == 1,
    ensures
        exists|i: int| 0 <= i < s.len() && s[i] == c,
        forall|i: int, j: int|
            (0 <= i < s.len() && s[i] == c && 0 <= j < s.len() && s[j] == c) ==> i == j,
    decreases s.len(),
{
    if s.last() == c {
        lemma_count_char_zero(s.drop_last(), c);
        assert(forall|i: int| 0 <= i < s.len() - 1 ==> s.drop_last()[i] == s[i]);
        assert(s[s.len() - 1] == c);
    } else {
        lemma_count_char_one(s.drop_last(), c);
        assert(forall|i: int| 0 <= i < s.len() - 1 ==> s.drop_last()[i] == s[i]);
        let w = choose|i: int| 0 <= i < s.len() - 1 && s.drop_last()[i] == c;
        assert(0 <= w < s.len() && s[w] == c);
    }
}

/// Parses one raw wildcard pattern and compiles it into a matcher for the
/// corresponding anchored engine pattern, or reports the first structural
/// rule the pattern breaks; a structurally valid pattern succeeds exactly
/// when the engine accepts the assembled pattern, and fails with the
/// engine's error otherwise.
#[verifier::rlimit(50)]
pub fn parse_pattern(pattern: &str) -> (r: Result<CompiledMatcher, PatternError>)
    ensures
        !valid_pattern(pattern@) ==> (r matches Err(PatternError::InvalidPattern(m)) && m@
            == invalid_reason(pattern@)),
        valid_pattern(pattern@) ==> ((r is Ok) <==> regex_compiles(translated(pattern@))),
        valid_pattern(pattern@) ==> match r {
            Ok(m) => m@ == translated(pattern@),
            Err(e) => e is RegexError,
        },
{
    let n = pattern.unicode_len();
    if n == 0 || pattern.get_char(0) != '@' {
        return Err(
            PatternError::InvalidPattern(
                "patterns need to be fully-qualified, starting with a @".to_owned(),
            ),
        );
    }
    let body = pattern.substring_char(1, n);
    proof {
        assert(body@ =~= pattern_body(pattern@));
    }
    let m = n - 1;

    let mut i: usize = 0;
    while i < m
        invariant
            pattern@.len() >= 1 && pattern@[0] == '@',
            body@ == pattern_body(pattern@),
            m == body@.len(),
            i <= m,
            forall|j: int| 0 <= j < i ==> body@[j] != '@',
        decreases m - i,
    {
        if body.get_char(i) == '@' {
            proof {
                assert(body@[i as int] == '@');
                assert(contains_char(body@, '@'));
                assert(contains_char(pattern_body(pattern@), '@'));
            }
            return Err(
                PatternError::InvalidPattern(
                    "patterns cannot contain more than one @".to_owned(),
                ),
            );
        }
        i += 1;
    }
    assert(!contains_char(body@, '@'));

    let mut count: usize = 0;
    let mut first: usize = 0;
    let mut k: usize = 0;
    while k < m
        invariant
            pattern@.len() >= 1 && pattern@[0] == '@',
            body@ == pattern_body(pattern@),
            !contains_char(body@, '@'),
            m == body@.len(),
            k <= m,
            count <= k,
            count as nat == count_char(body@.subrange(0, k as int), ':'),
            count > 0 ==> (first < k && body@[first as int] == ':'),
        decreases m - k,
    {
        proof {
            assert(body@.subrange(0, k as int + 1).drop_last() =~= body@.subrange(0, k as int));
            assert(body@.subrange(0, k as int + 1).last() == body@[k as int]);
        }
        if body.get_char(k) == ':' {
            if count == 0 {
                first = k;
            }
            count += 1;
        }
        k += 1;
    }
    proof {
        assert(body@.subrange(0, m as int) =~= body@);
    }
    if count != 1 {
        return Err(
            PatternError::InvalidPattern(
                "expected exactly 2 parts in the pattern, separated by :".to_owned(),
            ),
        );
    }
    proof {
        lemma_count_char_one(body@, ':');
        let ci = colon_split_at(body@);
        assert(0 <= ci < body@.len() && body@[ci] == ':');
        assert(ci == first as int);
    }

    let localpart = body.substring_char(0, first);
    proof {
        assert(localpart@ =~= localpart_of(pattern@));
    }
    let localpart_pattern = match get_pattern(localpart) {
        Ok(s) => s,
        Err(e) => {
            return Err(e);
        },
    };

    let domain = body.substring_char(first + 1, m);
    proof {
        assert(domain@ =~= domain_of(pattern@));
    }
    let domain_pattern = match get_pattern(domain) {
        Ok(s) => s,
        Err(e) => {
            return Err(e);
        },
    };

    let mut assembled = "^@".to_owned();
    assembled.append(localpart_pattern.as_str());
    assembled.append(":");
    assembled.append(domain_pattern.as_str());
    assembled.append("$");
    proof {
        assert(assembled@ == translated(pattern@));
    }

    match compile_regex(assembled) {
        Ok(matcher) => Ok(matcher),
        Err(e) => Err(PatternError::from(e)),
    }
}

/// Compiles a whole allow-list of raw wildcard patterns, in input order,
/// failing fast: it succeeds exactly when every pattern compiles, with the
/// matchers standing in the same order as their patterns, and otherwise
/// hands back the error of the first failing pattern, with no partial
/// list.
pub fn parse_patterns(patterns: &[&str]) -> (r: Result<Vec<CompiledMatcher>, PatternError>)
    ensures
        (r is Ok) <==> (forall|i: int|
            0 <= i < patterns@.len() ==> pattern_compiles(#[trigger] patterns@[i]@)),
        r matches Ok(ms) ==> ms@.len() == patterns@.len() && (forall|i: int|
            0 <= i < patterns@.len() ==> valid_pattern(#[trigger] patterns@[i]@) && ms@[i]@
                == translated(patterns@[i]@)),
        r matches Err(PatternError::InvalidPattern(m)) ==> exists|k: int|
            0 <= k < patterns@.len() && !valid_pattern(#[trigger] patterns@[k]@) && m@
                == invalid_reason(patterns@[k]@) && (forall|j: int|
                0 <= j < k ==> pattern_compiles(#[trigger] patterns@[j]@)),
        r matches Err(e) && e is RegexError ==> exists|k: int|
            0 <= k < patterns@.len() && valid_pattern(#[trigger] patterns@[k]@)
                && !regex_compiles(translated(patterns@[k]@)) && (forall|j: int|
                0 <= j < k ==> pattern_compiles(#[trigger] patterns@[j]@)),
{
    let n = patterns.len();
    let mut regexes: Vec<CompiledMatcher> = Vec::with_capacity(n);
    let mut i: usize = 0;
    while i < n
        invariant
            n == patterns@.len(),
            i <= n,
            regexes@.len() == i,
            forall|j: int|
                0 <= j < i ==> pattern_compiles(#[trigger] patterns@[j]@) && regexes@[j]@
                    == translated(patterns@[j]@),
        decreases n - i,
    {
        let regex = match parse_pattern(patterns[i]) {
            Ok(matcher) => matcher,
            Err(e) => {
                proof {
                    assert(!pattern_compiles(patterns@[i as int]@));
                }
                return Err(e);
            },
        };
        regexes.push(regex);
        i += 1;
    }
    Ok(regexes)
}

/// Converts a vector of owned pattern strings to borrowed ones; each entry
/// of the result views the same characters as its source entry.
pub fn vec_string_to_str_slice(vec: &[String]) -> (r: Vec<&str>)
    ensures
        r@.len() == vec@.len(),
        forall|i: int| 0 <= i < vec@.len() ==> #[trigger] r@[i]@ == vec@[i]@,
{
    let n = vec.len();
    let mut out: Vec<&str> = Vec::with_capacity(n);
    let mut i: usize = 0;
    while i < n
        invariant
            n == vec@.len(),
            i <= n,
            out@.len() == i,
            forall|j: int| 0 <= j < i ==> #[trigger] out@[j]@ == vec@[j]@,
        decreases n - i,
    {
        out.push(vec[i].as_str());
        i += 1;
    }
    out
}

/// Compiles a whole allow-list given as owned strings; behaves exactly as
/// `parse_patterns` does on the borrowed forms of the same strings.
pub fn parse_patterns_vector(patterns: &[String]) -> (r: Result<
    Vec<CompiledMatcher>,
    PatternError,
>)
    ensures
        (r is Ok) <==> (forall|i: int|
            0 <= i < patterns@.len() ==> pattern_compiles(#[trigger] patterns@[i]@)),
        r matches Ok(ms) ==> ms@.len() == patterns@.len() && (forall|i: int|
            0 <= i < patterns@.len() ==> valid_pattern(#[trigger] patterns@[i]@) && ms@[i]@
                == translated(patterns@[i]@)),
        r matches Err(PatternError::InvalidPattern(m)) ==> exists|k: int|
            0 <= k < patterns@.len() && !valid_pattern(#[trigger] patterns@[k]@) && m@
                == invalid_reason(patterns@[k]@) && (forall|j: int|
                0 <= j < k ==> pattern_compiles(#[trigger] patterns@[j]@)),
        r matches Err(e) && e is RegexError ==> exists|k: int|
            0 <= k < patterns@.len() && valid_pattern(#[trigger] patterns@[k]@)
                && !regex_compiles(translated(patterns@[k]@)) && (forall|j: int|
                0 <= j < k ==> pattern_compiles(#[trigger] patterns@[j]@)),
{
    let strs = vec_string_to_str_slice(patterns);
    let r = parse_patterns(strs.as_slice());
    proof {
        let ps = patterns@;
        let ss = strs@;
        assert forall|i: int|
            0 <= i < ps.len() implies pattern_compiles(#[trigger] ps[i]@) == pattern_compiles(
            ss[i]@,
        ) by {
            assert(ss[i]@ == ps[i]@);
        }
        if forall|i: int| 0 <= i < ss.len() ==> pattern_compiles(#[trigger] ss[i]@) {
            assert(forall|i: int| 0 <= i < ps.len() ==> pattern_compiles(#[trigger] ps[i]@));
        }
        if forall|i: int| 0 <= i < ps.len() ==> pattern_compiles(#[trigger] ps[i]@) {
            assert(forall|i: int| 0 <= i < ss.len() ==> pattern_compiles(#[trigger] ss[i]@));
        }
        match &r {
            Ok(ms) => {
                assert forall|i: int|
                    0 <= i < ps.len() implies valid_pattern(#[trigger] ps[i]@) && ms@[i]@
                    == translated(ps[i]@) by {
                    assert(ss[i]@ == ps[i]@);
                    assert(valid_pattern(ss[i]@));
                    assert(ms@[i]@ == translated(ss[i]@));
                }
            },
            Err(PatternError::InvalidPattern(m)) => {
                let k = choose|k: int|
                    0 <= k < ss.len() && !valid_pattern(#[trigger] ss[k]@) && m@
                        == invalid_reason(ss[k]@) && (forall|j: int|
                        0 <= j < k ==> pattern_compiles(#[trigger] ss[j]@));
                assert(ss[k]@ == ps[k]@);
                assert(!valid_pattern(ps[k]@) && m@ == invalid_reason(ps[k]@));
                assert forall|j: int| 0 <= j < k implies pattern_compiles(#[trigger] ps[j]@) by {
                    assert(ss[j]@ == ps[j]@);
                    assert(pattern_compiles(ss[j]@));
                }
            },
            Err(PatternError::RegexError(_)) => {
                let k = choose|k: int|
                    0 <= k < ss.len() && valid_pattern(#[trigger] ss[k]@) && !regex_compiles(
                        translated(ss[k]@),
                    ) && (forall|j: int| 0 <= j < k ==> pattern_compiles(#[trigger] ss[j]@));
                assert(ss[k]@ == ps[k]@);
                assert(valid_pattern(ps[k]@) && !regex_compiles(translated(ps[k]@)));
                assert forall|j: int| 0 <= j < k implies pattern_compiles(#[trigger] ps[j]@) by {
                    assert(ss[j]@ == ps[j]@);
                    assert(pattern_compiles(ss[j]@));
                }
            },
        }
    }
    r
}

} // verus!
