use vstd::prelude::*;

use crate::engine::escape_char;
use crate::errors::{reason_empty_part, PatternError};
use vstd::string::StrSliceExecFns;
use vstd::string::StringExecFns;

verus! {

/// A character that the pattern-matching engine treats as syntax rather
/// than as a literal, and which therefore must be escaped when it appears
/// in a user-supplied segment.
pub open spec fn is_regex_meta(c: char) -> bool {
    ||| c == '\\'
    ||| c == '.'
    ||| c == '+'
    ||| c == '*'
    ||| c == '?'
    ||| c == '('
    ||| c == ')'
    ||| c == '|'
    ||| c == '['
    ||| c == ']'
    ||| c == '{'
    ||| c == '}'
    ||| c == '^'
    ||| c == '$'
    ||| c == '#'
    ||| c == '&'
    ||| c == '-'
    ||| c == '~'
}

/// The fragment a single literal character contributes to the compiled
/// pattern: the character itself, escaped if the engine would otherwise
/// treat it as syntax.
pub open spec fn escaped_char(c: char) -> Seq<char> {
    if is_regex_meta(c) {
        seq!['\\', c]
    } else {
        seq![c]
    }
}

/// The fragment the wildcard marker contributes: zero or more characters
/// that are neither `:` nor `@`, so that a wildcard can never cross the
/// structural separators of an identifier.
pub open spec fn wildcard_fragment() -> Seq<char> {
    "([^:@]*)"@
}

/// The fragment one pattern character contributes: the bounded wildcard
/// for `*`, the escaped literal for anything else.
pub open spec fn translate_char(c: char) -> Seq<char> {
    if c == '*' {
        wildcard_fragment()
    } else {
        escaped_char(c)
    }
}

/// The translation of a whole segment: the fragments of its characters,
/// concatenated in order, with no cross-character interaction.
pub open spec fn translate_segment(s: Seq<char>) -> Seq<char>
    decreases s.len(),
{
    if s.len() == 0 {
        Seq::empty()
    } else {
        translate_char(s[0]) + translate_segment(s.drop_first())
    }
}

/// Translates one non-empty segment (localpart or domain) of a wildcard
/// pattern into the engine-pattern fragment it stands for; rejects an
/// empty segment.
pub(crate) fn get_pattern(part: &str) -> (r: Result<String, PatternError>)
    ensures
        part@.len() == 0 ==> (r matches Err(PatternError::InvalidPattern(m)) && m@
            == reason_empty_part()),
        part@.len() > 0 ==> (r matches Ok(s) && s@ == translate_segment(part@)),
{
    if part.is_empty() {
        return Err(PatternError::InvalidPattern("rejecting empty part".to_owned()));
    }
    let n = part.unicode_len();
    let mut pattern = String::new();
    let mut i: usize = 0;
    proof {
        assert(part@.skip(0) =~= part@);
        assert(Seq::<char>::empty() + translate_segment(part@) =~= translate_segment(part@));
    }
    while i < n
        invariant
            n == part@.len(),
            i <= n,
            pattern@ + translate_segment(part@.skip(i as int)) == translate_segment(part@),
        decreases n - i,
    {
        let c = part.get_char(i);
        proof {
            assert(part@.skip(i as int)[0] == part@[i as int]);
            assert(part@.skip(i as int).drop_first() =~= part@.skip(i as int + 1));
        }
        if c == '*' {
            pattern.append("([^:@]*)");
        } else {
            let esc = escape_char(c);
            pattern.append(esc.as_str());
        }
        i += 1;
    }
    proof {
        assert(part@.skip(n as int) =~= Seq::<char>::empty());
    }
    Ok(pattern)
}

} // verus!
