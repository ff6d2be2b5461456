use vstd::prelude::*;

use crate::compile::{translated, valid_pattern};
use crate::engine::CompiledMatcher;

verus! {

/// Law: compilation is idempotent. Two matchers compiled from the same
/// raw pattern carry the same anchored engine pattern, so they accept and
/// reject exactly the same candidates, whatever the candidate is.
pub proof fn lemma_compile_idempotent(
    p: Seq<char>,
    m1: CompiledMatcher,
    m2: CompiledMatcher,
    candidate: Seq<char>,
)
    requires
        valid_pattern(p),
        m1@ == translated(p),
        m2@ == translated(p),
    ensures
        m1.accepts(candidate) == m2.accepts(candidate),
{
}

/// Law: the allow-list decision is a disjunction over the matchers, so two
/// pattern sets that hold the same matchers give the same verdict on every
/// candidate, whatever order the matchers stand in.
pub proof fn lemma_match_order_independent(
    a: Seq<CompiledMatcher>,
    b: Seq<CompiledMatcher>,
    candidate: Seq<char>,
)
    requires
        forall|m: CompiledMatcher| a.contains(m) <==> b.contains(m),
    ensures
        (exists|i: int| 0 <= i < a.len() && (#[trigger] a[i]).accepts(candidate)) == (exists|
            i: int,
        |
            0 <= i < b.len() && (#[trigger] b[i]).accepts(candidate)),
{
    if exists|i: int| 0 <= i < a.len() && (#[trigger] a[i]).accepts(candidate) {
        let i = choose|i: int| 0 <= i < a.len() && (#[trigger] a[i]).accepts(candidate);
        assert(a.contains(a[i]));
        assert(b.contains(a[i]));
        let j = choose|j: int| 0 <= j < b.len() && b[j] == a[i];
        assert((b[j]).accepts(candidate));
    }
    if exists|i: int| 0 <= i < b.len() && (#[trigger] b[i]).accepts(candidate) {
        let i = choose|i: int| 0 <= i < b.len() && (#[trigger] b[i]).accepts(candidate);
        assert(b.contains(b[i]));
        assert(a.contains(b[i]));
        let j = choose|j: int| 0 <= j < a.len() && a[j] == b[i];
        assert((a[j]).accepts(candidate));
    }
}

} // verus!
