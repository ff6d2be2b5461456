use vstd::prelude::*;

use crate::engine::{matcher_is_match, CompiledMatcher};

verus! {

/// Tells whether the given user id is allowed according to the given
/// ordered list of compiled matchers: true exactly when some matcher in
/// the list accepts it, so the empty list allows nobody. The scan
/// short-circuits on the first acceptance, but the verdict does not depend
/// on the order of the list.
pub fn match_user_id(user_id: &str, allowed: &[CompiledMatcher]) -> (r: bool)
    ensures
        r == exists|i: int| 0 <= i < allowed@.len() && (#[trigger] allowed@[i]).accepts(user_id@),
{
    let n = allowed.len();
    let mut i: usize = 0;
    while i < n
        invariant
            n == allowed@.len(),
            i <= n,
            forall|j: int| 0 <= j < i ==> !(#[trigger] allowed@[j]).accepts(user_id@),
        decreases n - i,
    {
        if matcher_is_match(&allowed[i], user_id) {
            return true;
        }
        i += 1;
    }
    false
}

} // verus!
