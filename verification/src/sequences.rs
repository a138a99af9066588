//! Facts about sequences that loops over vectors lean on.

use vstd::prelude::*;

verus! {

/// Filtering one more element of a sequence appends it to what was kept so
/// far if the predicate holds of it, and changes nothing if not.
pub proof fn lemma_filter_take<A>(s: Seq<A>, pred: spec_fn(A) -> bool, n: int)
    requires
        0 <= n < s.len(),
    ensures
        s.take(n + 1).filter(pred) == if pred(s[n]) {
            s.take(n).filter(pred).push(s[n])
        } else {
            s.take(n).filter(pred)
        },
{
    reveal(Seq::filter);
    assert(s.take(n + 1).drop_last() =~= s.take(n));
}

} // verus!
