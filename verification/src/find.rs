//! First-match search over a sequence, the one lookup shape the whole ledger
//! uses: phases by time window, phases by name, whitelist entries and ledger
//! entries by address.

use vstd::prelude::*;

verus! {

/// Index of the first element of `s` satisfying `f`, if any.
pub open spec fn first_match<A>(s: Seq<A>, f: spec_fn(A) -> bool) -> Option<int>
    decreases s.len(),
{
    if s.len() == 0 {
        None
    } else if f(s[0]) {
        Some(0)
    } else {
        match first_match(s.drop_first(), f) {
            Some(i) => Some(i + 1),
            None => None,
        }
    }
}

/// `first_match` returns the least index whose element satisfies `f`,
/// and `None` exactly when no element does.
pub proof fn lemma_first_match<A>(s: Seq<A>, f: spec_fn(A) -> bool)
    ensures
        match first_match(s, f) {
            Some(i) => 0 <= i < s.len() && f(s[i]) && forall|j: int|
                0 <= j < i ==> !#[trigger] f(s[j]),
            None => forall|j: int| 0 <= j < s.len() ==> !#[trigger] f(s[j]),
        },
    decreases s.len(),
{
    if s.len() > 0 && !f(s[0]) {
        lemma_first_match(s.drop_first(), f);
        assert forall|j: int| 0 <= j < s.len() && j >= 1 implies s.drop_first()[j - 1] == s[j] by {}
    }
}

/// The converse direction: an index that satisfies `f` while all earlier
/// ones do not is the index `first_match` returns.
pub proof fn lemma_first_match_is<A>(s: Seq<A>, f: spec_fn(A) -> bool, i: int)
    requires
        0 <= i < s.len(),
        f(s[i]),
        forall|j: int| 0 <= j < i ==> !#[trigger] f(s[j]),
    ensures
        first_match(s, f) == Some(i),
{
    lemma_first_match(s, f);
    match first_match(s, f) {
        Some(k) => {
            if k < i {
                assert(f(s[k]));
            }
            if k > i {
                assert(!f(s[i]));
            }
        },
        None => {
            assert(!f(s[i]));
        },
    }
}

} // verus!
