//! First-match search in declaration order.

use vstd::prelude::*;

verus! {

/// The position of the first element of `s` that satisfies `p`, if there is
/// one.
pub open spec fn first_match<T>(s: Seq<T>, p: spec_fn(T) -> bool) -> Option<int>
    decreases s.len(),
{
    if s.len() == 0 {
        None
    } else {
        match first_match(s.drop_last(), p) {
            Some(i) => Some(i),
            None => if p(s.last()) {
                Some(s.len() - 1)
            } else {
                None
            },
        }
    }
}

/// What `first_match` finds satisfies the predicate and nothing before it
/// does; it finds nothing only where nothing satisfies the predicate.
pub proof fn lemma_first_match<T>(s: Seq<T>, p: spec_fn(T) -> bool)
    ensures
        match first_match(s, p) {
            Some(i) => 0 <= i < s.len() && p(s[i]) && forall|j: int| 0 <= j < i ==> !p(s[j]),
            None => forall|j: int| 0 <= j < s.len() ==> !p(s[j]),
        },
    decreases s.len(),
{
    if s.len() > 0 {
        let front = s.drop_last();
        lemma_first_match(front, p);
        assert(forall|j: int| 0 <= j < front.len() ==> front[j] == s[j]);
        match first_match(front, p) {
            Some(i) => {
                assert(front[i] == s[i]);
            },
            None => {
                assert forall|j: int| 0 <= j < front.len() implies !p(s[j]) by {
                    assert(!p(front[j]));
                }
            },
        }
    }
}

/// An element that satisfies the predicate, with none before it that does, is
/// the one that `first_match` finds.
pub proof fn lemma_first_match_is<T>(s: Seq<T>, p: spec_fn(T) -> bool, i: int)
    requires
        0 <= i < s.len(),
        p(s[i]),
        forall|j: int| 0 <= j < i ==> !p(s[j]),
    ensures
        first_match(s, p) == Some(i),
{
    lemma_first_match(s, p);
}

/// Nothing is found where no element satisfies the predicate.
pub proof fn lemma_first_match_none<T>(s: Seq<T>, p: spec_fn(T) -> bool)
    requires
        forall|j: int| 0 <= j < s.len() ==> !p(s[j]),
    ensures
        first_match(s, p) is None,
{
    lemma_first_match(s, p);
}

} // verus!
