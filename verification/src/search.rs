use vstd::prelude::*;

verus! {

/// Whether `i` is the place of the first item of `s` that `wanted` accepts.
pub open spec fn is_first_match<T>(s: Seq<T>, wanted: spec_fn(T) -> bool, i: int) -> bool {
    &&& 0 <= i < s.len()
    &&& wanted(s[i])
    &&& forall|j: int| 0 <= j < i ==> !wanted(#[trigger] s[j])
}

/// The place of the first item of `s` that `wanted` accepts, if there is one.
pub open spec fn first_match<T>(s: Seq<T>, wanted: spec_fn(T) -> bool) -> Option<int> {
    if exists|i: int| is_first_match(s, wanted, i) {
        Some(choose|i: int| is_first_match(s, wanted, i))
    } else {
        None
    }
}

/// A place that is the first match is the one `first_match` gives.
pub proof fn lemma_first_match_is<T>(s: Seq<T>, wanted: spec_fn(T) -> bool, i: int)
    requires
        is_first_match(s, wanted, i),
    ensures
        first_match(s, wanted) == Some(i),
{
    let k = choose|k: int| is_first_match(s, wanted, k);
    assert(is_first_match(s, wanted, k));
    if k < i {
        assert(!wanted(s[k]));
    }
    if i < k {
        assert(!wanted(s[i]));
    }
}

/// Where `wanted` accepts no item, there is no first match.
pub proof fn lemma_first_match_none<T>(s: Seq<T>, wanted: spec_fn(T) -> bool)
    requires
        forall|j: int| 0 <= j < s.len() ==> !wanted(#[trigger] s[j]),
    ensures
        first_match(s, wanted) is None,
{
}

/// What `first_match` gives is a first match, and without one no item is
/// accepted.
pub proof fn lemma_first_match_means<T>(s: Seq<T>, wanted: spec_fn(T) -> bool)
    ensures
        match first_match(s, wanted) {
            Some(i) => is_first_match(s, wanted, i),
            None => forall|j: int| 0 <= j < s.len() ==> !wanted(#[trigger] s[j]),
        },
{
    if first_match(s, wanted) is None {
        assert forall|j: int| 0 <= j < s.len() implies !wanted(#[trigger] s[j]) by {
            if wanted(s[j]) {
                lemma_some_match_has_first(s, wanted, j);
            }
        }
    }
}

/// Where an item is accepted, some item is the first to be.
pub proof fn lemma_some_match_has_first<T>(s: Seq<T>, wanted: spec_fn(T) -> bool, j: int)
    requires
        0 <= j < s.len(),
        wanted(s[j]),
    ensures
        exists|i: int| is_first_match(s, wanted, i),
    decreases j,
{
    if exists|k: int| 0 <= k < j && wanted(s[k]) {
        let k = choose|k: int| 0 <= k < j && wanted(s[k]);
        lemma_some_match_has_first(s, wanted, k);
    } else {
        assert(is_first_match(s, wanted, j));
    }
}

} // verus!
