//! The first element of a sequence that satisfies a predicate: the lookup
//! rule of every `find` and `position` in the store.
use vstd::prelude::*;

verus! {

/// `i` is the position of the first element of `s` that satisfies `p`.
pub open spec fn is_first<T>(s: Seq<T>, i: int, p: spec_fn(T) -> bool) -> bool {
    &&& 0 <= i < s.len()
    &&& p(s[i])
    &&& forall|j: int| 0 <= j < i ==> !p(#[trigger] s[j])
}

/// No element of `s` satisfies `p`.
pub open spec fn none_match<T>(s: Seq<T>, p: spec_fn(T) -> bool) -> bool {
    forall|j: int| 0 <= j < s.len() ==> !p(#[trigger] s[j])
}

/// The position of the first element of `s` that satisfies `p`, if any.
pub open spec fn first_match<T>(s: Seq<T>, p: spec_fn(T) -> bool) -> Option<int> {
    if exists|i: int| is_first(s, i, p) {
        Some(choose|i: int| is_first(s, i, p))
    } else {
        None
    }
}

/// There is at most one first position.
pub proof fn lemma_first_unique<T>(s: Seq<T>, i: int, j: int, p: spec_fn(T) -> bool)
    requires
        is_first(s, i, p),
        is_first(s, j, p),
    ensures
        i == j,
{
    if i < j {
        assert(!p(s[i]));
    } else if j < i {
        assert(!p(s[j]));
    }
}

/// A first position is what `first_match` gives.
pub proof fn lemma_first_match_some<T>(s: Seq<T>, i: int, p: spec_fn(T) -> bool)
    requires
        is_first(s, i, p),
    ensures
        first_match(s, p) == Some(i),
{
    let k = choose|k: int| is_first(s, k, p);
    lemma_first_unique(s, i, k, p);
}

/// Without a matching element `first_match` gives nothing.
pub proof fn lemma_first_match_none<T>(s: Seq<T>, p: spec_fn(T) -> bool)
    requires
        none_match(s, p),
    ensures
        first_match(s, p) is None,
{
    if exists|i: int| is_first(s, i, p) {
        let k = choose|k: int| is_first(s, k, p);
        assert(!p(s[k]));
    }
}

/// `first_match` finds an element exactly when some element matches, and the
/// element it finds matches.
pub proof fn lemma_first_match_spec<T>(s: Seq<T>, p: spec_fn(T) -> bool)
    ensures
        first_match(s, p) matches Some(i) ==> is_first(s, i, p),
        first_match(s, p) is None <==> none_match(s, p),
{
    if first_match(s, p) is None {
        assert forall|j: int| 0 <= j < s.len() implies !p(#[trigger] s[j]) by {
            if p(s[j]) {
                lemma_first_exists(s, j, p);
            }
        }
    } else if none_match(s, p) {
        lemma_first_match_none(s, p);
    }
}

/// If some element matches, there is a first matching one.
pub proof fn lemma_first_exists<T>(s: Seq<T>, j: int, p: spec_fn(T) -> bool)
    requires
        0 <= j < s.len(),
        p(s[j]),
    ensures
        exists|i: int| is_first(s, i, p),
    decreases j,
{
    if forall|k: int| 0 <= k < j ==> !p(#[trigger] s[k]) {
        assert(is_first(s, j, p));
    } else {
        let k = choose|k: int| 0 <= k < j && p(#[trigger] s[k]);
        lemma_first_exists(s, k, p);
    }
}

/// Filtering one more element of `s` keeps it at the end when it satisfies
/// `p`, and drops it otherwise.
pub proof fn lemma_filter_take_step<T>(s: Seq<T>, i: int, p: spec_fn(T) -> bool)
    requires
        0 <= i < s.len(),
    ensures
        s.take(i + 1).filter(p) == (if p(s[i]) {
            s.take(i).filter(p).push(s[i])
        } else {
            s.take(i).filter(p)
        }),
{
    reveal(Seq::filter);
    assert(s.take(i + 1).drop_last() =~= s.take(i));
    assert(s.take(i + 1).last() == s[i]);
}

/// Appending an element that satisfies `p` to a sequence in which none does
/// makes it the first match.
pub proof fn lemma_first_match_push<T>(s: Seq<T>, x: T, p: spec_fn(T) -> bool)
    requires
        none_match(s, p),
        p(x),
    ensures
        first_match(s.push(x), p) == Some(s.len() as int),
{
    assert forall|j: int| 0 <= j < s.len() implies !p(#[trigger] s.push(x)[j]) by {
        assert(s.push(x)[j] == s[j]);
    }
    assert(is_first(s.push(x), s.len() as int, p));
    lemma_first_match_some(s.push(x), s.len() as int, p);
}

/// Replacing the first match by another element that satisfies `p` keeps it
/// the first match.
pub proof fn lemma_first_match_update<T>(s: Seq<T>, x: T, p: spec_fn(T) -> bool)
    requires
        first_match(s, p) is Some,
        p(x),
    ensures
        first_match(s.update(first_match(s, p)->0, x), p) == first_match(s, p),
{
    lemma_first_match_spec(s, p);
    let i = first_match(s, p)->0;
    assert forall|j: int| 0 <= j < i implies !p(#[trigger] s.update(i, x)[j]) by {
        assert(s.update(i, x)[j] == s[j]);
        assert(!p(s[j]));
    }
    assert(is_first(s.update(i, x), i, p));
    lemma_first_match_some(s.update(i, x), i, p);
}

} // verus!
