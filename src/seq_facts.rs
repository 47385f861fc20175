//! Facts about searching and filtering sequences, used by the store's lookups.
use vstd::prelude::*;

verus! {

/// The position of the first element of `s` that satisfies `f`, if there is one.
pub open spec fn first_index<A>(s: Seq<A>, f: spec_fn(A) -> bool) -> Option<int>
    decreases s.len(),
{
    if s.len() == 0 {
        None
    } else {
        match first_index(s.drop_last(), f) {
            Some(i) => Some(i),
            None => if f(s.last()) {
                Some(s.len() - 1)
            } else {
                None
            },
        }
    }
}

/// `first_index` finds the earliest match, and finds none only where nothing matches.
pub proof fn lemma_first_index<A>(s: Seq<A>, f: spec_fn(A) -> bool)
    ensures
        match first_index(s, f) {
            Some(i) => 0 <= i < s.len() && f(s[i]) && forall|j: int| 0 <= j < i ==> !f(#[trigger] s[j]),
            None => forall|j: int| 0 <= j < s.len() ==> !f(#[trigger] s[j]),
        },
    decreases s.len(),
{
    if s.len() > 0 {
        lemma_first_index(s.drop_last(), f);
        assert forall|j: int| 0 <= j < s.len() - 1 implies s[j] == s.drop_last()[j] by {}
    }
}

/// Any index that satisfies the search conditions is the one `first_index` returns.
pub proof fn lemma_first_index_at<A>(s: Seq<A>, f: spec_fn(A) -> bool, i: int)
    requires
        0 <= i < s.len(),
        f(s[i]),
        forall|j: int| 0 <= j < i ==> !f(#[trigger] s[j]),
    ensures
        first_index(s, f) == Some(i),
{
    lemma_first_index(s, f);
    match first_index(s, f) {
        Some(k) => {
            if k < i {
                assert(!f(s[k]));
            } else if k > i {
                assert(!f(s[i]));
            }
        },
        None => {
            assert(!f(s[i]));
        },
    }
}

/// The elements of `s` are strictly increasing under `key`.
pub open spec fn increasing_by<A>(s: Seq<A>, key: spec_fn(A) -> int) -> bool {
    forall|i: int, j: int| 0 <= i < j < s.len() ==> key(#[trigger] s[i]) < key(#[trigger] s[j])
}

/// What filtering keeps: elements of the original that satisfy the predicate, in an order
/// that keeps a strictly increasing key increasing and keeps distinct elements distinct.
pub proof fn lemma_filter_keeps<A>(s: Seq<A>, f: spec_fn(A) -> bool, key: spec_fn(A) -> int)
    ensures
        forall|k: int| 0 <= k < s.filter(f).len() ==> s.contains(#[trigger] s.filter(f)[k]),
        forall|k: int| 0 <= k < s.filter(f).len() ==> f(#[trigger] s.filter(f)[k]),
        s.filter(f).len() <= s.len(),
        increasing_by(s, key) ==> increasing_by(s.filter(f), key),
        s.no_duplicates() ==> s.filter(f).no_duplicates(),
    decreases s.len(),
{
    reveal(Seq::filter);
    if s.len() > 0 {
        let prev = s.drop_last();
        lemma_filter_keeps(prev, f, key);
        let out = s.filter(f);
        let sub = prev.filter(f);
        assert forall|k: int| 0 <= k < sub.len() implies s.contains(#[trigger] sub[k]) by {
            let j = choose|j: int| 0 <= j < prev.len() && prev[j] == sub[k];
            assert(s[j] == sub[k]);
        }
        if f(s.last()) {
            assert(out == sub.push(s.last()));
            assert forall|k: int| 0 <= k < out.len() implies s.contains(#[trigger] out[k]) by {
                if k < sub.len() {
                    assert(out[k] == sub[k]);
                } else {
                    assert(out[k] == s[s.len() - 1]);
                }
            }
            assert forall|k: int| 0 <= k < out.len() implies f(#[trigger] out[k]) by {
                if k < sub.len() {
                    assert(out[k] == sub[k]);
                }
            }
            if increasing_by(s, key) {
                assert(increasing_by(prev, key)) by {
                    assert forall|i: int, j: int| 0 <= i < j < prev.len() implies key(
                        #[trigger] prev[i],
                    ) < key(#[trigger] prev[j]) by {
                        assert(prev[i] == s[i] && prev[j] == s[j]);
                    }
                }
                assert forall|i: int, j: int| 0 <= i < j < out.len() implies key(
                    #[trigger] out[i],
                ) < key(#[trigger] out[j]) by {
                    assert(out[i] == sub[i]);
                    if j < sub.len() {
                        assert(out[j] == sub[j]);
                    } else {
                        assert(prev.contains(sub[i]));
                        let a = choose|a: int| 0 <= a < prev.len() && prev[a] == sub[i];
                        assert(s[a] == sub[i]);
                        assert(out[j] == s[s.len() - 1]);
                    }
                }
            }
            if s.no_duplicates() {
                assert(prev.no_duplicates()) by {
                    assert forall|i: int, j: int| 0 <= i < prev.len() && 0 <= j < prev.len() && i
                        != j implies prev[i] != prev[j] by {
                        assert(prev[i] == s[i] && prev[j] == s[j]);
                    }
                }
                assert forall|i: int, j: int| 0 <= i < out.len() && 0 <= j < out.len() && i
                    != j implies out[i] != out[j] by {
                    if i < sub.len() && j < sub.len() {
                        assert(out[i] == sub[i] && out[j] == sub[j]);
                    } else if i < sub.len() {
                        assert(prev.contains(sub[i]));
                        let a = choose|a: int| 0 <= a < prev.len() && prev[a] == sub[i];
                        assert(s[a] == out[i]);
                        assert(out[j] == s[s.len() - 1]);
                    } else {
                        assert(prev.contains(sub[j]));
                        let a = choose|a: int| 0 <= a < prev.len() && prev[a] == sub[j];
                        assert(s[a] == out[j]);
                        assert(out[i] == s[s.len() - 1]);
                    }
                }
            }
        } else {
            assert(out == sub);
            if increasing_by(s, key) {
                assert forall|i: int, j: int| 0 <= i < j < prev.len() implies key(
                    #[trigger] prev[i],
                ) < key(#[trigger] prev[j]) by {
                    assert(prev[i] == s[i] && prev[j] == s[j]);
                }
            }
            if s.no_duplicates() {
                assert forall|i: int, j: int| 0 <= i < prev.len() && 0 <= j < prev.len() && i
                    != j implies prev[i] != prev[j] by {
                    assert(prev[i] == s[i] && prev[j] == s[j]);
                }
            }
        }
    }
}

/// Removing one element keeps a strictly increasing key increasing, and what is left
/// is the other elements.
pub proof fn lemma_remove_keeps<A>(s: Seq<A>, i: int, key: spec_fn(A) -> int)
    requires
        0 <= i < s.len(),
    ensures
        forall|k: int| 0 <= k < s.remove(i).len() ==> #[trigger] s.remove(i)[k] == if k < i { s[k] } else { s[k + 1] },
        increasing_by(s, key) ==> increasing_by(s.remove(i), key),
        increasing_by(s, key) ==> forall|k: int| 0 <= k < s.remove(i).len() ==> key(#[trigger] s.remove(i)[k]) != key(s[i]),
{
    let r = s.remove(i);
    if increasing_by(s, key) {
        assert forall|a: int, b: int| 0 <= a < b < r.len() implies key(#[trigger] r[a]) < key(#[trigger] r[b]) by {
            let a2 = if a < i { a } else { a + 1 };
            let b2 = if b < i { b } else { b + 1 };
            assert(r[a] == s[a2] && r[b] == s[b2]);
        }
        assert forall|k: int| 0 <= k < r.len() implies key(#[trigger] r[k]) != key(s[i]) by {
            let k2 = if k < i { k } else { k + 1 };
            assert(r[k] == s[k2]);
        }
    }
}

} // verus!
