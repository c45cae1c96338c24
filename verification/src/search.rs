//! The first position in a sequence at which a predicate holds, and the
//! facts the stores prove their look-ups with.

use vstd::prelude::*;

verus! {

/// The first position at or after `from` whose element satisfies `p`.
pub open spec fn first_index_from<T>(s: Seq<T>, p: spec_fn(T) -> bool, from: int) -> Option<int>
    decreases s.len() - from,
{
    if from < 0 || from >= s.len() {
        None
    } else if p(s[from]) {
        Some(from)
    } else {
        first_index_from(s, p, from + 1)
    }
}

/// The first position whose element satisfies `p`.
pub open spec fn first_index<T>(s: Seq<T>, p: spec_fn(T) -> bool) -> Option<int> {
    first_index_from(s, p, 0)
}

/// Whether some element satisfies `p`.
pub open spec fn any<T>(s: Seq<T>, p: spec_fn(T) -> bool) -> bool {
    exists|i: int| 0 <= i < s.len() && p(#[trigger] s[i])
}

/// A position that satisfies `p`, with none before it back to `from`, is the
/// first one.
pub proof fn lemma_first_index_is<T>(s: Seq<T>, p: spec_fn(T) -> bool, from: int, i: int)
    requires
        0 <= from <= i < s.len(),
        p(s[i]),
        forall|k: int| from <= k < i ==> !p(#[trigger] s[k]),
    ensures
        first_index_from(s, p, from) == Some(i),
    decreases i - from,
{
    if from < i {
        assert(!p(s[from]));
        lemma_first_index_is(s, p, from + 1, i);
    }
}

/// Where no position from `from` on satisfies `p`, there is no first one.
pub proof fn lemma_first_index_none<T>(s: Seq<T>, p: spec_fn(T) -> bool, from: int)
    requires
        0 <= from,
        forall|k: int| from <= k < s.len() ==> !p(#[trigger] s[k]),
    ensures
        first_index_from(s, p, from) is None,
    decreases s.len() - from,
{
    if from < s.len() {
        assert(!p(s[from]));
        lemma_first_index_none(s, p, from + 1);
    }
}

/// What the first position is: it satisfies `p` and nothing before it does;
/// where there is none, nothing satisfies `p`.
pub proof fn lemma_first_index_found<T>(s: Seq<T>, p: spec_fn(T) -> bool, from: int)
    requires
        0 <= from,
    ensures
        match first_index_from(s, p, from) {
            Some(i) => from <= i < s.len() && p(s[i]) && forall|k: int|
                from <= k < i ==> !p(#[trigger] s[k]),
            None => forall|k: int| from <= k < s.len() ==> !p(#[trigger] s[k]),
        },
    decreases s.len() - from,
{
    if from < s.len() && !p(s[from]) {
        lemma_first_index_found(s, p, from + 1);
    }
}

/// A change of one element that keeps its answer to `p` keeps the first
/// position.
pub proof fn lemma_first_index_update<T>(s: Seq<T>, p: spec_fn(T) -> bool, j: int, v: T)
    requires
        0 <= j < s.len(),
        p(v) == p(s[j]),
    ensures
        first_index(s.update(j, v), p) == first_index(s, p),
{
    let t = s.update(j, v);
    lemma_first_index_found(s, p, 0);
    match first_index(s, p) {
        Some(i) => {
            assert(p(t[i]));
            assert forall|k: int| 0 <= k < i implies !p(#[trigger] t[k]) by {
                assert(!p(s[k]));
            }
            lemma_first_index_is(t, p, 0, i);
        },
        None => {
            assert forall|k: int| 0 <= k < t.len() implies !p(#[trigger] t[k]) by {
                assert(!p(s[k]));
            }
            lemma_first_index_none(t, p, 0);
        },
    }
}

/// Appending an element keeps a first position that exists; where there was
/// none, the new element is the first if it satisfies `p`.
pub proof fn lemma_first_index_push<T>(s: Seq<T>, p: spec_fn(T) -> bool, v: T)
    ensures
        first_index(s.push(v), p) == match first_index(s, p) {
            Some(i) => Some(i),
            None => if p(v) {
                Some(s.len() as int)
            } else {
                None
            },
        },
{
    let t = s.push(v);
    lemma_first_index_found(s, p, 0);
    match first_index(s, p) {
        Some(i) => {
            assert(t[i] == s[i]);
            assert forall|k: int| 0 <= k < i implies !p(#[trigger] t[k]) by {
                assert(t[k] == s[k]);
            }
            lemma_first_index_is(t, p, 0, i);
        },
        None => {
            assert forall|k: int| 0 <= k < s.len() implies !p(#[trigger] t[k]) by {
                assert(t[k] == s[k]);
            }
            if p(v) {
                assert(t[s.len() as int] == v);
                lemma_first_index_is(t, p, 0, s.len() as int);
            } else {
                assert forall|k: int| 0 <= k < t.len() implies !p(#[trigger] t[k]) by {
                    if k < s.len() {
                        assert(t[k] == s[k]);
                    }
                }
                lemma_first_index_none(t, p, 0);
            }
        },
    }
}

/// One more element under a filter: the filtered prefix grows by the
/// element if it passes, and stays otherwise.
pub proof fn lemma_filter_step<T>(s: Seq<T>, p: spec_fn(T) -> bool, i: int)
    requires
        0 <= i < s.len(),
    ensures
        s.take(i + 1).filter(p) == if p(s[i]) {
            s.take(i).filter(p).push(s[i])
        } else {
            s.take(i).filter(p)
        },
{
    reveal(Seq::filter);
    assert(s.take(i + 1).drop_last() =~= s.take(i));
    assert(s.take(i + 1).last() == s[i]);
}

/// The last position below `n` whose element satisfies `p`.
pub open spec fn last_index_below<T>(s: Seq<T>, p: spec_fn(T) -> bool, n: int) -> Option<int>
    decreases n,
{
    if n <= 0 || n > s.len() {
        None
    } else if p(s[n - 1]) {
        Some(n - 1)
    } else {
        last_index_below(s, p, n - 1)
    }
}

/// The last position whose element satisfies `p`.
pub open spec fn last_index<T>(s: Seq<T>, p: spec_fn(T) -> bool) -> Option<int> {
    last_index_below(s, p, s.len() as int)
}

/// A position that satisfies `p`, with none after it up to `n`, is the last
/// one.
pub proof fn lemma_last_index_is<T>(s: Seq<T>, p: spec_fn(T) -> bool, n: int, i: int)
    requires
        0 <= i < n <= s.len(),
        p(s[i]),
        forall|k: int| i < k < n ==> !p(#[trigger] s[k]),
    ensures
        last_index_below(s, p, n) == Some(i),
    decreases n - i,
{
    if i < n - 1 {
        assert(!p(s[n - 1]));
        lemma_last_index_is(s, p, n - 1, i);
    }
}

/// Where no position below `n` satisfies `p`, there is no last one.
pub proof fn lemma_last_index_none<T>(s: Seq<T>, p: spec_fn(T) -> bool, n: int)
    requires
        n <= s.len(),
        forall|k: int| 0 <= k < n ==> !p(#[trigger] s[k]),
    ensures
        last_index_below(s, p, n) is None,
    decreases n,
{
    if n > 0 {
        assert(!p(s[n - 1]));
        lemma_last_index_none(s, p, n - 1);
    }
}

/// What the last position is: it satisfies `p` and nothing after it does;
/// where there is none, nothing satisfies `p`.
pub proof fn lemma_last_index_found<T>(s: Seq<T>, p: spec_fn(T) -> bool, n: int)
    requires
        n <= s.len(),
    ensures
        match last_index_below(s, p, n) {
            Some(i) => 0 <= i < n && p(s[i]) && forall|k: int| i < k < n ==> !p(#[trigger] s[k]),
            None => forall|k: int| 0 <= k < n ==> !p(#[trigger] s[k]),
        },
    decreases n,
{
    if n > 0 && !p(s[n - 1]) {
        lemma_last_index_found(s, p, n - 1);
    }
}

/// No two elements have the same key.
pub open spec fn distinct_keys<T, K>(s: Seq<T>, key: spec_fn(T) -> K) -> bool {
    forall|i: int, j: int| 0 <= i < j < s.len() ==> key(#[trigger] s[i]) != key(#[trigger] s[j])
}

/// Filtering keeps keys distinct.
pub proof fn lemma_filter_keeps_distinct<T, K>(
    s: Seq<T>,
    key: spec_fn(T) -> K,
    p: spec_fn(T) -> bool,
)
    requires
        distinct_keys(s, key),
    ensures
        distinct_keys(s.filter(p), key),
    decreases s.len(),
{
    reveal(Seq::filter);
    if s.len() > 0 {
        let init = s.drop_last();
        assert forall|i: int, j: int| 0 <= i < j < init.len() implies key(#[trigger] init[i])
            != key(#[trigger] init[j]) by {
            assert(key(s[i]) != key(s[j]));
        }
        lemma_filter_keeps_distinct(init, key, p);
        let f = init.filter(p);
        if p(s.last()) {
            let t = f.push(s.last());
            assert forall|i: int, j: int| 0 <= i < j < t.len() implies key(#[trigger] t[i]) != key(
                #[trigger] t[j],
            ) by {
                if j < f.len() {
                    assert(key(f[i]) != key(f[j]));
                } else {
                    init.lemma_filter_contains_rev(p, f[i]);
                    let k = choose|k: int| 0 <= k < init.len() && init[k] == f[i];
                    assert(key(s[k]) != key(s[s.len() - 1]));
                }
            }
        }
    }
}

} // verus!
