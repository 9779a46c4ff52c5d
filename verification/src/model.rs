//! Counting and summation over sequences, with the lemmas the ledger proofs
//! need: how a count or a sum changes under `take`, `update` and `push`, and
//! how a count relates to existence and uniqueness of matching elements.

use vstd::prelude::*;

verus! {

/// Number of elements of `s` satisfying `f`.
pub open spec fn count_where<T>(s: Seq<T>, f: spec_fn(T) -> bool) -> int
    decreases s.len(),
{
    if s.len() == 0 {
        0
    } else {
        count_where(s.drop_last(), f) + if f(s.last()) {
            1int
        } else {
            0int
        }
    }
}

/// Sum of `f` over the elements of `s`.
pub open spec fn sum_by<T>(s: Seq<T>, f: spec_fn(T) -> int) -> int
    decreases s.len(),
{
    if s.len() == 0 {
        0
    } else {
        sum_by(s.drop_last(), f) + f(s.last())
    }
}

pub proof fn lemma_count_where_bounds<T>(s: Seq<T>, f: spec_fn(T) -> bool)
    ensures
        0 <= count_where(s, f) <= s.len(),
    decreases s.len(),
{
    if s.len() > 0 {
        lemma_count_where_bounds(s.drop_last(), f);
    }
}

pub proof fn lemma_count_where_take_step<T>(s: Seq<T>, f: spec_fn(T) -> bool, i: int)
    requires
        0 <= i < s.len(),
    ensures
        count_where(s.take(i + 1), f) == count_where(s.take(i), f) + if f(s[i]) {
            1int
        } else {
            0int
        },
{
    assert(s.take(i + 1).drop_last() =~= s.take(i));
    assert(s.take(i + 1).last() == s[i]);
}

/// A count is at least one exactly when some element matches.
pub proof fn lemma_count_where_exists<T>(s: Seq<T>, f: spec_fn(T) -> bool)
    ensures
        count_where(s, f) >= 1 <==> exists|i: int| 0 <= i < s.len() && f(s[i]),
    decreases s.len(),
{
    lemma_count_where_bounds(s, f);
    if s.len() > 0 {
        lemma_count_where_bounds(s.drop_last(), f);
        lemma_count_where_exists(s.drop_last(), f);
        if count_where(s, f) >= 1 {
            if f(s.last()) {
                assert(0 <= s.len() - 1 < s.len() && f(s[s.len() - 1]));
            } else {
                let i = choose|i: int| 0 <= i < s.drop_last().len() && f(s.drop_last()[i]);
                assert(s.drop_last()[i] == s[i]);
                assert(0 <= i < s.len() && f(s[i]));
            }
        }
        if exists|i: int| 0 <= i < s.len() && f(s[i]) {
            let i = choose|i: int| 0 <= i < s.len() && f(s[i]);
            if i < s.len() - 1 {
                assert(s.drop_last()[i] == s[i]);
                assert(0 <= i < s.drop_last().len() && f(s.drop_last()[i]));
            } else {
                assert(f(s.last()));
            }
        }
    }
}

/// When no element matches, the count is zero.
pub proof fn lemma_count_where_none<T>(s: Seq<T>, f: spec_fn(T) -> bool)
    requires
        forall|i: int| 0 <= i < s.len() ==> !f(s[i]),
    ensures
        count_where(s, f) == 0,
{
    lemma_count_where_bounds(s, f);
    lemma_count_where_exists(s, f);
}

/// When exactly one index matches, the count is one.
pub proof fn lemma_count_where_single<T>(s: Seq<T>, f: spec_fn(T) -> bool, w: int)
    requires
        0 <= w < s.len(),
        f(s[w]),
        forall|i: int| 0 <= i < s.len() && i != w ==> !f(s[i]),
    ensures
        count_where(s, f) == 1,
    decreases s.len(),
{
    if w == s.len() - 1 {
        lemma_count_where_none(s.drop_last(), f);
    } else {
        assert(s.drop_last()[w] == s[w]);
        lemma_count_where_single(s.drop_last(), f, w);
    }
}

/// Counts agree between sequences whose elements match `f` at the same indices.
pub proof fn lemma_count_where_congruent<T>(s1: Seq<T>, s2: Seq<T>, f: spec_fn(T) -> bool)
    requires
        s1.len() == s2.len(),
        forall|i: int| 0 <= i < s1.len() ==> f(s1[i]) == f(s2[i]),
    ensures
        count_where(s1, f) == count_where(s2, f),
    decreases s1.len(),
{
    if s1.len() > 0 {
        assert(forall|i: int|
            0 <= i < s1.drop_last().len() ==> f(s1.drop_last()[i]) == f(s2.drop_last()[i]));
        lemma_count_where_congruent(s1.drop_last(), s2.drop_last(), f);
    }
}

/// Sums agree between sequences whose elements are weighed the same by `f`.
pub proof fn lemma_sum_by_congruent<T>(s1: Seq<T>, s2: Seq<T>, f: spec_fn(T) -> int)
    requires
        s1.len() == s2.len(),
        forall|i: int| 0 <= i < s1.len() ==> f(s1[i]) == f(s2[i]),
    ensures
        sum_by(s1, f) == sum_by(s2, f),
    decreases s1.len(),
{
    if s1.len() > 0 {
        assert(forall|i: int|
            0 <= i < s1.drop_last().len() ==> f(s1.drop_last()[i]) == f(s2.drop_last()[i]));
        lemma_sum_by_congruent(s1.drop_last(), s2.drop_last(), f);
    }
}

pub proof fn lemma_sum_by_update<T>(s: Seq<T>, f: spec_fn(T) -> int, i: int, x: T)
    requires
        0 <= i < s.len(),
    ensures
        sum_by(s.update(i, x), f) == sum_by(s, f) - f(s[i]) + f(x),
    decreases s.len(),
{
    let su = s.update(i, x);
    if i == s.len() - 1 {
        assert(su.drop_last() =~= s.drop_last());
        assert(su.last() == x);
    } else {
        assert(su.drop_last() =~= s.drop_last().update(i, x));
        assert(su.last() == s.last());
        lemma_sum_by_update(s.drop_last(), f, i, x);
    }
}

pub proof fn lemma_sum_by_push<T>(s: Seq<T>, f: spec_fn(T) -> int, x: T)
    ensures
        sum_by(s.push(x), f) == sum_by(s, f) + f(x),
{
    assert(s.push(x).drop_last() =~= s);
    assert(s.push(x).last() == x);
}

/// With non-negative weights, every element's weight is bounded by the sum.
pub proof fn lemma_sum_by_element_bound<T>(s: Seq<T>, f: spec_fn(T) -> int, i: int)
    requires
        0 <= i < s.len(),
        forall|j: int| 0 <= j < s.len() ==> f(#[trigger] s[j]) >= 0,
    ensures
        f(s[i]) <= sum_by(s, f),
        sum_by(s, f) >= 0,
    decreases s.len(),
{
    if i == s.len() - 1 {
        lemma_sum_by_nonneg(s.drop_last(), f);
    } else {
        assert(s.drop_last()[i] == s[i]);
        lemma_sum_by_element_bound(s.drop_last(), f, i);
    }
}

/// With non-negative weights the sum is non-negative.
pub proof fn lemma_sum_by_nonneg<T>(s: Seq<T>, f: spec_fn(T) -> int)
    requires
        forall|j: int| 0 <= j < s.len() ==> f(#[trigger] s[j]) >= 0,
    ensures
        sum_by(s, f) >= 0,
    decreases s.len(),
{
    if s.len() > 0 {
        assert(forall|j: int| 0 <= j < s.drop_last().len() ==> f(#[trigger] s.drop_last()[j]) >= 0);
        lemma_sum_by_nonneg(s.drop_last(), f);
    }
}

} // verus!
