//! Sums of the values of a map whose nonzero values are finitely many.
//!
//! A balance table gives every account a balance, zero for all but finitely
//! many. Its total is the sum over the accounts with a nonzero balance.

use vstd::prelude::*;

verus! {

/// The keys at which `m` holds a nonzero value.
pub open spec fn support<K>(m: Map<K, nat>) -> Set<K> {
    Set::new(|k: K| m.dom().contains(k) && m[k] > 0)
}

/// The sum of the values that `m` holds at the keys of the finite set `keys`.
pub open spec fn sum_on<K>(m: Map<K, nat>, keys: Set<K>) -> nat
    decreases keys.len(),
    when keys.finite()
{
    if keys.is_empty() {
        0
    } else {
        let k = keys.choose();
        m[k] + sum_on(m, keys.remove(k))
    }
}

/// The sum of all values of `m`, taken over its support.
pub open spec fn total<K>(m: Map<K, nat>) -> nat {
    sum_on(m, support(m))
}

/// Any key of the set can be split off the sum, not only the chosen one.
pub proof fn lemma_sum_on_remove<K>(m: Map<K, nat>, keys: Set<K>, k: K)
    requires
        keys.finite(),
        keys.contains(k),
    ensures
        sum_on(m, keys) == m[k] + sum_on(m, keys.remove(k)),
    decreases keys.len(),
{
    let c = keys.choose();
    if c != k {
        lemma_sum_on_remove(m, keys.remove(c), k);
        lemma_sum_on_remove(m, keys.remove(k), c);
        assert(keys.remove(c).remove(k) =~= keys.remove(k).remove(c));
    }
}

/// The sum over a set depends only on the values at its keys.
pub proof fn lemma_sum_on_agree<K>(m1: Map<K, nat>, m2: Map<K, nat>, keys: Set<K>)
    requires
        keys.finite(),
        forall|k: K| keys.contains(k) ==> m1[k] == m2[k],
    ensures
        sum_on(m1, keys) == sum_on(m2, keys),
    decreases keys.len(),
{
    if !keys.is_empty() {
        lemma_sum_on_agree(m1, m2, keys.remove(keys.choose()));
    }
}

/// A key with value zero adds nothing to a sum.
pub proof fn lemma_sum_on_insert_zero<K>(m: Map<K, nat>, keys: Set<K>, k: K)
    requires
        keys.finite(),
        m[k] == 0,
    ensures
        sum_on(m, keys.insert(k)) == sum_on(m, keys),
{
    if keys.contains(k) {
        assert(keys.insert(k) =~= keys);
    } else {
        lemma_sum_on_remove(m, keys.insert(k), k);
        assert(keys.insert(k).remove(k) =~= keys);
    }
}

/// Writing `v` at `k` changes the total by the difference to the old value,
/// and keeps the support finite.
pub proof fn lemma_total_insert<K>(m: Map<K, nat>, k: K, v: nat)
    requires
        support(m).finite(),
        m.dom().contains(k),
    ensures
        support(m.insert(k, v)).finite(),
        total(m.insert(k, v)) + m[k] == total(m) + v,
{
    let m2 = m.insert(k, v);
    let both = support(m).insert(k);
    let rest = both.remove(k);
    assert(support(m2).subset_of(both));
    vstd::set_lib::lemma_set_subset_finite(both, support(m2));

    assert(sum_on(m, both) == total(m)) by {
        if m[k] == 0 {
            lemma_sum_on_insert_zero(m, support(m), k);
        } else {
            assert(both =~= support(m));
        }
    }
    assert(sum_on(m2, both) == total(m2)) by {
        assert(both =~= support(m2).insert(k));
        if v == 0 {
            lemma_sum_on_insert_zero(m2, support(m2), k);
        } else {
            assert(both =~= support(m2));
        }
    }
    lemma_sum_on_remove(m, both, k);
    lemma_sum_on_remove(m2, both, k);
    lemma_sum_on_agree(m, m2, rest);
}

/// No value exceeds the total.
pub proof fn lemma_value_le_total<K>(m: Map<K, nat>, k: K)
    requires
        support(m).finite(),
        m.dom().contains(k),
    ensures
        m[k] <= total(m),
{
    if m[k] > 0 {
        lemma_sum_on_remove(m, support(m), k);
    }
}

/// The values at two different keys together do not exceed the total.
pub proof fn lemma_two_values_le_total<K>(m: Map<K, nat>, j: K, k: K)
    requires
        support(m).finite(),
        m.dom().contains(j),
        m.dom().contains(k),
        j != k,
    ensures
        m[j] + m[k] <= total(m),
{
    lemma_total_insert(m, j, 0);
    lemma_value_le_total(m.insert(j, 0), k);
}

/// A map that is zero everywhere has total zero.
pub proof fn lemma_total_zero<K>(m: Map<K, nat>)
    requires
        forall|k: K| m.dom().contains(k) ==> m[k] == 0,
    ensures
        support(m) =~= Set::<K>::empty(),
        support(m).finite(),
        total(m) == 0,
{
    assert(support(m) =~= Set::<K>::empty());
}

} // verus!
