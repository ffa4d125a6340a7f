//! Sums over the values of a finite map.

use vstd::prelude::*;
use crate::numbers::U256;

verus! {

/// The sum of `f` over the values of `m`.
pub open spec fn total<K, V>(m: Map<K, V>, f: spec_fn(V) -> int) -> int
    decreases m.len(),
    when m.dom().finite()
{
    if m.dom() == Set::<K>::empty() {
        0
    } else {
        let k = m.dom().choose();
        proof {
            lemma_remove_smaller(m, k);
        }
        f(m[k]) + total(m.remove(k), f)
    }
}

/// Taking a chosen key out of a map that has one leaves a smaller map.
pub proof fn lemma_remove_smaller<K, V>(m: Map<K, V>, k: K)
    requires
        m.dom().finite(),
    ensures
        m.dom() != Set::<K>::empty() && k == m.dom().choose() ==> m.remove(k).len() < m.len()
            && m.remove(k).dom().finite() && m.contains_key(k),
{
    if m.dom() != Set::<K>::empty() && k == m.dom().choose() {
        assert(exists|x: K| m.dom().contains(x)) by {
            if forall|x: K| !m.dom().contains(x) {
                assert(m.dom() =~= Set::<K>::empty());
            }
        }
        assert(m.remove(k).dom() =~= m.dom().remove(k));
    }
}

/// Any entry can be split off from a sum.
pub proof fn lemma_total_remove<K, V>(m: Map<K, V>, f: spec_fn(V) -> int, k: K)
    requires
        m.dom().finite(),
        m.contains_key(k),
    ensures
        total(m, f) == f(m[k]) + total(m.remove(k), f),
    decreases m.len(),
{
    assert(m.dom() != Set::<K>::empty());
    let c = m.dom().choose();
    lemma_remove_smaller(m, c);
    if c != k {
        assert(m.remove(k).dom() =~= m.dom().remove(k));
        lemma_total_remove(m.remove(c), f, k);
        lemma_total_remove(m.remove(k), f, c);
        assert(m.remove(c).remove(k) =~= m.remove(k).remove(c));
        assert(m.remove(c)[k] == m[k]);
        assert(m.remove(k)[c] == m[c]);
    }
}

/// What an insertion does to a sum.
pub proof fn lemma_total_insert<K, V>(m: Map<K, V>, f: spec_fn(V) -> int, k: K, v: V)
    requires
        m.dom().finite(),
    ensures
        m.insert(k, v).dom().finite(),
        total(m.insert(k, v), f) == total(m, f) + f(v) - (if m.contains_key(k) {
            f(m[k])
        } else {
            0
        }),
{
    let n = m.insert(k, v);
    assert(n.dom() =~= m.dom().insert(k));
    lemma_total_remove(n, f, k);
    assert(n.remove(k) =~= m.remove(k));
    if m.contains_key(k) {
        lemma_total_remove(m, f, k);
    } else {
        assert(m.remove(k) =~= m);
    }
}

/// Reading an amount as a number.
pub open spec fn amount_value() -> spec_fn(U256) -> int {
    |a: U256| a.value()
}

/// The sum of the amounts that have been paid out.
pub open spec fn paid<A>(withdrawals: Seq<(A, U256)>) -> int
    decreases withdrawals.len(),
{
    if withdrawals.len() == 0 {
        0
    } else {
        paid(withdrawals.drop_last()) + withdrawals.last().1.value()
    }
}

/// What one more payment does to the sum of payments.
pub proof fn lemma_paid_push<A>(withdrawals: Seq<(A, U256)>, to: A, amount: U256)
    ensures
        paid(withdrawals.push((to, amount))) == paid(withdrawals) + amount.value(),
{
    assert(withdrawals.push((to, amount)).drop_last() =~= withdrawals);
}

} // verus!
