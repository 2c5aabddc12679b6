//! Association lists: the shared mathematical model of every keyed
//! table in the library (configuration tables, the settings store, the
//! status cache). A list may in principle hold a key twice; every
//! operation goes by the first occurrence, and `assoc_remove` drops
//! every occurrence.

use vstd::prelude::*;

verus! {

/// The value under the first occurrence of `k`, if any.
pub open spec fn assoc_get<K, V>(es: Seq<(K, V)>, k: K) -> Option<V>
    decreases es.len(),
{
    if es.len() == 0 {
        None
    } else if es[0].0 == k {
        Some(es[0].1)
    } else {
        assoc_get(es.drop_first(), k)
    }
}

/// Replaces the first occurrence of `k` with `(k, v)`, or appends
/// `(k, v)` when `k` is absent.
pub open spec fn assoc_set<K, V>(es: Seq<(K, V)>, k: K, v: V) -> Seq<(K, V)>
    decreases es.len(),
{
    if es.len() == 0 {
        seq![(k, v)]
    } else if es[0].0 == k {
        seq![(k, v)] + es.drop_first()
    } else {
        seq![es[0]] + assoc_set(es.drop_first(), k, v)
    }
}

/// Drops every occurrence of `k`.
pub open spec fn assoc_remove<K, V>(es: Seq<(K, V)>, k: K) -> Seq<(K, V)>
    decreases es.len(),
{
    if es.len() == 0 {
        es
    } else if es[0].0 == k {
        assoc_remove(es.drop_first(), k)
    } else {
        seq![es[0]] + assoc_remove(es.drop_first(), k)
    }
}

pub broadcast proof fn lemma_assoc_get_set_same<K, V>(es: Seq<(K, V)>, k: K, v: V)
    ensures
        #[trigger] assoc_get(assoc_set(es, k, v), k) == Some(v),
    decreases es.len(),
{
    if es.len() == 0 {
    } else if es[0].0 == k {
    } else {
        lemma_assoc_get_set_same(es.drop_first(), k, v);
        assert((seq![es[0]] + assoc_set(es.drop_first(), k, v)).drop_first()
            =~= assoc_set(es.drop_first(), k, v));
    }
}

pub broadcast proof fn lemma_assoc_get_set_other<K, V>(es: Seq<(K, V)>, k: K, v: V, k2: K)
    requires
        k2 != k,
    ensures
        #[trigger] assoc_get(assoc_set(es, k, v), k2) == assoc_get(es, k2),
    decreases es.len(),
{
    reveal_with_fuel(assoc_get, 3);
    if es.len() == 0 {
    } else if es[0].0 == k {
        assert((seq![(k, v)] + es.drop_first()).drop_first() =~= es.drop_first());
    } else {
        lemma_assoc_get_set_other(es.drop_first(), k, v, k2);
        assert((seq![es[0]] + assoc_set(es.drop_first(), k, v)).drop_first()
            =~= assoc_set(es.drop_first(), k, v));
    }
}

/// Writing back the value a key already carries leaves the list as it is.
pub broadcast proof fn lemma_assoc_set_noop<K, V>(es: Seq<(K, V)>, k: K, v: V)
    requires
        assoc_get(es, k) == Some(v),
    ensures
        #[trigger] assoc_set(es, k, v) == es,
    decreases es.len(),
{
    if es.len() == 0 {
    } else if es[0].0 == k {
        assert(assoc_set(es, k, v) =~= es);
    } else {
        lemma_assoc_set_noop(es.drop_first(), k, v);
        assert(assoc_set(es, k, v) =~= es);
    }
}

pub proof fn lemma_assoc_get_remove_same<K, V>(es: Seq<(K, V)>, k: K)
    ensures
        assoc_get(assoc_remove(es, k), k) is None,
    decreases es.len(),
{
    if es.len() == 0 {
    } else if es[0].0 == k {
        lemma_assoc_get_remove_same(es.drop_first(), k);
    } else {
        lemma_assoc_get_remove_same(es.drop_first(), k);
        assert((seq![es[0]] + assoc_remove(es.drop_first(), k)).drop_first()
            =~= assoc_remove(es.drop_first(), k));
    }
}

pub proof fn lemma_assoc_get_remove_other<K, V>(es: Seq<(K, V)>, k: K, k2: K)
    requires
        k2 != k,
    ensures
        assoc_get(assoc_remove(es, k), k2) == assoc_get(es, k2),
    decreases es.len(),
{
    if es.len() == 0 {
    } else if es[0].0 == k {
        lemma_assoc_get_remove_other(es.drop_first(), k, k2);
    } else {
        lemma_assoc_get_remove_other(es.drop_first(), k, k2);
        assert((seq![es[0]] + assoc_remove(es.drop_first(), k)).drop_first()
            =~= assoc_remove(es.drop_first(), k));
    }
}

/// The first occurrence of `k` sits at `i`: a lookup returns that entry.
pub proof fn lemma_assoc_get_at<K, V>(es: Seq<(K, V)>, k: K, i: int)
    requires
        0 <= i < es.len(),
        es[i].0 == k,
        forall|j: int| 0 <= j < i ==> (#[trigger] es[j]).0 != k,
    ensures
        assoc_get(es, k) == Some(es[i].1),
    decreases i,
{
    if i == 0 {
    } else {
        lemma_assoc_get_at(es.drop_first(), k, i - 1);
    }
}

/// No entry carries `k`: a lookup returns nothing.
pub proof fn lemma_assoc_get_absent<K, V>(es: Seq<(K, V)>, k: K)
    requires
        forall|j: int| 0 <= j < es.len() ==> (#[trigger] es[j]).0 != k,
    ensures
        assoc_get(es, k) is None,
    decreases es.len(),
{
    if es.len() == 0 {
    } else {
        lemma_assoc_get_absent(es.drop_first(), k);
    }
}

/// The first occurrence of `k` sits at `i`: a write updates that slot.
pub proof fn lemma_assoc_set_at<K, V>(es: Seq<(K, V)>, k: K, v: V, i: int)
    requires
        0 <= i < es.len(),
        es[i].0 == k,
        forall|j: int| 0 <= j < i ==> (#[trigger] es[j]).0 != k,
    ensures
        assoc_set(es, k, v) == es.update(i, (k, v)),
    decreases i,
{
    if i == 0 {
        assert(assoc_set(es, k, v) =~= es.update(0, (k, v)));
    } else {
        lemma_assoc_set_at(es.drop_first(), k, v, i - 1);
        assert(es.drop_first().update(i - 1, (k, v)) =~= es.update(i, (k, v)).drop_first());
        assert(assoc_set(es, k, v) =~= es.update(i, (k, v)));
    }
}

/// No entry carries `k`: a write appends.
pub proof fn lemma_assoc_set_absent<K, V>(es: Seq<(K, V)>, k: K, v: V)
    requires
        forall|j: int| 0 <= j < es.len() ==> (#[trigger] es[j]).0 != k,
    ensures
        assoc_set(es, k, v) == es.push((k, v)),
    decreases es.len(),
{
    if es.len() == 0 {
        assert(assoc_set(es, k, v) =~= es.push((k, v)));
    } else {
        lemma_assoc_set_absent(es.drop_first(), k, v);
        assert(assoc_set(es, k, v) =~= es.push((k, v)));
    }
}

} // verus!
