//! Key/amount tables stored as sequences of entries with distinct keys, and the
//! map each one stands for.
use vstd::prelude::*;

verus! {

/// Whether some entry of `s` has key `k`.
pub open spec fn has_key<K>(s: Seq<(K, u128)>, k: K) -> bool {
    exists|i: int| 0 <= i < s.len() && (#[trigger] s[i]).0 == k
}

/// The amount stored under `k` (the last entry with that key), 0 if none.
pub open spec fn lookup<K>(s: Seq<(K, u128)>, k: K) -> u128
    decreases s.len(),
{
    if s.len() == 0 {
        0
    } else if s.last().0 == k {
        s.last().1
    } else {
        lookup(s.drop_last(), k)
    }
}

/// No two entries share a key.
pub open spec fn distinct_keys<K>(s: Seq<(K, u128)>) -> bool {
    forall|i: int, j: int| 0 <= i < j < s.len() ==> (#[trigger] s[i]).0 != (#[trigger] s[j]).0
}

/// The map from each stored key to its amount.
pub open spec fn as_map<K>(s: Seq<(K, u128)>) -> Map<K, u128> {
    Map::new(|k: K| has_key(s, k), |k: K| lookup(s, k))
}

/// The sum of all stored amounts.
pub open spec fn total<K>(s: Seq<(K, u128)>) -> int
    decreases s.len(),
{
    if s.len() == 0 {
        0
    } else {
        total(s.drop_last()) + s.last().1
    }
}

/// With distinct keys, the amount under an entry's key is that entry's amount.
pub proof fn lemma_lookup_at<K>(s: Seq<(K, u128)>, i: int)
    requires
        distinct_keys(s),
        0 <= i < s.len(),
    ensures
        lookup(s, s[i].0) == s[i].1,
    decreases s.len(),
{
    if i < s.len() - 1 {
        assert(s.last() == s[s.len() - 1]);
        assert(s.drop_last()[i] == s[i]);
        lemma_lookup_at(s.drop_last(), i);
    }
}

/// A key that no entry holds has amount 0.
pub proof fn lemma_lookup_missing<K>(s: Seq<(K, u128)>, k: K)
    requires
        !has_key(s, k),
    ensures
        lookup(s, k) == 0,
    decreases s.len(),
{
    if s.len() > 0 {
        assert(s.last() == s[s.len() - 1]);
        assert forall|i: int| 0 <= i < s.drop_last().len() implies (#[trigger] s.drop_last()[i]).0
            != k by {
            assert(s.drop_last()[i] == s[i]);
        }
        lemma_lookup_missing(s.drop_last(), k);
    }
}

/// Whatever the keys, the amount under any one key is at most the total, and
/// so is the sum of the amounts under two different keys.
pub proof fn lemma_within_total<K>(s: Seq<(K, u128)>, a: K, b: K)
    ensures
        lookup(s, a) <= total(s),
        a != b ==> lookup(s, a) + lookup(s, b) <= total(s),
        total(s) >= 0,
    decreases s.len(),
{
    if s.len() > 0 {
        lemma_within_total(s.drop_last(), a, b);
    }
}

/// Overwriting the amount of the entry at `i` changes one key of the map and
/// moves the total by the difference.
pub proof fn lemma_update<K>(s: Seq<(K, u128)>, i: int, v: u128)
    requires
        distinct_keys(s),
        0 <= i < s.len(),
    ensures
        distinct_keys(s.update(i, (s[i].0, v))),
        as_map(s.update(i, (s[i].0, v))) == as_map(s).insert(s[i].0, v),
        total(s.update(i, (s[i].0, v))) == total(s) - s[i].1 + v,
        forall|k: K| #[trigger]
            lookup(s.update(i, (s[i].0, v)), k) == if k == s[i].0 {
                v
            } else {
                lookup(s, k)
            },
    decreases s.len(),
{
    let t = s.update(i, (s[i].0, v));
    assert(t.last() == t[t.len() - 1]);
    assert(s.last() == s[s.len() - 1]);
    if i == s.len() - 1 {
        assert(t.drop_last() =~= s.drop_last());
        assert forall|k: K| #[trigger] lookup(t, k) == if k == s[i].0 {
            v
        } else {
            lookup(s, k)
        } by {}
    } else {
        assert forall|a: int, b: int| 0 <= a < b < s.drop_last().len() implies (
        #[trigger] s.drop_last()[a]).0 != (#[trigger] s.drop_last()[b]).0 by {
            assert(s.drop_last()[a] == s[a]);
            assert(s.drop_last()[b] == s[b]);
        }
        assert(s.drop_last()[i] == s[i]);
        lemma_update(s.drop_last(), i, v);
        assert(t.drop_last() =~= s.drop_last().update(i, (s[i].0, v)));
        assert(t.last() == s.last());
        assert forall|k: K| #[trigger] lookup(t, k) == if k == s[i].0 {
            v
        } else {
            lookup(s, k)
        } by {
            let d = s.drop_last();
            assert(lookup(d.update(i, (d[i].0, v)), k) == if k == d[i].0 {
                v
            } else {
                lookup(d, k)
            });
            if k == s.last().0 {
                assert(s[i].0 != s[s.len() - 1].0);
            }
        }
    }
    assert forall|a: int, b: int| 0 <= a < b < t.len() implies (#[trigger] t[a]).0 != (
    #[trigger] t[b]).0 by {
        assert(s[a].0 != s[b].0);
    }
    assert forall|k: K| has_key(t, k) == has_key(s, k) by {
        if has_key(s, k) {
            let j = choose|j: int| 0 <= j < s.len() && (#[trigger] s[j]).0 == k;
            assert(t[j].0 == k);
        }
        if has_key(t, k) {
            let j = choose|j: int| 0 <= j < t.len() && (#[trigger] t[j]).0 == k;
            assert(s[j].0 == k);
        }
    }
    assert(has_key(s, s[i].0));
    assert(as_map(t) =~= as_map(s).insert(s[i].0, v));
}

/// Appending an entry under a new key adds that key to the map and its amount
/// to the total.
pub proof fn lemma_push<K>(s: Seq<(K, u128)>, k: K, v: u128)
    requires
        distinct_keys(s),
        !has_key(s, k),
    ensures
        distinct_keys(s.push((k, v))),
        as_map(s.push((k, v))) == as_map(s).insert(k, v),
        total(s.push((k, v))) == total(s) + v,
        forall|j: K| #[trigger] lookup(s.push((k, v)), j) == if j == k {
            v
        } else {
            lookup(s, j)
        },
{
    let t = s.push((k, v));
    assert(t.drop_last() =~= s);
    assert(t.last() == (k, v));
    assert forall|a: int, b: int| 0 <= a < b < t.len() implies (#[trigger] t[a]).0 != (
    #[trigger] t[b]).0 by {
        if b == s.len() {
            assert(t[a] == s[a]);
        } else {
            assert(t[a] == s[a] && t[b] == s[b]);
        }
    }
    assert forall|j: K| has_key(t, j) == (has_key(s, j) || j == k) by {
        if has_key(s, j) {
            let x = choose|x: int| 0 <= x < s.len() && (#[trigger] s[x]).0 == j;
            assert(t[x] == s[x]);
        }
        if j == k {
            assert(t[s.len() as int].0 == k);
        }
        if has_key(t, j) && j != k {
            let x = choose|x: int| 0 <= x < t.len() && (#[trigger] t[x]).0 == j;
            assert(x < s.len());
            assert(t[x] == s[x]);
        }
    }
    assert(as_map(t) =~= as_map(s).insert(k, v));
}

} // verus!
