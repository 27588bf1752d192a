//! Specification helpers for caches modelled as association sequences.
//!
//! Both caches are modelled as a sequence of key/value entries ordered by
//! recency of use: index 0 is the least recently used entry and the last
//! index the most recently used one.  Keys are unique among the entries.

use vstd::prelude::*;

verus! {

/// Whether some entry of `s` carries key `k`.
pub open spec fn has_key<K, V>(s: Seq<(K, V)>, k: K) -> bool {
    exists|i: int| 0 <= i < s.len() && (#[trigger] s[i]).0 == k
}

/// No two entries of `s` share a key.
pub open spec fn distinct_keys<K, V>(s: Seq<(K, V)>) -> bool {
    forall|i: int, j: int| 0 <= i < j < s.len() ==> (#[trigger] s[i]).0 != (#[trigger] s[j]).0
}

/// The index of the entry carrying key `k` (meaningful when `has_key`).
pub open spec fn key_at<K, V>(s: Seq<(K, V)>, k: K) -> int {
    choose|i: int| 0 <= i < s.len() && (#[trigger] s[i]).0 == k
}

/// The value stored under key `k` (meaningful when `has_key`).
pub open spec fn lookup<K, V>(s: Seq<(K, V)>, k: K) -> V {
    s[key_at(s, k)].1
}

/// The sequence after an access to key `k`: the entry moves to the
/// most-recently-used end, everything else keeps its relative order.
pub open spec fn promote<K, V>(s: Seq<(K, V)>, k: K) -> Seq<(K, V)> {
    s.remove(key_at(s, k)).push(s[key_at(s, k)])
}

/// `key_at` lands on an entry with key `k`, and under distinct keys it is
/// the only such entry.
pub proof fn lemma_key_at<K, V>(s: Seq<(K, V)>, k: K)
    requires
        has_key(s, k),
    ensures
        0 <= key_at(s, k) < s.len(),
        s[key_at(s, k)].0 == k,
        distinct_keys(s) ==> forall|i: int|
            0 <= i < s.len() && (#[trigger] s[i]).0 == k ==> i == key_at(s, k),
{
    let i = choose|i: int| 0 <= i < s.len() && (#[trigger] s[i]).0 == k;
    assert(s[i].0 == k);
}

/// Appending an entry with a fresh key keeps keys distinct, stores the new
/// value under the new key and leaves every other key's value unchanged.
pub proof fn lemma_push_fresh<K, V>(s: Seq<(K, V)>, k: K, v: V)
    requires
        distinct_keys(s),
        !has_key(s, k),
    ensures
        distinct_keys(s.push((k, v))),
        has_key(s.push((k, v)), k),
        lookup(s.push((k, v)), k) == v,
        forall|k2: K| #[trigger] has_key(s.push((k, v)), k2) <==> has_key(s, k2) || k2 == k,
        forall|k2: K| has_key(s, k2) ==> #[trigger] lookup(s.push((k, v)), k2) == lookup(s, k2),
{
    let t = s.push((k, v));
    assert forall|i: int, j: int| 0 <= i < j < t.len() implies (#[trigger] t[i]).0 != (#[trigger] t[j]).0 by {
        if j == s.len() {
            assert(t[i] == s[i]);
            if t[i].0 == k {
                assert(has_key(s, k));
            }
        } else {
            assert(t[i] == s[i] && t[j] == s[j]);
        }
    }
    assert(t[s.len() as int].0 == k);
    assert(has_key(t, k));
    lemma_key_at(t, k);
    assert forall|k2: K| #[trigger] has_key(t, k2) implies has_key(s, k2) || k2 == k by {
        let i = key_at(t, k2);
        lemma_key_at(t, k2);
        if i < s.len() {
            assert(s[i].0 == k2);
        }
    }
    assert forall|k2: K| has_key(s, k2) || k2 == k implies #[trigger] has_key(t, k2) by {
        if has_key(s, k2) {
            let i = key_at(s, k2);
            lemma_key_at(s, k2);
            assert(t[i] == s[i]);
        } else {
            assert(t[s.len() as int].0 == k2);
        }
    }
    assert(distinct_keys(t));
    assert forall|k2: K| has_key(s, k2) implies #[trigger] lookup(t, k2) == lookup(s, k2) by {
        let i = key_at(s, k2);
        lemma_key_at(s, k2);
        assert(t[i] == s[i]);
        assert(has_key(t, k2));
        lemma_key_at(t, k2);
        assert(i == key_at(t, k2));
    }
}

/// Removing the entry at a key's index removes exactly that key: every other
/// key keeps its value, and keys stay distinct.
pub proof fn lemma_remove_key<K, V>(s: Seq<(K, V)>, k: K)
    requires
        distinct_keys(s),
        has_key(s, k),
    ensures
        distinct_keys(s.remove(key_at(s, k))),
        !has_key(s.remove(key_at(s, k)), k),
        forall|k2: K| k2 != k ==> (#[trigger] has_key(s.remove(key_at(s, k)), k2) <==> has_key(s, k2)),
        forall|k2: K| k2 != k && has_key(s, k2) ==> #[trigger] lookup(s.remove(key_at(s, k)), k2)
            == lookup(s, k2),
{
    lemma_key_at(s, k);
    let at = key_at(s, k);
    let t = s.remove(at);
    s.remove_ensures(at);
    assert forall|i: int, j: int| 0 <= i < j < t.len() implies (#[trigger] t[i]).0 != (#[trigger] t[j]).0 by {
        let si: int = if i < at { i } else { i + 1 };
        let sj: int = if j < at { j } else { j + 1 };
        assert(t[i] == s[si] && t[j] == s[sj]);
    }
    assert forall|i: int| 0 <= i < t.len() implies (#[trigger] t[i]).0 != k by {
        let si: int = if i < at { i } else { i + 1 };
        assert(t[i] == s[si]);
    }
    assert forall|k2: K| k2 != k && has_key(s, k2) implies #[trigger] has_key(t, k2) by {
        let i = key_at(s, k2);
        lemma_key_at(s, k2);
        let ti: int = if i < at { i } else { i - 1 };
        assert(t[ti] == s[i]);
    }
    assert forall|k2: K| k2 != k && #[trigger] has_key(t, k2) implies has_key(s, k2) by {
        let i = key_at(t, k2);
        lemma_key_at(t, k2);
        let si: int = if i < at { i } else { i + 1 };
        assert(t[i] == s[si]);
    }
    assert forall|k2: K| k2 != k && has_key(s, k2) implies #[trigger] lookup(t, k2) == lookup(s, k2) by {
        let i = key_at(s, k2);
        lemma_key_at(s, k2);
        let ti: int = if i < at { i } else { i - 1 };
        assert(t[ti] == s[i]);
        lemma_key_at(t, k2);
        assert(t[key_at(t, k2)] == s[i]);
    }
}

/// An access promotes the touched entry to the most-recently-used end and
/// changes nothing observable: the set of cached keys and the value under
/// every key stay exactly as they were.
pub proof fn lemma_promote<K, V>(s: Seq<(K, V)>, k: K)
    requires
        distinct_keys(s),
        has_key(s, k),
    ensures
        promote(s, k).len() == s.len(),
        distinct_keys(promote(s, k)),
        forall|k2: K| #[trigger] has_key(promote(s, k), k2) <==> has_key(s, k2),
        forall|k2: K| has_key(s, k2) ==> #[trigger] lookup(promote(s, k), k2) == lookup(s, k2),
{
    lemma_key_at(s, k);
    let at = key_at(s, k);
    let r = s.remove(at);
    s.remove_ensures(at);
    lemma_remove_key(s, k);
    lemma_push_fresh(r, k, s[at].1);
    assert(promote(s, k) == r.push((k, s[at].1))) by {
        assert(s[at] == (k, s[at].1));
    }
    assert forall|k2: K| has_key(s, k2) implies #[trigger] lookup(promote(s, k), k2) == lookup(s, k2) by {
        if k2 == k {
            assert(lookup(promote(s, k), k) == s[at].1);
            assert(lookup(s, k) == s[at].1);
        } else {
            assert(lookup(promote(s, k), k2) == lookup(r, k2));
        }
    }
}

/// Keys absent from a sequence are absent from any prefix-removal of it.
pub proof fn lemma_drop_first_no_key<K, V>(s: Seq<(K, V)>, k: K)
    requires
        !has_key(s, k),
        s.len() > 0,
    ensures
        !has_key(s.drop_first(), k),
        distinct_keys(s) ==> distinct_keys(s.drop_first()),
{
    let t = s.drop_first();
    assert forall|i: int| 0 <= i < t.len() implies (#[trigger] t[i]).0 != k by {
        assert(t[i] == s[i + 1]);
    }
    if distinct_keys(s) {
        assert forall|i: int, j: int| 0 <= i < j < t.len() implies (#[trigger] t[i]).0 != (#[trigger] t[j]).0 by {
            assert(t[i] == s[i + 1] && t[j] == s[j + 1]);
        }
    }
}

} // verus!
