//! Sequences of key-value pairs read as finite maps.

use vstd::prelude::*;

verus! {

/// Position `i` of `s` holds key `k`.
pub open spec fn has_key_at<K, V>(s: Seq<(K, V)>, k: K, i: int) -> bool {
    0 <= i < s.len() && s[i].0 == k
}

/// No key stands at two positions of `s`.
pub open spec fn unique_keys<K, V>(s: Seq<(K, V)>) -> bool {
    forall|i: int, j: int| 0 <= i < j < s.len() ==> s[i].0 != s[j].0
}

/// No position of `s` holds key `k`.
pub open spec fn lacks_key<K, V>(s: Seq<(K, V)>, k: K) -> bool {
    forall|i: int| 0 <= i < s.len() ==> s[i].0 != k
}

/// The map that sends each key of `s` to the value beside it.
pub open spec fn assoc_map<K, V>(s: Seq<(K, V)>) -> Map<K, V> {
    Map::new(
        |k: K| exists|i: int| has_key_at(s, k, i),
        |k: K| s[choose|i: int| has_key_at(s, k, i)].1,
    )
}

/// With unique keys, the map sends the key at a position to the value there.
pub proof fn lemma_assoc_lookup<K, V>(s: Seq<(K, V)>, i: int)
    requires
        unique_keys(s),
        0 <= i < s.len(),
    ensures
        assoc_map(s).contains_key(s[i].0),
        assoc_map(s)[s[i].0] == s[i].1,
{
    let k = s[i].0;
    assert(has_key_at(s, k, i));
    let c = choose|c: int| has_key_at(s, k, c);
    if c < i {
        assert(s[c].0 != s[i].0);
    } else if i < c {
        assert(s[i].0 != s[c].0);
    }
}

/// A key that stands nowhere in `s` is outside the map.
pub proof fn lemma_assoc_absent<K, V>(s: Seq<(K, V)>, k: K)
    requires
        lacks_key(s, k),
    ensures
        !assoc_map(s).contains_key(k),
{
    if exists|i: int| has_key_at(s, k, i) {
        let i = choose|i: int| has_key_at(s, k, i);
        assert(s[i].0 != k);
    }
}

/// Appending a pair with a new key inserts it into the map.
pub proof fn lemma_assoc_push<K, V>(s: Seq<(K, V)>, k: K, v: V)
    requires
        unique_keys(s),
        lacks_key(s, k),
    ensures
        unique_keys(s.push((k, v))),
        assoc_map(s.push((k, v))) == assoc_map(s).insert(k, v),
{
    let t = s.push((k, v));
    let n = s.len() as int;
    assert forall|i: int, j: int| 0 <= i < j < t.len() implies t[i].0 != t[j].0 by {
        if j < n {
            assert(s[i].0 != s[j].0);
        } else {
            assert(s[i].0 != k);
        }
    }
    assert forall|x: K| #[trigger]
        assoc_map(t).contains_key(x) == assoc_map(s).insert(k, v).contains_key(x) by {
        if assoc_map(t).contains_key(x) {
            let i = choose|i: int| has_key_at(t, x, i);
            if i < n {
                assert(has_key_at(s, x, i));
            }
        }
        if assoc_map(s).contains_key(x) {
            let i = choose|i: int| has_key_at(s, x, i);
            assert(has_key_at(t, x, i));
        }
        if x == k {
            assert(has_key_at(t, x, n));
        }
    }
    assert forall|x: K| #[trigger] assoc_map(t).contains_key(x) implies assoc_map(t)[x]
        == assoc_map(s).insert(k, v)[x] by {
        if x == k {
            lemma_assoc_lookup(t, n);
        } else {
            let i = choose|i: int| has_key_at(t, x, i);
            assert(i < n);
            lemma_assoc_lookup(t, i);
            lemma_assoc_lookup(s, i);
        }
    }
    assert(assoc_map(t) =~= assoc_map(s).insert(k, v));
}

/// Replacing the value at a position inserts the new value under that
/// position's key.
pub proof fn lemma_assoc_update<K, V>(s: Seq<(K, V)>, i: int, v: V)
    requires
        unique_keys(s),
        0 <= i < s.len(),
    ensures
        unique_keys(s.update(i, (s[i].0, v))),
        assoc_map(s.update(i, (s[i].0, v))) == assoc_map(s).insert(s[i].0, v),
{
    let k = s[i].0;
    let t = s.update(i, (k, v));
    assert forall|a: int, b: int| 0 <= a < b < t.len() implies t[a].0 != t[b].0 by {
        assert(s[a].0 != s[b].0);
    }
    assert forall|x: K| #[trigger]
        assoc_map(t).contains_key(x) == assoc_map(s).insert(k, v).contains_key(x) by {
        if assoc_map(t).contains_key(x) {
            let j = choose|j: int| has_key_at(t, x, j);
            assert(has_key_at(s, x, j));
        }
        if assoc_map(s).contains_key(x) {
            let j = choose|j: int| has_key_at(s, x, j);
            assert(has_key_at(t, x, j));
        }
        if x == k {
            assert(has_key_at(t, x, i));
        }
    }
    assert forall|x: K| #[trigger] assoc_map(t).contains_key(x) implies assoc_map(t)[x]
        == assoc_map(s).insert(k, v)[x] by {
        let j = choose|j: int| has_key_at(t, x, j);
        lemma_assoc_lookup(t, j);
        lemma_assoc_lookup(s, j);
        if x == k {
            if j < i {
                assert(s[j].0 != s[i].0);
            } else if i < j {
                assert(s[i].0 != s[j].0);
            }
        }
    }
    assert(assoc_map(t) =~= assoc_map(s).insert(k, v));
}

/// With unique keys, the map has as many keys as `s` has pairs.
pub proof fn lemma_assoc_len<K, V>(s: Seq<(K, V)>)
    requires
        unique_keys(s),
    ensures
        assoc_map(s).dom().finite(),
        assoc_map(s).dom().len() == s.len(),
    decreases s.len(),
{
    if s.len() == 0 {
        assert(assoc_map(s).dom() =~= Set::<K>::empty());
    } else {
        let head = s.drop_last();
        let (k, v) = s.last();
        assert(s =~= head.push((k, v)));
        assert forall|i: int, j: int| 0 <= i < j < head.len() implies head[i].0 != head[j].0 by {
            assert(s[i].0 != s[j].0);
        }
        assert forall|i: int| 0 <= i < head.len() implies head[i].0 != k by {
            assert(s[i].0 != s[s.len() - 1].0);
        }
        lemma_assoc_len(head);
        lemma_assoc_push(head, k, v);
        lemma_assoc_absent(head, k);
        assert(assoc_map(s).dom() =~= assoc_map(head).dom().insert(k));
    }
}

} // verus!
