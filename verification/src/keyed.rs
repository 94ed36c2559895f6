//! Lists of entries keyed by text or by value, each key once, read as maps.

use vstd::prelude::*;

use crate::text::str_eq;

verus! {

/// The keys of text-keyed entries, in order.
pub open spec fn key_views<V>(h: Seq<(String, V)>) -> Seq<Seq<char>> {
    h.map_values(|e: (String, V)| e.0@)
}

/// The value under each text key.
pub open spec fn keyed_map<V>(h: Seq<(String, V)>) -> Map<Seq<char>, V> {
    Map::new(
        |k: Seq<char>| key_views(h).contains(k),
        |k: Seq<char>|
            {
                let i = choose|i: int| 0 <= i < h.len() && #[trigger] key_views(h)[i] == k;
                h[i].1
            },
    )
}

/// With each key once, the value under the key at `i` is the one at `i`.
pub proof fn lemma_keyed_at<V>(h: Seq<(String, V)>, i: int)
    requires
        key_views(h).no_duplicates(),
        0 <= i < h.len(),
    ensures
        keyed_map(h).dom().contains(h[i].0@),
        keyed_map(h)[h[i].0@] == h[i].1,
{
    let k = h[i].0@;
    assert(key_views(h)[i] == k);
    let j = choose|j: int| 0 <= j < h.len() && #[trigger] key_views(h)[j] == k;
    assert(j == i);
}

/// Replacing the entry at `i` (same key) replaces the value in the map.
pub proof fn lemma_keyed_update<V>(h: Seq<(String, V)>, i: int, v: (String, V))
    requires
        key_views(h).no_duplicates(),
        0 <= i < h.len(),
        v.0@ == h[i].0@,
    ensures
        key_views(h.update(i, v)) == key_views(h),
        keyed_map(h.update(i, v)) == keyed_map(h).insert(v.0@, v.1),
{
    let h2 = h.update(i, v);
    assert(key_views(h2) =~= key_views(h));
    assert forall|k: Seq<char>| #[trigger] keyed_map(h2).dom().contains(k) implies keyed_map(h2)[k]
        == keyed_map(h).insert(v.0@, v.1)[k] by {
        let j = choose|j: int| 0 <= j < h2.len() && #[trigger] key_views(h2)[j] == k;
        lemma_keyed_at(h2, j);
        lemma_keyed_at(h, j);
        if j != i {
            assert(key_views(h)[j] != key_views(h)[i]);
        }
    }
    lemma_keyed_at(h, i);
    assert(keyed_map(h2).dom() =~= keyed_map(h).insert(v.0@, v.1).dom());
    assert(keyed_map(h2) =~= keyed_map(h).insert(v.0@, v.1));
}

/// Adding an entry under a new key adds it to the map.
pub proof fn lemma_keyed_push<V>(h: Seq<(String, V)>, v: (String, V))
    requires
        key_views(h).no_duplicates(),
        !key_views(h).contains(v.0@),
    ensures
        key_views(h.push(v)).no_duplicates(),
        keyed_map(h.push(v)) == keyed_map(h).insert(v.0@, v.1),
{
    let h2 = h.push(v);
    assert(key_views(h2) =~= key_views(h).push(v.0@));
    assert forall|a: int, b: int| 0 <= a < b < key_views(h2).len() implies key_views(h2)[a]
        != key_views(h2)[b] by {
        if b == h.len() {
            assert(key_views(h)[a] == key_views(h2)[a]);
        }
    }
    assert forall|k: Seq<char>| #[trigger] keyed_map(h2).dom().contains(k) implies keyed_map(h2)[k]
        == keyed_map(h).insert(v.0@, v.1)[k] by {
        let j = choose|j: int| 0 <= j < h2.len() && #[trigger] key_views(h2)[j] == k;
        lemma_keyed_at(h2, j);
        if j < h.len() {
            lemma_keyed_at(h, j);
        }
    }
    assert forall|k: Seq<char>| #[trigger] keyed_map(h).insert(v.0@, v.1).dom().contains(
        k,
    ) implies keyed_map(h2).dom().contains(k) by {
        if k != v.0@ {
            let j = choose|j: int| 0 <= j < h.len() && #[trigger] key_views(h)[j] == k;
            assert(key_views(h2)[j] == k);
        } else {
            assert(key_views(h2)[h.len() as int] == k);
        }
    }
    assert(keyed_map(h2) =~= keyed_map(h).insert(v.0@, v.1));
}

/// The position of the entry under a text key.
pub fn key_position<V>(h: &Vec<(String, V)>, key: &str) -> (r: Option<usize>)
    ensures
        match r {
            Some(i) => i < h@.len() && key_views(h@)[i as int] == key@,
            None => !key_views(h@).contains(key@),
        },
{
    for i in 0..h.len()
        invariant
            forall|k: int| 0 <= k < i ==> key_views(h@)[k] != key@,
    {
        if str_eq(h[i].0.as_str(), key) {
            return Some(i);
        }
    }
    None
}

/// The keys of value-keyed entries, in order.
pub open spec fn assoc_keys<K, V>(h: Seq<(K, V)>) -> Seq<K> {
    h.map_values(|e: (K, V)| e.0)
}

/// The value under each key.
pub open spec fn assoc_map<K, V>(h: Seq<(K, V)>) -> Map<K, V> {
    Map::new(
        |k: K| assoc_keys(h).contains(k),
        |k: K|
            {
                let i = choose|i: int| 0 <= i < h.len() && #[trigger] assoc_keys(h)[i] == k;
                h[i].1
            },
    )
}

/// With each key once, the value under the key at `i` is the one at `i`.
pub proof fn lemma_assoc_at<K, V>(h: Seq<(K, V)>, i: int)
    requires
        assoc_keys(h).no_duplicates(),
        0 <= i < h.len(),
    ensures
        assoc_map(h).dom().contains(h[i].0),
        assoc_map(h)[h[i].0] == h[i].1,
{
    let k = h[i].0;
    assert(assoc_keys(h)[i] == k);
    let j = choose|j: int| 0 <= j < h.len() && #[trigger] assoc_keys(h)[j] == k;
    assert(j == i);
}

/// Replacing the entry at `i` (same key) replaces the value in the map.
pub proof fn lemma_assoc_update<K, V>(h: Seq<(K, V)>, i: int, v: (K, V))
    requires
        assoc_keys(h).no_duplicates(),
        0 <= i < h.len(),
        v.0 == h[i].0,
    ensures
        assoc_keys(h.update(i, v)) == assoc_keys(h),
        assoc_map(h.update(i, v)) == assoc_map(h).insert(v.0, v.1),
{
    let h2 = h.update(i, v);
    assert(assoc_keys(h2) =~= assoc_keys(h));
    assert forall|k: K| #[trigger] assoc_map(h2).dom().contains(k) implies assoc_map(h2)[k]
        == assoc_map(h).insert(v.0, v.1)[k] by {
        let j = choose|j: int| 0 <= j < h2.len() && #[trigger] assoc_keys(h2)[j] == k;
        lemma_assoc_at(h2, j);
        lemma_assoc_at(h, j);
        if j != i {
            assert(assoc_keys(h)[j] != assoc_keys(h)[i]);
        }
    }
    lemma_assoc_at(h, i);
    assert(assoc_map(h2).dom() =~= assoc_map(h).insert(v.0, v.1).dom());
    assert(assoc_map(h2) =~= assoc_map(h).insert(v.0, v.1));
}

/// Adding an entry under a new key adds it to the map.
pub proof fn lemma_assoc_push<K, V>(h: Seq<(K, V)>, v: (K, V))
    requires
        assoc_keys(h).no_duplicates(),
        !assoc_keys(h).contains(v.0),
    ensures
        assoc_keys(h.push(v)).no_duplicates(),
        assoc_map(h.push(v)) == assoc_map(h).insert(v.0, v.1),
{
    let h2 = h.push(v);
    assert(assoc_keys(h2) =~= assoc_keys(h).push(v.0));
    assert forall|a: int, b: int| 0 <= a < b < assoc_keys(h2).len() implies assoc_keys(h2)[a]
        != assoc_keys(h2)[b] by {
        if b == h.len() {
            assert(assoc_keys(h)[a] == assoc_keys(h2)[a]);
        }
    }
    assert forall|k: K| #[trigger] assoc_map(h2).dom().contains(k) implies assoc_map(h2)[k]
        == assoc_map(h).insert(v.0, v.1)[k] by {
        let j = choose|j: int| 0 <= j < h2.len() && #[trigger] assoc_keys(h2)[j] == k;
        lemma_assoc_at(h2, j);
        if j < h.len() {
            lemma_assoc_at(h, j);
        }
    }
    assert forall|k: K| #[trigger] assoc_map(h).insert(v.0, v.1).dom().contains(k) implies assoc_map(
        h2,
    ).dom().contains(k) by {
        if k != v.0 {
            let j = choose|j: int| 0 <= j < h.len() && #[trigger] assoc_keys(h)[j] == k;
            assert(assoc_keys(h2)[j] == k);
        } else {
            assert(assoc_keys(h2)[h.len() as int] == k);
        }
    }
    assert(assoc_map(h2) =~= assoc_map(h).insert(v.0, v.1));
}

} // verus!
