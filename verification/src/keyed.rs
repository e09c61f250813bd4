//! Lists of items identified by a key, seen as maps from key to value.
use crate::id::UmlId;
use vstd::prelude::*;

verus! {

/// No two items of the list have the same key.
pub open spec fn keys_distinct<T>(s: Seq<T>, key: spec_fn(T) -> UmlId) -> bool {
    forall|i: int, j: int| 0 <= i < s.len() && 0 <= j < s.len() && i != j ==> key(s[i]) != key(s[j])
}

/// Some item of the list has the key.
pub open spec fn has_item<T>(s: Seq<T>, key: spec_fn(T) -> UmlId, k: UmlId) -> bool {
    exists|i: int| 0 <= i < s.len() && key(s[i]) == k
}

/// The position of the item with the key (meaningful when `has_item`).
pub open spec fn item_index<T>(s: Seq<T>, key: spec_fn(T) -> UmlId, k: UmlId) -> int {
    choose|i: int| 0 <= i < s.len() && key(s[i]) == k
}

/// The list as a map from each item's key to the item's value.
pub open spec fn keyed_map<T, V>(s: Seq<T>, key: spec_fn(T) -> UmlId, val: spec_fn(T) -> V) -> Map<
    UmlId,
    V,
> {
    Map::new(|k: UmlId| has_item(s, key, k), |k: UmlId| val(s[item_index(s, key, k)]))
}

/// With distinct keys, the item at a position is the one found for its key.
pub proof fn lemma_item_at<T, V>(s: Seq<T>, key: spec_fn(T) -> UmlId, val: spec_fn(T) -> V, i: int)
    requires
        keys_distinct(s, key),
        0 <= i < s.len(),
    ensures
        has_item(s, key, key(s[i])),
        item_index(s, key, key(s[i])) == i,
        keyed_map(s, key, val).contains_key(key(s[i])),
        keyed_map(s, key, val)[key(s[i])] == val(s[i]),
{
    assert(has_item(s, key, key(s[i])));
}

/// Appending an item with a new key adds it to the map.
pub proof fn lemma_keyed_push<T, V>(s: Seq<T>, key: spec_fn(T) -> UmlId, val: spec_fn(T) -> V, e: T)
    requires
        keys_distinct(s, key),
        !has_item(s, key, key(e)),
    ensures
        keys_distinct(s.push(e), key),
        keyed_map(s.push(e), key, val) == keyed_map(s, key, val).insert(key(e), val(e)),
{
    let p = s.push(e);
    assert forall|i: int, j: int| 0 <= i < p.len() && 0 <= j < p.len() && i != j implies key(p[i])
        != key(p[j]) by {
        if i == s.len() {
            assert(key(s[j]) != key(e));
        } else if j == s.len() {
            assert(key(s[i]) != key(e));
        }
    }
    let m1 = keyed_map(p, key, val);
    let m2 = keyed_map(s, key, val).insert(key(e), val(e));
    assert forall|k: UmlId| #[trigger] m1.contains_key(k) <==> m2.contains_key(k) by {
        if has_item(p, key, k) && k != key(e) {
            let i = item_index(p, key, k);
            assert(i < s.len());
            assert(s[i] == p[i]);
        }
        if has_item(s, key, k) {
            let i = item_index(s, key, k);
            assert(p[i] == s[i]);
        }
        if k == key(e) {
            assert(p[s.len() as int] == e);
        }
    }
    assert forall|k: UmlId| m1.contains_key(k) implies #[trigger] m1[k] == m2[k] by {
        let i = item_index(p, key, k);
        if k == key(e) {
            lemma_item_at(p, key, val, s.len() as int);
        } else {
            assert(i < s.len());
            lemma_item_at(s, key, val, i);
            lemma_item_at(p, key, val, i);
        }
    }
    assert(m1 =~= m2);
}

/// Replacing an item by one with the same key replaces its value in the map.
pub proof fn lemma_keyed_update<T, V>(
    s: Seq<T>,
    key: spec_fn(T) -> UmlId,
    val: spec_fn(T) -> V,
    i: int,
    e: T,
)
    requires
        keys_distinct(s, key),
        0 <= i < s.len(),
        key(e) == key(s[i]),
    ensures
        keys_distinct(s.update(i, e), key),
        keyed_map(s.update(i, e), key, val) == keyed_map(s, key, val).insert(key(e), val(e)),
{
    let p = s.update(i, e);
    assert forall|a: int, b: int| 0 <= a < p.len() && 0 <= b < p.len() && a != b implies key(p[a])
        != key(p[b]) by {
        assert(key(p[a]) == key(s[a]));
        assert(key(p[b]) == key(s[b]));
    }
    let m1 = keyed_map(p, key, val);
    let m2 = keyed_map(s, key, val).insert(key(e), val(e));
    assert forall|k: UmlId| #[trigger] m1.contains_key(k) <==> m2.contains_key(k) by {
        if has_item(p, key, k) {
            let j = item_index(p, key, k);
            assert(key(s[j]) == key(p[j]));
        }
        if has_item(s, key, k) {
            let j = item_index(s, key, k);
            assert(key(p[j]) == key(s[j]));
        }
        if k == key(e) {
            assert(key(p[i]) == k);
        }
    }
    assert forall|k: UmlId| m1.contains_key(k) implies #[trigger] m1[k] == m2[k] by {
        let j = item_index(p, key, k);
        assert(key(s[j]) == key(p[j]));
        lemma_item_at(p, key, val, j);
        if j != i {
            lemma_item_at(s, key, val, j);
        }
    }
    assert(m1 =~= m2);
}

/// Removing the item at a position removes its key from the map.
pub proof fn lemma_keyed_remove<T, V>(s: Seq<T>, key: spec_fn(T) -> UmlId, val: spec_fn(T) -> V, i: int)
    requires
        keys_distinct(s, key),
        0 <= i < s.len(),
    ensures
        keys_distinct(s.remove(i), key),
        keyed_map(s.remove(i), key, val) == keyed_map(s, key, val).remove(key(s[i])),
{
    let p = s.remove(i);
    assert forall|a: int, b: int| 0 <= a < p.len() && 0 <= b < p.len() && a != b implies key(p[a])
        != key(p[b]) by {
        let a2 = if a < i { a } else { a + 1 };
        let b2 = if b < i { b } else { b + 1 };
        assert(p[a] == s[a2]);
        assert(p[b] == s[b2]);
    }
    let m1 = keyed_map(p, key, val);
    let m2 = keyed_map(s, key, val).remove(key(s[i]));
    assert forall|k: UmlId| #[trigger] m1.contains_key(k) <==> m2.contains_key(k) by {
        if has_item(p, key, k) {
            let j = item_index(p, key, k);
            let j2 = if j < i { j } else { j + 1 };
            assert(p[j] == s[j2]);
            assert(j2 != i);
        }
        if has_item(s, key, k) && k != key(s[i]) {
            let j = item_index(s, key, k);
            assert(j != i);
            let j2 = if j < i { j } else { j - 1 };
            assert(p[j2] == s[j]);
        }
    }
    assert forall|k: UmlId| m1.contains_key(k) implies #[trigger] m1[k] == m2[k] by {
        let j = item_index(p, key, k);
        let j2 = if j < i { j } else { j + 1 };
        assert(p[j] == s[j2]);
        lemma_item_at(p, key, val, j);
        lemma_item_at(s, key, val, j2);
    }
    assert(m1 =~= m2);
}

/// A key absent from the list is absent from the map.
pub proof fn lemma_keyed_absent<T, V>(s: Seq<T>, key: spec_fn(T) -> UmlId, val: spec_fn(T) -> V, k: UmlId)
    requires
        forall|i: int| 0 <= i < s.len() ==> key(s[i]) != k,
    ensures
        !has_item(s, key, k),
        !keyed_map(s, key, val).contains_key(k),
{
}

/// With distinct keys, the map has as many entries as the list has items.
pub proof fn lemma_keyed_len<T, V>(s: Seq<T>, key: spec_fn(T) -> UmlId, val: spec_fn(T) -> V)
    requires
        keys_distinct(s, key),
    ensures
        keyed_map(s, key, val).dom().finite(),
        keyed_map(s, key, val).len() == s.len(),
{
    let ks = s.map_values(key);
    assert(ks.no_duplicates()) by {
        assert forall|i: int, j: int| 0 <= i < ks.len() && 0 <= j < ks.len() && i != j implies ks[i]
            != ks[j] by {
            assert(ks[i] == key(s[i]));
            assert(ks[j] == key(s[j]));
        }
    }
    ks.unique_seq_to_set();
    let d = keyed_map(s, key, val).dom();
    assert forall|k: UmlId| #[trigger] d.contains(k) <==> ks.to_set().contains(k) by {
        if d.contains(k) {
            let i = item_index(s, key, k);
            assert(ks[i] == k);
        }
        if ks.to_set().contains(k) {
            assert(ks.contains(k));
            let i = choose|i: int| 0 <= i < ks.len() && ks[i] == k;
            assert(key(s[i]) == k);
        }
    }
    assert(d =~= ks.to_set());
}

} // verus!
