//! Insertion-ordered maps of a diagram's nodes and edges.
//!
//! A diagram keeps its nodes and edges in `indexmap::IndexMap`s keyed by the
//! 128-bit identifier value, so that iteration follows insertion order and
//! removal preserves the relative order of the remaining entries. The
//! contracts below describe each map by the sequence of its entries, in order.
use crate::diagram::edge::ViewEdge;
use crate::diagram::node::ViewNode;
use indexmap::IndexMap;
use vstd::prelude::*;

verus! {

#[verifier::external_type_specification]
#[verifier::external_body]
#[verifier::reject_recursive_types(K)]
#[verifier::reject_recursive_types(V)]
#[verifier::reject_recursive_types(S)]
pub struct ExIndexMap<K, V, S>(IndexMap<K, V, S>);

/// The entries of a node map, in insertion order.
pub uninterp spec fn node_entries(m: IndexMap<u128, ViewNode>) -> Seq<(u128, ViewNode)>;

/// The entries of an edge map, in insertion order.
pub uninterp spec fn edge_entries(m: IndexMap<u128, ViewEdge>) -> Seq<(u128, ViewEdge)>;

/// No key occurs twice among the entries.
pub open spec fn keys_unique<V>(s: Seq<(u128, V)>) -> bool {
    forall|i: int, j: int| 0 <= i < s.len() && 0 <= j < s.len() && i != j ==> s[i].0 != s[j].0
}

/// Some entry has the key.
pub open spec fn has_key<V>(s: Seq<(u128, V)>, key: u128) -> bool {
    exists|i: int| 0 <= i < s.len() && s[i].0 == key
}

/// The position of the entry with the key (meaningful when `has_key`).
pub open spec fn key_index<V>(s: Seq<(u128, V)>, key: u128) -> int {
    choose|i: int| 0 <= i < s.len() && s[i].0 == key
}

/// The value stored under the key, if any.
pub open spec fn lookup<V>(s: Seq<(u128, V)>, key: u128) -> Option<V> {
    if has_key(s, key) {
        Some(s[key_index(s, key)].1)
    } else {
        None
    }
}

/// The entries after an insert: an existing key keeps its place and takes the
/// new value; a new key is appended.
pub open spec fn inserted<V>(s: Seq<(u128, V)>, key: u128, value: V) -> Seq<(u128, V)> {
    if has_key(s, key) {
        s.update(key_index(s, key), (key, value))
    } else {
        s.push((key, value))
    }
}

/// The entries after a shift-remove: the entry with the key is dropped and the
/// others keep their relative order.
pub open spec fn removed<V>(s: Seq<(u128, V)>, key: u128) -> Seq<(u128, V)> {
    if has_key(s, key) {
        s.remove(key_index(s, key))
    } else {
        s
    }
}

/// `IndexMap::new`: an empty map.
#[verifier::external_body]
pub(crate) fn node_map_new() -> (m: IndexMap<u128, ViewNode>)
    ensures
        node_entries(m) == Seq::<(u128, ViewNode)>::empty(),
{
    IndexMap::new()
}

/// `IndexMap::len`: the number of entries.
#[verifier::external_body]
pub(crate) fn node_map_len(m: &IndexMap<u128, ViewNode>) -> (n: usize)
    ensures
        n == node_entries(*m).len(),
{
    m.len()
}

/// `IndexMap::insert`: an existing key keeps its position and its value is
/// replaced (the old value is returned); a new key is appended at the end.
#[verifier::external_body]
pub(crate) fn node_map_insert(m: &mut IndexMap<u128, ViewNode>, key: u128, value: ViewNode) -> (prev:
    Option<ViewNode>)
    requires
        keys_unique(node_entries(*old(m))),
    ensures
        node_entries(*final(m)) == inserted(node_entries(*old(m)), key, value),
        prev == lookup(node_entries(*old(m)), key),
{
    m.insert(key, value)
}

/// `IndexMap::shift_remove`: removes the entry with the key, keeping the
/// order of the others, and returns its value.
#[verifier::external_body]
pub(crate) fn node_map_shift_remove(m: &mut IndexMap<u128, ViewNode>, key: u128) -> (prev: Option<
    ViewNode,
>)
    requires
        keys_unique(node_entries(*old(m))),
    ensures
        node_entries(*final(m)) == removed(node_entries(*old(m)), key),
        prev == lookup(node_entries(*old(m)), key),
{
    m.shift_remove(&key)
}

/// `IndexMap::get`: the value stored under the key.
#[verifier::external_body]
pub(crate) fn node_map_get<'a>(m: &'a IndexMap<u128, ViewNode>, key: u128) -> (r: Option<&'a ViewNode>)
    requires
        keys_unique(node_entries(*m)),
    ensures
        match r {
            Some(v) => lookup(node_entries(*m), key) == Some(*v),
            None => lookup(node_entries(*m), key) is None,
        },
{
    m.get(&key)
}

/// `IndexMap::get_mut`: a mutable reference to the value stored under the
/// key; what is written through it replaces that value in place.
#[verifier::external_body]
pub(crate) fn node_map_get_mut<'a>(m: &'a mut IndexMap<u128, ViewNode>, key: u128) -> (r: Option<
    &'a mut ViewNode,
>)
    requires
        keys_unique(node_entries(*old(m))),
    ensures
        match r {
            Some(v) => {
                &&& lookup(node_entries(*old(m)), key) == Some(*v)
                &&& node_entries(*final(m)) == node_entries(*old(m)).update(
                    key_index(node_entries(*old(m)), key),
                    (key, *final(v)),
                )
            },
            None => {
                &&& lookup(node_entries(*old(m)), key) is None
                &&& node_entries(*final(m)) == node_entries(*old(m))
            },
        },
{
    m.get_mut(&key)
}

/// `IndexMap::get_index`: the entry at a position.
#[verifier::external_body]
pub(crate) fn node_map_get_index(m: &IndexMap<u128, ViewNode>, index: usize) -> (r: (u128, ViewNode))
    requires
        index < node_entries(*m).len(),
    ensures
        r == node_entries(*m)[index as int],
{
    let (k, v) = m.get_index(index).unwrap();
    (*k, *v)
}

/// `IndexMap::new`: an empty map.
#[verifier::external_body]
pub(crate) fn edge_map_new() -> (m: IndexMap<u128, ViewEdge>)
    ensures
        edge_entries(m) == Seq::<(u128, ViewEdge)>::empty(),
{
    IndexMap::new()
}

/// `IndexMap::len`: the number of entries.
#[verifier::external_body]
pub(crate) fn edge_map_len(m: &IndexMap<u128, ViewEdge>) -> (n: usize)
    ensures
        n == edge_entries(*m).len(),
{
    m.len()
}

/// `IndexMap::insert`: an existing key keeps its position and its value is
/// replaced (the old value is returned); a new key is appended at the end.
#[verifier::external_body]
pub(crate) fn edge_map_insert(m: &mut IndexMap<u128, ViewEdge>, key: u128, value: ViewEdge) -> (prev:
    Option<ViewEdge>)
    requires
        keys_unique(edge_entries(*old(m))),
    ensures
        edge_entries(*final(m)) == inserted(edge_entries(*old(m)), key, value),
        prev == lookup(edge_entries(*old(m)), key),
{
    m.insert(key, value)
}

/// `IndexMap::shift_remove`: removes the entry with the key, keeping the
/// order of the others, and returns its value.
#[verifier::external_body]
pub(crate) fn edge_map_shift_remove(m: &mut IndexMap<u128, ViewEdge>, key: u128) -> (prev: Option<
    ViewEdge,
>)
    requires
        keys_unique(edge_entries(*old(m))),
    ensures
        edge_entries(*final(m)) == removed(edge_entries(*old(m)), key),
        prev == lookup(edge_entries(*old(m)), key),
{
    m.shift_remove(&key)
}

/// `IndexMap::get`: the value stored under the key.
#[verifier::external_body]
pub(crate) fn edge_map_get<'a>(m: &'a IndexMap<u128, ViewEdge>, key: u128) -> (r: Option<&'a ViewEdge>)
    requires
        keys_unique(edge_entries(*m)),
    ensures
        match r {
            Some(v) => lookup(edge_entries(*m), key) == Some(*v),
            None => lookup(edge_entries(*m), key) is None,
        },
{
    m.get(&key)
}

/// `IndexMap::get_index`: the entry at a position.
#[verifier::external_body]
pub(crate) fn edge_map_get_index<'a>(m: &'a IndexMap<u128, ViewEdge>, index: usize) -> (r: (
    u128,
    &'a ViewEdge,
))
    requires
        index < edge_entries(*m).len(),
    ensures
        (r.0, *r.1) == edge_entries(*m)[index as int],
{
    let (k, v) = m.get_index(index).unwrap();
    (*k, v)
}

} // verus!
