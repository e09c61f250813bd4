//! Diagram model: node positions and sizes, edge routing and viewport zoom,
//! without any rendering logic.
pub mod edge;
pub mod entries;
pub mod geometry;
pub mod node;
pub mod types;

use crate::diagram::edge::{ViewEdge, ViewEdgeView};
use crate::diagram::entries::{
    edge_entries, edge_map_get, edge_map_get_index, edge_map_insert, edge_map_len, edge_map_new,
    edge_map_shift_remove, has_key, inserted, key_index, keys_unique, lookup, node_entries,
    node_map_get, node_map_get_index, node_map_get_mut, node_map_insert, node_map_len,
    node_map_new, node_map_shift_remove, removed,
};
use crate::diagram::node::ViewNode;
use crate::id::{DiagramId, EdgeId, UmlId};
use indexmap::IndexMap;
use vstd::prelude::*;

verus! {

/// Bit pattern of the default zoom, 100.0 percent.
pub const DEFAULT_ZOOM_BITS: u64 = 0x4059_0000_0000_0000u64;

/// Bit pattern of the smallest zoom, 10.0 percent.
pub const MIN_ZOOM_BITS: u64 = 0x4024_0000_0000_0000u64;

/// Bit pattern of the largest zoom, 500.0 percent.
pub const MAX_ZOOM_BITS: u64 = 0x407F_4000_0000_0000u64;

/// An IEEE-754 double is finite exactly when its exponent field is not all ones.
pub open spec fn is_finite_bits(bits: u64) -> bool {
    (bits >> 52u64) & 0x7FFu64 != 0x7FFu64
}

/// The sign bit of an IEEE-754 double.
pub open spec fn is_negative_bits(bits: u64) -> bool {
    bits >> 63u64 == 1u64
}

/// The zoom that a stored zoom value stands for: 100% for a non-finite value,
/// otherwise the value clamped to 10–500%. For non-negative finite doubles the
/// order of the values is the order of their bit patterns; every negative
/// value (and negative zero) lies below 10%.
pub open spec fn normalized_zoom(bits: u64) -> u64 {
    if !is_finite_bits(bits) {
        DEFAULT_ZOOM_BITS
    } else if is_negative_bits(bits) || bits < MIN_ZOOM_BITS {
        MIN_ZOOM_BITS
    } else if bits > MAX_ZOOM_BITS {
        MAX_ZOOM_BITS
    } else {
        bits
    }
}

/// Whether a bit pattern is a finite double.
pub fn bits_are_finite(bits: u64) -> (b: bool)
    ensures
        b == is_finite_bits(bits),
{
    (bits >> 52u64) & 0x7FFu64 != 0x7FFu64
}

/// Normalizes a zoom percentage given as a bit pattern (see `normalized_zoom`).
pub fn normalize_zoom_percent(bits: u64) -> (r: u64)
    ensures
        r == normalized_zoom(bits),
{
    if (bits >> 52u64) & 0x7FFu64 == 0x7FFu64 {
        DEFAULT_ZOOM_BITS
    } else if bits >> 63u64 == 1u64 || bits < MIN_ZOOM_BITS {
        MIN_ZOOM_BITS
    } else if bits > MAX_ZOOM_BITS {
        MAX_ZOOM_BITS
    } else {
        bits
    }
}

/// Kinds of diagrams supported.
#[derive(Debug, Clone, Copy, PartialEq, Eq, Structural, Hash)]
pub enum DiagramKind {
    /// Class diagram.
    Class,
    /// Use case diagram.
    UseCase,
    /// Sequence diagram.
    Sequence,
    /// Collaboration diagram.
    Collaboration,
    /// State diagram.
    State,
    /// Activity diagram.
    Activity,
    /// Component diagram.
    Component,
    /// Deployment diagram.
    Deployment,
    /// Entity-relationship diagram.
    EntityRelationship,
    /// Object diagram.
    Object,
}

/// The display name of a diagram kind.
pub open spec fn diagram_kind_name(k: DiagramKind) -> Seq<char> {
    match k {
        DiagramKind::Class => "Class"@,
        DiagramKind::UseCase => "UseCase"@,
        DiagramKind::Sequence => "Sequence"@,
        DiagramKind::Collaboration => "Collaboration"@,
        DiagramKind::State => "State"@,
        DiagramKind::Activity => "Activity"@,
        DiagramKind::Component => "Component"@,
        DiagramKind::Deployment => "Deployment"@,
        DiagramKind::EntityRelationship => "EntityRelationship"@,
        DiagramKind::Object => "Object"@,
    }
}

/// The numeric type number of a diagram kind in Umbrello XMI files.
pub open spec fn diagram_type_num(k: DiagramKind) -> i32 {
    match k {
        DiagramKind::Class => 1,
        DiagramKind::UseCase => 2,
        DiagramKind::Sequence => 3,
        DiagramKind::Collaboration => 4,
        DiagramKind::State => 5,
        DiagramKind::Activity => 6,
        DiagramKind::Component => 7,
        DiagramKind::Deployment => 8,
        DiagramKind::EntityRelationship => 9,
        DiagramKind::Object => 10,
    }
}

/// The diagram kind of an XMI type number; unknown numbers (and 0) mean a
/// class diagram.
pub open spec fn diagram_kind_of_num(n: i32) -> DiagramKind {
    if n == 2 {
        DiagramKind::UseCase
    } else if n == 3 {
        DiagramKind::Sequence
    } else if n == 4 {
        DiagramKind::Collaboration
    } else if n == 5 {
        DiagramKind::State
    } else if n == 6 {
        DiagramKind::Activity
    } else if n == 7 {
        DiagramKind::Component
    } else if n == 8 {
        DiagramKind::Deployment
    } else if n == 9 {
        DiagramKind::EntityRelationship
    } else if n == 10 {
        DiagramKind::Object
    } else {
        DiagramKind::Class
    }
}

impl DiagramKind {
    /// The display name of this diagram kind (e.g. `"UseCase"`).
    pub fn as_str(self) -> (s: &'static str)
        ensures
            s@ == diagram_kind_name(self),
    {
        proof {
            reveal_strlit("Class");
            reveal_strlit("UseCase");
            reveal_strlit("Sequence");
            reveal_strlit("Collaboration");
            reveal_strlit("State");
            reveal_strlit("Activity");
            reveal_strlit("Component");
            reveal_strlit("Deployment");
            reveal_strlit("EntityRelationship");
            reveal_strlit("Object");
        }
        match self {
            DiagramKind::Class => "Class",
            DiagramKind::UseCase => "UseCase",
            DiagramKind::Sequence => "Sequence",
            DiagramKind::Collaboration => "Collaboration",
            DiagramKind::State => "State",
            DiagramKind::Activity => "Activity",
            DiagramKind::Component => "Component",
            DiagramKind::Deployment => "Deployment",
            DiagramKind::EntityRelationship => "EntityRelationship",
            DiagramKind::Object => "Object",
        }
    }

    /// The numeric type number used in Umbrello XMI files.
    pub fn type_num(self) -> (n: i32)
        ensures
            n == diagram_type_num(self),
    {
        match self {
            DiagramKind::Class => 1,
            DiagramKind::UseCase => 2,
            DiagramKind::Sequence => 3,
            DiagramKind::Collaboration => 4,
            DiagramKind::State => 5,
            DiagramKind::Activity => 6,
            DiagramKind::Component => 7,
            DiagramKind::Deployment => 8,
            DiagramKind::EntityRelationship => 9,
            DiagramKind::Object => 10,
        }
    }

    /// The diagram kind of an XMI type number; `Class` for unknown numbers.
    pub fn from_type_num(n: i32) -> (k: Self)
        ensures
            k == diagram_kind_of_num(n),
    {
        match n {
            1 => DiagramKind::Class,
            2 => DiagramKind::UseCase,
            3 => DiagramKind::Sequence,
            4 => DiagramKind::Collaboration,
            5 => DiagramKind::State,
            6 => DiagramKind::Activity,
            7 => DiagramKind::Component,
            8 => DiagramKind::Deployment,
            9 => DiagramKind::EntityRelationship,
            10 => DiagramKind::Object,
            _ => DiagramKind::Class,
        }
    }
}

/// Reading back the type number of a kind gives the kind.
pub proof fn lemma_type_num_roundtrip(k: DiagramKind)
    ensures
        diagram_kind_of_num(diagram_type_num(k)) == k,
        1 <= diagram_type_num(k) <= 10,
{
}

/// The edge entries with each edge replaced by its mathematical value.
pub open spec fn edge_views(s: Seq<(u128, ViewEdge)>) -> Seq<(u128, ViewEdgeView)> {
    s.map_values(|e: (u128, ViewEdge)| (e.0, e.1@))
}

/// The mathematical value of a diagram.
pub struct DiagramView {
    /// Unique identifier.
    pub id: DiagramId,
    /// Human-readable name.
    pub name: Seq<char>,
    /// The kind of diagram.
    pub kind: DiagramKind,
    /// Stored zoom percentage (bit pattern).
    pub zoom_percent: u64,
    /// Nodes keyed by model element id value, in insertion order.
    pub nodes: Seq<(u128, ViewNode)>,
    /// Edges keyed by edge id value, in insertion order.
    pub edges: Seq<(u128, ViewEdgeView)>,
}

/// A diagram: a visual container for nodes and edges.
#[derive(Debug)]
pub struct Diagram {
    /// Unique identifier for this diagram.
    pub id: DiagramId,
    /// Human-readable name.
    pub name: String,
    /// The type of diagram.
    pub kind: DiagramKind,
    /// Stored viewport zoom percentage (bit pattern); read it through
    /// `zoom_percent()`, which bounds it to 10–500%.
    pub zoom_percent: u64,
    /// Visual nodes keyed by the model element's id value.
    pub nodes: IndexMap<u128, ViewNode>,
    /// Visual edges keyed by the edge id value.
    pub edges: IndexMap<u128, ViewEdge>,
}

impl View for Diagram {
    type V = DiagramView;

    open spec fn view(&self) -> DiagramView {
        DiagramView {
            id: self.id,
            name: self.name@,
            kind: self.kind,
            zoom_percent: self.zoom_percent,
            nodes: node_entries(self.nodes),
            edges: edge_views(edge_entries(self.edges)),
        }
    }
}

/// Lookup, insertion and removal of edges commute with taking edge values.
pub proof fn lemma_edge_views(s: Seq<(u128, ViewEdge)>, key: u128, value: ViewEdge)
    requires
        keys_unique(s),
    ensures
        keys_unique(edge_views(s)),
        has_key(edge_views(s), key) == has_key(s, key),
        has_key(s, key) ==> key_index(edge_views(s), key) == key_index(s, key),
        edge_views(inserted(s, key, value)) == inserted(edge_views(s), key, value@),
        edge_views(removed(s, key)) == removed(edge_views(s), key),
        match lookup(s, key) {
            Some(e) => lookup(edge_views(s), key) == Some(e@),
            None => lookup(edge_views(s), key) is None,
        },
{
    let v = edge_views(s);
    assert(v.len() == s.len());
    assert forall|i: int| 0 <= i < s.len() implies v[i].0 == s[i].0 by {}
    if has_key(s, key) {
        let i = key_index(s, key);
        assert(v[i].0 == key);
        lemma_key_index_unique(v, key, i);
        assert(edge_views(inserted(s, key, value)) =~= inserted(v, key, value@));
        assert(edge_views(removed(s, key)) =~= removed(v, key));
    } else {
        assert(!has_key(v, key)) by {
            if has_key(v, key) {
                let j = key_index(v, key);
                assert(s[j].0 == key);
            }
        }
        assert(edge_views(inserted(s, key, value)) =~= inserted(v, key, value@));
    }
}

/// With unique keys, a position holding the key is the key's position.
pub proof fn lemma_key_index_unique<V>(s: Seq<(u128, V)>, key: u128, i: int)
    requires
        keys_unique(s),
        0 <= i < s.len(),
        s[i].0 == key,
    ensures
        has_key(s, key),
        key_index(s, key) == i,
{
    assert(has_key(s, key));
}

/// Inserting and removing keep keys unique.
pub proof fn lemma_keys_unique_preserved<V>(s: Seq<(u128, V)>, key: u128, value: V)
    requires
        keys_unique(s),
    ensures
        keys_unique(inserted(s, key, value)),
        keys_unique(removed(s, key)),
{
    if has_key(s, key) {
        let i = key_index(s, key);
        let r = s.remove(i);
        assert forall|a: int, b: int| 0 <= a < r.len() && 0 <= b < r.len() && a != b implies r[a].0
            != r[b].0 by {
            let a2 = if a < i { a } else { a + 1 };
            let b2 = if b < i { b } else { b + 1 };
            assert(r[a] == s[a2]);
            assert(r[b] == s[b2]);
        }
    } else {
        let p = s.push((key, value));
        assert forall|a: int, b: int| 0 <= a < p.len() && 0 <= b < p.len() && a != b implies p[a].0
            != p[b].0 by {
            if a == s.len() {
                assert(s[b].0 != key);
            } else if b == s.len() {
                assert(s[a].0 != key);
            }
        }
    }
}

impl Diagram {
    /// The node and edge maps hold each key once (as every `IndexMap` does).
    pub open spec fn wf(&self) -> bool {
        &&& keys_unique(node_entries(self.nodes))
        &&& keys_unique(edge_entries(self.edges))
    }

    /// Create a new empty diagram with a fresh id and the default zoom.
    pub fn new(name: &str, kind: DiagramKind) -> (d: Self)
        ensures
            d.wf(),
            d@ == (DiagramView {
                id: d.id,
                name: name@,
                kind,
                zoom_percent: DEFAULT_ZOOM_BITS,
                nodes: Seq::empty(),
                edges: Seq::empty(),
            }),
    {
        let d = Diagram {
            id: DiagramId::new(),
            name: String::from_str(name),
            kind,
            zoom_percent: DEFAULT_ZOOM_BITS,
            nodes: node_map_new(),
            edges: edge_map_new(),
        };
        assert(d@.edges =~= Seq::empty());
        d
    }

    /// The bounded zoom percentage of this diagram (bit pattern).
    pub fn zoom_percent(&self) -> (z: u64)
        ensures
            z == normalized_zoom(self.zoom_percent),
    {
        normalize_zoom_percent(self.zoom_percent)
    }

    /// Set the zoom percentage: 100% for non-finite values, otherwise clamped
    /// to 10–500%.
    pub fn set_zoom_percent(&mut self, zoom_percent: u64)
        ensures
            final(self)@ == (DiagramView { zoom_percent: normalized_zoom(zoom_percent), ..old(self)@ }),
            final(self).wf() == old(self).wf(),
    {
        self.zoom_percent = normalize_zoom_percent(zoom_percent);
    }

    /// Add (or replace) the node of a model element.
    pub fn add_node(&mut self, element_id: UmlId, node: ViewNode)
        requires
            old(self).wf(),
        ensures
            final(self).wf(),
            final(self)@ == (DiagramView {
                nodes: inserted(old(self)@.nodes, element_id.value, node),
                ..old(self)@
            }),
    {
        proof {
            lemma_keys_unique_preserved(node_entries(self.nodes), element_id.value, node);
        }
        node_map_insert(&mut self.nodes, element_id.value, node);
    }

    /// Remove the node of a model element, returning it.
    pub fn remove_node(&mut self, element_id: UmlId) -> (r: Option<ViewNode>)
        requires
            old(self).wf(),
        ensures
            final(self).wf(),
            r == lookup(old(self)@.nodes, element_id.value),
            final(self)@ == (DiagramView {
                nodes: removed(old(self)@.nodes, element_id.value),
                ..old(self)@
            }),
    {
        proof {
            lemma_keys_unique_preserved(node_entries(self.nodes), element_id.value, arbitrary());
        }
        node_map_shift_remove(&mut self.nodes, element_id.value)
    }

    /// The node of a model element.
    pub fn get_node(&self, element_id: UmlId) -> (r: Option<&ViewNode>)
        requires
            self.wf(),
        ensures
            match r {
                Some(n) => lookup(self@.nodes, element_id.value) == Some(*n),
                None => lookup(self@.nodes, element_id.value) is None,
            },
    {
        node_map_get(&self.nodes, element_id.value)
    }

    /// A mutable reference to the node of a model element; what is written
    /// through it replaces the node in place.
    pub fn get_node_mut(&mut self, element_id: UmlId) -> (r: Option<&mut ViewNode>)
        requires
            old(self).wf(),
        ensures
            match r {
                Some(n) => {
                    &&& lookup(old(self)@.nodes, element_id.value) == Some(*n)
                    &&& final(self).wf()
                    &&& final(self)@ == (DiagramView {
                        nodes: old(self)@.nodes.update(
                            key_index(old(self)@.nodes, element_id.value),
                            (element_id.value, *final(n)),
                        ),
                        ..old(self)@
                    })
                },
                None => {
                    &&& lookup(old(self)@.nodes, element_id.value) is None
                    &&& final(self)@ == old(self)@
                },
            },
    {
        proof {
            let s = node_entries(self.nodes);
            if has_key(s, element_id.value) {
                let i = key_index(s, element_id.value);
                assert forall|v: ViewNode| keys_unique(#[trigger] s.update(i, (element_id.value, v))) by {
                    let t = s.update(i, (element_id.value, v));
                    assert forall|a: int, b: int| 0 <= a < t.len() && 0 <= b < t.len() && a != b implies t[a].0 != t[b].0 by {
                        assert(t[a].0 == s[a].0);
                        assert(t[b].0 == s[b].0);
                    }
                }
            }
        }
        node_map_get_mut(&mut self.nodes, element_id.value)
    }

    /// Add (or replace) an edge.
    pub fn add_edge(&mut self, edge_id: EdgeId, edge: ViewEdge)
        requires
            old(self).wf(),
        ensures
            final(self).wf(),
            final(self)@ == (DiagramView {
                edges: inserted(old(self)@.edges, edge_id.value, edge@),
                ..old(self)@
            }),
    {
        proof {
            lemma_keys_unique_preserved(edge_entries(self.edges), edge_id.value, edge);
            lemma_edge_views(edge_entries(self.edges), edge_id.value, edge);
        }
        edge_map_insert(&mut self.edges, edge_id.value, edge);
    }

    /// Remove an edge, returning it.
    pub fn remove_edge(&mut self, edge_id: EdgeId) -> (r: Option<ViewEdge>)
        requires
            old(self).wf(),
        ensures
            final(self).wf(),
            match r {
                Some(e) => lookup(old(self)@.edges, edge_id.value) == Some(e@),
                None => lookup(old(self)@.edges, edge_id.value) is None,
            },
            final(self)@ == (DiagramView {
                edges: removed(old(self)@.edges, edge_id.value),
                ..old(self)@
            }),
    {
        let ghost e: ViewEdge = arbitrary();
        proof {
            lemma_keys_unique_preserved(edge_entries(self.edges), edge_id.value, e);
            lemma_edge_views(edge_entries(self.edges), edge_id.value, e);
        }
        edge_map_shift_remove(&mut self.edges, edge_id.value)
    }

    /// The edge with the given id.
    pub fn get_edge(&self, edge_id: EdgeId) -> (r: Option<&ViewEdge>)
        requires
            self.wf(),
        ensures
            match r {
                Some(e) => lookup(self@.edges, edge_id.value) == Some(e@),
                None => lookup(self@.edges, edge_id.value) is None,
            },
    {
        proof {
            lemma_edge_views(edge_entries(self.edges), edge_id.value, arbitrary());
        }
        edge_map_get(&self.edges, edge_id.value)
    }

    /// Number of nodes in the diagram.
    pub fn node_count(&self) -> (n: usize)
        ensures
            n == self@.nodes.len(),
    {
        node_map_len(&self.nodes)
    }

    /// The node at position `index`, in insertion order.
    pub fn node_at(&self, index: usize) -> (n: ViewNode)
        requires
            index < self@.nodes.len(),
        ensures
            n == self@.nodes[index as int].1,
    {
        node_map_get_index(&self.nodes, index).1
    }

    /// The relationship of the edge at position `index`, in insertion order.
    pub fn edge_relationship_at(&self, index: usize) -> (id: UmlId)
        requires
            index < self@.edges.len(),
        ensures
            id == self@.edges[index as int].1.relationship_id,
    {
        edge_map_get_index(&self.edges, index).1.relationship_id
    }

    /// Number of edges in the diagram.
    pub fn edge_count(&self) -> (n: usize)
        ensures
            n == self@.edges.len(),
    {
        edge_map_len(&self.edges)
    }

    /// A copy of this diagram: same id, name, kind, zoom, nodes and edges.
    pub fn duplicate(&self) -> (r: Self)
        requires
            self.wf(),
        ensures
            r.wf(),
            r@ == self@,
    {
        let mut nodes = node_map_new();
        let n = node_map_len(&self.nodes);
        let mut i: usize = 0;
        while i < n
            invariant
                n == node_entries(self.nodes).len(),
                i <= n,
                keys_unique(node_entries(self.nodes)),
                node_entries(nodes) == node_entries(self.nodes).subrange(0, i as int),
            decreases n - i,
        {
            let (k, v) = node_map_get_index(&self.nodes, i);
            let ghost built = node_entries(nodes);
            proof {
                assert(keys_unique(built));
                assert(!has_key(built, k)) by {
                    if has_key(built, k) {
                        let j = key_index(built, k);
                        assert(node_entries(self.nodes)[j].0 == k);
                    }
                }
            }
            node_map_insert(&mut nodes, k, v);
            i += 1;
            assert(node_entries(nodes) =~= node_entries(self.nodes).subrange(0, i as int));
        }
        assert(node_entries(nodes) =~= node_entries(self.nodes));
        let mut edges = edge_map_new();
        let m = edge_map_len(&self.edges);
        let mut j: usize = 0;
        while j < m
            invariant
                m == edge_entries(self.edges).len(),
                j <= m,
                keys_unique(edge_entries(self.edges)),
                keys_unique(edge_entries(edges)),
                edge_entries(edges).len() == j,
                forall|t: int|
                    0 <= t < j ==> #[trigger] edge_entries(edges)[t].0 == edge_entries(
                        self.edges,
                    )[t].0 && edge_entries(edges)[t].1@ == edge_entries(self.edges)[t].1@,
            decreases m - j,
        {
            let (k, e) = edge_map_get_index(&self.edges, j);
            let c = e.clone();
            let ghost built = edge_entries(edges);
            proof {
                assert(!has_key(built, k)) by {
                    if has_key(built, k) {
                        let t = key_index(built, k);
                        assert(edge_entries(self.edges)[t].0 == k);
                    }
                }
                lemma_keys_unique_preserved(built, k, c);
            }
            edge_map_insert(&mut edges, k, c);
            j += 1;
        }
        let r = Diagram {
            id: self.id,
            name: self.name.clone(),
            kind: self.kind,
            zoom_percent: self.zoom_percent,
            nodes,
            edges,
        };
        assert(r@.edges =~= self@.edges);
        r
    }
}

} // verus!
