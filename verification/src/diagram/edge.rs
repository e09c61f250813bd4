//! Visual edge types for diagrams.
use crate::diagram::geometry::Point;
use crate::id::UmlId;
use vstd::prelude::*;

verus! {

/// Line routing style.
#[derive(Debug, Clone, Copy, PartialEq, Eq, Structural)]
pub enum LineRouting {
    /// Direct straight line between endpoints.
    Direct,
    /// Orthogonal (right-angle) routing.
    Orthogonal,
    /// Polyline with intermediate waypoints.
    Polyline,
    /// Smooth spline curve.
    Spline,
}

/// Kind of edge label.
#[derive(Debug, Clone, Copy, PartialEq, Eq, Structural)]
pub enum EdgeLabelKind {
    /// The relationship name.
    Name,
    /// Multiplicity at the source end.
    SourceMultiplicity,
    /// Multiplicity at the target end.
    TargetMultiplicity,
    /// Role name at the source end.
    SourceRole,
    /// Role name at the target end.
    TargetRole,
}

/// An edge label positioned on a diagram.
#[derive(Debug, PartialEq)]
pub struct EdgeLabel {
    /// Position of the label on the diagram.
    pub position: Point,
    /// The label text.
    pub text: String,
    /// The kind of label.
    pub kind: EdgeLabelKind,
}

/// The mathematical value of an edge label.
pub struct EdgeLabelView {
    /// Position of the label.
    pub position: Point,
    /// The label text.
    pub text: Seq<char>,
    /// The kind of label.
    pub kind: EdgeLabelKind,
}

impl View for EdgeLabel {
    type V = EdgeLabelView;

    open spec fn view(&self) -> EdgeLabelView {
        EdgeLabelView { position: self.position, text: self.text@, kind: self.kind }
    }
}

impl Clone for EdgeLabel {
    /// A copy with the same position, text and kind.
    fn clone(&self) -> (r: Self)
        ensures
            r@ == self@,
    {
        EdgeLabel { position: self.position, text: self.text.clone(), kind: self.kind }
    }
}

/// A visual edge: the geometric representation of a relationship.
#[derive(Debug, PartialEq)]
pub struct ViewEdge {
    /// The relationship this edge represents.
    pub relationship_id: UmlId,
    /// The source node's model element ID.
    pub source_node_id: UmlId,
    /// The target node's model element ID.
    pub target_node_id: UmlId,
    /// Waypoints defining the path. If empty, a straight line is drawn.
    pub waypoints: Vec<Point>,
    /// Line routing style.
    pub routing: LineRouting,
    /// Optional labels.
    pub labels: Vec<EdgeLabel>,
}

/// The mathematical value of a view edge.
pub struct ViewEdgeView {
    /// The relationship this edge represents.
    pub relationship_id: UmlId,
    /// The source node's model element ID.
    pub source_node_id: UmlId,
    /// The target node's model element ID.
    pub target_node_id: UmlId,
    /// Waypoints of the path.
    pub waypoints: Seq<Point>,
    /// Line routing style.
    pub routing: LineRouting,
    /// Labels.
    pub labels: Seq<EdgeLabelView>,
}

impl View for ViewEdge {
    type V = ViewEdgeView;

    open spec fn view(&self) -> ViewEdgeView {
        ViewEdgeView {
            relationship_id: self.relationship_id,
            source_node_id: self.source_node_id,
            target_node_id: self.target_node_id,
            waypoints: self.waypoints@,
            routing: self.routing,
            labels: self.labels@.map_values(|l: EdgeLabel| l@),
        }
    }
}

impl ViewEdge {
    /// Create a new view edge without waypoints or labels.
    pub fn new(
        relationship_id: UmlId,
        source_node_id: UmlId,
        target_node_id: UmlId,
        routing: LineRouting,
    ) -> (e: Self)
        ensures
            e@ == (ViewEdgeView {
                relationship_id,
                source_node_id,
                target_node_id,
                waypoints: Seq::empty(),
                routing,
                labels: Seq::empty(),
            }),
    {
        let e = ViewEdge {
            relationship_id,
            source_node_id,
            target_node_id,
            waypoints: Vec::new(),
            routing,
            labels: Vec::new(),
        };
        assert(e@.labels =~= Seq::empty());
        e
    }
}

/// A copy of a list of points.
pub fn copy_points(points: &Vec<Point>) -> (r: Vec<Point>)
    ensures
        r@ == points@,
{
    let mut r: Vec<Point> = Vec::new();
    let mut i: usize = 0;
    while i < points.len()
        invariant
            i <= points.len(),
            r@ == points@.subrange(0, i as int),
        decreases points.len() - i,
    {
        r.push(points[i]);
        i += 1;
        assert(r@ =~= points@.subrange(0, i as int));
    }
    assert(r@ =~= points@);
    r
}

impl Clone for ViewEdge {
    /// A copy with the same endpoints, waypoints, routing and labels.
    fn clone(&self) -> (r: Self)
        ensures
            r@ == self@,
    {
        let mut labels: Vec<EdgeLabel> = Vec::new();
        let mut i: usize = 0;
        while i < self.labels.len()
            invariant
                i <= self.labels.len(),
                labels@.len() == i,
                forall|j: int| 0 <= j < i ==> labels@[j]@ == self.labels@[j]@,
            decreases self.labels.len() - i,
        {
            labels.push(self.labels[i].clone());
            i += 1;
        }
        let r = ViewEdge {
            relationship_id: self.relationship_id,
            source_node_id: self.source_node_id,
            target_node_id: self.target_node_id,
            waypoints: copy_points(&self.waypoints),
            routing: self.routing,
            labels,
        };
        assert(r@.labels =~= self@.labels);
        assert(r@.waypoints =~= self@.waypoints);
        r
    }
}

} // verus!
