use umbrello::diagram::edge::{EdgeLabelKind, LineRouting, ViewEdge};
use umbrello::diagram::geometry::{Point, Rect};
use umbrello::diagram::node::ViewNode;
use umbrello::diagram::types::WidgetId;
use umbrello::diagram::{normalize_zoom_percent, Diagram, DiagramKind};
use umbrello::id::{DiagramId, EdgeId, UmlId};

fn rect(x: f64, y: f64, w: f64, h: f64) -> Rect {
    Rect::new(x.to_bits(), y.to_bits(), w.to_bits(), h.to_bits())
}

#[test]
fn create_diagram() {
    let d = Diagram::new("Main", DiagramKind::Class);
    assert_eq!(d.name, "Main");
    assert_eq!(d.kind, DiagramKind::Class);
    assert_eq!(f64::from_bits(d.zoom_percent()), 100.0);
    assert_eq!(d.node_count(), 0);
    assert_eq!(d.edge_count(), 0);
}

#[test]
fn zoom_is_bounded_and_non_finite_values_are_safe() {
    let mut diagram = Diagram::new("Zoom", DiagramKind::Class);
    diagram.set_zoom_percent(5.0f64.to_bits());
    assert_eq!(f64::from_bits(diagram.zoom_percent()), 10.0);
    diagram.set_zoom_percent(600.0f64.to_bits());
    assert_eq!(f64::from_bits(diagram.zoom_percent()), 500.0);
    diagram.set_zoom_percent(f64::NAN.to_bits());
    assert_eq!(f64::from_bits(diagram.zoom_percent()), 100.0);
    diagram.set_zoom_percent(f64::INFINITY.to_bits());
    assert_eq!(f64::from_bits(diagram.zoom_percent()), 100.0);
}

#[test]
fn zoom_keeps_values_in_range_and_clamps_negatives() {
    assert_eq!(f64::from_bits(normalize_zoom_percent(250.0f64.to_bits())), 250.0);
    assert_eq!(f64::from_bits(normalize_zoom_percent(10.0f64.to_bits())), 10.0);
    assert_eq!(f64::from_bits(normalize_zoom_percent(500.0f64.to_bits())), 500.0);
    assert_eq!(f64::from_bits(normalize_zoom_percent((-3.0f64).to_bits())), 10.0);
    assert_eq!(f64::from_bits(normalize_zoom_percent(f64::NEG_INFINITY.to_bits())), 100.0);
}

#[test]
fn add_and_remove_node() {
    let mut d = Diagram::new("Test", DiagramKind::Class);
    let elem_id = UmlId::new();
    let node = ViewNode::new(elem_id, rect(10.0, 20.0, 100.0, 50.0));
    d.add_node(elem_id, node);
    assert_eq!(d.node_count(), 1);
    let removed = d.remove_node(elem_id);
    assert!(removed.is_some());
    assert_eq!(d.node_count(), 0);
}

#[test]
fn adding_a_node_twice_replaces_it() {
    let mut d = Diagram::new("Test", DiagramKind::Class);
    let id = UmlId::new();
    d.add_node(id, ViewNode::new(id, rect(0.0, 0.0, 1.0, 1.0)));
    d.add_node(id, ViewNode::new(id, rect(5.0, 5.0, 1.0, 1.0)));
    assert_eq!(d.node_count(), 1);
    assert_eq!(d.get_node(id).unwrap().bounds, rect(5.0, 5.0, 1.0, 1.0));
}

#[test]
fn diagram_ids_are_unique() {
    let id1 = DiagramId::new();
    let id2 = DiagramId::new();
    assert_ne!(id1, id2);
}

#[test]
fn duplicate_copies_everything() {
    let mut d = Diagram::new("Copy", DiagramKind::Deployment);
    let id = UmlId::new();
    d.add_node(id, ViewNode::new(id, rect(1.0, 2.0, 3.0, 4.0)));
    let e = EdgeId::new();
    d.add_edge(e, ViewEdge::new(id, id, id, LineRouting::Spline));
    let c = d.duplicate();
    assert_eq!(c.id, d.id);
    assert_eq!(c.name, d.name);
    assert_eq!(c.kind, d.kind);
    assert_eq!(c.nodes, d.nodes);
    assert_eq!(c.edges, d.edges);
}

#[test]
fn diagram_kind_type_num_roundtrip() {
    let kinds = [
        DiagramKind::Class,
        DiagramKind::UseCase,
        DiagramKind::Sequence,
        DiagramKind::Collaboration,
        DiagramKind::State,
        DiagramKind::Activity,
        DiagramKind::Component,
        DiagramKind::Deployment,
        DiagramKind::EntityRelationship,
        DiagramKind::Object,
    ];
    for kind in &kinds {
        let num = kind.type_num();
        let restored = DiagramKind::from_type_num(num);
        assert_eq!(*kind, restored, "roundtrip failed for {kind:?} via num {num}");
    }
}

#[test]
fn diagram_kind_type_num_values() {
    assert_eq!(DiagramKind::Class.type_num(), 1);
    assert_eq!(DiagramKind::UseCase.type_num(), 2);
    assert_eq!(DiagramKind::Sequence.type_num(), 3);
    assert_eq!(DiagramKind::Collaboration.type_num(), 4);
    assert_eq!(DiagramKind::State.type_num(), 5);
    assert_eq!(DiagramKind::Activity.type_num(), 6);
    assert_eq!(DiagramKind::Component.type_num(), 7);
    assert_eq!(DiagramKind::Deployment.type_num(), 8);
    assert_eq!(DiagramKind::EntityRelationship.type_num(), 9);
    assert_eq!(DiagramKind::Object.type_num(), 10);
}

#[test]
fn diagram_kind_from_type_num_defaults() {
    assert_eq!(DiagramKind::from_type_num(0), DiagramKind::Class);
    assert_eq!(DiagramKind::from_type_num(99), DiagramKind::Class);
    assert_eq!(DiagramKind::from_type_num(-1), DiagramKind::Class);
}

#[test]
fn diagram_kind_all_from_type_num() {
    assert_eq!(DiagramKind::from_type_num(1), DiagramKind::Class);
    assert_eq!(DiagramKind::from_type_num(2), DiagramKind::UseCase);
    assert_eq!(DiagramKind::from_type_num(3), DiagramKind::Sequence);
    assert_eq!(DiagramKind::from_type_num(4), DiagramKind::Collaboration);
    assert_eq!(DiagramKind::from_type_num(5), DiagramKind::State);
    assert_eq!(DiagramKind::from_type_num(6), DiagramKind::Activity);
    assert_eq!(DiagramKind::from_type_num(7), DiagramKind::Component);
    assert_eq!(DiagramKind::from_type_num(8), DiagramKind::Deployment);
    assert_eq!(DiagramKind::from_type_num(9), DiagramKind::EntityRelationship);
    assert_eq!(DiagramKind::from_type_num(10), DiagramKind::Object);
}

#[test]
fn diagram_kind_names() {
    assert_eq!(DiagramKind::Class.as_str(), "Class");
    assert_eq!(DiagramKind::UseCase.as_str(), "UseCase");
    assert_eq!(DiagramKind::Deployment.as_str(), "Deployment");
}

#[test]
fn view_edge_creation() {
    let rel_id = UmlId::new();
    let src_id = UmlId::new();
    let tgt_id = UmlId::new();
    let edge = ViewEdge::new(rel_id, src_id, tgt_id, LineRouting::Orthogonal);
    assert_eq!(edge.relationship_id, rel_id);
    assert_eq!(edge.source_node_id, src_id);
    assert_eq!(edge.target_node_id, tgt_id);
    assert_eq!(edge.routing, LineRouting::Orthogonal);
    assert!(edge.waypoints.is_empty());
    assert!(edge.labels.is_empty());
}

#[test]
fn edge_ids_are_unique() {
    let id1 = EdgeId::new();
    let id2 = EdgeId::new();
    assert_ne!(id1, id2);
}

#[test]
fn edge_label_kinds() {
    assert_ne!(EdgeLabelKind::Name, EdgeLabelKind::SourceRole);
    assert_eq!(EdgeLabelKind::SourceMultiplicity, EdgeLabelKind::SourceMultiplicity);
}

#[test]
fn view_node_defaults() {
    let node = ViewNode::new(UmlId::new(), rect(0.0, 0.0, 100.0, 50.0));
    assert!(node.visible);
    assert_eq!(node.z_order, 0);
    assert_eq!(f64::from_bits(node.bounds.width()), 100.0);
}

#[test]
fn point_creation() {
    let p = Point::new(10.0f64.to_bits(), 20.0f64.to_bits());
    assert_eq!(f64::from_bits(p.x), 10.0);
    assert_eq!(f64::from_bits(p.y), 20.0);
}

#[test]
fn rect_creation() {
    let r = rect(5.0, 10.0, 100.0, 50.0);
    assert_eq!(f64::from_bits(r.x()), 5.0);
    assert_eq!(f64::from_bits(r.y()), 10.0);
    assert_eq!(f64::from_bits(r.width()), 100.0);
    assert_eq!(f64::from_bits(r.height()), 50.0);
}

#[test]
fn widget_ids_compare_by_value() {
    assert_eq!(WidgetId(3), WidgetId(3));
    assert_ne!(WidgetId(3), WidgetId(4));
}
