use umbrello::diagram::edge::{LineRouting, ViewEdge};
use umbrello::diagram::geometry::{Point, Rect, Size};
use umbrello::diagram::node::ViewNode;
use umbrello::diagram::{Diagram, DiagramKind};
use umbrello::elements::{
    Attribute, Class, ClassifierData, Datatype, Enum, Interface, ModelElement, Operation, Package,
    Parameter, Relationship, TemplateParameter, TypeReference,
};
use umbrello::id::{DiagramId, EdgeId, UmlId};
use umbrello::repository::UmlModel;
use umbrello::types::{AssociationType, ParameterDirection, Visibility};
use umbrello::undo::commands::{
    AddNodeToDiagram, ChangeDocumentation, ChangeElementFlags, ChangeVisibility, CreateDiagram,
    CreateEdge, CreateElement, CreateElementWithNode, DeleteElement, MoveElement, MoveNode,
    RemoveNodeFromDiagram, RenameElement, ResizeNode, UpdateClassifierFeatures,
    UpdateRelationship,
};
use umbrello::undo::history::{History, UndoCommand};
use umbrello::undo::{Command, CommandError};

fn pt(x: f64, y: f64) -> Point {
    Point::new(x.to_bits(), y.to_bits())
}

fn sz(w: f64, h: f64) -> Size {
    Size::new(w.to_bits(), h.to_bits())
}

fn rect(x: f64, y: f64, w: f64, h: f64) -> Rect {
    Rect::new(x.to_bits(), y.to_bits(), w.to_bits(), h.to_bits())
}

fn same_diagram(left: &Diagram, right: &Diagram) -> bool {
    left.id == right.id
        && left.name == right.name
        && left.kind == right.kind
        && left.zoom_percent == right.zoom_percent
        && left.nodes == right.nodes
        && left.edges == right.edges
}

#[test]
fn create_element_description() {
    let cmd = CreateElement::new(ModelElement::Class(Class::new("Person")));
    assert!(cmd.description().contains("Person"));
    assert!(cmd.description().contains("Create"));
}

#[test]
fn create_element_description_is_exact() {
    let cmd = CreateElement::new(ModelElement::Class(Class::new("Person")));
    assert_eq!(cmd.description(), "Create Class 'Person'");
}

#[test]
fn create_element_twice_is_rejected() {
    let mut model = UmlModel::new();
    let mut cmd = CreateElement::new(ModelElement::Class(Class::new("Once")));
    cmd.execute(&mut model).unwrap();
    let again = cmd.execute(&mut model);
    assert!(matches!(again, Err(CommandError::InvalidOperation(ref m)) if m == "CreateElement already executed"));
    assert_eq!(model.len(), 1);
}

#[test]
fn create_element_with_node_is_atomic_across_undo_redo() {
    let mut model = UmlModel::new();
    let diagram = Diagram::new("Main", DiagramKind::Class);
    let diagram_id = diagram.id;
    model.add_diagram(diagram);
    let element = ModelElement::Class(Class::new("Placed"));
    let element_id = element.id();
    let command =
        CreateElementWithNode::new(&model, diagram_id, element, pt(10.0, 20.0), sz(160.0, 60.0))
            .unwrap();
    let mut history = History::new(10);
    history.execute(UndoCommand::CreateElementWithNode(command), &mut model).unwrap();
    assert!(model.contains(element_id));
    assert!(model.diagrams()[0].get_node(element_id).is_some());
    history.undo(&mut model).unwrap();
    assert!(!model.contains(element_id));
    assert!(model.diagrams()[0].get_node(element_id).is_none());
    history.redo(&mut model).unwrap();
    assert!(model.contains(element_id));
    assert!(model.diagrams()[0].get_node(element_id).is_some());
}

#[test]
fn create_element_with_node_rejects_invalid_diagram_without_mutation() {
    let model = UmlModel::new();
    let element = ModelElement::Class(Class::new("Unplaced"));
    let element_id = element.id();
    let result =
        CreateElementWithNode::new(&model, DiagramId::new(), element, pt(0.0, 0.0), sz(160.0, 60.0));
    assert!(result.is_err());
    assert!(!model.contains(element_id));
    assert!(model.diagrams().is_empty());
}

#[test]
fn create_element_with_node_places_node_with_bounds() {
    let mut model = UmlModel::new();
    let diagram = Diagram::new("Main", DiagramKind::Class);
    let diagram_id = diagram.id;
    model.add_diagram(diagram);
    let element = ModelElement::Class(Class::new("Placed"));
    let element_id = element.id();
    let mut command =
        CreateElementWithNode::new(&model, diagram_id, element, pt(10.0, 20.0), sz(160.0, 60.0))
            .unwrap();
    assert_eq!(command.description(), "Create Class with node");
    command.execute(&mut model).unwrap();
    let node = model.get_diagram(diagram_id).unwrap().get_node(element_id).unwrap();
    assert_eq!(node.bounds, rect(10.0, 20.0, 160.0, 60.0));
    assert_eq!(node.model_element_id, element_id);
}

#[test]
fn create_element_with_node_rejects_existing_node() {
    let mut model = UmlModel::new();
    let mut diagram = Diagram::new("Main", DiagramKind::Class);
    let element = ModelElement::Class(Class::new("Shown"));
    let element_id = element.id();
    diagram.add_node(element_id, ViewNode::new(element_id, rect(0.0, 0.0, 1.0, 1.0)));
    let diagram_id = diagram.id;
    model.add_diagram(diagram);
    let result = CreateElementWithNode::new(&model, diagram_id, element, pt(0.0, 0.0), sz(1.0, 1.0));
    assert!(matches!(result, Err(CommandError::InvalidOperation(ref m)) if m == "diagram already contains a node for element"));
}

#[test]
fn delete_element_from_model() {
    let mut model = UmlModel::new();
    let cls = ModelElement::Class(Class::new("Test"));
    let id = cls.id();
    model.insert(cls);

    let mut cmd = DeleteElement::new(&model, id).unwrap();
    cmd.execute(&mut model).unwrap();
    assert!(!model.contains(id));
    cmd.undo(&mut model).unwrap();
    assert!(model.contains(id));
}

#[test]
fn delete_element_missing_is_not_found() {
    let model = UmlModel::new();
    let id = UmlId::new();
    assert!(matches!(DeleteElement::new(&model, id), Err(CommandError::ElementNotFound(x)) if x == id));
}

#[test]
fn rename_element_roundtrip() {
    let mut model = UmlModel::new();
    let cls = ModelElement::Class(Class::new("Original"));
    let id = cls.id();
    model.insert(cls);

    let mut cmd = RenameElement::new(&model, id, "NewName".into()).unwrap();
    cmd.execute(&mut model).unwrap();
    assert_eq!(model.get(id).unwrap().name(), "NewName");

    cmd.undo(&mut model).unwrap();
    assert_eq!(model.get(id).unwrap().name(), "Original");
}

#[test]
fn rename_element_description() {
    let mut model = UmlModel::new();
    let cls = ModelElement::Class(Class::new("Original"));
    let id = cls.id();
    model.insert(cls);
    let cmd = RenameElement::new(&model, id, "NewName".into()).unwrap();
    assert_eq!(cmd.description(), "Rename 'Original' → 'NewName'");
}

#[test]
fn move_element_between_packages() {
    let mut model = UmlModel::new();

    let pkg1 = ModelElement::Package(Package::new("Pkg1"));
    let pkg1_id = pkg1.id();
    model.insert(pkg1);

    let pkg2 = ModelElement::Package(Package::new("Pkg2"));
    let pkg2_id = pkg2.id();
    model.insert(pkg2);

    let cls = ModelElement::Class(Class::new("Thing"));
    let cls_id = cls.id();
    model.insert(cls);
    model.add_to_package(pkg1_id, cls_id).unwrap();

    let mut cmd = MoveElement::new(&model, cls_id, Some(pkg2_id)).unwrap();
    cmd.execute(&mut model).unwrap();
    assert_eq!(model.parents_of(cls_id), Some(&[pkg2_id][..]));

    cmd.undo(&mut model).unwrap();
    assert_eq!(model.parents_of(cls_id), Some(&[pkg1_id][..]));
}

#[test]
fn move_element_description_names_destination() {
    let mut model = UmlModel::new();
    let pkg = ModelElement::Package(Package::new("Dest"));
    let pkg_id = pkg.id();
    model.insert(pkg);
    let cls = ModelElement::Class(Class::new("Thing"));
    let cls_id = cls.id();
    model.insert(cls);
    let to_pkg = MoveElement::new(&model, cls_id, Some(pkg_id)).unwrap();
    assert_eq!(to_pkg.description(), "Move 'Thing' to 'Dest'");
    let to_root = MoveElement::new(&model, cls_id, None).unwrap();
    assert_eq!(to_root.description(), "Move 'Thing' to 'root'");
}

#[test]
fn change_visibility_execute() {
    let mut model = UmlModel::new();
    let cls = ModelElement::Class(Class::new("Test"));
    let id = cls.id();
    model.insert(cls);

    let mut cmd = ChangeVisibility::new(&model, id, Visibility::Private).unwrap();
    assert_eq!(model.get(id).unwrap().base().visibility, Visibility::Public);
    cmd.execute(&mut model).unwrap();
    assert_eq!(model.get(id).unwrap().base().visibility, Visibility::Private);
}

#[test]
fn change_visibility_undo() {
    let mut model = UmlModel::new();
    let cls = ModelElement::Class(Class::new("Test"));
    let id = cls.id();
    model.insert(cls);

    let mut cmd = ChangeVisibility::new(&model, id, Visibility::Private).unwrap();
    cmd.execute(&mut model).unwrap();
    assert_eq!(model.get(id).unwrap().base().visibility, Visibility::Private);

    cmd.undo(&mut model).unwrap();
    assert_eq!(model.get(id).unwrap().base().visibility, Visibility::Public);
}

#[test]
fn change_visibility_new_element_not_found() {
    let model = UmlModel::new();
    let id = UmlId::new();
    let result = ChangeVisibility::new(&model, id, Visibility::Private);
    assert!(result.is_err());
    assert!(matches!(result, Err(CommandError::ElementNotFound(_))));
}

#[test]
fn change_visibility_description() {
    let mut model = UmlModel::new();
    let cls = ModelElement::Class(Class::new("Test"));
    let id = cls.id();
    model.insert(cls);
    let cmd = ChangeVisibility::new(&model, id, Visibility::Private).unwrap();
    assert_eq!(cmd.description(), "Change visibility of 'Test': public → private");
}

#[test]
fn change_flags_execute() {
    let mut model = UmlModel::new();
    let cls = ModelElement::Class(Class::new("Test"));
    let id = cls.id();
    model.insert(cls);

    let mut cmd = ChangeElementFlags::new(&model, id, true, true).unwrap();
    let base = model.get(id).unwrap().base();
    assert!(!base.is_abstract);
    assert!(!base.is_static);

    cmd.execute(&mut model).unwrap();
    let base = model.get(id).unwrap().base();
    assert!(base.is_abstract);
    assert!(base.is_static);
}

#[test]
fn change_flags_undo() {
    let mut model = UmlModel::new();
    let cls = ModelElement::Class(Class::new("Test"));
    let id = cls.id();
    model.insert(cls);

    let mut cmd = ChangeElementFlags::new(&model, id, true, true).unwrap();
    cmd.execute(&mut model).unwrap();

    cmd.undo(&mut model).unwrap();
    let base = model.get(id).unwrap().base();
    assert!(!base.is_abstract);
    assert!(!base.is_static);
}

#[test]
fn change_flags_new_element_not_found() {
    let model = UmlModel::new();
    let id = UmlId::new();
    let result = ChangeElementFlags::new(&model, id, true, true);
    assert!(result.is_err());
    assert!(matches!(result, Err(CommandError::ElementNotFound(_))));
}

#[test]
fn change_flags_description() {
    let mut model = UmlModel::new();
    let cls = ModelElement::Class(Class::new("Test"));
    let id = cls.id();
    model.insert(cls);
    let cmd = ChangeElementFlags::new(&model, id, true, false).unwrap();
    assert_eq!(cmd.description(), "Set flags of 'Test': abstract=true, static=false");
}

#[test]
fn change_documentation_execute() {
    let mut model = UmlModel::new();
    let cls = ModelElement::Class(Class::new("Test"));
    let id = cls.id();
    model.insert(cls);

    let mut cmd = ChangeDocumentation::new(&model, id, "A test class".into()).unwrap();
    assert_eq!(model.get(id).unwrap().base().documentation, "");

    cmd.execute(&mut model).unwrap();
    assert_eq!(model.get(id).unwrap().base().documentation, "A test class");
}

#[test]
fn change_documentation_undo() {
    let mut model = UmlModel::new();
    let cls = ModelElement::Class(Class::new("Test"));
    let id = cls.id();
    model.insert(cls);

    let mut cmd = ChangeDocumentation::new(&model, id, "A test class".into()).unwrap();
    cmd.execute(&mut model).unwrap();
    assert_eq!(model.get(id).unwrap().base().documentation, "A test class");

    cmd.undo(&mut model).unwrap();
    assert_eq!(model.get(id).unwrap().base().documentation, "");
}

#[test]
fn change_documentation_new_element_not_found() {
    let model = UmlModel::new();
    let id = UmlId::new();
    let result = ChangeDocumentation::new(&model, id, "test".into());
    assert!(result.is_err());
    assert!(matches!(result, Err(CommandError::ElementNotFound(_))));
}

fn setup_model_with_two_nodes() -> (UmlModel, DiagramId, UmlId, UmlId) {
    let mut model = UmlModel::new();
    let diagram = Diagram::new("Test", DiagramKind::Class);
    let diagram_id = diagram.id;
    model.add_diagram(diagram);

    let cls1 = ModelElement::Class(Class::new("ClassA"));
    let src_id = cls1.id();
    model.insert(cls1);

    let cls2 = ModelElement::Class(Class::new("ClassB"));
    let tgt_id = cls2.id();
    model.insert(cls2);

    let d = model.get_diagram_mut(diagram_id).unwrap();
    d.add_node(src_id, ViewNode::new(src_id, rect(0.0, 0.0, 100.0, 60.0)));
    d.add_node(tgt_id, ViewNode::new(tgt_id, rect(200.0, 0.0, 100.0, 60.0)));

    (model, diagram_id, src_id, tgt_id)
}

#[test]
fn create_edge_execute_generalization() {
    let (mut model, diagram_id, src_id, tgt_id) = setup_model_with_two_nodes();

    let mut cmd = CreateEdge::new(diagram_id, src_id, tgt_id, AssociationType::Generalization);
    cmd.execute(&mut model).unwrap();

    assert!(model.contains(cmd.relationship_id()));
    let rel = model.get(cmd.relationship_id()).unwrap();
    if let ModelElement::Relationship(r) = rel {
        assert_eq!(r.kind, AssociationType::Generalization);
        assert_eq!(r.source_id, src_id);
        assert_eq!(r.target_id, tgt_id);
    } else {
        panic!("Expected Relationship");
    }

    let d = model.get_diagram(diagram_id).unwrap();
    assert!(d.get_edge(cmd.edge_id()).is_some());
    let edge = d.get_edge(cmd.edge_id()).unwrap();
    assert_eq!(edge.relationship_id, cmd.relationship_id());
    assert_eq!(edge.source_node_id, src_id);
    assert_eq!(edge.target_node_id, tgt_id);
    assert_eq!(edge.routing, LineRouting::Direct);
}

#[test]
fn create_edge_undo_generalization() {
    let (mut model, diagram_id, src_id, tgt_id) = setup_model_with_two_nodes();

    let mut cmd = CreateEdge::new(diagram_id, src_id, tgt_id, AssociationType::Generalization);
    let rel_id = cmd.relationship_id();
    let edge_id = cmd.edge_id();

    cmd.execute(&mut model).unwrap();
    assert!(model.contains(rel_id));
    assert!(model.get_diagram(diagram_id).unwrap().get_edge(edge_id).is_some());

    cmd.undo(&mut model).unwrap();
    assert!(!model.contains(rel_id));
    assert!(model.get_diagram(diagram_id).unwrap().get_edge(edge_id).is_none());
}

#[test]
fn create_edge_execute_all_kinds() {
    let kinds = [
        AssociationType::Generalization,
        AssociationType::Realization,
        AssociationType::Association,
        AssociationType::Aggregation,
        AssociationType::Composition,
        AssociationType::Dependency,
    ];

    for kind in &kinds {
        let (mut model, diagram_id, src_id, tgt_id) = setup_model_with_two_nodes();

        let mut cmd = CreateEdge::new(diagram_id, src_id, tgt_id, *kind);
        cmd.execute(&mut model).unwrap();

        let rel = model.get(cmd.relationship_id()).unwrap();
        if let ModelElement::Relationship(r) = rel {
            assert_eq!(r.kind, *kind, "kind mismatch for {kind:?}");
        } else {
            panic!("Expected Relationship for {kind:?}");
        }

        let d = model.get_diagram(diagram_id).unwrap();
        assert!(d.get_edge(cmd.edge_id()).is_some(), "edge not found for {kind:?}");
    }
}

#[test]
fn create_edge_diagram_not_found() {
    let mut model = UmlModel::new();
    let bad_id = DiagramId::new();
    let src_id = UmlId::new();
    let tgt_id = UmlId::new();

    let mut cmd = CreateEdge::new(bad_id, src_id, tgt_id, AssociationType::Association);
    let result = cmd.execute(&mut model);
    assert!(result.is_err());
    assert!(matches!(result, Err(CommandError::InvalidOperation(_))));
}

#[test]
fn create_edge_description() {
    let cmd =
        CreateEdge::new(DiagramId::new(), UmlId::new(), UmlId::new(), AssociationType::Generalization);
    assert!(cmd.description().contains("Generalization"));

    let cmd = CreateEdge::new(DiagramId::new(), UmlId::new(), UmlId::new(), AssociationType::Dependency);
    assert!(cmd.description().contains("Dependency"));
}

#[test]
fn create_edge_undo_then_redo() {
    let (mut model, diagram_id, src_id, tgt_id) = setup_model_with_two_nodes();

    let mut cmd = CreateEdge::new(diagram_id, src_id, tgt_id, AssociationType::Association);
    let rel_id = cmd.relationship_id();
    let edge_id = cmd.edge_id();

    cmd.execute(&mut model).unwrap();
    assert!(model.contains(rel_id));
    assert!(model.get_diagram(diagram_id).unwrap().get_edge(edge_id).is_some());

    cmd.undo(&mut model).unwrap();
    assert!(!model.contains(rel_id));
    assert!(model.get_diagram(diagram_id).unwrap().get_edge(edge_id).is_none());

    cmd.execute(&mut model).unwrap();
    assert!(model.contains(rel_id));
    assert!(model.get_diagram(diagram_id).unwrap().get_edge(edge_id).is_some());
}

#[test]
fn create_diagram_preserves_snapshot_and_insertion_position() {
    let mut model = UmlModel::new();
    let first = Diagram::new("First", DiagramKind::Class);
    let last = Diagram::new("Last", DiagramKind::Deployment);
    model.add_diagram(first.duplicate());
    model.add_diagram(last.duplicate());

    let mut created = Diagram::new("Created", DiagramKind::Component);
    created.set_zoom_percent(250.0f64.to_bits());
    let node_id = UmlId::new();
    created.add_node(node_id, ViewNode::new(node_id, rect(1.0, 2.0, 3.0, 4.0)));
    let edge_id = EdgeId::new();
    created.add_edge(edge_id, ViewEdge::new(node_id, node_id, node_id, LineRouting::Direct));
    let created_id = created.id;
    let snapshot = created.duplicate();
    let mut command = CreateDiagram::new_at(&model, created, 1).unwrap();

    command.execute(&mut model).unwrap();
    assert_eq!(model.diagrams()[1].id, created_id);
    assert!(same_diagram(&model.diagrams()[1], &snapshot));
    command.undo(&mut model).unwrap();
    assert_eq!(model.diagrams().len(), 2);
    assert!(same_diagram(&model.diagrams()[0], &first));
    assert!(same_diagram(&model.diagrams()[1], &last));
    command.execute(&mut model).unwrap();
    assert_eq!(model.diagrams()[1].id, created_id);
    assert!(same_diagram(&model.diagrams()[1], &snapshot));
}

#[test]
fn create_diagram_failure_is_atomic_and_repeated_transitions_are_rejected() {
    let mut model = UmlModel::new();
    let existing = Diagram::new("Existing", DiagramKind::Class);
    let existing_id = existing.id;
    model.add_diagram(existing.duplicate());
    let duplicate = CreateDiagram::new(&model, Diagram::new("New", DiagramKind::Class));
    assert!(duplicate.is_ok());

    let mut command = CreateDiagram::new_at(&model, Diagram::new("New", DiagramKind::Class), 1).unwrap();
    command.execute(&mut model).unwrap();
    assert!(command.execute(&mut model).is_err());
    command.undo(&mut model).unwrap();
    assert!(command.undo(&mut model).is_err());
    assert_eq!(model.diagrams().len(), 1);
    assert!(same_diagram(&model.diagrams()[0], &existing));
    assert_eq!(model.diagrams()[0].id, existing_id);
}

#[test]
fn create_diagram_rejects_out_of_range_and_duplicate_id() {
    let mut model = UmlModel::new();
    let existing = Diagram::new("Existing", DiagramKind::Class);
    let copy = existing.duplicate();
    model.add_diagram(existing);
    let out_of_range = CreateDiagram::new_at(&model, Diagram::new("Far", DiagramKind::Class), 2);
    assert!(matches!(out_of_range, Err(CommandError::InvalidOperation(ref m)) if m == "diagram insertion position is out of range"));
    let same_id = CreateDiagram::new(&model, copy);
    assert!(matches!(same_id, Err(CommandError::InvalidOperation(ref m)) if m == "diagram ID already exists"));
}

#[test]
fn create_diagram_undo_accepts_non_history_zoom_and_redo_restores_it() {
    let mut model = UmlModel::new();
    let diagram = Diagram::new("Zoomed", DiagramKind::Class);
    let diagram_id = diagram.id;
    let mut history = History::new(10);
    history
        .execute(UndoCommand::CreateDiagram(CreateDiagram::new(&model, diagram).unwrap()), &mut model)
        .unwrap();

    model.get_diagram_mut(diagram_id).unwrap().set_zoom_percent(275.0f64.to_bits());
    history.undo(&mut model).unwrap();
    assert!(model.get_diagram(diagram_id).is_none());
    history.redo(&mut model).unwrap();
    let restored = model.get_diagram(diagram_id).unwrap();
    assert_eq!(restored.id, diagram_id);
    assert!((f64::from_bits(restored.zoom_percent()) - 275.0).abs() < f64::EPSILON);
}

fn relationship_fixture() -> (UmlModel, UmlId, UmlId, UmlId) {
    let mut model = UmlModel::new();
    let source = ModelElement::Class(Class::new("Source"));
    let source_id = source.id();
    let target = ModelElement::Class(Class::new("Target"));
    let target_id = target.id();
    model.insert(source);
    model.insert(target);
    let relationship = Relationship::new_association(source_id, target_id);
    let relationship_id = relationship.base.id;
    model.insert(ModelElement::Relationship(relationship));
    (model, relationship_id, source_id, target_id)
}

#[test]
fn update_relationship_covers_editable_fields_and_roundtrip() {
    let (mut model, relationship_id, source_id, target_id) = relationship_fixture();
    let original_xmi_id = "xmi-rel".to_string();
    if let ModelElement::Relationship(relationship) = model.get_mut(relationship_id).unwrap() {
        relationship.base.original_xmi_id = Some(original_xmi_id.clone());
    }
    let mut replacement = Relationship::new(AssociationType::Composition, source_id, target_id);
    replacement.base.id = relationship_id;
    replacement.base.name = "owns".into();
    replacement.base.documentation = "owned relationship".into();
    replacement.source_role_name = Some("whole".into());
    replacement.target_role_name = Some("part".into());
    replacement.source_multiplicity = Some("1".into());
    replacement.target_multiplicity = Some("0..*".into());
    replacement.source_to_target_navigable = true;
    replacement.target_to_source_navigable = true;

    let mut command = UpdateRelationship::new(&model, relationship_id, replacement).unwrap();
    command.execute(&mut model).unwrap();
    let ModelElement::Relationship(updated) = model.get(relationship_id).unwrap() else {
        panic!("expected relationship");
    };
    assert_eq!(updated.kind, AssociationType::Composition);
    assert_eq!(updated.base.name, "owns");
    assert_eq!(updated.base.documentation, "owned relationship");
    assert_eq!(updated.source_role_name.as_deref(), Some("whole"));
    assert_eq!(updated.target_role_name.as_deref(), Some("part"));
    assert_eq!(updated.source_multiplicity.as_deref(), Some("1"));
    assert_eq!(updated.target_multiplicity.as_deref(), Some("0..*"));
    assert!(updated.source_to_target_navigable && updated.target_to_source_navigable);
    assert_eq!(updated.base.original_xmi_id.as_deref(), Some(original_xmi_id.as_str()));

    command.undo(&mut model).unwrap();
    let ModelElement::Relationship(restored) = model.get(relationship_id).unwrap() else {
        panic!("expected relationship");
    };
    assert_eq!(restored.kind, AssociationType::Association);
    assert_eq!(restored.source_id, source_id);
    assert_eq!(restored.target_id, target_id);
    assert_eq!(restored.base.original_xmi_id.as_deref(), Some(original_xmi_id.as_str()));
    command.execute(&mut model).unwrap();
    assert_eq!(model.get(relationship_id).unwrap().base().name, "owns");
}

#[test]
fn update_relationship_rejects_invalid_snapshots_atomically() {
    let (mut model, relationship_id, source_id, target_id) = relationship_fixture();
    let before = model.get(relationship_id).unwrap().clone();
    let mut replacement = Relationship::new_association(source_id, target_id);
    replacement.base.id = UmlId::new();
    assert!(UpdateRelationship::new(&model, relationship_id, replacement).is_err());
    assert_eq!(model.get(relationship_id).unwrap(), &before);

    let non_relationship = ModelElement::Class(Class::new("Not a relationship"));
    let non_relationship_id = non_relationship.id();
    model.insert(non_relationship);
    let replacement = Relationship::new_association(source_id, target_id);
    assert!(UpdateRelationship::new(&model, non_relationship_id, replacement).is_err());

    let missing_id = UmlId::new();
    assert!(
        UpdateRelationship::new(&model, missing_id, Relationship::new_association(source_id, target_id))
            .is_err()
    );
    assert_eq!(model.get(relationship_id).unwrap(), &before);
}

#[test]
fn update_relationship_rejects_repeated_transitions_without_mutation() {
    let (mut model, relationship_id, source_id, target_id) = relationship_fixture();
    let mut replacement = Relationship::new_dependency(source_id, target_id);
    replacement.base.id = relationship_id;
    replacement.base.name = "uses".into();
    let mut command = UpdateRelationship::new(&model, relationship_id, replacement).unwrap();
    command.execute(&mut model).unwrap();
    let applied = model.get(relationship_id).unwrap().clone();
    assert!(command.execute(&mut model).is_err());
    assert_eq!(model.get(relationship_id).unwrap(), &applied);
    command.undo(&mut model).unwrap();
    let undone = model.get(relationship_id).unwrap().clone();
    assert!(command.undo(&mut model).is_err());
    assert_eq!(model.get(relationship_id).unwrap(), &undone);
}

#[test]
fn update_relationship_rejects_externally_modified_relationship() {
    let (mut model, relationship_id, source_id, target_id) = relationship_fixture();
    let mut replacement = Relationship::new_dependency(source_id, target_id);
    replacement.base.id = relationship_id;
    let mut command = UpdateRelationship::new(&model, relationship_id, replacement).unwrap();
    model.get_mut(relationship_id).unwrap().set_name("changed".into());
    let result = command.execute(&mut model);
    assert!(matches!(result, Err(CommandError::InvalidOperation(ref m)) if m == "relationship was modified externally"));
}

fn classifier_fixture() -> (UmlModel, UmlId) {
    let mut model = UmlModel::new();
    let mut cls = Class::new("Person");
    cls.classifier.add_attribute(Attribute {
        name: "name".into(),
        type_ref: TypeReference::primitive("String"),
        visibility: Visibility::Private,
        initial_value: None,
        is_static: false,
    });
    cls.classifier.add_operation(Operation {
        name: "getName".into(),
        return_type: TypeReference::primitive("String"),
        parameters: vec![],
        visibility: Visibility::Public,
        is_static: false,
        is_abstract: false,
        is_virtual: true,
    });
    let id = cls.base.id;
    model.insert(ModelElement::Class(cls));
    (model, id)
}

fn rich_classifier_data() -> ClassifierData {
    ClassifierData {
        attributes: vec![
            Attribute {
                name: "count".into(),
                type_ref: TypeReference::primitive("int"),
                visibility: Visibility::Private,
                initial_value: Some("0".into()),
                is_static: true,
            },
            Attribute {
                name: "label".into(),
                type_ref: TypeReference::unspecified(),
                visibility: Visibility::Public,
                initial_value: None,
                is_static: false,
            },
        ],
        operations: vec![
            Operation {
                name: "increment".into(),
                return_type: TypeReference::primitive("void"),
                parameters: vec![Parameter {
                    name: "delta".into(),
                    type_ref: TypeReference::primitive("int"),
                    direction: ParameterDirection::In,
                    default_value: Some("1".into()),
                }],
                visibility: Visibility::Public,
                is_static: false,
                is_abstract: false,
                is_virtual: false,
            },
            Operation {
                name: "reset".into(),
                return_type: TypeReference::unspecified(),
                parameters: vec![],
                visibility: Visibility::Protected,
                is_static: true,
                is_abstract: false,
                is_virtual: false,
            },
        ],
        templates: vec![],
    }
}

#[test]
fn update_classifier_features_constructs_for_all_classifier_types() {
    let mut model = UmlModel::new();
    let cls_el = ModelElement::Class(Class::new("C"));
    let cls_id = cls_el.id();
    model.insert(cls_el);
    let iface_el = ModelElement::Interface(Interface::new("I"));
    let iface_id = iface_el.id();
    model.insert(iface_el);
    let enum_el = ModelElement::Enum(Enum::new("E"));
    let enum_id = enum_el.id();
    model.insert(enum_el);
    let dt_el = ModelElement::Datatype(Datatype::new("D"));
    let dt_id = dt_el.id();
    model.insert(dt_el);

    let data = ClassifierData::new();
    for &cid in &[cls_id, iface_id, enum_id, dt_id] {
        let cmd = UpdateClassifierFeatures::new(&model, cid, data.clone());
        assert!(cmd.is_ok(), "should accept {cid:?}");
    }
}

#[test]
fn update_classifier_features_rejects_missing_id() {
    let model = UmlModel::new();
    let result = UpdateClassifierFeatures::new(&model, UmlId::new(), ClassifierData::new());
    assert!(result.is_err());
    assert!(matches!(result, Err(CommandError::ElementNotFound(_))));
}

#[test]
fn update_classifier_features_rejects_non_classifier() {
    let mut model = UmlModel::new();
    let pkg = ModelElement::Package(Package::new("Pkg"));
    let pkg_id = pkg.id();
    model.insert(pkg);
    let result = UpdateClassifierFeatures::new(&model, pkg_id, ClassifierData::new());
    assert!(result.is_err());
    assert!(matches!(result, Err(CommandError::InvalidOperation(_))));
}

#[test]
fn update_classifier_features_rejects_template_change() {
    let (model, id) = classifier_fixture();
    let mut modified = ClassifierData::new();
    modified.templates.push(TemplateParameter { name: "T".into(), constraint: None });
    let result = UpdateClassifierFeatures::new(&model, id, modified);
    assert!(result.is_err());
    assert!(matches!(result, Err(CommandError::InvalidOperation(_))));
}

#[test]
fn update_classifier_features_execute_replaces_features() {
    let (mut model, id) = classifier_fixture();
    let replacement = rich_classifier_data();
    let before = model.get(id).unwrap().classifier_data().unwrap().clone();

    let mut cmd = UpdateClassifierFeatures::new(&model, id, replacement.clone()).unwrap();
    cmd.execute(&mut model).unwrap();

    let current = model.get(id).unwrap().classifier_data().unwrap();
    assert_eq!(current, &replacement, "features should match replacement");
    assert_ne!(current, &before, "features should differ from original");
}

#[test]
fn update_classifier_features_undo_restores_original() {
    let (mut model, id) = classifier_fixture();
    let before = model.get(id).unwrap().classifier_data().unwrap().clone();

    let mut cmd = UpdateClassifierFeatures::new(&model, id, rich_classifier_data()).unwrap();
    cmd.execute(&mut model).unwrap();
    cmd.undo(&mut model).unwrap();

    let current = model.get(id).unwrap().classifier_data().unwrap();
    assert_eq!(current, &before, "undo should restore original features");
}

#[test]
fn update_classifier_features_full_roundtrip() {
    let (mut model, id) = classifier_fixture();
    let replacement = rich_classifier_data();
    let original = model.get(id).unwrap().classifier_data().unwrap().clone();

    let mut cmd = UpdateClassifierFeatures::new(&model, id, replacement.clone()).unwrap();

    cmd.execute(&mut model).unwrap();
    assert_eq!(model.get(id).unwrap().classifier_data().unwrap(), &replacement);

    cmd.undo(&mut model).unwrap();
    assert_eq!(model.get(id).unwrap().classifier_data().unwrap(), &original);

    cmd.execute(&mut model).unwrap();
    assert_eq!(model.get(id).unwrap().classifier_data().unwrap(), &replacement);
}

#[test]
fn update_classifier_features_rejects_stale_snapshot_on_execute() {
    let (mut model, id) = classifier_fixture();

    let mut cmd = UpdateClassifierFeatures::new(&model, id, rich_classifier_data()).unwrap();

    if let Some(data) = model.get_mut(id).unwrap().classifier_data_mut() {
        data.attributes.push(Attribute {
            name: "sneaky".into(),
            type_ref: TypeReference::primitive("int"),
            visibility: Visibility::Public,
            initial_value: None,
            is_static: false,
        });
    }

    let result = cmd.execute(&mut model);
    assert!(result.is_err());
    assert!(matches!(result, Err(CommandError::InvalidOperation(_))));
}

#[test]
fn update_classifier_features_rejects_stale_snapshot_on_undo() {
    let (mut model, id) = classifier_fixture();
    let replacement = rich_classifier_data();

    let mut cmd = UpdateClassifierFeatures::new(&model, id, replacement.clone()).unwrap();
    cmd.execute(&mut model).unwrap();

    if let Some(data) = model.get_mut(id).unwrap().classifier_data_mut() {
        data.operations.push(Operation {
            name: "hack".into(),
            return_type: TypeReference::unspecified(),
            parameters: vec![],
            visibility: Visibility::Private,
            is_static: false,
            is_abstract: false,
            is_virtual: false,
        });
    }

    let result = cmd.undo(&mut model);
    assert!(result.is_err());
    assert!(matches!(result, Err(CommandError::InvalidOperation(_))));
}

#[test]
fn update_classifier_features_rejects_repeated_execute() {
    let (mut model, id) = classifier_fixture();

    let mut cmd = UpdateClassifierFeatures::new(&model, id, rich_classifier_data()).unwrap();
    cmd.execute(&mut model).unwrap();
    let applied = model.get(id).unwrap().classifier_data().unwrap().clone();

    assert!(cmd.execute(&mut model).is_err());
    assert_eq!(model.get(id).unwrap().classifier_data().unwrap(), &applied);
}

#[test]
fn update_classifier_features_rejects_undo_without_execute() {
    let (model, id) = classifier_fixture();
    let data = rich_classifier_data();

    let mut cmd = UpdateClassifierFeatures::new(&model, id, data).unwrap();
    let mut model = model;
    assert!(cmd.undo(&mut model).is_err());
    assert!(matches!(cmd.undo(&mut model), Err(CommandError::InvalidOperation(_))));
}

#[test]
fn update_classifier_features_preserves_all_field_values_across_roundtrip() {
    let (mut model, id) = classifier_fixture();
    let replacement = rich_classifier_data();

    let mut cmd = UpdateClassifierFeatures::new(&model, id, replacement.clone()).unwrap();

    cmd.execute(&mut model).unwrap();
    let after_execute = model.get(id).unwrap().classifier_data().unwrap().clone();

    assert_eq!(after_execute.attributes.len(), 2);
    assert_eq!(after_execute.attributes[0].name, "count");
    assert_eq!(after_execute.attributes[0].type_ref, TypeReference::primitive("int"));
    assert_eq!(after_execute.attributes[0].visibility, Visibility::Private);
    assert_eq!(after_execute.attributes[0].initial_value, Some("0".to_string()));
    assert!(after_execute.attributes[0].is_static);

    assert_eq!(after_execute.attributes[1].name, "label");
    assert_eq!(after_execute.attributes[1].type_ref, TypeReference::unspecified());
    assert_eq!(after_execute.attributes[1].visibility, Visibility::Public);
    assert_eq!(after_execute.attributes[1].initial_value, None);
    assert!(!after_execute.attributes[1].is_static);

    assert_eq!(after_execute.operations.len(), 2);
    assert_eq!(after_execute.operations[0].name, "increment");
    assert_eq!(after_execute.operations[0].return_type, TypeReference::primitive("void"));
    assert_eq!(after_execute.operations[0].visibility, Visibility::Public);
    assert!(!after_execute.operations[0].is_static);
    assert!(!after_execute.operations[0].is_abstract);
    assert!(!after_execute.operations[0].is_virtual);
    assert_eq!(after_execute.operations[0].parameters.len(), 1);
    assert_eq!(after_execute.operations[0].parameters[0].name, "delta");
    assert_eq!(after_execute.operations[0].parameters[0].type_ref, TypeReference::primitive("int"));
    assert_eq!(after_execute.operations[0].parameters[0].direction, ParameterDirection::In);
    assert_eq!(after_execute.operations[0].parameters[0].default_value, Some("1".to_string()));

    assert_eq!(after_execute.operations[1].name, "reset");
    assert_eq!(after_execute.operations[1].return_type, TypeReference::unspecified());
    assert_eq!(after_execute.operations[1].visibility, Visibility::Protected);
    assert!(after_execute.operations[1].is_static);

    assert!(after_execute.templates.is_empty());

    cmd.undo(&mut model).unwrap();
    let after_undo = model.get(id).unwrap().classifier_data().unwrap().clone();
    assert_eq!(after_undo.attributes.len(), 1);
    assert_eq!(after_undo.attributes[0].name, "name");
    assert_eq!(after_undo.operations.len(), 1);
    assert_eq!(after_undo.operations[0].name, "getName");

    cmd.execute(&mut model).unwrap();
    let after_redo = model.get(id).unwrap().classifier_data().unwrap().clone();
    assert_eq!(after_redo, replacement);
}

#[test]
fn update_classifier_features_works_through_history() {
    let mut model = UmlModel::new();
    let cls = Class::new("Service");
    let id = cls.base.id;
    model.insert(ModelElement::Class(cls));

    let mut history = History::new(10);
    let replacement = ClassifierData {
        attributes: vec![Attribute {
            name: "port".into(),
            type_ref: TypeReference::primitive("u16"),
            visibility: Visibility::Private,
            initial_value: Some("8080".into()),
            is_static: false,
        }],
        operations: vec![],
        templates: vec![],
    };

    let cmd = UpdateClassifierFeatures::new(&model, id, replacement.clone()).unwrap();
    history.execute(UndoCommand::UpdateClassifierFeatures(cmd), &mut model).unwrap();

    assert_eq!(model.get(id).unwrap().classifier_data().unwrap(), &replacement);

    history.undo(&mut model).unwrap();
    let after_undo = model.get(id).unwrap().classifier_data().unwrap();
    assert!(after_undo.attributes.is_empty());
    assert!(after_undo.operations.is_empty());

    history.redo(&mut model).unwrap();
    assert_eq!(model.get(id).unwrap().classifier_data().unwrap(), &replacement);
}

#[test]
fn add_node_then_undo_removes_it() {
    let mut model = UmlModel::new();
    let diagram = Diagram::new("D", DiagramKind::Class);
    let diagram_id = diagram.id;
    model.add_diagram(diagram);
    let id = UmlId::new();
    let mut cmd = AddNodeToDiagram::new(diagram_id, id, pt(1.0, 2.0), sz(3.0, 4.0));
    assert_eq!(cmd.description(), "Add node to diagram");
    cmd.execute(&mut model).unwrap();
    assert_eq!(model.get_diagram(diagram_id).unwrap().get_node(id).unwrap().bounds, rect(1.0, 2.0, 3.0, 4.0));
    cmd.undo(&mut model).unwrap();
    assert!(model.get_diagram(diagram_id).unwrap().get_node(id).is_none());
}

#[test]
fn remove_node_requires_existing_node() {
    let mut model = UmlModel::new();
    let diagram = Diagram::new("D", DiagramKind::Class);
    let diagram_id = diagram.id;
    model.add_diagram(diagram);
    let id = UmlId::new();
    assert!(matches!(RemoveNodeFromDiagram::new(&model, diagram_id, id), Err(CommandError::ElementNotFound(x)) if x == id));
    assert!(matches!(RemoveNodeFromDiagram::new(&model, DiagramId::new(), id), Err(CommandError::InvalidOperation(ref m)) if m == "diagram not found"));
}

#[test]
fn move_and_resize_node_descriptions_use_given_text() {
    let (model, diagram_id, src_id, _) = setup_model_with_two_nodes();
    let mv = MoveNode::new(&model, diagram_id, src_id, pt(5.0, 6.0), "5, 6").unwrap();
    assert_eq!(mv.description(), "Move node to (5, 6)");
    let rs = ResizeNode::new(&model, diagram_id, src_id, sz(150.0, 80.0), "150×80").unwrap();
    assert_eq!(rs.description(), "Resize node to 150×80");
}
