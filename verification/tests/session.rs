use umbrello::diagram::geometry::{Point, Rect};
use umbrello::diagram::node::ViewNode;
use umbrello::diagram::{Diagram, DiagramKind};
use umbrello::editor::ToolMode;
use umbrello::elements::{
    Actor, Class, Interface, ModelElement, Package, Relationship, UseCase,
};
use umbrello::id::UmlId;
use umbrello::repository::UmlModel;
use umbrello::session::{node_grid_slot, EditorSession};
use umbrello::types::Visibility;

fn pt(x: f64, y: f64) -> Point {
    Point::new(x.to_bits(), y.to_bits())
}

fn rect(x: f64, y: f64, w: f64, h: f64) -> Rect {
    Rect::new(x.to_bits(), y.to_bits(), w.to_bits(), h.to_bits())
}

fn make_app_with_class(name: &str) -> EditorSession {
    let mut model = UmlModel::new();
    model.insert(ModelElement::Class(Class::new(name)));
    EditorSession::new(model, false)
}

/// A session with an open project and an active diagram of the given kind,
/// after inserting the given elements.
fn make_app_with_diagram_of(kind: DiagramKind, elements: Vec<ModelElement>) -> EditorSession {
    let mut model = UmlModel::new();
    for e in elements {
        model.insert(e);
    }
    model.add_diagram(Diagram::new("Test", kind));
    let mut app = EditorSession::new(model, false);
    app.set_active_diagram(Some(0));
    app.set_current_file_path(Some("/tmp/test-project.xmi"));
    app
}

fn make_app_with_diagram() -> EditorSession {
    make_app_with_diagram_of(DiagramKind::Class, Vec::new())
}

fn make_app_with_two_nodes() -> (EditorSession, UmlId, UmlId) {
    let mut model = UmlModel::new();
    let cls_a = Class::new("ClassA");
    let cls_b = Class::new("ClassB");
    let id_a = cls_a.base.id;
    let id_b = cls_b.base.id;
    model.insert(ModelElement::Class(cls_a));
    model.insert(ModelElement::Class(cls_b));
    let mut d = Diagram::new("Test", DiagramKind::Class);
    d.add_node(id_a, ViewNode::new(id_a, rect(0.0, 0.0, 160.0, 60.0)));
    d.add_node(id_b, ViewNode::new(id_b, rect(200.0, 0.0, 160.0, 60.0)));
    model.add_diagram(d);
    let diagram_idx = model.diagrams().len() - 1;
    let mut app = EditorSession::new(model, false);
    app.set_active_diagram(Some(diagram_idx));
    app.set_current_file_path(Some("/tmp/test-project.xmi"));
    (app, id_a, id_b)
}

fn find_by_name(app: &EditorSession, name: &str) -> Option<UmlId> {
    app.model()
        .elements()
        .iter()
        .find(|e| e.name() == name)
        .map(|e| e.id())
}

fn first_id(app: &EditorSession) -> UmlId {
    app.model().elements()[0].id()
}

fn edge_between(app: &EditorSession, a: UmlId, b: UmlId) -> bool {
    app.model().diagrams()[0]
        .edges
        .values()
        .any(|edge| edge.source_node_id == a && edge.target_node_id == b)
}

// ── Session state and tools ─────────────────────────────────

#[test]
fn tool_mode_defaults_to_select() {
    let app = EditorSession::new(UmlModel::new(), false);
    assert_eq!(app.current_tool(), ToolMode::Select);
}

#[test]
fn new_session_status_reports_what_was_loaded() {
    let app = EditorSession::new(UmlModel::new(), false);
    assert_eq!(app.status_message(), "Empty model — no XMI file loaded");
    let app = make_app_with_class("A");
    assert_eq!(app.status_message(), "Empty model — no XMI file loaded");
    let mut model = UmlModel::new();
    model.insert(ModelElement::Class(Class::new("A")));
    model.insert(ModelElement::Class(Class::new("B")));
    let app = EditorSession::new(model, true);
    assert_eq!(app.status_message(), "Loaded model with 2 elements");
    assert!(!app.is_dirty());
    assert!(!app.is_project_open());
    assert_eq!(app.active_diagram(), None);
    assert_eq!(app.state_revision(), 0);
}

#[test]
fn tool_selection_and_loaded_unsupported_diagram_are_guarded() {
    let mut no_diagram = EditorSession::new(UmlModel::new(), false);
    assert!(no_diagram.choose_tool(ToolMode::CreateClass).is_err());
    assert_eq!(no_diagram.current_tool(), ToolMode::Select);

    let mut unsupported = make_app_with_diagram_of(DiagramKind::Sequence, Vec::new());
    assert!(unsupported.choose_tool(ToolMode::CreateClass).is_err());
    assert_eq!(unsupported.current_tool(), ToolMode::Select);
    assert!(!unsupported.is_tool_available(ToolMode::CreateClass));
}

#[test]
fn tool_choice_reports_why_it_is_refused() {
    let mut app = EditorSession::new(UmlModel::new(), false);
    assert_eq!(
        app.choose_tool(ToolMode::CreateClass),
        Err("Create or open an XMI project before authoring elements".to_string())
    );
    assert_eq!(app.status_message(), "Create or open an XMI project before authoring elements");
    assert_eq!(
        app.choose_tool(ToolMode::Select),
        Err("Select or create a supported diagram first".to_string())
    );
    let mut app = make_app_with_diagram();
    assert_eq!(
        app.choose_tool(ToolMode::CreateActor),
        Err("This tool is not supported by the active diagram kind".to_string())
    );
    let before = app.state_revision();
    assert_eq!(app.choose_tool(ToolMode::CreateClass), Ok(()));
    assert_eq!(app.current_tool(), ToolMode::CreateClass);
    assert_eq!(app.state_revision(), before + 1);
}

#[test]
fn activating_a_diagram_drops_a_tool_it_does_not_support() {
    let mut model = UmlModel::new();
    model.add_diagram(Diagram::new("Classes", DiagramKind::Class));
    model.add_diagram(Diagram::new("Cases", DiagramKind::UseCase));
    let mut app = EditorSession::new(model, false);
    app.set_current_file_path(Some("/tmp/test-project.xmi"));
    app.activate_diagram_index(0);
    app.choose_tool(ToolMode::CreateClass).unwrap();
    app.activate_diagram_index(1);
    assert_eq!(app.active_diagram(), Some(1));
    assert_eq!(app.current_tool(), ToolMode::Select);
    app.activate_diagram_index(7);
    assert_eq!(app.active_diagram(), Some(1));
    assert_eq!(app.status_message(), "Diagram is unavailable");
}

// ── Element creation through tools ──────────────────────────

#[test]
fn create_element_for_tool_class() {
    let app = EditorSession::new(UmlModel::new(), false);
    let elem = app.create_element_for_tool(ToolMode::CreateClass);
    assert!(matches!(elem, ModelElement::Class(_)));
    assert_eq!(elem.name(), "Class_1");
}

#[test]
fn create_element_for_tool_package() {
    let app = EditorSession::new(UmlModel::new(), false);
    let elem = app.create_element_for_tool(ToolMode::CreatePackage);
    assert!(matches!(elem, ModelElement::Package(_)));
    assert_eq!(elem.name(), "Package_1");
}

#[test]
fn create_element_for_actor() {
    let app = EditorSession::new(UmlModel::new(), false);
    let elem = app.create_element_for_tool(ToolMode::CreateActor);
    assert!(matches!(elem, ModelElement::Actor(_)));
    assert_eq!(elem.name(), "Actor_1");
}

#[test]
fn create_element_for_usecase() {
    let app = EditorSession::new(UmlModel::new(), false);
    let elem = app.create_element_for_tool(ToolMode::CreateUseCase);
    assert!(matches!(elem, ModelElement::UseCase(_)));
    assert_eq!(elem.name(), "UseCase_1");
}

#[test]
fn create_element_for_tool_interface_is_abstract() {
    let mut model = UmlModel::new();
    model.insert(ModelElement::Interface(Interface::new("Interface_1")));
    let app = EditorSession::new(model, false);
    let elem = app.create_element_for_tool(ToolMode::CreateInterface);
    assert!(matches!(elem, ModelElement::Interface(_)));
    assert_eq!(elem.name(), "Interface_2");
    assert!(elem.base().is_abstract);
}

#[test]
fn component_node_artifact_tools_construct_unique_named_elements() {
    let app = EditorSession::new(UmlModel::new(), false);
    for (tool, expected) in [
        (ToolMode::CreateComponent, "Component_1"),
        (ToolMode::CreateNode, "Node_1"),
        (ToolMode::CreateArtifact, "Artifact_1"),
    ] {
        let element = app.create_element_for_tool(tool);
        assert_eq!(element.name(), expected);
        assert!(matches!(
            (tool, element),
            (ToolMode::CreateComponent, ModelElement::Component(_))
                | (ToolMode::CreateNode, ModelElement::Node(_))
                | (ToolMode::CreateArtifact, ModelElement::Artifact(_))
        ));
    }
}

#[test]
fn place_element_creates_in_model() {
    let mut app = make_app_with_diagram();
    let len_before = app.model().len();
    let result = app.place_element(ToolMode::CreateClass, pt(100.0, 100.0));
    assert!(result.is_ok());
    assert_eq!(app.model().len(), len_before + 1);
    assert!(find_by_name(&app, "Class_1").is_some());
}

#[test]
fn place_element_adds_node_to_diagram() {
    let mut app = make_app_with_diagram();
    let nodes_before = app.model().diagrams()[0].nodes.len();

    let result = app.place_element(ToolMode::CreateClass, pt(100.0, 100.0));
    assert!(result.is_ok());

    let diag = &app.model().diagrams()[0];
    assert_eq!(diag.nodes.len(), nodes_before + 1);
    let elem_id = find_by_name(&app, "Class_1").unwrap();
    assert!(diag.get_node(elem_id).is_some());
    let node = diag.get_node(elem_id).unwrap();
    assert_eq!(f64::from_bits(node.bounds.x()), 100.0);
    assert_eq!(f64::from_bits(node.bounds.y()), 100.0);
}

#[test]
fn place_element_dirty_flag() {
    let mut app = make_app_with_diagram();
    app.set_dirty(false);
    let result = app.place_element(ToolMode::CreateClass, pt(100.0, 100.0));
    assert!(result.is_ok());
    assert!(app.is_dirty());
}

#[test]
fn tool_resets_after_placement() {
    let mut app = make_app_with_diagram();
    let result = app.place_element(ToolMode::CreateClass, pt(100.0, 100.0));
    assert!(result.is_ok());
    app.set_current_tool(ToolMode::Select);
    assert_eq!(app.current_tool(), ToolMode::Select);
}

#[test]
fn place_element_undo_removes_both() {
    let mut app = make_app_with_diagram();
    let result = app.place_element(ToolMode::CreateClass, pt(100.0, 100.0));
    assert!(result.is_ok());
    let elem_id = find_by_name(&app, "Class_1").unwrap();
    assert!(app.model().get(elem_id).is_some());

    app.undo_action().unwrap();
    assert!(app.model().get(elem_id).is_none());
    let diag = &app.model().diagrams()[0];
    assert!(diag.get_node(elem_id).is_none());
}

#[test]
fn new_element_visible_on_canvas() {
    let mut app = make_app_with_diagram();
    app.place_element(ToolMode::CreateClass, pt(50.0, 50.0)).unwrap();
    assert!(find_by_name(&app, "Class_1").is_some());
}

#[test]
fn place_actor_dirty_flag() {
    let mut app = make_app_with_diagram_of(DiagramKind::UseCase, Vec::new());
    app.set_dirty(false);
    let result = app.place_element(ToolMode::CreateActor, pt(100.0, 100.0));
    assert!(result.is_ok());
    assert!(app.is_dirty());
}

#[test]
fn place_usecase_dirty_flag() {
    let mut app = make_app_with_diagram_of(DiagramKind::UseCase, Vec::new());
    app.set_dirty(false);
    let result = app.place_element(ToolMode::CreateUseCase, pt(100.0, 100.0));
    assert!(result.is_ok());
    assert!(app.is_dirty());
}

#[test]
fn actor_undo_redo() {
    let mut app = make_app_with_diagram_of(DiagramKind::UseCase, Vec::new());
    let result = app.place_element(ToolMode::CreateActor, pt(100.0, 100.0));
    assert!(result.is_ok());
    let elem_id = find_by_name(&app, "Actor_1").unwrap();
    assert!(app.model().get(elem_id).is_some());

    app.undo_action().unwrap();
    assert!(app.model().get(elem_id).is_none());
    let diag = &app.model().diagrams()[0];
    assert!(diag.get_node(elem_id).is_none());
}

#[test]
fn component_node_artifact_placement_is_atomic_and_restores_on_undo_redo() {
    for (tool, expected) in [
        (ToolMode::CreateComponent, "Component_1"),
        (ToolMode::CreateNode, "Node_1"),
        (ToolMode::CreateArtifact, "Artifact_1"),
    ] {
        let kind = if tool == ToolMode::CreateNode {
            DiagramKind::Deployment
        } else {
            DiagramKind::Component
        };
        let mut app = make_app_with_diagram_of(kind, Vec::new());
        let history_before = app.history().can_undo();
        app.place_element(tool, pt(25.0, 35.0)).unwrap();
        let id = find_by_name(&app, expected).unwrap();
        assert!(!history_before);
        let width = app.model().diagrams()[0].get_node(id).unwrap().bounds.width();
        assert_eq!(f64::from_bits(width), 160.0);
        app.undo_action().unwrap();
        assert!(app.model().get(id).is_none());
        assert!(app.model().diagrams()[0].get_node(id).is_none());
        app.redo_action().unwrap();
        assert!(app.model().get(id).is_some());
        assert!(app.model().diagrams()[0].get_node(id).is_some());
    }
}

#[test]
fn incompatible_direct_placement_preserves_state_and_tool() {
    let mut app = make_app_with_diagram();
    app.set_current_tool(ToolMode::CreateUseCase);
    let before_model = app.model().len();
    let before_history = app.history().undo_depth();
    let before_dirty = app.is_dirty();
    let result = app.place_element(ToolMode::CreateUseCase, pt(10.0, 20.0));
    assert!(result.is_err());
    assert_eq!(app.model().len(), before_model);
    assert_eq!(app.history().undo_depth(), before_history);
    assert_eq!(app.is_dirty(), before_dirty);
    assert_eq!(app.current_tool(), ToolMode::CreateUseCase);

    let mut app = make_app_with_diagram_of(DiagramKind::UseCase, Vec::new());
    app.set_current_tool(ToolMode::CreateRealization);
    let result = app.place_edge(UmlId::new(), UmlId::new());
    assert!(result.is_err());
    assert_eq!(app.model().len(), before_model);
    assert_eq!(app.history().undo_depth(), before_history);
    assert_eq!(app.is_dirty(), before_dirty);
}

#[test]
fn placement_refusals_name_their_reason() {
    let mut app = make_app_with_diagram();
    assert_eq!(
        app.place_element(ToolMode::Select, pt(0.0, 0.0)),
        Err("Current tool does not create a node".to_string())
    );
    assert_eq!(
        app.place_element(ToolMode::CreateActor, pt(0.0, 0.0)),
        Err("🧑 Actor is not compatible with Class diagrams".to_string())
    );
    app.set_current_file_path(None);
    assert_eq!(
        app.place_element(ToolMode::CreateClass, pt(0.0, 0.0)),
        Err("Create or open an XMI project first".to_string())
    );
    app.set_active_diagram(Some(3));
    assert_eq!(
        app.place_element(ToolMode::CreateClass, pt(0.0, 0.0)),
        Err("Active diagram is unavailable".to_string())
    );
    app.set_active_diagram(None);
    assert_eq!(
        app.place_element(ToolMode::CreateClass, pt(0.0, 0.0)),
        Err("No active diagram".to_string())
    );
    assert_eq!(app.model().len(), 0);
    assert!(!app.is_dirty());
}

// ── Edge creation ───────────────────────────────────────────

#[test]
fn place_edge_no_diagram_errors() {
    let mut app = EditorSession::new(UmlModel::new(), false);
    app.set_current_tool(ToolMode::CreateGeneralization);
    app.set_active_diagram(None);
    let src_id = UmlId::new();
    let tgt_id = UmlId::new();
    let result = app.place_edge(src_id, tgt_id);
    assert!(result.is_err());
    assert!(result.unwrap_err().contains("No active diagram"));
}

#[test]
fn place_edge_requires_an_edge_tool() {
    let (mut app, id_a, id_b) = make_app_with_two_nodes();
    assert_eq!(
        app.place_edge(id_a, id_b),
        Err("Current tool is not an edge tool".to_string())
    );
    assert_eq!(app.model().len(), 2);
}

#[test]
fn place_edge_creates_relationship() {
    let (mut app, id_a, id_b) = make_app_with_two_nodes();
    app.set_current_tool(ToolMode::CreateGeneralization);

    let len_before = app.model().len();
    let result = app.place_edge(id_a, id_b);
    assert!(result.is_ok());
    assert_eq!(app.model().len(), len_before + 1);

    let rel_found = app.model().elements().iter().any(|e| {
        matches!(e, ModelElement::Relationship(r) if r.source_id == id_a && r.target_id == id_b)
    });
    assert!(rel_found, "Expected a Relationship between source and target");
}

#[test]
fn place_edge_creates_view_edge() {
    let (mut app, id_a, id_b) = make_app_with_two_nodes();
    app.set_current_tool(ToolMode::CreateGeneralization);
    let edges_before = app.model().diagrams()[0].edges.len();

    let result = app.place_edge(id_a, id_b);
    assert!(result.is_ok());

    assert_eq!(app.model().diagrams()[0].edges.len(), edges_before + 1);
    assert!(edge_between(&app, id_a, id_b), "Expected a ViewEdge connecting the two nodes");
}

#[test]
fn place_edge_dirty_flag() {
    let (mut app, id_a, id_b) = make_app_with_two_nodes();
    app.set_current_tool(ToolMode::CreateAssociation);
    app.set_dirty(false);

    let result = app.place_edge(id_a, id_b);
    assert!(result.is_ok());
    assert!(app.is_dirty(), "Dirty flag should be set after edge creation");
}

#[test]
fn place_edge_undo_removes_both() {
    let (mut app, id_a, id_b) = make_app_with_two_nodes();
    app.set_current_tool(ToolMode::CreateRealization);

    let result = app.place_edge(id_a, id_b);
    assert!(result.is_ok());

    let model_len_after = app.model().len();
    let edges_after = app.model().diagrams()[0].edges.len();

    assert!(app.undo_action().is_ok());
    assert_eq!(app.model().len(), model_len_after - 1);
    assert_eq!(app.model().diagrams()[0].edges.len(), edges_after - 1);
    assert!(!edge_between(&app, id_a, id_b), "No ViewEdge should remain after undo");
}

#[test]
fn place_edge_undo_redo_restores() {
    let (mut app, id_a, id_b) = make_app_with_two_nodes();
    app.set_current_tool(ToolMode::CreateComposition);

    let result = app.place_edge(id_a, id_b);
    assert!(result.is_ok());

    let model_len_after = app.model().len();
    let edges_after = app.model().diagrams()[0].edges.len();

    assert!(app.undo_action().is_ok());
    assert_eq!(app.model().len(), model_len_after - 1);
    assert_eq!(app.model().diagrams()[0].edges.len(), edges_after - 1);

    assert!(app.redo_action().is_ok());
    assert_eq!(app.model().len(), model_len_after);
    assert_eq!(app.model().diagrams()[0].edges.len(), edges_after);
    assert!(edge_between(&app, id_a, id_b), "ViewEdge should be restored after redo");
}

// ── Selection and property edits ────────────────────────────

#[test]
fn selected_element_id_defaults_to_none() {
    let app = EditorSession::new(UmlModel::new(), false);
    assert!(app.selected_element_id().is_none());
    assert!(app.name_edit_buffer().is_empty());
}

#[test]
fn select_node_sets_selected_element_id() {
    let mut app = make_app_with_class("Test");
    let id = first_id(&app);
    app.select_element(id).unwrap();
    assert_eq!(app.selected_element_id(), Some(id));
}

#[test]
fn deselect_on_background_click() {
    let mut app = make_app_with_class("Test");
    let id = first_id(&app);
    app.select_element(id).unwrap();
    assert!(app.selected_element_id().is_some());
    app.clear_selection();
    assert!(app.selected_element_id().is_none());
    assert!(app.name_edit_buffer().is_empty());
}

#[test]
fn name_edit_buffer_populates_on_selection() {
    let mut app = make_app_with_class("MyClass");
    let id = first_id(&app);
    app.select_element(id).unwrap();
    assert_eq!(app.name_edit_buffer(), "MyClass");
}

#[test]
fn selecting_a_missing_element_is_refused() {
    let mut app = make_app_with_class("Test");
    let missing = UmlId::from_u128(0x1234);
    let before = app.state_revision();
    assert_eq!(
        app.select_element(missing),
        Err("target is unavailable or stale: node:00000000-0000-0000-0000-000000001234".to_string())
    );
    assert_eq!(app.selected_element_id(), None);
    assert_eq!(app.state_revision(), before);
}

#[test]
fn rename_element_via_property_editor() {
    let mut app = make_app_with_class("Original");
    let id = first_id(&app);
    app.select_element(id).unwrap();
    app.set_name_edit_buffer("Renamed");
    app.rename_element(id, app.name_edit_buffer().to_string().as_str()).unwrap();
    assert_eq!(app.model().get(id).unwrap().name(), "Renamed");
    assert_eq!(app.name_edit_buffer(), "Renamed");
}

#[test]
fn rename_refuses_an_empty_name_and_a_missing_element() {
    let mut app = make_app_with_class("Original");
    let id = first_id(&app);
    assert_eq!(
        app.rename_element(id, "   "),
        Err("invalid value: name cannot be empty".to_string())
    );
    let missing = UmlId::from_u128(1);
    assert_eq!(
        app.rename_element(missing, "Name"),
        Err("command failed: element not found: 00000000-0000-0000-0000-000000000001".to_string())
    );
    assert_eq!(app.model().get(id).unwrap().name(), "Original");
    assert_eq!(app.history().undo_depth(), 0);
    assert!(!app.is_dirty());
}

#[test]
fn visibility_dropdown_changes_visibility() {
    let mut app = make_app_with_class("Test");
    let id = first_id(&app);
    app.set_visibility(id, Visibility::Private).unwrap();
    assert_eq!(app.model().get(id).unwrap().base().visibility, Visibility::Private);
}

#[test]
fn visibility_change_undo_restores() {
    let mut app = make_app_with_class("Test");
    let id = first_id(&app);
    app.set_visibility(id, Visibility::Private).unwrap();
    assert_eq!(app.model().get(id).unwrap().base().visibility, Visibility::Private);
    app.undo_action().unwrap();
    assert_eq!(app.model().get(id).unwrap().base().visibility, Visibility::Public);
}

#[test]
fn flag_toggle_sets_abstract_and_static() {
    let mut app = make_app_with_class("Test");
    let id = first_id(&app);
    app.set_flags(id, true, true).unwrap();
    let base = app.model().get(id).unwrap().base();
    assert!(base.is_abstract);
    assert!(base.is_static);
}

#[test]
fn flag_toggle_undo_restores_flags() {
    let mut app = make_app_with_class("Test");
    let id = first_id(&app);
    app.set_flags(id, true, true).unwrap();
    app.undo_action().unwrap();
    let base = app.model().get(id).unwrap().base();
    assert!(!base.is_abstract);
    assert!(!base.is_static);
}

#[test]
fn documentation_edit_persists() {
    let mut app = make_app_with_class("Test");
    let id = first_id(&app);
    app.set_documentation(id, "Hello").unwrap();
    assert_eq!(app.model().get(id).unwrap().base().documentation, "Hello");
}

#[test]
fn documentation_change_undo_reverts() {
    let mut app = make_app_with_class("Test");
    let id = first_id(&app);
    app.set_documentation(id, "Hello").unwrap();
    app.undo_action().unwrap();
    assert_eq!(app.model().get(id).unwrap().base().documentation, "");
}

#[test]
fn normal_documentation_buffer_can_be_cleared_without_dropping_the_selection() {
    let mut class = Class::new("Documented");
    class.base.documentation = "old".into();
    let id = class.base.id;
    let mut app = make_app_with_diagram_of(DiagramKind::Class, vec![ModelElement::Class(class)]);
    app.select_element(id).unwrap();
    assert_eq!(app.documentation_edit_buffer(), "old");
    app.set_documentation_edit_buffer("");
    app.set_documentation(id, "").unwrap();
    assert_eq!(app.model().get(id).unwrap().base().documentation, "");
    assert_eq!(app.selected_element_id(), Some(id));
}

#[test]
fn classifier_details_displayed_for_class() {
    let app = make_app_with_class("Test");
    let id = first_id(&app);
    let elem = app.model().get(id).unwrap();
    assert!(elem.classifier_data().is_some());
    assert_eq!(elem.classifier_data().unwrap().attributes.len(), 0);
    assert_eq!(elem.classifier_data().unwrap().operations.len(), 0);
}

#[test]
fn classifier_details_hidden_for_package() {
    let mut model = UmlModel::new();
    model.insert(ModelElement::Package(Package::new("TestPkg")));
    let app = EditorSession::new(model, false);
    let id = first_id(&app);
    assert!(app.model().get(id).unwrap().classifier_data().is_none());
}

#[test]
fn property_editor_placeholder_when_none_selected() {
    let app = EditorSession::new(UmlModel::new(), false);
    assert!(app.selected_element_id().is_none());
}

#[test]
fn dirty_flag_set_on_property_change() {
    let mut app = make_app_with_class("Test");
    app.set_dirty(false);
    let id = first_id(&app);
    app.set_visibility(id, Visibility::Private).unwrap();
    assert!(app.is_dirty());
}

#[test]
fn dirty_flag_on_mutation() {
    let mut app = EditorSession::new(UmlModel::new(), false);
    assert!(!app.is_dirty());
    app.set_dirty(true);
    assert!(app.is_dirty());
}

#[test]
fn dirty_flag_after_execute_command() {
    let mut app = make_app_with_class("Test");
    app.set_dirty(false);
    assert!(!app.is_dirty());
    let id = first_id(&app);
    app.rename_element(id, "Other").unwrap();
    assert!(app.is_dirty());
}

#[test]
fn dirty_flag_cleared_on_open() {
    let mut app = make_app_with_class("Test");
    app.set_dirty(true);
    app.open_loaded_model(UmlModel::new(), "/tmp/other.xmi");
    assert!(!app.is_dirty());
    assert_eq!(app.model().len(), 0);
    assert_eq!(app.status_message(), "Loaded: /tmp/other.xmi (0 elements, 0 diagrams)");
}

#[test]
fn file_new_clears_model() {
    let mut app = make_app_with_class("Test");
    assert_eq!(app.model().len(), 1);
    assert!(!app.is_dirty());
    app.start_new_project("/tmp/test_new_project.xmi");
    assert_eq!(app.model().len(), 0);
    assert!(!app.is_dirty());
    assert!(app.is_project_open());
    assert_eq!(app.status_message(), "New project: /tmp/test_new_project.xmi");
}

#[test]
fn dirty_flag_cleared_on_save() {
    let mut app = make_app_with_class("Test");
    app.set_dirty(true);
    app.mark_saved("/tmp/test_dirty_save.xmi");
    assert!(!app.is_dirty());
    assert_eq!(app.status_message(), "Saved: /tmp/test_dirty_save.xmi");
}

#[test]
fn new_project_drops_the_previous_session_state() {
    let (mut app, id_a, _) = make_app_with_two_nodes();
    app.select_element(id_a).unwrap();
    app.set_current_tool(ToolMode::CreateGeneralization);
    app.place_edge(id_a, id_a).ok();
    app.start_new_project("fresh.xmi");
    assert_eq!(app.active_diagram(), None);
    assert_eq!(app.selected_element_id(), None);
    assert_eq!(app.current_tool(), ToolMode::Select);
    assert_eq!(app.history().undo_depth(), 0);
    assert!(!app.history().can_redo());
    assert!(app.classifier_draft().is_none());
}

#[test]
fn save_and_open_errors_only_set_the_status() {
    let mut app = make_app_with_class("Test");
    app.set_dirty(true);
    app.report_save_error("a.xmi", "disk full");
    assert_eq!(app.status_message(), "Error saving a.xmi: disk full");
    app.report_open_error("b.xmi", "not XMI");
    assert_eq!(app.status_message(), "Error opening b.xmi: not XMI");
    assert!(app.is_dirty());
    assert_eq!(app.model().len(), 1);
}

#[test]
fn move_node_to_records_one_step() {
    let (mut app, id_a, _) = make_app_with_two_nodes();
    let diagram = app.model().diagrams()[0].id;
    app.move_node_to(diagram, id_a, pt(40.0, 50.0), "40, 50").unwrap();
    let node = app.model().diagrams()[0].get_node(id_a).unwrap();
    assert_eq!(f64::from_bits(node.bounds.x()), 40.0);
    assert_eq!(f64::from_bits(node.bounds.y()), 50.0);
    assert_eq!(app.history().undo_description(), Some("Move node to (40, 50)"));
    app.undo_action().unwrap();
    let node = app.model().diagrams()[0].get_node(id_a).unwrap();
    assert_eq!(f64::from_bits(node.bounds.x()), 0.0);
    let missing = UmlId::from_u128(9);
    assert!(app.move_node_to(diagram, missing, pt(1.0, 1.0), "1, 1").is_err());
}

// ── Browser: adding existing elements ───────────────────────

#[test]
fn browser_existing_elements_are_selectable_and_reused_once_with_history() {
    let class = Class::new("Reusable");
    let class_id = class.base.id;
    let mut app = make_app_with_diagram_of(DiagramKind::Class, vec![ModelElement::Class(class)]);
    assert!(app.select_element(class_id).is_ok());
    assert_eq!(app.selected_element_id(), Some(class_id));
    assert_eq!(app.name_edit_buffer(), "Reusable");
    assert!(app.add_element_to_active_diagram(class_id, pt(50.0, 50.0)).is_ok());
    assert!(app.model().diagrams()[0].get_node(class_id).is_some());
    assert_eq!(app.history().undo_depth(), 1);
    let position = app.model().diagrams()[0].get_node(class_id).unwrap().bounds.origin;
    assert!(app.add_element_to_active_diagram(class_id, pt(270.0, 50.0)).is_err());
    assert_eq!(app.model().diagrams()[0].get_node(class_id).unwrap().bounds.origin, position);
    app.undo_action().unwrap();
    assert!(app.model().diagrams()[0].get_node(class_id).is_none());
    app.redo_action().unwrap();
    assert!(app.model().diagrams()[0].get_node(class_id).is_some());
}

#[test]
fn browser_reuse_rejects_incompatible_relationship_and_missing_diagram() {
    let class = Class::new("ClassOnly");
    let class_id = class.base.id;
    let mut app = make_app_with_diagram_of(DiagramKind::UseCase, vec![ModelElement::Class(class)]);
    assert!(app.add_element_to_active_diagram(class_id, pt(50.0, 50.0)).is_err());

    let class = Class::new("ClassOnly");

    let actor = Actor::new("Actor");
    let actor_id = actor.base.id;
    let source = Class::new("Source");
    let source_id = source.base.id;
    let target = Class::new("Target");
    let target_id = target.base.id;
    let relationship = Relationship::new_association(source_id, target_id);
    let relationship_id = relationship.base.id;
    let mut app = make_app_with_diagram_of(
        DiagramKind::Class,
        vec![
            ModelElement::Class(class),
            ModelElement::Actor(actor),
            ModelElement::Class(source),
            ModelElement::Class(target),
            ModelElement::Relationship(relationship),
        ],
    );
    assert!(app.add_element_to_active_diagram(actor_id, pt(50.0, 50.0)).is_err());
    assert!(app.add_element_to_active_diagram(relationship_id, pt(50.0, 50.0)).is_err());

    app.set_active_diagram(None);
    assert!(app.add_element_to_active_diagram(source_id, pt(50.0, 50.0)).is_err());
}

#[test]
fn add_refusals_name_their_reason() {
    let actor = Actor::new("Actor");
    let actor_id = actor.base.id;
    let case = UseCase::new("Case");
    let case_id = case.base.id;
    let mut app = make_app_with_diagram_of(
        DiagramKind::Class,
        vec![ModelElement::Actor(actor), ModelElement::UseCase(case)],
    );
    assert_eq!(
        app.add_element_to_active_diagram(actor_id, pt(0.0, 0.0)),
        Err("Actor is not compatible with Class diagrams".to_string())
    );
    assert_eq!(
        app.add_to_diagram_state(actor_id),
        Err("Element is incompatible with the active diagram")
    );
    let missing = UmlId::from_u128(0xabc);
    assert_eq!(
        app.add_element_to_active_diagram(missing, pt(0.0, 0.0)),
        Err("Element 00000000-0000-0000-0000-000000000abc is unavailable".to_string())
    );
    assert_eq!(app.add_to_diagram_state(missing), Err("Element is unavailable"));
    app.set_current_file_path(None);
    assert_eq!(app.add_to_diagram_state(case_id), Err("Create or open an XMI project first"));
    app.set_current_file_path(Some("/tmp/test-project.xmi"));
    app.set_active_diagram(None);
    assert_eq!(app.add_to_diagram_state(case_id), Err("Select an active diagram first"));
    assert_eq!(
        app.add_element_to_active_diagram(case_id, pt(0.0, 0.0)),
        Err("No active diagram".to_string())
    );
}

#[test]
fn add_state_reports_a_node_already_present() {
    let class = Class::new("Shown");
    let class_id = class.base.id;
    let mut app = make_app_with_diagram_of(DiagramKind::Class, vec![ModelElement::Class(class)]);
    assert_eq!(app.add_to_diagram_state(class_id), Ok(()));
    assert_eq!(app.active_node_count(), Some(0));
    app.add_element_to_active_diagram(class_id, pt(50.0, 50.0)).unwrap();
    assert_eq!(app.active_node_count(), Some(1));
    assert_eq!(app.add_to_diagram_state(class_id), Err("Element is already on the active diagram"));
    assert_eq!(
        app.add_element_to_active_diagram(class_id, pt(50.0, 50.0)),
        Err("Element is already present on the active diagram".to_string())
    );
}

#[test]
fn node_grid_slots_fill_rows_of_four() {
    assert_eq!(node_grid_slot(0), (0, 0));
    assert_eq!(node_grid_slot(3), (3, 0));
    assert_eq!(node_grid_slot(4), (0, 1));
    assert_eq!(node_grid_slot(9), (1, 2));
}

// ── Diagram creation and history navigation ─────────────────

#[test]
fn supported_diagram_creation_is_one_history_action_and_restores_id() {
    let mut app = EditorSession::new(UmlModel::new(), false);
    app.set_current_file_path(Some("/tmp/test-project.xmi"));
    let diagram_id = app.create_supported_diagram(DiagramKind::UseCase).unwrap();
    assert_eq!(app.model().diagrams().len(), 1);
    assert_eq!(app.model().diagrams()[0].name, "UseCase_1");
    assert_eq!(app.active_diagram(), Some(0));
    assert!(app.is_dirty());
    assert_eq!(app.history().undo_depth(), 1);

    app.undo_action().unwrap();
    assert!(app.model().diagrams().is_empty());
    assert_eq!(app.active_diagram(), None);
    app.redo_action().unwrap();
    assert_eq!(app.model().diagrams()[0].id, diagram_id);
    assert_eq!(app.active_diagram(), Some(0));
}

#[test]
fn diagram_creation_requires_an_xmi_project_without_mutating_state() {
    let mut app = EditorSession::new(UmlModel::new(), false);
    let before_history = app.history().undo_depth();
    let before_revision = app.state_revision();
    let result = app.create_supported_diagram(DiagramKind::Class);
    assert!(result.is_err());
    assert!(app.model().diagrams().is_empty());
    assert_eq!(app.history().undo_depth(), before_history);
    assert_eq!(app.state_revision(), before_revision);
}

#[test]
fn diagram_creation_refusals_name_their_reason() {
    let mut app = EditorSession::new(UmlModel::new(), false);
    assert_eq!(
        app.create_diagram(DiagramKind::Class, "Main"),
        Err("create or open an XMI project before adding diagrams".to_string())
    );
    app.set_current_file_path(Some("/tmp/test-project.xmi"));
    assert_eq!(
        app.create_diagram(DiagramKind::Sequence, "Flow"),
        Err("unsupported diagram kind: Sequence".to_string())
    );
    assert_eq!(
        app.create_diagram(DiagramKind::Class, "  \t "),
        Err("diagram name cannot be empty".to_string())
    );
    assert!(app.model().diagrams().is_empty());
    let id = app.create_diagram(DiagramKind::Deployment, "  Servers ").unwrap();
    assert_eq!(app.model().diagrams()[0].id, id);
    assert_eq!(app.model().diagrams()[0].name, "Servers");
    assert_eq!(app.model().diagrams()[0].kind, DiagramKind::Deployment);
    assert_eq!(app.current_tool(), ToolMode::Select);
}

#[test]
fn all_supported_diagram_kinds_are_created_with_numbered_names() {
    let mut app = EditorSession::new(UmlModel::new(), false);
    app.set_current_file_path(Some("/tmp/test-project.xmi"));
    for kind in [
        DiagramKind::Class,
        DiagramKind::UseCase,
        DiagramKind::Component,
        DiagramKind::Deployment,
        DiagramKind::Class,
    ] {
        app.create_supported_diagram(kind).unwrap();
        assert!(app.active_diagram().is_some());
    }
    let names: Vec<&str> = app.model().diagrams().iter().map(|d| d.name.as_str()).collect();
    assert_eq!(names, ["Class_1", "UseCase_1", "Component_1", "Deployment_1", "Class_2"]);
    assert_eq!(app.active_diagram(), Some(4));
}

#[test]
fn undo_and_redo_refuse_an_empty_history() {
    let mut app = make_app_with_diagram();
    assert_eq!(
        app.undo_action(),
        Err("target is unavailable or stale: history.undo".to_string())
    );
    assert_eq!(
        app.redo_action(),
        Err("target is unavailable or stale: history.redo".to_string())
    );
    assert!(!app.is_dirty());
    app.place_element(ToolMode::CreateClass, pt(1.0, 1.0)).unwrap();
    app.undo_action().unwrap();
    assert_eq!(app.status_message(), "Undo");
    app.redo_action().unwrap();
    assert_eq!(app.status_message(), "Redo");
}

#[test]
fn undo_keeps_the_active_diagram_found_by_id() {
    let mut app = EditorSession::new(UmlModel::new(), false);
    app.set_current_file_path(Some("/tmp/test-project.xmi"));
    app.create_supported_diagram(DiagramKind::Class).unwrap();
    app.create_supported_diagram(DiagramKind::UseCase).unwrap();
    app.activate_diagram_index(0);
    app.choose_tool(ToolMode::CreateClass).unwrap();
    app.undo_action().unwrap();
    assert_eq!(app.model().diagrams().len(), 1);
    assert_eq!(app.active_diagram(), Some(0));
    assert_eq!(app.current_tool(), ToolMode::Select);
}

#[test]
fn normalize_drops_a_stale_selection_and_position() {
    let class = Class::new("Gone");
    let class_id = class.base.id;
    let mut app = make_app_with_diagram_of(DiagramKind::Class, vec![ModelElement::Class(class)]);
    app.select_element(class_id).unwrap();
    app.set_active_diagram(Some(5));
    app.set_current_tool(ToolMode::CreateClass);
    app.normalize_transient_state();
    assert_eq!(app.active_diagram(), None);
    assert_eq!(app.selected_element_id(), Some(class_id));
    assert_eq!(app.current_tool(), ToolMode::Select);
}

// ── New-diagram dialog ──────────────────────────────────────

#[test]
fn new_diagram_default_name_tracks_kind_changes() {
    let mut app = EditorSession::new(UmlModel::new(), false);
    app.set_current_file_path(Some("/tmp/test-project.xmi"));
    app.open_new_diagram_dialog();
    assert!(app.new_diagram_open());
    assert_eq!(app.new_diagram_name(), "Class_1");
    app.set_new_diagram_kind(DiagramKind::UseCase);
    assert_eq!(app.new_diagram_name(), "UseCase_1");
    app.set_new_diagram_kind(DiagramKind::Component);
    assert_eq!(app.new_diagram_name(), "Component_1");
    app.set_new_diagram_kind(DiagramKind::Deployment);
    assert_eq!(app.new_diagram_name(), "Deployment_1");
}

#[test]
fn new_diagram_radio_transition_updates_name_after_field_was_already_changed() {
    let mut app = EditorSession::new(UmlModel::new(), false);
    app.set_current_file_path(Some("/tmp/test-project.xmi"));
    app.open_new_diagram_dialog();
    assert_eq!(app.new_diagram_name(), "Class_1");
    app.apply_new_diagram_kind_transition(DiagramKind::Class, DiagramKind::UseCase);
    assert_eq!(app.new_diagram_kind(), DiagramKind::UseCase);
    assert_eq!(app.new_diagram_name(), "UseCase_1");
    app.set_new_diagram_name("Custom name");
    app.apply_new_diagram_kind_transition(DiagramKind::UseCase, DiagramKind::UseCase);
    assert_eq!(app.new_diagram_name(), "Custom name");
}

#[test]
fn new_diagram_dialog_needs_a_project_and_submits_once() {
    let mut app = EditorSession::new(UmlModel::new(), false);
    app.open_new_diagram_dialog();
    assert!(!app.new_diagram_open());
    assert_eq!(app.status_message(), "Create or open an XMI project before adding diagrams");
    app.set_current_file_path(Some("/tmp/test-project.xmi"));
    app.open_new_diagram_dialog();
    app.set_new_diagram_name("   ");
    assert!(app.submit_new_diagram().is_err());
    assert_eq!(app.status_message(), "Diagram name cannot be empty");
    assert!(app.new_diagram_open());
    app.set_new_diagram_name("Overview");
    let id = app.submit_new_diagram().unwrap();
    assert!(!app.new_diagram_open());
    assert_eq!(app.new_diagram_name(), "");
    assert_eq!(app.model().diagrams()[0].id, id);
    assert_eq!(app.model().diagrams()[0].name, "Overview");
    assert_eq!(app.unique_diagram_name(DiagramKind::Class), "Class_1");
    app.cancel_new_diagram_dialog();
    assert!(!app.new_diagram_open());
}

#[test]
fn file_path_tracking() {
    let mut app = make_app_with_class("Test");
    assert!(app.current_file_path().is_none());
    app.set_current_file_path(Some("/some/path.xmi"));
    assert_eq!(app.current_file_path(), Some("/some/path.xmi"));
    assert!(app.is_project_open());
}

#[test]
fn save_as_updates_path() {
    let mut app = make_app_with_class("TestPath");
    assert!(app.current_file_path().is_none());
    app.set_dirty(true);
    app.mark_saved("/tmp/test_saveas.xmi");
    assert_eq!(app.current_file_path(), Some("/tmp/test_saveas.xmi"));
    assert!(!app.is_dirty());
}

#[test]
fn active_zoom_is_bounded_and_resettable() {
    let mut app = make_app_with_diagram();
    assert_eq!(app.active_zoom_percent().map(f64::from_bits), Some(100.0));
    app.set_active_zoom_percent(250.0f64.to_bits());
    assert_eq!(app.active_zoom_percent().map(f64::from_bits), Some(250.0));
    app.set_active_zoom_percent(1000.0f64.to_bits());
    assert_eq!(app.active_zoom_percent().map(f64::from_bits), Some(500.0));
    app.set_active_zoom_percent(1.0f64.to_bits());
    assert_eq!(app.active_zoom_percent().map(f64::from_bits), Some(10.0));
    app.reset_active_zoom();
    assert_eq!(app.active_zoom_percent().map(f64::from_bits), Some(100.0));
    assert!(!app.is_dirty());
    assert_eq!(app.history().undo_depth(), 0);
    app.set_active_diagram(None);
    assert_eq!(app.active_zoom_percent(), None);
}

#[test]
fn selection_persists_before_click() {
    let mut app = make_app_with_diagram();
    app.set_current_tool(ToolMode::Select);
    assert!(!app.current_tool().is_creation_tool());
    assert_eq!(
        app.place_element(app.current_tool(), pt(0.0, 0.0)),
        Err("Current tool does not create a node".to_string())
    );
    assert_eq!(app.current_tool(), ToolMode::Select);
}
