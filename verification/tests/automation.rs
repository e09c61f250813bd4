use umbrello::click_decide::{first_dot_pos, parse_index, strip_prefix_text};
use umbrello::click_perform::ClickOutcome;
use umbrello::clicks::{ClickAction, DraftEdit, QaError};
use umbrello::diagram::geometry::{Point, Rect};
use umbrello::diagram::node::ViewNode;
use umbrello::diagram::{Diagram, DiagramKind};
use umbrello::draft_edits::OperationFlag;
use umbrello::drafts::ClassifierDraft;
use umbrello::editor::ToolMode;
use umbrello::elements::{Attribute, Class, ModelElement, Operation, Parameter, TypeReference};
use umbrello::id::{DiagramId, EdgeId, UmlId};
use umbrello::repository::{ModelRepository, UmlModel};
use umbrello::session::EditorSession;
use umbrello::targets::UiTarget;
use umbrello::types::{AssociationType, ParameterDirection, Visibility};
use umbrello::drag_target::DragOutcome;
use umbrello::text_entry::TextField;
use umbrello::undo::commands::{CreateEdge, DeleteElement};
use umbrello::undo::history::UndoCommand;
use umbrello::draft_edits::{AttributeField, OperationField, ParameterField, RelationshipField};
use umbrello::undo::Command;

fn pt(x: f64, y: f64) -> Point {
    Point::new(x.to_bits(), y.to_bits())
}

fn rect(x: f64, y: f64, w: f64, h: f64) -> Rect {
    Rect::new(x.to_bits(), y.to_bits(), w.to_bits(), h.to_bits())
}

/// A session with an open project and one active diagram of the kind, whose
/// model holds the elements, each with a node on the diagram.
fn session_with_nodes(kind: DiagramKind, elements: Vec<ModelElement>) -> EditorSession {
    let mut model = UmlModel::new();
    let mut d = Diagram::new("Test", kind);
    let mut x = 10.0;
    for e in elements {
        let id = e.id();
        model.insert(e);
        d.add_node(id, ViewNode::new(id, rect(x, 20.0, 100.0, 60.0)));
        x += 110.0;
    }
    model.add_diagram(d);
    let mut app = EditorSession::new(model, false);
    app.set_active_diagram(Some(0));
    app.set_current_file_path(Some("/tmp/test-project.xmi"));
    app
}

fn make_app_with_diagram() -> EditorSession {
    session_with_nodes(DiagramKind::Class, Vec::new())
}

fn target<'a>(targets: &'a [UiTarget], id: &str) -> Option<&'a UiTarget> {
    targets.iter().find(|t| t.id == id)
}

/// Click a target the way an automation client does: select it, then click.
fn click(app: &mut EditorSession, id: &str) -> Result<ClickOutcome, String> {
    let offered = app.qa_targets(Some(id));
    assert!(target(&offered, id).map_or(true, |t| t.selected));
    app.click_target(id, None)
}

fn classifier_with_features() -> (EditorSession, UmlId) {
    let mut cls = Class::new("Person");
    cls.classifier.add_attribute(Attribute {
        name: "name".into(),
        type_ref: TypeReference::primitive("String"),
        visibility: Visibility::Private,
        initial_value: None,
        is_static: false,
    });
    cls.classifier.add_operation(Operation {
        name: "getName".into(),
        return_type: TypeReference::primitive("String"),
        parameters: vec![Parameter {
            name: "format".into(),
            type_ref: TypeReference::primitive("bool"),
            direction: ParameterDirection::In,
            default_value: Some("true".into()),
        }],
        visibility: Visibility::Public,
        is_static: false,
        is_abstract: false,
        is_virtual: true,
    });
    let id = cls.base.id;
    let mut app = session_with_nodes(DiagramKind::Class, vec![ModelElement::Class(cls)]);
    app.select_element(id).unwrap();
    (app, id)
}

fn draft_of(app: &EditorSession) -> ClassifierDraft {
    app.classifier_draft().unwrap().1.clone()
}

// ── Tests of the original ───────────────────────────────────

#[test]
fn qa_targets_use_durable_ids_and_command_mutations() {
    let before = Class::new("Before");
    let id = before.base.id;
    let other = Class::new("Other");
    let other_id = other.base.id;
    let mut app = session_with_nodes(
        DiagramKind::Class,
        vec![ModelElement::Class(before), ModelElement::Class(other)],
    );
    let diagram_id = app.model().diagrams()[0].id;
    let targets = app.qa_targets(None);
    assert!(targets.iter().any(|target| target.id == format!("node:{}", id.to_text())));
    app.qa_select(&format!("node:{}", id.to_text())).unwrap();
    app.qa_click(None).unwrap();
    app.qa_select("property.name").unwrap();
    app.qa_set_text("After").unwrap();
    assert_eq!(app.model().get(id).unwrap().name(), "After");
    assert_eq!(app.name_edit_buffer(), "After");
    let empty = app.qa_set_text("   ");
    assert!(empty.unwrap_err().starts_with("invalid value: "));
    assert_eq!(app.model().get(id).unwrap().name(), "After");
    assert_eq!(app.name_edit_buffer(), "After");
    click(&mut app, "history.undo").unwrap();
    assert_eq!(app.model().get(id).unwrap().name(), "Before");
    assert_eq!(app.name_edit_buffer(), "Before");
    click(&mut app, "history.redo").unwrap();
    assert_eq!(app.model().get(id).unwrap().name(), "After");
    assert_eq!(app.name_edit_buffer(), "After");
    click(&mut app, &format!("node:{}", other_id.to_text())).unwrap();
    assert_eq!(app.name_edit_buffer(), "Other");
    assert_eq!(app.model().diagrams()[0].id, diagram_id);
}

#[test]
fn qa_operations_require_the_automation_cursor_and_reject_stale_selection() {
    let first = Class::new("First");
    let first_id = first.base.id;
    let second = Class::new("Second");
    let second_id = second.base.id;
    let mut app = session_with_nodes(
        DiagramKind::Class,
        vec![ModelElement::Class(first), ModelElement::Class(second)],
    );
    let first_target = format!("node:{}", first_id.to_text());
    app.qa_select(&first_target).unwrap();
    let mismatch = app.qa_set_text("must-not-apply");
    assert_eq!(mismatch, Err(format!("target is unavailable or stale: {first_target}")));
    assert_eq!(app.model().get(first_id).unwrap().name(), "First");

    let delete = DeleteElement::new(app.model(), first_id).unwrap();
    app.execute_command_result(UndoCommand::DeleteElement(delete)).unwrap();
    let stale = app.qa_click(None);
    assert_eq!(stale, Err(format!("target is unavailable or stale: {first_target}")));
    assert_eq!(app.qa_snapshot(0, 0, (0, 0)).selected_qa_target.as_deref(), Some(first_target.as_str()));
    assert!(app.model().get(second_id).is_some());
}

#[test]
fn qa_exposes_and_dispatches_viewport_actions_without_model_mutation() {
    let mut app = make_app_with_diagram();
    let initial_dirty = app.is_dirty();
    let initial_history = app.history().can_undo();
    let targets = app.qa_targets(None);
    for id in ["viewport.zoom_in", "viewport.zoom_out", "viewport.fit", "viewport.reset"] {
        assert!(targets.iter().any(|item| item.id == id && item.enabled));
    }
    let selected_revision = app.state_revision();
    assert_eq!(click(&mut app, "viewport.zoom_in"), Ok(ClickOutcome::ZoomIn));
    assert_eq!(app.state_revision(), selected_revision + 1);
    assert_eq!(app.model().diagrams()[0].zoom_percent(), 100f64.to_bits());
    assert_eq!(app.is_dirty(), initial_dirty);
    assert_eq!(app.history().can_undo(), initial_history);
    assert_eq!(click(&mut app, "viewport.zoom_out"), Ok(ClickOutcome::ZoomOut));
    assert_eq!(click(&mut app, "viewport.reset"), Ok(ClickOutcome::ResetView));
}

#[test]
fn qa_viewport_targets_are_disabled_without_active_diagram_and_fit_requires_canvas() {
    let mut app = EditorSession::new(UmlModel::new(), false);
    let targets = app.qa_targets(None);
    assert!(targets.iter().any(|t| t.id == "viewport.reset" && !t.enabled));
    assert_eq!(
        app.click_target("viewport.reset", None),
        Err("target is unavailable or stale: viewport.reset".to_string())
    );
    let mut app = make_app_with_diagram();
    let before = app.state_revision();
    assert_eq!(click(&mut app, "viewport.fit"), Ok(ClickOutcome::FitView));
    assert_eq!(app.state_revision(), before);
}

#[test]
fn drag_source_node_id_defaults_none() {
    let app = EditorSession::new(UmlModel::new(), false);
    assert!(app.drag_source().is_none());
}

#[test]
fn all_supported_diagram_kinds_have_direct_qa_targets() {
    let mut app = EditorSession::new(UmlModel::new(), false);
    let ids = ["diagram.new", "diagram.new.class", "diagram.new.use_case", "diagram.new.component", "diagram.new.deployment"];
    let before = app.qa_targets(None);
    for id in ids {
        assert!(before.iter().any(|item| item.id == id && !item.enabled));
    }
    app.set_current_file_path(Some("/tmp/test_m24_diagram_targets.xmi"));
    let after = app.qa_targets(None);
    for id in ids {
        assert!(after.iter().any(|item| item.id == id && item.enabled));
    }
}

#[test]
fn qa_component_node_artifact_targets_create_atomic_nodes_and_support_generic_history() {
    let cases = [
        ("tool.component", "Component_1", DiagramKind::Component),
        ("tool.node", "Node_1", DiagramKind::Deployment),
        ("tool.artifact", "Artifact_1", DiagramKind::Component),
    ];
    for &(tool_id, expected_name, kind) in &cases {
        let mut app = session_with_nodes(kind, Vec::new());
        let targets = app.qa_targets(None);
        assert!(targets.iter().any(|t| t.id == tool_id && t.enabled));
        assert_eq!(targets.iter().filter(|t| t.kind == "tool").count(), 17);
        click(&mut app, tool_id).unwrap();
        assert_eq!(app.click_target("canvas", Some(pt(40.0, 50.0))), Ok(ClickOutcome::Done));
        assert_eq!(app.current_tool(), ToolMode::Select);
        let element = app.model().elements().iter().find(|e| e.name() == expected_name).unwrap();
        let id = element.id();
        match tool_id {
            "tool.component" => assert!(matches!(element, ModelElement::Component(_))),
            "tool.node" => assert!(matches!(element, ModelElement::Node(_))),
            "tool.artifact" => assert!(matches!(element, ModelElement::Artifact(_))),
            _ => unreachable!(),
        }
        let node_target = format!("node:{}", id.to_text());
        assert!(app.qa_targets(None).iter().any(|t| t.id == node_target && t.enabled));
        assert!(app.model().diagrams()[0].get_node(id).is_some());
        click(&mut app, "history.undo").unwrap();
        assert!(app.model().get(id).is_none());
        assert!(app.model().diagrams()[0].get_node(id).is_none());
        click(&mut app, "history.redo").unwrap();
        assert!(app.model().get(id).is_some());
        assert!(app.model().diagrams()[0].get_node(id).is_some());
    }
}

#[test]
fn classifier_draft_mcp_add_attribute_via_qa() {
    let (mut app, _) = classifier_with_features();
    click(&mut app, "property.classifier.attribute.add").unwrap();
    let draft = draft_of(&app);
    assert_eq!(draft.attributes.len(), 2, "MCP add attribute should create new attribute");
    assert_eq!(draft.attributes[1].name, "attribute_1");
    assert!(app
        .qa_targets(None)
        .iter()
        .any(|t| t.id == "property.classifier.attribute.1.name"));
    app.qa_select("property.classifier.attribute.1.name").unwrap();
    app.qa_set_text("email").unwrap();
    assert_eq!(draft_of(&app).attributes[1].name, "email");
    click(&mut app, "property.classifier.apply").unwrap();
    let id = app.selected_element_id().unwrap();
    let cd = app.model().get(id).unwrap().classifier_data().unwrap();
    assert_eq!(cd.attributes.len(), 2);
    assert_eq!(cd.attributes[1].name, "email");
}

// ── The target list ─────────────────────────────────────────

#[test]
fn target_list_starts_with_history_file_and_tool_targets() {
    let app = make_app_with_diagram();
    let targets = app.qa_targets(Some("tool.class"));
    let ids: Vec<&str> = targets.iter().take(7).map(|t| t.id.as_str()).collect();
    assert_eq!(ids, vec!["history.undo", "history.redo", "file.new", "file.save", "app.quit", "tool.select", "tool.class"]);
    assert!(!targets[0].enabled);
    assert!(targets[3].enabled);
    assert_eq!(targets[6].label, "📦 Class");
    assert!(targets[6].selected);
    assert_eq!(targets.iter().filter(|t| t.selected).count(), 1);
    let new_class = target(&targets, "diagram.new.use_case").unwrap();
    assert_eq!(new_class.label, "New UseCase Diagram");
    assert_eq!(new_class.kind, "diagram");
}

#[test]
fn diagram_and_element_targets_carry_their_ids() {
    let cls = Class::new("Shape");
    let id = cls.base.id;
    let app = session_with_nodes(DiagramKind::Class, vec![ModelElement::Class(cls)]);
    let d = app.model().diagrams()[0].id;
    let targets = app.qa_targets(None);
    let dt = target(&targets, &format!("diagram:{}", d.to_text())).unwrap();
    assert_eq!(dt.label, "Test");
    assert_eq!(dt.diagram_id, Some(d));
    let et = target(&targets, &format!("element:{}", id.to_text())).unwrap();
    assert_eq!(et.label, "Class: Shape");
    assert_eq!(et.element_id, Some(id));
    let add = target(&targets, &format!("element.add_to_diagram:{}", id.to_text())).unwrap();
    assert!(!add.enabled);
    let canvas = target(&targets, "canvas").unwrap();
    assert_eq!(canvas.diagram_id, Some(d));
}

#[test]
fn classifier_draft_targets_are_numbered() {
    let (app, id) = classifier_with_features();
    let targets = app.qa_targets(None);
    let t = target(&targets, "property.classifier.operation.0.parameter.0.direction.inout").unwrap();
    assert_eq!(t.label, "Op 0 Param 0 inout");
    assert_eq!(t.element_id, Some(id));
    assert_eq!(target(&targets, "property.classifier.attribute.0.delete").unwrap().label, "Delete Attr 0");
    assert_eq!(target(&targets, "property.classifier.operation.0.parameter.add").unwrap().kind, "action");
    assert!(target(&targets, "property.classifier.attribute.1.name").is_none());
}

// ── Clicks ──────────────────────────────────────────────────

#[test]
fn unknown_or_disabled_targets_are_refused() {
    let mut app = make_app_with_diagram();
    assert_eq!(app.click_target("no.such.target", None), Err("target is unavailable or stale: no.such.target".to_string()));
    assert_eq!(app.click_target("history.undo", None), Err("target is unavailable or stale: history.undo".to_string()));
}

#[test]
fn canvas_click_needs_coordinates_and_a_creation_tool() {
    let mut app = make_app_with_diagram();
    assert_eq!(app.click_target("canvas", None), Err("coordinates are invalid".to_string()));
    assert_eq!(app.click_target("canvas", Some(pt(1.0, 2.0))), Err("target has wrong kind: canvas".to_string()));
}

#[test]
fn clicking_a_class_tool_then_the_canvas_places_a_class() {
    let mut app = make_app_with_diagram();
    assert_eq!(click(&mut app, "tool.class"), Ok(ClickOutcome::Done));
    assert_eq!(app.current_tool(), ToolMode::CreateClass);
    app.click_target("canvas", Some(pt(30.0, 40.0))).unwrap();
    assert_eq!(app.model().len(), 1);
    assert_eq!(app.model().elements()[0].name(), "Class_1");
    assert_eq!(app.current_tool(), ToolMode::Select);
}

#[test]
fn file_and_viewport_clicks_are_left_to_the_application() {
    let cls = Class::new("A");
    let id = cls.base.id;
    let mut app = session_with_nodes(DiagramKind::Class, vec![ModelElement::Class(cls)]);
    assert_eq!(click(&mut app, "file.save"), Ok(ClickOutcome::Save));
    assert_eq!(click(&mut app, "file.new"), Ok(ClickOutcome::NewProject));
    assert_eq!(click(&mut app, "app.quit"), Ok(ClickOutcome::Quit));
    let add = format!("element.add_to_diagram:{}", id.to_text());
    assert_eq!(app.click_target(&add, None), Err(format!("target is unavailable or stale: {add}")));
}

#[test]
fn diagram_creation_targets_create_and_activate() {
    let mut app = EditorSession::new(UmlModel::new(), false);
    app.set_current_file_path(Some("/tmp/p.xmi"));
    click(&mut app, "diagram.new.use_case").unwrap();
    assert_eq!(app.model().diagrams().len(), 1);
    assert_eq!(app.model().diagrams()[0].name, "UseCase_1");
    assert_eq!(app.active_diagram(), Some(0));
    click(&mut app, "diagram.new").unwrap();
    assert!(app.new_diagram_open());
    let d = app.model().diagrams()[0].id;
    click(&mut app, &format!("diagram:{}", d.to_text())).unwrap();
    assert_eq!(app.active_diagram(), Some(0));
}

#[test]
fn classifier_operation_clicks_edit_the_draft() {
    let (mut app, _) = classifier_with_features();
    let revision = app.state_revision();
    click(&mut app, "property.classifier.operation.0.parameter.add").unwrap();
    let d = draft_of(&app);
    assert_eq!(d.operations[0].parameters.len(), 2);
    assert_eq!(d.operations[0].parameters[1].name, "parameter_1");
    assert_eq!(d.operations[0].parameters[1].direction, ParameterDirection::In);
    assert_eq!(app.state_revision(), revision + 1);
    click(&mut app, "property.classifier.operation.0.parameter.1.direction.return").unwrap();
    assert_eq!(draft_of(&app).operations[0].parameters[1].direction, ParameterDirection::Return);
    click(&mut app, "property.classifier.operation.0.parameter.0.delete").unwrap();
    assert_eq!(draft_of(&app).operations[0].parameters.len(), 1);
    assert_eq!(draft_of(&app).operations[0].parameters[0].name, "parameter_1");
    click(&mut app, "property.classifier.operation.0.visibility.protected").unwrap();
    assert_eq!(draft_of(&app).operations[0].visibility, Visibility::Protected);
    click(&mut app, "property.classifier.operation.0.virtual").unwrap();
    assert!(!draft_of(&app).operations[0].is_virtual);
    click(&mut app, "property.classifier.operation.0.abstract").unwrap();
    assert!(draft_of(&app).operations[0].is_abstract);
    click(&mut app, "property.classifier.operation.add").unwrap();
    assert_eq!(draft_of(&app).operations[1].name, "operation_1");
    click(&mut app, "property.classifier.operation.0.delete").unwrap();
    assert_eq!(draft_of(&app).operations.len(), 1);
    assert_eq!(draft_of(&app).operations[0].name, "operation_1");
}

#[test]
fn classifier_attribute_clicks_edit_the_draft() {
    let (mut app, _) = classifier_with_features();
    click(&mut app, "property.classifier.attribute.0.visibility.public").unwrap();
    assert_eq!(draft_of(&app).attributes[0].visibility, Visibility::Public);
    click(&mut app, "property.classifier.attribute.0.static").unwrap();
    assert!(draft_of(&app).attributes[0].is_static);
    click(&mut app, "property.classifier.attribute.0.delete").unwrap();
    assert!(draft_of(&app).attributes.is_empty());
    click(&mut app, "property.classifier.revert").unwrap();
    assert_eq!(draft_of(&app).attributes.len(), 1);
    assert_eq!(app.status_message(), "Classifier draft reverted");
}

#[test]
fn element_flags_and_visibility_clicks_go_through_history() {
    let (mut app, id) = classifier_with_features();
    click(&mut app, "property.abstract").unwrap();
    assert!(app.model().get(id).unwrap().base().is_abstract);
    click(&mut app, "property.visibility.private").unwrap();
    assert_eq!(app.model().get(id).unwrap().base().visibility, Visibility::Private);
    click(&mut app, "history.undo").unwrap();
    assert_eq!(app.model().get(id).unwrap().base().visibility, Visibility::Public);
}

#[test]
fn decisions_name_the_action() {
    let (app, _) = classifier_with_features();
    assert_eq!(
        app.decide_click("property.classifier.operation.0.parameter.0.direction.out", None),
        Ok(ClickAction::EditDraft(DraftEdit::ParameterDirection(0, 0, ParameterDirection::Out)))
    );
    assert_eq!(
        app.decide_click("property.classifier.operation.0.static", None),
        Ok(ClickAction::EditDraft(DraftEdit::ToggleOperation(0, OperationFlag::Static)))
    );
    assert_eq!(app.decide_click("tool.select", None), Ok(ClickAction::ChooseTool(ToolMode::Select)));
}

#[test]
fn id_text_helpers() {
    assert_eq!(strip_prefix_text("tool.class", "tool."), Some("class".to_string()));
    assert_eq!(strip_prefix_text("tool", "tool."), None);
    assert_eq!(first_dot_pos("12.name"), Some(2));
    assert_eq!(first_dot_pos("name"), None);
    assert_eq!(parse_index("+7"), Some(7));
    assert_eq!(parse_index("x"), None);
}

// ── Errors, ids, repository, drag state ─────────────────────

#[test]
fn qa_error_messages() {
    assert_eq!(QaError::UnavailableTarget("x".into()).message(), "target is unavailable or stale: x");
    assert_eq!(QaError::WrongTargetKind("canvas".into()).message(), "target has wrong kind: canvas");
    assert_eq!(QaError::InvalidValue("v".into()).message(), "invalid value: v");
    assert_eq!(QaError::Command("c".into()).message(), "command failed: c");
    assert_eq!(QaError::Screenshot("s".into()).message(), "screenshot failed: s");
    assert_eq!(QaError::NotReady.message(), "UI is not ready");
    assert_eq!(QaError::QueueFull.message(), "QA request queue is full");
    assert_eq!(QaError::Disconnected.message(), "QA bridge is disconnected");
    assert_eq!(QaError::Cancelled.message(), "QA request was cancelled");
    assert_eq!(QaError::Timeout.message(), "QA request timed out");
    assert_eq!(QaError::InvalidCoordinates.message(), "coordinates are invalid");
    assert_eq!(QaError::Shutdown.message(), "UI is shutting down");
}

#[test]
fn new_ids_are_version_four() {
    for v in [UmlId::new().value, DiagramId::new().value, EdgeId::new().value, UmlId::default().value] {
        assert_eq!((v >> 76) & 0xF, 4);
        assert_eq!((v >> 62) & 0x3, 2);
    }
    assert_eq!(UmlId::new().to_text().as_bytes()[14], b'4');
}

#[test]
fn repository_new_is_default() {
    let a = ModelRepository::new();
    let b = ModelRepository::default();
    assert_eq!(format!("{a:?}"), format!("{b:?}"));
}

#[test]
fn normalizing_drops_the_drag_and_preview_state() {
    let cls = Class::new("A");
    let id = cls.base.id;
    let mut app = session_with_nodes(DiagramKind::Class, vec![ModelElement::Class(cls)]);
    app.begin_node_drag(id, pt(10.0, 20.0));
    app.update_node_drag(pt(50.0, 60.0));
    app.set_preview_position(Some(pt(1.0, 1.0)));
    app.set_drag_source(Some(id));
    assert_eq!(app.dragged_node(), Some(id));
    app.normalize_transient_state();
    assert_eq!(app.dragged_node(), None);
    assert_eq!(app.preview_position(), None);
    assert_eq!(app.drag_source(), None);
    assert_eq!(app.take_node_drag(), (None, None, None));
}

#[test]
fn taking_the_drag_clears_it() {
    let cls = Class::new("A");
    let id = cls.base.id;
    let mut app = session_with_nodes(DiagramKind::Class, vec![ModelElement::Class(cls)]);
    app.begin_node_drag(id, pt(10.0, 20.0));
    app.update_node_drag(pt(50.0, 60.0));
    assert_eq!(app.take_node_drag(), (Some(id), Some(pt(10.0, 20.0)), Some(pt(50.0, 60.0))));
    assert_eq!(app.dragged_node(), None);
}

#[test]
fn choosing_a_tool_drops_the_edge_being_drawn() {
    let cls = Class::new("A");
    let id = cls.base.id;
    let mut app = session_with_nodes(DiagramKind::Class, vec![ModelElement::Class(cls)]);
    app.set_drag_source(Some(id));
    app.set_preview_position(Some(pt(1.0, 1.0)));
    app.choose_tool(ToolMode::CreateAssociation).unwrap();
    assert_eq!(app.drag_source(), None);
    assert_eq!(app.preview_position(), None);
}

#[test]
fn redo_restores_the_first_created_diagram_and_activates_it() {
    let mut app = EditorSession::new(UmlModel::new(), false);
    app.set_current_file_path(Some("/tmp/p.xmi"));
    let id = app.create_supported_diagram(DiagramKind::Component).unwrap();
    app.undo_action().unwrap();
    assert!(app.model().diagrams().is_empty());
    assert_eq!(app.active_diagram(), None);
    app.redo_action().unwrap();
    assert_eq!(app.model().diagrams().len(), 1);
    assert_eq!(app.model().diagrams()[0].id, id);
    assert_eq!(app.active_diagram(), Some(0));
    assert!(app.is_dirty());
}

#[test]
fn draft_edits_report_missing_features() {
    let mut d = ClassifierDraft { attributes: Vec::new(), operations: Vec::new() };
    assert!(!d.remove_attribute(0));
    assert!(!d.add_parameter(0));
    d.add_operation();
    assert!(d.add_parameter(0));
    assert!(d.add_parameter(0));
    assert_eq!(d.operations[0].parameters[1].name, "parameter_2");
    assert!(d.set_parameter_direction(0, 1, ParameterDirection::InOut));
    assert!(!d.set_parameter_direction(0, 2, ParameterDirection::InOut));
    assert!(d.remove_parameter(0, 0));
    assert!(d.toggle_operation_flag(0, OperationFlag::Static));
    assert!(d.operations[0].is_static);
    assert!(d.set_operation_visibility(0, Visibility::Implementation));
    d.add_attribute();
    assert!(d.set_attribute_visibility(0, Visibility::Private));
    assert!(d.toggle_attribute_static(0));
    let copy = d.duplicate();
    assert_eq!(copy.attributes[0].name, "attribute_1");
    assert_eq!(copy.operations[0].parameters.len(), 1);
    assert!(d.remove_operation(0));
    assert!(d.operations.is_empty());
}

#[test]
fn edge_creation_round_trips_through_undo() {
    let a = Class::new("A");
    let b = Class::new("B");
    let (ia, ib) = (a.base.id, b.base.id);
    let mut model = UmlModel::new();
    model.insert(ModelElement::Class(a));
    model.insert(ModelElement::Class(b));
    let mut d = Diagram::new("D", DiagramKind::Class);
    d.add_node(ia, ViewNode::new(ia, rect(0.0, 0.0, 10.0, 10.0)));
    d.add_node(ib, ViewNode::new(ib, rect(20.0, 0.0, 10.0, 10.0)));
    let did = d.id;
    model.add_diagram(d);
    let mut c = CreateEdge::new(did, ia, ib, AssociationType::Association);
    let rel = c.relationship_id();
    let edge = c.edge_id();
    c.execute(&mut model).unwrap();
    c.undo(&mut model).unwrap();
    assert!(model.get(rel).is_none());
    assert!(model.diagrams()[0].get_edge(edge).is_none());
    c.execute(&mut model).unwrap();
    assert!(model.get(rel).is_some());
    assert_eq!(model.diagrams()[0].get_edge(edge).unwrap().relationship_id, rel);
}

#[test]
fn undone_diagram_creation_comes_back_as_it_was_undone() {
    let mut model = UmlModel::new();
    model.add_diagram(Diagram::new("First", DiagramKind::Class));
    let created = Diagram::new("Created", DiagramKind::UseCase);
    let id = created.id;
    let mut c = umbrello::undo::commands::CreateDiagram::new(&model, created).unwrap();
    c.execute(&mut model).unwrap();
    model.get_diagram_mut(id).unwrap().set_zoom_percent(250f64.to_bits());
    c.undo(&mut model).unwrap();
    assert_eq!(model.diagrams().len(), 1);
    assert!(c.undo(&mut model).is_err());
    c.execute(&mut model).unwrap();
    assert_eq!(model.diagrams()[1].id, id);
    assert_eq!(model.diagrams()[1].zoom_percent(), 250f64.to_bits());
}

// ── Cursor, snapshot and coordinates ────────────────────────

#[test]
fn canvas_click_with_coordinates_that_are_not_finite_places_nothing() {
    let mut app = make_app_with_diagram();
    assert_eq!(click(&mut app, "tool.class"), Ok(ClickOutcome::Done));
    let before = app.state_revision();
    assert_eq!(app.click_target("canvas", Some(pt(f64::NAN, 40.0))), Err("coordinates are invalid".to_string()));
    assert_eq!(app.click_target("canvas", Some(pt(30.0, f64::INFINITY))), Err("coordinates are invalid".to_string()));
    assert_eq!(app.click_target("canvas", Some(pt(f64::NEG_INFINITY, f64::NAN))), Err("coordinates are invalid".to_string()));
    assert_eq!(app.model().len(), 0);
    assert_eq!(app.current_tool(), ToolMode::CreateClass);
    assert_eq!(app.state_revision(), before);
    assert!(!app.is_dirty());
}

#[test]
fn canvas_click_with_bad_coordinates_is_refused_before_the_tool_is_checked() {
    let mut app = make_app_with_diagram();
    assert_eq!(app.click_target("canvas", Some(pt(f64::NAN, 1.0))), Err("coordinates are invalid".to_string()));
}

#[test]
fn qa_click_without_a_cursor_is_refused() {
    let mut app = make_app_with_diagram();
    assert_eq!(app.qa_cursor(), None);
    assert_eq!(app.qa_click(None), Err("target is unavailable or stale: no selected QA target".to_string()));
}

#[test]
fn qa_select_sets_the_cursor_and_qa_click_clicks_it() {
    let mut app = make_app_with_diagram();
    let before = app.state_revision();
    assert_eq!(app.qa_select("tool.class"), Ok(()));
    assert_eq!(app.qa_cursor(), Some("tool.class"));
    assert_eq!(app.state_revision(), before + 1);
    assert_eq!(app.qa_click(None), Ok(ClickOutcome::Done));
    assert_eq!(app.current_tool(), ToolMode::CreateClass);
    assert_eq!(app.qa_select("canvas"), Ok(()));
    app.qa_click(Some(pt(30.0, 40.0))).unwrap();
    assert_eq!(app.model().len(), 1);
}

#[test]
fn qa_select_refuses_unknown_and_disabled_targets() {
    let mut app = make_app_with_diagram();
    let before = app.state_revision();
    assert_eq!(app.qa_select("no.such.target"), Err("target is unavailable or stale: no.such.target".to_string()));
    assert_eq!(app.qa_select("history.undo"), Err("target is unavailable or stale: history.undo".to_string()));
    assert_eq!(app.qa_cursor(), None);
    assert_eq!(app.state_revision(), before);
}

#[test]
fn snapshot_carries_cursor_selection_zoom_and_pan() {
    let cls = Class::new("A");
    let id = cls.base.id;
    let mut app = session_with_nodes(DiagramKind::Class, vec![ModelElement::Class(cls)]);
    app.select_element(id).unwrap();
    app.qa_select("tool.class").unwrap();
    let pan = (5.0f64.to_bits(), 7.0f64.to_bits());
    let snap = app.qa_snapshot(3, 2, pan);
    assert!(snap.ready);
    assert_eq!(snap.ui_frame, 3);
    assert_eq!(snap.rendered_revision, 2);
    assert_eq!(snap.state_revision, app.state_revision());
    assert_eq!(snap.selected_element, Some(id));
    assert_eq!(snap.selected_qa_target, Some("tool.class".to_string()));
    assert_eq!(snap.zoom_percent, Some(100.0f64.to_bits()));
    assert_eq!(snap.pan, Some(pan));
    assert_eq!(snap.active_diagram, Some(app.model().diagrams()[0].id));
    assert_eq!(snap.active_tool, app.current_tool().label());
    for t in &snap.targets {
        assert_eq!(t.selected, t.id == "tool.class");
    }
    assert!(target(&snap.targets, "tool.class").is_some());
}

#[test]
fn snapshot_without_an_active_diagram_has_no_zoom_or_pan() {
    let mut app = EditorSession::new(UmlModel::new(), false);
    app.set_current_file_path(Some("/tmp/p.xmi"));
    let snap = app.qa_snapshot(0, 0, (0, 0));
    assert_eq!(snap.active_diagram, None);
    assert_eq!(snap.zoom_percent, None);
    assert_eq!(snap.pan, None);
    assert_eq!(snap.selected_qa_target, None);
    assert!(snap.targets.iter().all(|t| !t.selected));
}

// ── Setting text ────────────────────────────────────────────

#[test]
fn qa_set_text_without_a_cursor_is_refused() {
    let mut app = make_app_with_diagram();
    assert_eq!(app.qa_set_text("x"), Err("target is unavailable or stale: no selected QA target".to_string()));
}

#[test]
fn file_new_text_is_left_to_the_application_when_the_project_is_saved() {
    let mut app = make_app_with_diagram();
    app.qa_select("file.new").unwrap();
    assert_eq!(app.qa_set_text("/tmp/next.xmi"), Ok(TextField::NewProjectPath));
    assert_eq!(app.model().diagrams().len(), 1);
}

#[test]
fn file_new_text_is_refused_while_the_project_has_unsaved_changes() {
    let cls = Class::new("DirtyClass");
    let id = cls.base.id;
    let mut app = session_with_nodes(DiagramKind::Class, vec![ModelElement::Class(cls)]);
    app.set_documentation(id, "changed").unwrap();
    assert!(app.is_dirty());
    let depth = app.history().undo_depth();
    app.qa_select("file.new").unwrap();
    assert_eq!(
        app.qa_set_text("/tmp/elsewhere.xmi"),
        Err("invalid value: save the current project before creating a new project".to_string())
    );
    assert!(app.is_dirty());
    assert_eq!(app.history().undo_depth(), depth);
    assert_eq!(app.model().len(), 1);
}

#[test]
fn documentation_text_goes_through_the_history() {
    let cls = Class::new("Doc");
    let id = cls.base.id;
    let mut app = session_with_nodes(DiagramKind::Class, vec![ModelElement::Class(cls)]);
    app.select_element(id).unwrap();
    assert_eq!(app.set_target_text("property.documentation", "notes"), Ok(TextField::Documentation(id)));
    assert_eq!(app.model().get(id).unwrap().base().documentation, "notes");
    app.undo_action().unwrap();
    assert_eq!(app.model().get(id).unwrap().base().documentation, "");
}

#[test]
fn classifier_texts_are_set_by_index_and_field() {
    let (mut app, _) = classifier_with_features();
    let before = app.state_revision();
    assert_eq!(
        app.set_target_text("property.classifier.attribute.0.type", "Text"),
        Ok(TextField::Attribute(0, AttributeField::TypeText))
    );
    assert_eq!(
        app.set_target_text("property.classifier.attribute.0.initial_value", "\"none\""),
        Ok(TextField::Attribute(0, AttributeField::InitialValue))
    );
    assert_eq!(
        app.set_target_text("property.classifier.operation.0.return_type", "Text"),
        Ok(TextField::Operation(0, OperationField::ReturnType))
    );
    assert_eq!(
        app.set_target_text("property.classifier.operation.0.parameter.0.default_value", "false"),
        Ok(TextField::Parameter(0, 0, ParameterField::DefaultValue))
    );
    let d = draft_of(&app);
    assert_eq!(d.attributes[0].type_text, "Text");
    assert_eq!(d.attributes[0].initial_value, "\"none\"");
    assert_eq!(d.operations[0].return_type_text, "Text");
    assert_eq!(d.operations[0].parameters[0].default_value, "false");
    assert_eq!(app.state_revision(), before + 4);
}

#[test]
fn classifier_texts_with_bad_indexes_or_fields_are_refused() {
    let (mut app, _) = classifier_with_features();
    let before = app.state_revision();
    assert_eq!(
        app.set_target_text("property.classifier.attribute.7.name", "x"),
        Err("target is unavailable or stale: property.classifier.attribute.7.name".to_string())
    );
    assert_eq!(
        app.set_target_text("property.classifier.operation.0.static", "x"),
        Err("target is unavailable or stale: property.classifier.operation.0.static".to_string())
    );
    assert_eq!(
        app.set_target_text("property.classifier.attribute.0.delete", "x"),
        Err("target is unavailable or stale: property.classifier.attribute.0.delete".to_string())
    );
    let d = draft_of(&app);
    assert_eq!(d.attributes[0].name, "name");
    assert_eq!(d.operations[0].name, "getName");
    assert_eq!(app.state_revision(), before);
}

#[test]
fn text_targets_need_a_selected_element() {
    let mut app = make_app_with_diagram();
    assert_eq!(
        app.set_target_text("property.name", "x"),
        Err("target is unavailable or stale: property.name".to_string())
    );
}

// ── Dragging ────────────────────────────────────────────────

#[test]
fn canvas_drag_pans_the_active_view_and_counts_the_change() {
    let mut app = make_app_with_diagram();
    app.qa_select("canvas").unwrap();
    let before = app.state_revision();
    let diagram_id = app.model().diagrams()[0].id;
    assert_eq!(
        app.qa_drag(Some(pt(12.0, -7.0)), None, ""),
        Ok(DragOutcome::Pan(diagram_id, pt(12.0, -7.0)))
    );
    assert_eq!(app.state_revision(), before + 1);
    assert!(!app.is_dirty());
    assert!(!app.history().can_undo());
    assert_eq!(app.qa_drag(Some(pt(f64::NAN, 0.0)), None, ""), Err("coordinates are invalid".to_string()));
    assert_eq!(app.qa_drag(None, None, ""), Err("coordinates are invalid".to_string()));
    assert_eq!(app.state_revision(), before + 1);
}

#[test]
fn canvas_drag_needs_the_selection_tool() {
    let mut app = make_app_with_diagram();
    app.qa_select("canvas").unwrap();
    app.set_current_tool(ToolMode::CreateClass);
    assert_eq!(app.qa_drag(Some(pt(1.0, 1.0)), None, ""), Err("target has wrong kind: canvas".to_string()));
}

#[test]
fn node_drag_moves_the_node_in_one_step() {
    let cls = Class::new("A");
    let id = cls.base.id;
    let mut app = session_with_nodes(DiagramKind::Class, vec![ModelElement::Class(cls)]);
    let target = format!("node:{}", id.to_text());
    app.qa_select(&target).unwrap();
    assert_eq!(app.qa_drag(None, None, ""), Err("coordinates are invalid".to_string()));
    assert_eq!(app.qa_drag(Some(pt(200.0, 150.0)), None, "200, 150"), Ok(DragOutcome::Done));
    assert_eq!(app.history().undo_depth(), 1);
    let bounds = app.model().diagrams()[0].get_node(id).unwrap().bounds;
    assert_eq!(bounds.origin, pt(200.0, 150.0));
    app.undo_action().unwrap();
    let bounds = app.model().diagrams()[0].get_node(id).unwrap().bounds;
    assert_eq!(bounds.origin, pt(10.0, 20.0));
}

#[test]
fn node_drag_to_another_node_draws_an_edge_and_returns_to_selection() {
    let a = Class::new("A");
    let a_id = a.base.id;
    let b = Class::new("B");
    let b_id = b.base.id;
    let mut app = session_with_nodes(DiagramKind::Class, vec![ModelElement::Class(a), ModelElement::Class(b)]);
    app.choose_tool(ToolMode::CreateAssociation).unwrap();
    app.qa_select(&format!("node:{}", a_id.to_text())).unwrap();
    let to = format!("node:{}", b_id.to_text());
    assert_eq!(app.qa_drag(None, Some(&to), ""), Ok(DragOutcome::Done));
    assert_eq!(app.model().len(), 3);
    assert_eq!(app.model().diagrams()[0].edge_count(), 1);
    assert_eq!(app.current_tool(), ToolMode::Select);
    assert_eq!(
        app.qa_drag(None, Some("canvas"), ""),
        Err("target has wrong kind: canvas".to_string())
    );
}

#[test]
fn drag_without_a_cursor_is_refused() {
    let mut app = make_app_with_diagram();
    assert_eq!(
        app.qa_drag(Some(pt(1.0, 1.0)), None, ""),
        Err("target is unavailable or stale: no selected QA target".to_string())
    );
}

#[test]
fn sync_waits_for_the_drawn_revision() {
    let app = make_app_with_diagram();
    let now = app.state_revision();
    assert_eq!(app.qa_sync(1, now, now + 1, (0, 0)).err(), Some("QA request timed out".to_string()));
    let snap = app.qa_sync(1, now, now, (0, 0)).unwrap();
    assert_eq!(snap.rendered_revision, now);
    assert_eq!(snap.state_revision, now);
}

#[test]
fn relationship_texts_edit_the_draft_and_need_one() {
    let a = Class::new("A");
    let a_id = a.base.id;
    let b = Class::new("B");
    let b_id = b.base.id;
    let mut app = session_with_nodes(DiagramKind::Class, vec![ModelElement::Class(a), ModelElement::Class(b)]);
    let rel = umbrello::elements::Relationship::new_association(a_id, b_id);
    let rel_id = rel.base.id;
    let create = umbrello::undo::commands::CreateElement::new(ModelElement::Relationship(rel));
    app.execute_command_result(UndoCommand::CreateElement(create)).unwrap();
    app.select_element(rel_id).unwrap();
    let before = app.state_revision();
    assert_eq!(
        app.set_target_text("property.relationship.target_multiplicity", "0..*"),
        Ok(TextField::Relationship(RelationshipField::TargetMultiplicity))
    );
    assert_eq!(
        app.set_target_text("property.relationship.name", "owns"),
        Ok(TextField::Relationship(RelationshipField::Name))
    );
    let draft = app.relationship_draft().unwrap().1.clone();
    assert_eq!(draft.name, "owns");
    assert_eq!(draft.target_multiplicity, "0..*");
    assert_eq!(app.model().get(rel_id).unwrap().name(), "");
    assert_eq!(app.state_revision(), before + 2);
}
