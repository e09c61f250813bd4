use umbrello::compartments::{attribute_line_text, literal_line_text, operation_line_text};
use umbrello::diagram::geometry::{Point, Rect};
use umbrello::diagram::node::ViewNode;
use umbrello::diagram::{Diagram, DiagramKind};
use umbrello::editor::ToolMode;
use umbrello::elements::{Attribute, Class, EnumLiteral, ModelElement, Operation, Parameter, TypeReference};
use umbrello::keys::tool_for_key;
use umbrello::repository::UmlModel;
use umbrello::session::EditorSession;
use umbrello::types::{ParameterDirection, Visibility};

fn session_with_class() -> (EditorSession, umbrello::id::UmlId) {
    let mut model = UmlModel::new();
    let mut d = Diagram::new("Test", DiagramKind::Class);
    let cls = Class::new("A");
    let id = cls.base.id;
    model.insert(ModelElement::Class(cls));
    d.add_node(id, ViewNode::new(id, Rect::new(0, 0, 0, 0)));
    model.add_diagram(d);
    let mut app = EditorSession::new(model, false);
    app.set_active_diagram(Some(0));
    app.set_current_file_path(Some("/tmp/keys.xmi"));
    (app, id)
}

#[test]
fn single_keys_choose_tools() {
    assert_eq!(tool_for_key('s'), Some(ToolMode::Select));
    assert_eq!(tool_for_key('c'), Some(ToolMode::CreateClass));
    assert_eq!(tool_for_key('i'), Some(ToolMode::CreateInterface));
    assert_eq!(tool_for_key('e'), Some(ToolMode::CreateEnum));
    assert_eq!(tool_for_key('d'), Some(ToolMode::CreateDatatype));
    assert_eq!(tool_for_key('p'), Some(ToolMode::CreatePackage));
    assert_eq!(tool_for_key('g'), Some(ToolMode::CreateGeneralization));
    assert_eq!(tool_for_key('r'), Some(ToolMode::CreateRealization));
    assert_eq!(tool_for_key('a'), Some(ToolMode::CreateAssociation));
    assert_eq!(tool_for_key('n'), Some(ToolMode::CreateDependency));
    assert_eq!(tool_for_key('t'), Some(ToolMode::CreateActor));
    assert_eq!(tool_for_key('u'), Some(ToolMode::CreateUseCase));
    assert_eq!(tool_for_key('x'), None);
}

#[test]
fn escape_cancels_a_node_drag_first() {
    let (mut app, id) = session_with_class();
    app.select_element(id).unwrap();
    app.begin_node_drag(id, Point::new(1, 2));
    app.press_escape();
    assert_eq!(app.dragged_node(), None);
    assert_eq!(app.selected_element_id(), Some(id));
    assert_eq!(app.status_message(), "Node drag cancelled");
}

#[test]
fn escape_then_clears_the_selection_then_the_edge_then_the_tool() {
    let (mut app, id) = session_with_class();
    app.select_element(id).unwrap();
    app.set_drag_source(Some(id));
    app.press_escape();
    assert_eq!(app.selected_element_id(), None);
    assert_eq!(app.status_message(), "Selection cleared");
    assert_eq!(app.drag_source(), Some(id));
    app.press_escape();
    assert_eq!(app.drag_source(), None);
    assert_eq!(app.status_message(), "Edge creation cancelled");
    app.set_current_tool(ToolMode::CreateClass);
    app.set_preview_position(Some(Point::new(3, 4)));
    app.press_escape();
    assert_eq!(app.current_tool(), ToolMode::Select);
    assert_eq!(app.preview_position(), None);
}

#[test]
fn undo_and_redo_shortcuts_report_on_the_status_line() {
    let (mut app, id) = session_with_class();
    assert!(app.undo_shortcut().is_err());
    app.rename_element(id, "B").unwrap();
    app.set_status("");
    app.undo_shortcut().unwrap();
    assert_eq!(app.model().get(id).unwrap().name(), "A");
    assert_eq!(app.status_message(), "Undo");
    app.redo_shortcut().unwrap();
    assert_eq!(app.model().get(id).unwrap().name(), "B");
    assert_eq!(app.status_message(), "Redo");
    assert!(app.redo_shortcut().is_err());
    assert_eq!(app.status_message(), "Redo");
}

#[test]
fn compartment_lines_show_marks_names_and_types() {
    let model = UmlModel::new();
    let attr = Attribute {
        name: "name".into(),
        type_ref: TypeReference::primitive("String"),
        visibility: Visibility::Private,
        initial_value: None,
        is_static: false,
    };
    assert_eq!(attribute_line_text(&attr, &model), "- name: String");
    let op = Operation {
        name: "move".into(),
        return_type: TypeReference::unspecified(),
        parameters: vec![
            Parameter {
                name: "dx".into(),
                type_ref: TypeReference::primitive("int"),
                direction: ParameterDirection::In,
                default_value: None,
            },
            Parameter {
                name: "dy".into(),
                type_ref: TypeReference::primitive("int"),
                direction: ParameterDirection::In,
                default_value: None,
            },
        ],
        visibility: Visibility::Public,
        is_static: false,
        is_abstract: false,
        is_virtual: false,
    };
    assert_eq!(operation_line_text(&op, &model), "+ move(dx: int, dy: int): void");
    let none = Operation { parameters: Vec::new(), visibility: Visibility::Protected, ..op };
    assert_eq!(operation_line_text(&none, &model), "# move(): void");
}

#[test]
fn compartment_types_resolve_through_the_model() {
    let mut model = UmlModel::new();
    let person = Class::new("Person");
    let pid = person.base.id;
    model.insert(ModelElement::Class(person));
    let attr = Attribute {
        name: "owner".into(),
        type_ref: TypeReference::model(pid),
        visibility: Visibility::Implementation,
        initial_value: None,
        is_static: false,
    };
    assert_eq!(attribute_line_text(&attr, &model), "~ owner: Person");
}

#[test]
fn literal_lines_show_values_when_there_are_some() {
    let red = EnumLiteral { name: "Red".into(), value: Some("1".into()) };
    let blue = EnumLiteral { name: "Blue".into(), value: None };
    assert_eq!(literal_line_text(&red), "Red = 1");
    assert_eq!(literal_line_text(&blue), "Blue");
}
