use umbrello::diagram::geometry::{Point, Size};
use umbrello::diagram::{Diagram, DiagramKind};
use umbrello::elements::{Class, ModelElement, Package};
use umbrello::id::UmlId;
use umbrello::repository::UmlModel;
use umbrello::undo::commands::{
    AddNodeToDiagram, CreateElement, DeleteElement, MoveElement, MoveNode, RemoveNodeFromDiagram,
    RenameElement, ResizeNode,
};
use umbrello::undo::history::{History, UndoCommand};
use umbrello::undo::{Command, CommandError};

fn pt(x: f64, y: f64) -> Point {
    Point::new(x.to_bits(), y.to_bits())
}

fn sz(w: f64, h: f64) -> Size {
    Size::new(w.to_bits(), h.to_bits())
}

fn capture_id_and_create(elem: ModelElement) -> (UndoCommand, UmlId) {
    let id = elem.id();
    (UndoCommand::CreateElement(CreateElement::new(elem)), id)
}

#[test]
fn history_starts_empty() {
    let h = History::new(100);
    assert!(!h.can_undo());
    assert!(!h.can_redo());
    assert_eq!(h.undo_depth(), 0);
}

#[test]
fn execute_pushes_to_undo() {
    let mut model = UmlModel::new();
    let mut history = History::new(100);

    let (cmd, _id) = capture_id_and_create(ModelElement::Class(Class::new("Test")));
    history.execute(cmd, &mut model).unwrap();

    assert!(history.can_undo());
    assert!(!history.can_redo());
    assert_eq!(model.len(), 1);
}

#[test]
fn undo_removes_element() {
    let mut model = UmlModel::new();
    let mut history = History::new(100);

    let (cmd, _id) = capture_id_and_create(ModelElement::Class(Class::new("Test")));
    history.execute(cmd, &mut model).unwrap();
    assert_eq!(model.len(), 1);

    history.undo(&mut model).unwrap();
    assert_eq!(model.len(), 0);
    assert!(!history.can_undo());
    assert!(history.can_redo());
}

#[test]
fn redo_restores_element() {
    let mut model = UmlModel::new();
    let mut history = History::new(100);

    let (cmd, _id) = capture_id_and_create(ModelElement::Class(Class::new("Test")));
    history.execute(cmd, &mut model).unwrap();
    history.undo(&mut model).unwrap();
    history.redo(&mut model).unwrap();

    assert_eq!(model.len(), 1);
    assert!(history.can_undo());
    assert!(!history.can_redo());
}

#[test]
fn new_action_clears_redo() {
    let mut model = UmlModel::new();
    let mut history = History::new(100);

    let (cmd_a, _id_a) = capture_id_and_create(ModelElement::Class(Class::new("A")));
    history.execute(cmd_a, &mut model).unwrap();
    history.undo(&mut model).unwrap();
    assert!(history.can_redo());

    let (cmd_b, _id_b) = capture_id_and_create(ModelElement::Class(Class::new("B")));
    history.execute(cmd_b, &mut model).unwrap();
    assert!(!history.can_redo());
}

#[test]
fn max_depth_trims_oldest() {
    let mut model = UmlModel::new();
    let mut history = History::new(3);

    for i in 0..5 {
        let name = format!("Class{i}");
        let (cmd, _id) = capture_id_and_create(ModelElement::Class(Class::new(&name)));
        history.execute(cmd, &mut model).unwrap();
    }

    assert_eq!(history.undo_depth(), 3);
    for _ in 0..3 {
        history.undo(&mut model).unwrap();
    }
    assert_eq!(model.len(), 2);
}

#[test]
fn disabled_mode() {
    let mut model = UmlModel::new();
    let mut history = History::new(100);
    history.set_disabled(true);

    let (cmd, _id) = capture_id_and_create(ModelElement::Class(Class::new("Test")));
    history.execute(cmd, &mut model).unwrap();

    assert_eq!(model.len(), 1);
    assert!(!history.can_undo());
}

#[test]
fn undo_and_redo_on_empty_history_fail() {
    let mut model = UmlModel::new();
    let mut history = History::default();
    let r = history.undo(&mut model);
    assert!(matches!(r, Err(CommandError::InvalidOperation(ref m)) if m == "nothing to undo"));
    let r = history.redo(&mut model);
    assert!(matches!(r, Err(CommandError::InvalidOperation(ref m)) if m == "nothing to redo"));
}

#[test]
fn failed_execute_is_not_recorded() {
    let mut model = UmlModel::new();
    let mut history = History::new(10);
    let mut used = CreateElement::new(ModelElement::Class(Class::new("Once")));
    used.execute(&mut model).unwrap();
    assert!(history.execute(UndoCommand::CreateElement(used), &mut model).is_err());
    assert!(!history.can_undo());
    assert_eq!(model.len(), 1);
}

#[test]
fn descriptions_and_clear() {
    let mut model = UmlModel::new();
    let mut history = History::new(10);
    let (cmd, _id) = capture_id_and_create(ModelElement::Class(Class::new("Described")));
    assert_eq!(history.undo_description(), None);
    history.execute(cmd, &mut model).unwrap();
    assert_eq!(history.undo_description(), Some("Create Class 'Described'"));
    history.undo(&mut model).unwrap();
    assert_eq!(history.redo_description(), Some("Create Class 'Described'"));
    history.clear();
    assert_eq!(history.undo_depth(), 0);
    assert_eq!(history.redo_depth(), 0);
    assert!(!history.is_disabled());
}

#[test]
fn zero_depth_history_keeps_nothing() {
    let mut model = UmlModel::new();
    let mut history = History::new(0);
    let (cmd, _id) = capture_id_and_create(ModelElement::Class(Class::new("Gone")));
    history.execute(cmd, &mut model).unwrap();
    assert_eq!(model.len(), 1);
    assert!(!history.can_undo());
}

#[test]
fn full_undo_redo_cycle() {
    let mut model = UmlModel::new();
    let mut history = History::new(100);

    let cls = ModelElement::Class(Class::new("Original"));
    let id = cls.id();
    history.execute(UndoCommand::CreateElement(CreateElement::new(cls)), &mut model).unwrap();
    assert_eq!(model.len(), 1);
    assert_eq!(model.get(id).unwrap().name(), "Original");

    history
        .execute(
            UndoCommand::RenameElement(RenameElement::new(&model, id, "Renamed".into()).unwrap()),
            &mut model,
        )
        .unwrap();
    assert_eq!(model.get(id).unwrap().name(), "Renamed");

    history
        .execute(UndoCommand::DeleteElement(DeleteElement::new(&model, id).unwrap()), &mut model)
        .unwrap();
    assert_eq!(model.len(), 0);

    history.undo(&mut model).unwrap();
    assert_eq!(model.len(), 1);
    assert_eq!(model.get(id).unwrap().name(), "Renamed");

    history.undo(&mut model).unwrap();
    assert_eq!(model.get(id).unwrap().name(), "Original");

    history.undo(&mut model).unwrap();
    assert_eq!(model.len(), 0);

    history.redo(&mut model).unwrap();
    assert_eq!(model.len(), 1);
    assert_eq!(model.get(id).unwrap().name(), "Original");

    history.redo(&mut model).unwrap();
    assert_eq!(model.get(id).unwrap().name(), "Renamed");

    history.redo(&mut model).unwrap();
    assert_eq!(model.len(), 0);
}

#[test]
fn undo_restores_same_id() {
    let mut model = UmlModel::new();
    let mut history = History::new(100);

    let cls = ModelElement::Class(Class::new("Persistent"));
    let original_id = cls.id();
    history.execute(UndoCommand::CreateElement(CreateElement::new(cls)), &mut model).unwrap();
    history.undo(&mut model).unwrap();
    history.redo(&mut model).unwrap();

    let restored = model.get(original_id).unwrap();
    assert_eq!(restored.name(), "Persistent");
    assert_eq!(restored.id(), original_id);
}

#[test]
fn create_package_with_child_then_undo() {
    let mut model = UmlModel::new();
    let mut history = History::new(100);

    let pkg = ModelElement::Package(Package::new("Root"));
    let pkg_id = pkg.id();
    let cls = ModelElement::Class(Class::new("Child"));
    let cls_id = cls.id();

    history.execute(UndoCommand::CreateElement(CreateElement::new(pkg)), &mut model).unwrap();
    history.execute(UndoCommand::CreateElement(CreateElement::new(cls)), &mut model).unwrap();

    let move_cmd = MoveElement::new(&model, cls_id, Some(pkg_id)).unwrap();
    history.execute(UndoCommand::MoveElement(move_cmd), &mut model).unwrap();
    assert_eq!(model.parents_of(cls_id), Some(&[pkg_id][..]));

    history.undo(&mut model).unwrap();
    assert_eq!(model.parents_of(cls_id), Some(&[][..]));

    history.undo(&mut model).unwrap();
    assert_eq!(model.len(), 1);
}

#[test]
fn history_disabled_during_load() {
    let mut model = UmlModel::new();
    let mut history = History::new(100);
    history.set_disabled(true);

    for i in 0..10 {
        let name = format!("Class{i}");
        history
            .execute(
                UndoCommand::CreateElement(CreateElement::new(ModelElement::Class(Class::new(&name)))),
                &mut model,
            )
            .unwrap();
    }

    assert_eq!(model.len(), 10);
    assert!(!history.can_undo());
}

#[test]
fn place_node_then_move_and_resize_with_undo() {
    let mut model = UmlModel::new();
    let mut history: History = History::new(100);

    let cls = ModelElement::Class(Class::new("Widget"));
    let cls_id = cls.id();
    history.execute(UndoCommand::CreateElement(CreateElement::new(cls)), &mut model).unwrap();

    let diag = Diagram::new("Main", DiagramKind::Class);
    let diag_id = diag.id;
    model.add_diagram(diag);

    let add_cmd = AddNodeToDiagram::new(diag_id, cls_id, pt(10.0, 10.0), sz(100.0, 50.0));
    history.execute(UndoCommand::AddNodeToDiagram(add_cmd), &mut model).unwrap();

    {
        let d = model.get_diagram(diag_id).unwrap();
        let node = d.get_node(cls_id).unwrap();
        assert_eq!(node.bounds.origin, pt(10.0, 10.0));
        assert_eq!(node.bounds.size, sz(100.0, 50.0));
    }

    let move_cmd = MoveNode::new(&model, diag_id, cls_id, pt(50.0, 100.0), "50, 100").unwrap();
    history.execute(UndoCommand::MoveNode(move_cmd), &mut model).unwrap();
    {
        let d = model.get_diagram(diag_id).unwrap();
        let node = d.get_node(cls_id).unwrap();
        assert_eq!(node.bounds.origin, pt(50.0, 100.0));
    }

    let resize_cmd = ResizeNode::new(&model, diag_id, cls_id, sz(150.0, 80.0), "150×80").unwrap();
    history.execute(UndoCommand::ResizeNode(resize_cmd), &mut model).unwrap();
    {
        let d = model.get_diagram(diag_id).unwrap();
        let node = d.get_node(cls_id).unwrap();
        assert_eq!(node.bounds.size, sz(150.0, 80.0));
    }

    history.undo(&mut model).unwrap();
    {
        let d = model.get_diagram(diag_id).unwrap();
        assert_eq!(d.get_node(cls_id).unwrap().bounds.size, sz(100.0, 50.0));
    }

    history.undo(&mut model).unwrap();
    {
        let d = model.get_diagram(diag_id).unwrap();
        assert_eq!(d.get_node(cls_id).unwrap().bounds.origin, pt(10.0, 10.0));
    }

    history.redo(&mut model).unwrap();
    {
        let d = model.get_diagram(diag_id).unwrap();
        assert_eq!(d.get_node(cls_id).unwrap().bounds.origin, pt(50.0, 100.0));
    }

    history.redo(&mut model).unwrap();
    {
        let d = model.get_diagram(diag_id).unwrap();
        assert_eq!(d.get_node(cls_id).unwrap().bounds.size, sz(150.0, 80.0));
    }
}

#[test]
fn add_and_remove_node_from_diagram() {
    let mut model = UmlModel::new();
    let mut history = History::new(100);

    let cls = ModelElement::Class(Class::new("Test"));
    let cls_id = cls.id();
    history.execute(UndoCommand::CreateElement(CreateElement::new(cls)), &mut model).unwrap();

    let diag = Diagram::new("D", DiagramKind::Class);
    let diag_id = diag.id;
    model.add_diagram(diag);

    history
        .execute(
            UndoCommand::AddNodeToDiagram(AddNodeToDiagram::new(
                diag_id,
                cls_id,
                pt(0.0, 0.0),
                sz(100.0, 50.0),
            )),
            &mut model,
        )
        .unwrap();
    assert_eq!(model.get_diagram(diag_id).unwrap().node_count(), 1);

    let rm_cmd = RemoveNodeFromDiagram::new(&model, diag_id, cls_id).unwrap();
    history.execute(UndoCommand::RemoveNodeFromDiagram(rm_cmd), &mut model).unwrap();
    assert_eq!(model.get_diagram(diag_id).unwrap().node_count(), 0);

    history.undo(&mut model).unwrap();
    assert_eq!(model.get_diagram(diag_id).unwrap().node_count(), 1);

    history.redo(&mut model).unwrap();
    assert_eq!(model.get_diagram(diag_id).unwrap().node_count(), 0);
}

#[test]
fn undo_description_names_the_last_executed_command() {
    let mut model = UmlModel::new();
    let mut history = History::new(100);
    assert_eq!(history.undo_description(), None);
    let (cmd, _id) = capture_id_and_create(ModelElement::Class(Class::new("Test")));
    assert_eq!(cmd.description(), "Create Class 'Test'");
    history.execute(cmd, &mut model).unwrap();
    assert_eq!(history.undo_description(), Some("Create Class 'Test'"));
    assert_eq!(history.redo_description(), None);
}

#[test]
fn undo_moves_the_description_to_redo_and_redo_moves_it_back() {
    let mut model = UmlModel::new();
    let mut history = History::new(100);
    let (first, _a) = capture_id_and_create(ModelElement::Class(Class::new("A")));
    let (second, _b) = capture_id_and_create(ModelElement::Package(Package::new("P")));
    history.execute(first, &mut model).unwrap();
    history.execute(second, &mut model).unwrap();
    assert_eq!(history.undo_description(), Some("Create Package 'P'"));
    history.undo(&mut model).unwrap();
    assert_eq!(history.redo_description(), Some("Create Package 'P'"));
    assert_eq!(history.undo_description(), Some("Create Class 'A'"));
    history.redo(&mut model).unwrap();
    assert_eq!(history.undo_description(), Some("Create Package 'P'"));
    assert_eq!(history.redo_description(), None);
}

#[test]
fn redo_of_a_node_removal_after_undo_gives_the_diagram_of_the_removal() {
    let mut model = UmlModel::new();
    let mut history = History::new(100);
    let mut diag = Diagram::new("D", DiagramKind::Class);
    let diag_id = diag.id;
    let first = UmlId::new();
    let second = UmlId::new();
    diag.add_node(first, umbrello::diagram::node::ViewNode::new(first, umbrello::diagram::geometry::Rect::new(0, 0, 0, 0)));
    diag.add_node(second, umbrello::diagram::node::ViewNode::new(second, umbrello::diagram::geometry::Rect::new(0, 0, 0, 0)));
    model.add_diagram(diag);
    let rm = RemoveNodeFromDiagram::new(&model, diag_id, first).unwrap();
    history.execute(UndoCommand::RemoveNodeFromDiagram(rm), &mut model).unwrap();
    let d = model.get_diagram(diag_id).unwrap();
    assert_eq!(d.node_count(), 1);
    assert_eq!(d.node_at(0).model_element_id, second);
    history.undo(&mut model).unwrap();
    let d = model.get_diagram(diag_id).unwrap();
    assert_eq!(d.node_count(), 2);
    assert_eq!(d.node_at(0).model_element_id, second);
    assert_eq!(d.node_at(1).model_element_id, first);
    history.redo(&mut model).unwrap();
    let d = model.get_diagram(diag_id).unwrap();
    assert_eq!(d.node_count(), 1);
    assert_eq!(d.node_at(0).model_element_id, second);
}

#[test]
fn redo_of_a_rename_sets_the_new_name_whatever_undo_restored() {
    let mut model = UmlModel::new();
    let mut history = History::new(100);
    let cls = Class::new("Old");
    let id = cls.base.id;
    model.insert(ModelElement::Class(cls));
    let rename = RenameElement::new(&model, id, "New".to_string()).unwrap();
    history.execute(UndoCommand::RenameElement(rename), &mut model).unwrap();
    assert_eq!(model.get(id).unwrap().name(), "New");
    history.undo(&mut model).unwrap();
    assert_eq!(model.get(id).unwrap().name(), "Old");
    history.redo(&mut model).unwrap();
    assert_eq!(model.get(id).unwrap().name(), "New");
}

#[test]
fn redo_of_a_node_addition_that_replaced_the_last_node_gives_the_same_diagram() {
    let mut model = UmlModel::new();
    let mut history = History::new(100);
    let mut diag = Diagram::new("D", DiagramKind::Class);
    let diag_id = diag.id;
    let first = UmlId::new();
    let second = UmlId::new();
    diag.add_node(first, umbrello::diagram::node::ViewNode::new(first, umbrello::diagram::geometry::Rect::new(0, 0, 0, 0)));
    diag.add_node(second, umbrello::diagram::node::ViewNode::new(second, umbrello::diagram::geometry::Rect::new(0, 0, 0, 0)));
    model.add_diagram(diag);
    let add = AddNodeToDiagram::new(diag_id, second, pt(5.0, 6.0), sz(10.0, 20.0));
    history.execute(UndoCommand::AddNodeToDiagram(add), &mut model).unwrap();
    let d = model.get_diagram(diag_id).unwrap();
    assert_eq!(d.node_count(), 2);
    assert_eq!(d.node_at(1).model_element_id, second);
    let moved = d.node_at(1).bounds;
    history.undo(&mut model).unwrap();
    assert_eq!(model.get_diagram(diag_id).unwrap().node_count(), 1);
    history.redo(&mut model).unwrap();
    let d = model.get_diagram(diag_id).unwrap();
    assert_eq!(d.node_count(), 2);
    assert_eq!(d.node_at(0).model_element_id, first);
    assert_eq!(d.node_at(1).model_element_id, second);
    assert_eq!(d.node_at(1).bounds, moved);
}

fn children_of(model: &UmlModel, id: UmlId) -> Vec<UmlId> {
    match model.get(id) {
        Some(ModelElement::Package(p)) => p.children.clone(),
        _ => Vec::new(),
    }
}

#[test]
fn redo_of_a_move_from_the_middle_of_a_package_gives_the_moved_model() {
    let mut model = UmlModel::new();
    let mut history = History::new(100);
    let source = Package::new("Source");
    let source_id = source.base.id;
    let dest = Package::new("Dest");
    let dest_id = dest.base.id;
    let a = Class::new("A");
    let a_id = a.base.id;
    let b = Class::new("B");
    let b_id = b.base.id;
    model.insert(ModelElement::Package(source));
    model.insert(ModelElement::Package(dest));
    model.insert(ModelElement::Class(a));
    model.insert(ModelElement::Class(b));
    model.add_to_package(source_id, a_id).unwrap();
    model.add_to_package(source_id, b_id).unwrap();
    let mv = MoveElement::new(&model, a_id, Some(dest_id)).unwrap();
    history.execute(UndoCommand::MoveElement(mv), &mut model).unwrap();
    assert_eq!(children_of(&model, source_id), vec![b_id]);
    assert_eq!(children_of(&model, dest_id), vec![a_id]);
    history.undo(&mut model).unwrap();
    assert_eq!(children_of(&model, source_id), vec![b_id, a_id]);
    assert_eq!(children_of(&model, dest_id), Vec::<UmlId>::new());
    history.redo(&mut model).unwrap();
    assert_eq!(children_of(&model, source_id), vec![b_id]);
    assert_eq!(children_of(&model, dest_id), vec![a_id]);
    assert_eq!(model.parents_of(a_id), Some(&[dest_id][..]));
}
