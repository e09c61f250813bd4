//! Bounded undo/redo history.
use crate::diagram::entries::has_key;
use crate::repository::{diagram_index, model_valid, UmlModel, UmlModelView};
use crate::undo::commands::{
    found_node, lemma_add_node_redo_after_undo, lemma_add_node_round_trip, lemma_change_documentation_round_trip,
    lemma_change_flags_round_trip, lemma_change_visibility_round_trip,
    lemma_create_diagram_round_trip, lemma_create_edge_round_trip,
    lemma_create_element_redo_after_undo, lemma_create_element_round_trip, lemma_create_with_node_round_trip,
    lemma_delete_element_executes, lemma_delete_element_round_trip, lemma_delete_element_undoes, lemma_move_element_round_trip, lemma_move_node_round_trip,
    move_redoes, move_reverts, lemma_move_element_redo_after_undo, lemma_remove_node_round_trip,
    lemma_rename_round_trip, lemma_resize_node_round_trip, lemma_update_classifier_round_trip,
    lemma_update_relationship_round_trip, AddNodeToDiagram, ChangeDocumentation,
    ChangeElementFlags, ChangeVisibility, CreateDiagram, CreateEdge, CreateElement,
    CreateElementWithNode, DeleteElement, MoveElement, MoveNode, RemoveNodeFromDiagram,
    RenameElement, ResizeNode, UpdateClassifierFeatures, UpdateRelationship,
};
use crate::undo::round_trips::{
    lemma_create_edge_redo_restores,
    lemma_change_documentation_redo_after_undo, lemma_change_flags_redo_after_undo,
    lemma_change_visibility_redo_after_undo, lemma_remove_node_redo_after_undo, lemma_rename_redo_after_undo,
};
use crate::undo::{invalid, invalid_operation, outcome, succeeded, Command, CommandError, CommandErrorView};
use vstd::prelude::*;

verus! {

/// Any of the model commands, as kept on the undo and redo stacks.
#[derive(Debug)]
pub enum UndoCommand {
    CreateElement(CreateElement),
    DeleteElement(DeleteElement),
    RenameElement(RenameElement),
    ChangeVisibility(ChangeVisibility),
    ChangeElementFlags(ChangeElementFlags),
    ChangeDocumentation(ChangeDocumentation),
    MoveElement(MoveElement),
    CreateDiagram(CreateDiagram),
    UpdateRelationship(UpdateRelationship),
    UpdateClassifierFeatures(UpdateClassifierFeatures),
    CreateElementWithNode(CreateElementWithNode),
    AddNodeToDiagram(AddNodeToDiagram),
    RemoveNodeFromDiagram(RemoveNodeFromDiagram),
    MoveNode(MoveNode),
    ResizeNode(ResizeNode),
    CreateEdge(CreateEdge),
}

impl Command for UndoCommand {
    open spec fn inv(self) -> bool {
        match self {
            UndoCommand::CreateElement(c) => c.inv(),
            UndoCommand::DeleteElement(c) => c.inv(),
            UndoCommand::RenameElement(c) => c.inv(),
            UndoCommand::ChangeVisibility(c) => c.inv(),
            UndoCommand::ChangeElementFlags(c) => c.inv(),
            UndoCommand::ChangeDocumentation(c) => c.inv(),
            UndoCommand::MoveElement(c) => c.inv(),
            UndoCommand::CreateDiagram(c) => c.inv(),
            UndoCommand::UpdateRelationship(c) => c.inv(),
            UndoCommand::UpdateClassifierFeatures(c) => c.inv(),
            UndoCommand::CreateElementWithNode(c) => c.inv(),
            UndoCommand::AddNodeToDiagram(c) => c.inv(),
            UndoCommand::RemoveNodeFromDiagram(c) => c.inv(),
            UndoCommand::MoveNode(c) => c.inv(),
            UndoCommand::ResizeNode(c) => c.inv(),
            UndoCommand::CreateEdge(c) => c.inv(),
        }
    }

    open spec fn executes(
        self,
        after: Self,
        before: UmlModelView,
        after_model: UmlModelView,
        r: Result<(), CommandErrorView>,
    ) -> bool {
        match (self, after) {
            (UndoCommand::CreateElement(c), UndoCommand::CreateElement(d)) => c.executes(d, before, after_model, r),
            (UndoCommand::DeleteElement(c), UndoCommand::DeleteElement(d)) => c.executes(d, before, after_model, r),
            (UndoCommand::RenameElement(c), UndoCommand::RenameElement(d)) => c.executes(d, before, after_model, r),
            (UndoCommand::ChangeVisibility(c), UndoCommand::ChangeVisibility(d)) => c.executes(d, before, after_model, r),
            (UndoCommand::ChangeElementFlags(c), UndoCommand::ChangeElementFlags(d)) => c.executes(d, before, after_model, r),
            (UndoCommand::ChangeDocumentation(c), UndoCommand::ChangeDocumentation(d)) => c.executes(d, before, after_model, r),
            (UndoCommand::MoveElement(c), UndoCommand::MoveElement(d)) => c.executes(d, before, after_model, r),
            (UndoCommand::CreateDiagram(c), UndoCommand::CreateDiagram(d)) => c.executes(d, before, after_model, r),
            (UndoCommand::UpdateRelationship(c), UndoCommand::UpdateRelationship(d)) => c.executes(d, before, after_model, r),
            (UndoCommand::UpdateClassifierFeatures(c), UndoCommand::UpdateClassifierFeatures(d)) => c.executes(d, before, after_model, r),
            (UndoCommand::CreateElementWithNode(c), UndoCommand::CreateElementWithNode(d)) => c.executes(d, before, after_model, r),
            (UndoCommand::AddNodeToDiagram(c), UndoCommand::AddNodeToDiagram(d)) => c.executes(d, before, after_model, r),
            (UndoCommand::RemoveNodeFromDiagram(c), UndoCommand::RemoveNodeFromDiagram(d)) => c.executes(d, before, after_model, r),
            (UndoCommand::MoveNode(c), UndoCommand::MoveNode(d)) => c.executes(d, before, after_model, r),
            (UndoCommand::ResizeNode(c), UndoCommand::ResizeNode(d)) => c.executes(d, before, after_model, r),
            (UndoCommand::CreateEdge(c), UndoCommand::CreateEdge(d)) => c.executes(d, before, after_model, r),
            _ => false,
        }
    }

    open spec fn undoes(
        self,
        after: Self,
        before: UmlModelView,
        after_model: UmlModelView,
        r: Result<(), CommandErrorView>,
    ) -> bool {
        match (self, after) {
            (UndoCommand::CreateElement(c), UndoCommand::CreateElement(d)) => c.undoes(d, before, after_model, r),
            (UndoCommand::DeleteElement(c), UndoCommand::DeleteElement(d)) => c.undoes(d, before, after_model, r),
            (UndoCommand::RenameElement(c), UndoCommand::RenameElement(d)) => c.undoes(d, before, after_model, r),
            (UndoCommand::ChangeVisibility(c), UndoCommand::ChangeVisibility(d)) => c.undoes(d, before, after_model, r),
            (UndoCommand::ChangeElementFlags(c), UndoCommand::ChangeElementFlags(d)) => c.undoes(d, before, after_model, r),
            (UndoCommand::ChangeDocumentation(c), UndoCommand::ChangeDocumentation(d)) => c.undoes(d, before, after_model, r),
            (UndoCommand::MoveElement(c), UndoCommand::MoveElement(d)) => c.undoes(d, before, after_model, r),
            (UndoCommand::CreateDiagram(c), UndoCommand::CreateDiagram(d)) => c.undoes(d, before, after_model, r),
            (UndoCommand::UpdateRelationship(c), UndoCommand::UpdateRelationship(d)) => c.undoes(d, before, after_model, r),
            (UndoCommand::UpdateClassifierFeatures(c), UndoCommand::UpdateClassifierFeatures(d)) => c.undoes(d, before, after_model, r),
            (UndoCommand::CreateElementWithNode(c), UndoCommand::CreateElementWithNode(d)) => c.undoes(d, before, after_model, r),
            (UndoCommand::AddNodeToDiagram(c), UndoCommand::AddNodeToDiagram(d)) => c.undoes(d, before, after_model, r),
            (UndoCommand::RemoveNodeFromDiagram(c), UndoCommand::RemoveNodeFromDiagram(d)) => c.undoes(d, before, after_model, r),
            (UndoCommand::MoveNode(c), UndoCommand::MoveNode(d)) => c.undoes(d, before, after_model, r),
            (UndoCommand::ResizeNode(c), UndoCommand::ResizeNode(d)) => c.undoes(d, before, after_model, r),
            (UndoCommand::CreateEdge(c), UndoCommand::CreateEdge(d)) => c.undoes(d, before, after_model, r),
            _ => false,
        }
    }

    open spec fn description_text(self) -> Seq<char> {
        match self {
            UndoCommand::CreateElement(c) => c.description_text(),
            UndoCommand::DeleteElement(c) => c.description_text(),
            UndoCommand::RenameElement(c) => c.description_text(),
            UndoCommand::ChangeVisibility(c) => c.description_text(),
            UndoCommand::ChangeElementFlags(c) => c.description_text(),
            UndoCommand::ChangeDocumentation(c) => c.description_text(),
            UndoCommand::MoveElement(c) => c.description_text(),
            UndoCommand::CreateDiagram(c) => c.description_text(),
            UndoCommand::UpdateRelationship(c) => c.description_text(),
            UndoCommand::UpdateClassifierFeatures(c) => c.description_text(),
            UndoCommand::CreateElementWithNode(c) => c.description_text(),
            UndoCommand::AddNodeToDiagram(c) => c.description_text(),
            UndoCommand::RemoveNodeFromDiagram(c) => c.description_text(),
            UndoCommand::MoveNode(c) => c.description_text(),
            UndoCommand::ResizeNode(c) => c.description_text(),
            UndoCommand::CreateEdge(c) => c.description_text(),
        }
    }

    fn execute(&mut self, model: &mut UmlModel) -> (r: Result<(), CommandError>) {
        match self {
            UndoCommand::CreateElement(c) => c.execute(model),
            UndoCommand::DeleteElement(c) => c.execute(model),
            UndoCommand::RenameElement(c) => c.execute(model),
            UndoCommand::ChangeVisibility(c) => c.execute(model),
            UndoCommand::ChangeElementFlags(c) => c.execute(model),
            UndoCommand::ChangeDocumentation(c) => c.execute(model),
            UndoCommand::MoveElement(c) => c.execute(model),
            UndoCommand::CreateDiagram(c) => c.execute(model),
            UndoCommand::UpdateRelationship(c) => c.execute(model),
            UndoCommand::UpdateClassifierFeatures(c) => c.execute(model),
            UndoCommand::CreateElementWithNode(c) => c.execute(model),
            UndoCommand::AddNodeToDiagram(c) => c.execute(model),
            UndoCommand::RemoveNodeFromDiagram(c) => c.execute(model),
            UndoCommand::MoveNode(c) => c.execute(model),
            UndoCommand::ResizeNode(c) => c.execute(model),
            UndoCommand::CreateEdge(c) => c.execute(model),
        }
    }

    fn undo(&mut self, model: &mut UmlModel) -> (r: Result<(), CommandError>) {
        match self {
            UndoCommand::CreateElement(c) => c.undo(model),
            UndoCommand::DeleteElement(c) => c.undo(model),
            UndoCommand::RenameElement(c) => c.undo(model),
            UndoCommand::ChangeVisibility(c) => c.undo(model),
            UndoCommand::ChangeElementFlags(c) => c.undo(model),
            UndoCommand::ChangeDocumentation(c) => c.undo(model),
            UndoCommand::MoveElement(c) => c.undo(model),
            UndoCommand::CreateDiagram(c) => c.undo(model),
            UndoCommand::UpdateRelationship(c) => c.undo(model),
            UndoCommand::UpdateClassifierFeatures(c) => c.undo(model),
            UndoCommand::CreateElementWithNode(c) => c.undo(model),
            UndoCommand::AddNodeToDiagram(c) => c.undo(model),
            UndoCommand::RemoveNodeFromDiagram(c) => c.undo(model),
            UndoCommand::MoveNode(c) => c.undo(model),
            UndoCommand::ResizeNode(c) => c.undo(model),
            UndoCommand::CreateEdge(c) => c.undo(model),
        }
    }

    fn description(&self) -> (s: &str) {
        match self {
            UndoCommand::CreateElement(c) => c.description(),
            UndoCommand::DeleteElement(c) => c.description(),
            UndoCommand::RenameElement(c) => c.description(),
            UndoCommand::ChangeVisibility(c) => c.description(),
            UndoCommand::ChangeElementFlags(c) => c.description(),
            UndoCommand::ChangeDocumentation(c) => c.description(),
            UndoCommand::MoveElement(c) => c.description(),
            UndoCommand::CreateDiagram(c) => c.description(),
            UndoCommand::UpdateRelationship(c) => c.description(),
            UndoCommand::UpdateClassifierFeatures(c) => c.description(),
            UndoCommand::CreateElementWithNode(c) => c.description(),
            UndoCommand::AddNodeToDiagram(c) => c.description(),
            UndoCommand::RemoveNodeFromDiagram(c) => c.description(),
            UndoCommand::MoveNode(c) => c.description(),
            UndoCommand::ResizeNode(c) => c.description(),
            UndoCommand::CreateEdge(c) => c.description(),
        }
    }
}

impl UndoCommand {
    /// When undoing this command right after it executed successfully on
    /// model `m` gives `m` back: the command's recorded "before" state must
    /// still be the model's, and what it adds must not be there yet. A moved
    /// element comes back as the last child of its package, so a move reverts
    /// only where it was the last child there.
    pub open spec fn reverts_on(self, m: UmlModelView) -> bool {
        match self {
            UndoCommand::CreateElement(c) => !m.elements.contains_key(c.target()),
            UndoCommand::DeleteElement(c) => m.elements.contains_key(c.target()),
            UndoCommand::RenameElement(c) => m.elements[c.target()].name() == c.previous(),
            UndoCommand::ChangeVisibility(c) => m.elements[c.target()].base().visibility == c.previous(),
            UndoCommand::ChangeElementFlags(c) => (
                m.elements[c.target()].base().is_abstract,
                m.elements[c.target()].base().is_static,
            ) == c.previous(),
            UndoCommand::ChangeDocumentation(c) => m.elements[c.target()].base().documentation
                == c.previous(),
            UndoCommand::MoveElement(c) => move_reverts(m, c.target(), c.source(), c.destination()),
            UndoCommand::CreateDiagram(_) => true,
            UndoCommand::UpdateRelationship(_) => true,
            UndoCommand::UpdateClassifierFeatures(_) => true,
            UndoCommand::CreateElementWithNode(_) => true,
            UndoCommand::AddNodeToDiagram(c) => found_node(m, c.diagram(), c.target()) is None,
            UndoCommand::RemoveNodeFromDiagram(c) => match diagram_index(m.diagrams, c.diagram()) {
                Some(i) => has_key(m.diagrams[i].nodes, c.target().value) ==> m.diagrams[i].nodes.last().0
                    == c.target().value,
                None => true,
            },
            UndoCommand::MoveNode(_) => true,
            UndoCommand::ResizeNode(_) => true,
            UndoCommand::CreateEdge(c) => {
                &&& !m.elements.contains_key(c.relationship())
                &&& match diagram_index(m.diagrams, c.diagram()) {
                    Some(i) => !has_key(m.diagrams[i].edges, c.edge().value),
                    None => true,
                }
            },
        }
    }

    /// When executing this command again right after undoing its successful
    /// execution on `m` gives the model of the first execution. For a node
    /// addition or an edge creation the diagram must have no entry under the
    /// id yet, or have it last: where the entry stands before others, the
    /// first execution replaces it in place and the second puts it last. For
    /// a move the element must stand at most once in its source and not in
    /// its destination (`move_redoes`). Every other command redoes on every
    /// model.
    pub open spec fn redoes_on(self, m: UmlModelView) -> bool {
        match self {
            UndoCommand::AddNodeToDiagram(c) => match diagram_index(m.diagrams, c.diagram()) {
                Some(i) => has_key(m.diagrams[i].nodes, c.target().value) ==> m.diagrams[i].nodes.last().0
                    == c.target().value,
                None => true,
            },
            UndoCommand::CreateEdge(c) => match diagram_index(m.diagrams, c.diagram()) {
                Some(i) => has_key(m.diagrams[i].edges, c.edge().value) ==> m.diagrams[i].edges.last().0
                    == c.edge().value,
                None => true,
            },
            UndoCommand::MoveElement(c) => move_redoes(m, c.target(), c.source(), c.destination()),
            _ => true,
        }
    }

    /// Redo after undo: executing a command again right after its
    /// successful execution was undone successfully gives the model of the
    /// first execution (when `redoes_on` holds).
    pub proof fn lemma_redo_after_undo(
        c: UndoCommand,
        c1: UndoCommand,
        c2: UndoCommand,
        m0: UmlModelView,
        m1: UmlModelView,
        m2: UmlModelView,
    )
        requires
            c.inv(),
            model_valid(m0),
            c.redoes_on(m0),
            c.executes(c1, m0, m1, succeeded()),
            c1.undoes(c2, m1, m2, succeeded()),
        ensures
            forall|c3: UndoCommand, m3: UmlModelView, r3: Result<(), CommandErrorView>|
                #[trigger] c2.executes(c3, m2, m3, r3) ==> m3 == m1 && r3 == succeeded(),
    {
        match (c, c1, c2) {
            (
                UndoCommand::RemoveNodeFromDiagram(a),
                UndoCommand::RemoveNodeFromDiagram(b),
                UndoCommand::RemoveNodeFromDiagram(d),
            ) => {
                lemma_remove_node_redo_after_undo(a, b, m0, m1, d, m2, succeeded());
                assert forall|c3: UndoCommand, m3: UmlModelView, r3: Result<(), CommandErrorView>|
                    #[trigger] c2.executes(c3, m2, m3, r3) implies m3 == m1 && r3 == succeeded() by {
                    match c3 {
                        UndoCommand::RemoveNodeFromDiagram(e) => {
                            assert(d.executes(e, m2, m3, r3));
                        },
                        _ => {},
                    }
                }
            },
            (UndoCommand::CreateElement(a), UndoCommand::CreateElement(b), UndoCommand::CreateElement(d)) => {
                lemma_create_element_redo_after_undo(a, b, d, m0, m1, m2, succeeded());
                assert forall|c3: UndoCommand, m3: UmlModelView, r3: Result<(), CommandErrorView>|
                    #[trigger] c2.executes(c3, m2, m3, r3) implies m3 == m1 && r3 == succeeded() by {
                    if let UndoCommand::CreateElement(e) = c3 {
                        assert(d.executes(e, m2, m3, r3));
                    }
                }
            },
            (UndoCommand::RenameElement(a), UndoCommand::RenameElement(b), UndoCommand::RenameElement(d)) => {
                lemma_rename_redo_after_undo(a, b, d, m0, m1, m2, succeeded());
                assert forall|c3: UndoCommand, m3: UmlModelView, r3: Result<(), CommandErrorView>|
                    #[trigger] c2.executes(c3, m2, m3, r3) implies m3 == m1 && r3 == succeeded() by {
                    if let UndoCommand::RenameElement(e) = c3 {
                        assert(d.executes(e, m2, m3, r3));
                    }
                }
            },
            (UndoCommand::ChangeVisibility(a), UndoCommand::ChangeVisibility(b), UndoCommand::ChangeVisibility(d)) => {
                lemma_change_visibility_redo_after_undo(a, b, d, m0, m1, m2, succeeded());
                assert forall|c3: UndoCommand, m3: UmlModelView, r3: Result<(), CommandErrorView>|
                    #[trigger] c2.executes(c3, m2, m3, r3) implies m3 == m1 && r3 == succeeded() by {
                    if let UndoCommand::ChangeVisibility(e) = c3 {
                        assert(d.executes(e, m2, m3, r3));
                    }
                }
            },
            (UndoCommand::ChangeElementFlags(a), UndoCommand::ChangeElementFlags(b), UndoCommand::ChangeElementFlags(d)) => {
                lemma_change_flags_redo_after_undo(a, b, d, m0, m1, m2, succeeded());
                assert forall|c3: UndoCommand, m3: UmlModelView, r3: Result<(), CommandErrorView>|
                    #[trigger] c2.executes(c3, m2, m3, r3) implies m3 == m1 && r3 == succeeded() by {
                    if let UndoCommand::ChangeElementFlags(e) = c3 {
                        assert(d.executes(e, m2, m3, r3));
                    }
                }
            },
            (UndoCommand::ChangeDocumentation(a), UndoCommand::ChangeDocumentation(b), UndoCommand::ChangeDocumentation(d)) => {
                lemma_change_documentation_redo_after_undo(a, b, d, m0, m1, m2, succeeded());
                assert forall|c3: UndoCommand, m3: UmlModelView, r3: Result<(), CommandErrorView>|
                    #[trigger] c2.executes(c3, m2, m3, r3) implies m3 == m1 && r3 == succeeded() by {
                    if let UndoCommand::ChangeDocumentation(e) = c3 {
                        assert(d.executes(e, m2, m3, r3));
                    }
                }
            },
            (UndoCommand::AddNodeToDiagram(a), UndoCommand::AddNodeToDiagram(b), UndoCommand::AddNodeToDiagram(d)) => {
                lemma_add_node_redo_after_undo(a, b, d, m0, m1, m2, succeeded());
                assert forall|c3: UndoCommand, m3: UmlModelView, r3: Result<(), CommandErrorView>|
                    #[trigger] c2.executes(c3, m2, m3, r3) implies m3 == m1 && r3 == succeeded() by {
                    if let UndoCommand::AddNodeToDiagram(e) = c3 {
                        assert(d.executes(e, m2, m3, r3));
                    }
                }
            },
            (UndoCommand::CreateEdge(a), UndoCommand::CreateEdge(b), UndoCommand::CreateEdge(d)) => {
                lemma_create_edge_redo_restores(a, b, m0, m1, d, m2, succeeded());
                assert forall|c3: UndoCommand, m3: UmlModelView, r3: Result<(), CommandErrorView>|
                    #[trigger] c2.executes(c3, m2, m3, r3) implies m3 == m1 && r3 == succeeded() by {
                    if let UndoCommand::CreateEdge(e) = c3 {
                        assert(d.executes(e, m2, m3, r3));
                    }
                }
            },
            (UndoCommand::MoveElement(a), UndoCommand::MoveElement(b), UndoCommand::MoveElement(d)) => {
                lemma_move_element_redo_after_undo(a, b, d, m0, m1, m2);
                assert forall|c3: UndoCommand, m3: UmlModelView, r3: Result<(), CommandErrorView>|
                    #[trigger] c2.executes(c3, m2, m3, r3) implies m3 == m1 && r3 == succeeded() by {
                    if let UndoCommand::MoveElement(e) = c3 {
                        assert(d.executes(e, m2, m3, r3));
                    }
                }
            },
            (UndoCommand::DeleteElement(a), UndoCommand::DeleteElement(b), UndoCommand::DeleteElement(d)) => {
                lemma_delete_element_executes(a, b, m0, m1, succeeded());
                lemma_delete_element_undoes(b, d, m1, m2, succeeded());
                assert(m0.elements.contains_key(a.target()));
                UndoCommand::lemma_round_trip(c, c1, c2, m0, m1, m2, succeeded());
            },
            _ => {
                UndoCommand::lemma_round_trip(c, c1, c2, m0, m1, m2, succeeded());
            },
        }
    }

    /// Undo reverses execute: undoing a command right after it executed
    /// successfully on a model gives that model back (when `reverts_on`
    /// holds), and executing it again then gives the same model as the first
    /// execution.
    pub proof fn lemma_round_trip(
        c: UndoCommand,
        c1: UndoCommand,
        c2: UndoCommand,
        m0: UmlModelView,
        m1: UmlModelView,
        m2: UmlModelView,
        r2: Result<(), CommandErrorView>,
    )
        requires
            c.inv(),
            model_valid(m0),
            c.reverts_on(m0),
            c.executes(c1, m0, m1, succeeded()),
            c1.undoes(c2, m1, m2, r2),
        ensures
            r2 == succeeded(),
            m2 == m0,
            forall|c3: UndoCommand, m3: UmlModelView, r3: Result<(), CommandErrorView>|
                c2.executes(c3, m2, m3, r3) ==> m3 == m1 && r3 == succeeded(),
    {
        match (c, c1, c2) {
            (UndoCommand::CreateElement(a), UndoCommand::CreateElement(b), UndoCommand::CreateElement(d)) => {
                lemma_create_element_round_trip(a, b, d, m0, m1, m2, r2);
            },
            (UndoCommand::DeleteElement(a), UndoCommand::DeleteElement(b), UndoCommand::DeleteElement(d)) => {
                lemma_delete_element_round_trip(a, b, d, m0, m1, m2, succeeded(), r2);
            },
            (UndoCommand::RenameElement(a), UndoCommand::RenameElement(b), UndoCommand::RenameElement(d)) => {
                lemma_rename_round_trip(a, b, d, m0, m1, m2, r2);
            },
            (UndoCommand::ChangeVisibility(a), UndoCommand::ChangeVisibility(b), UndoCommand::ChangeVisibility(d)) => {
                lemma_change_visibility_round_trip(a, b, d, m0, m1, m2, r2);
            },
            (UndoCommand::ChangeElementFlags(a), UndoCommand::ChangeElementFlags(b), UndoCommand::ChangeElementFlags(d)) => {
                lemma_change_flags_round_trip(a, b, d, m0, m1, m2, r2);
            },
            (UndoCommand::ChangeDocumentation(a), UndoCommand::ChangeDocumentation(b), UndoCommand::ChangeDocumentation(d)) => {
                lemma_change_documentation_round_trip(a, b, d, m0, m1, m2, r2);
            },
            (UndoCommand::MoveElement(a), UndoCommand::MoveElement(b), UndoCommand::MoveElement(d)) => {
                lemma_move_element_round_trip(a, b, d, m0, m1, m2, r2);
            },
            (UndoCommand::CreateDiagram(a), UndoCommand::CreateDiagram(b), UndoCommand::CreateDiagram(d)) => {
                lemma_create_diagram_round_trip(a, b, d, m0, m1, m2, r2);
            },
            (UndoCommand::UpdateRelationship(a), UndoCommand::UpdateRelationship(b), UndoCommand::UpdateRelationship(d)) => {
                lemma_update_relationship_round_trip(a, b, d, m0, m1, m2, r2);
            },
            (UndoCommand::UpdateClassifierFeatures(a), UndoCommand::UpdateClassifierFeatures(b), UndoCommand::UpdateClassifierFeatures(d)) => {
                lemma_update_classifier_round_trip(a, b, d, m0, m1, m2, r2);
            },
            (UndoCommand::CreateElementWithNode(a), UndoCommand::CreateElementWithNode(b), UndoCommand::CreateElementWithNode(d)) => {
                lemma_create_with_node_round_trip(a, b, d, m0, m1, m2, r2);
            },
            (UndoCommand::AddNodeToDiagram(a), UndoCommand::AddNodeToDiagram(b), UndoCommand::AddNodeToDiagram(d)) => {
                lemma_add_node_round_trip(a, b, d, m0, m1, m2, r2);
            },
            (UndoCommand::RemoveNodeFromDiagram(a), UndoCommand::RemoveNodeFromDiagram(b), UndoCommand::RemoveNodeFromDiagram(d)) => {
                lemma_remove_node_round_trip(a, b, d, m0, m1, m2, r2);
            },
            (UndoCommand::MoveNode(a), UndoCommand::MoveNode(b), UndoCommand::MoveNode(d)) => {
                lemma_move_node_round_trip(a, b, d, m0, m1, m2, r2);
            },
            (UndoCommand::ResizeNode(a), UndoCommand::ResizeNode(b), UndoCommand::ResizeNode(d)) => {
                lemma_resize_node_round_trip(a, b, d, m0, m1, m2, r2);
            },
            (UndoCommand::CreateEdge(a), UndoCommand::CreateEdge(b), UndoCommand::CreateEdge(d)) => {
                lemma_create_edge_round_trip(a, b, d, m0, m1, m2, r2);
            },
            _ => {},
        }
    }
}

/// The mathematical value of a `History`.
pub struct HistoryView {
    /// Executed commands, oldest first.
    pub undo: Seq<UndoCommand>,
    /// Undone commands, the next one to redo last.
    pub redo: Seq<UndoCommand>,
    /// The largest number of commands kept for undo.
    pub max_depth: nat,
    /// Whether executed commands are left unrecorded.
    pub disabled: bool,
}

/// The history after recording an executed command: a recording history
/// pushes it, keeps only the newest `max_depth` commands and forgets what
/// could be redone; a disabled history stays as it is.
pub open spec fn recorded(h: HistoryView, c: UndoCommand) -> HistoryView {
    if h.disabled {
        h
    } else {
        let pushed = h.undo.push(c);
        HistoryView {
            undo: if pushed.len() > h.max_depth {
                pushed.subrange(pushed.len() - h.max_depth, pushed.len() as int)
            } else {
                pushed
            },
            redo: Seq::empty(),
            ..h
        }
    }
}

/// What `History::execute` does: the command runs on the model; on success
/// the resulting command is recorded, on failure the history is unchanged.
pub open spec fn history_executes(
    h0: HistoryView,
    c: UndoCommand,
    m0: UmlModelView,
    h1: HistoryView,
    m1: UmlModelView,
    r: Result<(), CommandErrorView>,
) -> bool {
    exists|after: UndoCommand|
        {
            &&& after.inv()
            &&& #[trigger] c.executes(after, m0, m1, r)
            &&& after.description_text() == c.description_text()
            &&& h1 == if r is Ok {
                recorded(h0, after)
            } else {
                h0
            }
        }
}

/// What `History::undo` does: with nothing to undo it fails and nothing
/// changes; otherwise the newest command leaves the undo stack and is
/// undone, and on success it goes onto the redo stack.
pub open spec fn history_undoes(
    h0: HistoryView,
    m0: UmlModelView,
    h1: HistoryView,
    m1: UmlModelView,
    r: Result<(), CommandErrorView>,
) -> bool {
    if h0.undo.len() == 0 {
        h1 == h0 && m1 == m0 && r == invalid("nothing to undo"@)
    } else {
        exists|after: UndoCommand|
            {
                &&& after.inv()
                &&& #[trigger] h0.undo.last().undoes(after, m0, m1, r)
                &&& after.description_text() == h0.undo.last().description_text()
                &&& h1 == if r is Ok {
                    HistoryView { undo: h0.undo.drop_last(), redo: h0.redo.push(after), ..h0 }
                } else {
                    HistoryView { undo: h0.undo.drop_last(), ..h0 }
                }
            }
    }
}

/// What `History::redo` does: with nothing to redo it fails and nothing
/// changes; otherwise the newest undone command leaves the redo stack and is
/// executed again, and on success it goes back onto the undo stack.
pub open spec fn history_redoes(
    h0: HistoryView,
    m0: UmlModelView,
    h1: HistoryView,
    m1: UmlModelView,
    r: Result<(), CommandErrorView>,
) -> bool {
    if h0.redo.len() == 0 {
        h1 == h0 && m1 == m0 && r == invalid("nothing to redo"@)
    } else {
        exists|after: UndoCommand|
            {
                &&& after.inv()
                &&& #[trigger] h0.redo.last().executes(after, m0, m1, r)
                &&& after.description_text() == h0.redo.last().description_text()
                &&& h1 == if r is Ok {
                    HistoryView { undo: h0.undo.push(after), redo: h0.redo.drop_last(), ..h0 }
                } else {
                    HistoryView { redo: h0.redo.drop_last(), ..h0 }
                }
            }
    }
}

/// A history value that a well-formed history can have: every kept command
/// is consistent, and the undo and redo stacks together hold at most
/// `max_depth` commands.
pub open spec fn history_valid(h: HistoryView) -> bool {
    &&& forall|i: int| 0 <= i < h.undo.len() ==> (#[trigger] h.undo[i]).inv()
    &&& forall|i: int| 0 <= i < h.redo.len() ==> (#[trigger] h.redo[i]).inv()
    &&& h.undo.len() + h.redo.len() <= h.max_depth
}

/// Undo/redo history for model mutations, with a bounded undo stack.
///
/// Commands run through `execute` are recorded so that `undo` can reverse
/// them and `redo` can apply them again. Mutating the model directly
/// bypasses the history.
#[derive(Debug)]
pub struct History {
    undo_stack: Vec<UndoCommand>,
    redo_stack: Vec<UndoCommand>,
    max_depth: usize,
    disabled: bool,
}

impl View for History {
    type V = HistoryView;

    closed spec fn view(&self) -> HistoryView {
        HistoryView {
            undo: self.undo_stack@,
            redo: self.redo_stack@,
            max_depth: self.max_depth as nat,
            disabled: self.disabled,
        }
    }
}

impl History {
    /// The history's invariant.
    pub closed spec fn wf(&self) -> bool {
        history_valid(self@)
    }

    /// A well-formed history has a valid value.
    pub proof fn lemma_valid(&self)
        requires
            self.wf(),
        ensures
            history_valid(self@),
    {
    }

    /// Create an empty history that keeps at most `max_depth` commands.
    pub fn new(max_depth: usize) -> (h: Self)
        ensures
            h.wf(),
            h@ == (HistoryView {
                undo: Seq::empty(),
                redo: Seq::empty(),
                max_depth: max_depth as nat,
                disabled: false,
            }),
    {
        History { undo_stack: Vec::new(), redo_stack: Vec::new(), max_depth, disabled: false }
    }

    /// Execute a command and record it for undo.
    ///
    /// A recorded command clears the redo stack, and the oldest commands are
    /// dropped beyond `max_depth`. A disabled history executes without
    /// recording. When the command fails the history is unchanged and its
    /// error is returned.
    pub fn execute(&mut self, cmd: UndoCommand, model: &mut UmlModel) -> (r: Result<(), CommandError>)
        requires
            old(self).wf(),
            old(model).wf(),
            cmd.inv(),
        ensures
            final(self).wf(),
            final(model).wf(),
            history_executes(old(self)@, cmd, old(model)@, final(self)@, final(model)@, outcome(r)),
            r is Ok && !old(self)@.disabled && old(self)@.max_depth > 0 ==> final(self)@.undo.len() > 0
                && final(self)@.undo.last().description_text() == cmd.description_text(),
    {
        let ghost h0 = self@;
        let mut cmd = cmd;
        let ghost c0 = cmd;
        let r = cmd.execute(model);
        if r.is_err() {
            assert(c0.executes(cmd, old(model)@, model@, outcome(r)));
            return r;
        }
        if !self.disabled {
            self.redo_stack.clear();
            self.undo_stack.push(cmd);
            let ghost pushed = self.undo_stack@;
            if self.undo_stack.len() > self.max_depth {
                self.undo_stack.remove(0);
                assert(self.undo_stack@ =~= pushed.subrange(pushed.len() - h0.max_depth, pushed.len() as int));
            }
            assert(self.undo_stack@.len() <= self.max_depth);
        }
        assert(c0.executes(cmd, old(model)@, model@, outcome(r)));
        assert(self@ == recorded(h0, cmd));
        r
    }

    /// Undo the most recent command and move it to the redo stack.
    ///
    /// Fails with "nothing to undo" when there is no command to undo. When the
    /// command's undo fails, its error is returned and the command is
    /// dropped.
    pub fn undo(&mut self, model: &mut UmlModel) -> (r: Result<(), CommandError>)
        requires
            old(self).wf(),
            old(model).wf(),
        ensures
            final(self).wf(),
            final(model).wf(),
            history_undoes(old(self)@, old(model)@, final(self)@, final(model)@, outcome(r)),
            r is Ok ==> final(self)@.redo.len() > 0 && final(self)@.redo.last().description_text()
                == old(self)@.undo.last().description_text(),
    {
        let ghost h0 = self@;
        let popped = self.undo_stack.pop();
        let mut cmd = match popped {
            Some(c) => c,
            None => {
                proof {
                    reveal_strlit("nothing to undo");
                }
                return Err(invalid_operation("nothing to undo"));
            },
        };
        let ghost c0 = cmd;
        assert(c0 == h0.undo.last());
        let r = cmd.undo(model);
        assert(c0.undoes(cmd, old(model)@, model@, outcome(r)));
        if r.is_err() {
            return r;
        }
        self.redo_stack.push(cmd);
        r
    }

    /// Redo the most recently undone command and move it back to the undo
    /// stack.
    ///
    /// Fails with "nothing to redo" when there is no command to redo. When the
    /// command's execute fails, its error is returned and the command is
    /// dropped.
    pub fn redo(&mut self, model: &mut UmlModel) -> (r: Result<(), CommandError>)
        requires
            old(self).wf(),
            old(model).wf(),
        ensures
            final(self).wf(),
            final(model).wf(),
            history_redoes(old(self)@, old(model)@, final(self)@, final(model)@, outcome(r)),
            r is Ok ==> final(self)@.undo.len() > 0 && final(self)@.undo.last().description_text()
                == old(self)@.redo.last().description_text(),
    {
        let ghost h0 = self@;
        let popped = self.redo_stack.pop();
        let mut cmd = match popped {
            Some(c) => c,
            None => {
                proof {
                    reveal_strlit("nothing to redo");
                }
                return Err(invalid_operation("nothing to redo"));
            },
        };
        let ghost c0 = cmd;
        assert(c0 == h0.redo.last());
        let r = cmd.execute(model);
        assert(c0.executes(cmd, old(model)@, model@, outcome(r)));
        if r.is_err() {
            return r;
        }
        self.undo_stack.push(cmd);
        r
    }

    /// Whether there is a command to undo.
    pub fn can_undo(&self) -> (b: bool)
        ensures
            b == (self@.undo.len() > 0),
    {
        self.undo_stack.len() > 0
    }

    /// Whether there is a command to redo.
    pub fn can_redo(&self) -> (b: bool)
        ensures
            b == (self@.redo.len() > 0),
    {
        self.redo_stack.len() > 0
    }

    /// The description of the command that `undo` would undo.
    pub fn undo_description(&self) -> (r: Option<&str>)
        ensures
            match r {
                Some(s) => self@.undo.len() > 0 && s@ == self@.undo.last().description_text(),
                None => self@.undo.len() == 0,
            },
    {
        let n = self.undo_stack.len();
        if n == 0 {
            None
        } else {
            Some(self.undo_stack[n - 1].description())
        }
    }

    /// The description of the command that `redo` would redo.
    pub fn redo_description(&self) -> (r: Option<&str>)
        ensures
            match r {
                Some(s) => self@.redo.len() > 0 && s@ == self@.redo.last().description_text(),
                None => self@.redo.len() == 0,
            },
    {
        let n = self.redo_stack.len();
        if n == 0 {
            None
        } else {
            Some(self.redo_stack[n - 1].description())
        }
    }

    /// Turn recording on or off; commands still execute while it is off.
    pub fn set_disabled(&mut self, disabled: bool)
        requires
            old(self).wf(),
        ensures
            final(self).wf(),
            final(self)@ == (HistoryView { disabled, ..old(self)@ }),
    {
        self.disabled = disabled;
    }

    /// Whether recording is off.
    pub fn is_disabled(&self) -> (b: bool)
        ensures
            b == self@.disabled,
    {
        self.disabled
    }

    /// Forget all undo and redo history.
    pub fn clear(&mut self)
        requires
            old(self).wf(),
        ensures
            final(self).wf(),
            final(self)@ == (HistoryView { undo: Seq::empty(), redo: Seq::empty(), ..old(self)@ }),
    {
        self.undo_stack.clear();
        self.redo_stack.clear();
    }

    /// The number of commands that can be undone.
    pub fn undo_depth(&self) -> (n: usize)
        ensures
            n == self@.undo.len(),
    {
        self.undo_stack.len()
    }

    /// The number of commands that can be redone.
    pub fn redo_depth(&self) -> (n: usize)
        ensures
            n == self@.redo.len(),
    {
        self.redo_stack.len()
    }
}

impl Default for History {
    /// A history that keeps up to 100 commands.
    fn default() -> (h: Self)
        ensures
            h.wf(),
            h@ == (HistoryView {
                undo: Seq::empty(),
                redo: Seq::empty(),
                max_depth: 100,
                disabled: false,
            }),
    {
        History::new(100)
    }
}

// ─── Laws of the history ─────────────────────────────────────────────

/// Undo reverses execute at the level of the history: right after a
/// successful, recorded execute, `undo` succeeds and gives back the model the
/// command ran on (when the command's `reverts_on` holds of it), the undo
/// stack is as before the execute (without its oldest command if it was
/// full), and the redo stack holds just that command; a `redo` then succeeds
/// and gives the executed model again.
pub proof fn lemma_undo_reverses_execute(
    h0: HistoryView,
    c: UndoCommand,
    m0: UmlModelView,
    h1: HistoryView,
    m1: UmlModelView,
    h2: HistoryView,
    m2: UmlModelView,
    r2: Result<(), CommandErrorView>,
)
    requires
        history_valid(h0),
        model_valid(m0),
        c.inv(),
        c.reverts_on(m0),
        !h0.disabled,
        h0.max_depth > 0,
        history_executes(h0, c, m0, h1, m1, succeeded()),
        history_undoes(h1, m1, h2, m2, r2),
    ensures
        r2 == succeeded(),
        m2 == m0,
        h2.redo.len() == 1,
        h2.undo == if h0.undo.len() < h0.max_depth {
            h0.undo
        } else {
            h0.undo.drop_first()
        },
        forall|h3: HistoryView, m3: UmlModelView, r3: Result<(), CommandErrorView>|
            #[trigger] history_redoes(h2, m2, h3, m3, r3) ==> {
                &&& r3 == succeeded()
                &&& m3 == m1
                &&& h3.undo.len() == h1.undo.len()
                &&& h3.redo.len() == 0
            },
{
    let after = choose|after: UndoCommand|
        {
            &&& after.inv()
            &&& #[trigger] c.executes(after, m0, m1, succeeded())
            &&& h1 == if succeeded() is Ok {
                recorded(h0, after)
            } else {
                h0
            }
        };
    assert(h1 == recorded(h0, after));
    let pushed = h0.undo.push(after);
    assert(h1.undo.len() > 0);
    assert(h1.undo.last() == after);
    if h0.undo.len() < h0.max_depth {
        assert(h1.undo.drop_last() =~= h0.undo);
    } else {
        assert(h1.undo.drop_last() =~= h0.undo.drop_first());
    }
    let after2 = choose|after2: UndoCommand|
        {
            &&& after2.inv()
            &&& #[trigger] h1.undo.last().undoes(after2, m1, m2, r2)
            &&& h2 == if r2 is Ok {
                HistoryView { undo: h1.undo.drop_last(), redo: h1.redo.push(after2), ..h1 }
            } else {
                HistoryView { undo: h1.undo.drop_last(), ..h1 }
            }
        };
    UndoCommand::lemma_round_trip(c, after, after2, m0, m1, m2, r2);
    assert(h2.redo =~= seq![after2]);
    assert forall|h3: HistoryView, m3: UmlModelView, r3: Result<(), CommandErrorView>|
        #[trigger] history_redoes(h2, m2, h3, m3, r3) implies {
        &&& r3 == succeeded()
        &&& m3 == m1
        &&& h3.undo.len() == h1.undo.len()
        &&& h3.redo.len() == 0
    } by {
        assert(h2.redo.last() == after2);
        let after3 = choose|after3: UndoCommand|
            {
                &&& after3.inv()
                &&& #[trigger] h2.redo.last().executes(after3, m2, m3, r3)
                &&& h3 == if r3 is Ok {
                    HistoryView { undo: h2.undo.push(after3), redo: h2.redo.drop_last(), ..h2 }
                } else {
                    HistoryView { redo: h2.redo.drop_last(), ..h2 }
                }
            };
        assert(after2.executes(after3, m2, m3, r3));
    }
}

/// Redo after undo at the level of the history: right after a successful,
/// recorded execute and a successful undo, `redo` succeeds and gives the
/// executed model again (when the command's `redoes_on` holds of the model
/// it ran on), with as many commands to undo as after the execute and none
/// to redo.
pub proof fn lemma_history_redo_after_undo(
    h0: HistoryView,
    c: UndoCommand,
    m0: UmlModelView,
    h1: HistoryView,
    m1: UmlModelView,
    h2: HistoryView,
    m2: UmlModelView,
    h3: HistoryView,
    m3: UmlModelView,
    r3: Result<(), CommandErrorView>,
)
    requires
        history_valid(h0),
        model_valid(m0),
        c.inv(),
        c.redoes_on(m0),
        !h0.disabled,
        h0.max_depth > 0,
        history_executes(h0, c, m0, h1, m1, succeeded()),
        history_undoes(h1, m1, h2, m2, succeeded()),
        history_redoes(h2, m2, h3, m3, r3),
    ensures
        r3 == succeeded(),
        m3 == m1,
        h3.undo.len() == h1.undo.len(),
        h3.redo.len() == 0,
{
    let after = choose|after: UndoCommand|
        {
            &&& after.inv()
            &&& #[trigger] c.executes(after, m0, m1, succeeded())
            &&& h1 == if succeeded() is Ok {
                recorded(h0, after)
            } else {
                h0
            }
        };
    assert(h1 == recorded(h0, after));
    assert(h1.undo.len() > 0);
    assert(h1.undo.last() == after);
    if h0.undo.len() < h0.max_depth {
        assert(h1.undo.drop_last() =~= h0.undo);
    } else {
        assert(h1.undo.drop_last() =~= h0.undo.drop_first());
    }
    let after2 = choose|after2: UndoCommand|
        {
            &&& after2.inv()
            &&& #[trigger] h1.undo.last().undoes(after2, m1, m2, succeeded())
            &&& h2 == if succeeded() is Ok {
                HistoryView { undo: h1.undo.drop_last(), redo: h1.redo.push(after2), ..h1 }
            } else {
                HistoryView { undo: h1.undo.drop_last(), ..h1 }
            }
        };
    UndoCommand::lemma_redo_after_undo(c, after, after2, m0, m1, m2);
    assert(h2.redo =~= seq![after2]);
    assert(h2.redo.last() == after2);
    let after3 = choose|after3: UndoCommand|
        {
            &&& after3.inv()
            &&& #[trigger] h2.redo.last().executes(after3, m2, m3, r3)
            &&& h3 == if r3 is Ok {
                HistoryView { undo: h2.undo.push(after3), redo: h2.redo.drop_last(), ..h2 }
            } else {
                HistoryView { redo: h2.redo.drop_last(), ..h2 }
            }
        };
    assert(after2.executes(after3, m2, m3, r3));
}

/// A recorded execute forgets what could be redone and keeps the newest
/// `max_depth` commands, the executed one last.
pub proof fn lemma_execute_clears_redo(
    h0: HistoryView,
    c: UndoCommand,
    m0: UmlModelView,
    h1: HistoryView,
    m1: UmlModelView,
)
    requires
        history_valid(h0),
        !h0.disabled,
        history_executes(h0, c, m0, h1, m1, succeeded()),
    ensures
        h1.redo.len() == 0,
        h1.undo.len() == if h0.undo.len() < h0.max_depth {
            h0.undo.len() + 1
        } else {
            h0.max_depth
        },
        h0.max_depth > 0 ==> c.executes(h1.undo.last(), m0, m1, succeeded()),
{
    let after = choose|after: UndoCommand|
        {
            &&& after.inv()
            &&& #[trigger] c.executes(after, m0, m1, succeeded())
            &&& h1 == if succeeded() is Ok {
                recorded(h0, after)
            } else {
                h0
            }
        };
    assert(h1 == recorded(h0, after));
    if h0.max_depth > 0 {
        assert(h1.undo.last() == after);
    }
}

/// A disabled history records nothing: executing leaves it as it was.
pub proof fn lemma_disabled_records_nothing(
    h0: HistoryView,
    c: UndoCommand,
    m0: UmlModelView,
    h1: HistoryView,
    m1: UmlModelView,
    r: Result<(), CommandErrorView>,
)
    requires
        h0.disabled,
        history_executes(h0, c, m0, h1, m1, r),
    ensures
        h1 == h0,
{
}

/// A failed execute leaves the history as it was.
pub proof fn lemma_failed_execute_keeps_history(
    h0: HistoryView,
    c: UndoCommand,
    m0: UmlModelView,
    h1: HistoryView,
    m1: UmlModelView,
    r: Result<(), CommandErrorView>,
)
    requires
        r is Err,
        history_executes(h0, c, m0, h1, m1, r),
    ensures
        h1 == h0,
{
}

/// The undo stack never holds more than `max_depth` commands.
pub proof fn lemma_depth_bounded(h: HistoryView)
    requires
        history_valid(h),
    ensures
        h.undo.len() <= h.max_depth,
        h.redo.len() <= h.max_depth,
{
}

} // verus!
