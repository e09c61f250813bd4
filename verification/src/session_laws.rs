//! Laws of the editing session that span several of its operations.
use crate::repository::{model_valid, UmlModelView};
use crate::diagram::DiagramKind;
use crate::editor::{creates_node, edge_kind, element_fits, tool_fits, ToolMode};
use crate::id::UmlId;
use crate::types::{AssociationType, ObjectType};
use crate::id::DiagramId;
use crate::session::{
    active_after_redo, active_id, active_kind, kind_allowed, kind_tool_spec, tool_element, diagram_created, diagram_refusal, first_new_diagram, ran_with, redo_with,
    session_ran, session_redo_done, session_undo_done, supported_diagram_done, undo_with, SessionView,
};
use crate::undo::commands::{lemma_create_diagram_executes, CreateDiagram};
use crate::undo::history::{
    history_redoes, history_valid, lemma_execute_clears_redo, lemma_undo_reverses_execute, HistoryView,
    UndoCommand,
};
use crate::undo::{succeeded, Command, CommandErrorView};
use vstd::prelude::*;

verus! {

/// One undo reverses one editing step: right after a command ran
/// successfully through the session on a model it can be reverted on (with
/// a history that records), `undo_action` succeeds and gives back the model
/// the command ran on, and a `redo_action` right after succeeds and gives
/// the edited model again.
pub proof fn lemma_undo_action_reverses_step(
    s0: SessionView,
    cmd: UndoCommand,
    s1: SessionView,
    s2: SessionView,
    r2: Result<(), Seq<char>>,
)
    requires
        history_valid(s0.history),
        model_valid(s0.model),
        !s0.history.disabled,
        s0.history.max_depth > 0,
        cmd.inv(),
        cmd.reverts_on(s0.model),
        session_ran(s0, cmd, s1, Ok(())),
        session_undo_done(s1, s2, r2),
    ensures
        r2 is Ok,
        s2.model == s0.model,
        forall|s3: SessionView, r3: Result<(), Seq<char>>|
            #[trigger] session_redo_done(s2, s3, r3) ==> r3 is Ok && s3.model == s1.model,
{
    let out = choose|out: Result<(), CommandErrorView>| #[trigger] ran_with(s0, cmd, s1, Ok(()), out);
    assert(out is Ok);
    match out {
        Ok(u) => {
            assert(u == ());
        },
        Err(_) => {},
    }
    assert(out == succeeded());
    lemma_execute_clears_redo(s0.history, cmd, s0.model, s1.history, s1.model);
    assert(s1.history.undo.len() > 0);
    let (out2, h2, m2) = choose|out2: Result<(), CommandErrorView>, h2: HistoryView, m2: UmlModelView|
        #[trigger] undo_with(s1, s2, r2, out2, h2, m2);
    lemma_undo_reverses_execute(s0.history, cmd, s0.model, s1.history, s1.model, h2, m2, out2);
    assert(s2.history == h2 && s2.model == m2);
    assert forall|s3: SessionView, r3: Result<(), Seq<char>>|
        #[trigger] session_redo_done(s2, s3, r3) implies r3 is Ok && s3.model == s1.model by {
        assert(s2.history.redo.len() == 1);
        let (out3, h3, m3) = choose|out3: Result<(), CommandErrorView>, h3: HistoryView, m3: UmlModelView|
            #[trigger] redo_with(s2, s3, r3, out3, h3, m3);
        assert(history_redoes(h2, m2, h3, m3, out3));
    }
}


/// Undoing the creation of the first diagram of a project and redoing it
/// brings the diagram back under the id it was created with, as the only
/// diagram and the active one, with the project marked dirty.
pub proof fn lemma_redo_restores_created_diagram(
    s0: SessionView,
    kind: DiagramKind,
    s1: SessionView,
    r1: Result<DiagramId, String>,
    s2: SessionView,
    r2: Result<(), Seq<char>>,
    s3: SessionView,
    r3: Result<(), Seq<char>>,
)
    requires
        history_valid(s0.history),
        model_valid(s0.model),
        !s0.history.disabled,
        s0.history.max_depth > 0,
        s0.model.diagrams.len() == 0,
        supported_diagram_done(s0, kind, s1, r1),
        r1 is Ok,
        session_undo_done(s1, s2, r2),
        session_redo_done(s2, s3, r3),
    ensures
        r2 is Ok,
        s2.model == s0.model,
        s2.active_diagram is None,
        r3 is Ok,
        s3.model.diagrams.len() == 1,
        s3.model.diagrams[0].id == r1->Ok_0,
        s3.active_diagram == Some(0usize),
        s3.dirty,
{
    let name = crate::naming::unique_name(
        crate::naming::diagram_names(s0.model),
        crate::diagram::diagram_kind_name(kind),
    );
    assert(diagram_refusal(s0, kind, name) is None);
    assert(diagram_created(s0, kind, name, s1, r1));
    let (c, mid) = choose|c: CreateDiagram, mid: SessionView|
        {
            &&& c.inv()
            &&& c.snapshot() == crate::session::fresh_diagram(c.snapshot().id, crate::text::trimmed(name), kind)
            &&& c.position() == s0.model.diagrams.len()
            &&& #[trigger] session_ran(s0, UndoCommand::CreateDiagram(c), mid, Ok(()))
            &&& r1 == Ok::<DiagramId, String>(c.snapshot().id)
            &&& s1 == (SessionView {
                active_diagram: crate::session::position_of(mid.model.diagrams, c.snapshot().id),
                revision: crate::session::bumped(mid.revision),
                ..crate::session::normalized(
                    SessionView {
                        active_diagram: crate::session::position_of(mid.model.diagrams, c.snapshot().id),
                        ..mid
                    },
                )
            })
        };
    let cmd = UndoCommand::CreateDiagram(c);
    let out = choose|out: Result<(), CommandErrorView>| #[trigger] ran_with(s0, cmd, mid, Ok(()), out);
    match out {
        Ok(u) => {
            assert(u == ());
        },
        Err(_) => {},
    }
    assert(out == succeeded());
    assert(s1.model == mid.model && s1.history == mid.history);
    let after = choose|after: UndoCommand|
        {
            &&& after.inv()
            &&& #[trigger] cmd.executes(after, s0.model, mid.model, succeeded())
            &&& mid.history == crate::undo::history::recorded(s0.history, after)
        };
    match after {
        UndoCommand::CreateDiagram(d) => {
            lemma_create_diagram_executes(c, d, s0.model, mid.model, succeeded());
        },
        _ => {},
    }
    assert(mid.model.diagrams =~= seq![c.snapshot()]);
    lemma_execute_clears_redo(s0.history, cmd, s0.model, mid.history, mid.model);
    let (out2, h2, m2) = choose|out2: Result<(), CommandErrorView>, h2: HistoryView, m2: UmlModelView|
        #[trigger] undo_with(s1, s2, r2, out2, h2, m2);
    lemma_undo_reverses_execute(s0.history, cmd, s0.model, mid.history, mid.model, h2, m2, out2);
    assert(s2.model == s0.model);
    assert(s2.active_diagram is None);
    assert(s2.history.redo.len() == 1);
    let (out3, h3, m3) = choose|out3: Result<(), CommandErrorView>, h3: HistoryView, m3: UmlModelView|
        #[trigger] redo_with(s2, s3, r3, out3, h3, m3);
    assert(history_redoes(h2, m2, h3, m3, out3));
    assert(m3 == mid.model);
    assert(active_id(s2) is None);
    let ids = crate::session::diagram_ids(s2.model.diagrams);
    assert(ids =~= Seq::<DiagramId>::empty());
    assert(!ids.contains(m3.diagrams[0].id));
    assert(first_new_diagram(ids, m3.diagrams) == Some(0usize));
    assert(active_after_redo(s2, m3.diagrams) == Some(0usize));
}

/// The tool behind a relationship kind draws relationships of that kind,
/// and no other edge tool does; so a relationship may take a kind on the
/// active diagram exactly when an edge tool drawing that kind suits the
/// diagram (any kind, without an active diagram).
pub proof fn lemma_kind_tool_draws_its_kind(s: SessionView, k: AssociationType)
    ensures
        edge_kind(kind_tool_spec(k)) == Some(k),
        forall|t: ToolMode| #[trigger] edge_kind(t) == Some(k) ==> t == kind_tool_spec(k),
        kind_allowed(s, k) <==> match active_kind(s) {
            None => true,
            Some(d) => exists|t: ToolMode| #[trigger] edge_kind(t) == Some(k) && tool_fits(t, d),
        },
{
    assert forall|t: ToolMode| #[trigger] edge_kind(t) == Some(k) implies t == kind_tool_spec(k) by {
        match t {
            ToolMode::CreateGeneralization => {},
            ToolMode::CreateRealization => {},
            ToolMode::CreateAssociation => {},
            ToolMode::CreateAggregation => {},
            ToolMode::CreateComposition => {},
            ToolMode::CreateDependency => {},
            _ => {},
        }
    }
    match active_kind(s) {
        None => {},
        Some(d) => {
            assert(edge_kind(kind_tool_spec(k)) == Some(k));
        },
    }
}

/// An element type may be shown on a diagram kind exactly when a node tool
/// that suits the kind creates elements of that type.
pub proof fn lemma_element_fits_node_tools(t: ObjectType, kind: DiagramKind, id: UmlId, name: Seq<char>)
    ensures
        element_fits(t, kind) <==> exists|tool: ToolMode|
            creates_node(tool) && tool_fits(tool, kind) && #[trigger] tool_element(tool, id, name).object_type() == t,
{
    let candidates = seq![
        ToolMode::CreateClass,
        ToolMode::CreateInterface,
        ToolMode::CreateEnum,
        ToolMode::CreateDatatype,
        ToolMode::CreatePackage,
        ToolMode::CreateActor,
        ToolMode::CreateUseCase,
        ToolMode::CreateComponent,
        ToolMode::CreateNode,
        ToolMode::CreateArtifact
    ];
    assert forall|tool: ToolMode|
        creates_node(tool) && tool_fits(tool, kind) && #[trigger] tool_element(tool, id, name).object_type() == t
        implies element_fits(t, kind) by {
        match tool {
            ToolMode::CreateClass => {},
            ToolMode::CreateInterface => {},
            ToolMode::CreateEnum => {},
            ToolMode::CreateDatatype => {},
            ToolMode::CreatePackage => {},
            ToolMode::CreateActor => {},
            ToolMode::CreateUseCase => {},
            ToolMode::CreateComponent => {},
            ToolMode::CreateNode => {},
            ToolMode::CreateArtifact => {},
            _ => {},
        }
    }
    if element_fits(t, kind) {
        let w = match t {
            ObjectType::Class => ToolMode::CreateClass,
            ObjectType::Interface => ToolMode::CreateInterface,
            ObjectType::Enumeration => ToolMode::CreateEnum,
            ObjectType::Datatype => ToolMode::CreateDatatype,
            ObjectType::Package => ToolMode::CreatePackage,
            ObjectType::Actor => ToolMode::CreateActor,
            ObjectType::UseCase => ToolMode::CreateUseCase,
            ObjectType::Component => ToolMode::CreateComponent,
            ObjectType::Node => ToolMode::CreateNode,
            _ => ToolMode::CreateArtifact,
        };
        assert(creates_node(w) && tool_fits(w, kind) && tool_element(w, id, name).object_type() == t);
    }
}

} // verus!
