//! Dragging through the automation interface: a drag on the canvas pans
//! the active diagram's view; a drag from a node either draws an edge to
//! another node (with the current edge tool) or moves the node to a
//! position of the diagram.
use crate::click_decide::{first_enabled, id_named, str_is, strip_prefix_text, unavailable_text};
use crate::clicks::{after, has_prefix, parsed_id, qa_error_text, target_ready, unavailable, QaError, QaErrorView};
use crate::diagram::geometry::Point;
use crate::diagram::{bits_are_finite, is_finite_bits};
use crate::editor::{edge_kind, ToolMode};
use crate::elements::{fresh_relationship, ModelElementView};
use crate::id::{DiagramId, UmlId};
use crate::repository::diagram_index;
use crate::diagram::entries::has_key;
use crate::session::{
    bumped, command_failure, edge_refusal, session_ran, tool_choice_done, EditorSession, SessionView,
};
use crate::targets::{active_view_id, cursor_text};
use crate::text::owned;
use crate::undo::commands::{direct_edge, CreateEdge, MoveNode};
use crate::undo::history::UndoCommand;
use crate::undo::{Command, CommandErrorView};
use vstd::prelude::*;

verus! {

/// What a drag asks for.
#[derive(Debug, Clone, Copy, PartialEq, Eq, Structural)]
pub enum DragAction {
    /// Pan the view of the diagram by the offset.
    Pan(DiagramId, Point),
    /// Draw an edge from the first node to the second.
    Connect(UmlId, UmlId),
    /// Move the node of the element to the position on the diagram.
    Move(DiagramId, UmlId, Point),
}

/// What is left to the application after a drag.
#[derive(Debug, Clone, Copy, PartialEq, Eq, Structural)]
pub enum DragOutcome {
    /// Nothing: the session did all there was to do.
    Done,
    /// Add the offset to the view's pan of the diagram (the session has
    /// counted the change).
    Pan(DiagramId, Point),
}

/// A finite point, or the refusal of coordinates.
pub open spec fn finite_point(position: Option<Point>) -> Result<Point, Seq<char>> {
    match position {
        None => Err(qa_error_text(QaErrorView::InvalidCoordinates)),
        Some(p) => if is_finite_bits(p.x) && is_finite_bits(p.y) {
            Ok(p)
        } else {
            Err(qa_error_text(QaErrorView::InvalidCoordinates))
        },
    }
}

/// The element of a `node:<id>` target id; another kind of target is the
/// wrong kind, an id that does not parse is unavailable.
pub open spec fn node_of(id: Seq<char>) -> Result<UmlId, Seq<char>> {
    if has_prefix(id, "node:"@) {
        parsed_id(after(id, "node:"@), id)
    } else {
        Err(qa_error_text(QaErrorView::WrongTargetKind(id)))
    }
}

/// What a drag of the target with the id asks for, or why it is refused:
/// the target must be offered now and enabled. A canvas drag needs the
/// selection tool, a finite offset and an active diagram; a node drag to
/// another node draws an edge; a node drag to a finite position with an
/// active diagram moves the node.
pub open spec fn drag_decision(
    s: SessionView,
    ids: Seq<UmlId>,
    id: Seq<char>,
    position: Option<Point>,
    to_target: Option<Seq<char>>,
) -> Result<DragAction, Seq<char>> {
    if !target_ready(s, ids, id) {
        Err(unavailable(id))
    } else if id == "canvas"@ {
        if s.tool != ToolMode::Select {
            Err(qa_error_text(QaErrorView::WrongTargetKind(id)))
        } else {
            match finite_point(position) {
                Err(m) => Err(m),
                Ok(p) => match active_view_id(s) {
                    None => Err(qa_error_text(QaErrorView::NotReady)),
                    Some(d) => Ok(DragAction::Pan(d, p)),
                },
            }
        }
    } else {
        match node_of(id) {
            Err(m) => Err(m),
            Ok(source) => match to_target {
                Some(t) => match node_of(t) {
                    Err(m) => Err(m),
                    Ok(target) => Ok(DragAction::Connect(source, target)),
                },
                None => match finite_point(position) {
                    Err(m) => Err(m),
                    Ok(p) => match active_view_id(s) {
                        None => Err(qa_error_text(QaErrorView::NotReady)),
                        Some(d) => Ok(DragAction::Move(d, source, p)),
                    },
                },
            },
        }
    }
}

/// Drawing an edge between two nodes with the current tool, as a relation
/// between the sessions before and after and the result: what
/// `place_edge` ensures.
pub open spec fn edge_placed(
    s0: SessionView,
    source: UmlId,
    target: UmlId,
    s1: SessionView,
    r: Result<(), Seq<char>>,
) -> bool {
    match edge_refusal(s0) {
        Some(msg) => r is Err && r->Err_0 == msg && s1 == s0,
        None => exists|c: CreateEdge|
            {
                &&& c.inv()
                &&& r is Ok
                &&& c.held() == Some(
                    ModelElementView::Relationship(
                        fresh_relationship(c.relationship(), edge_kind(s0.tool)->0, source, target),
                    ),
                )
                &&& c.diagram() == s0.model.diagrams[s0.active_diagram->0 as int].id
                &&& c.drawn_edge() == direct_edge(c.relationship(), source, target)
                &&& #[trigger] session_ran(s0, UndoCommand::CreateEdge(c), s1, r)
            },
    }
}

/// Moving a node through the history, as a relation between the sessions
/// before and after and the result: what `move_node_to` ensures.
pub open spec fn node_moved(
    s0: SessionView,
    diagram: DiagramId,
    node: UmlId,
    position: Point,
    s1: SessionView,
    r: Result<(), Seq<char>>,
) -> bool {
    match diagram_index(s0.model.diagrams, diagram) {
        None => r == Err::<(), Seq<char>>(command_failure(CommandErrorView::InvalidOperation("diagram not found"@)))
            && s1 == s0,
        Some(i) => if !has_key(s0.model.diagrams[i].nodes, node.value) {
            r == Err::<(), Seq<char>>(command_failure(CommandErrorView::ElementNotFound(node))) && s1 == s0
        } else {
            exists|c: MoveNode|
                {
                    &&& c.inv()
                    &&& r is Ok
                    &&& c.target() == node
                    &&& c.diagram() == diagram
                    &&& c.destination() == position
                    &&& c.previous() is None
                    &&& #[trigger] session_ran(s0, UndoCommand::MoveNode(c), s1, r)
                }
        },
    }
}

/// A drag's result, success carrying nothing.
pub open spec fn drag_result(r: Result<DragOutcome, String>) -> Result<(), Seq<char>> {
    match r {
        Ok(_) => Ok(()),
        Err(m) => Err(m@),
    }
}

/// Carrying out a drag: a pan is counted and left to the application; an
/// edge is drawn (a refusal becomes a failed command) and the selection
/// tool comes back; a move goes through the history.
pub open spec fn drag_performed(s0: SessionView, a: DragAction, s1: SessionView, r: Result<DragOutcome, String>) -> bool {
    match a {
        DragAction::Pan(d, p) => r == Ok::<DragOutcome, String>(DragOutcome::Pan(d, p))
            && s1 == (SessionView { revision: bumped(s0.revision), ..s0 }),
        DragAction::Connect(source, target) => exists|mid: SessionView, r0: Result<(), Seq<char>>|
            {
                &&& #[trigger] edge_placed(s0, source, target, mid, r0)
                &&& match r0 {
                    Err(m) => drag_result(r) == Err::<(), Seq<char>>(qa_error_text(QaErrorView::Command(m)))
                        && s1 == mid,
                    Ok(_) => exists|r1: Result<(), String>|
                        {
                            &&& #[trigger] tool_choice_done(mid, ToolMode::Select, s1, r1)
                            &&& match r1 {
                                Ok(_) => r == Ok::<DragOutcome, String>(DragOutcome::Done),
                                Err(m) => drag_result(r) == Err::<(), Seq<char>>(
                                    qa_error_text(QaErrorView::Command(m@)),
                                ),
                            }
                        },
                }
            },
        DragAction::Move(d, node, p) => node_moved(s0, d, node, p, s1, drag_result(r)) && (r is Ok ==> r
            == Ok::<DragOutcome, String>(DragOutcome::Done)),
    }
}

/// What a drag of the target with the id does: a refusal changes nothing;
/// otherwise the action is carried out.
pub open spec fn drag_done(
    s0: SessionView,
    ids: Seq<UmlId>,
    id: Seq<char>,
    position: Option<Point>,
    to_target: Option<Seq<char>>,
    s1: SessionView,
    r: Result<DragOutcome, String>,
) -> bool {
    match drag_decision(s0, ids, id, position, to_target) {
        Err(m) => r is Err && r->Err_0@ == m && s1 == s0,
        Ok(a) => drag_performed(s0, a, s1, r),
    }
}

/// The point, when it is there and finite.
fn finite_point_of(position: Option<Point>) -> (r: Result<Point, String>)
    ensures
        match finite_point(position) {
            Ok(p) => r == Ok::<Point, String>(p),
            Err(m) => r is Err && r->Err_0@ == m,
        },
{
    match position {
        None => Err(QaError::InvalidCoordinates.message()),
        Some(p) => if bits_are_finite(p.x) && bits_are_finite(p.y) {
            Ok(p)
        } else {
            Err(QaError::InvalidCoordinates.message())
        },
    }
}

/// The element of a `node:<id>` target id (see `node_of`).
fn node_of_text(id: &str) -> (r: Result<UmlId, String>)
    ensures
        match node_of(id@) {
            Ok(e) => r == Ok::<UmlId, String>(e),
            Err(m) => r is Err && r->Err_0@ == m,
        },
{
    match strip_prefix_text(id, "node:") {
        Some(raw) => id_named(raw.as_str(), id),
        None => Err(QaError::WrongTargetKind(owned(id)).message()),
    }
}

impl EditorSession {
    /// What a drag of the target with the id asks for (see `drag_decision`).
    pub fn decide_drag(&self, id: &str, position: Option<Point>, to_target: Option<&str>) -> (r: Result<
        DragAction,
        String,
    >)
        requires
            self.wf(),
        ensures
            match drag_decision(
                self@,
                self.element_order(),
                id@,
                position,
                match to_target {
                    Some(t) => Some(t@),
                    None => None,
                },
            ) {
                Ok(a) => r == Ok::<DragAction, String>(a),
                Err(m) => r is Err && r->Err_0@ == m,
            },
    {
        let ts = self.qa_targets(Some(id));
        assert(cursor_text(Some(id)) == Some(id@));
        if !first_enabled(&ts, id) {
            return Err(unavailable_text(id));
        }
        if str_is(id, "canvas") {
            if self.current_tool() != ToolMode::Select {
                return Err(QaError::WrongTargetKind(owned(id)).message());
            }
            let p = match finite_point_of(position) {
                Ok(p) => p,
                Err(m) => return Err(m),
            };
            return match self.active_view_diagram() {
                Some(d) => Ok(DragAction::Pan(d.id, p)),
                None => Err(QaError::NotReady.message()),
            };
        }
        let source = match node_of_text(id) {
            Ok(e) => e,
            Err(m) => return Err(m),
        };
        match to_target {
            Some(t) => match node_of_text(t) {
                Ok(target) => Ok(DragAction::Connect(source, target)),
                Err(m) => Err(m),
            },
            None => {
                let p = match finite_point_of(position) {
                    Ok(p) => p,
                    Err(m) => return Err(m),
                };
                match self.active_view_diagram() {
                    Some(d) => Ok(DragAction::Move(d.id, source, p)),
                    None => Err(QaError::NotReady.message()),
                }
            },
        }
    }

    /// Carry out a drag's action (see `drag_performed`); `position_text` is
    /// how a move's position reads in the step's description.
    pub fn perform_drag(&mut self, a: DragAction, position_text: &str) -> (r: Result<DragOutcome, String>)
        requires
            old(self).wf(),
        ensures
            final(self).wf(),
            drag_performed(old(self)@, a, final(self)@, r),
    {
        match a {
            DragAction::Pan(d, p) => {
                self.bump_state();
                Ok(DragOutcome::Pan(d, p))
            },
            DragAction::Connect(source, target) => {
                let ghost s0 = self@;
                let r0 = self.place_edge(source, target);
                let ghost mid = self@;
                let ghost v0 = crate::session::result_text(r0);
                assert(edge_placed(s0, source, target, mid, v0));
                match r0 {
                    Err(m) => Err(QaError::Command(m).message()),
                    Ok(()) => {
                        let r1 = self.choose_tool(ToolMode::Select);
                        assert(tool_choice_done(mid, ToolMode::Select, self@, r1));
                        match r1 {
                            Ok(()) => Ok(DragOutcome::Done),
                            Err(m) => Err(QaError::Command(m).message()),
                        }
                    },
                }
            },
            DragAction::Move(d, node, p) => {
                let r0 = self.move_node_to(d, node, p, position_text);
                match r0 {
                    Ok(()) => Ok(DragOutcome::Done),
                    Err(m) => Err(m),
                }
            },
        }
    }

    /// Drag the target under the cursor, as an automation client does:
    /// without a cursor, or with a target that is not offered now or not
    /// enabled, the drag is refused; otherwise it is carried out (see
    /// `drag_done`). The pan offset or the position is in model
    /// coordinates; `position_text` is how a move's position reads in the
    /// step's description.
    pub fn qa_drag(&mut self, position: Option<Point>, to_target: Option<&str>, position_text: &str) -> (r: Result<
        DragOutcome,
        String,
    >)
        requires
            old(self).wf(),
        ensures
            final(self).wf(),
            match old(self)@.cursor {
                None => r is Err && r->Err_0@ == unavailable("no selected QA target"@) && final(self)@ == old(
                    self,
                )@,
                Some(id) => drag_done(
                    old(self)@,
                    old(self).element_order(),
                    id,
                    position,
                    match to_target {
                        Some(t) => Some(t@),
                        None => None,
                    },
                    final(self)@,
                    r,
                ),
            },
    {
        let id = match self.qa_cursor() {
            Some(t) => owned(t),
            None => return Err(unavailable_text("no selected QA target")),
        };
        match self.decide_drag(id.as_str(), position, to_target) {
            Err(m) => Err(m),
            Ok(a) => self.perform_drag(a, position_text),
        }
    }
}

} // verus!
