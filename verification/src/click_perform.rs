//! Carrying out a click: the session changes that the action asks for, and
//! what is left to the application (files, viewport geometry, quitting).
use crate::clicks::{click_decision, qa_error_text, ClickAction, DraftEdit, QaError, QaErrorView};
use crate::diagram::geometry::Point;
use crate::draft_edits::{
    attribute_names, flag_toggled, new_draft_attribute, new_draft_operation, new_draft_parameter,
    operation_names, parameter_names, with_attribute, with_operation, with_parameter,
};
use crate::drafts::{
    ClassifierDraft, ClassifierDraftView, DraftAttributeView, DraftOperationView, DraftParameterView,
    RelationshipDraftView,
};
use crate::editor::ToolMode;
use crate::id::UmlId;
use crate::naming::unique_name;
use crate::session::{
    bumped, classifier_applied, diagram_activated, dialog_opened, element_placed, element_selected, flags_set,
    refreshed, relationship_applied, result_text, session_redo_done, session_undo_done, supported_diagram_done,
    tool_choice_done, visibility_set, flag_text, EditorSession, SessionView,
};
use crate::text::owned;
use vstd::prelude::*;

verus! {

/// What is left to the application after a click.
#[derive(Debug, Clone, Copy, PartialEq, Eq, Structural)]
pub enum ClickOutcome {
    /// Nothing: the session did all there was to do.
    Done,
    /// Start a new project.
    NewProject,
    /// Save the project.
    Save,
    /// Quit.
    Quit,
    /// Zoom the viewport in (the session has counted the change).
    ZoomIn,
    /// Zoom the viewport out (the session has counted the change).
    ZoomOut,
    /// Reset the viewport (the session has counted the change).
    ResetView,
    /// Fit the active diagram into the canvas, when the canvas is known.
    FitView,
    /// Put the element on the active diagram at the next free slot.
    AddToDiagram(UmlId),
}

/// Whether a draft edit fits the draft (the feature exists, and a list
/// that grows is below the machine limit).
pub open spec fn edit_applies(d: ClassifierDraftView, e: DraftEdit) -> bool {
    match e {
        DraftEdit::AddAttribute => d.attributes.len() < usize::MAX,
        DraftEdit::AddOperation => d.operations.len() < usize::MAX,
        DraftEdit::RemoveAttribute(i) => i < d.attributes.len(),
        DraftEdit::AttributeVisibility(i, _) => i < d.attributes.len(),
        DraftEdit::ToggleAttributeStatic(i) => i < d.attributes.len(),
        DraftEdit::AddParameter(i) => i < d.operations.len() && d.operations[i as int].parameters.len() < usize::MAX,
        DraftEdit::RemoveOperation(i) => i < d.operations.len(),
        DraftEdit::OperationVisibility(i, _) => i < d.operations.len(),
        DraftEdit::ToggleOperation(i, _) => i < d.operations.len(),
        DraftEdit::RemoveParameter(i, j) => i < d.operations.len() && j < d.operations[i as int].parameters.len(),
        DraftEdit::ParameterDirection(i, j, _) => i < d.operations.len() && j
            < d.operations[i as int].parameters.len(),
    }
}

/// The draft after an edit that fits it.
pub open spec fn draft_edited(d: ClassifierDraftView, e: DraftEdit) -> ClassifierDraftView {
    match e {
        DraftEdit::AddAttribute => ClassifierDraftView {
            attributes: d.attributes.push(new_draft_attribute(unique_name(attribute_names(d), "attribute"@))),
            ..d
        },
        DraftEdit::AddOperation => ClassifierDraftView {
            operations: d.operations.push(new_draft_operation(unique_name(operation_names(d), "operation"@))),
            ..d
        },
        DraftEdit::RemoveAttribute(i) => ClassifierDraftView { attributes: d.attributes.remove(i as int), ..d },
        DraftEdit::AttributeVisibility(i, v) => with_attribute(
            d,
            i as int,
            DraftAttributeView { visibility: v, ..d.attributes[i as int] },
        ),
        DraftEdit::ToggleAttributeStatic(i) => with_attribute(
            d,
            i as int,
            DraftAttributeView { is_static: !d.attributes[i as int].is_static, ..d.attributes[i as int] },
        ),
        DraftEdit::AddParameter(i) => with_operation(
            d,
            i as int,
            DraftOperationView {
                parameters: d.operations[i as int].parameters.push(
                    new_draft_parameter(unique_name(parameter_names(d.operations[i as int]), "parameter"@)),
                ),
                ..d.operations[i as int]
            },
        ),
        DraftEdit::RemoveOperation(i) => ClassifierDraftView { operations: d.operations.remove(i as int), ..d },
        DraftEdit::OperationVisibility(i, v) => with_operation(
            d,
            i as int,
            DraftOperationView { visibility: v, ..d.operations[i as int] },
        ),
        DraftEdit::ToggleOperation(i, f) => with_operation(d, i as int, flag_toggled(d.operations[i as int], f)),
        DraftEdit::RemoveParameter(i, j) => with_operation(
            d,
            i as int,
            DraftOperationView {
                parameters: d.operations[i as int].parameters.remove(j as int),
                ..d.operations[i as int]
            },
        ),
        DraftEdit::ParameterDirection(i, j, dir) => with_operation(
            d,
            i as int,
            with_parameter(
                d.operations[i as int],
                j as int,
                DraftParameterView { direction: dir, ..d.operations[i as int].parameters[j as int] },
            ),
        ),
    }
}

impl ClassifierDraft {
    /// Make one edit; `false`, with nothing changed, when it does not fit.
    pub fn apply_edit(&mut self, e: DraftEdit) -> (r: bool)
        ensures
            r == edit_applies(old(self)@, e),
            r ==> final(self)@ == draft_edited(old(self)@, e),
            !r ==> final(self)@ == old(self)@,
    {
        match e {
            DraftEdit::AddAttribute => {
                if self.attributes.len() == usize::MAX {
                    return false;
                }
                self.add_attribute();
                true
            },
            DraftEdit::AddOperation => {
                if self.operations.len() == usize::MAX {
                    return false;
                }
                self.add_operation();
                true
            },
            DraftEdit::RemoveAttribute(i) => self.remove_attribute(i),
            DraftEdit::AttributeVisibility(i, v) => self.set_attribute_visibility(i, v),
            DraftEdit::ToggleAttributeStatic(i) => self.toggle_attribute_static(i),
            DraftEdit::AddParameter(i) => {
                if i < self.operations.len() && self.operations[i].parameters.len() == usize::MAX {
                    return false;
                }
                self.add_parameter(i)
            },
            DraftEdit::RemoveOperation(i) => self.remove_operation(i),
            DraftEdit::OperationVisibility(i, v) => self.set_operation_visibility(i, v),
            DraftEdit::ToggleOperation(i, f) => self.toggle_operation_flag(i, f),
            DraftEdit::RemoveParameter(i, j) => self.remove_parameter(i, j),
            DraftEdit::ParameterDirection(i, j, dir) => self.set_parameter_direction(i, j, dir),
        }
    }
}

/// Success with nothing left to the application.
pub open spec fn done(r: Result<ClickOutcome, String>) -> bool {
    r == Ok::<ClickOutcome, String>(ClickOutcome::Done)
}

/// Success means nothing is left to the application.
pub open spec fn done_if_ok(r: Result<ClickOutcome, String>) -> bool {
    r is Ok ==> done(r)
}

/// A session result whose refusal becomes a failed command.
pub open spec fn wrapped<X>(r0: Result<X, String>, r: Result<ClickOutcome, String>) -> bool {
    match r0 {
        Ok(_) => done(r),
        Err(m) => r is Err && r->Err_0@ == qa_error_text(QaErrorView::Command(m@)),
    }
}

/// Nothing changes, and the application has `o` to do.
pub open spec fn left_to_app(
    s0: SessionView,
    s1: SessionView,
    r: Result<ClickOutcome, String>,
    o: ClickOutcome,
) -> bool {
    s1 == s0 && r == Ok::<ClickOutcome, String>(o)
}

/// The session with its status line set.
pub open spec fn with_status(s: SessionView, m: Seq<char>) -> SessionView {
    SessionView { status: m, ..s }
}

/// The session with its counter bumped.
pub open spec fn bumped_in(s: SessionView) -> SessionView {
    SessionView { revision: bumped(s.revision), ..s }
}

/// The relationship draft with its kind set, when there is one.
pub open spec fn kind_set(s: SessionView, k: crate::types::AssociationType) -> Option<(UmlId, RelationshipDraftView)> {
    match s.relationship_draft {
        Some((o, d)) => Some((o, RelationshipDraftView { kind: k, ..d })),
        None => None,
    }
}

/// The relationship draft with the navigability of one end inverted.
pub open spec fn end_toggled(d: RelationshipDraftView, source: bool) -> RelationshipDraftView {
    if source {
        RelationshipDraftView { source_navigable: !d.source_navigable, ..d }
    } else {
        RelationshipDraftView { target_navigable: !d.target_navigable, ..d }
    }
}

/// Placing an element leads to `mid` with result `r0`; after a refusal
/// nothing more happens, after success the selection tool is chosen.
pub open spec fn placed_then(
    s0: SessionView,
    t: ToolMode,
    p: Point,
    mid: SessionView,
    r0: Result<(), Seq<char>>,
    s1: SessionView,
    r: Result<ClickOutcome, String>,
) -> bool {
    &&& element_placed(s0, t, p, mid, r0)
    &&& match r0 {
        Err(m) => s1 == mid && r is Err && r->Err_0@ == qa_error_text(QaErrorView::Command(m)),
        Ok(_) => exists|r1: Result<(), String>|
            #[trigger] tool_choice_done(mid, ToolMode::Select, s1, r1) && wrapped(r1, r),
    }
}

/// Installing the relationship draft leads to `mid` with result `r0`; the
/// status line then says how it went.
pub open spec fn relationship_then(
    s0: SessionView,
    sel: UmlId,
    mid: SessionView,
    r0: Result<bool, Seq<char>>,
    s1: SessionView,
    r: Result<ClickOutcome, String>,
) -> bool {
    &&& relationship_applied(s0, sel, mid, r0)
    &&& match r0 {
        Ok(true) => s1 == with_status(mid, "Relationship updated"@) && done(r),
        Ok(false) => s1 == with_status(mid, "Relationship unchanged (no changes)"@) && done(r),
        Err(m) => s1 == with_status(mid, "Relationship apply failed: "@ + m) && r is Err && r->Err_0@ == qa_error_text(
            QaErrorView::Command(m),
        ),
    }
}

/// Installing the classifier draft `d` leads to `mid` with result `r0`;
/// the status line then says how it went, and after success the inspector
/// is read again.
pub open spec fn classifier_then(
    s0: SessionView,
    sel: UmlId,
    d: ClassifierDraftView,
    mid: SessionView,
    r0: Result<bool, Seq<char>>,
    s1: SessionView,
    r: Result<ClickOutcome, String>,
) -> bool {
    &&& classifier_applied(s0, sel, d, mid, r0)
    &&& match r0 {
        Ok(true) => s1 == bumped_in(refreshed(with_status(mid, "Classifier features updated"@))) && done(r),
        Ok(false) => s1 == bumped_in(with_status(mid, "Classifier unchanged (no changes)"@)) && done(r),
        Err(m) => s1 == with_status(mid, "Classifier apply failed: "@ + m) && r is Err && r->Err_0@ == qa_error_text(
            QaErrorView::Command(m),
        ),
    }
}

/// Placing an element, then choosing the selection tool after success.
pub open spec fn placed_outcome(
    s0: SessionView,
    t: ToolMode,
    p: Point,
    s1: SessionView,
    r: Result<ClickOutcome, String>,
) -> bool {
    exists|mid: SessionView, r0: Result<(), Seq<char>>| #[trigger] placed_then(s0, t, p, mid, r0, s1, r)
}

/// Installing the relationship draft, then reporting how it went.
pub open spec fn relationship_outcome(
    s0: SessionView,
    sel: UmlId,
    s1: SessionView,
    r: Result<ClickOutcome, String>,
) -> bool {
    exists|mid: SessionView, r0: Result<bool, Seq<char>>| #[trigger] relationship_then(s0, sel, mid, r0, s1, r)
}

/// Installing the classifier draft `d`, then reporting how it went.
pub open spec fn classifier_outcome(
    s0: SessionView,
    sel: UmlId,
    d: ClassifierDraftView,
    s1: SessionView,
    r: Result<ClickOutcome, String>,
) -> bool {
    exists|mid: SessionView, r0: Result<bool, Seq<char>>| #[trigger] classifier_then(s0, sel, d, mid, r0, s1, r)
}

/// What carrying out a click's action does to the session, and what it
/// leaves to the application.
pub open spec fn click_performed(
    s0: SessionView,
    a: ClickAction,
    s1: SessionView,
    r: Result<ClickOutcome, String>,
) -> bool {
    match a {
        ClickAction::Undo => session_undo_done(s0, s1, outcome_text(r)) && done_if_ok(r),
        ClickAction::Redo => session_redo_done(s0, s1, outcome_text(r)) && done_if_ok(r),
        ClickAction::NewProject => left_to_app(s0, s1, r, ClickOutcome::NewProject),
        ClickAction::Save => left_to_app(s0, s1, r, ClickOutcome::Save),
        ClickAction::Quit => left_to_app(s0, s1, r, ClickOutcome::Quit),
        ClickAction::ZoomIn => s1 == bumped_in(s0) && r == Ok::<ClickOutcome, String>(ClickOutcome::ZoomIn),
        ClickAction::ZoomOut => s1 == bumped_in(s0) && r == Ok::<ClickOutcome, String>(ClickOutcome::ZoomOut),
        ClickAction::ResetView => s1 == bumped_in(s0) && r == Ok::<ClickOutcome, String>(ClickOutcome::ResetView),
        ClickAction::FitView => left_to_app(s0, s1, r, ClickOutcome::FitView),
        ClickAction::AddToDiagram(e) => left_to_app(s0, s1, r, ClickOutcome::AddToDiagram(e)),
        ClickAction::ChooseTool(t) => exists|r0: Result<(), String>|
            #[trigger] tool_choice_done(s0, t, s1, r0) && wrapped(r0, r),
        ClickAction::SelectElement(e) => element_selected(s0, e, s1, outcome_text(r)) && done_if_ok(r),
        ClickAction::OpenDialog => dialog_opened(s0, s1) && done(r),
        ClickAction::CreateDiagram(k) => exists|r0: Result<crate::id::DiagramId, String>|
            #[trigger] supported_diagram_done(s0, k, s1, r0) && wrapped(r0, r),
        ClickAction::ActivateDiagram(i) => diagram_activated(s0, i, s1) && done(r),
        ClickAction::Place(t, p) => placed_outcome(s0, t, p, s1, r),
        ClickAction::Nothing => s1 == s0 && done(r),
        ClickAction::ApplyRelationship(sel) => relationship_outcome(s0, sel, s1, r),
        ClickAction::RevertRelationship => s1 == with_status(refreshed(s0), "Relationship draft reverted"@)
            && done(r),
        ClickAction::SetRelationshipKind(k) => s1 == bumped_in(
            SessionView { relationship_draft: kind_set(s0, k), ..s0 },
        ) && done(r),
        ClickAction::ToggleNavigable(source) => done(r) && match s0.relationship_draft {
            Some((o, d)) => s1 == bumped_in(
                SessionView { relationship_draft: Some((o, end_toggled(d, source))), ..s0 },
            ),
            None => s1 == s0,
        },
        ClickAction::SetVisibility(sel, v) => visibility_set(s0, sel, v, s1, outcome_text(r)) && done_if_ok(r),
        ClickAction::SetFlags(sel, ab, st) => flags_set(s0, sel, ab, st, s1, outcome_text(r)) && done_if_ok(r),
        ClickAction::ApplyClassifier(sel) => match s0.classifier_draft {
            None => s1 == s0 && done(r),
            Some((_, d)) => classifier_outcome(s0, sel, d, s1, r),
        },
        ClickAction::RevertClassifier => s1 == bumped_in(with_status(refreshed(s0), "Classifier draft reverted"@))
            && done(r),
        ClickAction::EditDraft(e) => done(r) && match s0.classifier_draft {
            Some((o, d)) => if edit_applies(d, e) {
                s1 == bumped_in(SessionView { classifier_draft: Some((o, draft_edited(d, e))), ..s0 })
            } else {
                s1 == s0
            },
            None => s1 == s0,
        },
    }
}

/// A click's result as text, success carrying nothing.
pub open spec fn outcome_text(r: Result<ClickOutcome, String>) -> Result<(), Seq<char>> {
    match r {
        Ok(_) => Ok(()),
        Err(m) => Err(m@),
    }
}

/// What a click on the target with the id does: a refusal changes nothing;
/// otherwise the action the id names is carried out.
pub open spec fn click_done(
    s0: SessionView,
    ids: Seq<UmlId>,
    id: Seq<char>,
    position: Option<Point>,
    s1: SessionView,
    r: Result<ClickOutcome, String>,
) -> bool {
    match click_decision(s0, ids, id, position) {
        Err(m) => r is Err && r->Err_0@ == m && s1 == s0,
        Ok(a) => click_performed(s0, a, s1, r),
    }
}

/// The refusal of a session method as a failed command.
fn command_text(m: String) -> (r: String)
    ensures
        r@ == qa_error_text(QaErrorView::Command(m@)),
{
    QaError::Command(m).message()
}

impl EditorSession {
    fn perform_undo(&mut self) -> (r: Result<ClickOutcome, String>)
        requires
            old(self).wf(),
            old(self)@.model.diagrams.len() < usize::MAX,
            old(self)@.model.elements.len() < usize::MAX,
        ensures
            final(self).wf(),
            click_performed(old(self)@, ClickAction::Undo, final(self)@, r),
    {
        match self.undo_action() {
            Ok(()) => Ok(ClickOutcome::Done),
            Err(m) => Err(m),
        }
    }

    fn perform_redo(&mut self) -> (r: Result<ClickOutcome, String>)
        requires
            old(self).wf(),
            old(self)@.model.diagrams.len() < usize::MAX,
            old(self)@.model.elements.len() < usize::MAX,
        ensures
            final(self).wf(),
            click_performed(old(self)@, ClickAction::Redo, final(self)@, r),
    {
        match self.redo_action() {
            Ok(()) => Ok(ClickOutcome::Done),
            Err(m) => Err(m),
        }
    }

    fn perform_choose_tool(&mut self, t: ToolMode) -> (r: Result<ClickOutcome, String>)
        requires
            old(self).wf(),
            old(self)@.model.diagrams.len() < usize::MAX,
            old(self)@.model.elements.len() < usize::MAX,
        ensures
            final(self).wf(),
            click_performed(old(self)@, ClickAction::ChooseTool(t), final(self)@, r),
    {
        let r0 = self.choose_tool(t);
        let ghost g0 = r0;
        let r = match r0 {
            Ok(()) => Ok(ClickOutcome::Done),
            Err(m) => Err(command_text(m)),
        };
        assert(tool_choice_done(old(self)@, t, self@, g0) && wrapped(g0, r));
        r
    }

    fn perform_select_element(&mut self, e: UmlId) -> (r: Result<ClickOutcome, String>)
        requires
            old(self).wf(),
            old(self)@.model.diagrams.len() < usize::MAX,
            old(self)@.model.elements.len() < usize::MAX,
        ensures
            final(self).wf(),
            click_performed(old(self)@, ClickAction::SelectElement(e), final(self)@, r),
    {
        let r0 = self.select_element(e);
        let ghost g0 = r0;
        let r = match r0 {
            Ok(()) => Ok(ClickOutcome::Done),
            Err(m) => Err(m),
        };
        assert(element_selected(old(self)@, e, self@, result_text(g0)));
        r
    }

    fn perform_open_dialog(&mut self) -> (r: Result<ClickOutcome, String>)
        requires
            old(self).wf(),
            old(self)@.model.diagrams.len() < usize::MAX,
            old(self)@.model.elements.len() < usize::MAX,
        ensures
            final(self).wf(),
            click_performed(old(self)@, ClickAction::OpenDialog, final(self)@, r),
    {
        self.open_new_diagram_dialog();
        Ok(ClickOutcome::Done)
    }

    fn perform_create_diagram(&mut self, k: crate::diagram::DiagramKind) -> (r: Result<ClickOutcome, String>)
        requires
            old(self).wf(),
            old(self)@.model.diagrams.len() < usize::MAX,
            old(self)@.model.elements.len() < usize::MAX,
        ensures
            final(self).wf(),
            click_performed(old(self)@, ClickAction::CreateDiagram(k), final(self)@, r),
    {
        let r0 = self.create_supported_diagram(k);
        let ghost g0 = r0;
        let r = match r0 {
            Ok(_) => Ok(ClickOutcome::Done),
            Err(m) => Err(command_text(m)),
        };
        assert(supported_diagram_done(old(self)@, k, self@, g0) && wrapped(g0, r));
        r
    }

    fn perform_activate_diagram(&mut self, i: usize) -> (r: Result<ClickOutcome, String>)
        requires
            old(self).wf(),
            old(self)@.model.diagrams.len() < usize::MAX,
            old(self)@.model.elements.len() < usize::MAX,
        ensures
            final(self).wf(),
            click_performed(old(self)@, ClickAction::ActivateDiagram(i), final(self)@, r),
    {
        self.activate_diagram_index(i);
        Ok(ClickOutcome::Done)
    }

    fn perform_place(&mut self, t: ToolMode, p: Point) -> (r: Result<ClickOutcome, String>)
        requires
            old(self).wf(),
            old(self)@.model.diagrams.len() < usize::MAX,
            old(self)@.model.elements.len() < usize::MAX,
        ensures
            final(self).wf(),
            click_performed(old(self)@, ClickAction::Place(t, p), final(self)@, r),
    {
        let r0 = self.place_element(t, p);
        let ghost g0 = result_text(r0);
        let ghost mid = self@;
        let r = match r0 {
            Err(m) => Err(command_text(m)),
            Ok(()) => {
                let r1 = self.choose_tool(ToolMode::Select);
                let ghost g1 = r1;
                let r = match r1 {
                    Ok(()) => Ok(ClickOutcome::Done),
                    Err(m) => Err(command_text(m)),
                };
                assert(tool_choice_done(mid, ToolMode::Select, self@, g1) && wrapped(g1, r));
                r
            },
        };
        assert(placed_then(old(self)@, t, p, mid, g0, self@, r));
        assert(placed_outcome(old(self)@, t, p, self@, r));
        r
    }

    fn perform_apply_relationship(&mut self, sel: UmlId) -> (r: Result<ClickOutcome, String>)
        requires
            old(self).wf(),
            old(self)@.model.diagrams.len() < usize::MAX,
            old(self)@.model.elements.len() < usize::MAX,
        ensures
            final(self).wf(),
            click_performed(old(self)@, ClickAction::ApplyRelationship(sel), final(self)@, r),
    {
        let r0 = self.apply_relationship_draft(sel);
        let ghost g0 = flag_text(r0);
        let ghost mid = self@;
        let r = match r0 {
            Ok(true) => {
                self.set_status("Relationship updated");
                Ok(ClickOutcome::Done)
            },
            Ok(false) => {
                self.set_status("Relationship unchanged (no changes)");
                Ok(ClickOutcome::Done)
            },
            Err(e) => {
                let mut m = owned("Relationship apply failed: ");
                m.append(e.as_str());
                self.set_status(m.as_str());
                Err(command_text(e))
            },
        };
        assert(relationship_then(old(self)@, sel, mid, g0, self@, r));
        assert(relationship_outcome(old(self)@, sel, self@, r));
        r
    }

    fn perform_revert_relationship(&mut self) -> (r: Result<ClickOutcome, String>)
        requires
            old(self).wf(),
            old(self)@.model.diagrams.len() < usize::MAX,
            old(self)@.model.elements.len() < usize::MAX,
        ensures
            final(self).wf(),
            click_performed(old(self)@, ClickAction::RevertRelationship, final(self)@, r),
    {
        self.refresh_property_buffers();
        self.set_status("Relationship draft reverted");
        Ok(ClickOutcome::Done)
    }

    fn perform_set_relationship_kind(&mut self, k: crate::types::AssociationType) -> (r: Result<ClickOutcome, String>)
        requires
            old(self).wf(),
            old(self)@.model.diagrams.len() < usize::MAX,
            old(self)@.model.elements.len() < usize::MAX,
        ensures
            final(self).wf(),
            click_performed(old(self)@, ClickAction::SetRelationshipKind(k), final(self)@, r),
    {
        match self.take_relationship_draft() {
            Some((o, mut d)) => {
                d.kind = k;
                self.set_relationship_draft(Some((o, d)));
            },
            None => {},
        }
        self.bump_state();
        Ok(ClickOutcome::Done)
    }

    fn perform_toggle_navigable(&mut self, source: bool) -> (r: Result<ClickOutcome, String>)
        requires
            old(self).wf(),
            old(self)@.model.diagrams.len() < usize::MAX,
            old(self)@.model.elements.len() < usize::MAX,
        ensures
            final(self).wf(),
            click_performed(old(self)@, ClickAction::ToggleNavigable(source), final(self)@, r),
    {
        match self.take_relationship_draft() {
            Some((o, mut d)) => {
                if source {
                    d.source_navigable = !d.source_navigable;
                } else {
                    d.target_navigable = !d.target_navigable;
                }
                self.set_relationship_draft(Some((o, d)));
                self.bump_state();
            },
            None => {},
        }
        Ok(ClickOutcome::Done)
    }

    fn perform_set_visibility(&mut self, sel: UmlId, v: crate::types::Visibility) -> (r: Result<ClickOutcome, String>)
        requires
            old(self).wf(),
            old(self)@.model.diagrams.len() < usize::MAX,
            old(self)@.model.elements.len() < usize::MAX,
        ensures
            final(self).wf(),
            click_performed(old(self)@, ClickAction::SetVisibility(sel, v), final(self)@, r),
    {
        let r0 = self.set_visibility(sel, v);
        let ghost g0 = r0;
        let r = match r0 {
            Ok(()) => Ok(ClickOutcome::Done),
            Err(m) => Err(m),
        };
        assert(visibility_set(old(self)@, sel, v, self@, result_text(g0)));
        r
    }

    fn perform_set_flags(&mut self, sel: UmlId, ab: bool, st: bool) -> (r: Result<ClickOutcome, String>)
        requires
            old(self).wf(),
            old(self)@.model.diagrams.len() < usize::MAX,
            old(self)@.model.elements.len() < usize::MAX,
        ensures
            final(self).wf(),
            click_performed(old(self)@, ClickAction::SetFlags(sel, ab, st), final(self)@, r),
    {
        let r0 = self.set_flags(sel, ab, st);
        let ghost g0 = r0;
        let r = match r0 {
            Ok(()) => Ok(ClickOutcome::Done),
            Err(m) => Err(m),
        };
        assert(flags_set(old(self)@, sel, ab, st, self@, result_text(g0)));
        r
    }

    fn perform_apply_classifier(&mut self, sel: UmlId) -> (r: Result<ClickOutcome, String>)
        requires
            old(self).wf(),
            old(self)@.model.diagrams.len() < usize::MAX,
            old(self)@.model.elements.len() < usize::MAX,
        ensures
            final(self).wf(),
            click_performed(old(self)@, ClickAction::ApplyClassifier(sel), final(self)@, r),
    {
        let d = match self.classifier_draft() {
            Some(p) => p.1.duplicate(),
            None => return Ok(ClickOutcome::Done),
        };
        let r0 = self.apply_classifier_draft(sel, &d);
        let ghost g0 = flag_text(r0);
        let ghost mid = self@;
        let r = match r0 {
            Ok(true) => {
                self.set_status("Classifier features updated");
                self.refresh_property_buffers();
                self.bump_state();
                Ok(ClickOutcome::Done)
            },
            Ok(false) => {
                self.set_status("Classifier unchanged (no changes)");
                self.bump_state();
                Ok(ClickOutcome::Done)
            },
            Err(e) => {
                let mut m = owned("Classifier apply failed: ");
                m.append(e.as_str());
                self.set_status(m.as_str());
                Err(command_text(e))
            },
        };
        assert(classifier_then(old(self)@, sel, d@, mid, g0, self@, r));
        assert(classifier_outcome(old(self)@, sel, d@, self@, r));
        r
    }

    fn perform_revert_classifier(&mut self) -> (r: Result<ClickOutcome, String>)
        requires
            old(self).wf(),
            old(self)@.model.diagrams.len() < usize::MAX,
            old(self)@.model.elements.len() < usize::MAX,
        ensures
            final(self).wf(),
            click_performed(old(self)@, ClickAction::RevertClassifier, final(self)@, r),
    {
        self.refresh_property_buffers();
        self.set_status("Classifier draft reverted");
        self.bump_state();
        Ok(ClickOutcome::Done)
    }

    fn perform_edit_draft(&mut self, e: DraftEdit) -> (r: Result<ClickOutcome, String>)
        requires
            old(self).wf(),
            old(self)@.model.diagrams.len() < usize::MAX,
            old(self)@.model.elements.len() < usize::MAX,
        ensures
            final(self).wf(),
            click_performed(old(self)@, ClickAction::EditDraft(e), final(self)@, r),
    {
        match self.take_classifier_draft() {
            Some((o, mut d)) => {
                let ok = d.apply_edit(e);
                self.set_classifier_draft(Some((o, d)));
                if ok {
                    self.bump_state();
                }
            },
            None => {},
        }
        Ok(ClickOutcome::Done)
    }

    /// Carry out a click's action.
    fn perform_click(&mut self, a: ClickAction) -> (r: Result<ClickOutcome, String>)
        requires
            old(self).wf(),
            old(self)@.model.diagrams.len() < usize::MAX,
            old(self)@.model.elements.len() < usize::MAX,
        ensures
            final(self).wf(),
            click_performed(old(self)@, a, final(self)@, r),
    {
        match a {
            ClickAction::Undo => self.perform_undo(),
            ClickAction::Redo => self.perform_redo(),
            ClickAction::NewProject => Ok(ClickOutcome::NewProject),
            ClickAction::Save => Ok(ClickOutcome::Save),
            ClickAction::Quit => Ok(ClickOutcome::Quit),
            ClickAction::ZoomIn => {
                self.bump_state();
                Ok(ClickOutcome::ZoomIn)
            },
            ClickAction::ZoomOut => {
                self.bump_state();
                Ok(ClickOutcome::ZoomOut)
            },
            ClickAction::ResetView => {
                self.bump_state();
                Ok(ClickOutcome::ResetView)
            },
            ClickAction::FitView => Ok(ClickOutcome::FitView),
            ClickAction::AddToDiagram(e) => Ok(ClickOutcome::AddToDiagram(e)),
            ClickAction::ChooseTool(t) => self.perform_choose_tool(t),
            ClickAction::SelectElement(e) => self.perform_select_element(e),
            ClickAction::OpenDialog => self.perform_open_dialog(),
            ClickAction::CreateDiagram(k) => self.perform_create_diagram(k),
            ClickAction::ActivateDiagram(i) => self.perform_activate_diagram(i),
            ClickAction::Place(t, p) => self.perform_place(t, p),
            ClickAction::Nothing => Ok(ClickOutcome::Done),
            ClickAction::ApplyRelationship(sel) => self.perform_apply_relationship(sel),
            ClickAction::RevertRelationship => self.perform_revert_relationship(),
            ClickAction::SetRelationshipKind(k) => self.perform_set_relationship_kind(k),
            ClickAction::ToggleNavigable(source) => self.perform_toggle_navigable(source),
            ClickAction::SetVisibility(sel, v) => self.perform_set_visibility(sel, v),
            ClickAction::SetFlags(sel, ab, st) => self.perform_set_flags(sel, ab, st),
            ClickAction::ApplyClassifier(sel) => self.perform_apply_classifier(sel),
            ClickAction::RevertClassifier => self.perform_revert_classifier(),
            ClickAction::EditDraft(e) => self.perform_edit_draft(e),
        }
    }

    /// Click the target with the id, as an automation client does: a target
    /// that is not offered now or not enabled is refused; otherwise the
    /// action that the id names is carried out. A canvas click needs a finite
    /// position (in model coordinates); with a creation tool it places the
    /// element there and then returns to the selection tool. File, viewport
    /// and quit actions, and putting an element on the diagram, are left to
    /// the application, which the result names.
    pub fn click_target(&mut self, id: &str, position: Option<Point>) -> (r: Result<ClickOutcome, String>)
        requires
            old(self).wf(),
            old(self)@.model.diagrams.len() < usize::MAX,
            old(self)@.model.elements.len() < usize::MAX,
        ensures
            final(self).wf(),
            click_done(old(self)@, old(self).element_order(), id@, position, final(self)@, r),
    {
        match self.decide_click(id, position) {
            Err(m) => Err(m),
            Ok(a) => self.perform_click(a),
        }
    }
}

} // verus!
