//! What a click on a target of the automation interface means: the target
//! must be offered and enabled; its id then names the action, with the
//! element, diagram, kind or draft feature that the id spells.
use crate::diagram::geometry::Point;
use crate::diagram::{is_finite_bits, DiagramKind, DiagramView};
use crate::draft_edits::OperationFlag;
use crate::editor::{creates_node, ToolMode};
use crate::id::{uuid_parse_value, uuid_text_spec, UmlId};
use crate::naming::parsed_u64;
use crate::session::{kind_allowed, SessionView};
use crate::targets::{draft_has_kind, snapshot_targets, UiTargetView};
use crate::types::{AssociationType, ParameterDirection, Visibility};
use vstd::prelude::*;

verus! {

/// Errors of the automation interface.
#[derive(Debug, Clone, PartialEq, Eq)]
pub enum QaError {
    /// The user interface is not ready.
    NotReady,
    /// Too many requests are waiting.
    QueueFull,
    /// The client is no longer connected.
    Disconnected,
    /// The request was cancelled.
    Cancelled,
    /// The request took too long.
    Timeout,
    /// The target is not offered, or not enabled.
    UnavailableTarget(String),
    /// The target does not take this request.
    WrongTargetKind(String),
    /// The coordinates are missing or not finite.
    InvalidCoordinates,
    /// A value the request carried is refused.
    InvalidValue(String),
    /// An editor command failed.
    Command(String),
    /// Taking a screenshot failed.
    Screenshot(String),
    /// The application is shutting down.
    Shutdown,
}

/// The mathematical value of a `QaError`.
pub enum QaErrorView {
    NotReady,
    QueueFull,
    Disconnected,
    Cancelled,
    Timeout,
    UnavailableTarget(Seq<char>),
    WrongTargetKind(Seq<char>),
    InvalidCoordinates,
    InvalidValue(Seq<char>),
    Command(Seq<char>),
    Screenshot(Seq<char>),
    Shutdown,
}

impl View for QaError {
    type V = QaErrorView;

    open spec fn view(&self) -> QaErrorView {
        match self {
            QaError::NotReady => QaErrorView::NotReady,
            QaError::QueueFull => QaErrorView::QueueFull,
            QaError::Disconnected => QaErrorView::Disconnected,
            QaError::Cancelled => QaErrorView::Cancelled,
            QaError::Timeout => QaErrorView::Timeout,
            QaError::UnavailableTarget(s) => QaErrorView::UnavailableTarget(s@),
            QaError::WrongTargetKind(s) => QaErrorView::WrongTargetKind(s@),
            QaError::InvalidCoordinates => QaErrorView::InvalidCoordinates,
            QaError::InvalidValue(s) => QaErrorView::InvalidValue(s@),
            QaError::Command(s) => QaErrorView::Command(s@),
            QaError::Screenshot(s) => QaErrorView::Screenshot(s@),
            QaError::Shutdown => QaErrorView::Shutdown,
        }
    }
}

/// The text of an automation error.
pub open spec fn qa_error_text(e: QaErrorView) -> Seq<char> {
    match e {
        QaErrorView::NotReady => "UI is not ready"@,
        QaErrorView::QueueFull => "QA request queue is full"@,
        QaErrorView::Disconnected => "QA bridge is disconnected"@,
        QaErrorView::Cancelled => "QA request was cancelled"@,
        QaErrorView::Timeout => "QA request timed out"@,
        QaErrorView::UnavailableTarget(id) => "target is unavailable or stale: "@ + id,
        QaErrorView::WrongTargetKind(id) => "target has wrong kind: "@ + id,
        QaErrorView::InvalidCoordinates => "coordinates are invalid"@,
        QaErrorView::InvalidValue(v) => "invalid value: "@ + v,
        QaErrorView::Command(v) => "command failed: "@ + v,
        QaErrorView::Screenshot(v) => "screenshot failed: "@ + v,
        QaErrorView::Shutdown => "UI is shutting down"@,
    }
}

impl QaError {
    /// The error's text.
    pub fn message(&self) -> (s: String)
        ensures
            s@ == qa_error_text(self@),
    {
        match self {
            QaError::NotReady => String::from_str("UI is not ready"),
            QaError::QueueFull => String::from_str("QA request queue is full"),
            QaError::Disconnected => String::from_str("QA bridge is disconnected"),
            QaError::Cancelled => String::from_str("QA request was cancelled"),
            QaError::Timeout => String::from_str("QA request timed out"),
            QaError::UnavailableTarget(id) => {
                let mut s = String::from_str("target is unavailable or stale: ");
                s.append(id.as_str());
                s
            },
            QaError::WrongTargetKind(id) => {
                let mut s = String::from_str("target has wrong kind: ");
                s.append(id.as_str());
                s
            },
            QaError::InvalidCoordinates => String::from_str("coordinates are invalid"),
            QaError::InvalidValue(v) => {
                let mut s = String::from_str("invalid value: ");
                s.append(v.as_str());
                s
            },
            QaError::Command(v) => {
                let mut s = String::from_str("command failed: ");
                s.append(v.as_str());
                s
            },
            QaError::Screenshot(v) => {
                let mut s = String::from_str("screenshot failed: ");
                s.append(v.as_str());
                s
            },
            QaError::Shutdown => String::from_str("UI is shutting down"),
        }
    }
}

/// The refusal of an unavailable target.
pub open spec fn unavailable(id: Seq<char>) -> Seq<char> {
    qa_error_text(QaErrorView::UnavailableTarget(id))
}

/// One edit of the classifier draft that a click makes.
#[derive(Debug, Clone, Copy, PartialEq, Eq, Structural)]
pub enum DraftEdit {
    /// Add an attribute.
    AddAttribute,
    /// Add an operation.
    AddOperation,
    /// Delete an attribute.
    RemoveAttribute(usize),
    /// Set an attribute's visibility.
    AttributeVisibility(usize, Visibility),
    /// Invert an attribute's static flag.
    ToggleAttributeStatic(usize),
    /// Add a parameter to an operation.
    AddParameter(usize),
    /// Delete an operation.
    RemoveOperation(usize),
    /// Set an operation's visibility.
    OperationVisibility(usize, Visibility),
    /// Invert one flag of an operation.
    ToggleOperation(usize, OperationFlag),
    /// Delete a parameter of an operation.
    RemoveParameter(usize, usize),
    /// Set the direction of a parameter of an operation.
    ParameterDirection(usize, usize, ParameterDirection),
}

/// What a click on a target asks for.
#[derive(Debug, Clone, Copy, PartialEq, Eq, Structural)]
pub enum ClickAction {
    /// Undo the newest step.
    Undo,
    /// Redo the newest undone step.
    Redo,
    /// Start a new project (the application asks for the file).
    NewProject,
    /// Save the project (the application writes the file).
    Save,
    /// Quit (the application asks to save first).
    Quit,
    /// Zoom the viewport in.
    ZoomIn,
    /// Zoom the viewport out.
    ZoomOut,
    /// Reset the viewport.
    ResetView,
    /// Fit the active diagram into the canvas.
    FitView,
    /// Choose a tool.
    ChooseTool(ToolMode),
    /// Put an element on the active diagram.
    AddToDiagram(UmlId),
    /// Select an element.
    SelectElement(UmlId),
    /// Open the new-diagram dialog.
    OpenDialog,
    /// Create a diagram of a kind under its default name.
    CreateDiagram(DiagramKind),
    /// Make a diagram active.
    ActivateDiagram(usize),
    /// Place a new element with the creation tool at a point of the canvas.
    Place(ToolMode, Point),
    /// Nothing to do (a text field was clicked).
    Nothing,
    /// Install the relationship draft.
    ApplyRelationship(UmlId),
    /// Read the relationship draft again from the model.
    RevertRelationship,
    /// Give the relationship draft a kind.
    SetRelationshipKind(AssociationType),
    /// Invert the navigability of the source (`true`) or target end.
    ToggleNavigable(bool),
    /// Set an element's visibility.
    SetVisibility(UmlId, Visibility),
    /// Set a classifier's abstract and static flags.
    SetFlags(UmlId, bool, bool),
    /// Install the classifier draft.
    ApplyClassifier(UmlId),
    /// Read the classifier draft again from the model.
    RevertClassifier,
    /// Edit the classifier draft.
    EditDraft(DraftEdit),
}

/// `s` starts with `p`.
pub open spec fn has_prefix(s: Seq<char>, p: Seq<char>) -> bool {
    p.len() <= s.len() && s.take(p.len() as int) == p
}

/// `s` ends with `p`.
pub open spec fn has_suffix(s: Seq<char>, p: Seq<char>) -> bool {
    p.len() <= s.len() && s.skip(s.len() - p.len()) == p
}

/// What follows the prefix `p` in `s`.
pub open spec fn after(s: Seq<char>, p: Seq<char>) -> Seq<char> {
    s.skip(p.len() as int)
}

/// The position of the first `.` in `s`.
pub open spec fn first_dot(s: Seq<char>) -> Option<int>
    decreases s.len(),
{
    if s.len() == 0 {
        None
    } else if s[0] == '.' {
        Some(0)
    } else {
        match first_dot(s.drop_first()) {
            Some(k) => Some(k + 1),
            None => None,
        }
    }
}

/// The index a text spells, as `usize::from_str` reads it.
pub open spec fn parsed_index(s: Seq<char>) -> Option<int> {
    match parsed_u64(s) {
        Some(v) => if v <= usize::MAX {
            Some(v)
        } else {
            None
        },
        None => None,
    }
}

/// The first target with the id.
pub open spec fn first_with_id(ts: Seq<UiTargetView>, id: Seq<char>) -> Option<UiTargetView>
    decreases ts.len(),
{
    if ts.len() == 0 {
        None
    } else if ts[0].id == id {
        Some(ts[0])
    } else {
        first_with_id(ts.drop_first(), id)
    }
}

/// The target with the id is offered now and enabled.
pub open spec fn target_ready(s: SessionView, ids: Seq<UmlId>, id: Seq<char>) -> bool {
    match first_with_id(snapshot_targets(s, ids, Some(id)), id) {
        Some(t) => t.enabled,
        None => false,
    }
}

/// The tool whose key is `name`.
pub open spec fn tool_named(name: Seq<char>) -> Option<ToolMode> {
    if name == "select"@ {
        Some(ToolMode::Select)
    } else if name == "class"@ {
        Some(ToolMode::CreateClass)
    } else if name == "interface"@ {
        Some(ToolMode::CreateInterface)
    } else if name == "enum"@ {
        Some(ToolMode::CreateEnum)
    } else if name == "datatype"@ {
        Some(ToolMode::CreateDatatype)
    } else if name == "package"@ {
        Some(ToolMode::CreatePackage)
    } else if name == "actor"@ {
        Some(ToolMode::CreateActor)
    } else if name == "use_case"@ {
        Some(ToolMode::CreateUseCase)
    } else if name == "component"@ {
        Some(ToolMode::CreateComponent)
    } else if name == "node"@ {
        Some(ToolMode::CreateNode)
    } else if name == "artifact"@ {
        Some(ToolMode::CreateArtifact)
    } else if name == "generalization"@ {
        Some(ToolMode::CreateGeneralization)
    } else if name == "realization"@ {
        Some(ToolMode::CreateRealization)
    } else if name == "association"@ {
        Some(ToolMode::CreateAssociation)
    } else if name == "aggregation"@ {
        Some(ToolMode::CreateAggregation)
    } else if name == "composition"@ {
        Some(ToolMode::CreateComposition)
    } else if name == "dependency"@ {
        Some(ToolMode::CreateDependency)
    } else {
        None
    }
}

/// The relationship kind whose key is `name`.
pub open spec fn kind_named(name: Seq<char>) -> Option<AssociationType> {
    if name == "association"@ {
        Some(AssociationType::Association)
    } else if name == "generalization"@ {
        Some(AssociationType::Generalization)
    } else if name == "realization"@ {
        Some(AssociationType::Realization)
    } else if name == "aggregation"@ {
        Some(AssociationType::Aggregation)
    } else if name == "composition"@ {
        Some(AssociationType::Composition)
    } else if name == "dependency"@ {
        Some(AssociationType::Dependency)
    } else {
        None
    }
}

/// The visibility a key names.
pub open spec fn visibility_named(name: Seq<char>) -> Option<Visibility> {
    if name == "public"@ {
        Some(Visibility::Public)
    } else if name == "protected"@ {
        Some(Visibility::Protected)
    } else if name == "private"@ {
        Some(Visibility::Private)
    } else if name == "implementation"@ {
        Some(Visibility::Implementation)
    } else {
        None
    }
}

/// The parameter direction a key names.
pub open spec fn direction_named(name: Seq<char>) -> Option<ParameterDirection> {
    if name == "in"@ {
        Some(ParameterDirection::In)
    } else if name == "out"@ {
        Some(ParameterDirection::Out)
    } else if name == "inout"@ {
        Some(ParameterDirection::InOut)
    } else if name == "return"@ {
        Some(ParameterDirection::Return)
    } else {
        None
    }
}

/// The position of the first diagram whose id's text is `raw`.
pub open spec fn diagram_with_text(ds: Seq<DiagramView>, raw: Seq<char>) -> Option<int> {
    if exists|i: int| 0 <= i < ds.len() && uuid_text_spec(ds[i].id.value) == raw {
        Some(
            choose|i: int|
                0 <= i < ds.len() && uuid_text_spec(ds[i].id.value) == raw && forall|j: int|
                    0 <= j < i ==> uuid_text_spec(ds[j].id.value) != raw,
        )
    } else {
        None
    }
}

/// The element a text after a prefix names, as a result.
pub open spec fn parsed_id(raw: Seq<char>, full: Seq<char>) -> Result<UmlId, Seq<char>> {
    match uuid_parse_value(raw) {
        Some(v) => Ok(UmlId { value: v }),
        None => Err(unavailable(full)),
    }
}

/// A click on `property.classifier.attribute.<rest>`.
pub open spec fn attribute_decision(s: SessionView, rest: Seq<char>, full: Seq<char>) -> Result<ClickAction, Seq<char>> {
    match first_dot(rest) {
        None => Err(unavailable(full)),
        Some(d) => {
            let action = rest.skip(d + 1);
            match parsed_index(rest.take(d)) {
                None => Err(unavailable(full)),
                Some(i) => match s.classifier_draft {
                    None => Err(unavailable(full)),
                    Some((_, dr)) => if i >= dr.attributes.len() {
                        Err(unavailable(full))
                    } else if action == "delete"@ {
                        Ok(ClickAction::EditDraft(DraftEdit::RemoveAttribute(i as usize)))
                    } else if has_prefix(action, "visibility."@) {
                        match visibility_named(after(action, "visibility."@)) {
                            Some(v) => Ok(ClickAction::EditDraft(DraftEdit::AttributeVisibility(i as usize, v))),
                            None => Err(unavailable(full)),
                        }
                    } else if action == "static"@ {
                        Ok(ClickAction::EditDraft(DraftEdit::ToggleAttributeStatic(i as usize)))
                    } else {
                        Err(unavailable(full))
                    },
                },
            }
        },
    }
}

/// A click on a parameter of operation `op`: `<index>.<action>` in `rest`.
pub open spec fn parameter_decision(s: SessionView, op: int, rest: Seq<char>, full: Seq<char>) -> Result<
    ClickAction,
    Seq<char>,
> {
    match first_dot(rest) {
        None => Err(unavailable(full)),
        Some(d) => {
            let action = rest.skip(d + 1);
            match parsed_index(rest.take(d)) {
                None => Err(unavailable(full)),
                Some(j) => match s.classifier_draft {
                    None => Err(unavailable(full)),
                    Some((_, dr)) => if j >= dr.operations[op].parameters.len() {
                        Err(unavailable(full))
                    } else if action == "delete"@ {
                        Ok(ClickAction::EditDraft(DraftEdit::RemoveParameter(op as usize, j as usize)))
                    } else if has_prefix(action, "direction."@) {
                        match direction_named(after(action, "direction."@)) {
                            Some(dir) => Ok(
                                ClickAction::EditDraft(DraftEdit::ParameterDirection(op as usize, j as usize, dir)),
                            ),
                            None => Err(unavailable(full)),
                        }
                    } else {
                        Err(unavailable(full))
                    },
                },
            }
        },
    }
}

/// A click on an operation-level action `action` of operation `op`.
pub open spec fn operation_action(op: int, action: Seq<char>, full: Seq<char>) -> Result<ClickAction, Seq<char>> {
    if action == "delete"@ {
        Ok(ClickAction::EditDraft(DraftEdit::RemoveOperation(op as usize)))
    } else if has_prefix(action, "visibility."@) {
        match visibility_named(after(action, "visibility."@)) {
            Some(v) => Ok(ClickAction::EditDraft(DraftEdit::OperationVisibility(op as usize, v))),
            None => Err(unavailable(full)),
        }
    } else if action == "static"@ {
        Ok(ClickAction::EditDraft(DraftEdit::ToggleOperation(op as usize, OperationFlag::Static)))
    } else if action == "abstract"@ {
        Ok(ClickAction::EditDraft(DraftEdit::ToggleOperation(op as usize, OperationFlag::Abstract)))
    } else if action == "virtual"@ {
        Ok(ClickAction::EditDraft(DraftEdit::ToggleOperation(op as usize, OperationFlag::Virtual)))
    } else {
        Err(unavailable(full))
    }
}

/// A click on `property.classifier.operation.<rest>`.
pub open spec fn operation_decision(s: SessionView, rest: Seq<char>, full: Seq<char>) -> Result<ClickAction, Seq<char>> {
    if rest == "add"@ {
        if s.classifier_draft is None {
            Err(unavailable("classifier draft"@))
        } else {
            Ok(ClickAction::EditDraft(DraftEdit::AddOperation))
        }
    } else if has_suffix(rest, ".parameter.add"@) {
        match parsed_index(rest.take(rest.len() - 14)) {
            None => Err(unavailable(full)),
            Some(i) => match s.classifier_draft {
                None => Err(unavailable(full)),
                Some((_, dr)) => if i >= dr.operations.len() {
                    Err(unavailable(full))
                } else {
                    Ok(ClickAction::EditDraft(DraftEdit::AddParameter(i as usize)))
                },
            },
        }
    } else {
        let (head, tail) = match first_dot(rest) {
            Some(d) => (rest.take(d), rest.skip(d + 1)),
            None => (rest, Seq::<char>::empty()),
        };
        match parsed_index(head) {
            None => Err(unavailable(full)),
            Some(i) => match s.classifier_draft {
                None => Err(unavailable(full)),
                Some((_, dr)) => if i >= dr.operations.len() {
                    Err(unavailable(full))
                } else if has_prefix(tail, "parameter."@) {
                    parameter_decision(s, i, after(tail, "parameter."@), full)
                } else {
                    operation_action(i, tail, full)
                },
            },
        }
    }
}

/// A click on one of the inspector's targets (`property.…`).
pub open spec fn property_decision(s: SessionView, id: Seq<char>) -> Result<ClickAction, Seq<char>> {
    if id == "property.name"@ || id == "property.documentation"@ {
        Ok(ClickAction::Nothing)
    } else if id == "property.relationship.apply"@ {
        match s.selected {
            Some(sel) => Ok(ClickAction::ApplyRelationship(sel)),
            None => Err(unavailable(id)),
        }
    } else if id == "property.relationship.revert"@ {
        Ok(ClickAction::RevertRelationship)
    } else if has_prefix(id, "property.relationship.kind."@) {
        match kind_named(after(id, "property.relationship.kind."@)) {
            None => Err(unavailable(id)),
            Some(k) => if !kind_allowed(s, k) && !draft_has_kind(s, k) {
                Err(unavailable(id))
            } else {
                Ok(ClickAction::SetRelationshipKind(k))
            },
        }
    } else if id == "property.relationship.source_navigable"@ && s.relationship_draft is Some {
        Ok(ClickAction::ToggleNavigable(true))
    } else if id == "property.relationship.target_navigable"@ && s.relationship_draft is Some {
        Ok(ClickAction::ToggleNavigable(false))
    } else if has_prefix(id, "property.visibility."@) {
        match visibility_named(after(id, "property.visibility."@)) {
            None => Err(unavailable(id)),
            Some(v) => match s.selected {
                None => Err(unavailable(id)),
                Some(sel) => Ok(ClickAction::SetVisibility(sel, v)),
            },
        }
    } else if id == "property.abstract"@ || id == "property.static"@ {
        match s.selected {
            None => Err(unavailable(id)),
            Some(sel) => if !s.model.elements.contains_key(sel) || s.model.elements[sel].classifier() is None {
                Err(unavailable(id))
            } else {
                let b = s.model.elements[sel].base();
                if id == "property.abstract"@ {
                    Ok(ClickAction::SetFlags(sel, !b.is_abstract, b.is_static))
                } else {
                    Ok(ClickAction::SetFlags(sel, b.is_abstract, !b.is_static))
                }
            },
        }
    } else if id == "property.classifier.apply"@ {
        match s.selected {
            None => Err(unavailable(id)),
            Some(sel) => if s.classifier_draft is None {
                Err(unavailable(id))
            } else {
                Ok(ClickAction::ApplyClassifier(sel))
            },
        }
    } else if id == "property.classifier.revert"@ {
        Ok(ClickAction::RevertClassifier)
    } else if id == "property.classifier.attribute.add"@ {
        if s.classifier_draft is None {
            Err(unavailable("classifier draft"@))
        } else {
            Ok(ClickAction::EditDraft(DraftEdit::AddAttribute))
        }
    } else if id == "property.classifier.operation.add"@ {
        if s.classifier_draft is None {
            Err(unavailable("classifier draft"@))
        } else {
            Ok(ClickAction::EditDraft(DraftEdit::AddOperation))
        }
    } else if has_prefix(id, "property.classifier.attribute."@) {
        attribute_decision(s, after(id, "property.classifier.attribute."@), id)
    } else if has_prefix(id, "property.classifier.operation."@) {
        operation_decision(s, after(id, "property.classifier.operation."@), id)
    } else {
        Err(unavailable(id))
    }
}

/// A click on a target that is offered and enabled, by its id.
pub open spec fn id_decision(s: SessionView, id: Seq<char>, position: Option<Point>) -> Result<ClickAction, Seq<char>> {
    if id == "history.undo"@ {
        Ok(ClickAction::Undo)
    } else if id == "history.redo"@ {
        Ok(ClickAction::Redo)
    } else if id == "file.new"@ {
        Ok(ClickAction::NewProject)
    } else if id == "file.save"@ {
        if s.project_open() {
            Ok(ClickAction::Save)
        } else {
            Err(unavailable(id))
        }
    } else if id == "app.quit"@ {
        Ok(ClickAction::Quit)
    } else if id == "viewport.zoom_in"@ {
        Ok(ClickAction::ZoomIn)
    } else if id == "viewport.zoom_out"@ {
        Ok(ClickAction::ZoomOut)
    } else if id == "viewport.reset"@ {
        Ok(ClickAction::ResetView)
    } else if id == "viewport.fit"@ {
        Ok(ClickAction::FitView)
    } else if has_prefix(id, "tool."@) {
        match tool_named(after(id, "tool."@)) {
            Some(t) => Ok(ClickAction::ChooseTool(t)),
            None => Err(unavailable(id)),
        }
    } else if has_prefix(id, "element.add_to_diagram:"@) {
        match parsed_id(after(id, "element.add_to_diagram:"@), id) {
            Ok(e) => Ok(ClickAction::AddToDiagram(e)),
            Err(m) => Err(m),
        }
    } else if has_prefix(id, "element:"@) {
        match parsed_id(after(id, "element:"@), id) {
            Ok(e) => Ok(ClickAction::SelectElement(e)),
            Err(m) => Err(m),
        }
    } else if id == "diagram.new"@ {
        Ok(ClickAction::OpenDialog)
    } else if id == "diagram.new_class"@ || id == "diagram.new.class"@ {
        Ok(ClickAction::CreateDiagram(DiagramKind::Class))
    } else if id == "diagram.new.use_case"@ {
        Ok(ClickAction::CreateDiagram(DiagramKind::UseCase))
    } else if id == "diagram.new.component"@ {
        Ok(ClickAction::CreateDiagram(DiagramKind::Component))
    } else if id == "diagram.new.deployment"@ {
        Ok(ClickAction::CreateDiagram(DiagramKind::Deployment))
    } else if has_prefix(id, "diagram:"@) {
        match diagram_with_text(s.model.diagrams, after(id, "diagram:"@)) {
            Some(i) => Ok(ClickAction::ActivateDiagram(i as usize)),
            None => Err(unavailable(id)),
        }
    } else if id == "canvas"@ {
        match position {
            None => Err(qa_error_text(QaErrorView::InvalidCoordinates)),
            Some(p) => if !is_finite_bits(p.x) || !is_finite_bits(p.y) {
                Err(qa_error_text(QaErrorView::InvalidCoordinates))
            } else if creates_node(s.tool) {
                Ok(ClickAction::Place(s.tool, p))
            } else {
                Err(qa_error_text(QaErrorView::WrongTargetKind(id)))
            },
        }
    } else if has_prefix(id, "node:"@) {
        match parsed_id(after(id, "node:"@), id) {
            Ok(e) => Ok(ClickAction::SelectElement(e)),
            Err(m) => Err(m),
        }
    } else if has_prefix(id, "edge:"@) {
        match parsed_id(after(id, "edge:"@), id) {
            Ok(e) => Ok(ClickAction::SelectElement(e)),
            Err(m) => Err(m),
        }
    } else {
        property_decision(s, id)
    }
}

/// What a click on the target with the id asks for, or why it is refused:
/// a target that is not offered or not enabled is refused first.
pub open spec fn click_decision(s: SessionView, ids: Seq<UmlId>, id: Seq<char>, position: Option<Point>) -> Result<
    ClickAction,
    Seq<char>,
> {
    if !target_ready(s, ids, id) {
        Err(unavailable(id))
    } else {
        id_decision(s, id, position)
    }
}

} // verus!
