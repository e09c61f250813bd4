//! The editing session behind the diagram editor: the model and its undo
//! history, the open project, the active diagram, the current tool and the
//! selection, with the rules that decide what an editing action does.
use crate::diagram::entries::has_key;
use crate::diagram::geometry::{Point, Size};
use crate::diagram::{diagram_kind_name, normalized_zoom, Diagram, DiagramKind, DiagramView, DEFAULT_ZOOM_BITS};
use crate::drafts::{
    classifier_draft_of, draft_problem, features_of_draft, relationship_draft_of, with_relationship_draft,
    ClassifierDraft, ClassifierDraftView, RelationshipDraft, RelationshipDraftView,
};
use crate::editor::{
    creates_node, edge_kind, element_fits, element_is_compatible_with_diagram, tool_fits, tool_label, ToolMode,
};
use crate::elements::{
    empty_classifier, fresh_base, fresh_relationship, Actor, Artifact, Class, ClassifierElementView,
    Component, Datatype, ElementBaseView, Enum, EnumView, Interface, ModelElement, ModelElementView,
    Node, Package, PackageView, UseCase,
};
use crate::id::{uuid_text_spec, DiagramId, UmlId};
use crate::naming::{
    decimal, decimal_text, diagram_names, element_names, generate_unique_diagram_name, generate_unique_name,
    unique_name,
};
use crate::repository::{diagram_index, diagram_views, UmlModel, UmlModelView};
use crate::text::{is_empty_text, owned, trim, trimmed};
use crate::types::{object_type_name, AssociationType, Visibility};
use crate::undo::commands::{
    direct_edge, installed_relationship, placed_node, AddNodeToDiagram, ChangeDocumentation, ChangeElementFlags,
    ChangeVisibility, CreateDiagram, CreateEdge, CreateElementWithNode, MoveNode, RenameElement,
    UpdateClassifierFeatures, UpdateRelationship,
};
use crate::undo::history::{history_executes, history_redoes, history_undoes, History, HistoryView, UndoCommand};
use crate::undo::{command_error_text, outcome, succeeded, Command, CommandError, CommandErrorView};
use vstd::prelude::*;

verus! {

/// Width of a node placed by a creation tool: 160 (an IEEE-754 bit pattern).
pub const NODE_WIDTH_BITS: u64 = 0x4064_0000_0000_0000;

/// Height of a node placed by a creation tool: 60 (an IEEE-754 bit pattern).
pub const NODE_HEIGHT_BITS: u64 = 0x404E_0000_0000_0000;

/// The mathematical value of an `EditorSession`.
pub struct SessionView {
    /// The model being edited.
    pub model: UmlModelView,
    /// Its undo history.
    pub history: HistoryView,
    /// The position of the active diagram, if any.
    pub active_diagram: Option<usize>,
    /// The path of the open project (an XMI file), if any.
    pub file_path: Option<Seq<char>>,
    /// Whether the model has unsaved changes.
    pub dirty: bool,
    /// The current tool.
    pub tool: ToolMode,
    /// The selected element, if any.
    pub selected: Option<UmlId>,
    /// A counter bumped by every change that the user can see.
    pub revision: u64,
    /// The status line.
    pub status: Seq<char>,
    /// The name field of the property inspector.
    pub name_buffer: Seq<char>,
    /// The documentation field of the property inspector.
    pub documentation_buffer: Seq<char>,
    /// The relationship draft, with the relationship it edits.
    pub relationship_draft: Option<(UmlId, RelationshipDraftView)>,
    /// The classifier draft, with the classifier it edits.
    pub classifier_draft: Option<(UmlId, ClassifierDraftView)>,
    /// Whether the new-diagram dialog is open.
    pub dialog_open: bool,
    /// The kind chosen in the new-diagram dialog.
    pub dialog_kind: DiagramKind,
    /// The name typed in the new-diagram dialog.
    pub dialog_name: Seq<char>,
    /// Where a node being placed is previewed on the canvas, if anywhere.
    pub preview: Option<Point>,
    /// The node an edge being drawn starts from, if one is being drawn.
    pub drag_source: Option<UmlId>,
    /// The node being dragged, if any.
    pub drag_node: Option<UmlId>,
    /// Where the dragged node was when the drag began.
    pub drag_start: Option<Point>,
    /// Where the dragged node is shown now, if it has moved.
    pub drag_preview: Option<Point>,
    /// The automation client's current target, if it selected one.
    pub cursor: Option<Seq<char>>,
}

impl SessionView {
    /// Whether a project is open.
    pub open spec fn project_open(self) -> bool {
        self.file_path is Some
    }
}

/// The counter after a visible change (it stops at its maximum).
pub open spec fn bumped(r: u64) -> u64 {
    if r < u64::MAX {
        (r + 1) as u64
    } else {
        r
    }
}

/// The kind of the active diagram, if the active position holds one.
pub open spec fn active_kind(s: SessionView) -> Option<DiagramKind> {
    match s.active_diagram {
        Some(i) => if i < s.model.diagrams.len() {
            Some(s.model.diagrams[i as int].kind)
        } else {
            None
        },
        None => None,
    }
}

/// Whether a tool may be chosen: authoring tools need an open project, and
/// every tool needs an active diagram whose kind it suits.
pub open spec fn tool_available(s: SessionView, t: ToolMode) -> bool {
    &&& (t != ToolMode::Select ==> s.project_open())
    &&& match active_kind(s) {
        Some(k) => tool_fits(t, k),
        None => false,
    }
}

/// Why a tool may not be chosen.
pub open spec fn unavailable_reason(s: SessionView, t: ToolMode) -> Seq<char> {
    if t != ToolMode::Select && !s.project_open() {
        "Create or open an XMI project before authoring elements"@
    } else {
        match active_kind(s) {
            Some(k) => if !tool_fits(t, k) {
                "This tool is not supported by the active diagram kind"@
            } else {
                "Tool unavailable"@
            },
            None => "Select or create a supported diagram first"@,
        }
    }
}

/// The text of a failed command as the editor reports it.
pub open spec fn command_failure(e: CommandErrorView) -> Seq<char> {
    "command failed: "@ + command_error_text(e)
}

/// The session after a recorded change: the model and history as given,
/// marked dirty, with the counter bumped.
pub open spec fn changed(s: SessionView, model: UmlModelView, history: HistoryView) -> SessionView {
    SessionView { model, history, dirty: true, revision: bumped(s.revision), ..s }
}

/// The base name of the elements a node tool creates.
pub open spec fn tool_base_name(t: ToolMode) -> Seq<char> {
    match t {
        ToolMode::CreateClass => "Class"@,
        ToolMode::CreateInterface => "Interface"@,
        ToolMode::CreateEnum => "Enum"@,
        ToolMode::CreateDatatype => "Datatype"@,
        ToolMode::CreatePackage => "Package"@,
        ToolMode::CreateActor => "Actor"@,
        ToolMode::CreateUseCase => "UseCase"@,
        ToolMode::CreateComponent => "Component"@,
        ToolMode::CreateNode => "Node"@,
        _ => "Artifact"@,
    }
}

/// The new element a node tool creates, with its id and name.
pub open spec fn tool_element(t: ToolMode, id: UmlId, name: Seq<char>) -> ModelElementView {
    let b = fresh_base(id, name);
    match t {
        ToolMode::CreateClass => ModelElementView::Class(
            ClassifierElementView { base: b, classifier: empty_classifier() },
        ),
        ToolMode::CreateInterface => ModelElementView::Interface(
            ClassifierElementView {
                base: ElementBaseView { is_abstract: true, ..b },
                classifier: empty_classifier(),
            },
        ),
        ToolMode::CreateEnum => ModelElementView::Enum(
            EnumView { base: b, classifier: empty_classifier(), literals: Seq::empty() },
        ),
        ToolMode::CreateDatatype => ModelElementView::Datatype(
            ClassifierElementView { base: b, classifier: empty_classifier() },
        ),
        ToolMode::CreatePackage => ModelElementView::Package(PackageView { base: b, children: Seq::empty() }),
        ToolMode::CreateActor => ModelElementView::Actor(b),
        ToolMode::CreateUseCase => ModelElementView::UseCase(b),
        ToolMode::CreateComponent => ModelElementView::Component(b),
        ToolMode::CreateNode => ModelElementView::Node(b),
        _ => ModelElementView::Artifact(b),
    }
}

/// The size of a node placed by a creation tool.
pub open spec fn default_node_size() -> Size {
    Size { width: NODE_WIDTH_BITS, height: NODE_HEIGHT_BITS }
}

/// `<tool label> is not compatible with <kind> diagrams`.
pub open spec fn incompatible_text(t: ToolMode, k: DiagramKind) -> Seq<char> {
    tool_label(t) + " is not compatible with "@ + diagram_kind_name(k) + " diagrams"@
}

/// Why placing an element with a tool is refused before anything is
/// created, if it is.
pub open spec fn placement_refusal(s: SessionView, t: ToolMode) -> Option<Seq<char>> {
    if !creates_node(t) {
        Some("Current tool does not create a node"@)
    } else if s.active_diagram is None {
        Some("No active diagram"@)
    } else if s.active_diagram->0 >= s.model.diagrams.len() {
        Some("Active diagram is unavailable"@)
    } else if !s.project_open() {
        Some("Create or open an XMI project first"@)
    } else if !tool_fits(t, s.model.diagrams[s.active_diagram->0 as int].kind) {
        Some(incompatible_text(t, s.model.diagrams[s.active_diagram->0 as int].kind))
    } else {
        None
    }
}

/// Why drawing an edge with the current tool is refused before anything is
/// created, if it is.
pub open spec fn edge_refusal(s: SessionView) -> Option<Seq<char>> {
    if edge_kind(s.tool) is None {
        Some("Current tool is not an edge tool"@)
    } else if s.active_diagram is None {
        Some("No active diagram"@)
    } else if s.active_diagram->0 >= s.model.diagrams.len() {
        Some("Active diagram is unavailable"@)
    } else if !s.project_open() {
        Some("Create or open an XMI project first"@)
    } else if !tool_fits(s.tool, s.model.diagrams[s.active_diagram->0 as int].kind) {
        Some(incompatible_text(s.tool, s.model.diagrams[s.active_diagram->0 as int].kind))
    } else {
        None
    }
}

/// What running a command through the session did: the history ran it on
/// the model; on success the session is `changed`, on failure the error is
/// reported and nothing else changes.
pub open spec fn session_ran(
    s0: SessionView,
    cmd: UndoCommand,
    s1: SessionView,
    r: Result<(), Seq<char>>,
) -> bool {
    exists|out: Result<(), CommandErrorView>| #[trigger] ran_with(s0, cmd, s1, r, out)
}

/// `session_ran` with the history's own outcome `out`.
pub open spec fn ran_with(
    s0: SessionView,
    cmd: UndoCommand,
    s1: SessionView,
    r: Result<(), Seq<char>>,
    out: Result<(), CommandErrorView>,
) -> bool {
    &&& history_executes(s0.history, cmd, s0.model, s1.history, s1.model, out)
    &&& match out {
        Ok(()) => r is Ok && s1 == changed(s0, s1.model, s1.history),
        Err(e) => r == Err::<(), Seq<char>>(command_failure(e)) && s1 == (SessionView {
            model: s1.model,
            history: s1.history,
            ..s0
        }),
    }
}

/// The session with what no longer fits the model dropped: an active
/// position past the last diagram and a selection of a missing element; the
/// tool returns to `Select`.
pub open spec fn normalized(s: SessionView) -> SessionView {
    let s1 = if s.selected is Some && !s.model.elements.contains_key(s.selected->0) {
        cleared_selection(s)
    } else {
        s
    };
    let s2 = if s1.selected is None {
        SessionView {
            documentation_buffer: Seq::empty(),
            relationship_draft: None,
            classifier_draft: None,
            ..s1
        }
    } else {
        s1
    };
    SessionView {
        active_diagram: match s.active_diagram {
            Some(i) => if i >= s.model.diagrams.len() {
                None
            } else {
                Some(i)
            },
            None => None,
        },
        tool: ToolMode::Select,
        preview: None,
        drag_source: None,
        drag_node: None,
        drag_start: None,
        drag_preview: None,
        ..s2
    }
}

/// The session with nothing selected and the inspector emptied.
pub open spec fn cleared_selection(s: SessionView) -> SessionView {
    SessionView {
        selected: None,
        name_buffer: Seq::empty(),
        documentation_buffer: Seq::empty(),
        relationship_draft: None,
        classifier_draft: None,
        ..s
    }
}

/// The session with the inspector showing the selected element as it is in
/// the model: its name and documentation, and a draft of its features or of
/// the relationship; with no selected element (or a stale one) the selection
/// is cleared.
pub open spec fn refreshed(s: SessionView) -> SessionView {
    if s.selected is Some && s.model.elements.contains_key(s.selected->0) {
        let id = s.selected->0;
        let e = s.model.elements[id];
        SessionView {
            name_buffer: e.name(),
            documentation_buffer: e.base().documentation,
            classifier_draft: match e.classifier() {
                Some(c) => Some((id, classifier_draft_of(s.model, c))),
                None => None,
            },
            relationship_draft: match e {
                ModelElementView::Relationship(r) => Some((id, relationship_draft_of(r))),
                _ => None,
            },
            ..s
        }
    } else {
        cleared_selection(s)
    }
}

/// The position of the first diagram with the id.
pub open spec fn position_of(ds: Seq<DiagramView>, id: DiagramId) -> Option<usize> {
    match diagram_index(ds, id) {
        Some(i) => Some(i as usize),
        None => None,
    }
}

/// Why an element of the model may not be put on the active diagram, as the
/// element browser reports it.
pub open spec fn add_state_refusal(s: SessionView, id: UmlId) -> Option<Seq<char>> {
    if !s.project_open() {
        Some("Create or open an XMI project first"@)
    } else if s.active_diagram is None {
        Some("Select an active diagram first"@)
    } else if s.active_diagram->0 >= s.model.diagrams.len() {
        Some("Active diagram is unavailable"@)
    } else if !s.model.elements.contains_key(id) {
        Some("Element is unavailable"@)
    } else if s.model.elements[id] is Relationship {
        Some("Relationships cannot be added as nodes"@)
    } else if !element_fits(
        s.model.elements[id].object_type(),
        s.model.diagrams[s.active_diagram->0 as int].kind,
    ) {
        Some("Element is incompatible with the active diagram"@)
    } else if has_key(s.model.diagrams[s.active_diagram->0 as int].nodes, id.value) {
        Some("Element is already on the active diagram"@)
    } else {
        None
    }
}

/// Why putting an element of the model on the active diagram is refused, if
/// it is.
pub open spec fn add_refusal(s: SessionView, id: UmlId) -> Option<Seq<char>> {
    if !s.project_open() {
        Some("Create or open an XMI project first"@)
    } else if s.active_diagram is None {
        Some("No active diagram"@)
    } else if s.active_diagram->0 >= s.model.diagrams.len() {
        Some("Active diagram is unavailable"@)
    } else if !s.model.elements.contains_key(id) {
        Some("Element "@ + uuid_text_spec(id.value) + " is unavailable"@)
    } else if s.model.elements[id] is Relationship {
        Some("Relationships cannot be added as nodes"@)
    } else if !element_fits(
        s.model.elements[id].object_type(),
        s.model.diagrams[s.active_diagram->0 as int].kind,
    ) {
        Some(
            object_type_name(s.model.elements[id].object_type()) + " is not compatible with "@
                + diagram_kind_name(s.model.diagrams[s.active_diagram->0 as int].kind) + " diagrams"@,
        )
    } else if has_key(s.model.diagrams[s.active_diagram->0 as int].nodes, id.value) {
        Some("Element is already present on the active diagram"@)
    } else {
        None
    }
}

/// The diagram kinds the editor authors.
pub open spec fn authorable(k: DiagramKind) -> bool {
    k == DiagramKind::Class || k == DiagramKind::UseCase || k == DiagramKind::Component
        || k == DiagramKind::Deployment
}

/// Why creating a diagram is refused before anything is created, if it is.
pub open spec fn diagram_refusal(s: SessionView, kind: DiagramKind, name: Seq<char>) -> Option<Seq<char>> {
    if !s.project_open() {
        Some("create or open an XMI project before adding diagrams"@)
    } else if !authorable(kind) {
        Some("unsupported diagram kind: "@ + diagram_kind_name(kind))
    } else if trimmed(name).len() == 0 {
        Some("diagram name cannot be empty"@)
    } else {
        None
    }
}

/// A new empty diagram with the id, name and kind and the default zoom.
pub open spec fn fresh_diagram(id: DiagramId, name: Seq<char>, kind: DiagramKind) -> DiagramView {
    DiagramView {
        id,
        name,
        kind,
        zoom_percent: DEFAULT_ZOOM_BITS,
        nodes: Seq::empty(),
        edges: Seq::empty(),
    }
}

/// What creating a diagram through the session did, once the request passed
/// the checks: a fresh diagram of the kind, with the trimmed name, was
/// appended by one history step, which succeeds; the new diagram becomes the
/// active one, transient state is dropped and the counter bumped again. Only
/// a fresh random diagram id already in use refuses the request, with
/// nothing changed.
pub open spec fn diagram_created(
    s0: SessionView,
    kind: DiagramKind,
    name: Seq<char>,
    s1: SessionView,
    r: Result<DiagramId, String>,
) -> bool {
    (r is Err && s1 == s0 && id_collision(r->Err_0@) && exists|id: DiagramId|
        #[trigger] diagram_index(s0.model.diagrams, id) is Some) || exists|c: CreateDiagram, mid: SessionView|
        {
            &&& c.inv()
            &&& c.snapshot() == fresh_diagram(c.snapshot().id, trimmed(name), kind)
            &&& c.position() == s0.model.diagrams.len()
            &&& #[trigger] session_ran(s0, UndoCommand::CreateDiagram(c), mid, Ok(()))
            &&& r == Ok::<DiagramId, String>(c.snapshot().id)
            &&& s1 == (SessionView {
                active_diagram: position_of(mid.model.diagrams, c.snapshot().id),
                revision: bumped(mid.revision),
                ..normalized(SessionView { active_diagram: position_of(mid.model.diagrams, c.snapshot().id), ..mid })
            })
        }
}

/// A boolean result with its refusal as text.
pub open spec fn flag_text(r: Result<bool, String>) -> Result<bool, Seq<char>> {
    match r {
        Ok(b) => Ok(b),
        Err(m) => Err(m@),
    }
}

/// The session after an undo or redo step that succeeded: the model and
/// history as given, the active diagram as re-resolved, transient state
/// dropped, the inspector refreshed, marked dirty, the status set and the
/// counter bumped.
pub open spec fn stepped(
    s0: SessionView,
    model: UmlModelView,
    history: HistoryView,
    active: Option<usize>,
    status: Seq<char>,
) -> SessionView {
    SessionView {
        dirty: true,
        status,
        revision: bumped(s0.revision),
        ..refreshed(normalized(SessionView { model, history, active_diagram: active, ..s0 }))
    }
}

/// The id of the active diagram, if the active position holds one.
pub open spec fn active_id(s: SessionView) -> Option<DiagramId> {
    match s.active_diagram {
        Some(i) => if i < s.model.diagrams.len() {
            Some(s.model.diagrams[i as int].id)
        } else {
            None
        },
        None => None,
    }
}

/// The active diagram after an undo: the diagram that was active, found by
/// id; failing that, the old position clamped to the last diagram.
pub open spec fn active_after_undo(s0: SessionView, ds: Seq<DiagramView>) -> Option<usize> {
    let found = match active_id(s0) {
        Some(id) => position_of(ds, id),
        None => None,
    };
    if found is Some {
        found
    } else {
        match s0.active_diagram {
            Some(i) => if ds.len() == 0 {
                None
            } else if i < ds.len() {
                Some(i)
            } else {
                Some((ds.len() - 1) as usize)
            },
            None => None,
        }
    }
}

/// The ids of the diagrams, in order.
pub open spec fn diagram_ids(ds: Seq<DiagramView>) -> Seq<DiagramId> {
    ds.map_values(|d: DiagramView| d.id)
}

/// The first diagram of `after` whose id is not among `before`.
pub open spec fn first_new_diagram(before: Seq<DiagramId>, after: Seq<DiagramView>) -> Option<usize> {
    if exists|j: int| 0 <= j < after.len() && !before.contains(#[trigger] after[j].id) {
        Some(
            (choose|j: int|
                0 <= j < after.len() && !before.contains(after[j].id) && forall|k: int|
                    0 <= k < j ==> before.contains(#[trigger] after[k].id)) as usize,
        )
    } else {
        None
    }
}

/// The active diagram after a redo: the diagram that was active, found by
/// id; failing that, the first diagram that the redo brought back.
pub open spec fn active_after_redo(s0: SessionView, ds: Seq<DiagramView>) -> Option<usize> {
    let found = match active_id(s0) {
        Some(id) => position_of(ds, id),
        None => None,
    };
    if found is Some {
        found
    } else {
        first_new_diagram(diagram_ids(s0.model.diagrams), ds)
    }
}

/// The tool that draws relationships of a kind.
pub open spec fn kind_tool_spec(kind: AssociationType) -> ToolMode {
    match kind {
        AssociationType::Association => ToolMode::CreateAssociation,
        AssociationType::Generalization => ToolMode::CreateGeneralization,
        AssociationType::Realization => ToolMode::CreateRealization,
        AssociationType::Aggregation => ToolMode::CreateAggregation,
        AssociationType::Composition => ToolMode::CreateComposition,
        AssociationType::Dependency => ToolMode::CreateDependency,
    }
}

/// The tool that draws relationships of a kind.
pub fn kind_tool(kind: AssociationType) -> (t: ToolMode)
    ensures
        t == kind_tool_spec(kind),
{
    match kind {
        AssociationType::Association => ToolMode::CreateAssociation,
        AssociationType::Generalization => ToolMode::CreateGeneralization,
        AssociationType::Realization => ToolMode::CreateRealization,
        AssociationType::Aggregation => ToolMode::CreateAggregation,
        AssociationType::Composition => ToolMode::CreateComposition,
        AssociationType::Dependency => ToolMode::CreateDependency,
    }
}

/// Whether a relationship may take a kind: any kind without an active
/// diagram, else the kinds whose tool suits the diagram.
pub open spec fn kind_allowed(s: SessionView, kind: AssociationType) -> bool {
    match active_kind(s) {
        None => true,
        Some(k) => tool_fits(kind_tool_spec(kind), k),
    }
}

/// The relationship draft with the relationship it edits (meaningful when
/// there is one).
pub open spec fn drafted(s: SessionView) -> (UmlId, RelationshipDraftView) {
    s.relationship_draft->0
}

/// Why the relationship draft cannot be applied to the element, if it
/// cannot.
pub open spec fn relationship_refusal(s: SessionView, id: UmlId) -> Option<Seq<char>> {
    if !(s.model.elements.contains_key(id) && s.model.elements[id] is Relationship) {
        Some("selected element is not a relationship"@)
    } else if s.relationship_draft is None {
        Some("relationship draft is unavailable"@)
    } else if drafted(s).0 != id || (!kind_allowed(s, drafted(s).1.kind) && drafted(s).1.kind
        != s.model.elements[id]->Relationship_0.kind) {
        Some("relationship draft is stale or incompatible"@)
    } else {
        None
    }
}

/// Why a classifier draft cannot be applied to the element, if it cannot.
pub open spec fn classifier_refusal(s: SessionView, id: UmlId, d: ClassifierDraftView) -> Option<Seq<char>> {
    match draft_problem(d) {
        Some(m) => Some(m),
        None => if !(s.model.elements.contains_key(id) && s.model.elements[id].classifier() is Some) {
            Some("selected element is not a classifier"@)
        } else {
            None
        },
    }
}

/// What `undo_action` does: with nothing to undo it is refused and nothing
/// changes; otherwise the history undoes its newest step on the model, and
/// on success the session is `stepped` with the active diagram re-resolved
/// and the status `Undo`, while a failure is reported and leaves the rest of
/// the session as it was.
pub open spec fn session_undo_done(s0: SessionView, s1: SessionView, r: Result<(), Seq<char>>) -> bool {
    if s0.history.undo.len() == 0 {
        r == Err::<(), Seq<char>>("target is unavailable or stale: history.undo"@) && s1 == s0
    } else {
        exists|out: Result<(), CommandErrorView>, h1: HistoryView, m1: UmlModelView|
            #[trigger] undo_with(s0, s1, r, out, h1, m1)
    }
}

/// `session_undo_done` with the history's own outcome `out`, history `h1`
/// and model `m1`.
pub open spec fn undo_with(
    s0: SessionView,
    s1: SessionView,
    r: Result<(), Seq<char>>,
    out: Result<(), CommandErrorView>,
    h1: HistoryView,
    m1: UmlModelView,
) -> bool {
    &&& history_undoes(s0.history, s0.model, h1, m1, out)
    &&& match out {
        Ok(()) => r is Ok && s1 == stepped(s0, m1, h1, active_after_undo(s0, m1.diagrams), "Undo"@),
        Err(e) => r == Err::<(), Seq<char>>(command_failure(e)) && s1 == (SessionView {
            model: m1,
            history: h1,
            ..s0
        }),
    }
}

/// What `redo_action` does: with nothing to redo it is refused and nothing
/// changes; otherwise the history redoes its newest undone step, and on
/// success the session is `stepped` with the active diagram re-resolved and
/// the status `Redo`, while a failure is reported and leaves the rest of the
/// session as it was.
pub open spec fn session_redo_done(s0: SessionView, s1: SessionView, r: Result<(), Seq<char>>) -> bool {
    if s0.history.redo.len() == 0 {
        r == Err::<(), Seq<char>>("target is unavailable or stale: history.redo"@) && s1 == s0
    } else {
        exists|out: Result<(), CommandErrorView>, h1: HistoryView, m1: UmlModelView|
            #[trigger] redo_with(s0, s1, r, out, h1, m1)
    }
}

/// `session_redo_done` with the history's own outcome `out`, history `h1`
/// and model `m1`.
pub open spec fn redo_with(
    s0: SessionView,
    s1: SessionView,
    r: Result<(), Seq<char>>,
    out: Result<(), CommandErrorView>,
    h1: HistoryView,
    m1: UmlModelView,
) -> bool {
    &&& history_redoes(s0.history, s0.model, h1, m1, out)
    &&& match out {
        Ok(()) => r is Ok && s1 == stepped(s0, m1, h1, active_after_redo(s0, m1.diagrams), "Redo"@),
        Err(e) => r == Err::<(), Seq<char>>(command_failure(e)) && s1 == (SessionView {
            model: m1,
            history: h1,
            ..s0
        }),
    }
}

/// A model with no elements, relations or diagrams.
pub open spec fn empty_model() -> UmlModelView {
    UmlModelView { elements: Map::empty(), parents: Map::empty(), diagrams: Seq::empty() }
}

/// The session on a freshly written or freshly read project: the model as
/// given, an empty history, the project at `path` open and clean, no active diagram,
/// the new-diagram dialog closed and emptied, no automation target and
/// nothing selected, transient state dropped, and the status as given.
pub open spec fn project_installed(s: SessionView, model: UmlModelView, path: Seq<char>, status: Seq<char>) -> SessionView {
    SessionView {
        status,
        ..normalized(
            SessionView {
                model,
                history: HistoryView { undo: Seq::empty(), redo: Seq::empty(), ..s.history },
                file_path: Some(path),
                dirty: false,
                active_diagram: None,
                dialog_open: false,
                dialog_name: Seq::empty(),
                cursor: None,
                selected: None,
                name_buffer: Seq::empty(),
                ..s
            },
        )
    }
}

/// Whether `id` is already taken for a new element placed on the diagram
/// `d`: the model holds an element with it, or that diagram a node for it.
pub open spec fn element_id_taken(m: UmlModelView, d: DiagramId, id: UmlId) -> bool {
    ||| m.elements.contains_key(id)
    ||| (diagram_index(m.diagrams, d) matches Some(i) && has_key(m.diagrams[i].nodes, id.value))
}

/// The text of a refusal that only a fresh random id already in use
/// causes.
pub open spec fn id_collision(m: Seq<char>) -> bool {
    ||| m == command_error_text(CommandErrorView::InvalidOperation("element ID already exists"@))
    ||| m == command_error_text(CommandErrorView::InvalidOperation("diagram already contains a node for element"@))
    ||| m == command_error_text(CommandErrorView::InvalidOperation("diagram ID already exists"@))
}

/// The session with the diagram at `index` active; a tool that does not
/// suit it gives way to the selection tool, dropping the placement preview,
/// the edge being drawn and the node being dragged; the counter is bumped.
pub open spec fn diagram_made_active(s: SessionView, index: usize) -> SessionView {
    let a = SessionView { active_diagram: Some(index), ..s };
    if tool_available(a, s.tool) {
        SessionView { revision: bumped(s.revision), ..a }
    } else {
        SessionView {
            tool: ToolMode::Select,
            preview: None,
            drag_source: None,
            drag_node: None,
            drag_start: None,
            revision: bumped(s.revision),
            ..a
        }
    }
}

/// The session with the zoom of the active diagram set (bounded as
/// `normalized_zoom` bounds it); the diagram is found by its id. Without an
/// active diagram nothing changes.
pub open spec fn zoomed(s: SessionView, bits: u64) -> SessionView {
    match active_id(s) {
        Some(id) => match diagram_index(s.model.diagrams, id) {
            Some(i) => SessionView {
                model: UmlModelView {
                    diagrams: s.model.diagrams.update(
                        i,
                        DiagramView { zoom_percent: normalized_zoom(bits), ..s.model.diagrams[i] },
                    ),
                    ..s.model
                },
                ..s
            },
            None => s,
        },
        None => s,
    }
}

/// The text of a result.
pub open spec fn result_text(r: Result<(), String>) -> Result<(), Seq<char>> {
    match r {
        Ok(()) => Ok(()),
        Err(m) => Err(m@),
    }
}

/// The ids of the diagrams, in order.
fn ids_of(ds: &[Diagram]) -> (r: Vec<DiagramId>)
    ensures
        r@ == diagram_ids(diagram_views(ds@)),
{
    let mut r: Vec<DiagramId> = Vec::new();
    let mut i: usize = 0;
    while i < ds.len()
        invariant
            i <= ds@.len(),
            r@ == diagram_ids(diagram_views(ds@)).take(i as int),
        decreases ds.len() - i,
    {
        r.push(ds[i].id);
        i = i + 1;
        assert(r@ =~= diagram_ids(diagram_views(ds@)).take(i as int));
    }
    assert(r@ =~= diagram_ids(diagram_views(ds@)));
    r
}

/// Whether the id is among the ids.
fn contains_id(ids: &Vec<DiagramId>, id: DiagramId) -> (b: bool)
    ensures
        b == ids@.contains(id),
{
    let mut i: usize = 0;
    while i < ids.len()
        invariant
            i <= ids@.len(),
            forall|k: int| 0 <= k < i ==> ids@[k] != id,
        decreases ids.len() - i,
    {
        if ids[i] == id {
            assert(ids@[i as int] == id);
            return true;
        }
        i = i + 1;
    }
    false
}

/// The position of the first diagram whose id is not among `before`.
fn first_new_position(before: &Vec<DiagramId>, after: &[Diagram]) -> (r: Option<usize>)
    ensures
        r == first_new_diagram(before@, diagram_views(after@)),
{
    let ghost ds = diagram_views(after@);
    let mut j: usize = 0;
    while j < after.len()
        invariant
            j <= after@.len(),
            ds == diagram_views(after@),
            forall|k: int| 0 <= k < j ==> before@.contains(#[trigger] ds[k].id),
        decreases after.len() - j,
    {
        if !contains_id(before, after[j].id) {
            proof {
                let jj = j as int;
                assert(0 <= jj < ds.len() && !before@.contains(ds[jj].id));
                let w = choose|w: int|
                    0 <= w < ds.len() && !before@.contains(ds[w].id) && forall|k: int|
                        0 <= k < w ==> before@.contains(#[trigger] ds[k].id);
                assert(0 <= w < ds.len() && !before@.contains(ds[w].id) && forall|k: int|
                        0 <= k < w ==> before@.contains(#[trigger] ds[k].id));
                if w < jj {
                    assert(before@.contains(ds[w].id));
                }
                if jj < w {
                    assert(before@.contains(ds[jj].id));
                }
            }
            return Some(j);
        }
        j = j + 1;
    }
    assert(!exists|j: int| 0 <= j < ds.len() && !before@.contains(#[trigger] ds[j].id));
    None
}

/// Where the `n`-th node added from the element browser goes: rows of four,
/// as `(column, row)`.
pub fn node_grid_slot(n: usize) -> (r: (usize, usize))
    ensures
        r == ((n % 4) as usize, (n / 4) as usize),
{
    (n % 4, n / 4)
}

/// A command that cannot fail on the model runs through the session with
/// success.
proof fn lemma_ran_succeeds(s0: SessionView, cmd: UndoCommand, s1: SessionView, r: Result<(), Seq<char>>)
    requires
        session_ran(s0, cmd, s1, r),
        forall|after: UndoCommand, m1: UmlModelView, out: Result<(), CommandErrorView>|
            #[trigger] cmd.executes(after, s0.model, m1, out) ==> out == succeeded(),
    ensures
        r is Ok,
{
    let out = choose|out: Result<(), CommandErrorView>| #[trigger] ran_with(s0, cmd, s1, r, out);
    let after = choose|after: UndoCommand|
        {
            &&& after.inv()
            &&& #[trigger] cmd.executes(after, s0.model, s1.model, out)
            &&& s1.history == if out is Ok {
                crate::undo::history::recorded(s0.history, after)
            } else {
                s0.history
            }
        };
    assert(out == succeeded());
}

/// `command failed: <error>`.
fn failure_message(e: &CommandError) -> (m: String)
    ensures
        m@ == command_failure(e@),
{
    proof {
        reveal_strlit("command failed: ");
    }
    let mut m = owned("command failed: ");
    m.append(e.message().as_str());
    m
}

/// The editing session of the diagram editor.
#[derive(Debug)]
pub struct EditorSession {
    model: UmlModel,
    history: History,
    active_diagram: Option<usize>,
    current_file_path: Option<String>,
    is_dirty: bool,
    current_tool: ToolMode,
    selected_element_id: Option<UmlId>,
    state_revision: u64,
    status_message: String,
    name_edit_buffer: String,
    documentation_edit_buffer: String,
    relationship_draft: Option<(UmlId, RelationshipDraft)>,
    classifier_draft: Option<(UmlId, ClassifierDraft)>,
    new_diagram_open: bool,
    new_diagram_kind: DiagramKind,
    new_diagram_name: String,
    preview_position: Option<Point>,
    drag_source_node_id: Option<UmlId>,
    drag_node_id: Option<UmlId>,
    drag_start_pos: Option<Point>,
    drag_preview_pos: Option<Point>,
    qa_cursor: Option<String>,
}

impl View for EditorSession {
    type V = SessionView;

    closed spec fn view(&self) -> SessionView {
        SessionView {
            model: self.model@,
            history: self.history@,
            active_diagram: self.active_diagram,
            file_path: crate::text::opt_text(self.current_file_path),
            dirty: self.is_dirty,
            tool: self.current_tool,
            selected: self.selected_element_id,
            revision: self.state_revision,
            status: self.status_message@,
            name_buffer: self.name_edit_buffer@,
            documentation_buffer: self.documentation_edit_buffer@,
            relationship_draft: match self.relationship_draft {
                Some((id, d)) => Some((id, d@)),
                None => None,
            },
            classifier_draft: match self.classifier_draft {
                Some((id, d)) => Some((id, d@)),
                None => None,
            },
            dialog_open: self.new_diagram_open,
            dialog_kind: self.new_diagram_kind,
            dialog_name: self.new_diagram_name@,
            preview: self.preview_position,
            drag_source: self.drag_source_node_id,
            drag_node: self.drag_node_id,
            drag_start: self.drag_start_pos,
            drag_preview: self.drag_preview_pos,
            cursor: crate::text::opt_text(self.qa_cursor),
        }
    }
}

impl EditorSession {
    /// The session's invariant: a well-formed model and history.
    pub closed spec fn wf(&self) -> bool {
        self.model.wf() && self.history.wf()
    }

    /// Start a session on a model, with no project, no active diagram, the
    /// selection tool and an empty history of depth 100.
    pub fn new(model: UmlModel, loaded: bool) -> (s: Self)
        requires
            model.wf(),
        ensures
            s.wf(),
            s@.model == model@,
            s@.history == (HistoryView {
                undo: Seq::empty(),
                redo: Seq::empty(),
                max_depth: 100,
                disabled: false,
            }),
            s@.active_diagram is None,
            s@.file_path is None,
            !s@.dirty,
            s@.tool == ToolMode::Select,
            s@.selected is None,
            s@.revision == 0,
            s@.name_buffer.len() == 0,
            s@.documentation_buffer.len() == 0,
            s@.relationship_draft is None,
            s@.classifier_draft is None,
            !s@.dialog_open,
            s@.dialog_kind == DiagramKind::Class,
            s@.dialog_name.len() == 0,
            s@.preview is None && s@.drag_source is None,
            s@.drag_node is None && s@.drag_start is None && s@.drag_preview is None,
            s@.cursor is None,
            s@.status == if loaded {
                "Loaded model with "@ + decimal(model@.elements.len()) + " elements"@
            } else {
                "Empty model — no XMI file loaded"@
            },
    {
        let status = if loaded {
            let n = model.len();
            let mut m = owned("Loaded model with ");
            m.append(decimal_text(n as u64).as_str());
            m.append(" elements");
            m
        } else {
            owned("Empty model — no XMI file loaded")
        };
        EditorSession {
            model,
            history: History::new(100),
            active_diagram: None,
            current_file_path: None,
            is_dirty: false,
            current_tool: ToolMode::Select,
            selected_element_id: None,
            state_revision: 0,
            status_message: status,
            name_edit_buffer: String::new(),
            documentation_edit_buffer: String::new(),
            relationship_draft: None,
            classifier_draft: None,
            new_diagram_open: false,
            new_diagram_kind: DiagramKind::Class,
            new_diagram_name: String::new(),
            preview_position: None,
            drag_source_node_id: None,
            drag_node_id: None,
            drag_start_pos: None,
            drag_preview_pos: None,
            qa_cursor: None,
        }
    }

    /// The ids of the model's elements, in storage order.
    pub closed spec fn element_order(&self) -> Seq<UmlId> {
        self.model.element_ids()
    }

    /// The model.
    pub fn model(&self) -> (m: &UmlModel)
        ensures
            m@ == self@.model,
            m.element_ids() == self.element_order(),
            self.wf() ==> m.wf(),
    {
        &self.model
    }

    /// The undo history.
    pub fn history(&self) -> (h: &History)
        ensures
            h@ == self@.history,
            self.wf() ==> h.wf(),
    {
        &self.history
    }

    /// The position of the active diagram.
    pub fn active_diagram(&self) -> (r: Option<usize>)
        ensures
            r == self@.active_diagram,
    {
        self.active_diagram
    }

    /// Whether a project is open.
    pub fn is_project_open(&self) -> (b: bool)
        ensures
            b == self@.project_open(),
    {
        self.current_file_path.is_some()
    }

    /// Whether the model has unsaved changes.
    pub fn is_dirty(&self) -> (b: bool)
        ensures
            b == self@.dirty,
    {
        self.is_dirty
    }

    /// The current tool.
    pub fn current_tool(&self) -> (t: ToolMode)
        ensures
            t == self@.tool,
    {
        self.current_tool
    }

    /// The selected element.
    pub fn selected_element_id(&self) -> (r: Option<UmlId>)
        ensures
            r == self@.selected,
    {
        self.selected_element_id
    }

    /// The change counter.
    pub fn state_revision(&self) -> (r: u64)
        ensures
            r == self@.revision,
    {
        self.state_revision
    }

    /// The status line.
    pub fn status_message(&self) -> (s: &str)
        ensures
            s@ == self@.status,
    {
        self.status_message.as_str()
    }

    /// The path of the open project, if any.
    pub fn current_file_path(&self) -> (r: Option<&str>)
        ensures
            match r {
                Some(p) => self@.file_path == Some(p@),
                None => self@.file_path is None,
            },
    {
        match &self.current_file_path {
            Some(p) => Some(p.as_str()),
            None => None,
        }
    }

    /// Record the path of the open project (after opening, creating or
    /// saving one under a new name), or that none is open.
    pub fn set_current_file_path(&mut self, path: Option<&str>)
        ensures
            final(self)@ == (SessionView {
                file_path: match path {
                    Some(p) => Some(p@),
                    None => None,
                },
                ..old(self)@
            }),
            old(self).wf() ==> final(self).wf(),
    {
        self.current_file_path = match path {
            Some(p) => Some(owned(p)),
            None => None,
        };
    }

    /// Set the active diagram position directly.
    pub fn set_active_diagram(&mut self, index: Option<usize>)
        ensures
            final(self)@ == (SessionView { active_diagram: index, ..old(self)@ }),
            old(self).wf() ==> final(self).wf(),
    {
        self.active_diagram = index;
    }

    /// Record whether the model has unsaved changes (cleared after a save).
    pub fn set_dirty(&mut self, dirty: bool)
        ensures
            final(self)@ == (SessionView { dirty, ..old(self)@ }),
            old(self).wf() ==> final(self).wf(),
    {
        self.is_dirty = dirty;
    }

    /// Set the current tool directly (the canvas returns to `Select` after a
    /// placement).
    pub fn set_current_tool(&mut self, tool: ToolMode)
        ensures
            final(self)@ == (SessionView { tool, ..old(self)@ }),
            old(self).wf() ==> final(self).wf(),
    {
        self.current_tool = tool;
    }

    /// Set the status line.
    pub fn set_status(&mut self, text: &str)
        ensures
            final(self)@ == (SessionView { status: text@, ..old(self)@ }),
            old(self).wf() ==> final(self).wf(),
    {
        self.status_message = owned(text);
    }

    /// The kind of the active diagram.
    pub fn active_diagram_kind(&self) -> (r: Option<DiagramKind>)
        requires
            self.wf(),
        ensures
            r == active_kind(self@),
    {
        match self.active_diagram {
            Some(i) => {
                let ds = self.model.diagrams();
                if i < ds.len() {
                    Some(ds[i].kind)
                } else {
                    None
                }
            },
            None => None,
        }
    }

    /// Whether a tool may be chosen now.
    pub fn is_tool_available(&self, tool: ToolMode) -> (b: bool)
        requires
            self.wf(),
        ensures
            b == tool_available(self@, tool),
    {
        if tool != ToolMode::Select && !self.current_file_path.is_some() {
            return false;
        }
        match self.active_diagram_kind() {
            Some(kind) => tool.is_compatible_with_diagram(kind),
            None => false,
        }
    }

    /// Why a tool may not be chosen now.
    pub fn tool_unavailable_reason(&self, tool: ToolMode) -> (s: &'static str)
        requires
            self.wf(),
        ensures
            s@ == unavailable_reason(self@, tool),
    {
        if tool != ToolMode::Select && !self.current_file_path.is_some() {
            return "Create or open an XMI project before authoring elements";
        }
        match self.active_diagram_kind() {
            Some(kind) => if !tool.is_compatible_with_diagram(kind) {
                "This tool is not supported by the active diagram kind"
            } else {
                "Tool unavailable"
            },
            None => "Select or create a supported diagram first",
        }
    }

    /// Choose a tool. An unavailable tool is refused with its reason, which
    /// also becomes the status line.
    pub fn choose_tool(&mut self, tool: ToolMode) -> (r: Result<(), String>)
        requires
            old(self).wf(),
        ensures
            final(self).wf(),
            tool_available(old(self)@, tool) ==> r is Ok && final(self)@ == (SessionView {
                tool,
                revision: bumped(old(self)@.revision),
                preview: None,
                drag_source: None,
                ..old(self)@
            }),
            !tool_available(old(self)@, tool) ==> r is Err && r->Err_0@ == unavailable_reason(
                old(self)@,
                tool,
            ) && final(self)@ == (SessionView {
                status: unavailable_reason(old(self)@, tool),
                ..old(self)@
            }),
    {
        if !self.is_tool_available(tool) {
            let reason = self.tool_unavailable_reason(tool);
            self.status_message = owned(reason);
            return Err(owned(reason));
        }
        self.current_tool = tool;
        self.preview_position = None;
        self.drag_source_node_id = None;
        self.state_revision = self.state_revision.saturating_add(1);
        Ok(())
    }

    /// Make the diagram at `index` active. A missing diagram only sets the
    /// status line; a tool that does not suit the new diagram falls back to
    /// `Select`.
    pub fn activate_diagram_index(&mut self, index: usize)
        requires
            old(self).wf(),
        ensures
            final(self).wf(),
            index >= old(self)@.model.diagrams.len() ==> final(self)@ == (SessionView {
                status: "Diagram is unavailable"@,
                ..old(self)@
            }),
            index < old(self)@.model.diagrams.len() ==> final(self)@ == diagram_made_active(old(self)@, index),
    {
        if index >= self.model.diagrams().len() {
            self.status_message = owned("Diagram is unavailable");
            return;
        }
        self.active_diagram = Some(index);
        if !self.is_tool_available(self.current_tool) {
            self.current_tool = ToolMode::Select;
            self.preview_position = None;
            self.drag_source_node_id = None;
            self.drag_node_id = None;
            self.drag_start_pos = None;
        }
        self.state_revision = self.state_revision.saturating_add(1);
    }

    /// Forget the selection.
    pub fn clear_selection(&mut self)
        ensures
            final(self)@ == cleared_selection(old(self)@),
            old(self).wf() ==> final(self).wf(),
    {
        self.selected_element_id = None;
        self.name_edit_buffer = String::new();
        self.documentation_edit_buffer = String::new();
        self.relationship_draft = None;
        self.classifier_draft = None;
    }

    /// Show the selected element in the inspector as it is in the model: its
    /// name, documentation and a draft of its features or of the
    /// relationship. A stale selection is cleared.
    pub fn refresh_property_buffers(&mut self)
        requires
            old(self).wf(),
        ensures
            final(self).wf(),
            final(self)@ == refreshed(old(self)@),
    {
        let id = match self.selected_element_id {
            Some(id) => id,
            None => {
                self.clear_selection();
                return;
            },
        };
        let element = match self.model.get(id) {
            Some(e) => e,
            None => {
                self.clear_selection();
                return;
            },
        };
        let name = owned(element.name());
        let documentation = element.base().documentation.clone();
        let classifier_draft = match element.classifier_data() {
            Some(c) => Some((id, ClassifierDraft::of(&self.model, c))),
            None => None,
        };
        let relationship_draft = match element {
            ModelElement::Relationship(r) => Some((id, RelationshipDraft::of(r))),
            _ => None,
        };
        self.name_edit_buffer = name;
        self.documentation_edit_buffer = documentation;
        self.classifier_draft = classifier_draft;
        self.relationship_draft = relationship_draft;
    }

    /// Select an element of the model; an unknown element is refused.
    pub fn select_element(&mut self, id: UmlId) -> (r: Result<(), String>)
        requires
            old(self).wf(),
        ensures
            final(self).wf(),
            old(self)@.model.elements.contains_key(id) ==> r is Ok && final(self)@ == (SessionView {
                revision: bumped(old(self)@.revision),
                ..refreshed(SessionView { selected: Some(id), ..old(self)@ })
            }),
            !old(self)@.model.elements.contains_key(id) ==> r is Err && r->Err_0@
                == "target is unavailable or stale: node:"@ + uuid_text_spec(id.value) && final(self)@
                == old(self)@,
    {
        if !self.model.contains(id) {
            let mut m = owned("target is unavailable or stale: node:");
            m.append(id.to_text().as_str());
            return Err(m);
        }
        self.selected_element_id = Some(id);
        self.refresh_property_buffers();
        self.state_revision = self.state_revision.saturating_add(1);
        Ok(())
    }

    /// Drop what no longer fits the model: an active position past the last
    /// diagram and a selection of a missing element (with the inspector's
    /// contents); without a selection the documentation field and the drafts
    /// are emptied; the tool returns to `Select`.
    pub fn normalize_transient_state(&mut self)
        requires
            old(self).wf(),
        ensures
            final(self).wf(),
            final(self)@ == normalized(old(self)@),
    {
        match self.active_diagram {
            Some(i) => {
                if i >= self.model.diagrams().len() {
                    self.active_diagram = None;
                }
            },
            None => {},
        }
        match self.selected_element_id {
            Some(id) => {
                if !self.model.contains(id) {
                    self.clear_selection();
                }
            },
            None => {},
        }
        if self.selected_element_id.is_none() {
            self.documentation_edit_buffer = String::new();
            self.relationship_draft = None;
            self.classifier_draft = None;
        }
        self.current_tool = ToolMode::Select;
        self.preview_position = None;
        self.drag_source_node_id = None;
        self.drag_node_id = None;
        self.drag_start_pos = None;
        self.drag_preview_pos = None;
    }

    /// Run a command through the history. On success the model is marked
    /// dirty and the counter bumped; a failure is reported as
    /// `command failed: <error>` and leaves the session as it was (the
    /// history as its own contract says).
    pub fn execute_command_result(&mut self, cmd: UndoCommand) -> (r: Result<(), String>)
        requires
            old(self).wf(),
            cmd.inv(),
        ensures
            final(self).wf(),
            session_ran(old(self)@, cmd, final(self)@, result_text(r)),
    {
        let res = self.history.execute(cmd, &mut self.model);
        let ghost out = outcome(res);
        let ghost h1 = self@.history;
        let ghost m1 = self@.model;
        let r = match res {
            Ok(()) => {
                self.is_dirty = true;
                self.state_revision = self.state_revision.saturating_add(1);
                Ok(())
            },
            Err(e) => {
                Err(failure_message(&e))
            },
        };
        assert(history_executes(old(self)@.history, cmd, old(self)@.model, h1, m1, out));
        assert(match out {
            Ok(()) => r is Ok && self@ == changed(old(self)@, self@.model, self@.history),
            Err(e) => r is Err && r->Err_0@ == command_failure(e) && self@ == (SessionView {
                model: self@.model,
                history: self@.history,
                ..old(self)@
            }),
        });
        assert(ran_with(old(self)@, cmd, self@, result_text(r), out));
        r
    }

    /// A new element for a node tool, named `<type>_<n>` with the first free
    /// number among the model's element names.
    pub fn create_element_for_tool(&self, tool: ToolMode) -> (e: ModelElement)
        requires
            self.wf(),
            creates_node(tool),
            self@.model.elements.len() < usize::MAX,
        ensures
            e@ == tool_element(
                tool,
                e@.id(),
                unique_name(element_names(self@.model), tool_base_name(tool)),
            ),
    {
        proof {
            reveal_strlit("Class");
            reveal_strlit("Interface");
            reveal_strlit("Enum");
            reveal_strlit("Datatype");
            reveal_strlit("Package");
            reveal_strlit("Actor");
            reveal_strlit("UseCase");
            reveal_strlit("Component");
            reveal_strlit("Node");
            reveal_strlit("Artifact");
        }
        match tool {
            ToolMode::CreateClass => {
                let name = generate_unique_name(&self.model, "Class");
                ModelElement::Class(Class::new(name.as_str()))
            },
            ToolMode::CreateInterface => {
                let name = generate_unique_name(&self.model, "Interface");
                ModelElement::Interface(Interface::new(name.as_str()))
            },
            ToolMode::CreateEnum => {
                let name = generate_unique_name(&self.model, "Enum");
                ModelElement::Enum(Enum::new(name.as_str()))
            },
            ToolMode::CreateDatatype => {
                let name = generate_unique_name(&self.model, "Datatype");
                ModelElement::Datatype(Datatype::new(name.as_str()))
            },
            ToolMode::CreatePackage => {
                let name = generate_unique_name(&self.model, "Package");
                ModelElement::Package(Package::new(name.as_str()))
            },
            ToolMode::CreateActor => {
                let name = generate_unique_name(&self.model, "Actor");
                ModelElement::Actor(Actor::new(name.as_str()))
            },
            ToolMode::CreateUseCase => {
                let name = generate_unique_name(&self.model, "UseCase");
                ModelElement::UseCase(UseCase::new(name.as_str()))
            },
            ToolMode::CreateComponent => {
                let name = generate_unique_name(&self.model, "Component");
                ModelElement::Component(Component::new(name.as_str()))
            },
            ToolMode::CreateNode => {
                let name = generate_unique_name(&self.model, "Node");
                ModelElement::Node(Node::new(name.as_str()))
            },
            _ => {
                let name = generate_unique_name(&self.model, "Artifact");
                ModelElement::Artifact(Artifact::new(name.as_str()))
            },
        }
    }

    /// The checks shared by placing elements and drawing edges: the active
    /// diagram, an open project and a tool that suits the diagram; the active
    /// diagram's id when they pass.
    fn authoring_target(&self, tool: ToolMode) -> (r: Result<DiagramId, String>)
        requires
            self.wf(),
        ensures
            match r {
                Ok(id) => {
                    &&& self@.active_diagram is Some
                    &&& self@.active_diagram->0 < self@.model.diagrams.len()
                    &&& self@.project_open()
                    &&& tool_fits(tool, self@.model.diagrams[self@.active_diagram->0 as int].kind)
                    &&& id == self@.model.diagrams[self@.active_diagram->0 as int].id
                },
                Err(m) => !(self@.active_diagram is Some && self@.active_diagram->0 < self@.model.diagrams.len()
                    && self@.project_open() && tool_fits(tool, self@.model.diagrams[self@.active_diagram->0 as int].kind))
                    && m@ == if self@.active_diagram is None {
                    "No active diagram"@
                } else if self@.active_diagram->0 >= self@.model.diagrams.len() {
                    "Active diagram is unavailable"@
                } else if !self@.project_open() {
                    "Create or open an XMI project first"@
                } else {
                    incompatible_text(tool, self@.model.diagrams[self@.active_diagram->0 as int].kind)
                },
            },
    {
        proof {
            reveal_strlit("No active diagram");
            reveal_strlit("Active diagram is unavailable");
            reveal_strlit("Create or open an XMI project first");
            reveal_strlit(" is not compatible with ");
            reveal_strlit(" diagrams");
        }
        let index = match self.active_diagram {
            Some(i) => i,
            None => return Err(owned("No active diagram")),
        };
        if index >= self.model.diagrams().len() {
            return Err(owned("Active diagram is unavailable"));
        }
        if !self.current_file_path.is_some() {
            return Err(owned("Create or open an XMI project first"));
        }
        let kind = self.model.diagrams()[index].kind;
        if !tool.is_compatible_with_diagram(kind) {
            let mut m = owned(tool.label());
            m.append(" is not compatible with ");
            m.append(kind.as_str());
            m.append(" diagrams");
            return Err(m);
        }
        Ok(self.model.diagrams()[index].id)
    }

    /// Place a new element of the tool's type on the active diagram at
    /// `position`, as one undoable step that creates the element and its node.
    ///
    /// Refused (with nothing changed) for a tool that creates no node,
    /// without an active diagram or open project, or when the tool does not
    /// suit the active diagram. The new element is named as
    /// `create_element_for_tool` names it and its node has the default size.
    /// Creation can still be refused when the fresh random id happens to be in
    /// use; nothing changes then.
    #[verifier::rlimit(30)]
    pub fn place_element(&mut self, tool: ToolMode, position: Point) -> (r: Result<(), String>)
        requires
            old(self).wf(),
            old(self)@.model.elements.len() < usize::MAX,
        ensures
            final(self).wf(),
            match placement_refusal(old(self)@, tool) {
                Some(msg) => r is Err && r->Err_0@ == msg && final(self)@ == old(self)@,
                None => (r is Err && final(self)@ == old(self)@ && id_collision(r->Err_0@) && exists|id: UmlId|
                    #[trigger] element_id_taken(
                        old(self)@.model,
                        old(self)@.model.diagrams[old(self)@.active_diagram->0 as int].id,
                        id,
                    )) || exists|
                    c: CreateElementWithNode,
                |
                    {
                        &&& r is Ok
                        &&& c.inv()
                        &&& c.held() is Some
                        &&& c.held()->0 == tool_element(
                            tool,
                            c.target(),
                            unique_name(element_names(old(self)@.model), tool_base_name(tool)),
                        )
                        &&& c.diagram() == old(self)@.model.diagrams[old(self)@.active_diagram->0 as int].id
                        &&& c.node() == placed_node(c.target(), position, default_node_size())
                        &&& #[trigger] session_ran(
                            old(self)@,
                            UndoCommand::CreateElementWithNode(c),
                            final(self)@,
                            result_text(r),
                        )
                    },
            },
    {
        proof {
            reveal_strlit("Current tool does not create a node");
        }
        if !tool.is_creation_tool() {
            return Err(owned("Current tool does not create a node"));
        }
        let diagram_id = match self.authoring_target(tool) {
            Ok(id) => id,
            Err(m) => return Err(m),
        };
        let elem = self.create_element_for_tool(tool);
        let size = Size::new(NODE_WIDTH_BITS, NODE_HEIGHT_BITS);
        let command = match CreateElementWithNode::new(&self.model, diagram_id, elem, position, size) {
            Ok(c) => c,
            Err(e) => {
                assert(element_id_taken(self@.model, diagram_id, elem@.id()));
                return Err(e.message());
            },
        };
        let ghost c = command;
        let ghost m0 = self@.model;
        let r = self.execute_command_result(UndoCommand::CreateElementWithNode(command));
        assert(session_ran(old(self)@, UndoCommand::CreateElementWithNode(c), self@, result_text(r)));
        proof {
            assert forall|after: UndoCommand, m1: UmlModelView, out: Result<(), CommandErrorView>|
                #[trigger] UndoCommand::CreateElementWithNode(c).executes(after, m0, m1, out) implies out
                == succeeded() by {
                match after {
                    UndoCommand::CreateElementWithNode(d) => {
                        assert(c.executes(d, m0, m1, out));
                    },
                    _ => {},
                }
            }
            lemma_ran_succeeds(old(self)@, UndoCommand::CreateElementWithNode(c), self@, result_text(r));
        }
        r
    }

    /// Draw a new relationship of the current edge tool's kind from the
    /// source node to the target node on the active diagram, as one undoable
    /// step that creates the relationship and its edge.
    ///
    /// Refused (with nothing changed) when the current tool draws no edges,
    /// without an active diagram or open project, or when the tool does not
    /// suit the active diagram.
    pub fn place_edge(&mut self, source_node_id: UmlId, target_node_id: UmlId) -> (r: Result<(), String>)
        requires
            old(self).wf(),
        ensures
            final(self).wf(),
            match edge_refusal(old(self)@) {
                Some(msg) => r is Err && r->Err_0@ == msg && final(self)@ == old(self)@,
                None => exists|c: CreateEdge|
                    {
                        &&& c.inv()
                        &&& r is Ok
                        &&& c.held() == Some(
                            ModelElementView::Relationship(
                                fresh_relationship(
                                    c.relationship(),
                                    edge_kind(old(self)@.tool)->0,
                                    source_node_id,
                                    target_node_id,
                                ),
                            ),
                        )
                        &&& c.diagram() == old(self)@.model.diagrams[old(self)@.active_diagram->0 as int].id
                        &&& c.drawn_edge() == direct_edge(c.relationship(), source_node_id, target_node_id)
                        &&& #[trigger] session_ran(
                            old(self)@,
                            UndoCommand::CreateEdge(c),
                            final(self)@,
                            result_text(r),
                        )
                    },
            },
    {
        proof {
            reveal_strlit("Current tool is not an edge tool");
        }
        let kind = match self.current_tool.association_type() {
            Some(k) => k,
            None => return Err(owned("Current tool is not an edge tool")),
        };
        let diagram_id = match self.authoring_target(self.current_tool) {
            Ok(id) => id,
            Err(m) => return Err(m),
        };
        let command = CreateEdge::new(diagram_id, source_node_id, target_node_id, kind);
        let ghost c = command;
        let ghost m0 = self@.model;
        let ghost act = self@.active_diagram->0 as int;
        assert(m0.diagrams[act].id == diagram_id);
        let r = self.execute_command_result(UndoCommand::CreateEdge(command));
        proof {
            assert forall|after: UndoCommand, m1: UmlModelView, out: Result<(), CommandErrorView>|
                #[trigger] UndoCommand::CreateEdge(c).executes(after, m0, m1, out) implies out == succeeded() by {
                match after {
                    UndoCommand::CreateEdge(d) => {
                        assert(c.executes(d, m0, m1, out));
                    },
                    _ => {},
                }
            }
            lemma_ran_succeeds(old(self)@, UndoCommand::CreateEdge(c), self@, result_text(r));
        }
        assert(session_ran(old(self)@, UndoCommand::CreateEdge(c), self@, result_text(r)));
        r
    }

    /// Rename an element through the history. The name is trimmed first; an
    /// empty name is refused.
    pub fn rename_element(&mut self, id: UmlId, value: &str) -> (r: Result<(), String>)
        requires
            old(self).wf(),
        ensures
            final(self).wf(),
            trimmed(value@).len() == 0 ==> r is Err && r->Err_0@ == "invalid value: name cannot be empty"@
                && final(self)@ == old(self)@,
            trimmed(value@).len() != 0 && !old(self)@.model.elements.contains_key(id) ==> r is Err
                && r->Err_0@ == command_failure(CommandErrorView::ElementNotFound(id)) && final(self)@ == old(self)@,
            trimmed(value@).len() != 0 && old(self)@.model.elements.contains_key(id) ==> exists|
                c: RenameElement,
                mid: SessionView,
            |
                {
                    &&& c.inv()
                    &&& r is Ok
                    &&& c.target() == id
                    &&& c.previous() == old(self)@.model.elements[id].name()
                    &&& c.replacement() == trimmed(value@)
                    &&& #[trigger] session_ran(old(self)@, UndoCommand::RenameElement(c), mid, result_text(r))
                    &&& final(self)@ == if r is Ok && old(self)@.selected == Some(id) {
                        SessionView { name_buffer: trimmed(value@), ..mid }
                    } else {
                        mid
                    }
                },
    {
        proof {
            reveal_strlit("invalid value: name cannot be empty");
            reveal_strlit("command failed: ");
        }
        let canonical = trim(value);
        if is_empty_text(&canonical) {
            return Err(owned("invalid value: name cannot be empty"));
        }
        let cmd = match RenameElement::new(&self.model, id, trim(value)) {
            Ok(c) => c,
            Err(e) => return Err(failure_message(&e)),
        };
        let ghost c = cmd;
        let ghost m0 = self@.model;
        let r = self.execute_command_result(UndoCommand::RenameElement(cmd));
        proof {
            assert forall|after: UndoCommand, m1: UmlModelView, out: Result<(), CommandErrorView>|
                #[trigger] UndoCommand::RenameElement(c).executes(after, m0, m1, out) implies out == succeeded() by {
                match after {
                    UndoCommand::RenameElement(d) => {
                        assert(c.executes(d, m0, m1, out));
                    },
                    _ => {},
                }
            }
            lemma_ran_succeeds(old(self)@, UndoCommand::RenameElement(c), self@, result_text(r));
        }
        let ghost mid = self@;
        assert(session_ran(old(self)@, UndoCommand::RenameElement(c), mid, result_text(r)));
        if r.is_ok() && self.selected_element_id == Some(id) {
            self.name_edit_buffer = canonical;
        }
        r
    }

    /// Replace an element's documentation through the history.
    pub fn set_documentation(&mut self, id: UmlId, value: &str) -> (r: Result<(), String>)
        requires
            old(self).wf(),
        ensures
            final(self).wf(),
            !old(self)@.model.elements.contains_key(id) ==> r is Err && r->Err_0@ == command_failure(
                CommandErrorView::ElementNotFound(id),
            ) && final(self)@ == old(self)@,
            old(self)@.model.elements.contains_key(id) ==> exists|c: ChangeDocumentation|
                {
                    &&& c.inv()
                    &&& r is Ok
                    &&& c.target() == id
                    &&& c.previous() == old(self)@.model.elements[id].base().documentation
                    &&& c.replacement() == value@
                    &&& #[trigger] session_ran(old(self)@, UndoCommand::ChangeDocumentation(c), final(self)@, result_text(r))
                },
    {
        let cmd = match ChangeDocumentation::new(&self.model, id, owned(value)) {
            Ok(c) => c,
            Err(e) => return Err(failure_message(&e)),
        };
        let ghost c = cmd;
        let ghost m0 = self@.model;
        let r = self.execute_command_result(UndoCommand::ChangeDocumentation(cmd));
        proof {
            assert forall|after: UndoCommand, m1: UmlModelView, out: Result<(), CommandErrorView>|
                #[trigger] UndoCommand::ChangeDocumentation(c).executes(after, m0, m1, out) implies out == succeeded() by {
                match after {
                    UndoCommand::ChangeDocumentation(d) => {
                        assert(c.executes(d, m0, m1, out));
                    },
                    _ => {},
                }
            }
            lemma_ran_succeeds(old(self)@, UndoCommand::ChangeDocumentation(c), self@, result_text(r));
        }
        assert(session_ran(old(self)@, UndoCommand::ChangeDocumentation(c), self@, result_text(r)));
        r
    }

    /// Change an element's visibility through the history.
    pub fn set_visibility(&mut self, id: UmlId, value: Visibility) -> (r: Result<(), String>)
        requires
            old(self).wf(),
        ensures
            final(self).wf(),
            !old(self)@.model.elements.contains_key(id) ==> r is Err && r->Err_0@ == command_failure(
                CommandErrorView::ElementNotFound(id),
            ) && final(self)@ == old(self)@,
            old(self)@.model.elements.contains_key(id) ==> exists|c: ChangeVisibility|
                {
                    &&& c.inv()
                    &&& r is Ok
                    &&& c.target() == id
                    &&& c.previous() == old(self)@.model.elements[id].base().visibility
                    &&& c.replacement() == value
                    &&& #[trigger] session_ran(old(self)@, UndoCommand::ChangeVisibility(c), final(self)@, result_text(r))
                },
    {
        let cmd = match ChangeVisibility::new(&self.model, id, value) {
            Ok(c) => c,
            Err(e) => return Err(failure_message(&e)),
        };
        let ghost c = cmd;
        let ghost m0 = self@.model;
        let r = self.execute_command_result(UndoCommand::ChangeVisibility(cmd));
        proof {
            assert forall|after: UndoCommand, m1: UmlModelView, out: Result<(), CommandErrorView>|
                #[trigger] UndoCommand::ChangeVisibility(c).executes(after, m0, m1, out) implies out == succeeded() by {
                match after {
                    UndoCommand::ChangeVisibility(d) => {
                        assert(c.executes(d, m0, m1, out));
                    },
                    _ => {},
                }
            }
            lemma_ran_succeeds(old(self)@, UndoCommand::ChangeVisibility(c), self@, result_text(r));
        }
        assert(session_ran(old(self)@, UndoCommand::ChangeVisibility(c), self@, result_text(r)));
        r
    }

    /// Change an element's abstract and static flags through the history.
    pub fn set_flags(&mut self, id: UmlId, is_abstract: bool, is_static: bool) -> (r: Result<(), String>)
        requires
            old(self).wf(),
        ensures
            final(self).wf(),
            !old(self)@.model.elements.contains_key(id) ==> r is Err && r->Err_0@ == command_failure(
                CommandErrorView::ElementNotFound(id),
            ) && final(self)@ == old(self)@,
            old(self)@.model.elements.contains_key(id) ==> exists|c: ChangeElementFlags|
                {
                    &&& c.inv()
                    &&& r is Ok
                    &&& c.target() == id
                    &&& c.previous() == (
                        old(self)@.model.elements[id].base().is_abstract,
                        old(self)@.model.elements[id].base().is_static,
                    )
                    &&& c.replacement() == (is_abstract, is_static)
                    &&& #[trigger] session_ran(old(self)@, UndoCommand::ChangeElementFlags(c), final(self)@, result_text(r))
                },
    {
        let cmd = match ChangeElementFlags::new(&self.model, id, is_abstract, is_static) {
            Ok(c) => c,
            Err(e) => return Err(failure_message(&e)),
        };
        let ghost c = cmd;
        let ghost m0 = self@.model;
        let r = self.execute_command_result(UndoCommand::ChangeElementFlags(cmd));
        proof {
            assert forall|after: UndoCommand, m1: UmlModelView, out: Result<(), CommandErrorView>|
                #[trigger] UndoCommand::ChangeElementFlags(c).executes(after, m0, m1, out) implies out == succeeded() by {
                match after {
                    UndoCommand::ChangeElementFlags(d) => {
                        assert(c.executes(d, m0, m1, out));
                    },
                    _ => {},
                }
            }
            lemma_ran_succeeds(old(self)@, UndoCommand::ChangeElementFlags(c), self@, result_text(r));
        }
        assert(session_ran(old(self)@, UndoCommand::ChangeElementFlags(c), self@, result_text(r)));
        r
    }

    /// Move a node of a diagram to `position` through the history;
    /// `position_text` is how the position reads in the step's description.
    pub fn move_node_to(
        &mut self,
        diagram: DiagramId,
        node: UmlId,
        position: Point,
        position_text: &str,
    ) -> (r: Result<(), String>)
        requires
            old(self).wf(),
        ensures
            final(self).wf(),
            diagram_index(old(self)@.model.diagrams, diagram) is None ==> r is Err && r->Err_0@
                == command_failure(CommandErrorView::InvalidOperation("diagram not found"@)) && final(self)@
                == old(self)@,
            diagram_index(old(self)@.model.diagrams, diagram) is Some && !has_key(
                old(self)@.model.diagrams[diagram_index(old(self)@.model.diagrams, diagram)->0].nodes,
                node.value,
            ) ==> r is Err && r->Err_0@ == command_failure(CommandErrorView::ElementNotFound(node))
                && final(self)@ == old(self)@,
            diagram_index(old(self)@.model.diagrams, diagram) is Some && has_key(
                old(self)@.model.diagrams[diagram_index(old(self)@.model.diagrams, diagram)->0].nodes,
                node.value,
            ) ==> exists|c: MoveNode|
                {
                    &&& c.inv()
                    &&& r is Ok
                    &&& c.target() == node
                    &&& c.diagram() == diagram
                    &&& c.destination() == position
                    &&& c.previous() is None
                    &&& #[trigger] session_ran(old(self)@, UndoCommand::MoveNode(c), final(self)@, result_text(r))
                },
    {
        let cmd = match MoveNode::new(&self.model, diagram, node, position, position_text) {
            Ok(c) => c,
            Err(e) => return Err(failure_message(&e)),
        };
        let ghost c = cmd;
        let ghost m0 = self@.model;
        let r = self.execute_command_result(UndoCommand::MoveNode(cmd));
        proof {
            assert forall|after: UndoCommand, m1: UmlModelView, out: Result<(), CommandErrorView>|
                #[trigger] UndoCommand::MoveNode(c).executes(after, m0, m1, out) implies out == succeeded() by {
                match after {
                    UndoCommand::MoveNode(d) => {
                        assert(c.executes(d, m0, m1, out));
                    },
                    _ => {},
                }
            }
            lemma_ran_succeeds(old(self)@, UndoCommand::MoveNode(c), self@, result_text(r));
        }
        assert(session_ran(old(self)@, UndoCommand::MoveNode(c), self@, result_text(r)));
        r
    }

    /// Whether an element can be put on the active diagram, with the reason
    /// when it cannot (as the element browser shows it).
    pub fn add_to_diagram_state(&self, id: UmlId) -> (r: Result<(), &'static str>)
        requires
            self.wf(),
        ensures
            match add_state_refusal(self@, id) {
                Some(m) => r is Err && r->Err_0@ == m,
                None => r is Ok,
            },
    {
        if !self.current_file_path.is_some() {
            return Err("Create or open an XMI project first");
        }
        let index = match self.active_diagram {
            Some(i) => i,
            None => return Err("Select an active diagram first"),
        };
        let diagram = match self.model.diagram_at(index) {
            Some(d) => d,
            None => return Err("Active diagram is unavailable"),
        };
        let element = match self.model.get(id) {
            Some(e) => e,
            None => return Err("Element is unavailable"),
        };
        if matches!(element, ModelElement::Relationship(_)) {
            return Err("Relationships cannot be added as nodes");
        }
        if !element_is_compatible_with_diagram(element, diagram.kind) {
            return Err("Element is incompatible with the active diagram");
        }
        if diagram.get_node(id).is_some() {
            return Err("Element is already on the active diagram");
        }
        Ok(())
    }

    /// The number of nodes on the active diagram, if there is one.
    pub fn active_node_count(&self) -> (r: Option<usize>)
        requires
            self.wf(),
        ensures
            r == match self@.active_diagram {
                Some(i) => if i < self@.model.diagrams.len() {
                    Some(self@.model.diagrams[i as int].nodes.len() as usize)
                } else {
                    None
                },
                None => None,
            },
    {
        match self.active_diagram {
            Some(i) => match self.model.diagram_at(i) {
                Some(d) => Some(d.node_count()),
                None => None,
            },
            None => None,
        }
    }

    /// Put an element of the model on the active diagram at `position`, as
    /// one undoable step, with a node of the default size.
    ///
    /// Refused (with nothing changed) without an open project or an active
    /// diagram, for a missing element, a relationship, an element the
    /// diagram kind does not show, or one already on the diagram.
    pub fn add_element_to_active_diagram(&mut self, id: UmlId, position: Point) -> (r: Result<(), String>)
        requires
            old(self).wf(),
        ensures
            final(self).wf(),
            match add_refusal(old(self)@, id) {
                Some(m) => r is Err && r->Err_0@ == m && final(self)@ == old(self)@,
                None => exists|c: AddNodeToDiagram|
                    {
                        &&& c.inv()
                        &&& r is Ok
                        &&& c.target() == id
                        &&& c.diagram() == old(self)@.model.diagrams[old(self)@.active_diagram->0 as int].id
                        &&& c.node() == placed_node(id, position, default_node_size())
                        &&& #[trigger] session_ran(
                            old(self)@,
                            UndoCommand::AddNodeToDiagram(c),
                            final(self)@,
                            result_text(r),
                        )
                    },
            },
    {
        proof {
            reveal_strlit("Element ");
            reveal_strlit(" is unavailable");
            reveal_strlit(" is not compatible with ");
            reveal_strlit(" diagrams");
        }
        if !self.current_file_path.is_some() {
            return Err(owned("Create or open an XMI project first"));
        }
        let index = match self.active_diagram {
            Some(i) => i,
            None => return Err(owned("No active diagram")),
        };
        let diagram = match self.model.diagram_at(index) {
            Some(d) => d,
            None => return Err(owned("Active diagram is unavailable")),
        };
        let element = match self.model.get(id) {
            Some(e) => e,
            None => {
                let mut m = owned("Element ");
                m.append(id.to_text().as_str());
                m.append(" is unavailable");
                return Err(m);
            },
        };
        if matches!(element, ModelElement::Relationship(_)) {
            return Err(owned("Relationships cannot be added as nodes"));
        }
        if !element_is_compatible_with_diagram(element, diagram.kind) {
            let mut m = owned(element.object_type().as_str());
            m.append(" is not compatible with ");
            m.append(diagram.kind.as_str());
            m.append(" diagrams");
            return Err(m);
        }
        if diagram.get_node(id).is_some() {
            return Err(owned("Element is already present on the active diagram"));
        }
        let size = Size::new(NODE_WIDTH_BITS, NODE_HEIGHT_BITS);
        let command = AddNodeToDiagram::new(diagram.id, id, position, size);
        let ghost c = command;
        let ghost m0 = self@.model;
        assert(m0.diagrams[index as int].id == c.diagram());
        let r = self.execute_command_result(UndoCommand::AddNodeToDiagram(command));
        proof {
            assert forall|after: UndoCommand, m1: UmlModelView, out: Result<(), CommandErrorView>|
                #[trigger] UndoCommand::AddNodeToDiagram(c).executes(after, m0, m1, out) implies out
                == succeeded() by {
                match after {
                    UndoCommand::AddNodeToDiagram(d) => {
                        assert(c.executes(d, m0, m1, out));
                    },
                    _ => {},
                }
            }
            lemma_ran_succeeds(old(self)@, UndoCommand::AddNodeToDiagram(c), self@, result_text(r));
        }
        assert(session_ran(old(self)@, UndoCommand::AddNodeToDiagram(c), self@, result_text(r)));
        r
    }

    /// Create an empty diagram of an authorable kind, named by the trimmed
    /// `name`, as one undoable step, and make it the active diagram.
    pub fn create_diagram(&mut self, kind: DiagramKind, name: &str) -> (r: Result<DiagramId, String>)
        requires
            old(self).wf(),
        ensures
            final(self).wf(),
            match diagram_refusal(old(self)@, kind, name@) {
                Some(m) => r is Err && r->Err_0@ == m && final(self)@ == old(self)@,
                None => diagram_created(old(self)@, kind, name@, final(self)@, r),
            },
    {
        proof {
            reveal_strlit("unsupported diagram kind: ");
        }
        if !self.current_file_path.is_some() {
            return Err(owned("create or open an XMI project before adding diagrams"));
        }
        let supported = match kind {
            DiagramKind::Class | DiagramKind::UseCase | DiagramKind::Component | DiagramKind::Deployment => true,
            _ => false,
        };
        if !supported {
            let mut m = owned("unsupported diagram kind: ");
            m.append(kind.as_str());
            return Err(m);
        }
        let name = trim(name);
        if is_empty_text(&name) {
            return Err(owned("diagram name cannot be empty"));
        }
        let diagram = Diagram::new(name.as_str(), kind);
        let diagram_id = diagram.id;
        let ghost dv = diagram@;
        let command = match CreateDiagram::new(&self.model, diagram) {
            Ok(c) => c,
            Err(e) => {
                assert(diagram_index(self@.model.diagrams, dv.id) is Some);
                return Err(e.message());
            },
        };
        let ghost c = command;
        let ghost m0 = self@.model;
        let res = self.execute_command_result(UndoCommand::CreateDiagram(command));
        let ghost mid = self@;
        proof {
            assert forall|after: UndoCommand, m1: UmlModelView, out: Result<(), CommandErrorView>|
                #[trigger] UndoCommand::CreateDiagram(c).executes(after, m0, m1, out) implies out == succeeded() by {
                match after {
                    UndoCommand::CreateDiagram(d) => {
                        assert(c.executes(d, m0, m1, out));
                    },
                    _ => {},
                }
            }
            lemma_ran_succeeds(old(self)@, UndoCommand::CreateDiagram(c), mid, result_text(res));
        }
        match res {
            Ok(()) => {},
            Err(m) => {
                return Err(m);
            },
        }
        self.active_diagram = self.model.diagram_position(diagram_id);
        self.normalize_transient_state();
        self.active_diagram = self.model.diagram_position(diagram_id);
        self.state_revision = self.state_revision.saturating_add(1);
        assert(session_ran(old(self)@, UndoCommand::CreateDiagram(c), mid, Ok(())));
        Ok(diagram_id)
    }

    /// Create a diagram of an authorable kind named `<Kind>_<n>`, with the
    /// first number free among the diagram names.
    pub fn create_supported_diagram(&mut self, kind: DiagramKind) -> (r: Result<DiagramId, String>)
        requires
            old(self).wf(),
            old(self)@.model.diagrams.len() < usize::MAX,
        ensures
            final(self).wf(),
            match diagram_refusal(
                old(self)@,
                kind,
                unique_name(diagram_names(old(self)@.model), diagram_kind_name(kind)),
            ) {
                Some(m) => r is Err && r->Err_0@ == m && final(self)@ == old(self)@,
                None => diagram_created(
                    old(self)@,
                    kind,
                    unique_name(diagram_names(old(self)@.model), diagram_kind_name(kind)),
                    final(self)@,
                    r,
                ),
            },
    {
        let name = generate_unique_diagram_name(&self.model, kind.as_str());
        self.create_diagram(kind, name.as_str())
    }

    /// Undo the newest step, keeping the active diagram where it can be found
    /// again, and drop transient state.
    pub fn undo_action(&mut self) -> (r: Result<(), String>)
        requires
            old(self).wf(),
        ensures
            final(self).wf(),
            session_undo_done(old(self)@, final(self)@, result_text(r)),
    {
        if !self.history.can_undo() {
            return Err(owned("target is unavailable or stale: history.undo"));
        }
        let prior_active = match self.active_diagram {
            Some(i) => match self.model.diagram_at(i) {
                Some(d) => Some(d.id),
                None => None,
            },
            None => None,
        };
        let prior_index = self.active_diagram;
        let res = self.history.undo(&mut self.model);
        let ghost out = outcome(res);
        let ghost h1 = self@.history;
        let ghost m1 = self@.model;
        assert(history_undoes(old(self)@.history, old(self)@.model, h1, m1, out));
        match res {
            Ok(()) => {},
            Err(e) => {
                let r: Result<(), String> = Err(failure_message(&e));
                assert(undo_with(old(self)@, self@, result_text(r), out, h1, m1));
                return r;
            },
        }
        let mut active = match prior_active {
            Some(id) => self.model.diagram_position(id),
            None => None,
        };
        if active.is_none() {
            let n = self.model.diagrams().len();
            active = match prior_index {
                Some(i) => if n == 0 {
                    None
                } else if i < n {
                    Some(i)
                } else {
                    Some(n - 1)
                },
                None => None,
            };
        }
        self.active_diagram = active;
        self.normalize_transient_state();
        self.refresh_property_buffers();
        self.is_dirty = true;
        self.status_message = owned("Undo");
        self.state_revision = self.state_revision.saturating_add(1);
        assert(undo_with(old(self)@, self@, result_text(Ok(())), out, h1, m1));
        Ok(())
    }

    /// Redo the newest undone step, keeping the active diagram where it can
    /// be found again (or else showing the first diagram the step brought
    /// back), and drop transient state.
    #[verifier::rlimit(50)]
    pub fn redo_action(&mut self) -> (r: Result<(), String>)
        requires
            old(self).wf(),
        ensures
            final(self).wf(),
            session_redo_done(old(self)@, final(self)@, result_text(r)),
    {
        if !self.history.can_redo() {
            return Err(owned("target is unavailable or stale: history.redo"));
        }
        let prior_active = match self.active_diagram {
            Some(i) => match self.model.diagram_at(i) {
                Some(d) => Some(d.id),
                None => None,
            },
            None => None,
        };
        let before = ids_of(self.model.diagrams());
        let res = self.history.redo(&mut self.model);
        let ghost out = outcome(res);
        let ghost h1 = self@.history;
        let ghost m1 = self@.model;
        assert(history_redoes(old(self)@.history, old(self)@.model, h1, m1, out));
        match res {
            Ok(()) => {},
            Err(e) => {
                let r: Result<(), String> = Err(failure_message(&e));
                assert(redo_with(old(self)@, self@, result_text(r), out, h1, m1));
                return r;
            },
        }
        let mut active = match prior_active {
            Some(id) => self.model.diagram_position(id),
            None => None,
        };
        if active.is_none() {
            active = first_new_position(&before, self.model.diagrams());
        }
        self.active_diagram = active;
        self.normalize_transient_state();
        self.refresh_property_buffers();
        self.is_dirty = true;
        self.status_message = owned("Redo");
        self.state_revision = self.state_revision.saturating_add(1);
        assert(redo_with(old(self)@, self@, result_text(Ok(())), out, h1, m1));
        Ok(())
    }

    /// The name field of the property inspector.
    pub fn name_edit_buffer(&self) -> (s: &str)
        ensures
            s@ == self@.name_buffer,
    {
        self.name_edit_buffer.as_str()
    }

    /// The documentation field of the property inspector.
    pub fn documentation_edit_buffer(&self) -> (s: &str)
        ensures
            s@ == self@.documentation_buffer,
    {
        self.documentation_edit_buffer.as_str()
    }

    /// Replace the name field (as the user types).
    pub fn set_name_edit_buffer(&mut self, text: &str)
        ensures
            final(self)@ == (SessionView { name_buffer: text@, ..old(self)@ }),
            old(self).wf() ==> final(self).wf(),
    {
        self.name_edit_buffer = owned(text);
    }

    /// Replace the documentation field (as the user types).
    pub fn set_documentation_edit_buffer(&mut self, text: &str)
        ensures
            final(self)@ == (SessionView { documentation_buffer: text@, ..old(self)@ }),
            old(self).wf() ==> final(self).wf(),
    {
        self.documentation_edit_buffer = owned(text);
    }

    /// The relationship draft, with the relationship it edits.
    pub fn relationship_draft(&self) -> (r: Option<&(UmlId, RelationshipDraft)>)
        ensures
            match r {
                Some(p) => self@.relationship_draft == Some((p.0, p.1@)),
                None => self@.relationship_draft is None,
            },
    {
        self.relationship_draft.as_ref()
    }

    /// The classifier draft, with the classifier it edits.
    pub fn classifier_draft(&self) -> (r: Option<&(UmlId, ClassifierDraft)>)
        ensures
            match r {
                Some(p) => self@.classifier_draft == Some((p.0, p.1@)),
                None => self@.classifier_draft is None,
            },
    {
        self.classifier_draft.as_ref()
    }

    /// Replace the relationship draft (as the user edits it).
    pub fn set_relationship_draft(&mut self, draft: Option<(UmlId, RelationshipDraft)>)
        ensures
            final(self)@ == (SessionView {
                relationship_draft: match draft {
                    Some((id, d)) => Some((id, d@)),
                    None => None,
                },
                ..old(self)@
            }),
            old(self).wf() ==> final(self).wf(),
    {
        self.relationship_draft = draft;
    }

    /// Replace the classifier draft (as the user edits it).
    pub fn set_classifier_draft(&mut self, draft: Option<(UmlId, ClassifierDraft)>)
        ensures
            final(self)@ == (SessionView {
                classifier_draft: match draft {
                    Some((id, d)) => Some((id, d@)),
                    None => None,
                },
                ..old(self)@
            }),
            old(self).wf() ==> final(self).wf(),
    {
        self.classifier_draft = draft;
    }

    /// The relationship kinds the inspector offers, in order.
    pub fn allowed_relationship_kinds(&self) -> (r: Vec<AssociationType>)
        ensures
            r@ == seq![
                AssociationType::Association,
                AssociationType::Generalization,
                AssociationType::Realization,
                AssociationType::Aggregation,
                AssociationType::Composition,
                AssociationType::Dependency,
            ],
    {
        vec![
            AssociationType::Association,
            AssociationType::Generalization,
            AssociationType::Realization,
            AssociationType::Aggregation,
            AssociationType::Composition,
            AssociationType::Dependency,
        ]
    }

    /// Whether a relationship may take this kind on the active diagram (any
    /// kind without one).
    pub fn relationship_kind_allowed(&self, kind: AssociationType) -> (b: bool)
        requires
            self.wf(),
        ensures
            b == kind_allowed(self@, kind),
    {
        match self.active_diagram_kind() {
            None => true,
            Some(k) => kind_tool(kind).is_compatible_with_diagram(k),
        }
    }

    /// Install the relationship draft on the relationship, as one undoable
    /// step, and show the result in the inspector. `Ok(false)` when the draft
    /// changes nothing.
    pub fn apply_relationship_draft(&mut self, id: UmlId) -> (r: Result<bool, String>)
        requires
            old(self).wf(),
        ensures
            final(self).wf(),
            match relationship_refusal(old(self)@, id) {
                Some(m) => r is Err && r->Err_0@ == m && final(self)@ == old(self)@,
                None => {
                    let current = old(self)@.model.elements[id]->Relationship_0;
                    let replacement = with_relationship_draft(current, drafted(old(self)@).1);
                    if replacement == current {
                        r == Ok::<bool, String>(false) && final(self)@ == old(self)@
                    } else {
                        exists|c: UpdateRelationship, mid: SessionView|
                            {
                                &&& c.inv()
                                &&& c.target() == id
                                &&& c.before_value() == current
                                &&& c.after_value() == installed_relationship(current, replacement)
                                &&& #[trigger] session_ran(
                                    old(self)@,
                                    UndoCommand::UpdateRelationship(c),
                                    mid,
                                    Ok(()),
                                )
                                &&& r == Ok::<bool, String>(true)
                                &&& final(self)@ == refreshed(mid)
                            }
                    }
                },
            },
    {
        let current = match self.model.get(id) {
            Some(ModelElement::Relationship(rel)) => rel,
            _ => return Err(owned("selected element is not a relationship")),
        };
        let draft = match &self.relationship_draft {
            Some(p) => p,
            None => return Err(owned("relationship draft is unavailable")),
        };
        if draft.0 != id || (!self.relationship_kind_allowed(draft.1.kind) && draft.1.kind != current.kind) {
            return Err(owned("relationship draft is stale or incompatible"));
        }
        let replacement = draft.1.installed_on(current);
        if replacement.eq_view(current) {
            return Ok(false);
        }
        let command = match UpdateRelationship::new(&self.model, id, replacement) {
            Ok(c) => c,
            Err(e) => return Err(e.message()),
        };
        let ghost c = command;
        let ghost m0 = self@.model;
        let res = self.execute_command_result(UndoCommand::UpdateRelationship(command));
        proof {
            assert forall|after: UndoCommand, m1: UmlModelView, out: Result<(), CommandErrorView>|
                #[trigger] UndoCommand::UpdateRelationship(c).executes(after, m0, m1, out) implies out
                == succeeded() by {
                match after {
                    UndoCommand::UpdateRelationship(d) => {
                        assert(c.executes(d, m0, m1, out));
                    },
                    _ => {},
                }
            }
            lemma_ran_succeeds(old(self)@, UndoCommand::UpdateRelationship(c), self@, result_text(res));
        }
        let ghost mid = self@;
        match res {
            Ok(()) => {},
            Err(m) => return Err(m),
        }
        self.refresh_property_buffers();
        assert(session_ran(old(self)@, UndoCommand::UpdateRelationship(c), mid, Ok(())));
        Ok(true)
    }

    /// Install a classifier draft on the classifier's features, as one
    /// undoable step. Refused on the draft's first blank name; `Ok(false)`
    /// when the draft changes nothing.
    pub fn apply_classifier_draft(&mut self, id: UmlId, draft: &ClassifierDraft) -> (r: Result<bool, String>)
        requires
            old(self).wf(),
        ensures
            final(self).wf(),
            match classifier_refusal(old(self)@, id, draft@) {
                Some(m) => r is Err && r->Err_0@ == m && final(self)@ == old(self)@,
                None => {
                    let current = old(self)@.model.elements[id].classifier()->0;
                    let replacement = features_of_draft(old(self)@.model, draft@, current.templates);
                    if replacement == current {
                        r == Ok::<bool, String>(false) && final(self)@ == old(self)@
                    } else {
                        exists|c: UpdateClassifierFeatures|
                            {
                                &&& c.inv()
                                &&& c.target() == id
                                &&& c.before_value() == current
                                &&& c.after_value() == replacement
                                &&& #[trigger] session_ran(
                                    old(self)@,
                                    UndoCommand::UpdateClassifierFeatures(c),
                                    final(self)@,
                                    Ok(()),
                                )
                                &&& r == Ok::<bool, String>(true)
                            }
                    }
                },
            },
    {
        match draft.problem() {
            Some(m) => return Err(m),
            None => {},
        }
        let current = match self.model.get(id) {
            Some(e) => match e.classifier_data() {
                Some(c) => c,
                None => return Err(owned("selected element is not a classifier")),
            },
            None => return Err(owned("selected element is not a classifier")),
        };
        let replacement = draft.to_features(&self.model, current);
        if replacement.eq_view(current) {
            return Ok(false);
        }
        let command = match UpdateClassifierFeatures::new(&self.model, id, replacement) {
            Ok(c) => c,
            Err(e) => return Err(e.message()),
        };
        let ghost c = command;
        let ghost m0 = self@.model;
        let res = self.execute_command_result(UndoCommand::UpdateClassifierFeatures(command));
        proof {
            assert forall|after: UndoCommand, m1: UmlModelView, out: Result<(), CommandErrorView>|
                #[trigger] UndoCommand::UpdateClassifierFeatures(c).executes(after, m0, m1, out) implies out
                == succeeded() by {
                match after {
                    UndoCommand::UpdateClassifierFeatures(d) => {
                        assert(c.executes(d, m0, m1, out));
                    },
                    _ => {},
                }
            }
            lemma_ran_succeeds(old(self)@, UndoCommand::UpdateClassifierFeatures(c), self@, result_text(res));
        }
        match res {
            Ok(()) => {},
            Err(m) => return Err(m),
        }
        assert(session_ran(old(self)@, UndoCommand::UpdateClassifierFeatures(c), self@, Ok(())));
        Ok(true)
    }

    /// The default name of a new diagram of a kind: `<Kind>_<n>` with the
    /// first number free among the diagram names.
    pub fn unique_diagram_name(&self, kind: DiagramKind) -> (r: String)
        requires
            self@.model.diagrams.len() < usize::MAX,
        ensures
            r@ == unique_name(diagram_names(self@.model), diagram_kind_name(kind)),
    {
        generate_unique_diagram_name(&self.model, kind.as_str())
    }

    /// Whether the new-diagram dialog is open.
    pub fn new_diagram_open(&self) -> (b: bool)
        ensures
            b == self@.dialog_open,
    {
        self.new_diagram_open
    }

    /// The kind chosen in the new-diagram dialog.
    pub fn new_diagram_kind(&self) -> (k: DiagramKind)
        ensures
            k == self@.dialog_kind,
    {
        self.new_diagram_kind
    }

    /// The name typed in the new-diagram dialog.
    pub fn new_diagram_name(&self) -> (s: &str)
        ensures
            s@ == self@.dialog_name,
    {
        self.new_diagram_name.as_str()
    }

    /// Replace the name typed in the new-diagram dialog.
    pub fn set_new_diagram_name(&mut self, name: &str)
        ensures
            final(self)@ == (SessionView { dialog_name: name@, ..old(self)@ }),
            old(self).wf() ==> final(self).wf(),
    {
        self.new_diagram_name = owned(name);
    }

    /// Open the new-diagram dialog on a class diagram with its default name;
    /// without a project only the status line says why not.
    pub fn open_new_diagram_dialog(&mut self)
        requires
            old(self).wf(),
            old(self)@.model.diagrams.len() < usize::MAX,
        ensures
            final(self).wf(),
            !old(self)@.project_open() ==> final(self)@ == (SessionView {
                status: "Create or open an XMI project before adding diagrams"@,
                ..old(self)@
            }),
            old(self)@.project_open() ==> final(self)@ == (SessionView {
                dialog_open: true,
                dialog_kind: DiagramKind::Class,
                dialog_name: unique_name(diagram_names(old(self)@.model), diagram_kind_name(DiagramKind::Class)),
                ..old(self)@
            }),
    {
        if !self.current_file_path.is_some() {
            self.status_message = owned("Create or open an XMI project before adding diagrams");
            return;
        }
        self.new_diagram_kind = DiagramKind::Class;
        self.new_diagram_name = self.unique_diagram_name(DiagramKind::Class);
        self.new_diagram_open = true;
    }

    /// After the dialog's kind went from `previous_kind` to `new_kind`: on a
    /// change the kind is taken and the name becomes the new kind's default;
    /// otherwise a name the user typed is kept.
    pub fn apply_new_diagram_kind_transition(&mut self, previous_kind: DiagramKind, new_kind: DiagramKind)
        requires
            old(self).wf(),
            old(self)@.model.diagrams.len() < usize::MAX,
        ensures
            final(self).wf(),
            previous_kind == new_kind ==> final(self)@ == old(self)@,
            previous_kind != new_kind ==> final(self)@ == (SessionView {
                dialog_kind: new_kind,
                dialog_name: unique_name(diagram_names(old(self)@.model), diagram_kind_name(new_kind)),
                ..old(self)@
            }),
    {
        if previous_kind != new_kind {
            self.new_diagram_kind = new_kind;
            self.new_diagram_name = self.unique_diagram_name(new_kind);
        }
    }

    /// Choose a kind in the new-diagram dialog.
    pub fn set_new_diagram_kind(&mut self, kind: DiagramKind)
        requires
            old(self).wf(),
            old(self)@.model.diagrams.len() < usize::MAX,
        ensures
            final(self).wf(),
            old(self)@.dialog_kind == kind ==> final(self)@ == old(self)@,
            old(self)@.dialog_kind != kind ==> final(self)@ == (SessionView {
                dialog_kind: kind,
                dialog_name: unique_name(diagram_names(old(self)@.model), diagram_kind_name(kind)),
                ..old(self)@
            }),
    {
        let previous_kind = self.new_diagram_kind;
        self.apply_new_diagram_kind_transition(previous_kind, kind);
    }

    /// Close the new-diagram dialog without creating anything.
    pub fn cancel_new_diagram_dialog(&mut self)
        ensures
            final(self)@ == (SessionView { dialog_open: false, ..old(self)@ }),
            old(self).wf() ==> final(self).wf(),
    {
        self.new_diagram_open = false;
    }

    /// The dialog's Create button: create the diagram of the chosen kind and
    /// name; on success the dialog closes and its name is emptied, on failure
    /// the status line asks for a name.
    pub fn submit_new_diagram(&mut self) -> (r: Result<DiagramId, String>)
        requires
            old(self).wf(),
        ensures
            final(self).wf(),
            match diagram_refusal(old(self)@, old(self)@.dialog_kind, old(self)@.dialog_name) {
                Some(m) => r is Err && r->Err_0@ == m && final(self)@ == (SessionView {
                    status: "Diagram name cannot be empty"@,
                    ..old(self)@
                }),
                None => exists|mid: SessionView|
                    {
                        &&& #[trigger] diagram_created(
                            old(self)@,
                            old(self)@.dialog_kind,
                            old(self)@.dialog_name,
                            mid,
                            r,
                        )
                        &&& final(self)@ == if r is Ok {
                            SessionView { dialog_open: false, dialog_name: Seq::empty(), ..mid }
                        } else {
                            SessionView { status: "Diagram name cannot be empty"@, ..mid }
                        }
                    },
            },
    {
        let kind = self.new_diagram_kind;
        let name = self.new_diagram_name.clone();
        let r = self.create_diagram(kind, name.as_str());
        let ghost mid = self@;
        if r.is_ok() {
            self.new_diagram_open = false;
            self.new_diagram_name = String::new();
        } else {
            self.status_message = owned("Diagram name cannot be empty");
        }
        r
    }

    /// Take up a new project whose empty model has just been written to
    /// `path`: everything of the previous model is dropped and the counter
    /// bumped.
    pub fn start_new_project(&mut self, path: &str)
        requires
            old(self).wf(),
        ensures
            final(self).wf(),
            final(self)@ == (SessionView {
                revision: bumped(old(self)@.revision),
                ..project_installed(old(self)@, empty_model(), path@, "New project: "@ + path@)
            }),
    {
        proof {
            reveal_strlit("New project: ");
        }
        self.install_project(UmlModel::new(), path);
        let mut m = owned("New project: ");
        m.append(path);
        self.status_message = m;
        self.state_revision = self.state_revision.saturating_add(1);
    }

    /// Take up a model just read from `path`.
    pub fn open_loaded_model(&mut self, model: UmlModel, path: &str)
        requires
            old(self).wf(),
            model.wf(),
        ensures
            final(self).wf(),
            final(self)@ == project_installed(
                old(self)@,
                model@,
                path@,
                "Loaded: "@ + path@ + " ("@ + decimal(model@.elements.len()) + " elements, "@ + decimal(
                    model@.diagrams.len(),
                ) + " diagrams)"@,
            ),
    {
        proof {
            reveal_strlit("Loaded: ");
            reveal_strlit(" (");
            reveal_strlit(" elements, ");
            reveal_strlit(" diagrams)");
        }
        let count = model.len();
        let diagram_count = model.diagrams().len();
        self.install_project(model, path);
        let mut m = owned("Loaded: ");
        m.append(path);
        m.append(" (");
        m.append(decimal_text(count as u64).as_str());
        m.append(" elements, ");
        m.append(decimal_text(diagram_count as u64).as_str());
        m.append(" diagrams)");
        self.status_message = m;
    }

    /// The state change shared by a new and an opened project.
    fn install_project(&mut self, model: UmlModel, path: &str)
        requires
            old(self).wf(),
            model.wf(),
        ensures
            final(self).wf(),
            final(self)@ == (SessionView {
                status: old(self)@.status,
                ..project_installed(old(self)@, model@, path@, old(self)@.status)
            }),
    {
        self.model = model;
        self.history.clear();
        self.current_file_path = Some(owned(path));
        self.is_dirty = false;
        self.active_diagram = None;
        self.new_diagram_open = false;
        self.new_diagram_name = String::new();
        self.qa_cursor = None;
        self.selected_element_id = None;
        self.name_edit_buffer = String::new();
        self.normalize_transient_state();
    }

    /// Record that the model was just saved to `path`, which becomes the
    /// project's path.
    pub fn mark_saved(&mut self, path: &str)
        ensures
            final(self)@ == (SessionView {
                file_path: Some(path@),
                dirty: false,
                status: "Saved: "@ + path@,
                ..old(self)@
            }),
            old(self).wf() ==> final(self).wf(),
    {
        proof {
            reveal_strlit("Saved: ");
        }
        let mut m = owned("Saved: ");
        m.append(path);
        self.current_file_path = Some(owned(path));
        self.is_dirty = false;
        self.status_message = m;
    }

    /// Report that saving to `path` failed; nothing else changes.
    pub fn report_save_error(&mut self, path: &str, error: &str)
        ensures
            final(self)@ == (SessionView {
                status: "Error saving "@ + path@ + ": "@ + error@,
                ..old(self)@
            }),
            old(self).wf() ==> final(self).wf(),
    {
        proof {
            reveal_strlit("Error saving ");
            reveal_strlit(": ");
        }
        let mut m = owned("Error saving ");
        m.append(path);
        m.append(": ");
        m.append(error);
        self.status_message = m;
    }

    /// Report that opening `path` failed; nothing else changes.
    pub fn report_open_error(&mut self, path: &str, error: &str)
        ensures
            final(self)@ == (SessionView {
                status: "Error opening "@ + path@ + ": "@ + error@,
                ..old(self)@
            }),
            old(self).wf() ==> final(self).wf(),
    {
        proof {
            reveal_strlit("Error opening ");
            reveal_strlit(": ");
        }
        let mut m = owned("Error opening ");
        m.append(path);
        m.append(": ");
        m.append(error);
        self.status_message = m;
    }

    /// The zoom percentage (bit pattern) of the active diagram, if there is
    /// one.
    pub fn active_zoom_percent(&self) -> (r: Option<u64>)
        requires
            self.wf(),
        ensures
            r == match self@.active_diagram {
                Some(i) => if i < self@.model.diagrams.len() {
                    Some(normalized_zoom(self@.model.diagrams[i as int].zoom_percent))
                } else {
                    None
                },
                None => None,
            },
    {
        match self.active_diagram {
            Some(i) => match self.model.diagram_at(i) {
                Some(d) => Some(d.zoom_percent()),
                None => None,
            },
            None => None,
        }
    }

    /// Set the zoom percentage (bit pattern) of the active diagram, bounded
    /// to 10–500% (100% for a value that is not a number). The zoom is a
    /// view setting: it is not an undoable step and leaves the model clean.
    pub fn set_active_zoom_percent(&mut self, bits: u64)
        requires
            old(self).wf(),
        ensures
            final(self).wf(),
            final(self)@ == zoomed(old(self)@, bits),
    {
        let id = match self.active_diagram {
            Some(i) => match self.model.diagram_at(i) {
                Some(d) => d.id,
                None => return,
            },
            None => return,
        };
        match self.model.get_diagram_mut(id) {
            Some(d) => {
                d.set_zoom_percent(bits);
            },
            None => {},
        }
    }

    /// Return the active diagram to 100% zoom.
    pub fn reset_active_zoom(&mut self)
        requires
            old(self).wf(),
        ensures
            final(self).wf(),
            final(self)@ == zoomed(old(self)@, DEFAULT_ZOOM_BITS),
    {
        self.set_active_zoom_percent(DEFAULT_ZOOM_BITS);
    }
}

/// Choosing a tool, as a relation between the sessions before and after (and
/// the result): what the session method of that name ensures.
pub open spec fn tool_choice_done(
    s0: SessionView,
    tool: ToolMode,
    s1: SessionView,
    r: Result<(), String>,
) -> bool {
    &&& tool_available(s0, tool) ==> r is Ok && s1 == (SessionView {
        tool,
        revision: bumped(s0.revision),
        preview: None,
        drag_source: None,
        ..s0
    })
    &&& !tool_available(s0, tool) ==> r is Err && r->Err_0@ == unavailable_reason(
        s0,
        tool,
    ) && s1 == (SessionView {
        status: unavailable_reason(s0, tool),
        ..s0
    })
}

/// Selecting an element, as a relation between the sessions before and after (and
/// the result): what the session method of that name ensures.
pub open spec fn element_selected(
    s0: SessionView,
    id: UmlId,
    s1: SessionView,
    r: Result<(), Seq<char>>,
) -> bool {
    &&& s0.model.elements.contains_key(id) ==> r is Ok && s1 == (SessionView {
        revision: bumped(s0.revision),
        ..refreshed(SessionView { selected: Some(id), ..s0 })
    })
    &&& !s0.model.elements.contains_key(id) ==> r is Err && r->Err_0
        == "target is unavailable or stale: node:"@ + uuid_text_spec(id.value) && s1
        == s0
}

/// Activating the diagram at a position, as a relation between the sessions before and after (and
/// the result): what the session method of that name ensures.
pub open spec fn diagram_activated(s0: SessionView, index: usize, s1: SessionView) -> bool {
    &&& index >= s0.model.diagrams.len() ==> s1 == (SessionView {
        status: "Diagram is unavailable"@,
        ..s0
    })
    &&& index < s0.model.diagrams.len() ==> s1 == diagram_made_active(s0, index)
}

/// Opening the new-diagram dialog, as a relation between the sessions before and after (and
/// the result): what the session method of that name ensures.
pub open spec fn dialog_opened(s0: SessionView, s1: SessionView) -> bool {
    &&& !s0.project_open() ==> s1 == (SessionView {
        status: "Create or open an XMI project before adding diagrams"@,
        ..s0
    })
    &&& s0.project_open() ==> s1 == (SessionView {
        dialog_open: true,
        dialog_kind: DiagramKind::Class,
        dialog_name: unique_name(diagram_names(s0.model), diagram_kind_name(DiagramKind::Class)),
        ..s0
    })
}

/// Creating a diagram of a kind under its default name, as a relation between the sessions before and after (and
/// the result): what the session method of that name ensures.
pub open spec fn supported_diagram_done(
    s0: SessionView,
    kind: DiagramKind,
    s1: SessionView,
    r: Result<DiagramId, String>,
) -> bool {
    &&& match diagram_refusal(
        s0,
        kind,
        unique_name(diagram_names(s0.model), diagram_kind_name(kind)),
    ) {
        Some(m) => r is Err && r->Err_0@ == m && s1 == s0,
        None => diagram_created(
            s0,
            kind,
            unique_name(diagram_names(s0.model), diagram_kind_name(kind)),
            s1,
            r,
        ),
    }
}

/// Placing a new element with a creation tool, as a relation between the sessions before and after (and
/// the result): what the session method of that name ensures.
pub open spec fn element_placed(
    s0: SessionView,
    tool: ToolMode,
    position: Point,
    s1: SessionView,
    r: Result<(), Seq<char>>,
) -> bool {
    &&& match placement_refusal(s0, tool) {
        Some(msg) => r is Err && r->Err_0 == msg && s1 == s0,
        None => (r is Err && s1 == s0 && id_collision(r->Err_0) && exists|id: UmlId|
            #[trigger] element_id_taken(
                s0.model,
                s0.model.diagrams[s0.active_diagram->0 as int].id,
                id,
            )) || exists|
            c: CreateElementWithNode,
        |
            {
                &&& r is Ok
                &&& c.inv()
                &&& c.held() is Some
                &&& c.held()->0 == tool_element(
                    tool,
                    c.target(),
                    unique_name(element_names(s0.model), tool_base_name(tool)),
                )
                &&& c.diagram() == s0.model.diagrams[s0.active_diagram->0 as int].id
                &&& c.node() == placed_node(c.target(), position, default_node_size())
                &&& #[trigger] session_ran(
                    s0,
                    UndoCommand::CreateElementWithNode(c),
                    s1,
                    r,
                )
            },
    }
}

/// Setting an element's visibility, as a relation between the sessions before and after (and
/// the result): what the session method of that name ensures.
pub open spec fn visibility_set(
    s0: SessionView,
    id: UmlId,
    value: Visibility,
    s1: SessionView,
    r: Result<(), Seq<char>>,
) -> bool {
    &&& !s0.model.elements.contains_key(id) ==> r is Err && r->Err_0 == command_failure(
        CommandErrorView::ElementNotFound(id),
    ) && s1 == s0
    &&& s0.model.elements.contains_key(id) ==> exists|c: ChangeVisibility|
        {
            &&& c.inv()
            &&& r is Ok
            &&& c.target() == id
            &&& c.previous() == s0.model.elements[id].base().visibility
            &&& c.replacement() == value
            &&& #[trigger] session_ran(s0, UndoCommand::ChangeVisibility(c), s1, r)
        }
}

/// Setting a classifier's flags, as a relation between the sessions before and after (and
/// the result): what the session method of that name ensures.
pub open spec fn flags_set(
    s0: SessionView,
    id: UmlId,
    is_abstract: bool,
    is_static: bool,
    s1: SessionView,
    r: Result<(), Seq<char>>,
) -> bool {
    &&& !s0.model.elements.contains_key(id) ==> r is Err && r->Err_0 == command_failure(
        CommandErrorView::ElementNotFound(id),
    ) && s1 == s0
    &&& s0.model.elements.contains_key(id) ==> exists|c: ChangeElementFlags|
        {
            &&& c.inv()
            &&& r is Ok
            &&& c.target() == id
            &&& c.previous() == (
                s0.model.elements[id].base().is_abstract,
                s0.model.elements[id].base().is_static,
            )
            &&& c.replacement() == (is_abstract, is_static)
            &&& #[trigger] session_ran(s0, UndoCommand::ChangeElementFlags(c), s1, r)
        }
}

/// Installing the relationship draft, as a relation between the sessions before and after (and
/// the result): what the session method of that name ensures.
pub open spec fn relationship_applied(
    s0: SessionView,
    id: UmlId,
    s1: SessionView,
    r: Result<bool, Seq<char>>,
) -> bool {
    &&& match relationship_refusal(s0, id) {
        Some(m) => r is Err && r->Err_0 == m && s1 == s0,
        None => {
            let current = s0.model.elements[id]->Relationship_0;
            let replacement = with_relationship_draft(current, drafted(s0).1);
            if replacement == current {
                r == Ok::<bool, Seq<char>>(false) && s1 == s0
            } else {
                exists|c: UpdateRelationship, mid: SessionView|
                    {
                        &&& c.inv()
                        &&& c.target() == id
                        &&& c.before_value() == current
                        &&& c.after_value() == installed_relationship(current, replacement)
                        &&& #[trigger] session_ran(
                            s0,
                            UndoCommand::UpdateRelationship(c),
                            mid,
                            Ok(()),
                        )
                        &&& r == Ok::<bool, Seq<char>>(true)
                        &&& s1 == refreshed(mid)
                    }
            }
        },
    }
}

/// Installing a classifier draft, as a relation between the sessions
/// before and after and the result: what the session method of that name
/// ensures.
pub open spec fn classifier_applied(
    s0: SessionView,
    id: UmlId,
    d: ClassifierDraftView,
    s1: SessionView,
    r: Result<bool, Seq<char>>,
) -> bool {
    &&& match classifier_refusal(s0, id, d) {
        Some(m) => r is Err && r->Err_0 == m && s1 == s0,
        None => {
            let current = s0.model.elements[id].classifier()->0;
            let replacement = features_of_draft(s0.model, d, current.templates);
            if replacement == current {
                r == Ok::<bool, Seq<char>>(false) && s1 == s0
            } else {
                exists|c: UpdateClassifierFeatures|
                    {
                        &&& c.inv()
                        &&& c.target() == id
                        &&& c.before_value() == current
                        &&& c.after_value() == replacement
                        &&& #[trigger] session_ran(
                            s0,
                            UndoCommand::UpdateClassifierFeatures(c),
                            s1,
                            Ok(()),
                        )
                        &&& r == Ok::<bool, Seq<char>>(true)
                    }
            }
        },
    }
}

impl EditorSession {
    /// Take the classifier draft out of the session.
    pub fn take_classifier_draft(&mut self) -> (r: Option<(UmlId, ClassifierDraft)>)
        ensures
            match r {
                Some(p) => old(self)@.classifier_draft == Some((p.0, p.1@)),
                None => old(self)@.classifier_draft is None,
            },
            final(self)@ == (SessionView { classifier_draft: None, ..old(self)@ }),
            old(self).wf() ==> final(self).wf(),
    {
        self.classifier_draft.take()
    }

    /// Take the relationship draft out of the session.
    pub fn take_relationship_draft(&mut self) -> (r: Option<(UmlId, RelationshipDraft)>)
        ensures
            match r {
                Some(p) => old(self)@.relationship_draft == Some((p.0, p.1@)),
                None => old(self)@.relationship_draft is None,
            },
            final(self)@ == (SessionView { relationship_draft: None, ..old(self)@ }),
            old(self).wf() ==> final(self).wf(),
    {
        self.relationship_draft.take()
    }

    /// Count a visible change.
    pub fn bump_state(&mut self)
        ensures
            final(self)@ == (SessionView { revision: bumped(old(self)@.revision), ..old(self)@ }),
            old(self).wf() ==> final(self).wf(),
    {
        self.state_revision = self.state_revision.saturating_add(1);
    }
}


impl EditorSession {
    /// Start dragging a node from where it is on the diagram.
    pub fn begin_node_drag(&mut self, node: UmlId, original: Point)
        ensures
            final(self)@ == (SessionView {
                drag_node: Some(node),
                drag_start: Some(original),
                drag_preview: None,
                ..old(self)@
            }),
            old(self).wf() ==> final(self).wf(),
    {
        self.drag_node_id = Some(node);
        self.drag_start_pos = Some(original);
        self.drag_preview_pos = None;
    }

    /// Show the dragged node at a position.
    pub fn update_node_drag(&mut self, position: Point)
        ensures
            final(self)@ == (SessionView { drag_preview: Some(position), ..old(self)@ }),
            old(self).wf() ==> final(self).wf(),
    {
        self.drag_preview_pos = Some(position);
    }

    /// End the drag: the dragged node, where it started and where it is
    /// shown, with the drag cleared.
    pub fn take_node_drag(&mut self) -> (r: (Option<UmlId>, Option<Point>, Option<Point>))
        ensures
            r == (old(self)@.drag_node, old(self)@.drag_start, old(self)@.drag_preview),
            final(self)@ == (SessionView { drag_node: None, drag_start: None, drag_preview: None, ..old(self)@ }),
            old(self).wf() ==> final(self).wf(),
    {
        let r = (self.drag_node_id, self.drag_start_pos, self.drag_preview_pos);
        self.drag_node_id = None;
        self.drag_start_pos = None;
        self.drag_preview_pos = None;
        r
    }

    /// The node being dragged, if any.
    pub fn dragged_node(&self) -> (r: Option<UmlId>)
        ensures
            r == self@.drag_node,
    {
        self.drag_node_id
    }

    /// Preview the placement of a node at a position (or stop previewing).
    pub fn set_preview_position(&mut self, position: Option<Point>)
        ensures
            final(self)@ == (SessionView { preview: position, ..old(self)@ }),
            old(self).wf() ==> final(self).wf(),
    {
        self.preview_position = position;
    }

    /// Where a node being placed is previewed, if anywhere.
    pub fn preview_position(&self) -> (r: Option<Point>)
        ensures
            r == self@.preview,
    {
        self.preview_position
    }

    /// Start (or stop) drawing an edge from a node.
    pub fn set_drag_source(&mut self, node: Option<UmlId>)
        ensures
            final(self)@ == (SessionView { drag_source: node, ..old(self)@ }),
            old(self).wf() ==> final(self).wf(),
    {
        self.drag_source_node_id = node;
    }

    /// The node an edge being drawn starts from, if any.
    pub fn drag_source(&self) -> (r: Option<UmlId>)
        ensures
            r == self@.drag_source,
    {
        self.drag_source_node_id
    }
}


impl EditorSession {
    /// The automation client's current target, if it selected one.
    pub fn qa_cursor(&self) -> (r: Option<&str>)
        ensures
            match r {
                Some(t) => self@.cursor == Some(t@),
                None => self@.cursor is None,
            },
    {
        match &self.qa_cursor {
            Some(t) => Some(t.as_str()),
            None => None,
        }
    }

    /// Point the automation cursor at a target (no check; see `qa_select`).
    pub fn set_qa_cursor(&mut self, id: &str)
        ensures
            final(self)@ == (SessionView { cursor: Some(id@), ..old(self)@ }),
            old(self).wf() ==> final(self).wf(),
    {
        self.qa_cursor = Some(crate::text::owned(id));
    }
}

/// Renaming an element, as a relation between the sessions before and
/// after and the result: what the session method of that name ensures.
pub open spec fn rename_done(
    s0: SessionView,
    id: UmlId,
    value: Seq<char>,
    s1: SessionView,
    r: Result<(), Seq<char>>,
) -> bool {
    &&& trimmed(value).len() == 0 ==> r is Err && r->Err_0 == "invalid value: name cannot be empty"@
        && s1 == s0
    &&& trimmed(value).len() != 0 && !s0.model.elements.contains_key(id) ==> r is Err
        && r->Err_0 == command_failure(CommandErrorView::ElementNotFound(id)) && s1 == s0
    &&& trimmed(value).len() != 0 && s0.model.elements.contains_key(id) ==> exists|
        c: RenameElement,
        mid: SessionView,
    |
        {
            &&& c.inv()
            &&& r is Ok
            &&& c.target() == id
            &&& c.previous() == s0.model.elements[id].name()
            &&& c.replacement() == trimmed(value)
            &&& #[trigger] session_ran(s0, UndoCommand::RenameElement(c), mid, r)
            &&& s1 == if r is Ok && s0.selected == Some(id) {
                SessionView { name_buffer: trimmed(value), ..mid }
            } else {
                mid
            }
        }
}

/// Setting an element's documentation, as a relation between the sessions
/// before and after and the result: what the session method of that name ensures.
pub open spec fn documentation_set(
    s0: SessionView,
    id: UmlId,
    value: Seq<char>,
    s1: SessionView,
    r: Result<(), Seq<char>>,
) -> bool {
    &&& !s0.model.elements.contains_key(id) ==> r is Err && r->Err_0 == command_failure(
        CommandErrorView::ElementNotFound(id),
    ) && s1 == s0
    &&& s0.model.elements.contains_key(id) ==> exists|c: ChangeDocumentation|
        {
            &&& c.inv()
            &&& r is Ok
            &&& c.target() == id
            &&& c.previous() == s0.model.elements[id].base().documentation
            &&& c.replacement() == value
            &&& #[trigger] session_ran(s0, UndoCommand::ChangeDocumentation(c), s1, r)
        }
}

} // verus!
