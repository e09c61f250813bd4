//! The targets an automation client sees: every action, tool, diagram,
//! node, edge, element and inspector property the editor offers in its
//! current state, each with a stable id, a kind, a label and whether it is
//! enabled. A client selects a target by its id (the cursor) and acts on it.
use crate::diagram::edge::ViewEdgeView;
use crate::diagram::node::ViewNode;
use crate::diagram::{diagram_kind_name, DiagramKind, DiagramView};
use crate::drafts::DraftOperationView;
use crate::editor::{tool_label, ToolMode};
use crate::elements::{ModelElementView, RelationshipView};
use crate::id::{uuid_text_spec, DiagramId, UmlId};
use crate::naming::decimal;
use crate::repository::UmlModelView;
use crate::session::{add_state_refusal, kind_allowed, tool_available, SessionView};
use crate::types::{association_type_name, object_type_name, AssociationType};
use vstd::prelude::*;

verus! {

/// One target of the automation interface.
#[derive(Debug, Clone)]
pub struct UiTarget {
    /// The stable id a client selects it by.
    pub id: String,
    /// What sort of target it is (`action`, `tool`, `diagram`, `canvas`,
    /// `node`, `edge`, `element` or `property`).
    pub kind: String,
    /// The label shown for it.
    pub label: String,
    /// Whether acting on it is possible now.
    pub enabled: bool,
    /// Whether it is the client's current selection.
    pub selected: bool,
    /// The model element it concerns, if any.
    pub element_id: Option<UmlId>,
    /// The diagram it concerns, if any.
    pub diagram_id: Option<DiagramId>,
}

/// The mathematical value of a `UiTarget`.
pub struct UiTargetView {
    pub id: Seq<char>,
    pub kind: Seq<char>,
    pub label: Seq<char>,
    pub enabled: bool,
    pub selected: bool,
    pub element_id: Option<UmlId>,
    pub diagram_id: Option<DiagramId>,
}

impl View for UiTarget {
    type V = UiTargetView;

    open spec fn view(&self) -> UiTargetView {
        UiTargetView {
            id: self.id@,
            kind: self.kind@,
            label: self.label@,
            enabled: self.enabled,
            selected: self.selected,
            element_id: self.element_id,
            diagram_id: self.diagram_id,
        }
    }
}

/// The text of the client's cursor, if it holds one.
pub open spec fn cursor_text(c: Option<&str>) -> Option<Seq<char>> {
    match c {
        Some(t) => Some(t@),
        None => None,
    }
}

/// The values of a list of targets.
pub open spec fn targets_view(v: Seq<UiTarget>) -> Seq<UiTargetView> {
    v.map_values(|t: UiTarget| t@)
}

/// A target; it is selected exactly when the cursor holds its id.
pub open spec fn target(
    id: Seq<char>,
    kind: Seq<char>,
    label: Seq<char>,
    enabled: bool,
    cursor: Option<Seq<char>>,
    element_id: Option<UmlId>,
    diagram_id: Option<DiagramId>,
) -> UiTargetView {
    UiTargetView { id, kind, label, enabled, selected: cursor == Some(id), element_id, diagram_id }
}

/// A target that concerns no element and no diagram.
pub open spec fn plain(id: Seq<char>, kind: Seq<char>, label: Seq<char>, enabled: bool, cursor: Option<Seq<char>>) -> UiTargetView {
    target(id, kind, label, enabled, cursor, None, None)
}

/// An enabled inspector property of the selected element.
pub open spec fn prop(id: Seq<char>, label: Seq<char>, cursor: Option<Seq<char>>, sel: UmlId) -> UiTargetView {
    target(id, "property"@, label, true, cursor, Some(sel), None)
}

/// An enabled inspector action on the selected element.
pub open spec fn act(id: Seq<char>, label: Seq<char>, cursor: Option<Seq<char>>, sel: UmlId) -> UiTargetView {
    target(id, "action"@, label, true, cursor, Some(sel), None)
}

/// The history, file and application actions.
pub open spec fn head_targets(s: SessionView, cursor: Option<Seq<char>>) -> Seq<UiTargetView> {
    seq![
        plain("history.undo"@, "action"@, "Undo"@, s.history.undo.len() > 0, cursor),
        plain("history.redo"@, "action"@, "Redo"@, s.history.redo.len() > 0, cursor),
        plain("file.new"@, "action"@, "New Project…"@, true, cursor),
        plain("file.save"@, "action"@, "Save"@, s.project_open(), cursor),
        plain("app.quit"@, "action"@, "Quit"@, true, cursor),
    ]
}

/// The tools, in palette order.
pub open spec fn listed_tools() -> Seq<ToolMode> {
    seq![
        ToolMode::Select,
        ToolMode::CreateClass,
        ToolMode::CreateInterface,
        ToolMode::CreateEnum,
        ToolMode::CreateDatatype,
        ToolMode::CreatePackage,
        ToolMode::CreateActor,
        ToolMode::CreateUseCase,
        ToolMode::CreateComponent,
        ToolMode::CreateNode,
        ToolMode::CreateArtifact,
        ToolMode::CreateGeneralization,
        ToolMode::CreateRealization,
        ToolMode::CreateAssociation,
        ToolMode::CreateAggregation,
        ToolMode::CreateComposition,
        ToolMode::CreateDependency,
    ]
}

/// The key of a tool in its target id `tool.<key>`.
pub open spec fn tool_key(t: ToolMode) -> Seq<char> {
    match t {
        ToolMode::Select => "select"@,
        ToolMode::CreateClass => "class"@,
        ToolMode::CreateInterface => "interface"@,
        ToolMode::CreateEnum => "enum"@,
        ToolMode::CreateDatatype => "datatype"@,
        ToolMode::CreatePackage => "package"@,
        ToolMode::CreateActor => "actor"@,
        ToolMode::CreateUseCase => "use_case"@,
        ToolMode::CreateComponent => "component"@,
        ToolMode::CreateNode => "node"@,
        ToolMode::CreateArtifact => "artifact"@,
        ToolMode::CreateGeneralization => "generalization"@,
        ToolMode::CreateRealization => "realization"@,
        ToolMode::CreateAssociation => "association"@,
        ToolMode::CreateAggregation => "aggregation"@,
        ToolMode::CreateComposition => "composition"@,
        ToolMode::CreateDependency => "dependency"@,
    }
}

/// The target of a tool.
pub open spec fn tool_target(s: SessionView, t: ToolMode, cursor: Option<Seq<char>>) -> UiTargetView {
    plain("tool."@ + tool_key(t), "tool"@, tool_label(t), tool_available(s, t), cursor)
}

/// The tool targets, in palette order.
pub open spec fn tool_targets(s: SessionView, cursor: Option<Seq<char>>) -> Seq<UiTargetView> {
    Seq::new(17, |i: int| tool_target(s, listed_tools()[i], cursor))
}

/// The label of the action that creates a diagram of a kind.
pub open spec fn new_diagram_label(k: DiagramKind) -> Seq<char> {
    "New "@ + diagram_kind_name(k) + " Diagram"@
}

/// The diagram creation actions, enabled while a project is open.
pub open spec fn creation_targets(s: SessionView, cursor: Option<Seq<char>>) -> Seq<UiTargetView> {
    let on = s.project_open();
    seq![
        plain("diagram.new"@, "action"@, "New Diagram…"@, on, cursor),
        plain("diagram.new.class"@, "diagram"@, new_diagram_label(DiagramKind::Class), on, cursor),
        plain("diagram.new.use_case"@, "diagram"@, new_diagram_label(DiagramKind::UseCase), on, cursor),
        plain("diagram.new.component"@, "diagram"@, new_diagram_label(DiagramKind::Component), on, cursor),
        plain("diagram.new.deployment"@, "diagram"@, new_diagram_label(DiagramKind::Deployment), on, cursor),
        plain("diagram.new_class"@, "diagram"@, "New Class Diagram"@, on, cursor),
    ]
}

/// The target of a diagram of the model.
pub open spec fn diagram_target(d: DiagramView, cursor: Option<Seq<char>>) -> UiTargetView {
    target("diagram:"@ + uuid_text_spec(d.id.value), "diagram"@, d.name, true, cursor, None, Some(d.id))
}

/// One target per diagram of the model, in order.
pub open spec fn diagram_targets(ds: Seq<DiagramView>, cursor: Option<Seq<char>>) -> Seq<UiTargetView> {
    Seq::new(ds.len(), |i: int| diagram_target(ds[i], cursor))
}

/// The active diagram, when the active position holds one.
pub open spec fn active_view(s: SessionView) -> Option<DiagramView> {
    match s.active_diagram {
        Some(i) => if i < s.model.diagrams.len() {
            Some(s.model.diagrams[i as int])
        } else {
            None
        },
        None => None,
    }
}

/// The id of the active diagram, when there is one.
pub open spec fn active_view_id(s: SessionView) -> Option<DiagramId> {
    match active_view(s) {
        Some(d) => Some(d.id),
        None => None,
    }
}

/// The canvas and the viewport actions, enabled while a diagram is active.
pub open spec fn viewport_targets(s: SessionView, cursor: Option<Seq<char>>) -> Seq<UiTargetView> {
    let on = active_view(s) is Some;
    let d = active_view_id(s);
    seq![
        target("canvas"@, "canvas"@, "Canvas"@, on, cursor, None, d),
        target("viewport.zoom_in"@, "action"@, "Zoom In"@, on, cursor, None, d),
        target("viewport.zoom_out"@, "action"@, "Zoom Out"@, on, cursor, None, d),
        target("viewport.fit"@, "action"@, "Fit Diagram"@, on, cursor, None, d),
        target("viewport.reset"@, "action"@, "Reset View"@, on, cursor, None, d),
    ]
}

/// The name of the element with the id, or the id's text when there is none.
pub open spec fn name_or_id(m: UmlModelView, id: UmlId) -> Seq<char> {
    if m.elements.contains_key(id) {
        m.elements[id].name()
    } else {
        uuid_text_spec(id.value)
    }
}

/// `<kind>: <source> → <target>`, naming the ends as `name_or_id` does.
pub open spec fn relationship_label(m: UmlModelView, r: RelationshipView) -> Seq<char> {
    association_type_name(r.kind) + ": "@ + name_or_id(m, r.source_id) + " → "@ + name_or_id(m, r.target_id)
}

/// The targets of the visible nodes among `nodes`, in order.
pub open spec fn node_targets(
    m: UmlModelView,
    d: DiagramId,
    nodes: Seq<(u128, ViewNode)>,
    cursor: Option<Seq<char>>,
) -> Seq<UiTargetView>
    decreases nodes.len(),
{
    if nodes.len() == 0 {
        Seq::empty()
    } else {
        let n = nodes.last().1;
        node_targets(m, d, nodes.drop_last(), cursor) + if n.visible {
            seq![
                target(
                    "node:"@ + uuid_text_spec(n.model_element_id.value),
                    "node"@,
                    name_or_id(m, n.model_element_id),
                    true,
                    cursor,
                    Some(n.model_element_id),
                    Some(d),
                ),
            ]
        } else {
            Seq::empty()
        }
    }
}

/// The targets of the edges among `edges` whose relationship is in the
/// model, in order.
pub open spec fn edge_targets(
    m: UmlModelView,
    d: DiagramId,
    edges: Seq<(u128, ViewEdgeView)>,
    cursor: Option<Seq<char>>,
) -> Seq<UiTargetView>
    decreases edges.len(),
{
    if edges.len() == 0 {
        Seq::empty()
    } else {
        let rid = edges.last().1.relationship_id;
        edge_targets(m, d, edges.drop_last(), cursor) + if m.elements.contains_key(rid)
            && m.elements[rid] is Relationship {
            let r = m.elements[rid]->Relationship_0;
            seq![
                target(
                    "edge:"@ + uuid_text_spec(r.base.id.value),
                    "edge"@,
                    relationship_label(m, r),
                    true,
                    cursor,
                    Some(r.base.id),
                    Some(d),
                ),
            ]
        } else {
            Seq::empty()
        }
    }
}

/// The nodes and edges of the active diagram, when there is one.
pub open spec fn canvas_targets(s: SessionView, cursor: Option<Seq<char>>) -> Seq<UiTargetView> {
    match active_view(s) {
        Some(d) => node_targets(s.model, d.id, d.nodes, cursor) + edge_targets(s.model, d.id, d.edges, cursor),
        None => Seq::empty(),
    }
}

/// How the element browser labels an element.
pub open spec fn element_label(m: UmlModelView, e: ModelElementView) -> Seq<char> {
    match e {
        ModelElementView::Relationship(r) => relationship_label(m, r),
        _ => object_type_name(e.object_type()) + ": "@ + e.name(),
    }
}

/// The two targets of an element of the model: the element itself, and
/// the action that puts it on the active diagram.
pub open spec fn element_pair(s: SessionView, id: UmlId, cursor: Option<Seq<char>>) -> Seq<UiTargetView> {
    seq![
        target(
            "element:"@ + uuid_text_spec(id.value),
            "element"@,
            element_label(s.model, s.model.elements[id]),
            true,
            cursor,
            Some(id),
            None,
        ),
        target(
            "element.add_to_diagram:"@ + uuid_text_spec(id.value),
            "action"@,
            "Add to active diagram"@,
            add_state_refusal(s, id) is None,
            cursor,
            Some(id),
            active_view_id(s),
        ),
    ]
}

/// The targets of the elements with the ids, in order.
pub open spec fn element_targets(s: SessionView, ids: Seq<UmlId>, cursor: Option<Seq<char>>) -> Seq<UiTargetView>
    decreases ids.len(),
{
    if ids.len() == 0 {
        Seq::empty()
    } else {
        element_targets(s, ids.drop_last(), cursor) + element_pair(s, ids.last(), cursor)
    }
}

/// The nine targets of attribute `i` of the classifier draft.
pub open spec fn attribute_row(i: int, cursor: Option<Seq<char>>, sel: UmlId) -> Seq<UiTargetView> {
    let k = decimal(i as nat);
    let p = "property.classifier.attribute."@ + k;
    let a = "Attr "@ + k;
    seq![
        prop(p + ".name"@, a + " name"@, cursor, sel),
        prop(p + ".type"@, a + " type"@, cursor, sel),
        prop(p + ".initial_value"@, a + " init"@, cursor, sel),
        act(p + ".delete"@, "Delete "@ + a, cursor, sel),
        prop(p + ".visibility.public"@, a + " Public"@, cursor, sel),
        prop(p + ".visibility.protected"@, a + " Protected"@, cursor, sel),
        prop(p + ".visibility.private"@, a + " Private"@, cursor, sel),
        prop(p + ".visibility.implementation"@, a + " Implementation"@, cursor, sel),
        prop(p + ".static"@, a + " Static"@, cursor, sel),
    ]
}

/// The rows of the first `n` attributes.
pub open spec fn attribute_rows(n: nat, cursor: Option<Seq<char>>, sel: UmlId) -> Seq<UiTargetView>
    decreases n,
{
    if n == 0 {
        Seq::empty()
    } else {
        attribute_rows((n - 1) as nat, cursor, sel) + attribute_row(n - 1, cursor, sel)
    }
}

/// The eight targets of parameter `j` of operation `i`.
pub open spec fn parameter_row(i: int, j: int, cursor: Option<Seq<char>>, sel: UmlId) -> Seq<UiTargetView> {
    let p = "property.classifier.operation."@ + decimal(i as nat) + ".parameter."@ + decimal(j as nat);
    let q = "Op "@ + decimal(i as nat) + " Param "@ + decimal(j as nat);
    seq![
        prop(p + ".name"@, q + " name"@, cursor, sel),
        prop(p + ".type"@, q + " type"@, cursor, sel),
        prop(p + ".default_value"@, q + " default"@, cursor, sel),
        act(p + ".delete"@, "Delete "@ + q, cursor, sel),
        prop(p + ".direction.in"@, q + " in"@, cursor, sel),
        prop(p + ".direction.out"@, q + " out"@, cursor, sel),
        prop(p + ".direction.inout"@, q + " inout"@, cursor, sel),
        prop(p + ".direction.return"@, q + " return"@, cursor, sel),
    ]
}

/// The rows of the first `n` parameters of operation `i`.
pub open spec fn parameter_rows(i: int, n: nat, cursor: Option<Seq<char>>, sel: UmlId) -> Seq<UiTargetView>
    decreases n,
{
    if n == 0 {
        Seq::empty()
    } else {
        parameter_rows(i, (n - 1) as nat, cursor, sel) + parameter_row(i, n - 1, cursor, sel)
    }
}

/// The targets of operation `i`, which has `np` parameters.
pub open spec fn operation_row(i: int, np: nat, cursor: Option<Seq<char>>, sel: UmlId) -> Seq<UiTargetView> {
    operation_head(i, cursor, sel) + parameter_rows(i, np, cursor, sel)
}

/// The targets of operation `i` itself, before those of its parameters.
pub open spec fn operation_head(i: int, cursor: Option<Seq<char>>, sel: UmlId) -> Seq<UiTargetView> {
    let k = decimal(i as nat);
    let p = "property.classifier.operation."@ + k;
    let o = "Op "@ + k;
    seq![
        prop(p + ".name"@, o + " name"@, cursor, sel),
        prop(p + ".return_type"@, o + " return type"@, cursor, sel),
        act(p + ".delete"@, "Delete "@ + o, cursor, sel),
        prop(p + ".visibility.public"@, o + " public"@, cursor, sel),
        prop(p + ".visibility.protected"@, o + " protected"@, cursor, sel),
        prop(p + ".visibility.private"@, o + " private"@, cursor, sel),
        prop(p + ".visibility.implementation"@, o + " implementation"@, cursor, sel),
        prop(p + ".static"@, o + " Static"@, cursor, sel),
        prop(p + ".abstract"@, o + " Abstract"@, cursor, sel),
        prop(p + ".virtual"@, o + " Virtual"@, cursor, sel),
        act(p + ".parameter.add"@, "Add Param to "@ + o, cursor, sel),
    ]
}

/// The rows of the operations, in order.
pub open spec fn operation_rows(ops: Seq<DraftOperationView>, cursor: Option<Seq<char>>, sel: UmlId) -> Seq<UiTargetView>
    decreases ops.len(),
{
    if ops.len() == 0 {
        Seq::empty()
    } else {
        operation_rows(ops.drop_last(), cursor, sel) + operation_row(
            ops.len() - 1,
            ops.last().parameters.len(),
            cursor,
            sel,
        )
    }
}

/// The targets of the classifier draft, when it edits the selected element.
pub open spec fn draft_targets(s: SessionView, cursor: Option<Seq<char>>, sel: UmlId) -> Seq<UiTargetView> {
    match s.classifier_draft {
        Some((owner, d)) => if owner == sel {
            seq![
                act("property.classifier.apply"@, "Apply Classifier"@, cursor, sel),
                act("property.classifier.revert"@, "Revert Classifier"@, cursor, sel),
                act("property.classifier.attribute.add"@, "Add Attribute"@, cursor, sel),
                act("property.classifier.operation.add"@, "Add Operation"@, cursor, sel),
            ] + attribute_rows(d.attributes.len(), cursor, sel) + operation_rows(d.operations, cursor, sel)
        } else {
            Seq::empty()
        },
        None => Seq::empty(),
    }
}

/// The inspector targets of a selected element that is no relationship.
pub open spec fn element_property_targets(
    s: SessionView,
    e: ModelElementView,
    cursor: Option<Seq<char>>,
    sel: UmlId,
) -> Seq<UiTargetView> {
    seq![
        prop("property.name"@, "Name"@, cursor, sel),
        prop("property.documentation"@, "Documentation"@, cursor, sel),
        prop("property.visibility.public"@, "public"@, cursor, sel),
        prop("property.visibility.protected"@, "protected"@, cursor, sel),
        prop("property.visibility.private"@, "private"@, cursor, sel),
        prop("property.visibility.implementation"@, "implementation"@, cursor, sel),
    ] + if e.classifier() is Some {
        seq![
            prop("property.abstract"@, "Abstract"@, cursor, sel),
            prop("property.static"@, "Static"@, cursor, sel),
        ] + draft_targets(s, cursor, sel)
    } else {
        Seq::empty()
    }
}

/// The relationship kinds, in inspector order.
pub open spec fn listed_kinds() -> Seq<AssociationType> {
    seq![
        AssociationType::Association,
        AssociationType::Generalization,
        AssociationType::Realization,
        AssociationType::Aggregation,
        AssociationType::Composition,
        AssociationType::Dependency,
    ]
}

/// The key of a relationship kind in its target id.
pub open spec fn kind_key(k: AssociationType) -> Seq<char> {
    match k {
        AssociationType::Association => "association"@,
        AssociationType::Generalization => "generalization"@,
        AssociationType::Realization => "realization"@,
        AssociationType::Aggregation => "aggregation"@,
        AssociationType::Composition => "composition"@,
        _ => "dependency"@,
    }
}

/// The label of a relationship kind in the inspector.
pub open spec fn kind_title(k: AssociationType) -> Seq<char> {
    match k {
        AssociationType::Association => "Association"@,
        AssociationType::Generalization => "Generalization"@,
        AssociationType::Realization => "Realization"@,
        AssociationType::Aggregation => "Aggregation"@,
        AssociationType::Composition => "Composition"@,
        _ => "Dependency"@,
    }
}

/// Whether the relationship draft has the kind.
pub open spec fn draft_has_kind(s: SessionView, k: AssociationType) -> bool {
    s.relationship_draft matches Some((_, d)) && d.kind == k
}

/// The target that sets a relationship kind: enabled when the active
/// diagram allows the kind or the draft already has it.
pub open spec fn kind_target(s: SessionView, k: AssociationType, cursor: Option<Seq<char>>, sel: UmlId) -> UiTargetView {
    target(
        "property.relationship.kind."@ + kind_key(k),
        "property"@,
        kind_title(k),
        kind_allowed(s, k) || draft_has_kind(s, k),
        cursor,
        Some(sel),
        None,
    )
}

/// The inspector targets of a selected relationship.
pub open spec fn relationship_property_targets(s: SessionView, cursor: Option<Seq<char>>, sel: UmlId) -> Seq<
    UiTargetView,
> {
    seq![
        prop("property.relationship.name"@, "Name"@, cursor, sel),
        prop("property.relationship.documentation"@, "Documentation"@, cursor, sel),
        prop("property.relationship.source_role"@, "Source role"@, cursor, sel),
        prop("property.relationship.source_multiplicity"@, "Source multiplicity"@, cursor, sel),
        prop("property.relationship.target_role"@, "Target role"@, cursor, sel),
        prop("property.relationship.target_multiplicity"@, "Target multiplicity"@, cursor, sel),
    ] + Seq::new(6, |i: int| kind_target(s, listed_kinds()[i], cursor, sel)) + seq![
        prop("property.relationship.source_navigable"@, "Source navigable"@, cursor, sel),
        prop("property.relationship.target_navigable"@, "Target navigable"@, cursor, sel),
        prop("property.relationship.apply"@, "Apply"@, cursor, sel),
        prop("property.relationship.revert"@, "Revert"@, cursor, sel),
    ]
}

/// The inspector targets of the selected element, when it is in the model.
pub open spec fn property_targets(s: SessionView, cursor: Option<Seq<char>>) -> Seq<UiTargetView> {
    match s.selected {
        Some(sel) => if s.model.elements.contains_key(sel) {
            if s.model.elements[sel] is Relationship {
                relationship_property_targets(s, cursor, sel)
            } else {
                element_property_targets(s, s.model.elements[sel], cursor, sel)
            }
        } else {
            Seq::empty()
        },
        None => Seq::empty(),
    }
}

/// Every target of the editor in the state, in order; `ids` are the
/// model's element ids in storage order and `cursor` the client's current
/// selection.
pub open spec fn snapshot_targets(s: SessionView, ids: Seq<UmlId>, cursor: Option<Seq<char>>) -> Seq<UiTargetView> {
    head_targets(s, cursor) + tool_targets(s, cursor) + creation_targets(s, cursor) + diagram_targets(
        s.model.diagrams,
        cursor,
    ) + viewport_targets(s, cursor) + canvas_targets(s, cursor) + element_targets(s, ids, cursor)
        + property_targets(s, cursor)
}

} // verus!
