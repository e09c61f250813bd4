//! Building the target list of the automation interface from the session.
use crate::diagram::{Diagram, DiagramKind};
use crate::editor::ToolMode;
use crate::elements::{ModelElement, Relationship};
use crate::id::{DiagramId, UmlId};
use crate::repository::UmlModel;
use crate::session::EditorSession;
use crate::targets::{
    act, active_view, active_view_id, attribute_row, attribute_rows, canvas_targets,
    creation_targets, cursor_text, diagram_targets, draft_targets, edge_targets,
    element_property_targets, element_targets, head_targets, kind_key, kind_target, kind_title,
    listed_kinds, listed_tools, name_or_id, new_diagram_label, node_targets, operation_head,
    operation_row, operation_rows, parameter_row, parameter_rows, plain, prop, property_targets,
    relationship_label, relationship_property_targets, snapshot_targets, target, targets_view,
    tool_key, tool_targets, viewport_targets, UiTarget,
};
use crate::text::{owned, string_eq};
use crate::drafts::DraftOperation;
use crate::naming::decimal_text;
use crate::types::AssociationType;
use vstd::prelude::*;

verus! {

/// `a` followed by `b`.
pub fn cat(a: &str, b: &str) -> (r: String)
    ensures
        r@ == a@ + b@,
{
    let mut s = owned(a);
    s.append(b);
    s
}

/// Whether the cursor holds the id.
fn cursor_holds(cursor: Option<&str>, id: &String) -> (b: bool)
    ensures
        b == (cursor_text(cursor) == Some(id@)),
{
    match cursor {
        Some(c) => string_eq(&owned(c), id),
        None => false,
    }
}

/// Append a target, selected when the cursor holds its id.
fn push_target(
    v: &mut Vec<UiTarget>,
    id: String,
    kind: &str,
    label: String,
    enabled: bool,
    cursor: Option<&str>,
    element_id: Option<UmlId>,
    diagram_id: Option<DiagramId>,
)
    ensures
        targets_view(final(v)@) == targets_view(old(v)@).push(
            target(id@, kind@, label@, enabled, cursor_text(cursor), element_id, diagram_id),
        ),
{
    let selected = cursor_holds(cursor, &id);
    v.push(UiTarget { id, kind: owned(kind), label, enabled, selected, element_id, diagram_id });
    proof {
        assert(targets_view(v@) =~= targets_view(old(v)@).push(
            target(id@, kind@, label@, enabled, cursor_text(cursor), element_id, diagram_id),
        ));
    }
}

/// Append a target that concerns no element and no diagram.
fn push_plain(v: &mut Vec<UiTarget>, id: &str, kind: &str, label: &str, enabled: bool, cursor: Option<&str>)
    ensures
        targets_view(final(v)@) == targets_view(old(v)@).push(plain(id@, kind@, label@, enabled, cursor_text(cursor))),
{
    push_target(v, owned(id), kind, owned(label), enabled, cursor, None, None);
}

/// Append an enabled inspector property of the selected element.
fn push_prop(v: &mut Vec<UiTarget>, id: String, label: String, cursor: Option<&str>, sel: UmlId)
    ensures
        targets_view(final(v)@) == targets_view(old(v)@).push(prop(id@, label@, cursor_text(cursor), sel)),
{
    push_target(v, id, "property", label, true, cursor, Some(sel), None);
}

/// Append an enabled inspector action on the selected element.
fn push_act(v: &mut Vec<UiTarget>, id: String, label: String, cursor: Option<&str>, sel: UmlId)
    ensures
        targets_view(final(v)@) == targets_view(old(v)@).push(act(id@, label@, cursor_text(cursor), sel)),
{
    push_target(v, id, "action", label, true, cursor, Some(sel), None);
}

/// The tool at position `i` of the palette.
fn listed_tool(i: usize) -> (t: ToolMode)
    requires
        i < 17,
    ensures
        t == listed_tools()[i as int],
{
    match i {
        0 => ToolMode::Select,
        1 => ToolMode::CreateClass,
        2 => ToolMode::CreateInterface,
        3 => ToolMode::CreateEnum,
        4 => ToolMode::CreateDatatype,
        5 => ToolMode::CreatePackage,
        6 => ToolMode::CreateActor,
        7 => ToolMode::CreateUseCase,
        8 => ToolMode::CreateComponent,
        9 => ToolMode::CreateNode,
        10 => ToolMode::CreateArtifact,
        11 => ToolMode::CreateGeneralization,
        12 => ToolMode::CreateRealization,
        13 => ToolMode::CreateAssociation,
        14 => ToolMode::CreateAggregation,
        15 => ToolMode::CreateComposition,
        _ => ToolMode::CreateDependency,
    }
}

/// The key of a tool in its target id.
pub fn tool_key_text(t: ToolMode) -> (s: &'static str)
    ensures
        s@ == tool_key(t),
{
    match t {
        ToolMode::Select => "select",
        ToolMode::CreateClass => "class",
        ToolMode::CreateInterface => "interface",
        ToolMode::CreateEnum => "enum",
        ToolMode::CreateDatatype => "datatype",
        ToolMode::CreatePackage => "package",
        ToolMode::CreateActor => "actor",
        ToolMode::CreateUseCase => "use_case",
        ToolMode::CreateComponent => "component",
        ToolMode::CreateNode => "node",
        ToolMode::CreateArtifact => "artifact",
        ToolMode::CreateGeneralization => "generalization",
        ToolMode::CreateRealization => "realization",
        ToolMode::CreateAssociation => "association",
        ToolMode::CreateAggregation => "aggregation",
        ToolMode::CreateComposition => "composition",
        ToolMode::CreateDependency => "dependency",
    }
}

/// The label of the action that creates a diagram of a kind.
fn new_diagram_label_text(k: DiagramKind) -> (s: String)
    ensures
        s@ == new_diagram_label(k),
{
    let mut s = owned("New ");
    s.append(k.as_str());
    s.append(" Diagram");
    s
}

/// The name of the element with the id, or the id's text when there is none.
pub fn name_or_id_text(model: &UmlModel, id: UmlId) -> (s: String)
    requires
        model.wf(),
    ensures
        s@ == name_or_id(model@, id),
{
    match model.get(id) {
        Some(e) => owned(e.name()),
        None => id.to_text(),
    }
}

/// `<kind>: <source> → <target>` for a relationship.
pub fn relationship_label_text(model: &UmlModel, r: &Relationship) -> (s: String)
    requires
        model.wf(),
    ensures
        s@ == relationship_label(model@, r@),
{
    let mut s = owned(r.kind.as_str());
    s.append(": ");
    s.append(name_or_id_text(model, r.source_id).as_str());
    s.append(" → ");
    s.append(name_or_id_text(model, r.target_id).as_str());
    s
}

impl EditorSession {
    /// The history, file and application actions.
    fn push_head_targets(&self, v: &mut Vec<UiTarget>, cursor: Option<&str>)
        requires
            self.wf(),
        ensures
            targets_view(final(v)@) == targets_view(old(v)@) + head_targets(self@, cursor_text(cursor)),
    {
        let undo = self.history().can_undo();
        let redo = self.history().can_redo();
        let save = self.is_project_open();
        push_plain(v, "history.undo", "action", "Undo", undo, cursor);
        push_plain(v, "history.redo", "action", "Redo", redo, cursor);
        push_plain(v, "file.new", "action", "New Project…", true, cursor);
        push_plain(v, "file.save", "action", "Save", save, cursor);
        push_plain(v, "app.quit", "action", "Quit", true, cursor);
        assert(targets_view(v@) =~= targets_view(old(v)@) + head_targets(self@, cursor_text(cursor)));
    }

    /// The tools, in palette order.
    fn push_tool_targets(&self, v: &mut Vec<UiTarget>, cursor: Option<&str>)
        requires
            self.wf(),
        ensures
            targets_view(final(v)@) == targets_view(old(v)@) + tool_targets(self@, cursor_text(cursor)),
    {
        let ghost before = targets_view(v@);
        let ghost all = tool_targets(self@, cursor_text(cursor));
        let mut i: usize = 0;
        while i < 17
            invariant
                self.wf(),
                i <= 17,
                all == tool_targets(self@, cursor_text(cursor)),
                targets_view(v@) == before + all.take(i as int),
            decreases 17 - i,
        {
            let t = listed_tool(i);
            let id = cat("tool.", tool_key_text(t));
            let enabled = self.is_tool_available(t);
            push_target(v, id, "tool", owned(t.label()), enabled, cursor, None, None);
            assert(all.take(i + 1) =~= all.take(i as int).push(all[i as int]));
            i += 1;
        }
        assert(all.take(17) =~= all);
    }

    /// The diagram creation actions.
    fn push_creation_targets(&self, v: &mut Vec<UiTarget>, cursor: Option<&str>)
        requires
            self.wf(),
        ensures
            targets_view(final(v)@) == targets_view(old(v)@) + creation_targets(self@, cursor_text(cursor)),
    {
        let on = self.is_project_open();
        push_plain(v, "diagram.new", "action", "New Diagram…", on, cursor);
        push_target(
            v,
            owned("diagram.new.class"),
            "diagram",
            new_diagram_label_text(DiagramKind::Class),
            on,
            cursor,
            None,
            None,
        );
        push_target(
            v,
            owned("diagram.new.use_case"),
            "diagram",
            new_diagram_label_text(DiagramKind::UseCase),
            on,
            cursor,
            None,
            None,
        );
        push_target(
            v,
            owned("diagram.new.component"),
            "diagram",
            new_diagram_label_text(DiagramKind::Component),
            on,
            cursor,
            None,
            None,
        );
        push_target(
            v,
            owned("diagram.new.deployment"),
            "diagram",
            new_diagram_label_text(DiagramKind::Deployment),
            on,
            cursor,
            None,
            None,
        );
        push_plain(v, "diagram.new_class", "diagram", "New Class Diagram", on, cursor);
        assert(targets_view(v@) =~= targets_view(old(v)@) + creation_targets(self@, cursor_text(cursor)));
    }

    /// One target per diagram of the model.
    fn push_diagram_targets(&self, v: &mut Vec<UiTarget>, cursor: Option<&str>)
        requires
            self.wf(),
        ensures
            targets_view(final(v)@) == targets_view(old(v)@) + diagram_targets(self@.model.diagrams, cursor_text(cursor)),
    {
        let ghost before = targets_view(v@);
        let ghost all = diagram_targets(self@.model.diagrams, cursor_text(cursor));
        let n = self.model().diagrams().len();
        let mut i: usize = 0;
        while i < n
            invariant
                self.wf(),
                i <= n,
                n == self@.model.diagrams.len(),
                all == diagram_targets(self@.model.diagrams, cursor_text(cursor)),
                targets_view(v@) == before + all.take(i as int),
            decreases n - i,
        {
            let d = self.model().diagram_at(i).unwrap();
            let id = cat("diagram:", d.id.to_text().as_str());
            push_target(v, id, "diagram", d.name.clone(), true, cursor, None, Some(d.id));
            assert(all.take(i + 1) =~= all.take(i as int).push(all[i as int]));
            i += 1;
        }
        assert(all.take(n as int) =~= all);
    }

    /// The active diagram, when the active position holds one.
    pub(crate) fn active_view_diagram(&self) -> (r: Option<&Diagram>)
        requires
            self.wf(),
        ensures
            match r {
                Some(d) => active_view(self@) == Some(d@),
                None => active_view(self@) is None,
            },
    {
        match self.active_diagram() {
            Some(i) => self.model().diagram_at(i),
            None => None,
        }
    }

    /// The canvas and viewport actions.
    fn push_viewport_targets(&self, v: &mut Vec<UiTarget>, cursor: Option<&str>)
        requires
            self.wf(),
        ensures
            targets_view(final(v)@) == targets_view(old(v)@) + viewport_targets(self@, cursor_text(cursor)),
    {
        let (on, d): (bool, Option<DiagramId>) = match self.active_view_diagram() {
            Some(x) => (true, Some(x.id)),
            None => (false, None),
        };
        push_target(v, owned("canvas"), "canvas", owned("Canvas"), on, cursor, None, d);
        push_target(v, owned("viewport.zoom_in"), "action", owned("Zoom In"), on, cursor, None, d);
        push_target(v, owned("viewport.zoom_out"), "action", owned("Zoom Out"), on, cursor, None, d);
        push_target(v, owned("viewport.fit"), "action", owned("Fit Diagram"), on, cursor, None, d);
        push_target(v, owned("viewport.reset"), "action", owned("Reset View"), on, cursor, None, d);
        assert(targets_view(v@) =~= targets_view(old(v)@) + viewport_targets(self@, cursor_text(cursor)));
    }
}

/// The relationship kind at position `i` of the inspector.
fn listed_kind(i: usize) -> (k: AssociationType)
    requires
        i < 6,
    ensures
        k == listed_kinds()[i as int],
{
    match i {
        0 => AssociationType::Association,
        1 => AssociationType::Generalization,
        2 => AssociationType::Realization,
        3 => AssociationType::Aggregation,
        4 => AssociationType::Composition,
        _ => AssociationType::Dependency,
    }
}

/// The key of a relationship kind in its target id.
fn kind_key_text(k: AssociationType) -> (s: &'static str)
    ensures
        s@ == kind_key(k),
{
    match k {
        AssociationType::Association => "association",
        AssociationType::Generalization => "generalization",
        AssociationType::Realization => "realization",
        AssociationType::Aggregation => "aggregation",
        AssociationType::Composition => "composition",
        _ => "dependency",
    }
}

/// The inspector label of a relationship kind.
fn kind_title_text(k: AssociationType) -> (s: &'static str)
    ensures
        s@ == kind_title(k),
{
    match k {
        AssociationType::Association => "Association",
        AssociationType::Generalization => "Generalization",
        AssociationType::Realization => "Realization",
        AssociationType::Aggregation => "Aggregation",
        AssociationType::Composition => "Composition",
        _ => "Dependency",
    }
}

/// The nine targets of attribute `i` of the classifier draft.
fn push_attribute_row(v: &mut Vec<UiTarget>, i: usize, cursor: Option<&str>, sel: UmlId)
    ensures
        targets_view(final(v)@) == targets_view(old(v)@) + attribute_row(i as int, cursor_text(cursor), sel),
{
    let k = decimal_text(i as u64);
    let p = cat("property.classifier.attribute.", k.as_str());
    let a = cat("Attr ", k.as_str());
    push_prop(v, cat(p.as_str(), ".name"), cat(a.as_str(), " name"), cursor, sel);
    push_prop(v, cat(p.as_str(), ".type"), cat(a.as_str(), " type"), cursor, sel);
    push_prop(v, cat(p.as_str(), ".initial_value"), cat(a.as_str(), " init"), cursor, sel);
    push_act(v, cat(p.as_str(), ".delete"), cat("Delete ", a.as_str()), cursor, sel);
    push_prop(v, cat(p.as_str(), ".visibility.public"), cat(a.as_str(), " Public"), cursor, sel);
    push_prop(v, cat(p.as_str(), ".visibility.protected"), cat(a.as_str(), " Protected"), cursor, sel);
    push_prop(v, cat(p.as_str(), ".visibility.private"), cat(a.as_str(), " Private"), cursor, sel);
    push_prop(v, cat(p.as_str(), ".visibility.implementation"), cat(a.as_str(), " Implementation"), cursor, sel);
    push_prop(v, cat(p.as_str(), ".static"), cat(a.as_str(), " Static"), cursor, sel);
    assert(targets_view(v@) =~= targets_view(old(v)@) + attribute_row(i as int, cursor_text(cursor), sel));
}

/// The rows of the first `n` attributes.
fn push_attribute_rows(v: &mut Vec<UiTarget>, n: usize, cursor: Option<&str>, sel: UmlId)
    ensures
        targets_view(final(v)@) == targets_view(old(v)@) + attribute_rows(n as nat, cursor_text(cursor), sel),
{
    let ghost before = targets_view(v@);
    let mut i: usize = 0;
    while i < n
        invariant
            i <= n,
            targets_view(v@) == before + attribute_rows(i as nat, cursor_text(cursor), sel),
        decreases n - i,
    {
        push_attribute_row(v, i, cursor, sel);
        assert(attribute_rows((i + 1) as nat, cursor_text(cursor), sel) == attribute_rows(i as nat, cursor_text(cursor), sel)
            + attribute_row(i as int, cursor_text(cursor), sel));
        i += 1;
    }
}

/// The eight targets of parameter `j` of operation `i`.
fn push_parameter_row(v: &mut Vec<UiTarget>, i: usize, j: usize, cursor: Option<&str>, sel: UmlId)
    ensures
        targets_view(final(v)@) == targets_view(old(v)@) + parameter_row(i as int, j as int, cursor_text(cursor), sel),
{
    let k = decimal_text(i as u64);
    let m = decimal_text(j as u64);
    let mut p = cat("property.classifier.operation.", k.as_str());
    p.append(".parameter.");
    p.append(m.as_str());
    let mut q = cat("Op ", k.as_str());
    q.append(" Param ");
    q.append(m.as_str());
    push_prop(v, cat(p.as_str(), ".name"), cat(q.as_str(), " name"), cursor, sel);
    push_prop(v, cat(p.as_str(), ".type"), cat(q.as_str(), " type"), cursor, sel);
    push_prop(v, cat(p.as_str(), ".default_value"), cat(q.as_str(), " default"), cursor, sel);
    push_act(v, cat(p.as_str(), ".delete"), cat("Delete ", q.as_str()), cursor, sel);
    push_prop(v, cat(p.as_str(), ".direction.in"), cat(q.as_str(), " in"), cursor, sel);
    push_prop(v, cat(p.as_str(), ".direction.out"), cat(q.as_str(), " out"), cursor, sel);
    push_prop(v, cat(p.as_str(), ".direction.inout"), cat(q.as_str(), " inout"), cursor, sel);
    push_prop(v, cat(p.as_str(), ".direction.return"), cat(q.as_str(), " return"), cursor, sel);
    assert(targets_view(v@) =~= targets_view(old(v)@) + parameter_row(i as int, j as int, cursor_text(cursor), sel));
}

/// The targets of operation `i`, which has `np` parameters.
fn push_operation_row(v: &mut Vec<UiTarget>, i: usize, np: usize, cursor: Option<&str>, sel: UmlId)
    ensures
        targets_view(final(v)@) == targets_view(old(v)@) + operation_row(i as int, np as nat, cursor_text(cursor), sel),
{
    let ghost before = targets_view(v@);
    let k = decimal_text(i as u64);
    let p = cat("property.classifier.operation.", k.as_str());
    let o = cat("Op ", k.as_str());
    push_prop(v, cat(p.as_str(), ".name"), cat(o.as_str(), " name"), cursor, sel);
    push_prop(v, cat(p.as_str(), ".return_type"), cat(o.as_str(), " return type"), cursor, sel);
    push_act(v, cat(p.as_str(), ".delete"), cat("Delete ", o.as_str()), cursor, sel);
    push_prop(v, cat(p.as_str(), ".visibility.public"), cat(o.as_str(), " public"), cursor, sel);
    push_prop(v, cat(p.as_str(), ".visibility.protected"), cat(o.as_str(), " protected"), cursor, sel);
    push_prop(v, cat(p.as_str(), ".visibility.private"), cat(o.as_str(), " private"), cursor, sel);
    push_prop(v, cat(p.as_str(), ".visibility.implementation"), cat(o.as_str(), " implementation"), cursor, sel);
    push_prop(v, cat(p.as_str(), ".static"), cat(o.as_str(), " Static"), cursor, sel);
    push_prop(v, cat(p.as_str(), ".abstract"), cat(o.as_str(), " Abstract"), cursor, sel);
    push_prop(v, cat(p.as_str(), ".virtual"), cat(o.as_str(), " Virtual"), cursor, sel);
    push_act(v, cat(p.as_str(), ".parameter.add"), cat("Add Param to ", o.as_str()), cursor, sel);
    let ghost head = before + operation_head(i as int, cursor_text(cursor), sel);
    assert(targets_view(v@) =~= head);
    let mut j: usize = 0;
    while j < np
        invariant
            j <= np,
            targets_view(v@) == head + parameter_rows(i as int, j as nat, cursor_text(cursor), sel),
        decreases np - j,
    {
        push_parameter_row(v, i, j, cursor, sel);
        assert(parameter_rows(i as int, (j + 1) as nat, cursor_text(cursor), sel) == parameter_rows(
            i as int,
            j as nat,
            cursor_text(cursor),
            sel,
        ) + parameter_row(i as int, j as int, cursor_text(cursor), sel));
        j += 1;
    }
    assert(targets_view(v@) =~= before + operation_row(i as int, np as nat, cursor_text(cursor), sel));
}

/// The rows of the draft operations, in order.
fn push_operation_rows(v: &mut Vec<UiTarget>, ops: &Vec<DraftOperation>, cursor: Option<&str>, sel: UmlId)
    ensures
        targets_view(final(v)@) == targets_view(old(v)@) + operation_rows(
            ops@.map_values(|o: DraftOperation| o@),
            cursor_text(cursor),
            sel,
        ),
{
    let ghost before = targets_view(v@);
    let ghost all = ops@.map_values(|o: DraftOperation| o@);
    let mut i: usize = 0;
    while i < ops.len()
        invariant
            i <= ops@.len(),
            all == ops@.map_values(|o: DraftOperation| o@),
            targets_view(v@) == before + operation_rows(all.take(i as int), cursor_text(cursor), sel),
        decreases ops@.len() - i,
    {
        let np = ops[i].parameters.len();
        push_operation_row(v, i, np, cursor, sel);
        proof {
            let t = all.take(i + 1);
            assert(t.drop_last() =~= all.take(i as int));
            assert(t.last() == all[i as int]);
            assert(all[i as int].parameters.len() == np);
        }
        i += 1;
    }
    assert(all.take(ops@.len() as int) =~= all);
}

impl EditorSession {
    /// The visible nodes of a diagram.
    fn push_node_targets(&self, v: &mut Vec<UiTarget>, d: &Diagram, cursor: Option<&str>)
        requires
            self.wf(),
        ensures
            targets_view(final(v)@) == targets_view(old(v)@) + node_targets(
                self@.model,
                d@.id,
                d@.nodes,
                cursor_text(cursor),
            ),
    {
        let ghost before = targets_view(v@);
        let ghost ns = d@.nodes;
        let n = d.node_count();
        let mut i: usize = 0;
        while i < n
            invariant
                self.wf(),
                i <= n,
                n == ns.len(),
                ns == d@.nodes,
                targets_view(v@) == before + node_targets(self@.model, d@.id, ns.take(i as int), cursor_text(cursor)),
            decreases n - i,
        {
            let node = d.node_at(i);
            if node.visible {
                let id = cat("node:", node.model_element_id.to_text().as_str());
                let label = name_or_id_text(self.model(), node.model_element_id);
                push_target(v, id, "node", label, true, cursor, Some(node.model_element_id), Some(d.id));
            }
            proof {
                let t = ns.take(i + 1);
                assert(t.drop_last() =~= ns.take(i as int));
                assert(t.last() == ns[i as int]);
            }
            i += 1;
        }
        assert(ns.take(n as int) =~= ns);
    }

    /// The edges of a diagram whose relationship is in the model.
    fn push_edge_targets(&self, v: &mut Vec<UiTarget>, d: &Diagram, cursor: Option<&str>)
        requires
            self.wf(),
        ensures
            targets_view(final(v)@) == targets_view(old(v)@) + edge_targets(
                self@.model,
                d@.id,
                d@.edges,
                cursor_text(cursor),
            ),
    {
        let ghost before = targets_view(v@);
        let ghost es = d@.edges;
        let n = d.edge_count();
        let mut i: usize = 0;
        while i < n
            invariant
                self.wf(),
                i <= n,
                n == es.len(),
                es == d@.edges,
                targets_view(v@) == before + edge_targets(self@.model, d@.id, es.take(i as int), cursor_text(cursor)),
            decreases n - i,
        {
            let rid = d.edge_relationship_at(i);
            match self.model().get(rid) {
                Some(ModelElement::Relationship(r)) => {
                    let id = cat("edge:", r.base.id.to_text().as_str());
                    let label = relationship_label_text(self.model(), r);
                    push_target(v, id, "edge", label, true, cursor, Some(r.base.id), Some(d.id));
                },
                _ => {},
            }
            proof {
                let t = es.take(i + 1);
                assert(t.drop_last() =~= es.take(i as int));
                assert(t.last() == es[i as int]);
            }
            i += 1;
        }
        assert(es.take(n as int) =~= es);
    }

    /// The nodes and edges of the active diagram.
    fn push_canvas_targets(&self, v: &mut Vec<UiTarget>, cursor: Option<&str>)
        requires
            self.wf(),
        ensures
            targets_view(final(v)@) == targets_view(old(v)@) + canvas_targets(self@, cursor_text(cursor)),
    {
        match self.active_view_diagram() {
            Some(d) => {
                let ghost before = targets_view(v@);
                self.push_node_targets(v, d, cursor);
                self.push_edge_targets(v, d, cursor);
                assert(targets_view(v@) =~= before + canvas_targets(self@, cursor_text(cursor)));
            },
            None => {
                assert(targets_view(v@) =~= targets_view(v@) + canvas_targets(self@, cursor_text(cursor)));
            },
        }
    }
}

impl EditorSession {
    /// The id of the active diagram, when there is one.
    fn active_view_id_value(&self) -> (r: Option<DiagramId>)
        requires
            self.wf(),
        ensures
            r == active_view_id(self@),
    {
        match self.active_view_diagram() {
            Some(d) => Some(d.id),
            None => None,
        }
    }

    /// The two targets of each element of the model, in storage order.
    fn push_element_targets(&self, v: &mut Vec<UiTarget>, cursor: Option<&str>)
        requires
            self.wf(),
        ensures
            targets_view(final(v)@) == targets_view(old(v)@) + element_targets(
                self@,
                self.element_order(),
                cursor_text(cursor),
            ),
    {
        let ghost before = targets_view(v@);
        let ghost ids = self.element_order();
        let model = self.model();
        let es = model.elements();
        let active = self.active_view_id_value();
        let n = es.len();
        let mut i: usize = 0;
        while i < n
            invariant
                self.wf(),
                model.wf(),
                model@ == self@.model,
                i <= n,
                n == es@.len(),
                n == ids.len(),
                ids == self.element_order(),
                active == active_view_id(self@),
                forall|k: int| 0 <= k < es@.len() ==> #[trigger] es@[k]@.id() == ids[k],
                forall|k: int|
                    0 <= k < es@.len() ==> model@.elements.contains_key(#[trigger] es@[k]@.id())
                        && model@.elements[es@[k]@.id()] == es@[k]@,
                targets_view(v@) == before + element_targets(self@, ids.take(i as int), cursor_text(cursor)),
            decreases n - i,
        {
            let e = &es[i];
            let id = e.id();
            assert(es@[i as int]@.id() == ids[i as int]);
            let label = match e {
                ModelElement::Relationship(r) => relationship_label_text(model, r),
                _ => {
                    let mut l = owned(e.object_type().as_str());
                    l.append(": ");
                    l.append(e.name());
                    l
                },
            };
            let text = id.to_text();
            push_target(v, cat("element:", text.as_str()), "element", label, true, cursor, Some(id), None);
            let addable = match self.add_to_diagram_state(id) {
                Ok(()) => true,
                Err(_) => false,
            };
            push_target(
                v,
                cat("element.add_to_diagram:", text.as_str()),
                "action",
                owned("Add to active diagram"),
                addable,
                cursor,
                Some(id),
                active,
            );
            proof {
                let t = ids.take(i + 1);
                assert(t.drop_last() =~= ids.take(i as int));
                assert(t.last() == ids[i as int]);
                assert(targets_view(v@) =~= before + element_targets(self@, t, cursor_text(cursor)));
            }
            i += 1;
        }
        assert(ids.take(n as int) =~= ids);
    }

    /// The targets of the classifier draft, when it edits the selection.
    fn push_draft_targets(&self, v: &mut Vec<UiTarget>, cursor: Option<&str>, sel: UmlId)
        requires
            self.wf(),
        ensures
            targets_view(final(v)@) == targets_view(old(v)@) + draft_targets(self@, cursor_text(cursor), sel),
    {
        let ghost before = targets_view(v@);
        match self.classifier_draft() {
            Some(p) => {
                if p.0 == sel {
                    push_act(v, owned("property.classifier.apply"), owned("Apply Classifier"), cursor, sel);
                    push_act(v, owned("property.classifier.revert"), owned("Revert Classifier"), cursor, sel);
                    push_act(v, owned("property.classifier.attribute.add"), owned("Add Attribute"), cursor, sel);
                    push_act(v, owned("property.classifier.operation.add"), owned("Add Operation"), cursor, sel);
                    let ghost mid = targets_view(v@);
                    push_attribute_rows(v, p.1.attributes.len(), cursor, sel);
                    push_operation_rows(v, &p.1.operations, cursor, sel);
                    assert(targets_view(v@) =~= before + draft_targets(self@, cursor_text(cursor), sel));
                } else {
                    assert(targets_view(v@) =~= before + draft_targets(self@, cursor_text(cursor), sel));
                }
            },
            None => {
                assert(targets_view(v@) =~= before + draft_targets(self@, cursor_text(cursor), sel));
            },
        }
    }

    /// The inspector targets of a selected element that is no relationship.
    fn push_element_property_targets(&self, v: &mut Vec<UiTarget>, e: &ModelElement, cursor: Option<&str>, sel: UmlId)
        requires
            self.wf(),
        ensures
            targets_view(final(v)@) == targets_view(old(v)@) + element_property_targets(
                self@,
                e@,
                cursor_text(cursor),
                sel,
            ),
    {
        let ghost before = targets_view(v@);
        push_prop(v, owned("property.name"), owned("Name"), cursor, sel);
        push_prop(v, owned("property.documentation"), owned("Documentation"), cursor, sel);
        push_prop(v, owned("property.visibility.public"), owned("public"), cursor, sel);
        push_prop(v, owned("property.visibility.protected"), owned("protected"), cursor, sel);
        push_prop(v, owned("property.visibility.private"), owned("private"), cursor, sel);
        push_prop(v, owned("property.visibility.implementation"), owned("implementation"), cursor, sel);
        if e.classifier_data().is_some() {
            push_prop(v, owned("property.abstract"), owned("Abstract"), cursor, sel);
            push_prop(v, owned("property.static"), owned("Static"), cursor, sel);
            let ghost mid = targets_view(v@);
            self.push_draft_targets(v, cursor, sel);
            assert(targets_view(v@) =~= before + element_property_targets(self@, e@, cursor_text(cursor), sel));
        } else {
            assert(targets_view(v@) =~= before + element_property_targets(self@, e@, cursor_text(cursor), sel));
        }
    }

    /// The inspector targets of a selected relationship.
    fn push_relationship_property_targets(&self, v: &mut Vec<UiTarget>, cursor: Option<&str>, sel: UmlId)
        requires
            self.wf(),
        ensures
            targets_view(final(v)@) == targets_view(old(v)@) + relationship_property_targets(
                self@,
                cursor_text(cursor),
                sel,
            ),
    {
        let ghost before = targets_view(v@);
        push_prop(v, owned("property.relationship.name"), owned("Name"), cursor, sel);
        push_prop(v, owned("property.relationship.documentation"), owned("Documentation"), cursor, sel);
        push_prop(v, owned("property.relationship.source_role"), owned("Source role"), cursor, sel);
        push_prop(v, owned("property.relationship.source_multiplicity"), owned("Source multiplicity"), cursor, sel);
        push_prop(v, owned("property.relationship.target_role"), owned("Target role"), cursor, sel);
        push_prop(v, owned("property.relationship.target_multiplicity"), owned("Target multiplicity"), cursor, sel);
        let ghost fields = targets_view(v@);
        let ghost kinds = Seq::new(6, |i: int| kind_target(self@, listed_kinds()[i], cursor_text(cursor), sel));
        let mut i: usize = 0;
        while i < 6
            invariant
                self.wf(),
                i <= 6,
                kinds == Seq::new(6, |i: int| kind_target(self@, listed_kinds()[i], cursor_text(cursor), sel)),
                targets_view(v@) == fields + kinds.take(i as int),
            decreases 6 - i,
        {
            let k = listed_kind(i);
            let drafted = match self.relationship_draft() {
                Some(p) => p.1.kind == k,
                None => false,
            };
            let enabled = self.relationship_kind_allowed(k) || drafted;
            push_target(
                v,
                cat("property.relationship.kind.", kind_key_text(k)),
                "property",
                owned(kind_title_text(k)),
                enabled,
                cursor,
                Some(sel),
                None,
            );
            assert(kinds.take(i + 1) =~= kinds.take(i as int).push(kinds[i as int]));
            i += 1;
        }
        assert(kinds.take(6) =~= kinds);
        push_prop(v, owned("property.relationship.source_navigable"), owned("Source navigable"), cursor, sel);
        push_prop(v, owned("property.relationship.target_navigable"), owned("Target navigable"), cursor, sel);
        push_prop(v, owned("property.relationship.apply"), owned("Apply"), cursor, sel);
        push_prop(v, owned("property.relationship.revert"), owned("Revert"), cursor, sel);
        assert(targets_view(v@) =~= before + relationship_property_targets(self@, cursor_text(cursor), sel));
    }

    /// The inspector targets of the selected element.
    fn push_property_targets(&self, v: &mut Vec<UiTarget>, cursor: Option<&str>)
        requires
            self.wf(),
        ensures
            targets_view(final(v)@) == targets_view(old(v)@) + property_targets(self@, cursor_text(cursor)),
    {
        let ghost before = targets_view(v@);
        match self.selected_element_id() {
            Some(sel) => match self.model().get(sel) {
                Some(e) => {
                    match e {
                        ModelElement::Relationship(_) => self.push_relationship_property_targets(v, cursor, sel),
                        _ => self.push_element_property_targets(v, e, cursor, sel),
                    }
                },
                None => {
                    assert(targets_view(v@) =~= before + property_targets(self@, cursor_text(cursor)));
                },
            },
            None => {
                assert(targets_view(v@) =~= before + property_targets(self@, cursor_text(cursor)));
            },
        }
    }

    /// Every target the editor offers an automation client now, in order:
    /// history, file and application actions; tools; diagram creation; the
    /// diagrams; canvas and viewport; the active diagram's nodes and edges;
    /// the model's elements; the inspector of the selection. A target is
    /// selected exactly when `cursor` holds its id.
    pub fn qa_targets(&self, cursor: Option<&str>) -> (t: Vec<UiTarget>)
        requires
            self.wf(),
        ensures
            targets_view(t@) == snapshot_targets(self@, self.element_order(), cursor_text(cursor)),
    {
        let mut v: Vec<UiTarget> = Vec::new();
        assert(targets_view(v@) =~= Seq::<crate::targets::UiTargetView>::empty());
        self.push_head_targets(&mut v, cursor);
        self.push_tool_targets(&mut v, cursor);
        self.push_creation_targets(&mut v, cursor);
        self.push_diagram_targets(&mut v, cursor);
        self.push_viewport_targets(&mut v, cursor);
        self.push_canvas_targets(&mut v, cursor);
        self.push_element_targets(&mut v, cursor);
        self.push_property_targets(&mut v, cursor);
        assert(targets_view(v@) =~= snapshot_targets(self@, self.element_order(), cursor_text(cursor)));
        v
    }
}

} // verus!
