//! Reading a click's target id: the text helpers, and the decision itself.
use crate::clicks::{
    after, attribute_decision, click_decision, diagram_with_text, direction_named, first_dot, first_with_id,
    has_prefix, has_suffix, id_decision, kind_named, operation_decision, parameter_decision,
    parsed_id, parsed_index, property_decision, tool_named, unavailable,
    visibility_named, ClickAction, DraftEdit, QaError,
};
use crate::diagram::geometry::Point;
use crate::diagram::{bits_are_finite, DiagramKind};
use crate::draft_edits::OperationFlag;
use crate::editor::ToolMode;
use crate::id::{uuid_text_spec, UmlId};
use crate::naming::parse_u64;
use crate::session::EditorSession;
use crate::targets::{cursor_text, targets_view, UiTarget};
use crate::text::{owned, string_eq};
use crate::types::{AssociationType, ParameterDirection, Visibility};
use vstd::prelude::*;

verus! {

/// Whether two texts are equal.
pub fn str_is(a: &str, b: &str) -> (r: bool)
    ensures
        r == (a@ == b@),
{
    string_eq(&owned(a), &owned(b))
}

/// What follows `p` in `s`, when `s` starts with `p`.
pub fn strip_prefix_text(s: &str, p: &str) -> (r: Option<String>)
    ensures
        match r {
            Some(t) => has_prefix(s@, p@) && t@ == after(s@, p@),
            None => !has_prefix(s@, p@),
        },
{
    let n = s.unicode_len();
    let m = p.unicode_len();
    if m > n {
        return None;
    }
    let mut i: usize = 0;
    while i < m
        invariant
            n == s@.len(),
            m == p@.len(),
            m <= n,
            i <= m,
            forall|j: int| 0 <= j < i ==> s@[j] == p@[j],
        decreases m - i,
    {
        if s.get_char(i) != p.get_char(i) {
            assert(s@.take(m as int)[i as int] != p@[i as int]);
            return None;
        }
        i += 1;
    }
    assert(s@.take(m as int) =~= p@);
    let t = s.substring_char(m, n);
    assert(t@ =~= s@.skip(m as int));
    Some(owned(t))
}

/// Whether `s` ends with `p`.
pub fn ends_with_text(s: &str, p: &str) -> (r: bool)
    ensures
        r == has_suffix(s@, p@),
{
    let n = s.unicode_len();
    let m = p.unicode_len();
    if m > n {
        return false;
    }
    let t = s.substring_char(n - m, n);
    assert(t@ =~= s@.skip(n - m));
    str_is(t, p)
}

/// `first_dot` finds the first `.`.
proof fn lemma_first_dot(s: Seq<char>, k: int)
    requires
        0 <= k <= s.len(),
        forall|j: int| 0 <= j < k ==> s[j] != '.',
    ensures
        k < s.len() && s[k] == '.' ==> first_dot(s) == Some(k),
        k == s.len() ==> first_dot(s) is None,
    decreases k,
{
    if k > 0 {
        lemma_first_dot(s.drop_first(), k - 1);
    }
}

/// The position of the first `.` in `s`.
pub fn first_dot_pos(s: &str) -> (r: Option<usize>)
    ensures
        match r {
            Some(k) => first_dot(s@) == Some(k as int) && k < s@.len(),
            None => first_dot(s@) is None,
        },
{
    let n = s.unicode_len();
    let mut i: usize = 0;
    while i < n
        invariant
            n == s@.len(),
            i <= n,
            forall|j: int| 0 <= j < i ==> s@[j] != '.',
        decreases n - i,
    {
        if s.get_char(i) == '.' {
            proof {
                lemma_first_dot(s@, i as int);
            }
            return Some(i);
        }
        i += 1;
    }
    proof {
        lemma_first_dot(s@, n as int);
    }
    None
}

/// The index a text spells, as `usize::from_str` reads it.
pub fn parse_index(s: &str) -> (r: Option<usize>)
    ensures
        match r {
            Some(v) => parsed_index(s@) == Some(v as int),
            None => parsed_index(s@) is None,
        },
{
    match parse_u64(s) {
        Some(v) => if v <= usize::MAX as u64 {
            Some(v as usize)
        } else {
            None
        },
        None => None,
    }
}

/// The refusal of an unavailable target, as text.
pub fn unavailable_text(id: &str) -> (m: String)
    ensures
        m@ == unavailable(id@),
{
    QaError::UnavailableTarget(owned(id)).message()
}

/// The tool whose key is `name`.
pub fn tool_by_name(name: &str) -> (r: Option<ToolMode>)
    ensures
        r == tool_named(name@),
{
    if str_is(name, "select") {
        Some(ToolMode::Select)
    } else if str_is(name, "class") {
        Some(ToolMode::CreateClass)
    } else if str_is(name, "interface") {
        Some(ToolMode::CreateInterface)
    } else if str_is(name, "enum") {
        Some(ToolMode::CreateEnum)
    } else if str_is(name, "datatype") {
        Some(ToolMode::CreateDatatype)
    } else if str_is(name, "package") {
        Some(ToolMode::CreatePackage)
    } else if str_is(name, "actor") {
        Some(ToolMode::CreateActor)
    } else if str_is(name, "use_case") {
        Some(ToolMode::CreateUseCase)
    } else if str_is(name, "component") {
        Some(ToolMode::CreateComponent)
    } else if str_is(name, "node") {
        Some(ToolMode::CreateNode)
    } else if str_is(name, "artifact") {
        Some(ToolMode::CreateArtifact)
    } else if str_is(name, "generalization") {
        Some(ToolMode::CreateGeneralization)
    } else if str_is(name, "realization") {
        Some(ToolMode::CreateRealization)
    } else if str_is(name, "association") {
        Some(ToolMode::CreateAssociation)
    } else if str_is(name, "aggregation") {
        Some(ToolMode::CreateAggregation)
    } else if str_is(name, "composition") {
        Some(ToolMode::CreateComposition)
    } else if str_is(name, "dependency") {
        Some(ToolMode::CreateDependency)
    } else {
        None
    }
}

/// The relationship kind whose key is `name`.
pub fn kind_by_name(name: &str) -> (r: Option<AssociationType>)
    ensures
        r == kind_named(name@),
{
    if str_is(name, "association") {
        Some(AssociationType::Association)
    } else if str_is(name, "generalization") {
        Some(AssociationType::Generalization)
    } else if str_is(name, "realization") {
        Some(AssociationType::Realization)
    } else if str_is(name, "aggregation") {
        Some(AssociationType::Aggregation)
    } else if str_is(name, "composition") {
        Some(AssociationType::Composition)
    } else if str_is(name, "dependency") {
        Some(AssociationType::Dependency)
    } else {
        None
    }
}

/// The visibility a key names.
pub fn visibility_by_name(name: &str) -> (r: Option<Visibility>)
    ensures
        r == visibility_named(name@),
{
    if str_is(name, "public") {
        Some(Visibility::Public)
    } else if str_is(name, "protected") {
        Some(Visibility::Protected)
    } else if str_is(name, "private") {
        Some(Visibility::Private)
    } else if str_is(name, "implementation") {
        Some(Visibility::Implementation)
    } else {
        None
    }
}

/// The parameter direction a key names.
pub fn direction_by_name(name: &str) -> (r: Option<ParameterDirection>)
    ensures
        r == direction_named(name@),
{
    if str_is(name, "in") {
        Some(ParameterDirection::In)
    } else if str_is(name, "out") {
        Some(ParameterDirection::Out)
    } else if str_is(name, "inout") {
        Some(ParameterDirection::InOut)
    } else if str_is(name, "return") {
        Some(ParameterDirection::Return)
    } else {
        None
    }
}

/// A decision with its refusal as text.
pub open spec fn decided(r: Result<ClickAction, String>) -> Result<ClickAction, Seq<char>> {
    match r {
        Ok(a) => Ok(a),
        Err(m) => Err(m@),
    }
}

/// The element a text names, or the refusal of the whole id.
pub(crate) fn id_named(raw: &str, full: &str) -> (r: Result<UmlId, String>)
    ensures
        match parsed_id(raw@, full@) {
            Ok(e) => r == Ok::<UmlId, String>(e),
            Err(m) => r is Err && r->Err_0@ == m,
        },
{
    match UmlId::parse(raw) {
        Ok(e) => Ok(e),
        Err(_) => Err(unavailable_text(full)),
    }
}

/// Whether the first target with the id is enabled (`false` when none has it).
pub fn first_enabled(ts: &Vec<UiTarget>, id: &str) -> (r: bool)
    ensures
        r == match first_with_id(targets_view(ts@), id@) {
            Some(t) => t.enabled,
            None => false,
        },
{
    let ghost all = targets_view(ts@);
    assert(all.skip(0) =~= all);
    let mut i: usize = 0;
    while i < ts.len()
        invariant
            i <= ts@.len(),
            all == targets_view(ts@),
            first_with_id(all, id@) == first_with_id(all.skip(i as int), id@),
        decreases ts@.len() - i,
    {
        assert(all.skip(i as int)[0] == all[i as int]);
        if str_is(ts[i].id.as_str(), id) {
            return ts[i].enabled;
        }
        assert(all.skip(i as int).drop_first() =~= all.skip(i + 1));
        i += 1;
    }
    assert(all.skip(i as int).len() == 0);
    false
}

impl EditorSession {
    /// A click on `property.classifier.attribute.<rest>`.
    fn decide_attribute(&self, rest: &str, full: &str) -> (r: Result<ClickAction, String>)
        requires
            self.wf(),
        ensures
            decided(r) == attribute_decision(self@, rest@, full@),
    {
        let d = match first_dot_pos(rest) {
            Some(d) => d,
            None => return Err(unavailable_text(full)),
        };
        let n = rest.unicode_len();
        let head = rest.substring_char(0, d);
        let action = rest.substring_char(d + 1, n);
        assert(head@ =~= rest@.take(d as int));
        assert(action@ =~= rest@.skip(d + 1));
        let i = match parse_index(head) {
            Some(i) => i,
            None => return Err(unavailable_text(full)),
        };
        let dr = match self.classifier_draft() {
            Some(p) => &p.1,
            None => return Err(unavailable_text(full)),
        };
        if i >= dr.attributes.len() {
            return Err(unavailable_text(full));
        }
        if str_is(action, "delete") {
            Ok(ClickAction::EditDraft(DraftEdit::RemoveAttribute(i)))
        } else {
            match strip_prefix_text(action, "visibility.") {
                Some(v) => match visibility_by_name(v.as_str()) {
                    Some(v) => Ok(ClickAction::EditDraft(DraftEdit::AttributeVisibility(i, v))),
                    None => Err(unavailable_text(full)),
                },
                None => if str_is(action, "static") {
                    Ok(ClickAction::EditDraft(DraftEdit::ToggleAttributeStatic(i)))
                } else {
                    Err(unavailable_text(full))
                },
            }
        }
    }

    /// A click on a parameter of operation `op`.
    fn decide_parameter(&self, op: usize, rest: &str, full: &str) -> (r: Result<ClickAction, String>)
        requires
            self.wf(),
            self@.classifier_draft matches Some((_, dr)) && op < dr.operations.len(),
        ensures
            decided(r) == parameter_decision(self@, op as int, rest@, full@),
    {
        let d = match first_dot_pos(rest) {
            Some(d) => d,
            None => return Err(unavailable_text(full)),
        };
        let n = rest.unicode_len();
        let head = rest.substring_char(0, d);
        let action = rest.substring_char(d + 1, n);
        assert(head@ =~= rest@.take(d as int));
        assert(action@ =~= rest@.skip(d + 1));
        let j = match parse_index(head) {
            Some(j) => j,
            None => return Err(unavailable_text(full)),
        };
        let dr = match self.classifier_draft() {
            Some(p) => &p.1,
            None => return Err(unavailable_text(full)),
        };
        if j >= dr.operations[op].parameters.len() {
            return Err(unavailable_text(full));
        }
        if str_is(action, "delete") {
            Ok(ClickAction::EditDraft(DraftEdit::RemoveParameter(op, j)))
        } else {
            match strip_prefix_text(action, "direction.") {
                Some(t) => match direction_by_name(t.as_str()) {
                    Some(dir) => Ok(ClickAction::EditDraft(DraftEdit::ParameterDirection(op, j, dir))),
                    None => Err(unavailable_text(full)),
                },
                None => Err(unavailable_text(full)),
            }
        }
    }

    /// A click on `property.classifier.operation.<rest>`.
    fn decide_operation(&self, rest: &str, full: &str) -> (r: Result<ClickAction, String>)
        requires
            self.wf(),
        ensures
            decided(r) == operation_decision(self@, rest@, full@),
    {
        if str_is(rest, "add") {
            return match self.classifier_draft() {
                Some(_) => Ok(ClickAction::EditDraft(DraftEdit::AddOperation)),
                None => Err(unavailable_text("classifier draft")),
            };
        }
        if ends_with_text(rest, ".parameter.add") {
            let n = rest.unicode_len();
            proof {
                reveal_strlit(".parameter.add");
            }
            let inner = rest.substring_char(0, n - 14);
            assert(inner@ =~= rest@.take(rest@.len() - 14));
            let i = match parse_index(inner) {
                Some(i) => i,
                None => return Err(unavailable_text(full)),
            };
            let dr = match self.classifier_draft() {
                Some(p) => &p.1,
                None => return Err(unavailable_text(full)),
            };
            if i >= dr.operations.len() {
                return Err(unavailable_text(full));
            }
            return Ok(ClickAction::EditDraft(DraftEdit::AddParameter(i)));
        }
        let n = rest.unicode_len();
        let (head, tail): (&str, &str) = match first_dot_pos(rest) {
            Some(d) => (rest.substring_char(0, d), rest.substring_char(d + 1, n)),
            None => (rest, ""),
        };
        proof {
            reveal_strlit("");
            match first_dot(rest@) {
                Some(d) => {
                    assert(head@ =~= rest@.take(d));
                    assert(tail@ =~= rest@.skip(d + 1));
                },
                None => {
                    assert(tail@ =~= Seq::<char>::empty());
                },
            }
        }
        let i = match parse_index(head) {
            Some(i) => i,
            None => return Err(unavailable_text(full)),
        };
        let dr = match self.classifier_draft() {
            Some(p) => &p.1,
            None => return Err(unavailable_text(full)),
        };
        if i >= dr.operations.len() {
            return Err(unavailable_text(full));
        }
        match strip_prefix_text(tail, "parameter.") {
            Some(t) => self.decide_parameter(i, t.as_str(), full),
            None => {
                if str_is(tail, "delete") {
                    Ok(ClickAction::EditDraft(DraftEdit::RemoveOperation(i)))
                } else {
                    match strip_prefix_text(tail, "visibility.") {
                        Some(t) => match visibility_by_name(t.as_str()) {
                            Some(v) => Ok(ClickAction::EditDraft(DraftEdit::OperationVisibility(i, v))),
                            None => Err(unavailable_text(full)),
                        },
                        None => if str_is(tail, "static") {
                            Ok(ClickAction::EditDraft(DraftEdit::ToggleOperation(i, OperationFlag::Static)))
                        } else if str_is(tail, "abstract") {
                            Ok(ClickAction::EditDraft(DraftEdit::ToggleOperation(i, OperationFlag::Abstract)))
                        } else if str_is(tail, "virtual") {
                            Ok(ClickAction::EditDraft(DraftEdit::ToggleOperation(i, OperationFlag::Virtual)))
                        } else {
                            Err(unavailable_text(full))
                        },
                    }
                }
            },
        }
    }
}

/// The position of the first diagram whose id's text is `raw`.
fn diagram_position_by_text(ds: &[crate::diagram::Diagram], raw: &str) -> (r: Option<usize>)
    ensures
        match diagram_with_text(ds@.map_values(|d: crate::diagram::Diagram| d@), raw@) {
            Some(i) => r == Some(i as usize),
            None => r is None,
        },
{
    let ghost vs = ds@.map_values(|d: crate::diagram::Diagram| d@);
    let mut i: usize = 0;
    while i < ds.len()
        invariant
            i <= ds@.len(),
            vs == ds@.map_values(|d: crate::diagram::Diagram| d@),
            forall|j: int| 0 <= j < i ==> uuid_text_spec(vs[j].id.value) != raw@,
        decreases ds@.len() - i,
    {
        let t = ds[i].id.to_text();
        if str_is(t.as_str(), raw) {
            proof {
                let c = choose|c: int|
                    0 <= c < vs.len() && uuid_text_spec(vs[c].id.value) == raw@ && forall|j: int|
                        0 <= j < c ==> uuid_text_spec(vs[j].id.value) != raw@;
                assert(0 <= c < vs.len() && uuid_text_spec(vs[c].id.value) == raw@ && forall|j: int|
                    0 <= j < c ==> uuid_text_spec(vs[j].id.value) != raw@) by {
                    assert(uuid_text_spec(vs[i as int].id.value) == raw@);
                    assert(forall|j: int| 0 <= j < i ==> uuid_text_spec(vs[j].id.value) != raw@);
                };
                if c < i {
                    assert(uuid_text_spec(vs[c].id.value) != raw@);
                }
                if c > i {
                    assert(uuid_text_spec(vs[i as int].id.value) != raw@);
                }
            }
            return Some(i);
        }
        i += 1;
    }
    None
}

impl EditorSession {
    /// A click on one of the inspector's targets.
    fn decide_property(&self, id: &str) -> (r: Result<ClickAction, String>)
        requires
            self.wf(),
        ensures
            decided(r) == property_decision(self@, id@),
    {
        if str_is(id, "property.name") || str_is(id, "property.documentation") {
            return Ok(ClickAction::Nothing);
        }
        if str_is(id, "property.relationship.apply") {
            return match self.selected_element_id() {
                Some(sel) => Ok(ClickAction::ApplyRelationship(sel)),
                None => Err(unavailable_text(id)),
            };
        }
        if str_is(id, "property.relationship.revert") {
            return Ok(ClickAction::RevertRelationship);
        }
        match strip_prefix_text(id, "property.relationship.kind.") {
            Some(name) => {
                return match kind_by_name(name.as_str()) {
                    None => Err(unavailable_text(id)),
                    Some(k) => {
                        let drafted = match self.relationship_draft() {
                            Some(p) => p.1.kind == k,
                            None => false,
                        };
                        if !self.relationship_kind_allowed(k) && !drafted {
                            Err(unavailable_text(id))
                        } else {
                            Ok(ClickAction::SetRelationshipKind(k))
                        }
                    },
                };
            },
            None => {},
        }
        let has_draft = self.relationship_draft().is_some();
        if str_is(id, "property.relationship.source_navigable") && has_draft {
            return Ok(ClickAction::ToggleNavigable(true));
        }
        if str_is(id, "property.relationship.target_navigable") && has_draft {
            return Ok(ClickAction::ToggleNavigable(false));
        }
        match strip_prefix_text(id, "property.visibility.") {
            Some(name) => {
                return match visibility_by_name(name.as_str()) {
                    None => Err(unavailable_text(id)),
                    Some(v) => match self.selected_element_id() {
                        None => Err(unavailable_text(id)),
                        Some(sel) => Ok(ClickAction::SetVisibility(sel, v)),
                    },
                };
            },
            None => {},
        }
        let is_abstract = str_is(id, "property.abstract");
        if is_abstract || str_is(id, "property.static") {
            let sel = match self.selected_element_id() {
                Some(sel) => sel,
                None => return Err(unavailable_text(id)),
            };
            let e = match self.model().get(sel) {
                Some(e) => e,
                None => return Err(unavailable_text(id)),
            };
            if e.classifier_data().is_none() {
                return Err(unavailable_text(id));
            }
            let b = e.base();
            return if is_abstract {
                Ok(ClickAction::SetFlags(sel, !b.is_abstract, b.is_static))
            } else {
                Ok(ClickAction::SetFlags(sel, b.is_abstract, !b.is_static))
            };
        }
        if str_is(id, "property.classifier.apply") {
            return match self.selected_element_id() {
                None => Err(unavailable_text(id)),
                Some(sel) => if self.classifier_draft().is_none() {
                    Err(unavailable_text(id))
                } else {
                    Ok(ClickAction::ApplyClassifier(sel))
                },
            };
        }
        if str_is(id, "property.classifier.revert") {
            return Ok(ClickAction::RevertClassifier);
        }
        if str_is(id, "property.classifier.attribute.add") {
            return if self.classifier_draft().is_none() {
                Err(unavailable_text("classifier draft"))
            } else {
                Ok(ClickAction::EditDraft(DraftEdit::AddAttribute))
            };
        }
        if str_is(id, "property.classifier.operation.add") {
            return if self.classifier_draft().is_none() {
                Err(unavailable_text("classifier draft"))
            } else {
                Ok(ClickAction::EditDraft(DraftEdit::AddOperation))
            };
        }
        match strip_prefix_text(id, "property.classifier.attribute.") {
            Some(rest) => return self.decide_attribute(rest.as_str(), id),
            None => {},
        }
        match strip_prefix_text(id, "property.classifier.operation.") {
            Some(rest) => return self.decide_operation(rest.as_str(), id),
            None => {},
        }
        Err(unavailable_text(id))
    }
}

impl EditorSession {
    /// A click on a target that is offered and enabled, by its id.
    fn decide_id(&self, id: &str, position: Option<Point>) -> (r: Result<ClickAction, String>)
        requires
            self.wf(),
        ensures
            decided(r) == id_decision(self@, id@, position),
    {
        if str_is(id, "history.undo") {
            return Ok(ClickAction::Undo);
        }
        if str_is(id, "history.redo") {
            return Ok(ClickAction::Redo);
        }
        if str_is(id, "file.new") {
            return Ok(ClickAction::NewProject);
        }
        if str_is(id, "file.save") {
            return if self.is_project_open() {
                Ok(ClickAction::Save)
            } else {
                Err(unavailable_text(id))
            };
        }
        if str_is(id, "app.quit") {
            return Ok(ClickAction::Quit);
        }
        if str_is(id, "viewport.zoom_in") {
            return Ok(ClickAction::ZoomIn);
        }
        if str_is(id, "viewport.zoom_out") {
            return Ok(ClickAction::ZoomOut);
        }
        if str_is(id, "viewport.reset") {
            return Ok(ClickAction::ResetView);
        }
        if str_is(id, "viewport.fit") {
            return Ok(ClickAction::FitView);
        }
        match strip_prefix_text(id, "tool.") {
            Some(name) => {
                return match tool_by_name(name.as_str()) {
                    Some(t) => Ok(ClickAction::ChooseTool(t)),
                    None => Err(unavailable_text(id)),
                };
            },
            None => {},
        }
        match strip_prefix_text(id, "element.add_to_diagram:") {
            Some(raw) => {
                return match id_named(raw.as_str(), id) {
                    Ok(e) => Ok(ClickAction::AddToDiagram(e)),
                    Err(m) => Err(m),
                };
            },
            None => {},
        }
        match strip_prefix_text(id, "element:") {
            Some(raw) => {
                return match id_named(raw.as_str(), id) {
                    Ok(e) => Ok(ClickAction::SelectElement(e)),
                    Err(m) => Err(m),
                };
            },
            None => {},
        }
        if str_is(id, "diagram.new") {
            return Ok(ClickAction::OpenDialog);
        }
        if str_is(id, "diagram.new_class") || str_is(id, "diagram.new.class") {
            return Ok(ClickAction::CreateDiagram(DiagramKind::Class));
        }
        if str_is(id, "diagram.new.use_case") {
            return Ok(ClickAction::CreateDiagram(DiagramKind::UseCase));
        }
        if str_is(id, "diagram.new.component") {
            return Ok(ClickAction::CreateDiagram(DiagramKind::Component));
        }
        if str_is(id, "diagram.new.deployment") {
            return Ok(ClickAction::CreateDiagram(DiagramKind::Deployment));
        }
        match strip_prefix_text(id, "diagram:") {
            Some(raw) => {
                let ds = self.model().diagrams();
                return match diagram_position_by_text(ds, raw.as_str()) {
                    Some(i) => Ok(ClickAction::ActivateDiagram(i)),
                    None => Err(unavailable_text(id)),
                };
            },
            None => {},
        }
        if str_is(id, "canvas") {
            return match position {
                None => Err(QaError::InvalidCoordinates.message()),
                Some(p) => {
                    let t = self.current_tool();
                    if !bits_are_finite(p.x) || !bits_are_finite(p.y) {
                        Err(QaError::InvalidCoordinates.message())
                    } else if t.is_creation_tool() {
                        Ok(ClickAction::Place(t, p))
                    } else {
                        Err(QaError::WrongTargetKind(owned(id)).message())
                    }
                },
            };
        }
        match strip_prefix_text(id, "node:") {
            Some(raw) => {
                return match id_named(raw.as_str(), id) {
                    Ok(e) => Ok(ClickAction::SelectElement(e)),
                    Err(m) => Err(m),
                };
            },
            None => {},
        }
        match strip_prefix_text(id, "edge:") {
            Some(raw) => {
                return match id_named(raw.as_str(), id) {
                    Ok(e) => Ok(ClickAction::SelectElement(e)),
                    Err(m) => Err(m),
                };
            },
            None => {},
        }
        self.decide_property(id)
    }

    /// What a click on the target with the id asks for, or why it is
    /// refused: a target that is not offered now, or not enabled, is refused
    /// first; the id then names the action.
    pub fn decide_click(&self, id: &str, position: Option<Point>) -> (r: Result<ClickAction, String>)
        requires
            self.wf(),
        ensures
            decided(r) == click_decision(self@, self.element_order(), id@, position),
    {
        let ts = self.qa_targets(Some(id));
        assert(cursor_text(Some(id)) == Some(id@));
        if !first_enabled(&ts, id) {
            return Err(unavailable_text(id));
        }
        self.decide_id(id, position)
    }
}

} // verus!
