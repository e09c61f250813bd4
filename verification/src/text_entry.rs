//! Setting text through the automation interface: the target under the
//! cursor names the field, and the value becomes its text. Names and
//! documentation change through the history; the drafts of the property
//! inspector change in place.
use crate::click_decide::{first_dot_pos, first_enabled, parse_index, str_is, strip_prefix_text, unavailable_text};
use crate::clicks::{after, first_dot, has_prefix, parsed_index, qa_error_text, target_ready, unavailable, QaError, QaErrorView};
use crate::draft_edits::{
    attribute_with_text, operation_with_text, parameter_with_text, relationship_with_text, with_attribute,
    with_operation, with_parameter, AttributeField, OperationField, ParameterField, RelationshipField,
};
use crate::drafts::{ClassifierDraft, ClassifierDraftView};
use crate::id::UmlId;
use crate::session::{bumped, documentation_set, rename_done, result_text, EditorSession, SessionView};
use crate::targets::cursor_text;
use crate::text::owned;
use vstd::prelude::*;

verus! {

/// The field a set-text request writes.
#[derive(Debug, Clone, Copy, PartialEq, Eq, Structural)]
pub enum TextField {
    /// The path of a new project: the application checks it and creates
    /// the file.
    NewProjectPath,
    /// The name of the selected element.
    Name(UmlId),
    /// The documentation of the selected element.
    Documentation(UmlId),
    /// A text of the relationship draft.
    Relationship(RelationshipField),
    /// A text of an attribute of the classifier draft.
    Attribute(usize, AttributeField),
    /// A text of an operation of the classifier draft.
    Operation(usize, OperationField),
    /// A text of a parameter of an operation of the classifier draft.
    Parameter(usize, usize, ParameterField),
}

/// The relationship text that a target id names.
pub open spec fn relationship_field_named(id: Seq<char>) -> Option<RelationshipField> {
    if id == "property.relationship.name"@ {
        Some(RelationshipField::Name)
    } else if id == "property.relationship.documentation"@ {
        Some(RelationshipField::Documentation)
    } else if id == "property.relationship.source_role"@ {
        Some(RelationshipField::SourceRole)
    } else if id == "property.relationship.source_multiplicity"@ {
        Some(RelationshipField::SourceMultiplicity)
    } else if id == "property.relationship.target_role"@ {
        Some(RelationshipField::TargetRole)
    } else if id == "property.relationship.target_multiplicity"@ {
        Some(RelationshipField::TargetMultiplicity)
    } else {
        None
    }
}

/// The attribute text that a field key names.
pub open spec fn attribute_field_named(key: Seq<char>) -> Option<AttributeField> {
    if key == "name"@ {
        Some(AttributeField::Name)
    } else if key == "type"@ {
        Some(AttributeField::TypeText)
    } else if key == "initial_value"@ {
        Some(AttributeField::InitialValue)
    } else {
        None
    }
}

/// The operation text that a field key names.
pub open spec fn operation_field_named(key: Seq<char>) -> Option<OperationField> {
    if key == "name"@ {
        Some(OperationField::Name)
    } else if key == "return_type"@ {
        Some(OperationField::ReturnType)
    } else {
        None
    }
}

/// The parameter text that a field key names.
pub open spec fn parameter_field_named(key: Seq<char>) -> Option<ParameterField> {
    if key == "name"@ {
        Some(ParameterField::Name)
    } else if key == "type"@ {
        Some(ParameterField::TypeText)
    } else if key == "default_value"@ {
        Some(ParameterField::DefaultValue)
    } else {
        None
    }
}

/// What precedes and what follows the first dot of `s`; without a dot, all
/// of `s` and nothing.
pub open spec fn split_at_dot(s: Seq<char>) -> (Seq<char>, Seq<char>) {
    match first_dot(s) {
        Some(d) => (s.take(d), s.skip(d + 1)),
        None => (s, Seq::empty()),
    }
}

/// `<index>.<field>` of an attribute of the draft (`id` is the whole target
/// id, which a refusal names).
pub open spec fn attribute_text_decision(d: ClassifierDraftView, rest: Seq<char>, id: Seq<char>) -> Result<
    TextField,
    Seq<char>,
> {
    let (head, key) = split_at_dot(rest);
    match parsed_index(head) {
        Some(i) => if i < d.attributes.len() {
            match attribute_field_named(key) {
                Some(f) => Ok(TextField::Attribute(i as usize, f)),
                None => Err(unavailable(id)),
            }
        } else {
            Err(unavailable(id))
        },
        None => Err(unavailable(id)),
    }
}

/// `<parameter>.<field>` of a parameter of operation `i` of the draft.
pub open spec fn parameter_text_decision(d: ClassifierDraftView, i: int, rest: Seq<char>, id: Seq<char>) -> Result<
    TextField,
    Seq<char>,
> {
    match first_dot(rest) {
        None => Err(unavailable(id)),
        Some(k) => match parsed_index(rest.take(k)) {
            Some(j) => if j < d.operations[i].parameters.len() {
                match parameter_field_named(rest.skip(k + 1)) {
                    Some(f) => Ok(TextField::Parameter(i as usize, j as usize, f)),
                    None => Err(unavailable(id)),
                }
            } else {
                Err(unavailable(id))
            },
            None => Err(unavailable(id)),
        },
    }
}

/// `<index>.<field>` or `<index>.parameter.<parameter>.<field>` of an
/// operation of the draft.
pub open spec fn operation_text_decision(d: ClassifierDraftView, rest: Seq<char>, id: Seq<char>) -> Result<
    TextField,
    Seq<char>,
> {
    match first_dot(rest) {
        None => Err(unavailable(id)),
        Some(k) => match parsed_index(rest.take(k)) {
            Some(i) => if i < d.operations.len() {
                let tail = rest.skip(k + 1);
                if has_prefix(tail, "parameter."@) {
                    parameter_text_decision(d, i, after(tail, "parameter."@), id)
                } else {
                    match operation_field_named(tail) {
                        Some(f) => Ok(TextField::Operation(i as usize, f)),
                        None => Err(unavailable(id)),
                    }
                }
            } else {
                Err(unavailable(id))
            },
            None => Err(unavailable(id)),
        },
    }
}

/// A text of the classifier draft.
pub open spec fn classifier_text_decision(s: SessionView, id: Seq<char>) -> Result<TextField, Seq<char>> {
    match s.classifier_draft {
        None => Err(unavailable(id)),
        Some((_, d)) => if has_prefix(id, "property.classifier.attribute."@) {
            attribute_text_decision(d, after(id, "property.classifier.attribute."@), id)
        } else if has_prefix(id, "property.classifier.operation."@) {
            operation_text_decision(d, after(id, "property.classifier.operation."@), id)
        } else {
            Err(unavailable(id))
        },
    }
}

/// The refusal of a new project while the current one has unsaved changes.
pub open spec fn unsaved_refusal() -> Seq<char> {
    qa_error_text(QaErrorView::InvalidValue("save the current project before creating a new project"@))
}

/// Which field a set-text request on the target with the id writes: the
/// target must be offered now and enabled; a new project needs the current
/// one saved; the other fields need a selected element, and a draft text
/// the draft.
pub open spec fn text_decision(s: SessionView, ids: Seq<UmlId>, id: Seq<char>) -> Result<TextField, Seq<char>> {
    if !target_ready(s, ids, id) {
        Err(unavailable(id))
    } else if id == "file.new"@ {
        if s.dirty {
            Err(unsaved_refusal())
        } else {
            Ok(TextField::NewProjectPath)
        }
    } else {
        match s.selected {
            None => Err(unavailable(id)),
            Some(sel) => if id == "property.name"@ {
                Ok(TextField::Name(sel))
            } else if id == "property.documentation"@ {
                Ok(TextField::Documentation(sel))
            } else {
                match relationship_field_named(id) {
                    Some(f) => if s.relationship_draft is Some {
                        Ok(TextField::Relationship(f))
                    } else {
                        Err(unavailable("relationship draft"@))
                    },
                    None => classifier_text_decision(s, id),
                }
            },
        }
    }
}

/// A set-text result as a value.
pub open spec fn text_result(r: Result<TextField, String>) -> Result<TextField, Seq<char>> {
    match r {
        Ok(f) => Ok(f),
        Err(m) => Err(m@),
    }
}

/// A set-text result, success carrying nothing.
pub open spec fn unit_result(r: Result<TextField, Seq<char>>) -> Result<(), Seq<char>> {
    match r {
        Ok(_) => Ok(()),
        Err(m) => Err(m),
    }
}

/// The session with its revision counted.
pub open spec fn counted(s: SessionView) -> SessionView {
    SessionView { revision: bumped(s.revision), ..s }
}

/// Writing `value` into the field: names and documentation go through the
/// history (as `rename_element` and `set_documentation` do); a draft text
/// is set in place and the change counted. Success names the field.
pub open spec fn text_written(
    s0: SessionView,
    f: TextField,
    value: Seq<char>,
    s1: SessionView,
    r: Result<TextField, Seq<char>>,
) -> bool {
    match f {
        TextField::NewProjectPath => r == Ok::<TextField, Seq<char>>(f) && s1 == s0,
        TextField::Name(sel) => rename_done(s0, sel, value, s1, unit_result(r)) && (r is Ok ==> r->Ok_0 == f),
        TextField::Documentation(sel) => documentation_set(s0, sel, value, s1, unit_result(r)) && (r is Ok
            ==> r->Ok_0 == f),
        TextField::Relationship(g) => r == Ok::<TextField, Seq<char>>(f) && match s0.relationship_draft {
            Some((o, d)) => s1 == counted(
                SessionView { relationship_draft: Some((o, relationship_with_text(d, g, value))), ..s0 },
            ),
            None => s1 == s0,
        },
        TextField::Attribute(i, g) => r == Ok::<TextField, Seq<char>>(f) && match s0.classifier_draft {
            Some((o, d)) => if i < d.attributes.len() {
                s1 == counted(
                    SessionView {
                        classifier_draft: Some(
                            (o, with_attribute(d, i as int, attribute_with_text(d.attributes[i as int], g, value))),
                        ),
                        ..s0
                    },
                )
            } else {
                s1 == s0
            },
            None => s1 == s0,
        },
        TextField::Operation(i, g) => r == Ok::<TextField, Seq<char>>(f) && match s0.classifier_draft {
            Some((o, d)) => if i < d.operations.len() {
                s1 == counted(
                    SessionView {
                        classifier_draft: Some(
                            (o, with_operation(d, i as int, operation_with_text(d.operations[i as int], g, value))),
                        ),
                        ..s0
                    },
                )
            } else {
                s1 == s0
            },
            None => s1 == s0,
        },
        TextField::Parameter(i, j, g) => r == Ok::<TextField, Seq<char>>(f) && match s0.classifier_draft {
            Some((o, d)) => if i < d.operations.len() && j < d.operations[i as int].parameters.len() {
                s1 == counted(
                    SessionView {
                        classifier_draft: Some(
                            (
                                o,
                                with_operation(
                                    d,
                                    i as int,
                                    with_parameter(
                                        d.operations[i as int],
                                        j as int,
                                        parameter_with_text(d.operations[i as int].parameters[j as int], g, value),
                                    ),
                                ),
                            ),
                        ),
                        ..s0
                    },
                )
            } else {
                s1 == s0
            },
            None => s1 == s0,
        },
    }
}

/// What a set-text request on the target with the id does: a refusal
/// changes nothing; otherwise the field the id names gets the value.
pub open spec fn text_done(
    s0: SessionView,
    ids: Seq<UmlId>,
    id: Seq<char>,
    value: Seq<char>,
    s1: SessionView,
    r: Result<TextField, Seq<char>>,
) -> bool {
    match text_decision(s0, ids, id) {
        Err(m) => r == Err::<TextField, Seq<char>>(m) && s1 == s0,
        Ok(f) => text_written(s0, f, value, s1, r),
    }
}

/// The relationship text that a target id names.
fn relationship_field_by_name(id: &str) -> (r: Option<RelationshipField>)
    ensures
        r == relationship_field_named(id@),
{
    if str_is(id, "property.relationship.name") {
        Some(RelationshipField::Name)
    } else if str_is(id, "property.relationship.documentation") {
        Some(RelationshipField::Documentation)
    } else if str_is(id, "property.relationship.source_role") {
        Some(RelationshipField::SourceRole)
    } else if str_is(id, "property.relationship.source_multiplicity") {
        Some(RelationshipField::SourceMultiplicity)
    } else if str_is(id, "property.relationship.target_role") {
        Some(RelationshipField::TargetRole)
    } else if str_is(id, "property.relationship.target_multiplicity") {
        Some(RelationshipField::TargetMultiplicity)
    } else {
        None
    }
}

/// The attribute text that a field key names.
fn attribute_field_by_name(key: &str) -> (r: Option<AttributeField>)
    ensures
        r == attribute_field_named(key@),
{
    if str_is(key, "name") {
        Some(AttributeField::Name)
    } else if str_is(key, "type") {
        Some(AttributeField::TypeText)
    } else if str_is(key, "initial_value") {
        Some(AttributeField::InitialValue)
    } else {
        None
    }
}

/// The operation text that a field key names.
fn operation_field_by_name(key: &str) -> (r: Option<OperationField>)
    ensures
        r == operation_field_named(key@),
{
    if str_is(key, "name") {
        Some(OperationField::Name)
    } else if str_is(key, "return_type") {
        Some(OperationField::ReturnType)
    } else {
        None
    }
}

/// The parameter text that a field key names.
fn parameter_field_by_name(key: &str) -> (r: Option<ParameterField>)
    ensures
        r == parameter_field_named(key@),
{
    if str_is(key, "name") {
        Some(ParameterField::Name)
    } else if str_is(key, "type") {
        Some(ParameterField::TypeText)
    } else if str_is(key, "default_value") {
        Some(ParameterField::DefaultValue)
    } else {
        None
    }
}

/// `<index>.<field>` of an attribute of the draft.
fn decide_attribute_text(d: &ClassifierDraft, rest: &str, id: &str) -> (r: Result<TextField, String>)
    ensures
        text_result(r) == attribute_text_decision(d@, rest@, id@),
{
    let n = rest.unicode_len();
    let (head, key): (&str, &str) = match first_dot_pos(rest) {
        Some(k) => (rest.substring_char(0, k), rest.substring_char(k + 1, n)),
        None => (rest, ""),
    };
    proof {
        reveal_strlit("");
        match first_dot(rest@) {
            Some(k) => {
                assert(head@ =~= rest@.take(k));
                assert(key@ =~= rest@.skip(k + 1));
            },
            None => {
                assert(key@ =~= Seq::<char>::empty());
            },
        }
    }
    let i = match parse_index(head) {
        Some(i) => i,
        None => return Err(unavailable_text(id)),
    };
    if i >= d.attributes.len() {
        return Err(unavailable_text(id));
    }
    match attribute_field_by_name(key) {
        Some(f) => Ok(TextField::Attribute(i, f)),
        None => Err(unavailable_text(id)),
    }
}

/// `<parameter>.<field>` of a parameter of operation `i` of the draft.
fn decide_parameter_text(d: &ClassifierDraft, i: usize, rest: &str, id: &str) -> (r: Result<TextField, String>)
    requires
        i < d@.operations.len(),
    ensures
        text_result(r) == parameter_text_decision(d@, i as int, rest@, id@),
{
    let k = match first_dot_pos(rest) {
        Some(k) => k,
        None => return Err(unavailable_text(id)),
    };
    let n = rest.unicode_len();
    let head = rest.substring_char(0, k);
    let key = rest.substring_char(k + 1, n);
    assert(head@ =~= rest@.take(k as int));
    assert(key@ =~= rest@.skip(k + 1));
    let j = match parse_index(head) {
        Some(j) => j,
        None => return Err(unavailable_text(id)),
    };
    if j >= d.operations[i].parameters.len() {
        return Err(unavailable_text(id));
    }
    match parameter_field_by_name(key) {
        Some(f) => Ok(TextField::Parameter(i, j, f)),
        None => Err(unavailable_text(id)),
    }
}

/// `<index>.<field>` or `<index>.parameter.<parameter>.<field>` of an
/// operation of the draft.
fn decide_operation_text(d: &ClassifierDraft, rest: &str, id: &str) -> (r: Result<TextField, String>)
    ensures
        text_result(r) == operation_text_decision(d@, rest@, id@),
{
    let k = match first_dot_pos(rest) {
        Some(k) => k,
        None => return Err(unavailable_text(id)),
    };
    let n = rest.unicode_len();
    let head = rest.substring_char(0, k);
    let tail = rest.substring_char(k + 1, n);
    assert(head@ =~= rest@.take(k as int));
    assert(tail@ =~= rest@.skip(k + 1));
    let i = match parse_index(head) {
        Some(i) => i,
        None => return Err(unavailable_text(id)),
    };
    if i >= d.operations.len() {
        return Err(unavailable_text(id));
    }
    match strip_prefix_text(tail, "parameter.") {
        Some(p) => decide_parameter_text(d, i, p.as_str(), id),
        None => match operation_field_by_name(tail) {
            Some(f) => Ok(TextField::Operation(i, f)),
            None => Err(unavailable_text(id)),
        },
    }
}

impl EditorSession {
    /// Which field a set-text request on the target with the id writes (see
    /// `text_decision`).
    pub fn decide_text(&self, id: &str) -> (r: Result<TextField, String>)
        requires
            self.wf(),
        ensures
            text_result(r) == text_decision(self@, self.element_order(), id@),
    {
        let ts = self.qa_targets(Some(id));
        assert(cursor_text(Some(id)) == Some(id@));
        if !first_enabled(&ts, id) {
            return Err(unavailable_text(id));
        }
        if str_is(id, "file.new") {
            if self.is_dirty() {
                return Err(QaError::InvalidValue(owned("save the current project before creating a new project")).message());
            }
            return Ok(TextField::NewProjectPath);
        }
        let sel = match self.selected_element_id() {
            Some(s) => s,
            None => return Err(unavailable_text(id)),
        };
        if str_is(id, "property.name") {
            return Ok(TextField::Name(sel));
        }
        if str_is(id, "property.documentation") {
            return Ok(TextField::Documentation(sel));
        }
        match relationship_field_by_name(id) {
            Some(f) => {
                return match self.relationship_draft() {
                    Some(_) => Ok(TextField::Relationship(f)),
                    None => Err(unavailable_text("relationship draft")),
                };
            },
            None => {},
        }
        let d = match self.classifier_draft() {
            Some(p) => &p.1,
            None => return Err(unavailable_text(id)),
        };
        match strip_prefix_text(id, "property.classifier.attribute.") {
            Some(rest) => {
                return decide_attribute_text(d, rest.as_str(), id);
            },
            None => {},
        }
        match strip_prefix_text(id, "property.classifier.operation.") {
            Some(rest) => decide_operation_text(d, rest.as_str(), id),
            None => Err(unavailable_text(id)),
        }
    }

    /// Write `value` into a field the decision named.
    fn write_text(&mut self, f: TextField, value: &str) -> (r: Result<TextField, String>)
        requires
            old(self).wf(),
        ensures
            final(self).wf(),
            text_written(old(self)@, f, value@, final(self)@, text_result(r)),
    {
        match f {
            TextField::NewProjectPath => Ok(f),
            TextField::Name(sel) => {
                let r0 = self.rename_element(sel, value);
                let r = match r0 {
                    Ok(()) => Ok(f),
                    Err(m) => Err(m),
                };
                assert(unit_result(text_result(r)) == result_text(r0));
                r
            },
            TextField::Documentation(sel) => {
                let r0 = self.set_documentation(sel, value);
                let r = match r0 {
                    Ok(()) => Ok(f),
                    Err(m) => Err(m),
                };
                assert(unit_result(text_result(r)) == result_text(r0));
                r
            },
            TextField::Relationship(g) => {
                match self.take_relationship_draft() {
                    Some((o, mut d)) => {
                        d.set_text(g, value);
                        self.set_relationship_draft(Some((o, d)));
                        self.bump_state();
                    },
                    None => {},
                }
                Ok(f)
            },
            TextField::Attribute(i, g) => {
                match self.take_classifier_draft() {
                    Some((o, mut d)) => {
                        let ok = d.set_attribute_text(i, g, value);
                        self.set_classifier_draft(Some((o, d)));
                        if ok {
                            self.bump_state();
                        }
                    },
                    None => {},
                }
                Ok(f)
            },
            TextField::Operation(i, g) => {
                match self.take_classifier_draft() {
                    Some((o, mut d)) => {
                        let ok = d.set_operation_text(i, g, value);
                        self.set_classifier_draft(Some((o, d)));
                        if ok {
                            self.bump_state();
                        }
                    },
                    None => {},
                }
                Ok(f)
            },
            TextField::Parameter(i, j, g) => {
                match self.take_classifier_draft() {
                    Some((o, mut d)) => {
                        let ok = d.set_parameter_text(i, j, g, value);
                        self.set_classifier_draft(Some((o, d)));
                        if ok {
                            self.bump_state();
                        }
                    },
                    None => {},
                }
                Ok(f)
            },
        }
    }

    /// Set the text of the target with the id, as an automation client
    /// does: a target that is not offered now or not enabled is refused;
    /// otherwise the field it names gets the value. For `file.new` the
    /// value is the new project's path, which the application checks and
    /// creates, once the current project has no unsaved changes.
    pub fn set_target_text(&mut self, id: &str, value: &str) -> (r: Result<TextField, String>)
        requires
            old(self).wf(),
        ensures
            final(self).wf(),
            text_done(old(self)@, old(self).element_order(), id@, value@, final(self)@, text_result(r)),
    {
        match self.decide_text(id) {
            Err(m) => Err(m),
            Ok(f) => self.write_text(f, value),
        }
    }

    /// Set the text of the target under the cursor (see `set_target_text`);
    /// without a cursor the request is refused.
    pub fn qa_set_text(&mut self, value: &str) -> (r: Result<TextField, String>)
        requires
            old(self).wf(),
        ensures
            final(self).wf(),
            match old(self)@.cursor {
                None => r is Err && r->Err_0@ == unavailable("no selected QA target"@) && final(self)@ == old(
                    self,
                )@,
                Some(id) => text_done(old(self)@, old(self).element_order(), id, value@, final(self)@, text_result(r)),
            },
    {
        let id = match self.qa_cursor() {
            Some(t) => owned(t),
            None => return Err(unavailable_text("no selected QA target")),
        };
        self.set_target_text(id.as_str(), value)
    }
}

} // verus!
