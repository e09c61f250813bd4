//! Drafts of the property inspector: the values of a relationship or of a
//! classifier's features as the user edits them before applying, how a draft
//! is read from the model, how it is checked, and what applying it installs.
use crate::editor::{optional_text, optional_value};
use crate::elements::{
    type_display_spec, Attribute, AttributeView, ClassifierData, ClassifierDataView, Operation,
    OperationView, Parameter, ParameterView, Relationship, RelationshipView, TypeReference,
    TypeReferenceView,
};
use crate::naming::{decimal, decimal_text};
use crate::repository::{UmlModel, UmlModelView};
use crate::text::{is_empty_text, owned, trim, trimmed};
use crate::types::{AssociationType, ParameterDirection, Visibility};
use vstd::prelude::*;

verus! {

/// The text of an optional value, empty when there is none.
pub open spec fn or_empty(o: Option<Seq<char>>) -> Seq<char> {
    match o {
        Some(s) => s,
        None => Seq::empty(),
    }
}

/// A copy of an optional text, empty when there is none.
fn text_or_empty(o: &Option<String>) -> (r: String)
    ensures
        r@ == or_empty(crate::text::opt_text(*o)),
{
    match o {
        Some(s) => s.clone(),
        None => String::new(),
    }
}

// ─── Relationship drafts ─────────────────────────────────────────────

/// The editable values of a relationship while the user edits them.
#[derive(Debug, Clone)]
pub struct RelationshipDraft {
    /// The relationship kind.
    pub kind: AssociationType,
    /// The name.
    pub name: String,
    /// The documentation.
    pub documentation: String,
    /// The role name at the source end.
    pub source_role: String,
    /// The multiplicity at the source end.
    pub source_multiplicity: String,
    /// The role name at the target end.
    pub target_role: String,
    /// The multiplicity at the target end.
    pub target_multiplicity: String,
    /// Source-to-target navigability.
    pub source_navigable: bool,
    /// Target-to-source navigability.
    pub target_navigable: bool,
}

/// The mathematical value of a `RelationshipDraft`.
pub struct RelationshipDraftView {
    pub kind: AssociationType,
    pub name: Seq<char>,
    pub documentation: Seq<char>,
    pub source_role: Seq<char>,
    pub source_multiplicity: Seq<char>,
    pub target_role: Seq<char>,
    pub target_multiplicity: Seq<char>,
    pub source_navigable: bool,
    pub target_navigable: bool,
}

impl View for RelationshipDraft {
    type V = RelationshipDraftView;

    open spec fn view(&self) -> RelationshipDraftView {
        RelationshipDraftView {
            kind: self.kind,
            name: self.name@,
            documentation: self.documentation@,
            source_role: self.source_role@,
            source_multiplicity: self.source_multiplicity@,
            target_role: self.target_role@,
            target_multiplicity: self.target_multiplicity@,
            source_navigable: self.source_navigable,
            target_navigable: self.target_navigable,
        }
    }
}

/// The draft that shows a relationship as it is: absent optional texts read
/// as empty.
pub open spec fn relationship_draft_of(r: RelationshipView) -> RelationshipDraftView {
    RelationshipDraftView {
        kind: r.kind,
        name: r.base.name,
        documentation: r.base.documentation,
        source_role: or_empty(r.source_role_name),
        source_multiplicity: or_empty(r.source_multiplicity),
        target_role: or_empty(r.target_role_name),
        target_multiplicity: or_empty(r.target_multiplicity),
        source_navigable: r.source_to_target_navigable,
        target_navigable: r.target_to_source_navigable,
    }
}

/// The relationship with a draft's values installed: kind, name,
/// documentation and navigability as drafted, role names and multiplicities
/// trimmed and absent when blank; id, endpoints and the other metadata kept.
pub open spec fn with_relationship_draft(current: RelationshipView, d: RelationshipDraftView) -> RelationshipView {
    RelationshipView {
        base: crate::elements::ElementBaseView { name: d.name, documentation: d.documentation, ..current.base },
        kind: d.kind,
        source_role_name: optional_value(d.source_role),
        source_multiplicity: optional_value(d.source_multiplicity),
        target_role_name: optional_value(d.target_role),
        target_multiplicity: optional_value(d.target_multiplicity),
        source_to_target_navigable: d.source_navigable,
        target_to_source_navigable: d.target_navigable,
        ..current
    }
}

/// The text of an optional value from `optional_text`.
fn optional_of(value: &str) -> (r: Option<String>)
    ensures
        crate::text::opt_text(r) == optional_value(value@),
{
    optional_text(value)
}

impl RelationshipDraft {
    /// The draft that shows the relationship as it is.
    pub fn of(r: &Relationship) -> (d: Self)
        ensures
            d@ == relationship_draft_of(r@),
    {
        RelationshipDraft {
            kind: r.kind,
            name: r.base.name.clone(),
            documentation: r.base.documentation.clone(),
            source_role: text_or_empty(&r.source_role_name),
            source_multiplicity: text_or_empty(&r.source_multiplicity),
            target_role: text_or_empty(&r.target_role_name),
            target_multiplicity: text_or_empty(&r.target_multiplicity),
            source_navigable: r.source_to_target_navigable,
            target_navigable: r.target_to_source_navigable,
        }
    }

    /// The relationship with this draft's values installed.
    pub fn installed_on(&self, current: &Relationship) -> (r: Relationship)
        ensures
            r@ == with_relationship_draft(current@, self@),
    {
        let mut r = current.clone();
        r.kind = self.kind;
        r.base.name = self.name.clone();
        r.base.documentation = self.documentation.clone();
        r.source_role_name = optional_of(self.source_role.as_str());
        r.source_multiplicity = optional_of(self.source_multiplicity.as_str());
        r.target_role_name = optional_of(self.target_role.as_str());
        r.target_multiplicity = optional_of(self.target_multiplicity.as_str());
        r.source_to_target_navigable = self.source_navigable;
        r.target_to_source_navigable = self.target_navigable;
        r
    }
}

// ─── Classifier drafts ───────────────────────────────────────────────

/// An attribute while the user edits it: its type as typed text, with the
/// type it had when the draft was made.
#[derive(Debug, Clone)]
pub struct DraftAttribute {
    /// The name.
    pub name: String,
    /// The type as text.
    pub type_text: String,
    /// The type the attribute had when the draft was made.
    pub original_type: TypeReference,
    /// The visibility.
    pub visibility: Visibility,
    /// The initial value as text (empty for none).
    pub initial_value: String,
    /// The static flag.
    pub is_static: bool,
}

/// The mathematical value of a `DraftAttribute`.
pub struct DraftAttributeView {
    pub name: Seq<char>,
    pub type_text: Seq<char>,
    pub original_type: TypeReferenceView,
    pub visibility: Visibility,
    pub initial_value: Seq<char>,
    pub is_static: bool,
}

impl View for DraftAttribute {
    type V = DraftAttributeView;

    open spec fn view(&self) -> DraftAttributeView {
        DraftAttributeView {
            name: self.name@,
            type_text: self.type_text@,
            original_type: self.original_type@,
            visibility: self.visibility,
            initial_value: self.initial_value@,
            is_static: self.is_static,
        }
    }
}

/// An operation parameter while the user edits it.
#[derive(Debug, Clone)]
pub struct DraftParameter {
    /// The name.
    pub name: String,
    /// The type as text.
    pub type_text: String,
    /// The type the parameter had when the draft was made.
    pub original_type: TypeReference,
    /// The direction.
    pub direction: ParameterDirection,
    /// The default value as text (empty for none).
    pub default_value: String,
}

/// The mathematical value of a `DraftParameter`.
pub struct DraftParameterView {
    pub name: Seq<char>,
    pub type_text: Seq<char>,
    pub original_type: TypeReferenceView,
    pub direction: ParameterDirection,
    pub default_value: Seq<char>,
}

impl View for DraftParameter {
    type V = DraftParameterView;

    open spec fn view(&self) -> DraftParameterView {
        DraftParameterView {
            name: self.name@,
            type_text: self.type_text@,
            original_type: self.original_type@,
            direction: self.direction,
            default_value: self.default_value@,
        }
    }
}

/// The values of a list of draft parameters.
pub open spec fn draft_parameters_view(ps: Seq<DraftParameter>) -> Seq<DraftParameterView> {
    ps.map_values(|p: DraftParameter| p@)
}

/// An operation while the user edits it.
#[derive(Debug, Clone)]
pub struct DraftOperation {
    /// The name.
    pub name: String,
    /// The return type as text.
    pub return_type_text: String,
    /// The return type the operation had when the draft was made.
    pub original_return_type: TypeReference,
    /// The parameters.
    pub parameters: Vec<DraftParameter>,
    /// The visibility.
    pub visibility: Visibility,
    /// The static flag.
    pub is_static: bool,
    /// The abstract flag.
    pub is_abstract: bool,
    /// The virtual flag.
    pub is_virtual: bool,
}

/// The mathematical value of a `DraftOperation`.
pub struct DraftOperationView {
    pub name: Seq<char>,
    pub return_type_text: Seq<char>,
    pub original_return_type: TypeReferenceView,
    pub parameters: Seq<DraftParameterView>,
    pub visibility: Visibility,
    pub is_static: bool,
    pub is_abstract: bool,
    pub is_virtual: bool,
}

impl View for DraftOperation {
    type V = DraftOperationView;

    open spec fn view(&self) -> DraftOperationView {
        DraftOperationView {
            name: self.name@,
            return_type_text: self.return_type_text@,
            original_return_type: self.original_return_type@,
            parameters: draft_parameters_view(self.parameters@),
            visibility: self.visibility,
            is_static: self.is_static,
            is_abstract: self.is_abstract,
            is_virtual: self.is_virtual,
        }
    }
}

/// The features of a classifier while the user edits them.
#[derive(Debug, Clone)]
pub struct ClassifierDraft {
    /// The attributes.
    pub attributes: Vec<DraftAttribute>,
    /// The operations.
    pub operations: Vec<DraftOperation>,
}

/// The mathematical value of a `ClassifierDraft`.
pub struct ClassifierDraftView {
    pub attributes: Seq<DraftAttributeView>,
    pub operations: Seq<DraftOperationView>,
}

impl View for ClassifierDraft {
    type V = ClassifierDraftView;

    open spec fn view(&self) -> ClassifierDraftView {
        ClassifierDraftView {
            attributes: self.attributes@.map_values(|a: DraftAttribute| a@),
            operations: self.operations@.map_values(|o: DraftOperation| o@),
        }
    }
}

/// The draft of an attribute as it is in the model: its type shown by name.
pub open spec fn attribute_draft_of(m: UmlModelView, a: AttributeView) -> DraftAttributeView {
    DraftAttributeView {
        name: a.name,
        type_text: type_display_spec(a.type_ref, Some(m)),
        original_type: a.type_ref,
        visibility: a.visibility,
        initial_value: or_empty(a.initial_value),
        is_static: a.is_static,
    }
}

/// The draft of a parameter as it is in the model.
pub open spec fn parameter_draft_of(m: UmlModelView, p: ParameterView) -> DraftParameterView {
    DraftParameterView {
        name: p.name,
        type_text: type_display_spec(p.type_ref, Some(m)),
        original_type: p.type_ref,
        direction: p.direction,
        default_value: or_empty(p.default_value),
    }
}

/// The draft of an operation as it is in the model.
pub open spec fn operation_draft_of(m: UmlModelView, o: OperationView) -> DraftOperationView {
    DraftOperationView {
        name: o.name,
        return_type_text: type_display_spec(o.return_type, Some(m)),
        original_return_type: o.return_type,
        parameters: o.parameters.map_values(|p: ParameterView| parameter_draft_of(m, p)),
        visibility: o.visibility,
        is_static: o.is_static,
        is_abstract: o.is_abstract,
        is_virtual: o.is_virtual,
    }
}

/// The draft that shows a classifier's features as they are.
pub open spec fn classifier_draft_of(m: UmlModelView, c: ClassifierDataView) -> ClassifierDraftView {
    ClassifierDraftView {
        attributes: c.attributes.map_values(|a: AttributeView| attribute_draft_of(m, a)),
        operations: c.operations.map_values(|o: OperationView| operation_draft_of(m, o)),
    }
}

impl DraftParameter {
    /// The draft of a parameter as it is in the model.
    pub fn of(model: &UmlModel, p: &Parameter) -> (d: Self)
        requires
            model.wf(),
        ensures
            d@ == parameter_draft_of(model@, p@),
    {
        DraftParameter {
            name: p.name.clone(),
            type_text: p.type_ref.display_name(Some(model)),
            original_type: p.type_ref.clone(),
            direction: p.direction,
            default_value: text_or_empty(&p.default_value),
        }
    }
}

impl DraftAttribute {
    /// The draft of an attribute as it is in the model.
    pub fn of(model: &UmlModel, a: &Attribute) -> (d: Self)
        requires
            model.wf(),
        ensures
            d@ == attribute_draft_of(model@, a@),
    {
        DraftAttribute {
            name: a.name.clone(),
            type_text: a.type_ref.display_name(Some(model)),
            original_type: a.type_ref.clone(),
            visibility: a.visibility,
            initial_value: text_or_empty(&a.initial_value),
            is_static: a.is_static,
        }
    }
}

impl DraftOperation {
    /// The draft of an operation as it is in the model.
    pub fn of(model: &UmlModel, o: &Operation) -> (d: Self)
        requires
            model.wf(),
        ensures
            d@ == operation_draft_of(model@, o@),
    {
        let mut parameters: Vec<DraftParameter> = Vec::new();
        let mut i: usize = 0;
        while i < o.parameters.len()
            invariant
                model.wf(),
                i <= o.parameters@.len(),
                parameters@.len() == i,
                forall|j: int| 0 <= j < i ==> parameters@[j]@ == parameter_draft_of(model@, o.parameters@[j]@),
            decreases o.parameters.len() - i,
        {
            parameters.push(DraftParameter::of(model, &o.parameters[i]));
            i += 1;
        }
        let d = DraftOperation {
            name: o.name.clone(),
            return_type_text: o.return_type.display_name(Some(model)),
            original_return_type: o.return_type.clone(),
            parameters,
            visibility: o.visibility,
            is_static: o.is_static,
            is_abstract: o.is_abstract,
            is_virtual: o.is_virtual,
        };
        assert(d@.parameters =~= operation_draft_of(model@, o@).parameters);
        d
    }
}

impl ClassifierDraft {
    /// The draft that shows a classifier's features as they are.
    pub fn of(model: &UmlModel, c: &ClassifierData) -> (d: Self)
        requires
            model.wf(),
        ensures
            d@ == classifier_draft_of(model@, c@),
    {
        let mut attributes: Vec<DraftAttribute> = Vec::new();
        let mut i: usize = 0;
        while i < c.attributes.len()
            invariant
                model.wf(),
                i <= c.attributes@.len(),
                attributes@.len() == i,
                forall|j: int| 0 <= j < i ==> attributes@[j]@ == attribute_draft_of(model@, c.attributes@[j]@),
            decreases c.attributes.len() - i,
        {
            attributes.push(DraftAttribute::of(model, &c.attributes[i]));
            i += 1;
        }
        let mut operations: Vec<DraftOperation> = Vec::new();
        let mut k: usize = 0;
        while k < c.operations.len()
            invariant
                model.wf(),
                k <= c.operations@.len(),
                operations@.len() == k,
                forall|j: int| 0 <= j < k ==> operations@[j]@ == operation_draft_of(model@, c.operations@[j]@),
            decreases c.operations.len() - k,
        {
            operations.push(DraftOperation::of(model, &c.operations[k]));
            k += 1;
        }
        let d = ClassifierDraft { attributes, operations };
        assert(d@.attributes =~= classifier_draft_of(model@, c@).attributes);
        assert(d@.operations =~= classifier_draft_of(model@, c@).operations);
        d
    }
}

// ─── Checking and applying a classifier draft ────────────────────────

/// Whether a name is blank once trimmed.
pub open spec fn blank(s: Seq<char>) -> bool {
    trimmed(s).len() == 0
}

/// Whether an operation's draft has a blank name or a parameter with one.
pub open spec fn operation_faulty(o: DraftOperationView) -> bool {
    blank(o.name) || exists|j: int| 0 <= j < o.parameters.len() && blank(#[trigger] o.parameters[j].name)
}

/// The position of the first attribute with a blank name.
pub open spec fn first_blank_attribute(d: ClassifierDraftView) -> int {
    choose|i: int|
        0 <= i < d.attributes.len() && blank(d.attributes[i].name) && forall|k: int|
            0 <= k < i ==> !blank(#[trigger] d.attributes[k].name)
}

/// The position of the first faulty operation.
pub open spec fn first_faulty_operation(d: ClassifierDraftView) -> int {
    choose|i: int|
        0 <= i < d.operations.len() && operation_faulty(d.operations[i]) && forall|k: int|
            0 <= k < i ==> !operation_faulty(#[trigger] d.operations[k])
}

/// The position of an operation's first parameter with a blank name.
pub open spec fn first_blank_parameter(o: DraftOperationView) -> int {
    choose|j: int|
        0 <= j < o.parameters.len() && blank(o.parameters[j].name) && forall|k: int|
            0 <= k < j ==> !blank(#[trigger] o.parameters[k].name)
}

/// Why a classifier draft cannot be applied: the first blank name, looking
/// at the attributes first and then at each operation and its parameters in
/// turn.
pub open spec fn draft_problem(d: ClassifierDraftView) -> Option<Seq<char>> {
    if exists|i: int| 0 <= i < d.attributes.len() && blank(#[trigger] d.attributes[i].name) {
        Some("Attribute "@ + decimal(first_blank_attribute(d) as nat) + " has an empty name"@)
    } else if exists|i: int| 0 <= i < d.operations.len() && operation_faulty(#[trigger] d.operations[i]) {
        let i = first_faulty_operation(d);
        if blank(d.operations[i].name) {
            Some("Operation "@ + decimal(i as nat) + " has an empty name"@)
        } else {
            Some(
                "Operation "@ + decimal(i as nat) + " parameter "@ + decimal(
                    first_blank_parameter(d.operations[i]) as nat,
                ) + " has an empty name"@,
            )
        }
    } else {
        None
    }
}

/// `<prefix><n><suffix>`.
fn numbered_message(prefix: &str, n: usize, suffix: &str) -> (m: String)
    ensures
        m@ == prefix@ + decimal(n as nat) + suffix@,
{
    let mut m = owned(prefix);
    m.append(decimal_text(n as u64).as_str());
    m.append(suffix);
    m
}

/// Whether the text is blank once trimmed.
fn is_blank(s: &String) -> (b: bool)
    ensures
        b == blank(s@),
{
    let t = trim(s.as_str());
    is_empty_text(&t)
}

/// The first blank name found is the one `first_blank_attribute` names.
proof fn lemma_first_blank_attribute(d: ClassifierDraftView, i: int)
    requires
        0 <= i < d.attributes.len(),
        blank(d.attributes[i].name),
        forall|k: int| 0 <= k < i ==> !blank(#[trigger] d.attributes[k].name),
    ensures
        first_blank_attribute(d) == i,
{
    let w = first_blank_attribute(d);
    assert(0 <= w < d.attributes.len() && blank(d.attributes[w].name) && forall|k: int|
        0 <= k < w ==> !blank(#[trigger] d.attributes[k].name));
    if w < i {
        assert(!blank(d.attributes[w].name));
    }
    if i < w {
        assert(!blank(d.attributes[i].name));
    }
}

/// The first faulty operation found is the one `first_faulty_operation`
/// names.
proof fn lemma_first_faulty_operation(d: ClassifierDraftView, i: int)
    requires
        0 <= i < d.operations.len(),
        operation_faulty(d.operations[i]),
        forall|k: int| 0 <= k < i ==> !operation_faulty(#[trigger] d.operations[k]),
    ensures
        first_faulty_operation(d) == i,
{
    let w = first_faulty_operation(d);
    assert(0 <= w < d.operations.len() && operation_faulty(d.operations[w]) && forall|k: int|
        0 <= k < w ==> !operation_faulty(#[trigger] d.operations[k]));
    if w < i {
        assert(!operation_faulty(d.operations[w]));
    }
    if i < w {
        assert(!operation_faulty(d.operations[i]));
    }
}

/// The first blank parameter found is the one `first_blank_parameter` names.
proof fn lemma_first_blank_parameter(o: DraftOperationView, j: int)
    requires
        0 <= j < o.parameters.len(),
        blank(o.parameters[j].name),
        forall|k: int| 0 <= k < j ==> !blank(#[trigger] o.parameters[k].name),
    ensures
        first_blank_parameter(o) == j,
{
    let w = first_blank_parameter(o);
    assert(0 <= w < o.parameters.len() && blank(o.parameters[w].name) && forall|k: int|
        0 <= k < w ==> !blank(#[trigger] o.parameters[k].name));
    if w < j {
        assert(!blank(o.parameters[w].name));
    }
    if j < w {
        assert(!blank(o.parameters[j].name));
    }
}

impl DraftOperation {
    /// The position of the first parameter with a blank name, if any.
    fn blank_parameter(&self) -> (r: Option<usize>)
        ensures
            match r {
                Some(j) => {
                    &&& j < self@.parameters.len()
                    &&& blank(self@.parameters[j as int].name)
                    &&& forall|k: int| 0 <= k < j ==> !blank(#[trigger] self@.parameters[k].name)
                },
                None => forall|k: int| 0 <= k < self@.parameters.len() ==> !blank(#[trigger] self@.parameters[k].name),
            },
    {
        let mut j: usize = 0;
        while j < self.parameters.len()
            invariant
                j <= self@.parameters.len(),
                forall|k: int| 0 <= k < j ==> !blank(#[trigger] self@.parameters[k].name),
            decreases self.parameters.len() - j,
        {
            assert(self@.parameters[j as int] == self.parameters@[j as int]@);
            if is_blank(&self.parameters[j].name) {
                return Some(j);
            }
            j += 1;
        }
        None
    }
}

impl ClassifierDraft {
    /// Why the draft cannot be applied, if it cannot: the first blank name.
    pub fn problem(&self) -> (r: Option<String>)
        ensures
            crate::text::opt_text(r) == draft_problem(self@),
    {
        proof {
            reveal_strlit("Attribute ");
            reveal_strlit(" has an empty name");
            reveal_strlit("Operation ");
            reveal_strlit(" parameter ");
        }
        let ghost d = self@;
        let mut i: usize = 0;
        while i < self.attributes.len()
            invariant
                d == self@,
                i <= self.attributes@.len(),
                forall|k: int| 0 <= k < i ==> !blank(#[trigger] d.attributes[k].name),
            decreases self.attributes.len() - i,
        {
            assert(d.attributes[i as int] == self.attributes@[i as int]@);
            if is_blank(&self.attributes[i].name) {
                proof {
                    lemma_first_blank_attribute(d, i as int);
                }
                return Some(numbered_message("Attribute ", i, " has an empty name"));
            }
            i += 1;
        }
        assert(!exists|i: int| 0 <= i < d.attributes.len() && blank(#[trigger] d.attributes[i].name));
        let mut k: usize = 0;
        while k < self.operations.len()
            invariant
                d == self@,
                k <= self.operations@.len(),
                !exists|i: int| 0 <= i < d.attributes.len() && blank(#[trigger] d.attributes[i].name),
                forall|q: int| 0 <= q < k ==> !operation_faulty(#[trigger] d.operations[q]),
            decreases self.operations.len() - k,
        {
            let op = &self.operations[k];
            assert(d.operations[k as int] == op@);
            if is_blank(&op.name) {
                proof {
                    lemma_first_faulty_operation(d, k as int);
                }
                return Some(numbered_message("Operation ", k, " has an empty name"));
            }
            match op.blank_parameter() {
                Some(j) => {
                    proof {
                        lemma_first_faulty_operation(d, k as int);
                        lemma_first_blank_parameter(op@, j as int);
                    }
                    let mut m = numbered_message("Operation ", k, " parameter ");
                    m.append(decimal_text(j as u64).as_str());
                    m.append(" has an empty name");
                    return Some(m);
                },
                None => {},
            }
            k += 1;
        }
        assert(!exists|i: int| 0 <= i < d.operations.len() && operation_faulty(#[trigger] d.operations[i]));
        None
    }
}

/// The type a draft's type text stands for: none when blank; the original
/// type when the text is still its name (its primitive name, or the name of
/// the model element it refers to); otherwise a primitive type of that text.
pub open spec fn resolved_type(m: UmlModelView, text: Seq<char>, original: TypeReferenceView) -> TypeReferenceView {
    let t = trimmed(text);
    if t.len() == 0 {
        TypeReferenceView { model_id: None, primitive_name: None }
    } else if original.primitive_name == Some(t) {
        original
    } else if original.model_id is Some && m.elements.contains_key(original.model_id->0)
        && m.elements[original.model_id->0].name() == t {
        original
    } else {
        TypeReferenceView { model_id: None, primitive_name: Some(t) }
    }
}

/// The attribute a drafted attribute becomes.
pub open spec fn attribute_of_draft(m: UmlModelView, a: DraftAttributeView) -> AttributeView {
    AttributeView {
        name: a.name,
        type_ref: resolved_type(m, a.type_text, a.original_type),
        visibility: a.visibility,
        initial_value: optional_value(a.initial_value),
        is_static: a.is_static,
    }
}

/// The parameter a drafted parameter becomes.
pub open spec fn parameter_of_draft(m: UmlModelView, p: DraftParameterView) -> ParameterView {
    ParameterView {
        name: p.name,
        type_ref: resolved_type(m, p.type_text, p.original_type),
        direction: p.direction,
        default_value: optional_value(p.default_value),
    }
}

/// The operation a drafted operation becomes.
pub open spec fn operation_of_draft(m: UmlModelView, o: DraftOperationView) -> OperationView {
    OperationView {
        name: o.name,
        return_type: resolved_type(m, o.return_type_text, o.original_return_type),
        parameters: o.parameters.map_values(|p: DraftParameterView| parameter_of_draft(m, p)),
        visibility: o.visibility,
        is_static: o.is_static,
        is_abstract: o.is_abstract,
        is_virtual: o.is_virtual,
    }
}

/// The features a classifier draft installs, keeping the given template
/// parameters.
pub open spec fn features_of_draft(
    m: UmlModelView,
    d: ClassifierDraftView,
    templates: Seq<crate::elements::TemplateParameterView>,
) -> ClassifierDataView {
    ClassifierDataView {
        attributes: d.attributes.map_values(|a: DraftAttributeView| attribute_of_draft(m, a)),
        operations: d.operations.map_values(|o: DraftOperationView| operation_of_draft(m, o)),
        templates,
    }
}

/// The type a draft's type text stands for.
pub fn resolve_draft_type(model: &UmlModel, type_text: &str, original: &TypeReference) -> (t: TypeReference)
    requires
        model.wf(),
    ensures
        t@ == resolved_type(model@, type_text@, original@),
{
    let text = trim(type_text);
    if is_empty_text(&text) {
        return TypeReference::unspecified();
    }
    match &original.primitive_name {
        Some(name) => {
            if crate::text::string_eq(name, &text) {
                return original.clone();
            }
        },
        None => {},
    }
    match original.model_id {
        Some(id) => match model.get(id) {
            Some(e) => {
                let shown = owned(e.name());
                if crate::text::string_eq(&shown, &text) {
                    return original.clone();
                }
            },
            None => {},
        },
        None => {},
    }
    TypeReference::primitive(text.as_str())
}

impl DraftParameter {
    /// The parameter this draft becomes.
    pub fn to_parameter(&self, model: &UmlModel) -> (p: Parameter)
        requires
            model.wf(),
        ensures
            p@ == parameter_of_draft(model@, self@),
    {
        Parameter {
            name: self.name.clone(),
            type_ref: resolve_draft_type(model, self.type_text.as_str(), &self.original_type),
            direction: self.direction,
            default_value: optional_of(self.default_value.as_str()),
        }
    }
}

impl DraftAttribute {
    /// The attribute this draft becomes.
    pub fn to_attribute(&self, model: &UmlModel) -> (a: Attribute)
        requires
            model.wf(),
        ensures
            a@ == attribute_of_draft(model@, self@),
    {
        Attribute {
            name: self.name.clone(),
            type_ref: resolve_draft_type(model, self.type_text.as_str(), &self.original_type),
            visibility: self.visibility,
            initial_value: optional_of(self.initial_value.as_str()),
            is_static: self.is_static,
        }
    }
}

impl DraftOperation {
    /// The operation this draft becomes.
    pub fn to_operation(&self, model: &UmlModel) -> (o: Operation)
        requires
            model.wf(),
        ensures
            o@ == operation_of_draft(model@, self@),
    {
        let mut parameters: Vec<Parameter> = Vec::new();
        let mut i: usize = 0;
        while i < self.parameters.len()
            invariant
                model.wf(),
                i <= self.parameters@.len(),
                parameters@.len() == i,
                forall|j: int| 0 <= j < i ==> parameters@[j]@ == parameter_of_draft(model@, self.parameters@[j]@),
            decreases self.parameters.len() - i,
        {
            parameters.push(self.parameters[i].to_parameter(model));
            i += 1;
        }
        let o = Operation {
            name: self.name.clone(),
            return_type: resolve_draft_type(model, self.return_type_text.as_str(), &self.original_return_type),
            parameters,
            visibility: self.visibility,
            is_static: self.is_static,
            is_abstract: self.is_abstract,
            is_virtual: self.is_virtual,
        };
        assert(o@.parameters =~= operation_of_draft(model@, self@).parameters);
        o
    }
}

impl ClassifierDraft {
    /// The features this draft installs on a classifier whose features are
    /// `current`: its template parameters are kept.
    pub fn to_features(&self, model: &UmlModel, current: &ClassifierData) -> (c: ClassifierData)
        requires
            model.wf(),
        ensures
            c@ == features_of_draft(model@, self@, current@.templates),
    {
        let mut attributes: Vec<Attribute> = Vec::new();
        let mut i: usize = 0;
        while i < self.attributes.len()
            invariant
                model.wf(),
                i <= self.attributes@.len(),
                attributes@.len() == i,
                forall|j: int| 0 <= j < i ==> attributes@[j]@ == attribute_of_draft(model@, self.attributes@[j]@),
            decreases self.attributes.len() - i,
        {
            attributes.push(self.attributes[i].to_attribute(model));
            i += 1;
        }
        let mut operations: Vec<Operation> = Vec::new();
        let mut k: usize = 0;
        while k < self.operations.len()
            invariant
                model.wf(),
                k <= self.operations@.len(),
                operations@.len() == k,
                forall|j: int| 0 <= j < k ==> operations@[j]@ == operation_of_draft(model@, self.operations@[j]@),
            decreases self.operations.len() - k,
        {
            operations.push(self.operations[k].to_operation(model));
            k += 1;
        }
        let mut c = current.clone();
        c.attributes = attributes;
        c.operations = operations;
        assert(c@.attributes =~= features_of_draft(model@, self@, current@.templates).attributes);
        assert(c@.operations =~= features_of_draft(model@, self@, current@.templates).operations);
        c
    }
}

// ─── Laws of drafts ──────────────────────────────────────────────────

/// An optional text that reads back as itself through a draft field: absent,
/// or a non-empty text without surrounding white space.
pub open spec fn settled(o: Option<Seq<char>>) -> bool {
    match o {
        Some(t) => t.len() > 0 && trimmed(t) == t,
        None => true,
    }
}

/// A type whose shown name reads back as the type itself: a primitive type
/// with a settled name, or a reference to an element of the model whose name
/// is settled.
pub open spec fn type_settled(m: UmlModelView, t: TypeReferenceView) -> bool {
    match t.primitive_name {
        Some(n) => settled(Some(n)),
        None => match t.model_id {
            Some(id) => m.elements.contains_key(id) && settled(Some(m.elements[id].name())),
            None => false,
        },
    }
}

/// A settled optional text survives being shown in a draft field and read
/// back.
pub proof fn lemma_settled_text_round_trip(o: Option<Seq<char>>)
    requires
        settled(o),
    ensures
        optional_value(or_empty(o)) == o,
{
}

/// A settled type survives being shown by name in a draft and read back.
pub proof fn lemma_settled_type_round_trip(m: UmlModelView, t: TypeReferenceView)
    requires
        type_settled(m, t),
    ensures
        resolved_type(m, type_display_spec(t, Some(m)), t) == t,
{
}

/// Applying the draft that shows a relationship as it is changes nothing,
/// when its role names and multiplicities are settled (a blank one would be
/// dropped, a padded one trimmed).
pub proof fn lemma_unchanged_relationship_draft(r: RelationshipView)
    requires
        settled(r.source_role_name),
        settled(r.source_multiplicity),
        settled(r.target_role_name),
        settled(r.target_multiplicity),
    ensures
        with_relationship_draft(r, relationship_draft_of(r)) == r,
{
    lemma_settled_text_round_trip(r.source_role_name);
    lemma_settled_text_round_trip(r.source_multiplicity);
    lemma_settled_text_round_trip(r.target_role_name);
    lemma_settled_text_round_trip(r.target_multiplicity);
}

/// Every type and optional value of a parameter is settled.
pub open spec fn parameter_settled(m: UmlModelView, p: ParameterView) -> bool {
    type_settled(m, p.type_ref) && settled(p.default_value)
}

/// Every type and optional value of an operation is settled.
pub open spec fn operation_settled(m: UmlModelView, o: OperationView) -> bool {
    &&& type_settled(m, o.return_type)
    &&& forall|j: int| 0 <= j < o.parameters.len() ==> parameter_settled(m, #[trigger] o.parameters[j])
}

/// Every type and optional value of a classifier's features is settled.
pub open spec fn features_settled(m: UmlModelView, c: ClassifierDataView) -> bool {
    &&& forall|i: int|
        0 <= i < c.attributes.len() ==> type_settled(m, (#[trigger] c.attributes[i]).type_ref) && settled(
            c.attributes[i].initial_value,
        )
    &&& forall|i: int| 0 <= i < c.operations.len() ==> operation_settled(m, #[trigger] c.operations[i])
}

/// Applying the draft that shows an operation as it is gives the operation
/// back, when its types and default values are settled.
pub proof fn lemma_unchanged_operation_draft(m: UmlModelView, o: OperationView)
    requires
        operation_settled(m, o),
    ensures
        operation_of_draft(m, operation_draft_of(m, o)) == o,
{
    lemma_settled_type_round_trip(m, o.return_type);
    let d = operation_draft_of(m, o);
    let ps = d.parameters.map_values(|p: DraftParameterView| parameter_of_draft(m, p));
    assert forall|j: int| 0 <= j < o.parameters.len() implies ps[j] == o.parameters[j] by {
        assert(parameter_settled(m, o.parameters[j]));
        lemma_settled_type_round_trip(m, o.parameters[j].type_ref);
        lemma_settled_text_round_trip(o.parameters[j].default_value);
    }
    assert(ps =~= o.parameters);
}

/// Applying the draft that shows a classifier's features as they are
/// changes nothing, when every type shown by name reads back as itself and
/// every optional value is settled (an unspecified type, shown as `void`,
/// would come back as the primitive type `void`).
pub proof fn lemma_unchanged_classifier_draft(m: UmlModelView, c: ClassifierDataView)
    requires
        features_settled(m, c),
    ensures
        features_of_draft(m, classifier_draft_of(m, c), c.templates) == c,
{
    let d = classifier_draft_of(m, c);
    let f = features_of_draft(m, d, c.templates);
    assert forall|i: int| 0 <= i < c.attributes.len() implies f.attributes[i] == c.attributes[i] by {
        assert(type_settled(m, c.attributes[i].type_ref) && settled(c.attributes[i].initial_value));
        lemma_settled_type_round_trip(m, c.attributes[i].type_ref);
        lemma_settled_text_round_trip(c.attributes[i].initial_value);
    }
    assert forall|i: int| 0 <= i < c.operations.len() implies f.operations[i] == c.operations[i] by {
        assert(operation_settled(m, c.operations[i]));
        lemma_unchanged_operation_draft(m, c.operations[i]);
    }
    assert(f.attributes =~= c.attributes);
    assert(f.operations =~= c.operations);
}

} // verus!
