//! Editing a classifier draft feature by feature: adding attributes,
//! operations and parameters under fresh default names, deleting them, and
//! setting their visibility, direction and flags.
use crate::drafts::{
    RelationshipDraft, RelationshipDraftView, ClassifierDraft, ClassifierDraftView, DraftAttribute, DraftAttributeView, DraftOperation,
    DraftOperationView, DraftParameter, DraftParameterView,
};
use crate::elements::{TypeReference, TypeReferenceView};
use crate::naming::{generate_unique_name_in_draft, name_set, unique_name};
use crate::types::{ParameterDirection, Visibility};
use vstd::prelude::*;

verus! {

/// The names of the draft's attributes.
pub open spec fn attribute_names(d: ClassifierDraftView) -> Set<Seq<char>> {
    Set::new(|s: Seq<char>| exists|i: int| 0 <= i < d.attributes.len() && d.attributes[i].name == s)
}

/// The names of the draft's operations.
pub open spec fn operation_names(d: ClassifierDraftView) -> Set<Seq<char>> {
    Set::new(|s: Seq<char>| exists|i: int| 0 <= i < d.operations.len() && d.operations[i].name == s)
}

/// The names of an operation's parameters.
pub open spec fn parameter_names(o: DraftOperationView) -> Set<Seq<char>> {
    Set::new(|s: Seq<char>| exists|i: int| 0 <= i < o.parameters.len() && o.parameters[i].name == s)
}

/// The type reference that names no type.
pub open spec fn no_type() -> TypeReferenceView {
    TypeReferenceView { model_id: None, primitive_name: None }
}

/// A new attribute of a draft: the name, no type, public, no initial value,
/// not static.
pub open spec fn new_draft_attribute(name: Seq<char>) -> DraftAttributeView {
    DraftAttributeView {
        name,
        type_text: Seq::empty(),
        original_type: no_type(),
        visibility: Visibility::Public,
        initial_value: Seq::empty(),
        is_static: false,
    }
}

/// A new operation of a draft: the name, no return type, no parameters,
/// public, with every flag cleared.
pub open spec fn new_draft_operation(name: Seq<char>) -> DraftOperationView {
    DraftOperationView {
        name,
        return_type_text: Seq::empty(),
        original_return_type: no_type(),
        parameters: Seq::empty(),
        visibility: Visibility::Public,
        is_static: false,
        is_abstract: false,
        is_virtual: false,
    }
}

/// A new parameter of a draft operation: the name, no type, `in`, no
/// default value.
pub open spec fn new_draft_parameter(name: Seq<char>) -> DraftParameterView {
    DraftParameterView {
        name,
        type_text: Seq::empty(),
        original_type: no_type(),
        direction: ParameterDirection::In,
        default_value: Seq::empty(),
    }
}

/// The flags of a draft operation that a click toggles.
#[derive(Debug, Clone, Copy, PartialEq, Eq, Structural)]
pub enum OperationFlag {
    /// The static flag.
    Static,
    /// The abstract flag.
    Abstract,
    /// The virtual flag.
    Virtual,
}

/// The operation with one flag inverted.
pub open spec fn flag_toggled(o: DraftOperationView, flag: OperationFlag) -> DraftOperationView {
    match flag {
        OperationFlag::Static => DraftOperationView { is_static: !o.is_static, ..o },
        OperationFlag::Abstract => DraftOperationView { is_abstract: !o.is_abstract, ..o },
        OperationFlag::Virtual => DraftOperationView { is_virtual: !o.is_virtual, ..o },
    }
}

/// The draft with operation `i` replaced.
pub open spec fn with_operation(d: ClassifierDraftView, i: int, o: DraftOperationView) -> ClassifierDraftView {
    ClassifierDraftView { operations: d.operations.update(i, o), ..d }
}

/// The draft with attribute `i` replaced.
pub open spec fn with_attribute(d: ClassifierDraftView, i: int, a: DraftAttributeView) -> ClassifierDraftView {
    ClassifierDraftView { attributes: d.attributes.update(i, a), ..d }
}

/// The operation with parameter `j` replaced.
pub open spec fn with_parameter(o: DraftOperationView, j: int, p: DraftParameterView) -> DraftOperationView {
    DraftOperationView { parameters: o.parameters.update(j, p), ..o }
}

impl ClassifierDraft {
    /// Copies of the attribute names, in order.
    fn attribute_name_list(&self) -> (names: Vec<String>)
        ensures
            name_set(names@) == attribute_names(self@),
            names@.len() == self@.attributes.len(),
    {
        let mut names: Vec<String> = Vec::new();
        let mut i: usize = 0;
        while i < self.attributes.len()
            invariant
                i <= self.attributes@.len(),
                names@.len() == i,
                forall|j: int| 0 <= j < i ==> names@[j]@ == self@.attributes[j].name,
            decreases self.attributes@.len() - i,
        {
            names.push(self.attributes[i].name.clone());
            i += 1;
        }
        proof {
            assert forall|s: Seq<char>| name_set(names@).contains(s) == attribute_names(self@).contains(s) by {
                if name_set(names@).contains(s) {
                    let j = choose|j: int| 0 <= j < names@.len() && names@[j]@ == s;
                    assert(self@.attributes[j].name == s);
                }
                if attribute_names(self@).contains(s) {
                    let j = choose|j: int| 0 <= j < self@.attributes.len() && self@.attributes[j].name == s;
                    assert(names@[j]@ == s);
                }
            }
            assert(name_set(names@) =~= attribute_names(self@));
        }
        names
    }

    /// Copies of the operation names, in order.
    fn operation_name_list(&self) -> (names: Vec<String>)
        ensures
            name_set(names@) == operation_names(self@),
            names@.len() == self@.operations.len(),
    {
        let mut names: Vec<String> = Vec::new();
        let mut i: usize = 0;
        while i < self.operations.len()
            invariant
                i <= self.operations@.len(),
                names@.len() == i,
                forall|j: int| 0 <= j < i ==> names@[j]@ == self@.operations[j].name,
            decreases self.operations@.len() - i,
        {
            names.push(self.operations[i].name.clone());
            i += 1;
        }
        proof {
            assert forall|s: Seq<char>| name_set(names@).contains(s) == operation_names(self@).contains(s) by {
                if name_set(names@).contains(s) {
                    let j = choose|j: int| 0 <= j < names@.len() && names@[j]@ == s;
                    assert(self@.operations[j].name == s);
                }
                if operation_names(self@).contains(s) {
                    let j = choose|j: int| 0 <= j < self@.operations.len() && self@.operations[j].name == s;
                    assert(names@[j]@ == s);
                }
            }
            assert(name_set(names@) =~= operation_names(self@));
        }
        names
    }
}

impl DraftOperation {
    /// Copies of the parameter names, in order.
    fn parameter_name_list(&self) -> (names: Vec<String>)
        ensures
            name_set(names@) == parameter_names(self@),
            names@.len() == self@.parameters.len(),
    {
        let mut names: Vec<String> = Vec::new();
        let mut i: usize = 0;
        while i < self.parameters.len()
            invariant
                i <= self.parameters@.len(),
                names@.len() == i,
                forall|j: int| 0 <= j < i ==> names@[j]@ == self@.parameters[j].name,
            decreases self.parameters@.len() - i,
        {
            names.push(self.parameters[i].name.clone());
            i += 1;
        }
        proof {
            assert forall|s: Seq<char>| name_set(names@).contains(s) == parameter_names(self@).contains(s) by {
                if name_set(names@).contains(s) {
                    let j = choose|j: int| 0 <= j < names@.len() && names@[j]@ == s;
                    assert(self@.parameters[j].name == s);
                }
                if parameter_names(self@).contains(s) {
                    let j = choose|j: int| 0 <= j < self@.parameters.len() && self@.parameters[j].name == s;
                    assert(names@[j]@ == s);
                }
            }
            assert(name_set(names@) =~= parameter_names(self@));
        }
        names
    }
}

impl ClassifierDraft {
    /// Add an attribute named `attribute_<n>`, with the first number free
    /// among the attribute names, no type, public and not static.
    pub fn add_attribute(&mut self)
        requires
            old(self)@.attributes.len() < usize::MAX,
        ensures
            final(self)@ == (ClassifierDraftView {
                attributes: old(self)@.attributes.push(
                    new_draft_attribute(unique_name(attribute_names(old(self)@), "attribute"@)),
                ),
                ..old(self)@
            }),
    {
        let names = self.attribute_name_list();
        let name = generate_unique_name_in_draft("attribute", &names);
        self.attributes.push(
            DraftAttribute {
                name,
                type_text: String::new(),
                original_type: TypeReference::unspecified(),
                visibility: Visibility::Public,
                initial_value: String::new(),
                is_static: false,
            },
        );
        proof {
            assert(self@.attributes =~= old(self)@.attributes.push(
                new_draft_attribute(unique_name(attribute_names(old(self)@), "attribute"@)),
            ));
        }
    }

    /// Add an operation named `operation_<n>`, with the first number free
    /// among the operation names, no return type, no parameters, public and
    /// with every flag cleared.
    pub fn add_operation(&mut self)
        requires
            old(self)@.operations.len() < usize::MAX,
        ensures
            final(self)@ == (ClassifierDraftView {
                operations: old(self)@.operations.push(
                    new_draft_operation(unique_name(operation_names(old(self)@), "operation"@)),
                ),
                ..old(self)@
            }),
    {
        let names = self.operation_name_list();
        let name = generate_unique_name_in_draft("operation", &names);
        let op = DraftOperation {
            name,
            return_type_text: String::new(),
            original_return_type: TypeReference::unspecified(),
            parameters: Vec::new(),
            visibility: Visibility::Public,
            is_static: false,
            is_abstract: false,
            is_virtual: false,
        };
        assert(op@.parameters =~= Seq::<DraftParameterView>::empty());
        self.operations.push(op);
        proof {
            assert(self@.operations =~= old(self)@.operations.push(
                new_draft_operation(unique_name(operation_names(old(self)@), "operation"@)),
            ));
        }
    }

    /// Delete attribute `index`; `false`, with nothing changed, when there is
    /// no such attribute.
    pub fn remove_attribute(&mut self, index: usize) -> (r: bool)
        ensures
            r == (index < old(self)@.attributes.len()),
            r ==> final(self)@ == (ClassifierDraftView {
                attributes: old(self)@.attributes.remove(index as int),
                ..old(self)@
            }),
            !r ==> final(self)@ == old(self)@,
    {
        if index >= self.attributes.len() {
            return false;
        }
        self.attributes.remove(index);
        proof {
            assert(self@.attributes =~= old(self)@.attributes.remove(index as int));
        }
        true
    }

    /// Set the visibility of attribute `index`; `false`, with nothing
    /// changed, when there is no such attribute.
    pub fn set_attribute_visibility(&mut self, index: usize, visibility: Visibility) -> (r: bool)
        ensures
            r == (index < old(self)@.attributes.len()),
            r ==> final(self)@ == with_attribute(
                old(self)@,
                index as int,
                DraftAttributeView { visibility, ..old(self)@.attributes[index as int] },
            ),
            !r ==> final(self)@ == old(self)@,
    {
        if index >= self.attributes.len() {
            return false;
        }
        let mut a = self.attributes.remove(index);
        a.visibility = visibility;
        self.attributes.insert(index, a);
        proof {
            assert(self@.attributes =~= old(self)@.attributes.update(
                index as int,
                DraftAttributeView { visibility, ..old(self)@.attributes[index as int] },
            ));
        }
        true
    }

    /// Invert the static flag of attribute `index`; `false`, with nothing
    /// changed, when there is no such attribute.
    pub fn toggle_attribute_static(&mut self, index: usize) -> (r: bool)
        ensures
            r == (index < old(self)@.attributes.len()),
            r ==> final(self)@ == with_attribute(
                old(self)@,
                index as int,
                DraftAttributeView {
                    is_static: !old(self)@.attributes[index as int].is_static,
                    ..old(self)@.attributes[index as int]
                },
            ),
            !r ==> final(self)@ == old(self)@,
    {
        if index >= self.attributes.len() {
            return false;
        }
        let mut a = self.attributes.remove(index);
        a.is_static = !a.is_static;
        self.attributes.insert(index, a);
        proof {
            assert(self@.attributes =~= old(self)@.attributes.update(
                index as int,
                DraftAttributeView {
                    is_static: !old(self)@.attributes[index as int].is_static,
                    ..old(self)@.attributes[index as int]
                },
            ));
        }
        true
    }

    /// Delete operation `index`; `false`, with nothing changed, when there is
    /// no such operation.
    pub fn remove_operation(&mut self, index: usize) -> (r: bool)
        ensures
            r == (index < old(self)@.operations.len()),
            r ==> final(self)@ == (ClassifierDraftView {
                operations: old(self)@.operations.remove(index as int),
                ..old(self)@
            }),
            !r ==> final(self)@ == old(self)@,
    {
        if index >= self.operations.len() {
            return false;
        }
        self.operations.remove(index);
        proof {
            assert(self@.operations =~= old(self)@.operations.remove(index as int));
        }
        true
    }

    /// Set the visibility of operation `index`; `false`, with nothing
    /// changed, when there is no such operation.
    pub fn set_operation_visibility(&mut self, index: usize, visibility: Visibility) -> (r: bool)
        ensures
            r == (index < old(self)@.operations.len()),
            r ==> final(self)@ == with_operation(
                old(self)@,
                index as int,
                DraftOperationView { visibility, ..old(self)@.operations[index as int] },
            ),
            !r ==> final(self)@ == old(self)@,
    {
        if index >= self.operations.len() {
            return false;
        }
        let mut o = self.operations.remove(index);
        o.visibility = visibility;
        self.operations.insert(index, o);
        proof {
            assert(self@.operations =~= old(self)@.operations.update(
                index as int,
                DraftOperationView { visibility, ..old(self)@.operations[index as int] },
            ));
        }
        true
    }

    /// Invert one flag of operation `index`; `false`, with nothing changed,
    /// when there is no such operation.
    pub fn toggle_operation_flag(&mut self, index: usize, flag: OperationFlag) -> (r: bool)
        ensures
            r == (index < old(self)@.operations.len()),
            r ==> final(self)@ == with_operation(
                old(self)@,
                index as int,
                flag_toggled(old(self)@.operations[index as int], flag),
            ),
            !r ==> final(self)@ == old(self)@,
    {
        if index >= self.operations.len() {
            return false;
        }
        let mut o = self.operations.remove(index);
        match flag {
            OperationFlag::Static => o.is_static = !o.is_static,
            OperationFlag::Abstract => o.is_abstract = !o.is_abstract,
            OperationFlag::Virtual => o.is_virtual = !o.is_virtual,
        }
        self.operations.insert(index, o);
        proof {
            assert(self@.operations =~= old(self)@.operations.update(
                index as int,
                flag_toggled(old(self)@.operations[index as int], flag),
            ));
        }
        true
    }

    /// Add a parameter to operation `op`, named `parameter_<n>` with the
    /// first number free among that operation's parameter names, untyped,
    /// `in` and without a default; `false`, with nothing changed, when there
    /// is no such operation.
    pub fn add_parameter(&mut self, op: usize) -> (r: bool)
        requires
            op < old(self)@.operations.len() ==> old(self)@.operations[op as int].parameters.len()
                < usize::MAX,
        ensures
            r == (op < old(self)@.operations.len()),
            r ==> final(self)@ == with_operation(
                old(self)@,
                op as int,
                DraftOperationView {
                    parameters: old(self)@.operations[op as int].parameters.push(
                        new_draft_parameter(
                            unique_name(parameter_names(old(self)@.operations[op as int]), "parameter"@),
                        ),
                    ),
                    ..old(self)@.operations[op as int]
                },
            ),
            !r ==> final(self)@ == old(self)@,
    {
        if op >= self.operations.len() {
            return false;
        }
        let ghost o0 = old(self)@.operations[op as int];
        let mut o = self.operations.remove(op);
        assert(o@ == o0);
        let names = o.parameter_name_list();
        let name = generate_unique_name_in_draft("parameter", &names);
        o.parameters.push(
            DraftParameter {
                name,
                type_text: String::new(),
                original_type: TypeReference::unspecified(),
                direction: ParameterDirection::In,
                default_value: String::new(),
            },
        );
        let ghost o1 = DraftOperationView {
            parameters: o0.parameters.push(new_draft_parameter(unique_name(parameter_names(o0), "parameter"@))),
            ..o0
        };
        assert(o@.parameters =~= o1.parameters);
        self.operations.insert(op, o);
        proof {
            assert(self@.operations =~= old(self)@.operations.update(op as int, o1));
        }
        true
    }

    /// Delete parameter `index` of operation `op`; `false`, with nothing
    /// changed, when there is no such parameter.
    pub fn remove_parameter(&mut self, op: usize, index: usize) -> (r: bool)
        ensures
            r == (op < old(self)@.operations.len() && index < old(self)@.operations[op as int].parameters.len()),
            r ==> final(self)@ == with_operation(
                old(self)@,
                op as int,
                DraftOperationView {
                    parameters: old(self)@.operations[op as int].parameters.remove(index as int),
                    ..old(self)@.operations[op as int]
                },
            ),
            !r ==> final(self)@ == old(self)@,
    {
        if op >= self.operations.len() {
            return false;
        }
        if index >= self.operations[op].parameters.len() {
            return false;
        }
        let ghost o0 = old(self)@.operations[op as int];
        let mut o = self.operations.remove(op);
        assert(o@ == o0);
        o.parameters.remove(index);
        let ghost o1 = DraftOperationView { parameters: o0.parameters.remove(index as int), ..o0 };
        assert(o@.parameters =~= o1.parameters);
        self.operations.insert(op, o);
        proof {
            assert(self@.operations =~= old(self)@.operations.update(op as int, o1));
        }
        true
    }

    /// Set the direction of parameter `index` of operation `op`; `false`,
    /// with nothing changed, when there is no such parameter.
    pub fn set_parameter_direction(&mut self, op: usize, index: usize, direction: ParameterDirection) -> (r:
        bool)
        ensures
            r == (op < old(self)@.operations.len() && index < old(self)@.operations[op as int].parameters.len()),
            r ==> final(self)@ == with_operation(
                old(self)@,
                op as int,
                with_parameter(
                    old(self)@.operations[op as int],
                    index as int,
                    DraftParameterView { direction, ..old(self)@.operations[op as int].parameters[index as int] },
                ),
            ),
            !r ==> final(self)@ == old(self)@,
    {
        if op >= self.operations.len() {
            return false;
        }
        if index >= self.operations[op].parameters.len() {
            return false;
        }
        let ghost o0 = old(self)@.operations[op as int];
        let ghost p1 = DraftParameterView { direction, ..o0.parameters[index as int] };
        let mut o = self.operations.remove(op);
        assert(o@ == o0);
        let mut p = o.parameters.remove(index);
        p.direction = direction;
        o.parameters.insert(index, p);
        let ghost o1 = with_parameter(o0, index as int, p1);
        assert(o@.parameters =~= o1.parameters);
        self.operations.insert(op, o);
        proof {
            assert(self@.operations =~= old(self)@.operations.update(op as int, o1));
        }
        true
    }
}

/// A copy of a type reference.
fn copy_type(t: &TypeReference) -> (r: TypeReference)
    ensures
        r@ == t@,
{
    TypeReference { model_id: t.model_id, primitive_name: crate::text::clone_opt_string(&t.primitive_name) }
}

impl DraftParameter {
    /// A copy of the parameter draft.
    pub fn duplicate(&self) -> (r: Self)
        ensures
            r@ == self@,
    {
        DraftParameter {
            name: self.name.clone(),
            type_text: self.type_text.clone(),
            original_type: copy_type(&self.original_type),
            direction: self.direction,
            default_value: self.default_value.clone(),
        }
    }
}

impl DraftAttribute {
    /// A copy of the attribute draft.
    pub fn duplicate(&self) -> (r: Self)
        ensures
            r@ == self@,
    {
        DraftAttribute {
            name: self.name.clone(),
            type_text: self.type_text.clone(),
            original_type: copy_type(&self.original_type),
            visibility: self.visibility,
            initial_value: self.initial_value.clone(),
            is_static: self.is_static,
        }
    }
}

impl DraftOperation {
    /// A copy of the operation draft.
    pub fn duplicate(&self) -> (r: Self)
        ensures
            r@ == self@,
    {
        let mut ps: Vec<DraftParameter> = Vec::new();
        let mut i: usize = 0;
        while i < self.parameters.len()
            invariant
                i <= self.parameters@.len(),
                ps@.len() == i,
                forall|j: int| 0 <= j < i ==> ps@[j]@ == self.parameters@[j]@,
            decreases self.parameters@.len() - i,
        {
            ps.push(self.parameters[i].duplicate());
            i += 1;
        }
        let r = DraftOperation {
            name: self.name.clone(),
            return_type_text: self.return_type_text.clone(),
            original_return_type: copy_type(&self.original_return_type),
            parameters: ps,
            visibility: self.visibility,
            is_static: self.is_static,
            is_abstract: self.is_abstract,
            is_virtual: self.is_virtual,
        };
        assert(r@.parameters =~= self@.parameters);
        r
    }
}

impl ClassifierDraft {
    /// A copy of the classifier draft.
    pub fn duplicate(&self) -> (r: Self)
        ensures
            r@ == self@,
    {
        let mut attributes: Vec<DraftAttribute> = Vec::new();
        let mut i: usize = 0;
        while i < self.attributes.len()
            invariant
                i <= self.attributes@.len(),
                attributes@.len() == i,
                forall|j: int| 0 <= j < i ==> attributes@[j]@ == self.attributes@[j]@,
            decreases self.attributes@.len() - i,
        {
            attributes.push(self.attributes[i].duplicate());
            i += 1;
        }
        let mut operations: Vec<DraftOperation> = Vec::new();
        let mut k: usize = 0;
        while k < self.operations.len()
            invariant
                k <= self.operations@.len(),
                operations@.len() == k,
                forall|j: int| 0 <= j < k ==> operations@[j]@ == self.operations@[j]@,
            decreases self.operations@.len() - k,
        {
            operations.push(self.operations[k].duplicate());
            k += 1;
        }
        let r = ClassifierDraft { attributes, operations };
        assert(r@.attributes =~= self@.attributes);
        assert(r@.operations =~= self@.operations);
        r
    }
}

/// A text field of a draft attribute.
#[derive(Debug, Clone, Copy, PartialEq, Eq, Structural)]
pub enum AttributeField {
    /// The name.
    Name,
    /// The type as text.
    TypeText,
    /// The initial value.
    InitialValue,
}

/// A text field of a draft operation.
#[derive(Debug, Clone, Copy, PartialEq, Eq, Structural)]
pub enum OperationField {
    /// The name.
    Name,
    /// The return type as text.
    ReturnType,
}

/// A text field of a draft parameter.
#[derive(Debug, Clone, Copy, PartialEq, Eq, Structural)]
pub enum ParameterField {
    /// The name.
    Name,
    /// The type as text.
    TypeText,
    /// The default value.
    DefaultValue,
}

/// A text field of a relationship draft.
#[derive(Debug, Clone, Copy, PartialEq, Eq, Structural)]
pub enum RelationshipField {
    /// The name.
    Name,
    /// The documentation.
    Documentation,
    /// The role at the source end.
    SourceRole,
    /// The multiplicity at the source end.
    SourceMultiplicity,
    /// The role at the target end.
    TargetRole,
    /// The multiplicity at the target end.
    TargetMultiplicity,
}

/// The attribute with one text field set.
pub open spec fn attribute_with_text(a: DraftAttributeView, f: AttributeField, v: Seq<char>) -> DraftAttributeView {
    match f {
        AttributeField::Name => DraftAttributeView { name: v, ..a },
        AttributeField::TypeText => DraftAttributeView { type_text: v, ..a },
        AttributeField::InitialValue => DraftAttributeView { initial_value: v, ..a },
    }
}

/// The operation with one text field set.
pub open spec fn operation_with_text(o: DraftOperationView, f: OperationField, v: Seq<char>) -> DraftOperationView {
    match f {
        OperationField::Name => DraftOperationView { name: v, ..o },
        OperationField::ReturnType => DraftOperationView { return_type_text: v, ..o },
    }
}

/// The parameter with one text field set.
pub open spec fn parameter_with_text(p: DraftParameterView, f: ParameterField, v: Seq<char>) -> DraftParameterView {
    match f {
        ParameterField::Name => DraftParameterView { name: v, ..p },
        ParameterField::TypeText => DraftParameterView { type_text: v, ..p },
        ParameterField::DefaultValue => DraftParameterView { default_value: v, ..p },
    }
}

/// The relationship draft with one text field set.
pub open spec fn relationship_with_text(d: RelationshipDraftView, f: RelationshipField, v: Seq<char>) -> RelationshipDraftView {
    match f {
        RelationshipField::Name => RelationshipDraftView { name: v, ..d },
        RelationshipField::Documentation => RelationshipDraftView { documentation: v, ..d },
        RelationshipField::SourceRole => RelationshipDraftView { source_role: v, ..d },
        RelationshipField::SourceMultiplicity => RelationshipDraftView { source_multiplicity: v, ..d },
        RelationshipField::TargetRole => RelationshipDraftView { target_role: v, ..d },
        RelationshipField::TargetMultiplicity => RelationshipDraftView { target_multiplicity: v, ..d },
    }
}

impl RelationshipDraft {
    /// Set one text field of the draft.
    pub fn set_text(&mut self, f: RelationshipField, value: &str)
        ensures
            final(self)@ == relationship_with_text(old(self)@, f, value@),
    {
        let v = String::from_str(value);
        match f {
            RelationshipField::Name => self.name = v,
            RelationshipField::Documentation => self.documentation = v,
            RelationshipField::SourceRole => self.source_role = v,
            RelationshipField::SourceMultiplicity => self.source_multiplicity = v,
            RelationshipField::TargetRole => self.target_role = v,
            RelationshipField::TargetMultiplicity => self.target_multiplicity = v,
        }
    }
}

impl ClassifierDraft {
    /// Set one text field of attribute `index`; `false`, with nothing
    /// changed, when there is no such attribute.
    pub fn set_attribute_text(&mut self, index: usize, f: AttributeField, value: &str) -> (r: bool)
        ensures
            r == (index < old(self)@.attributes.len()),
            r ==> final(self)@ == with_attribute(
                old(self)@,
                index as int,
                attribute_with_text(old(self)@.attributes[index as int], f, value@),
            ),
            !r ==> final(self)@ == old(self)@,
    {
        if index >= self.attributes.len() {
            return false;
        }
        let mut a = self.attributes.remove(index);
        let v = String::from_str(value);
        match f {
            AttributeField::Name => a.name = v,
            AttributeField::TypeText => a.type_text = v,
            AttributeField::InitialValue => a.initial_value = v,
        }
        self.attributes.insert(index, a);
        proof {
            assert(self@.attributes =~= old(self)@.attributes.update(
                index as int,
                attribute_with_text(old(self)@.attributes[index as int], f, value@),
            ));
        }
        true
    }

    /// Set one text field of operation `index`; `false`, with nothing
    /// changed, when there is no such operation.
    pub fn set_operation_text(&mut self, index: usize, f: OperationField, value: &str) -> (r: bool)
        ensures
            r == (index < old(self)@.operations.len()),
            r ==> final(self)@ == with_operation(
                old(self)@,
                index as int,
                operation_with_text(old(self)@.operations[index as int], f, value@),
            ),
            !r ==> final(self)@ == old(self)@,
    {
        if index >= self.operations.len() {
            return false;
        }
        let mut o = self.operations.remove(index);
        let v = String::from_str(value);
        match f {
            OperationField::Name => o.name = v,
            OperationField::ReturnType => o.return_type_text = v,
        }
        self.operations.insert(index, o);
        proof {
            assert(self@.operations =~= old(self)@.operations.update(
                index as int,
                operation_with_text(old(self)@.operations[index as int], f, value@),
            ));
        }
        true
    }

    /// Set one text field of parameter `index` of operation `op`; `false`,
    /// with nothing changed, when there is no such parameter.
    pub fn set_parameter_text(&mut self, op: usize, index: usize, f: ParameterField, value: &str) -> (r: bool)
        ensures
            r == (op < old(self)@.operations.len() && index < old(self)@.operations[op as int].parameters.len()),
            r ==> final(self)@ == with_operation(
                old(self)@,
                op as int,
                with_parameter(
                    old(self)@.operations[op as int],
                    index as int,
                    parameter_with_text(old(self)@.operations[op as int].parameters[index as int], f, value@),
                ),
            ),
            !r ==> final(self)@ == old(self)@,
    {
        if op >= self.operations.len() {
            return false;
        }
        if index >= self.operations[op].parameters.len() {
            return false;
        }
        let ghost o0 = old(self)@.operations[op as int];
        let ghost p1 = parameter_with_text(o0.parameters[index as int], f, value@);
        let mut o = self.operations.remove(op);
        assert(o@ == o0);
        let mut p = o.parameters.remove(index);
        let v = String::from_str(value);
        match f {
            ParameterField::Name => p.name = v,
            ParameterField::TypeText => p.type_text = v,
            ParameterField::DefaultValue => p.default_value = v,
        }
        o.parameters.insert(index, p);
        let ghost o1 = with_parameter(o0, index as int, p1);
        assert(o@.parameters =~= o1.parameters);
        self.operations.insert(op, o);
        proof {
            assert(self@.operations =~= old(self)@.operations.update(op as int, o1));
        }
        true
    }
}

} // verus!
