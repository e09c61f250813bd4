//! UML model element types.
//!
//! All element types share `ElementBase` for common metadata, and
//! classifier-like types share `ClassifierData` for attributes, operations
//! and templates. `ModelElement` dispatches over the element kinds.
//!
//! Each type has a mathematical view (text as `Seq<char>`, lists as `Seq`)
//! over which the contracts are stated; `eq_view` decides equality of views
//! and `clone` copies a value with the same view.
use crate::id::{uuid_text_spec, UmlId};
use crate::repository::{UmlModel, UmlModelView};
use crate::text::{clone_opt_string, opt_string_eq, opt_text, owned, string_eq};
use crate::types::{AssociationType, ObjectType, ParameterDirection, Visibility};
use vstd::prelude::*;

verus! {

// ─── ElementBase ─────────────────────────────────────────────────────

/// Common metadata shared by all UML model elements.
#[derive(Debug, PartialEq)]
pub struct ElementBase {
    /// Unique identifier.
    pub id: UmlId,
    /// Human-readable name.
    pub name: String,
    /// Access visibility.
    pub visibility: Visibility,
    /// Optional stereotype reference (by ID).
    pub stereotype_id: Option<UmlId>,
    /// Documentation / comment text.
    pub documentation: String,
    /// `true` if the element is abstract (cannot be instantiated).
    pub is_abstract: bool,
    /// `true` if the element is static (class-level).
    pub is_static: bool,
    /// Original XMI id from the source file, kept for round-trip compatibility.
    pub original_xmi_id: Option<String>,
}

/// The mathematical value of an `ElementBase`.
pub struct ElementBaseView {
    /// Unique identifier.
    pub id: UmlId,
    /// Name.
    pub name: Seq<char>,
    /// Visibility.
    pub visibility: Visibility,
    /// Stereotype reference.
    pub stereotype_id: Option<UmlId>,
    /// Documentation text.
    pub documentation: Seq<char>,
    /// Abstract flag.
    pub is_abstract: bool,
    /// Static flag.
    pub is_static: bool,
    /// Original XMI id.
    pub original_xmi_id: Option<Seq<char>>,
}

impl View for ElementBase {
    type V = ElementBaseView;

    open spec fn view(&self) -> ElementBaseView {
        ElementBaseView {
            id: self.id,
            name: self.name@,
            visibility: self.visibility,
            stereotype_id: self.stereotype_id,
            documentation: self.documentation@,
            is_abstract: self.is_abstract,
            is_static: self.is_static,
            original_xmi_id: opt_text(self.original_xmi_id),
        }
    }
}

/// The metadata of a freshly created element: public, no stereotype, empty
/// documentation, neither abstract nor static, no XMI id.
pub open spec fn fresh_base(id: UmlId, name: Seq<char>) -> ElementBaseView {
    ElementBaseView {
        id,
        name,
        visibility: Visibility::Public,
        stereotype_id: None,
        documentation: Seq::empty(),
        is_abstract: false,
        is_static: false,
        original_xmi_id: None,
    }
}

impl ElementBase {
    /// Create a new base with the given name and a freshly generated ID.
    pub fn new(name: &str) -> (b: Self)
        ensures
            b@ == fresh_base(b.id, name@),
    {
        ElementBase {
            id: UmlId::new(),
            name: owned(name),
            visibility: Visibility::Public,
            stereotype_id: None,
            documentation: String::new(),
            is_abstract: false,
            is_static: false,
            original_xmi_id: None,
        }
    }

    /// Whether two bases have the same value.
    pub fn eq_view(&self, other: &Self) -> (r: bool)
        ensures
            r == (self@ == other@),
    {
        self.id == other.id && string_eq(&self.name, &other.name) && self.visibility
            == other.visibility && self.stereotype_id == other.stereotype_id && string_eq(
            &self.documentation,
            &other.documentation,
        ) && self.is_abstract == other.is_abstract && self.is_static == other.is_static
            && opt_string_eq(&self.original_xmi_id, &other.original_xmi_id)
    }
}

impl Clone for ElementBase {
    /// A copy with the same value.
    fn clone(&self) -> (r: Self)
        ensures
            r@ == self@,
    {
        ElementBase {
            id: self.id,
            name: self.name.clone(),
            visibility: self.visibility,
            stereotype_id: self.stereotype_id,
            documentation: self.documentation.clone(),
            is_abstract: self.is_abstract,
            is_static: self.is_static,
            original_xmi_id: clone_opt_string(&self.original_xmi_id),
        }
    }
}

// ─── TypeReference ────────────────────────────────────────────────────

/// A reference to a type: a UML classifier by id, or a primitive/external
/// type by name. At most one of the two should be set; neither means an
/// unspecified type (e.g. `void`).
#[derive(Debug, PartialEq)]
pub struct TypeReference {
    /// Reference to a UML model element (classifier).
    pub model_id: Option<UmlId>,
    /// Type name for primitives or external types.
    pub primitive_name: Option<String>,
}

/// The mathematical value of a `TypeReference`.
pub struct TypeReferenceView {
    /// Referenced model element.
    pub model_id: Option<UmlId>,
    /// Primitive type name.
    pub primitive_name: Option<Seq<char>>,
}

impl View for TypeReference {
    type V = TypeReferenceView;

    open spec fn view(&self) -> TypeReferenceView {
        TypeReferenceView { model_id: self.model_id, primitive_name: opt_text(self.primitive_name) }
    }
}

/// How a type reference is displayed: its type name if set; otherwise the
/// name of the referenced model element, or `<unknown:ID>` when it does not
/// resolve; `void` when nothing is set.
pub open spec fn type_display_spec(t: TypeReferenceView, model: Option<UmlModelView>) -> Seq<char> {
    match t.primitive_name {
        Some(n) => n,
        None => match t.model_id {
            Some(id) => {
                if model is Some && model->0.elements.contains_key(id) {
                    model->0.elements[id].name()
                } else {
                    "<unknown:"@ + uuid_text_spec(id.value) + ">"@
                }
            },
            None => "void"@,
        },
    }
}

impl TypeReference {
    /// An unspecified type reference (both fields unset).
    pub fn unspecified() -> (t: Self)
        ensures
            t@ == (TypeReferenceView { model_id: None, primitive_name: None }),
    {
        TypeReference { model_id: None, primitive_name: None }
    }

    /// A reference to a UML model element.
    pub fn model(id: UmlId) -> (t: Self)
        ensures
            t@ == (TypeReferenceView { model_id: Some(id), primitive_name: None }),
    {
        TypeReference { model_id: Some(id), primitive_name: None }
    }

    /// A reference to a primitive or external type by name.
    pub fn primitive(name: &str) -> (t: Self)
        ensures
            t@ == (TypeReferenceView { model_id: None, primitive_name: Some(name@) }),
    {
        TypeReference { model_id: None, primitive_name: Some(owned(name)) }
    }

    /// Whether the type is resolved (a model id or a type name is set).
    pub fn is_resolved(&self) -> (r: bool)
        ensures
            r == (self.model_id is Some || self.primitive_name is Some),
    {
        self.model_id.is_some() || self.primitive_name.is_some()
    }

    /// Whether the type references a UML model element.
    pub fn is_model_type(&self) -> (r: bool)
        ensures
            r == self.model_id is Some,
    {
        self.model_id.is_some()
    }

    /// Whether the type is a primitive or external type name.
    pub fn is_primitive(&self) -> (r: bool)
        ensures
            r == self.primitive_name is Some,
    {
        self.primitive_name.is_some()
    }

    /// Whether the reference is consistent: not both a model id and a name.
    pub fn is_valid(&self) -> (r: bool)
        ensures
            r == !(self.model_id is Some && self.primitive_name is Some),
    {
        !(self.model_id.is_some() && self.primitive_name.is_some())
    }

    /// The type as displayed to the user (see `type_display_spec`).
    pub fn display_name(&self, model: Option<&UmlModel>) -> (s: String)
        requires
            model is Some ==> model->0.wf(),
        ensures
            s@ == type_display_spec(
                self@,
                match model {
                    Some(m) => Some(m@),
                    None => None,
                },
            ),
    {
        proof {
            reveal_strlit("<unknown:");
            reveal_strlit(">");
            reveal_strlit("void");
        }
        match &self.primitive_name {
            Some(name) => name.clone(),
            None => match self.model_id {
                Some(id) => {
                    let found = match model {
                        Some(m) => m.get(id),
                        None => None,
                    };
                    match found {
                        Some(e) => owned(e.name()),
                        None => {
                            let mut s = owned("<unknown:");
                            let t = id.to_text();
                            s.append(t.as_str());
                            s.append(">");
                            s
                        },
                    }
                },
                None => owned("void"),
            },
        }
    }

    /// Whether two references have the same value.
    pub fn eq_view(&self, other: &Self) -> (r: bool)
        ensures
            r == (self@ == other@),
    {
        self.model_id == other.model_id && opt_string_eq(&self.primitive_name, &other.primitive_name)
    }
}

impl Clone for TypeReference {
    /// A copy with the same value.
    fn clone(&self) -> (r: Self)
        ensures
            r@ == self@,
    {
        TypeReference { model_id: self.model_id, primitive_name: clone_opt_string(&self.primitive_name) }
    }
}

impl Default for TypeReference {
    /// The unspecified type reference.
    fn default() -> (t: Self)
        ensures
            t@ == (TypeReferenceView { model_id: None, primitive_name: None }),
    {
        TypeReference::unspecified()
    }
}

// ─── Attribute, Parameter, Operation, TemplateParameter, EnumLiteral ──

/// A classifier attribute (field / member variable).
#[derive(Debug, PartialEq)]
pub struct Attribute {
    /// Attribute name.
    pub name: String,
    /// The type of this attribute.
    pub type_ref: TypeReference,
    /// Visibility.
    pub visibility: Visibility,
    /// Initial value expression.
    pub initial_value: Option<String>,
    /// Whether the attribute is static (class-level).
    pub is_static: bool,
}

/// The mathematical value of an `Attribute`.
pub struct AttributeView {
    /// Name.
    pub name: Seq<char>,
    /// Type.
    pub type_ref: TypeReferenceView,
    /// Visibility.
    pub visibility: Visibility,
    /// Initial value.
    pub initial_value: Option<Seq<char>>,
    /// Static flag.
    pub is_static: bool,
}

impl View for Attribute {
    type V = AttributeView;

    open spec fn view(&self) -> AttributeView {
        AttributeView {
            name: self.name@,
            type_ref: self.type_ref@,
            visibility: self.visibility,
            initial_value: opt_text(self.initial_value),
            is_static: self.is_static,
        }
    }
}

impl Attribute {
    /// Whether two attributes have the same value.
    pub fn eq_view(&self, other: &Self) -> (r: bool)
        ensures
            r == (self@ == other@),
    {
        string_eq(&self.name, &other.name) && self.type_ref.eq_view(&other.type_ref)
            && self.visibility == other.visibility && opt_string_eq(
            &self.initial_value,
            &other.initial_value,
        ) && self.is_static == other.is_static
    }
}

impl Clone for Attribute {
    /// A copy with the same value.
    fn clone(&self) -> (r: Self)
        ensures
            r@ == self@,
    {
        Attribute {
            name: self.name.clone(),
            type_ref: self.type_ref.clone(),
            visibility: self.visibility,
            initial_value: clone_opt_string(&self.initial_value),
            is_static: self.is_static,
        }
    }
}

/// An operation parameter.
#[derive(Debug, PartialEq)]
pub struct Parameter {
    /// Parameter name.
    pub name: String,
    /// The type of this parameter.
    pub type_ref: TypeReference,
    /// Parameter direction (in, out, inout, return).
    pub direction: ParameterDirection,
    /// Default value expression.
    pub default_value: Option<String>,
}

/// The mathematical value of a `Parameter`.
pub struct ParameterView {
    /// Name.
    pub name: Seq<char>,
    /// Type.
    pub type_ref: TypeReferenceView,
    /// Direction.
    pub direction: ParameterDirection,
    /// Default value.
    pub default_value: Option<Seq<char>>,
}

impl View for Parameter {
    type V = ParameterView;

    open spec fn view(&self) -> ParameterView {
        ParameterView {
            name: self.name@,
            type_ref: self.type_ref@,
            direction: self.direction,
            default_value: opt_text(self.default_value),
        }
    }
}

impl Parameter {
    /// Whether two parameters have the same value.
    pub fn eq_view(&self, other: &Self) -> (r: bool)
        ensures
            r == (self@ == other@),
    {
        string_eq(&self.name, &other.name) && self.type_ref.eq_view(&other.type_ref)
            && self.direction == other.direction && opt_string_eq(
            &self.default_value,
            &other.default_value,
        )
    }
}

impl Clone for Parameter {
    /// A copy with the same value.
    fn clone(&self) -> (r: Self)
        ensures
            r@ == self@,
    {
        Parameter {
            name: self.name.clone(),
            type_ref: self.type_ref.clone(),
            direction: self.direction,
            default_value: clone_opt_string(&self.default_value),
        }
    }
}

/// A classifier operation (method).
#[derive(Debug, PartialEq)]
pub struct Operation {
    /// Operation name.
    pub name: String,
    /// Return type.
    pub return_type: TypeReference,
    /// Formal parameters.
    pub parameters: Vec<Parameter>,
    /// Visibility.
    pub visibility: Visibility,
    /// Whether the operation is static (class-level).
    pub is_static: bool,
    /// Whether the operation has no implementation.
    pub is_abstract: bool,
    /// Whether the operation is virtual / overridable.
    pub is_virtual: bool,
}

/// The mathematical value of an `Operation`.
pub struct OperationView {
    /// Name.
    pub name: Seq<char>,
    /// Return type.
    pub return_type: TypeReferenceView,
    /// Parameters.
    pub parameters: Seq<ParameterView>,
    /// Visibility.
    pub visibility: Visibility,
    /// Static flag.
    pub is_static: bool,
    /// Abstract flag.
    pub is_abstract: bool,
    /// Virtual flag.
    pub is_virtual: bool,
}

impl View for Operation {
    type V = OperationView;

    open spec fn view(&self) -> OperationView {
        OperationView {
            name: self.name@,
            return_type: self.return_type@,
            parameters: self.parameters@.map_values(|p: Parameter| p@),
            visibility: self.visibility,
            is_static: self.is_static,
            is_abstract: self.is_abstract,
            is_virtual: self.is_virtual,
        }
    }
}

/// Whether two parameter lists have the same value.
fn parameters_eq(a: &Vec<Parameter>, b: &Vec<Parameter>) -> (r: bool)
    ensures
        r == (a@.map_values(|p: Parameter| p@) == b@.map_values(|p: Parameter| p@)),
{
    let ghost va = a@.map_values(|p: Parameter| p@);
    let ghost vb = b@.map_values(|p: Parameter| p@);
    if a.len() != b.len() {
        assert(va.len() != vb.len());
        return false;
    }
    let mut i: usize = 0;
    while i < a.len()
        invariant
            a.len() == b.len(),
            i <= a.len(),
            va == a@.map_values(|p: Parameter| p@),
            vb == b@.map_values(|p: Parameter| p@),
            forall|j: int| 0 <= j < i ==> va[j] == vb[j],
        decreases a.len() - i,
    {
        if !a[i].eq_view(&b[i]) {
            assert(va[i as int] != vb[i as int]);
            return false;
        }
        i += 1;
    }
    assert(va =~= vb);
    true
}

/// A copy of a parameter list with the same value.
fn clone_parameters(a: &Vec<Parameter>) -> (r: Vec<Parameter>)
    ensures
        r@.map_values(|p: Parameter| p@) == a@.map_values(|p: Parameter| p@),
{
    let mut r: Vec<Parameter> = Vec::new();
    let mut i: usize = 0;
    while i < a.len()
        invariant
            i <= a.len(),
            r@.len() == i,
            forall|j: int| 0 <= j < i ==> r@[j]@ == a@[j]@,
        decreases a.len() - i,
    {
        r.push(a[i].clone());
        i += 1;
    }
    assert(r@.map_values(|p: Parameter| p@) =~= a@.map_values(|p: Parameter| p@));
    r
}

impl Operation {
    /// Whether two operations have the same value.
    pub fn eq_view(&self, other: &Self) -> (r: bool)
        ensures
            r == (self@ == other@),
    {
        string_eq(&self.name, &other.name) && self.return_type.eq_view(&other.return_type)
            && parameters_eq(&self.parameters, &other.parameters) && self.visibility
            == other.visibility && self.is_static == other.is_static && self.is_abstract
            == other.is_abstract && self.is_virtual == other.is_virtual
    }
}

impl Clone for Operation {
    /// A copy with the same value.
    fn clone(&self) -> (r: Self)
        ensures
            r@ == self@,
    {
        Operation {
            name: self.name.clone(),
            return_type: self.return_type.clone(),
            parameters: clone_parameters(&self.parameters),
            visibility: self.visibility,
            is_static: self.is_static,
            is_abstract: self.is_abstract,
            is_virtual: self.is_virtual,
        }
    }
}

/// A template / generic type parameter.
#[derive(Debug, PartialEq)]
pub struct TemplateParameter {
    /// Parameter name (e.g. `T`).
    pub name: String,
    /// Type constraint (e.g. `Comparable`).
    pub constraint: Option<String>,
}

/// The mathematical value of a `TemplateParameter`.
pub struct TemplateParameterView {
    /// Name.
    pub name: Seq<char>,
    /// Constraint.
    pub constraint: Option<Seq<char>>,
}

impl View for TemplateParameter {
    type V = TemplateParameterView;

    open spec fn view(&self) -> TemplateParameterView {
        TemplateParameterView { name: self.name@, constraint: opt_text(self.constraint) }
    }
}

impl TemplateParameter {
    /// Whether two template parameters have the same value.
    pub fn eq_view(&self, other: &Self) -> (r: bool)
        ensures
            r == (self@ == other@),
    {
        string_eq(&self.name, &other.name) && opt_string_eq(&self.constraint, &other.constraint)
    }
}

impl Clone for TemplateParameter {
    /// A copy with the same value.
    fn clone(&self) -> (r: Self)
        ensures
            r@ == self@,
    {
        TemplateParameter { name: self.name.clone(), constraint: clone_opt_string(&self.constraint) }
    }
}

/// An enumeration literal value.
#[derive(Debug, PartialEq)]
pub struct EnumLiteral {
    /// Literal name.
    pub name: String,
    /// Optional explicit value (e.g. `42`).
    pub value: Option<String>,
}

/// The mathematical value of an `EnumLiteral`.
pub struct EnumLiteralView {
    /// Name.
    pub name: Seq<char>,
    /// Value.
    pub value: Option<Seq<char>>,
}

impl View for EnumLiteral {
    type V = EnumLiteralView;

    open spec fn view(&self) -> EnumLiteralView {
        EnumLiteralView { name: self.name@, value: opt_text(self.value) }
    }
}

impl Clone for EnumLiteral {
    /// A copy with the same value.
    fn clone(&self) -> (r: Self)
        ensures
            r@ == self@,
    {
        EnumLiteral { name: self.name.clone(), value: clone_opt_string(&self.value) }
    }
}

// ─── ClassifierData ───────────────────────────────────────────────────

/// Data shared by classifier-like element types.
#[derive(Debug, PartialEq)]
pub struct ClassifierData {
    /// Attributes (member variables / fields).
    pub attributes: Vec<Attribute>,
    /// Operations (methods).
    pub operations: Vec<Operation>,
    /// Template / generic parameters.
    pub templates: Vec<TemplateParameter>,
}

/// The mathematical value of `ClassifierData`.
pub struct ClassifierDataView {
    /// Attributes.
    pub attributes: Seq<AttributeView>,
    /// Operations.
    pub operations: Seq<OperationView>,
    /// Template parameters.
    pub templates: Seq<TemplateParameterView>,
}

/// The values of a list of template parameters.
pub open spec fn templates_view(t: Seq<TemplateParameter>) -> Seq<TemplateParameterView> {
    t.map_values(|p: TemplateParameter| p@)
}

impl View for ClassifierData {
    type V = ClassifierDataView;

    open spec fn view(&self) -> ClassifierDataView {
        ClassifierDataView {
            attributes: self.attributes@.map_values(|a: Attribute| a@),
            operations: self.operations@.map_values(|o: Operation| o@),
            templates: templates_view(self.templates@),
        }
    }
}

/// Classifier data with no attributes, operations or templates.
pub open spec fn empty_classifier() -> ClassifierDataView {
    ClassifierDataView { attributes: Seq::empty(), operations: Seq::empty(), templates: Seq::empty() }
}

impl ClassifierData {
    /// Create empty classifier data.
    pub fn new() -> (c: Self)
        ensures
            c@ == empty_classifier(),
    {
        let c = ClassifierData { attributes: Vec::new(), operations: Vec::new(), templates: Vec::new() };
        assert(c@.attributes =~= Seq::empty());
        assert(c@.operations =~= Seq::empty());
        assert(c@.templates =~= Seq::empty());
        c
    }

    /// Add an attribute at the end.
    pub fn add_attribute(&mut self, attr: Attribute)
        ensures
            final(self)@ == (ClassifierDataView {
                attributes: old(self)@.attributes.push(attr@),
                ..old(self)@
            }),
    {
        self.attributes.push(attr);
        assert(self@.attributes =~= old(self)@.attributes.push(attr@));
    }

    /// Add an operation at the end.
    pub fn add_operation(&mut self, op: Operation)
        ensures
            final(self)@ == (ClassifierDataView {
                operations: old(self)@.operations.push(op@),
                ..old(self)@
            }),
    {
        self.operations.push(op);
        assert(self@.operations =~= old(self)@.operations.push(op@));
    }

    /// Add a template parameter at the end.
    pub fn add_template(&mut self, tparam: TemplateParameter)
        ensures
            final(self)@ == (ClassifierDataView {
                templates: old(self)@.templates.push(tparam@),
                ..old(self)@
            }),
    {
        self.templates.push(tparam);
        assert(self@.templates =~= old(self)@.templates.push(tparam@));
    }

    /// Whether the template lists of two classifiers have the same value.
    pub fn templates_eq(&self, other: &Self) -> (r: bool)
        ensures
            r == (self@.templates == other@.templates),
    {
        let a = &self.templates;
        let b = &other.templates;
        let ghost va = self@.templates;
        let ghost vb = other@.templates;
        if a.len() != b.len() {
            assert(va.len() != vb.len());
            return false;
        }
        let mut i: usize = 0;
        while i < a.len()
            invariant
                a.len() == b.len(),
                i <= a.len(),
                a == &self.templates,
                b == &other.templates,
                va == self@.templates,
                vb == other@.templates,
                forall|j: int| 0 <= j < i ==> va[j] == vb[j],
            decreases a.len() - i,
        {
            if !a[i].eq_view(&b[i]) {
                assert(va[i as int] != vb[i as int]);
                return false;
            }
            i += 1;
        }
        assert(va =~= vb);
        true
    }

    /// Whether two classifiers have the same value.
    pub fn eq_view(&self, other: &Self) -> (r: bool)
        ensures
            r == (self@ == other@),
    {
        let ghost va = self@.attributes;
        let ghost vb = other@.attributes;
        if self.attributes.len() != other.attributes.len() {
            assert(va.len() != vb.len());
            return false;
        }
        let mut i: usize = 0;
        while i < self.attributes.len()
            invariant
                self.attributes.len() == other.attributes.len(),
                i <= self.attributes.len(),
                va == self@.attributes,
                vb == other@.attributes,
                forall|j: int| 0 <= j < i ==> va[j] == vb[j],
            decreases self.attributes.len() - i,
        {
            if !self.attributes[i].eq_view(&other.attributes[i]) {
                assert(va[i as int] != vb[i as int]);
                return false;
            }
            i += 1;
        }
        assert(va =~= vb);
        let ghost oa = self@.operations;
        let ghost ob = other@.operations;
        if self.operations.len() != other.operations.len() {
            assert(oa.len() != ob.len());
            return false;
        }
        let mut k: usize = 0;
        while k < self.operations.len()
            invariant
                self.operations.len() == other.operations.len(),
                k <= self.operations.len(),
                oa == self@.operations,
                ob == other@.operations,
                forall|j: int| 0 <= j < k ==> oa[j] == ob[j],
            decreases self.operations.len() - k,
        {
            if !self.operations[k].eq_view(&other.operations[k]) {
                assert(oa[k as int] != ob[k as int]);
                return false;
            }
            k += 1;
        }
        assert(oa =~= ob);
        self.templates_eq(other)
    }
}

impl Clone for ClassifierData {
    /// A copy with the same value.
    fn clone(&self) -> (r: Self)
        ensures
            r@ == self@,
    {
        let mut attributes: Vec<Attribute> = Vec::new();
        let mut i: usize = 0;
        while i < self.attributes.len()
            invariant
                i <= self.attributes.len(),
                attributes@.len() == i,
                forall|j: int| 0 <= j < i ==> attributes@[j]@ == self.attributes@[j]@,
            decreases self.attributes.len() - i,
        {
            attributes.push(self.attributes[i].clone());
            i += 1;
        }
        let mut operations: Vec<Operation> = Vec::new();
        let mut k: usize = 0;
        while k < self.operations.len()
            invariant
                k <= self.operations.len(),
                operations@.len() == k,
                forall|j: int| 0 <= j < k ==> operations@[j]@ == self.operations@[j]@,
            decreases self.operations.len() - k,
        {
            operations.push(self.operations[k].clone());
            k += 1;
        }
        let mut templates: Vec<TemplateParameter> = Vec::new();
        let mut t: usize = 0;
        while t < self.templates.len()
            invariant
                t <= self.templates.len(),
                templates@.len() == t,
                forall|j: int| 0 <= j < t ==> templates@[j]@ == self.templates@[j]@,
            decreases self.templates.len() - t,
        {
            templates.push(self.templates[t].clone());
            t += 1;
        }
        let r = ClassifierData { attributes, operations, templates };
        assert(r@.attributes =~= self@.attributes);
        assert(r@.operations =~= self@.operations);
        assert(r@.templates =~= self@.templates);
        r
    }
}

impl Default for ClassifierData {
    /// Empty classifier data.
    fn default() -> (c: Self)
        ensures
            c@ == empty_classifier(),
    {
        ClassifierData::new()
    }
}

// ─── Concrete element types ──────────────────────────────────────────

/// A UML package: a namespace that contains other model elements.
#[derive(Debug, PartialEq)]
pub struct Package {
    /// Common element metadata.
    pub base: ElementBase,
    /// IDs of child elements contained in this package.
    pub children: Vec<UmlId>,
}

/// The mathematical value of a `Package`.
pub struct PackageView {
    /// Metadata.
    pub base: ElementBaseView,
    /// Child ids, in order.
    pub children: Seq<UmlId>,
}

impl View for Package {
    type V = PackageView;

    open spec fn view(&self) -> PackageView {
        PackageView { base: self.base@, children: self.children@ }
    }
}

/// The position of the first occurrence of `x` in `s`, if any.
pub open spec fn first_index_of<T>(s: Seq<T>, x: T) -> Option<int> {
    if s.contains(x) {
        Some(choose|i: int| 0 <= i < s.len() && s[i] == x && forall|j: int| 0 <= j < i ==> s[j] != x)
    } else {
        None
    }
}

/// `s` with the first occurrence of `x` removed (unchanged if absent).
pub open spec fn remove_first<T>(s: Seq<T>, x: T) -> Seq<T> {
    match first_index_of(s, x) {
        Some(i) => s.remove(i),
        None => s,
    }
}

/// Finds the first occurrence of `x` in a list of ids.
pub fn position_of(v: &Vec<UmlId>, x: UmlId) -> (r: Option<usize>)
    ensures
        match r {
            Some(i) => first_index_of(v@, x) == Some(i as int) && i < v@.len() && v@[i as int] == x,
            None => first_index_of(v@, x) is None,
        },
{
    let mut i: usize = 0;
    while i < v.len()
        invariant
            i <= v.len(),
            forall|j: int| 0 <= j < i ==> v@[j] != x,
        decreases v.len() - i,
    {
        if v[i] == x {
            proof {
                assert(v@.contains(x));
                let c = choose|k: int|
                    0 <= k < v@.len() && v@[k] == x && forall|j: int| 0 <= j < k ==> v@[j] != x;
                assert(0 <= c < v@.len() && v@[c] == x && forall|j: int| 0 <= j < c ==> v@[j] != x)
                    by {
                    assert(0 <= i < v@.len() && v@[i as int] == x && forall|j: int|
                        0 <= j < i ==> v@[j] != x);
                }
                if c < i {
                    assert(v@[c] != x);
                }
                if c > i {
                    assert(v@[i as int] != x);
                }
            }
            return Some(i);
        }
        i += 1;
    }
    proof {
        assert(!v@.contains(x)) by {
            if v@.contains(x) {
                let k = choose|k: int| 0 <= k < v@.len() && v@[k] == x;
                assert(v@[k] != x);
            }
        }
    }
    None
}

/// Removes the first occurrence of `x` from a list of ids; `true` if found.
pub fn remove_first_id(v: &mut Vec<UmlId>, x: UmlId) -> (found: bool)
    ensures
        found == old(v)@.contains(x),
        final(v)@ == remove_first(old(v)@, x),
{
    match position_of(v, x) {
        Some(i) => {
            v.remove(i);
            true
        },
        None => false,
    }
}

impl Package {
    /// Create a new empty package with the given name.
    pub fn new(name: &str) -> (p: Self)
        ensures
            p@ == (PackageView { base: fresh_base(p.base.id, name@), children: Seq::empty() }),
    {
        Package { base: ElementBase::new(name), children: Vec::new() }
    }

    /// Add a child element by ID, at the end.
    pub fn add_child(&mut self, child_id: UmlId)
        ensures
            final(self)@ == (PackageView { children: old(self)@.children.push(child_id), ..old(self)@ }),
    {
        self.children.push(child_id);
    }

    /// Remove the first occurrence of a child; `true` if it was present.
    pub fn remove_child(&mut self, child_id: UmlId) -> (found: bool)
        ensures
            found == old(self)@.children.contains(child_id),
            final(self)@ == (PackageView {
                children: remove_first(old(self)@.children, child_id),
                ..old(self)@
            }),
    {
        remove_first_id(&mut self.children, child_id)
    }

    /// The child element IDs, in order.
    pub fn child_ids(&self) -> (ids: &[UmlId])
        ensures
            ids@ == self@.children,
    {
        self.children.as_slice()
    }

    /// Number of direct children.
    pub fn child_count(&self) -> (n: usize)
        ensures
            n == self@.children.len(),
    {
        self.children.len()
    }
}

impl Clone for Package {
    /// A copy with the same value.
    fn clone(&self) -> (r: Self)
        ensures
            r@ == self@,
    {
        let mut children: Vec<UmlId> = Vec::new();
        let mut i: usize = 0;
        while i < self.children.len()
            invariant
                i <= self.children.len(),
                children@ == self.children@.subrange(0, i as int),
            decreases self.children.len() - i,
        {
            children.push(self.children[i]);
            i += 1;
            assert(children@ =~= self.children@.subrange(0, i as int));
        }
        assert(children@ =~= self.children@);
        Package { base: self.base.clone(), children }
    }
}

/// The value shared by elements that consist of metadata and classifier data.
pub struct ClassifierElementView {
    /// Metadata.
    pub base: ElementBaseView,
    /// Classifier data.
    pub classifier: ClassifierDataView,
}

/// A UML class.
#[derive(Debug, PartialEq)]
pub struct Class {
    /// Common element metadata.
    pub base: ElementBase,
    /// Classifier data: attributes, operations, templates.
    pub classifier: ClassifierData,
}

impl View for Class {
    type V = ClassifierElementView;

    open spec fn view(&self) -> ClassifierElementView {
        ClassifierElementView { base: self.base@, classifier: self.classifier@ }
    }
}

impl Class {
    /// Create a new class with the given name.
    pub fn new(name: &str) -> (c: Self)
        ensures
            c@ == (ClassifierElementView {
                base: fresh_base(c.base.id, name@),
                classifier: empty_classifier(),
            }),
    {
        Class { base: ElementBase::new(name), classifier: ClassifierData::new() }
    }

    /// Create a new abstract class.
    pub fn new_abstract(name: &str) -> (c: Self)
        ensures
            c@ == (ClassifierElementView {
                base: ElementBaseView { is_abstract: true, ..fresh_base(c.base.id, name@) },
                classifier: empty_classifier(),
            }),
    {
        let mut base = ElementBase::new(name);
        base.is_abstract = true;
        Class { base, classifier: ClassifierData::new() }
    }
}

impl Clone for Class {
    /// A copy with the same value.
    fn clone(&self) -> (r: Self)
        ensures
            r@ == self@,
    {
        Class { base: self.base.clone(), classifier: self.classifier.clone() }
    }
}

/// A UML interface.
#[derive(Debug, PartialEq)]
pub struct Interface {
    /// Common element metadata.
    pub base: ElementBase,
    /// Classifier data: attributes, operations, templates.
    pub classifier: ClassifierData,
}

impl View for Interface {
    type V = ClassifierElementView;

    open spec fn view(&self) -> ClassifierElementView {
        ClassifierElementView { base: self.base@, classifier: self.classifier@ }
    }
}

impl Interface {
    /// Create a new interface (interfaces are always abstract).
    pub fn new(name: &str) -> (i: Self)
        ensures
            i@ == (ClassifierElementView {
                base: ElementBaseView { is_abstract: true, ..fresh_base(i.base.id, name@) },
                classifier: empty_classifier(),
            }),
    {
        let mut base = ElementBase::new(name);
        base.is_abstract = true;
        Interface { base, classifier: ClassifierData::new() }
    }
}

impl Clone for Interface {
    /// A copy with the same value.
    fn clone(&self) -> (r: Self)
        ensures
            r@ == self@,
    {
        Interface { base: self.base.clone(), classifier: self.classifier.clone() }
    }
}

/// A UML enumeration.
#[derive(Debug, PartialEq)]
pub struct Enum {
    /// Common element metadata.
    pub base: ElementBase,
    /// Classifier data: attributes, operations, templates.
    pub classifier: ClassifierData,
    /// Enumeration literals.
    pub literals: Vec<EnumLiteral>,
}

/// The mathematical value of an `Enum`.
pub struct EnumView {
    /// Metadata.
    pub base: ElementBaseView,
    /// Classifier data.
    pub classifier: ClassifierDataView,
    /// Literals, in order.
    pub literals: Seq<EnumLiteralView>,
}

impl View for Enum {
    type V = EnumView;

    open spec fn view(&self) -> EnumView {
        EnumView {
            base: self.base@,
            classifier: self.classifier@,
            literals: self.literals@.map_values(|l: EnumLiteral| l@),
        }
    }
}

impl Enum {
    /// Create a new enumeration without literals.
    pub fn new(name: &str) -> (e: Self)
        ensures
            e@ == (EnumView {
                base: fresh_base(e.base.id, name@),
                classifier: empty_classifier(),
                literals: Seq::empty(),
            }),
    {
        let e = Enum { base: ElementBase::new(name), classifier: ClassifierData::new(), literals: Vec::new() };
        assert(e@.literals =~= Seq::empty());
        e
    }

    /// Add a literal at the end.
    pub fn add_literal(&mut self, name: &str, value: Option<String>)
        ensures
            final(self)@ == (EnumView {
                literals: old(self)@.literals.push(EnumLiteralView { name: name@, value: opt_text(value) }),
                ..old(self)@
            }),
    {
        self.literals.push(EnumLiteral { name: owned(name), value });
        assert(self@.literals =~= old(self)@.literals.push(
            EnumLiteralView { name: name@, value: opt_text(value) },
        ));
    }

    /// Number of literals.
    pub fn literal_count(&self) -> (n: usize)
        ensures
            n == self@.literals.len(),
    {
        self.literals.len()
    }
}

impl Clone for Enum {
    /// A copy with the same value.
    fn clone(&self) -> (r: Self)
        ensures
            r@ == self@,
    {
        let mut literals: Vec<EnumLiteral> = Vec::new();
        let mut i: usize = 0;
        while i < self.literals.len()
            invariant
                i <= self.literals.len(),
                literals@.len() == i,
                forall|j: int| 0 <= j < i ==> literals@[j]@ == self.literals@[j]@,
            decreases self.literals.len() - i,
        {
            literals.push(self.literals[i].clone());
            i += 1;
        }
        let r = Enum { base: self.base.clone(), classifier: self.classifier.clone(), literals };
        assert(r@.literals =~= self@.literals);
        r
    }
}

/// A UML datatype (primitive or structured type).
#[derive(Debug, PartialEq)]
pub struct Datatype {
    /// Common element metadata.
    pub base: ElementBase,
    /// Classifier data: attributes, operations, templates.
    pub classifier: ClassifierData,
}

impl View for Datatype {
    type V = ClassifierElementView;

    open spec fn view(&self) -> ClassifierElementView {
        ClassifierElementView { base: self.base@, classifier: self.classifier@ }
    }
}

impl Datatype {
    /// Create a new datatype with the given name.
    pub fn new(name: &str) -> (d: Self)
        ensures
            d@ == (ClassifierElementView {
                base: fresh_base(d.base.id, name@),
                classifier: empty_classifier(),
            }),
    {
        Datatype { base: ElementBase::new(name), classifier: ClassifierData::new() }
    }
}

impl Clone for Datatype {
    /// A copy with the same value.
    fn clone(&self) -> (r: Self)
        ensures
            r@ == self@,
    {
        Datatype { base: self.base.clone(), classifier: self.classifier.clone() }
    }
}

// ─── Relationship ──────────────────────────────────────────────────────

/// A UML relationship between two model elements.
///
/// Generalization: source is the subclass, target the superclass.
/// Realization: source implements the target interface. Aggregation and
/// composition: source is the whole. Dependency: source depends on target.
#[derive(Debug, PartialEq)]
pub struct Relationship {
    /// Common element metadata.
    pub base: ElementBase,
    /// The kind of relationship.
    pub kind: AssociationType,
    /// The source element.
    pub source_id: UmlId,
    /// The target element.
    pub target_id: UmlId,
    /// Multiplicity at the source end (e.g. "1", "0..*").
    pub source_multiplicity: Option<String>,
    /// Multiplicity at the target end.
    pub target_multiplicity: Option<String>,
    /// Role name at the source end.
    pub source_role_name: Option<String>,
    /// Role name at the target end.
    pub target_role_name: Option<String>,
    /// Whether navigation from source to target is supported.
    pub source_to_target_navigable: bool,
    /// Whether navigation from target to source is supported.
    pub target_to_source_navigable: bool,
}

/// The mathematical value of a `Relationship`.
pub struct RelationshipView {
    /// Metadata.
    pub base: ElementBaseView,
    /// Kind.
    pub kind: AssociationType,
    /// Source element.
    pub source_id: UmlId,
    /// Target element.
    pub target_id: UmlId,
    /// Source multiplicity.
    pub source_multiplicity: Option<Seq<char>>,
    /// Target multiplicity.
    pub target_multiplicity: Option<Seq<char>>,
    /// Source role name.
    pub source_role_name: Option<Seq<char>>,
    /// Target role name.
    pub target_role_name: Option<Seq<char>>,
    /// Source-to-target navigability.
    pub source_to_target_navigable: bool,
    /// Target-to-source navigability.
    pub target_to_source_navigable: bool,
}

impl View for Relationship {
    type V = RelationshipView;

    open spec fn view(&self) -> RelationshipView {
        RelationshipView {
            base: self.base@,
            kind: self.kind,
            source_id: self.source_id,
            target_id: self.target_id,
            source_multiplicity: opt_text(self.source_multiplicity),
            target_multiplicity: opt_text(self.target_multiplicity),
            source_role_name: opt_text(self.source_role_name),
            target_role_name: opt_text(self.target_role_name),
            source_to_target_navigable: self.source_to_target_navigable,
            target_to_source_navigable: self.target_to_source_navigable,
        }
    }
}

/// A new relationship of the given kind: unnamed, without multiplicities or
/// role names, not navigable in either direction.
pub open spec fn fresh_relationship(
    id: UmlId,
    kind: AssociationType,
    source_id: UmlId,
    target_id: UmlId,
) -> RelationshipView {
    RelationshipView {
        base: fresh_base(id, Seq::empty()),
        kind,
        source_id,
        target_id,
        source_multiplicity: None,
        target_multiplicity: None,
        source_role_name: None,
        target_role_name: None,
        source_to_target_navigable: false,
        target_to_source_navigable: false,
    }
}

/// The object type of a relationship kind: generalizations, realizations and
/// dependencies have their own; every other kind is an association.
pub open spec fn relationship_object_type(kind: AssociationType) -> ObjectType {
    match kind {
        AssociationType::Generalization => ObjectType::Generalization,
        AssociationType::Realization => ObjectType::Realization,
        AssociationType::Dependency => ObjectType::Dependency,
        _ => ObjectType::Association,
    }
}

impl Relationship {
    /// Create a new relationship.
    pub fn new(kind: AssociationType, source_id: UmlId, target_id: UmlId) -> (r: Self)
        ensures
            r@ == fresh_relationship(r.base.id, kind, source_id, target_id),
    {
        proof {
            reveal_strlit("");
            assert(""@ =~= Seq::<char>::empty());
        }
        Relationship {
            base: ElementBase::new(""),
            kind,
            source_id,
            target_id,
            source_multiplicity: None,
            target_multiplicity: None,
            source_role_name: None,
            target_role_name: None,
            source_to_target_navigable: false,
            target_to_source_navigable: false,
        }
    }

    /// Create a generalization (subclass to superclass).
    pub fn new_generalization(subclass_id: UmlId, superclass_id: UmlId) -> (r: Self)
        ensures
            r@ == fresh_relationship(
                r.base.id,
                AssociationType::Generalization,
                subclass_id,
                superclass_id,
            ),
    {
        Relationship::new(AssociationType::Generalization, subclass_id, superclass_id)
    }

    /// Create an interface realization.
    pub fn new_realization(class_id: UmlId, interface_id: UmlId) -> (r: Self)
        ensures
            r@ == fresh_relationship(r.base.id, AssociationType::Realization, class_id, interface_id),
    {
        Relationship::new(AssociationType::Realization, class_id, interface_id)
    }

    /// Create a plain association.
    pub fn new_association(source_id: UmlId, target_id: UmlId) -> (r: Self)
        ensures
            r@ == fresh_relationship(r.base.id, AssociationType::Association, source_id, target_id),
    {
        Relationship::new(AssociationType::Association, source_id, target_id)
    }

    /// Create an aggregation (source is the whole, target the part).
    pub fn new_aggregation(whole_id: UmlId, part_id: UmlId) -> (r: Self)
        ensures
            r@ == fresh_relationship(r.base.id, AssociationType::Aggregation, whole_id, part_id),
    {
        Relationship::new(AssociationType::Aggregation, whole_id, part_id)
    }

    /// Create a composition (source is the whole, target the part).
    pub fn new_composition(whole_id: UmlId, part_id: UmlId) -> (r: Self)
        ensures
            r@ == fresh_relationship(r.base.id, AssociationType::Composition, whole_id, part_id),
    {
        Relationship::new(AssociationType::Composition, whole_id, part_id)
    }

    /// Create a dependency.
    pub fn new_dependency(source_id: UmlId, target_id: UmlId) -> (r: Self)
        ensures
            r@ == fresh_relationship(r.base.id, AssociationType::Dependency, source_id, target_id),
    {
        Relationship::new(AssociationType::Dependency, source_id, target_id)
    }

    /// The object type corresponding to this relationship's kind.
    pub fn object_type(&self) -> (t: ObjectType)
        ensures
            t == relationship_object_type(self.kind),
    {
        match self.kind {
            AssociationType::Generalization => ObjectType::Generalization,
            AssociationType::Realization => ObjectType::Realization,
            AssociationType::Dependency => ObjectType::Dependency,
            _ => ObjectType::Association,
        }
    }

    /// Whether two relationships have the same value.
    pub fn eq_view(&self, other: &Self) -> (r: bool)
        ensures
            r == (self@ == other@),
    {
        self.base.eq_view(&other.base) && self.kind == other.kind && self.source_id
            == other.source_id && self.target_id == other.target_id && opt_string_eq(
            &self.source_multiplicity,
            &other.source_multiplicity,
        ) && opt_string_eq(&self.target_multiplicity, &other.target_multiplicity)
            && opt_string_eq(&self.source_role_name, &other.source_role_name) && opt_string_eq(
            &self.target_role_name,
            &other.target_role_name,
        ) && self.source_to_target_navigable == other.source_to_target_navigable
            && self.target_to_source_navigable == other.target_to_source_navigable
    }
}

impl Clone for Relationship {
    /// A copy with the same value.
    fn clone(&self) -> (r: Self)
        ensures
            r@ == self@,
    {
        Relationship {
            base: self.base.clone(),
            kind: self.kind,
            source_id: self.source_id,
            target_id: self.target_id,
            source_multiplicity: clone_opt_string(&self.source_multiplicity),
            target_multiplicity: clone_opt_string(&self.target_multiplicity),
            source_role_name: clone_opt_string(&self.source_role_name),
            target_role_name: clone_opt_string(&self.target_role_name),
            source_to_target_navigable: self.source_to_target_navigable,
            target_to_source_navigable: self.target_to_source_navigable,
        }
    }
}

// ─── Elements with metadata only ──────────────────────────────────────

/// A UML actor: a role played by a user or an external system.
#[derive(Debug, PartialEq)]
pub struct Actor {
    /// Common element metadata.
    pub base: ElementBase,
}

/// A UML use case: a unit of functionality provided by the system.
#[derive(Debug, PartialEq)]
pub struct UseCase {
    /// Common element metadata.
    pub base: ElementBase,
}

/// A UML component.
#[derive(Debug, PartialEq)]
pub struct Component {
    /// Common element metadata.
    pub base: ElementBase,
}

/// A UML deployment node.
#[derive(Debug, PartialEq)]
pub struct Node {
    /// Common element metadata.
    pub base: ElementBase,
}

/// A UML artifact.
#[derive(Debug, PartialEq)]
pub struct Artifact {
    /// Common element metadata.
    pub base: ElementBase,
}

impl Actor {
    /// Create a new actor with the given name.
    pub fn new(name: &str) -> (a: Self)
        ensures
            a.base@ == fresh_base(a.base.id, name@),
    {
        Actor { base: ElementBase::new(name) }
    }
}

impl UseCase {
    /// Create a new use case with the given name.
    pub fn new(name: &str) -> (u: Self)
        ensures
            u.base@ == fresh_base(u.base.id, name@),
    {
        UseCase { base: ElementBase::new(name) }
    }
}

impl Component {
    /// Create a new component with the given name.
    pub fn new(name: &str) -> (c: Self)
        ensures
            c.base@ == fresh_base(c.base.id, name@),
    {
        Component { base: ElementBase::new(name) }
    }
}

impl Node {
    /// Create a new deployment node with the given name.
    pub fn new(name: &str) -> (n: Self)
        ensures
            n.base@ == fresh_base(n.base.id, name@),
    {
        Node { base: ElementBase::new(name) }
    }
}

impl Artifact {
    /// Create a new artifact with the given name.
    pub fn new(name: &str) -> (a: Self)
        ensures
            a.base@ == fresh_base(a.base.id, name@),
    {
        Artifact { base: ElementBase::new(name) }
    }
}

// ─── ModelElement ─────────────────────────────────────────────────────

/// A UML model element: one variant per element kind.
#[derive(Debug, PartialEq)]
pub enum ModelElement {
    /// A UML package: a namespace container.
    Package(Package),
    /// A UML class.
    Class(Class),
    /// A UML interface.
    Interface(Interface),
    /// A UML enumeration.
    Enum(Enum),
    /// A UML datatype.
    Datatype(Datatype),
    /// A UML relationship.
    Relationship(Relationship),
    /// An actor in a use case diagram.
    Actor(Actor),
    /// A use case in a use case diagram.
    UseCase(UseCase),
    /// A component.
    Component(Component),
    /// A deployment node.
    Node(Node),
    /// An artifact.
    Artifact(Artifact),
}

/// The mathematical value of a `ModelElement`.
pub enum ModelElementView {
    /// A package.
    Package(PackageView),
    /// A class.
    Class(ClassifierElementView),
    /// An interface.
    Interface(ClassifierElementView),
    /// An enumeration.
    Enum(EnumView),
    /// A datatype.
    Datatype(ClassifierElementView),
    /// A relationship.
    Relationship(RelationshipView),
    /// An actor.
    Actor(ElementBaseView),
    /// A use case.
    UseCase(ElementBaseView),
    /// A component.
    Component(ElementBaseView),
    /// A deployment node.
    Node(ElementBaseView),
    /// An artifact.
    Artifact(ElementBaseView),
}

impl View for ModelElement {
    type V = ModelElementView;

    open spec fn view(&self) -> ModelElementView {
        match self {
            ModelElement::Package(p) => ModelElementView::Package(p@),
            ModelElement::Class(c) => ModelElementView::Class(c@),
            ModelElement::Interface(i) => ModelElementView::Interface(i@),
            ModelElement::Enum(e) => ModelElementView::Enum(e@),
            ModelElement::Datatype(d) => ModelElementView::Datatype(d@),
            ModelElement::Relationship(r) => ModelElementView::Relationship(r@),
            ModelElement::Actor(a) => ModelElementView::Actor(a.base@),
            ModelElement::UseCase(u) => ModelElementView::UseCase(u.base@),
            ModelElement::Component(c) => ModelElementView::Component(c.base@),
            ModelElement::Node(n) => ModelElementView::Node(n.base@),
            ModelElement::Artifact(a) => ModelElementView::Artifact(a.base@),
        }
    }
}

impl ModelElementView {
    /// The metadata of the element.
    pub open spec fn base(self) -> ElementBaseView {
        match self {
            ModelElementView::Package(p) => p.base,
            ModelElementView::Class(c) => c.base,
            ModelElementView::Interface(i) => i.base,
            ModelElementView::Enum(e) => e.base,
            ModelElementView::Datatype(d) => d.base,
            ModelElementView::Relationship(r) => r.base,
            ModelElementView::Actor(b) => b,
            ModelElementView::UseCase(b) => b,
            ModelElementView::Component(b) => b,
            ModelElementView::Node(b) => b,
            ModelElementView::Artifact(b) => b,
        }
    }

    /// The element with its metadata replaced.
    pub open spec fn with_base(self, b: ElementBaseView) -> ModelElementView {
        match self {
            ModelElementView::Package(p) => ModelElementView::Package(PackageView { base: b, ..p }),
            ModelElementView::Class(c) => ModelElementView::Class(
                ClassifierElementView { base: b, ..c },
            ),
            ModelElementView::Interface(i) => ModelElementView::Interface(
                ClassifierElementView { base: b, ..i },
            ),
            ModelElementView::Enum(e) => ModelElementView::Enum(EnumView { base: b, ..e }),
            ModelElementView::Datatype(d) => ModelElementView::Datatype(
                ClassifierElementView { base: b, ..d },
            ),
            ModelElementView::Relationship(r) => ModelElementView::Relationship(
                RelationshipView { base: b, ..r },
            ),
            ModelElementView::Actor(_) => ModelElementView::Actor(b),
            ModelElementView::UseCase(_) => ModelElementView::UseCase(b),
            ModelElementView::Component(_) => ModelElementView::Component(b),
            ModelElementView::Node(_) => ModelElementView::Node(b),
            ModelElementView::Artifact(_) => ModelElementView::Artifact(b),
        }
    }

    /// The element's id.
    pub open spec fn id(self) -> UmlId {
        self.base().id
    }

    /// The element's name.
    pub open spec fn name(self) -> Seq<char> {
        self.base().name
    }

    /// The object type of the element.
    pub open spec fn object_type(self) -> ObjectType {
        match self {
            ModelElementView::Package(_) => ObjectType::Package,
            ModelElementView::Class(_) => ObjectType::Class,
            ModelElementView::Interface(_) => ObjectType::Interface,
            ModelElementView::Enum(_) => ObjectType::Enumeration,
            ModelElementView::Datatype(_) => ObjectType::Datatype,
            ModelElementView::Relationship(r) => relationship_object_type(r.kind),
            ModelElementView::Actor(_) => ObjectType::Actor,
            ModelElementView::UseCase(_) => ObjectType::UseCase,
            ModelElementView::Component(_) => ObjectType::Component,
            ModelElementView::Node(_) => ObjectType::Node,
            ModelElementView::Artifact(_) => ObjectType::Artifact,
        }
    }

    /// Whether the element is a classifier (class, interface, enum, datatype).
    pub open spec fn is_classifier(self) -> bool {
        self is Class || self is Interface || self is Enum || self is Datatype
    }

    /// The classifier data of a classifier.
    pub open spec fn classifier(self) -> Option<ClassifierDataView> {
        match self {
            ModelElementView::Class(c) => Some(c.classifier),
            ModelElementView::Interface(i) => Some(i.classifier),
            ModelElementView::Enum(e) => Some(e.classifier),
            ModelElementView::Datatype(d) => Some(d.classifier),
            _ => None,
        }
    }

    /// The classifier with its classifier data replaced (others unchanged).
    pub open spec fn with_classifier(self, c: ClassifierDataView) -> ModelElementView {
        match self {
            ModelElementView::Class(x) => ModelElementView::Class(
                ClassifierElementView { classifier: c, ..x },
            ),
            ModelElementView::Interface(x) => ModelElementView::Interface(
                ClassifierElementView { classifier: c, ..x },
            ),
            ModelElementView::Enum(x) => ModelElementView::Enum(EnumView { classifier: c, ..x }),
            ModelElementView::Datatype(x) => ModelElementView::Datatype(
                ClassifierElementView { classifier: c, ..x },
            ),
            _ => self,
        }
    }
}

impl ModelElement {
    /// The object type of this element.
    pub fn object_type(&self) -> (t: ObjectType)
        ensures
            t == self@.object_type(),
    {
        match self {
            ModelElement::Package(_) => ObjectType::Package,
            ModelElement::Class(_) => ObjectType::Class,
            ModelElement::Interface(_) => ObjectType::Interface,
            ModelElement::Enum(_) => ObjectType::Enumeration,
            ModelElement::Datatype(_) => ObjectType::Datatype,
            ModelElement::Relationship(r) => r.object_type(),
            ModelElement::Actor(_) => ObjectType::Actor,
            ModelElement::UseCase(_) => ObjectType::UseCase,
            ModelElement::Component(_) => ObjectType::Component,
            ModelElement::Node(_) => ObjectType::Node,
            ModelElement::Artifact(_) => ObjectType::Artifact,
        }
    }

    /// The element's metadata.
    pub fn base(&self) -> (b: &ElementBase)
        ensures
            b@ == self@.base(),
    {
        match self {
            ModelElement::Package(p) => &p.base,
            ModelElement::Class(c) => &c.base,
            ModelElement::Interface(i) => &i.base,
            ModelElement::Enum(e) => &e.base,
            ModelElement::Datatype(d) => &d.base,
            ModelElement::Relationship(r) => &r.base,
            ModelElement::Actor(a) => &a.base,
            ModelElement::UseCase(u) => &u.base,
            ModelElement::Component(c) => &c.base,
            ModelElement::Node(n) => &n.base,
            ModelElement::Artifact(a) => &a.base,
        }
    }

    /// A mutable reference to the element's metadata; what is written through
    /// it replaces the metadata, and nothing else of the element changes.
    pub fn base_mut(&mut self) -> (b: &mut ElementBase)
        ensures
            b@ == old(self)@.base(),
            final(self)@ == old(self)@.with_base(final(b)@),
    {
        match self {
            ModelElement::Package(p) => &mut p.base,
            ModelElement::Class(c) => &mut c.base,
            ModelElement::Interface(i) => &mut i.base,
            ModelElement::Enum(e) => &mut e.base,
            ModelElement::Datatype(d) => &mut d.base,
            ModelElement::Relationship(r) => &mut r.base,
            ModelElement::Actor(a) => &mut a.base,
            ModelElement::UseCase(u) => &mut u.base,
            ModelElement::Component(c) => &mut c.base,
            ModelElement::Node(n) => &mut n.base,
            ModelElement::Artifact(a) => &mut a.base,
        }
    }

    /// The unique identifier of this element.
    pub fn id(&self) -> (id: UmlId)
        ensures
            id == self@.id(),
    {
        self.base().id
    }

    /// The human-readable name.
    pub fn name(&self) -> (s: &str)
        ensures
            s@ == self@.name(),
    {
        self.base().name.as_str()
    }

    /// Set the name.
    pub fn set_name(&mut self, name: String)
        ensures
            final(self)@ == old(self)@.with_base(ElementBaseView { name: name@, ..old(self)@.base() }),
    {
        let b = self.base_mut();
        b.name = name;
    }

    /// Whether this element is a classifier (class, interface, enum, datatype).
    pub fn is_classifier(&self) -> (r: bool)
        ensures
            r == self@.is_classifier(),
    {
        match self {
            ModelElement::Class(_) | ModelElement::Interface(_) | ModelElement::Enum(_)
            | ModelElement::Datatype(_) => true,
            _ => false,
        }
    }

    /// Whether this element is a package.
    pub fn is_package(&self) -> (r: bool)
        ensures
            r == self@ is Package,
    {
        match self {
            ModelElement::Package(_) => true,
            _ => false,
        }
    }

    /// The classifier data, if this is a classifier.
    pub fn classifier_data(&self) -> (r: Option<&ClassifierData>)
        ensures
            match r {
                Some(c) => self@.classifier() == Some(c@),
                None => self@.classifier() is None,
            },
    {
        match self {
            ModelElement::Class(c) => Some(&c.classifier),
            ModelElement::Interface(i) => Some(&i.classifier),
            ModelElement::Enum(e) => Some(&e.classifier),
            ModelElement::Datatype(d) => Some(&d.classifier),
            _ => None,
        }
    }

    /// A mutable reference to the classifier data, if this is a classifier;
    /// what is written through it replaces the classifier data only.
    pub fn classifier_data_mut(&mut self) -> (r: Option<&mut ClassifierData>)
        ensures
            match r {
                Some(c) => {
                    &&& old(self)@.classifier() == Some(c@)
                    &&& final(self)@ == old(self)@.with_classifier(final(c)@)
                },
                None => {
                    &&& old(self)@.classifier() is None
                    &&& final(self)@ == old(self)@
                },
            },
    {
        match self {
            ModelElement::Class(c) => Some(&mut c.classifier),
            ModelElement::Interface(i) => Some(&mut i.classifier),
            ModelElement::Enum(e) => Some(&mut e.classifier),
            ModelElement::Datatype(d) => Some(&mut d.classifier),
            _ => None,
        }
    }
}

impl Clone for ModelElement {
    /// A copy with the same value.
    fn clone(&self) -> (r: Self)
        ensures
            r@ == self@,
    {
        match self {
            ModelElement::Package(p) => ModelElement::Package(p.clone()),
            ModelElement::Class(c) => ModelElement::Class(c.clone()),
            ModelElement::Interface(i) => ModelElement::Interface(i.clone()),
            ModelElement::Enum(e) => ModelElement::Enum(e.clone()),
            ModelElement::Datatype(d) => ModelElement::Datatype(d.clone()),
            ModelElement::Relationship(r) => ModelElement::Relationship(r.clone()),
            ModelElement::Actor(a) => ModelElement::Actor(Actor { base: a.base.clone() }),
            ModelElement::UseCase(u) => ModelElement::UseCase(UseCase { base: u.base.clone() }),
            ModelElement::Component(c) => ModelElement::Component(Component { base: c.base.clone() }),
            ModelElement::Node(n) => ModelElement::Node(Node { base: n.base.clone() }),
            ModelElement::Artifact(a) => ModelElement::Artifact(Artifact { base: a.base.clone() }),
        }
    }
}

// ─── NamedElement trait ──────────────────────────────────────────────

/// Common interface for UML model elements: identity, name and visibility,
/// all read from and written to the element's metadata.
pub trait NamedElement {
    /// The element's metadata.
    spec fn named_base(&self) -> ElementBaseView;

    /// The element's object type.
    spec fn named_object_type(&self) -> ObjectType;

    /// The element's metadata.
    fn base(&self) -> (b: &ElementBase)
        ensures
            b@ == self.named_base(),
    ;

    /// A mutable reference to the element's metadata.
    fn base_mut(&mut self) -> (b: &mut ElementBase)
        ensures
            b@ == old(self).named_base(),
            final(self).named_base() == final(b)@,
    ;

    /// The element's object type.
    fn object_type(&self) -> (t: ObjectType)
        ensures
            t == self.named_object_type(),
    ;

    /// The unique identifier of this element.
    fn id(&self) -> (id: UmlId)
        ensures
            id == self.named_base().id,
    {
        self.base().id
    }

    /// The human-readable name.
    fn name(&self) -> (s: &str)
        ensures
            s@ == self.named_base().name,
    {
        self.base().name.as_str()
    }

    /// Set the human-readable name.
    fn set_name(&mut self, name: String)
        ensures
            final(self).named_base() == (ElementBaseView { name: name@, ..old(self).named_base() }),
    {
        let b = self.base_mut();
        b.name = name;
    }

    /// The visibility level.
    fn visibility(&self) -> (v: Visibility)
        ensures
            v == self.named_base().visibility,
    {
        self.base().visibility
    }

    /// Set the visibility level.
    fn set_visibility(&mut self, vis: Visibility)
        ensures
            final(self).named_base() == (ElementBaseView { visibility: vis, ..old(self).named_base() }),
    {
        let b = self.base_mut();
        b.visibility = vis;
    }
}

impl NamedElement for ModelElement {
    open spec fn named_base(&self) -> ElementBaseView {
        self@.base()
    }

    open spec fn named_object_type(&self) -> ObjectType {
        self@.object_type()
    }

    fn base(&self) -> (b: &ElementBase) {
        ModelElement::base(self)
    }

    fn base_mut(&mut self) -> (b: &mut ElementBase) {
        ModelElement::base_mut(self)
    }

    fn object_type(&self) -> (t: ObjectType) {
        ModelElement::object_type(self)
    }
}

} // verus!
