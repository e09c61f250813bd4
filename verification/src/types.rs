//! Enumerations for UML concepts: element kinds, visibility, diagram and
//! relationship kinds, and parameter directions.
use vstd::prelude::*;

verus! {

/// Types of UML model elements (runtime type identification).
#[derive(Debug, Clone, Copy, PartialEq, Eq, Structural, Hash)]
pub enum ObjectType {
    /// A UML class.
    Class,
    /// A UML interface.
    Interface,
    /// A UML enumeration.
    Enumeration,
    /// A UML datatype.
    Datatype,
    /// An entity-relationship entity.
    Entity,
    /// A UML package.
    Package,
    /// A UML folder (diagram container).
    Folder,
    /// A UML component.
    Component,
    /// A UML artifact.
    Artifact,
    /// A UML actor.
    Actor,
    /// A UML use case.
    UseCase,
    /// A UML deployment node.
    Node,
    /// A UML port.
    Port,
    /// A UML category (EER specialization).
    Category,
    /// A UML instance (object diagram).
    Instance,
    /// A classifier attribute.
    Attribute,
    /// A classifier operation/method.
    Operation,
    /// A template/generic parameter.
    Template,
    /// An enumeration literal.
    EnumLiteral,
    /// An entity attribute (database field).
    EntityAttribute,
    /// A unique constraint.
    UniqueConstraint,
    /// A foreign key constraint.
    ForeignKeyConstraint,
    /// A check constraint.
    CheckConstraint,
    /// A UML association between elements.
    Association,
    /// A generalization (inheritance) relationship.
    Generalization,
    /// An interface realization relationship.
    Realization,
    /// A dependency relationship.
    Dependency,
    /// An association role/end.
    Role,
    /// A UML stereotype.
    Stereotype,
    /// An instance attribute value.
    InstanceAttribute,
}

/// The display name of an object type.
pub open spec fn object_type_name(t: ObjectType) -> Seq<char> {
    match t {
        ObjectType::Class => "Class"@,
        ObjectType::Interface => "Interface"@,
        ObjectType::Enumeration => "Enumeration"@,
        ObjectType::Datatype => "Datatype"@,
        ObjectType::Entity => "Entity"@,
        ObjectType::Package => "Package"@,
        ObjectType::Folder => "Folder"@,
        ObjectType::Component => "Component"@,
        ObjectType::Artifact => "Artifact"@,
        ObjectType::Actor => "Actor"@,
        ObjectType::UseCase => "UseCase"@,
        ObjectType::Node => "Node"@,
        ObjectType::Port => "Port"@,
        ObjectType::Category => "Category"@,
        ObjectType::Instance => "Instance"@,
        ObjectType::Attribute => "Attribute"@,
        ObjectType::Operation => "Operation"@,
        ObjectType::Template => "Template"@,
        ObjectType::EnumLiteral => "EnumLiteral"@,
        ObjectType::EntityAttribute => "EntityAttribute"@,
        ObjectType::UniqueConstraint => "UniqueConstraint"@,
        ObjectType::ForeignKeyConstraint => "ForeignKeyConstraint"@,
        ObjectType::CheckConstraint => "CheckConstraint"@,
        ObjectType::Association => "Association"@,
        ObjectType::Generalization => "Generalization"@,
        ObjectType::Realization => "Realization"@,
        ObjectType::Dependency => "Dependency"@,
        ObjectType::Role => "Role"@,
        ObjectType::Stereotype => "Stereotype"@,
        ObjectType::InstanceAttribute => "InstanceAttribute"@,
    }
}

impl ObjectType {
    /// The display name of this object type (e.g. `"Class"`).
    pub fn as_str(self) -> (s: &'static str)
        ensures
            s@ == object_type_name(self),
    {
        proof {
            reveal_strlit("Class");
            reveal_strlit("Interface");
            reveal_strlit("Enumeration");
            reveal_strlit("Datatype");
            reveal_strlit("Entity");
            reveal_strlit("Package");
            reveal_strlit("Folder");
            reveal_strlit("Component");
            reveal_strlit("Artifact");
            reveal_strlit("Actor");
            reveal_strlit("UseCase");
            reveal_strlit("Node");
            reveal_strlit("Port");
            reveal_strlit("Category");
            reveal_strlit("Instance");
            reveal_strlit("Attribute");
            reveal_strlit("Operation");
            reveal_strlit("Template");
            reveal_strlit("EnumLiteral");
            reveal_strlit("EntityAttribute");
            reveal_strlit("UniqueConstraint");
            reveal_strlit("ForeignKeyConstraint");
            reveal_strlit("CheckConstraint");
            reveal_strlit("Association");
            reveal_strlit("Generalization");
            reveal_strlit("Realization");
            reveal_strlit("Dependency");
            reveal_strlit("Role");
            reveal_strlit("Stereotype");
            reveal_strlit("InstanceAttribute");
        }
        match self {
            ObjectType::Class => "Class",
            ObjectType::Interface => "Interface",
            ObjectType::Enumeration => "Enumeration",
            ObjectType::Datatype => "Datatype",
            ObjectType::Entity => "Entity",
            ObjectType::Package => "Package",
            ObjectType::Folder => "Folder",
            ObjectType::Component => "Component",
            ObjectType::Artifact => "Artifact",
            ObjectType::Actor => "Actor",
            ObjectType::UseCase => "UseCase",
            ObjectType::Node => "Node",
            ObjectType::Port => "Port",
            ObjectType::Category => "Category",
            ObjectType::Instance => "Instance",
            ObjectType::Attribute => "Attribute",
            ObjectType::Operation => "Operation",
            ObjectType::Template => "Template",
            ObjectType::EnumLiteral => "EnumLiteral",
            ObjectType::EntityAttribute => "EntityAttribute",
            ObjectType::UniqueConstraint => "UniqueConstraint",
            ObjectType::ForeignKeyConstraint => "ForeignKeyConstraint",
            ObjectType::CheckConstraint => "CheckConstraint",
            ObjectType::Association => "Association",
            ObjectType::Generalization => "Generalization",
            ObjectType::Realization => "Realization",
            ObjectType::Dependency => "Dependency",
            ObjectType::Role => "Role",
            ObjectType::Stereotype => "Stereotype",
            ObjectType::InstanceAttribute => "InstanceAttribute",
        }
    }
}

/// Visibility levels for UML elements.
#[derive(Debug, Clone, Copy, PartialEq, Eq, Structural, Hash)]
pub enum Visibility {
    /// Public visibility (`+`).
    Public,
    /// Protected visibility (`#`).
    Protected,
    /// Private visibility (`-`).
    Private,
    /// Implementation-level visibility (`~`).
    Implementation,
}

/// The lower-case keyword of a visibility level.
pub open spec fn visibility_keyword(v: Visibility) -> Seq<char> {
    match v {
        Visibility::Public => "public"@,
        Visibility::Protected => "protected"@,
        Visibility::Private => "private"@,
        Visibility::Implementation => "implementation"@,
    }
}

impl Visibility {
    /// The lower-case keyword of this visibility (e.g. `"public"`).
    pub fn as_str(self) -> (s: &'static str)
        ensures
            s@ == visibility_keyword(self),
    {
        proof {
            reveal_strlit("public");
            reveal_strlit("protected");
            reveal_strlit("private");
            reveal_strlit("implementation");
        }
        match self {
            Visibility::Public => "public",
            Visibility::Protected => "protected",
            Visibility::Private => "private",
            Visibility::Implementation => "implementation",
        }
    }
}

impl Default for Visibility {
    /// Elements are public unless stated otherwise.
    fn default() -> (v: Self)
        ensures
            v == Visibility::Public,
    {
        Visibility::Public
    }
}

/// Diagram types supported by Umbrello.
#[derive(Debug, Clone, Copy, PartialEq, Eq, Structural, Hash)]
pub enum DiagramType {
    /// Undefined / unknown diagram type.
    Undefined,
    /// UML class diagram.
    Class,
    /// UML use case diagram.
    UseCase,
    /// UML sequence diagram.
    Sequence,
    /// UML collaboration diagram.
    Collaboration,
    /// UML state diagram.
    State,
    /// UML activity diagram.
    Activity,
    /// UML component diagram.
    Component,
    /// UML deployment diagram.
    Deployment,
    /// Entity-relationship diagram.
    EntityRelationship,
    /// UML object diagram.
    Object,
}

/// Kinds of relationships between model elements.
#[derive(Debug, Clone, Copy, PartialEq, Eq, Structural, Hash)]
pub enum AssociationType {
    /// Subclass to superclass.
    Generalization,
    /// Implementing class to interface.
    Realization,
    /// Plain association.
    Association,
    /// Whole-part with shared lifecycle.
    Aggregation,
    /// Whole-part with exclusive lifecycle.
    Composition,
    /// Uses relationship.
    Dependency,
}

/// The display name of a relationship kind.
pub open spec fn association_type_name(k: AssociationType) -> Seq<char> {
    match k {
        AssociationType::Generalization => "Generalization"@,
        AssociationType::Realization => "Realization"@,
        AssociationType::Association => "Association"@,
        AssociationType::Aggregation => "Aggregation"@,
        AssociationType::Composition => "Composition"@,
        AssociationType::Dependency => "Dependency"@,
    }
}

impl AssociationType {
    /// The display name of this relationship kind (e.g. `"Generalization"`).
    pub fn as_str(self) -> (s: &'static str)
        ensures
            s@ == association_type_name(self),
    {
        proof {
            reveal_strlit("Generalization");
            reveal_strlit("Realization");
            reveal_strlit("Association");
            reveal_strlit("Aggregation");
            reveal_strlit("Composition");
            reveal_strlit("Dependency");
        }
        match self {
            AssociationType::Generalization => "Generalization",
            AssociationType::Realization => "Realization",
            AssociationType::Association => "Association",
            AssociationType::Aggregation => "Aggregation",
            AssociationType::Composition => "Composition",
            AssociationType::Dependency => "Dependency",
        }
    }
}

/// Direction of an operation parameter.
#[derive(Debug, Clone, Copy, PartialEq, Eq, Structural, Hash)]
pub enum ParameterDirection {
    /// Input parameter.
    In,
    /// Output parameter.
    Out,
    /// Input and output parameter.
    InOut,
    /// Return value.
    Return,
}

} // verus!
