//! Editing rules of the diagram editor: the tool palette, which tools and
//! elements suit which diagram kinds, and the texts the editor shows.
use crate::diagram::DiagramKind;
use crate::elements::{type_display_spec, ModelElement, ModelElementView, TypeReference};
use crate::repository::UmlModel;
use crate::text::{trim, trimmed};
use crate::types::{AssociationType, ObjectType, Visibility};
use vstd::prelude::*;

verus! {

/// The active tool in the tool palette.
#[derive(Debug, Clone, Copy, PartialEq, Eq, Structural, Hash)]
pub enum ToolMode {
    /// Select and move existing nodes.
    Select,
    /// Create a Class on click.
    CreateClass,
    /// Create an Interface on click.
    CreateInterface,
    /// Create an Enum on click.
    CreateEnum,
    /// Create a Datatype on click.
    CreateDatatype,
    /// Create a Package on click.
    CreatePackage,
    /// Create an Actor on click.
    CreateActor,
    /// Create a UseCase on click.
    CreateUseCase,
    /// Create a Component on click.
    CreateComponent,
    /// Create a deployment Node on click.
    CreateNode,
    /// Create an Artifact on click.
    CreateArtifact,
    /// Create a Generalization (hollow triangle arrowhead).
    CreateGeneralization,
    /// Create a Realization (dashed line and hollow triangle).
    CreateRealization,
    /// Create a plain Association (solid line).
    CreateAssociation,
    /// Create an Aggregation (hollow diamond at the source).
    CreateAggregation,
    /// Create a Composition (filled diamond at the source).
    CreateComposition,
    /// Create a Dependency (dashed line and open arrow).
    CreateDependency,
}

/// The label of a tool's palette button.
pub open spec fn tool_label(t: ToolMode) -> Seq<char> {
    match t {
        ToolMode::Select => "🖱 Select"@,
        ToolMode::CreateClass => "📦 Class"@,
        ToolMode::CreateInterface => "🔌 Interface"@,
        ToolMode::CreateEnum => "🔢 Enum"@,
        ToolMode::CreateDatatype => "📋 Datatype"@,
        ToolMode::CreatePackage => "📁 Package"@,
        ToolMode::CreateActor => "🧑 Actor"@,
        ToolMode::CreateUseCase => "⬭ UseCase"@,
        ToolMode::CreateComponent => "🧩 Component"@,
        ToolMode::CreateNode => "▣ Node"@,
        ToolMode::CreateArtifact => "📄 Artifact"@,
        ToolMode::CreateGeneralization => "△ Generalization"@,
        ToolMode::CreateRealization => "△ Realization"@,
        ToolMode::CreateAssociation => "— Association"@,
        ToolMode::CreateAggregation => "◇ Aggregation"@,
        ToolMode::CreateComposition => "◆ Composition"@,
        ToolMode::CreateDependency => "⇢ Dependency"@,
    }
}

/// The tooltip of a tool.
pub open spec fn tool_tooltip(t: ToolMode) -> Seq<char> {
    match t {
        ToolMode::Select => "Select and move elements (S, Esc)"@,
        ToolMode::CreateClass => "Create a Class (C)"@,
        ToolMode::CreateInterface => "Create an Interface (I)"@,
        ToolMode::CreateEnum => "Create an Enum (E)"@,
        ToolMode::CreateDatatype => "Create a Datatype (D)"@,
        ToolMode::CreatePackage => "Create a Package (P)"@,
        ToolMode::CreateActor => "Create an Actor (T)"@,
        ToolMode::CreateUseCase => "Create a UseCase (U)"@,
        ToolMode::CreateComponent => "Create a Component"@,
        ToolMode::CreateNode => "Create a deployment Node"@,
        ToolMode::CreateArtifact => "Create an Artifact"@,
        ToolMode::CreateGeneralization => "Create a Generalization (G) — click-drag from subclass to superclass"@,
        ToolMode::CreateRealization => "Create a Realization (R) — click-drag from class to interface"@,
        ToolMode::CreateAssociation => "Create an Association (A) — click-drag between classes"@,
        ToolMode::CreateAggregation => "Create an Aggregation — click-drag from whole to part"@,
        ToolMode::CreateComposition => "Create a Composition — click-drag from whole to part"@,
        ToolMode::CreateDependency => "Create a Dependency (N) — click-drag from dependent to supplier"@,
    }
}

/// Whether a tool creates a node element on click.
pub open spec fn creates_node(t: ToolMode) -> bool {
    match t {
        ToolMode::CreateClass | ToolMode::CreateInterface | ToolMode::CreateEnum
        | ToolMode::CreateDatatype | ToolMode::CreatePackage | ToolMode::CreateActor
        | ToolMode::CreateUseCase | ToolMode::CreateComponent | ToolMode::CreateNode
        | ToolMode::CreateArtifact => true,
        _ => false,
    }
}

/// The relationship kind an edge tool draws; `None` for the other tools.
pub open spec fn edge_kind(t: ToolMode) -> Option<AssociationType> {
    match t {
        ToolMode::CreateGeneralization => Some(AssociationType::Generalization),
        ToolMode::CreateRealization => Some(AssociationType::Realization),
        ToolMode::CreateAssociation => Some(AssociationType::Association),
        ToolMode::CreateAggregation => Some(AssociationType::Aggregation),
        ToolMode::CreateComposition => Some(AssociationType::Composition),
        ToolMode::CreateDependency => Some(AssociationType::Dependency),
        _ => None,
    }
}

/// Which tools author which diagram kinds. `Select` works everywhere; the
/// creation tools only on class, use case, component and deployment
/// diagrams.
pub open spec fn tool_fits(t: ToolMode, kind: DiagramKind) -> bool {
    match kind {
        DiagramKind::Class => match t {
            ToolMode::Select | ToolMode::CreatePackage | ToolMode::CreateClass
            | ToolMode::CreateInterface | ToolMode::CreateEnum | ToolMode::CreateDatatype
            | ToolMode::CreateGeneralization | ToolMode::CreateRealization
            | ToolMode::CreateAssociation | ToolMode::CreateAggregation
            | ToolMode::CreateComposition | ToolMode::CreateDependency => true,
            _ => false,
        },
        DiagramKind::UseCase => match t {
            ToolMode::Select | ToolMode::CreatePackage | ToolMode::CreateActor
            | ToolMode::CreateUseCase | ToolMode::CreateGeneralization
            | ToolMode::CreateAssociation | ToolMode::CreateDependency => true,
            _ => false,
        },
        DiagramKind::Component => match t {
            ToolMode::Select | ToolMode::CreatePackage | ToolMode::CreateInterface
            | ToolMode::CreateComponent | ToolMode::CreateArtifact
            | ToolMode::CreateGeneralization | ToolMode::CreateRealization
            | ToolMode::CreateAssociation | ToolMode::CreateAggregation
            | ToolMode::CreateComposition | ToolMode::CreateDependency => true,
            _ => false,
        },
        DiagramKind::Deployment => match t {
            ToolMode::Select | ToolMode::CreateComponent | ToolMode::CreateNode
            | ToolMode::CreateArtifact | ToolMode::CreateAssociation
            | ToolMode::CreateDependency => true,
            _ => false,
        },
        _ => t == ToolMode::Select,
    }
}

impl ToolMode {
    /// Label for the tool's palette button.
    pub fn label(&self) -> (s: &'static str)
        ensures
            s@ == tool_label(*self),
    {
        match self {
            ToolMode::Select => "🖱 Select",
            ToolMode::CreateClass => "📦 Class",
            ToolMode::CreateInterface => "🔌 Interface",
            ToolMode::CreateEnum => "🔢 Enum",
            ToolMode::CreateDatatype => "📋 Datatype",
            ToolMode::CreatePackage => "📁 Package",
            ToolMode::CreateActor => "🧑 Actor",
            ToolMode::CreateUseCase => "⬭ UseCase",
            ToolMode::CreateComponent => "🧩 Component",
            ToolMode::CreateNode => "▣ Node",
            ToolMode::CreateArtifact => "📄 Artifact",
            ToolMode::CreateGeneralization => "△ Generalization",
            ToolMode::CreateRealization => "△ Realization",
            ToolMode::CreateAssociation => "— Association",
            ToolMode::CreateAggregation => "◇ Aggregation",
            ToolMode::CreateComposition => "◆ Composition",
            ToolMode::CreateDependency => "⇢ Dependency",
        }
    }

    /// Short tooltip description.
    pub fn tooltip(&self) -> (s: &'static str)
        ensures
            s@ == tool_tooltip(*self),
    {
        match self {
            ToolMode::Select => "Select and move elements (S, Esc)",
            ToolMode::CreateClass => "Create a Class (C)",
            ToolMode::CreateInterface => "Create an Interface (I)",
            ToolMode::CreateEnum => "Create an Enum (E)",
            ToolMode::CreateDatatype => "Create a Datatype (D)",
            ToolMode::CreatePackage => "Create a Package (P)",
            ToolMode::CreateActor => "Create an Actor (T)",
            ToolMode::CreateUseCase => "Create a UseCase (U)",
            ToolMode::CreateComponent => "Create a Component",
            ToolMode::CreateNode => "Create a deployment Node",
            ToolMode::CreateArtifact => "Create an Artifact",
            ToolMode::CreateGeneralization => "Create a Generalization (G) — click-drag from subclass to superclass",
            ToolMode::CreateRealization => "Create a Realization (R) — click-drag from class to interface",
            ToolMode::CreateAssociation => "Create an Association (A) — click-drag between classes",
            ToolMode::CreateAggregation => "Create an Aggregation — click-drag from whole to part",
            ToolMode::CreateComposition => "Create a Composition — click-drag from whole to part",
            ToolMode::CreateDependency => "Create a Dependency (N) — click-drag from dependent to supplier",
        }
    }

    /// Whether this tool creates a new node element; edge tools do not (they
    /// drag between existing nodes).
    pub fn is_creation_tool(&self) -> (b: bool)
        ensures
            b == creates_node(*self),
    {
        match self {
            ToolMode::CreateClass | ToolMode::CreateInterface | ToolMode::CreateEnum
            | ToolMode::CreateDatatype | ToolMode::CreatePackage | ToolMode::CreateActor
            | ToolMode::CreateUseCase | ToolMode::CreateComponent | ToolMode::CreateNode
            | ToolMode::CreateArtifact => true,
            _ => false,
        }
    }

    /// Whether this tool creates edges between nodes.
    pub fn is_edge_tool(&self) -> (b: bool)
        ensures
            b == (edge_kind(*self) is Some),
    {
        match self {
            ToolMode::CreateGeneralization | ToolMode::CreateRealization
            | ToolMode::CreateAssociation | ToolMode::CreateAggregation
            | ToolMode::CreateComposition | ToolMode::CreateDependency => true,
            _ => false,
        }
    }

    /// The relationship kind an edge tool creates; `None` for the selection
    /// and node tools.
    pub fn association_type(&self) -> (r: Option<AssociationType>)
        ensures
            r == edge_kind(*self),
    {
        match self {
            ToolMode::CreateGeneralization => Some(AssociationType::Generalization),
            ToolMode::CreateRealization => Some(AssociationType::Realization),
            ToolMode::CreateAssociation => Some(AssociationType::Association),
            ToolMode::CreateAggregation => Some(AssociationType::Aggregation),
            ToolMode::CreateComposition => Some(AssociationType::Composition),
            ToolMode::CreateDependency => Some(AssociationType::Dependency),
            _ => None,
        }
    }

    /// Whether this tool may author on a diagram of the given kind.
    pub fn is_compatible_with_diagram(self, kind: DiagramKind) -> (b: bool)
        ensures
            b == tool_fits(self, kind),
    {
        match kind {
            DiagramKind::Class => match self {
                ToolMode::Select | ToolMode::CreatePackage | ToolMode::CreateClass
                | ToolMode::CreateInterface | ToolMode::CreateEnum | ToolMode::CreateDatatype
                | ToolMode::CreateGeneralization | ToolMode::CreateRealization
                | ToolMode::CreateAssociation | ToolMode::CreateAggregation
                | ToolMode::CreateComposition | ToolMode::CreateDependency => true,
                _ => false,
            },
            DiagramKind::UseCase => match self {
                ToolMode::Select | ToolMode::CreatePackage | ToolMode::CreateActor
                | ToolMode::CreateUseCase | ToolMode::CreateGeneralization
                | ToolMode::CreateAssociation | ToolMode::CreateDependency => true,
                _ => false,
            },
            DiagramKind::Component => match self {
                ToolMode::Select | ToolMode::CreatePackage | ToolMode::CreateInterface
                | ToolMode::CreateComponent | ToolMode::CreateArtifact
                | ToolMode::CreateGeneralization | ToolMode::CreateRealization
                | ToolMode::CreateAssociation | ToolMode::CreateAggregation
                | ToolMode::CreateComposition | ToolMode::CreateDependency => true,
                _ => false,
            },
            DiagramKind::Deployment => match self {
                ToolMode::Select | ToolMode::CreateComponent | ToolMode::CreateNode
                | ToolMode::CreateArtifact | ToolMode::CreateAssociation
                | ToolMode::CreateDependency => true,
                _ => false,
            },
            _ => match self {
                ToolMode::Select => true,
                _ => false,
            },
        }
    }
}

/// Which element types may be shown as nodes on which diagram kinds.
/// Relationships are edges, never nodes.
pub open spec fn element_fits(t: ObjectType, kind: DiagramKind) -> bool {
    match kind {
        DiagramKind::Class => match t {
            ObjectType::Package | ObjectType::Class | ObjectType::Interface | ObjectType::Enumeration
            | ObjectType::Datatype => true,
            _ => false,
        },
        DiagramKind::UseCase => match t {
            ObjectType::Package | ObjectType::Actor | ObjectType::UseCase => true,
            _ => false,
        },
        DiagramKind::Component => match t {
            ObjectType::Package | ObjectType::Interface | ObjectType::Component
            | ObjectType::Artifact => true,
            _ => false,
        },
        DiagramKind::Deployment => match t {
            ObjectType::Component | ObjectType::Node | ObjectType::Artifact => true,
            _ => false,
        },
        _ => false,
    }
}

/// Whether an existing element may be newly shown on a diagram of the given
/// kind.
pub fn element_is_compatible_with_diagram(element: &ModelElement, kind: DiagramKind) -> (b: bool)
    ensures
        b == element_fits(element@.object_type(), kind),
{
    match kind {
        DiagramKind::Class => match element {
            ModelElement::Package(_) | ModelElement::Class(_) | ModelElement::Interface(_)
            | ModelElement::Enum(_) | ModelElement::Datatype(_) => true,
            _ => false,
        },
        DiagramKind::UseCase => match element {
            ModelElement::Package(_) | ModelElement::Actor(_) | ModelElement::UseCase(_) => true,
            _ => false,
        },
        DiagramKind::Component => match element {
            ModelElement::Package(_) | ModelElement::Interface(_) | ModelElement::Component(_)
            | ModelElement::Artifact(_) => true,
            _ => false,
        },
        DiagramKind::Deployment => match element {
            ModelElement::Component(_) | ModelElement::Node(_) | ModelElement::Artifact(_) => true,
            _ => false,
        },
        _ => false,
    }
}

/// The UML symbol of a visibility level.
pub open spec fn visibility_mark(v: Visibility) -> Seq<char> {
    match v {
        Visibility::Public => "+"@,
        Visibility::Protected => "#"@,
        Visibility::Private => "-"@,
        Visibility::Implementation => "~"@,
    }
}

/// The display name of a visibility level.
pub open spec fn visibility_title(v: Visibility) -> Seq<char> {
    match v {
        Visibility::Public => "Public"@,
        Visibility::Protected => "Protected"@,
        Visibility::Private => "Private"@,
        Visibility::Implementation => "Impl"@,
    }
}

/// The UML symbol for a visibility level.
pub fn visibility_symbol(v: Visibility) -> (s: &'static str)
    ensures
        s@ == visibility_mark(v),
{
    match v {
        Visibility::Public => "+",
        Visibility::Protected => "#",
        Visibility::Private => "-",
        Visibility::Implementation => "~",
    }
}

/// The human-readable name of a visibility level.
pub fn visibility_name(v: Visibility) -> (s: &'static str)
    ensures
        s@ == visibility_title(v),
{
    match v {
        Visibility::Public => "Public",
        Visibility::Protected => "Protected",
        Visibility::Private => "Private",
        Visibility::Implementation => "Impl",
    }
}

/// What an empty canvas tells the user: a heading and a hint, depending on
/// whether a project is open.
pub open spec fn guidance_text(has_project: bool) -> (Seq<char>, Seq<char>) {
    if !has_project {
        ("No XMI project is open."@, "Use File > New Project or File > Open to begin."@)
    } else {
        (
            "No diagram exists in this project."@,
            "Use 'New Diagram…' to create a Class, Use Case, Component, or Deployment diagram."@,
        )
    }
}

/// The heading and hint shown on a canvas without a diagram.
pub fn no_diagram_guidance(has_project: bool) -> (r: (&'static str, &'static str))
    ensures
        (r.0@, r.1@) == guidance_text(has_project),
{
    if !has_project {
        ("No XMI project is open.", "Use File > New Project or File > Open to begin.")
    } else {
        (
            "No diagram exists in this project.",
            "Use 'New Diagram…' to create a Class, Use Case, Component, or Deployment diagram.",
        )
    }
}

/// An optional text field's value: the text without surrounding white
/// space, or `None` when nothing else is left.
pub open spec fn optional_value(s: Seq<char>) -> Option<Seq<char>> {
    if trimmed(s).len() == 0 {
        None
    } else {
        Some(trimmed(s))
    }
}

/// The value of an optional text field: trimmed, and `None` when empty.
pub fn optional_text(value: &str) -> (r: Option<String>)
    ensures
        match r {
            Some(s) => optional_value(value@) == Some(s@),
            None => optional_value(value@) is None,
        },
{
    let t = trim(value);
    if t.as_str().unicode_len() == 0 {
        None
    } else {
        Some(t)
    }
}

// ─── Laws of the tool palette ────────────────────────────────────────

/// No tool both creates nodes and draws edges, and exactly the edge tools
/// have a relationship kind.
pub proof fn lemma_tool_categories(t: ToolMode)
    ensures
        !(creates_node(t) && edge_kind(t) is Some),
        t == ToolMode::Select ==> !creates_node(t) && edge_kind(t) is None,
{
}

/// `Select` suits every diagram kind, and on the kinds that the editor does
/// not author no other tool does.
pub proof fn lemma_select_fits_everywhere(t: ToolMode, kind: DiagramKind)
    ensures
        tool_fits(ToolMode::Select, kind),
        !(kind == DiagramKind::Class || kind == DiagramKind::UseCase || kind == DiagramKind::Component
            || kind == DiagramKind::Deployment) ==> (tool_fits(t, kind) <==> t == ToolMode::Select),
{
}

/// A node tool that suits a diagram kind creates an element that the kind
/// may show, where the tool's element type is the one named in its label.
pub proof fn lemma_node_tools_fit_their_elements(kind: DiagramKind)
    ensures
        tool_fits(ToolMode::CreateClass, kind) ==> element_fits(ObjectType::Class, kind),
        tool_fits(ToolMode::CreateInterface, kind) ==> element_fits(ObjectType::Interface, kind),
        tool_fits(ToolMode::CreateEnum, kind) ==> element_fits(ObjectType::Enumeration, kind),
        tool_fits(ToolMode::CreateDatatype, kind) ==> element_fits(ObjectType::Datatype, kind),
        tool_fits(ToolMode::CreatePackage, kind) ==> element_fits(ObjectType::Package, kind),
        tool_fits(ToolMode::CreateActor, kind) ==> element_fits(ObjectType::Actor, kind),
        tool_fits(ToolMode::CreateUseCase, kind) ==> element_fits(ObjectType::UseCase, kind),
        tool_fits(ToolMode::CreateComponent, kind) ==> element_fits(ObjectType::Component, kind),
        tool_fits(ToolMode::CreateNode, kind) ==> element_fits(ObjectType::Node, kind),
        tool_fits(ToolMode::CreateArtifact, kind) ==> element_fits(ObjectType::Artifact, kind),
{
}

/// Different tools have different labels.
pub proof fn lemma_labels_distinct(a: ToolMode, b: ToolMode)
    requires
        a != b,
    ensures
        tool_label(a) != tool_label(b),
{
    reveal_strlit("🖱 Select");
    reveal_strlit("📦 Class");
    reveal_strlit("🔌 Interface");
    reveal_strlit("🔢 Enum");
    reveal_strlit("📋 Datatype");
    reveal_strlit("📁 Package");
    reveal_strlit("🧑 Actor");
    reveal_strlit("⬭ UseCase");
    reveal_strlit("🧩 Component");
    reveal_strlit("▣ Node");
    reveal_strlit("📄 Artifact");
    reveal_strlit("△ Generalization");
    reveal_strlit("△ Realization");
    reveal_strlit("— Association");
    reveal_strlit("◇ Aggregation");
    reveal_strlit("◆ Composition");
    reveal_strlit("⇢ Dependency");
    assert(tool_label(a)[0] != tool_label(b)[0] || tool_label(a)[2] != tool_label(b)[2]);
}

/// The fill colour of an element on the canvas, as red, green and blue: one
/// for each kind of element that has a node, grey for anything else.
pub open spec fn fill_color(e: Option<ModelElementView>) -> (u8, u8, u8) {
    match e {
        Some(ModelElementView::Class(_)) => (180, 210, 255),
        Some(ModelElementView::Interface(_)) => (180, 255, 210),
        Some(ModelElementView::Enum(_)) => (255, 210, 180),
        Some(ModelElementView::Datatype(_)) => (210, 180, 255),
        Some(ModelElementView::Package(_)) => (255, 255, 200),
        Some(ModelElementView::Actor(_)) => (255, 200, 170),
        Some(ModelElementView::UseCase(_)) => (255, 180, 180),
        Some(ModelElementView::Component(_)) => (200, 235, 235),
        Some(ModelElementView::Node(_)) => (235, 225, 200),
        Some(ModelElementView::Artifact(_)) => (225, 225, 245),
        _ => (220, 220, 220),
    }
}

/// The fill colour of an element on the canvas.
pub fn element_color(elem: Option<&ModelElement>) -> (c: (u8, u8, u8))
    ensures
        c == fill_color(
            match elem {
                Some(e) => Some(e@),
                None => None,
            },
        ),
{
    match elem {
        Some(ModelElement::Class(_)) => (180, 210, 255),
        Some(ModelElement::Interface(_)) => (180, 255, 210),
        Some(ModelElement::Enum(_)) => (255, 210, 180),
        Some(ModelElement::Datatype(_)) => (210, 180, 255),
        Some(ModelElement::Package(_)) => (255, 255, 200),
        Some(ModelElement::Actor(_)) => (255, 200, 170),
        Some(ModelElement::UseCase(_)) => (255, 180, 180),
        Some(ModelElement::Component(_)) => (200, 235, 235),
        Some(ModelElement::Node(_)) => (235, 225, 200),
        Some(ModelElement::Artifact(_)) => (225, 225, 245),
        _ => (220, 220, 220),
    }
}

/// A type as the inspector shows it: its primitive name, the name of the
/// model element it refers to, `<unknown:id>` for a reference that does not
/// resolve, or `void`.
pub fn type_display(type_ref: &TypeReference, model: Option<&UmlModel>) -> (s: String)
    requires
        model is Some ==> model->0.wf(),
    ensures
        s@ == type_display_spec(
            type_ref@,
            match model {
                Some(m) => Some(m@),
                None => None,
            },
        ),
{
    type_ref.display_name(model)
}

} // verus!
