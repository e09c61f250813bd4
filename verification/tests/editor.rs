use std::collections::HashSet;
use umbrello::diagram::DiagramKind;
use umbrello::editor::{
    element_color, element_is_compatible_with_diagram, no_diagram_guidance, optional_text,
    type_display, visibility_name, visibility_symbol, ToolMode,
};
use umbrello::elements::{
    Actor, Artifact, Class, Component, Datatype, Enum, Interface, ModelElement, Node, Package,
    Relationship, TypeReference, UseCase,
};
use umbrello::repository::UmlModel;
use umbrello::id::UmlId;
use umbrello::types::{AssociationType, Visibility};

#[test]
fn compatibility_policy_enumerates_every_tool_and_supported_diagram() {
    let all_tools = [
        ToolMode::Select,
        ToolMode::CreateClass,
        ToolMode::CreateInterface,
        ToolMode::CreateEnum,
        ToolMode::CreateDatatype,
        ToolMode::CreatePackage,
        ToolMode::CreateActor,
        ToolMode::CreateUseCase,
        ToolMode::CreateComponent,
        ToolMode::CreateNode,
        ToolMode::CreateArtifact,
        ToolMode::CreateGeneralization,
        ToolMode::CreateRealization,
        ToolMode::CreateAssociation,
        ToolMode::CreateAggregation,
        ToolMode::CreateComposition,
        ToolMode::CreateDependency,
    ];
    let expected = [
        (
            DiagramKind::Class,
            [
                ToolMode::Select,
                ToolMode::CreateClass,
                ToolMode::CreateInterface,
                ToolMode::CreateEnum,
                ToolMode::CreateDatatype,
                ToolMode::CreatePackage,
                ToolMode::CreateGeneralization,
                ToolMode::CreateRealization,
                ToolMode::CreateAssociation,
                ToolMode::CreateAggregation,
                ToolMode::CreateComposition,
                ToolMode::CreateDependency,
            ]
            .as_slice(),
        ),
        (
            DiagramKind::UseCase,
            [
                ToolMode::Select,
                ToolMode::CreatePackage,
                ToolMode::CreateActor,
                ToolMode::CreateUseCase,
                ToolMode::CreateGeneralization,
                ToolMode::CreateAssociation,
                ToolMode::CreateDependency,
            ]
            .as_slice(),
        ),
        (
            DiagramKind::Component,
            [
                ToolMode::Select,
                ToolMode::CreatePackage,
                ToolMode::CreateInterface,
                ToolMode::CreateComponent,
                ToolMode::CreateArtifact,
                ToolMode::CreateGeneralization,
                ToolMode::CreateRealization,
                ToolMode::CreateAssociation,
                ToolMode::CreateAggregation,
                ToolMode::CreateComposition,
                ToolMode::CreateDependency,
            ]
            .as_slice(),
        ),
        (
            DiagramKind::Deployment,
            [
                ToolMode::Select,
                ToolMode::CreateComponent,
                ToolMode::CreateNode,
                ToolMode::CreateArtifact,
                ToolMode::CreateAssociation,
                ToolMode::CreateDependency,
            ]
            .as_slice(),
        ),
    ];
    for (kind, compatible) in expected {
        for tool in all_tools {
            assert_eq!(
                compatible.contains(&tool),
                tool.is_compatible_with_diagram(kind),
                "unexpected {tool:?} compatibility with {kind:?}"
            );
        }
    }
    assert!(ToolMode::Select.is_compatible_with_diagram(DiagramKind::Sequence));
    assert!(!ToolMode::CreateClass.is_compatible_with_diagram(DiagramKind::Sequence));
}

#[test]
fn visibility_symbols() {
    assert_eq!(visibility_symbol(Visibility::Public), "+");
    assert_eq!(visibility_symbol(Visibility::Protected), "#");
    assert_eq!(visibility_symbol(Visibility::Private), "-");
    assert_eq!(visibility_symbol(Visibility::Implementation), "~");
}

#[test]
fn visibility_names() {
    assert_eq!(visibility_name(Visibility::Public), "Public");
    assert_eq!(visibility_name(Visibility::Protected), "Protected");
    assert_eq!(visibility_name(Visibility::Private), "Private");
    assert_eq!(visibility_name(Visibility::Implementation), "Impl");
}

#[test]
fn tool_mode_select_label() {
    let label = ToolMode::Select.label();
    assert!(!label.is_empty(), "Select label should be non-empty");
    for tool in &[
        ToolMode::Select,
        ToolMode::CreateClass,
        ToolMode::CreateInterface,
        ToolMode::CreateEnum,
        ToolMode::CreateDatatype,
        ToolMode::CreatePackage,
    ] {
        assert!(!tool.label().is_empty(), "Label for {tool:?} should be non-empty");
    }
}

#[test]
fn tool_mode_is_creation_tool() {
    assert!(!ToolMode::Select.is_creation_tool());
    assert!(ToolMode::CreateClass.is_creation_tool());
    assert!(ToolMode::CreateInterface.is_creation_tool());
    assert!(ToolMode::CreateEnum.is_creation_tool());
    assert!(ToolMode::CreateDatatype.is_creation_tool());
    assert!(ToolMode::CreatePackage.is_creation_tool());
}

#[test]
fn tool_palette_buttons_exist() {
    let tools = [
        ToolMode::Select,
        ToolMode::CreateClass,
        ToolMode::CreateInterface,
        ToolMode::CreateEnum,
        ToolMode::CreateDatatype,
        ToolMode::CreatePackage,
    ];
    assert_eq!(tools.len(), 6);
    let mut labels: Vec<&str> = tools.iter().map(ToolMode::label).collect();
    labels.sort_unstable();
    labels.dedup();
    assert_eq!(labels.len(), 6, "All 6 tools should have unique labels");
    for t in &tools[1..] {
        assert!(t.is_creation_tool());
    }
}

#[test]
fn edge_tool_is_edge_tool() {
    assert!(ToolMode::CreateGeneralization.is_edge_tool());
    assert!(ToolMode::CreateRealization.is_edge_tool());
    assert!(ToolMode::CreateAssociation.is_edge_tool());
    assert!(ToolMode::CreateAggregation.is_edge_tool());
    assert!(ToolMode::CreateComposition.is_edge_tool());
    assert!(ToolMode::CreateDependency.is_edge_tool());
}

#[test]
fn edge_tool_not_creation_tool() {
    assert!(!ToolMode::CreateGeneralization.is_creation_tool());
    assert!(!ToolMode::CreateRealization.is_creation_tool());
    assert!(!ToolMode::CreateAssociation.is_creation_tool());
    assert!(!ToolMode::CreateAggregation.is_creation_tool());
    assert!(!ToolMode::CreateComposition.is_creation_tool());
    assert!(!ToolMode::CreateDependency.is_creation_tool());
}

#[test]
fn edge_tool_association_type() {
    assert_eq!(ToolMode::CreateGeneralization.association_type(), Some(AssociationType::Generalization));
    assert_eq!(ToolMode::CreateRealization.association_type(), Some(AssociationType::Realization));
    assert_eq!(ToolMode::CreateAssociation.association_type(), Some(AssociationType::Association));
    assert_eq!(ToolMode::CreateAggregation.association_type(), Some(AssociationType::Aggregation));
    assert_eq!(ToolMode::CreateComposition.association_type(), Some(AssociationType::Composition));
    assert_eq!(ToolMode::CreateDependency.association_type(), Some(AssociationType::Dependency));
}

#[test]
fn select_not_edge_tool() {
    assert!(!ToolMode::Select.is_edge_tool());
    assert!(ToolMode::Select.association_type().is_none());
}

#[test]
fn edge_tool_labels_nonempty() {
    for tool in &[
        ToolMode::CreateGeneralization,
        ToolMode::CreateRealization,
        ToolMode::CreateAssociation,
        ToolMode::CreateAggregation,
        ToolMode::CreateComposition,
        ToolMode::CreateDependency,
    ] {
        assert!(!tool.label().is_empty(), "Label for {tool:?} should be non-empty");
    }
}

#[test]
fn tool_actor_is_creation() {
    assert!(ToolMode::CreateActor.is_creation_tool());
}

#[test]
fn tool_usecase_is_creation() {
    assert!(ToolMode::CreateUseCase.is_creation_tool());
}

#[test]
fn tool_actor_not_edge() {
    assert!(!ToolMode::CreateActor.is_edge_tool());
}

#[test]
fn tool_usecase_not_edge() {
    assert!(!ToolMode::CreateUseCase.is_edge_tool());
}

#[test]
fn component_node_artifact_tools_are_creation_tools_with_distinct_labels() {
    let tools = [ToolMode::CreateComponent, ToolMode::CreateNode, ToolMode::CreateArtifact];
    let labels: HashSet<_> = tools.iter().map(ToolMode::label).collect();
    assert_eq!(labels.len(), tools.len());
    for tool in tools {
        assert!(tool.is_creation_tool());
        assert!(!tool.is_edge_tool());
        assert!(!tool.tooltip().is_empty());
    }
}

#[test]
fn empty_canvas_guidance_is_project_aware_and_supported_kind_only() {
    let (heading, detail) = no_diagram_guidance(false);
    assert!(heading.contains("No XMI project"));
    assert!(detail.contains("New Project") && detail.contains("Open"));
    let (heading, detail) = no_diagram_guidance(true);
    assert!(heading.contains("No diagram"));
    assert!(detail.contains("Class") && detail.contains("Deployment"));
}

#[test]
fn all_tool_labels_are_distinct() {
    let tools = [
        ToolMode::Select,
        ToolMode::CreateClass,
        ToolMode::CreateInterface,
        ToolMode::CreateEnum,
        ToolMode::CreateDatatype,
        ToolMode::CreatePackage,
        ToolMode::CreateActor,
        ToolMode::CreateUseCase,
        ToolMode::CreateComponent,
        ToolMode::CreateNode,
        ToolMode::CreateArtifact,
        ToolMode::CreateGeneralization,
        ToolMode::CreateRealization,
        ToolMode::CreateAssociation,
        ToolMode::CreateAggregation,
        ToolMode::CreateComposition,
        ToolMode::CreateDependency,
    ];
    let labels: HashSet<_> = tools.iter().map(ToolMode::label).collect();
    assert_eq!(labels.len(), tools.len());
    for t in tools {
        assert!(!(t.is_creation_tool() && t.is_edge_tool()));
        assert_eq!(t.is_edge_tool(), t.association_type().is_some());
    }
    assert_eq!(ToolMode::CreateClass.label(), "📦 Class");
    assert_eq!(ToolMode::CreateDependency.tooltip(), "Create a Dependency (N) — click-drag from dependent to supplier");
}

#[test]
fn elements_compatible_with_diagram_kinds() {
    let class = ModelElement::Class(Class::new("C"));
    let iface = ModelElement::Interface(Interface::new("I"));
    let pkg = ModelElement::Package(Package::new("P"));
    let actor = ModelElement::Actor(Actor::new("A"));
    let component = ModelElement::Component(Component::new("K"));
    let node = ModelElement::Node(Node::new("N"));
    let rel = ModelElement::Relationship(Relationship::new_association(UmlId::new(), UmlId::new()));
    assert!(element_is_compatible_with_diagram(&class, DiagramKind::Class));
    assert!(!element_is_compatible_with_diagram(&class, DiagramKind::UseCase));
    assert!(element_is_compatible_with_diagram(&iface, DiagramKind::Component));
    assert!(element_is_compatible_with_diagram(&pkg, DiagramKind::UseCase));
    assert!(!element_is_compatible_with_diagram(&pkg, DiagramKind::Deployment));
    assert!(element_is_compatible_with_diagram(&actor, DiagramKind::UseCase));
    assert!(element_is_compatible_with_diagram(&component, DiagramKind::Deployment));
    assert!(element_is_compatible_with_diagram(&node, DiagramKind::Deployment));
    assert!(!element_is_compatible_with_diagram(&node, DiagramKind::Class));
    assert!(!element_is_compatible_with_diagram(&rel, DiagramKind::Class));
    assert!(!element_is_compatible_with_diagram(&class, DiagramKind::Sequence));
}

#[test]
fn optional_text_trims_and_drops_empty() {
    assert_eq!(optional_text("  role  "), Some("role".to_string()));
    assert_eq!(optional_text("   "), None);
    assert_eq!(optional_text(""), None);
    assert_eq!(optional_text("0..*"), Some("0..*".to_string()));
    assert_eq!(optional_text("\t a b \n"), Some("a b".to_string()));
}

#[test]
fn type_display_primitive() {
    let tr = TypeReference::primitive("int");
    assert_eq!(type_display(&tr, None), "int");
}

#[test]
fn type_display_unspecified() {
    let tr = TypeReference::unspecified();
    assert_eq!(type_display(&tr, None), "void");
}

#[test]
fn type_display_model_resolved() {
    let mut model = UmlModel::new();
    let cls = Class::new("Person");
    let id = cls.base.id;
    model.insert(ModelElement::Class(cls));
    let tr = TypeReference::model(id);
    assert_eq!(type_display(&tr, Some(&model)), "Person");
}

#[test]
fn type_display_model_dangling() {
    let tr = TypeReference::model(UmlId::new());
    let display = type_display(&tr, None);
    assert!(display.starts_with("<unknown:"));
}

#[test]
fn element_colors() {
    let cls = ModelElement::Class(Class::new("C"));
    let iface = ModelElement::Interface(Interface::new("I"));
    assert_ne!(element_color(Some(&cls)), element_color(Some(&iface)));
    assert_eq!(element_color(None), (220, 220, 220));
}

#[test]
fn element_color_for_new_type() {
    assert_eq!(element_color(Some(&ModelElement::Class(Class::new("C")))), (180, 210, 255));
    assert_eq!(element_color(Some(&ModelElement::Interface(Interface::new("I")))), (180, 255, 210));
    assert_eq!(element_color(Some(&ModelElement::Enum(Enum::new("E")))), (255, 210, 180));
    assert_eq!(element_color(Some(&ModelElement::Datatype(Datatype::new("D")))), (210, 180, 255));
    assert_eq!(element_color(Some(&ModelElement::Package(Package::new("P")))), (255, 255, 200));
    assert_eq!(element_color(None), (220, 220, 220));
}

#[test]
fn actor_color() {
    let actor = ModelElement::Actor(Actor::new("Test"));
    assert_eq!(element_color(Some(&actor)), (255, 200, 170));
}

#[test]
fn usecase_color() {
    let uc = ModelElement::UseCase(UseCase::new("Test"));
    assert_eq!(element_color(Some(&uc)), (255, 180, 180));
}

#[test]
fn component_node_artifact_element_colors_are_distinct() {
    let colors = [
        element_color(Some(&ModelElement::Component(Component::new("C")))),
        element_color(Some(&ModelElement::Node(Node::new("N")))),
        element_color(Some(&ModelElement::Artifact(Artifact::new("A")))),
    ];
    assert!(colors[0] != colors[1] && colors[1] != colors[2] && colors[0] != colors[2]);
}
