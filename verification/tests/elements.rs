use umbrello::elements::{
    Actor, Attribute, Class, ClassifierData, Datatype, ElementBase, Enum, Interface, ModelElement,
    NamedElement, Operation, Package, Parameter, Relationship, TypeReference, UseCase,
};
use umbrello::id::UmlId;
use umbrello::repository::UmlModel;
use umbrello::types::{AssociationType, ObjectType, ParameterDirection, Visibility};

#[test]
fn package_creation() {
    let pkg = Package::new("MyPackage");
    assert_eq!(pkg.base.name, "MyPackage");
    assert_eq!(pkg.child_count(), 0);
    assert_eq!(pkg.base.visibility, Visibility::default());
}

#[test]
fn package_add_remove_children() {
    let mut pkg = Package::new("Root");
    let child1 = UmlId::new();
    let child2 = UmlId::new();

    pkg.add_child(child1);
    pkg.add_child(child2);
    assert_eq!(pkg.child_count(), 2);

    let removed = pkg.remove_child(child1);
    assert!(removed);
    assert_eq!(pkg.child_count(), 1);

    assert!(!pkg.remove_child(UmlId::new()));
}

#[test]
fn package_child_ids_keep_insertion_order() {
    let mut pkg = Package::new("Root");
    let a = UmlId::from_u128(1);
    let b = UmlId::from_u128(2);
    let c = UmlId::from_u128(3);
    pkg.add_child(a);
    pkg.add_child(b);
    pkg.add_child(c);
    assert!(pkg.remove_child(b));
    assert_eq!(pkg.child_ids(), &[a, c]);
}

#[test]
fn class_creation() {
    let cls = Class::new("MyClass");
    assert_eq!(cls.base.name, "MyClass");
    assert!(!cls.base.is_abstract);
    assert_eq!(cls.classifier.attributes.len(), 0);
    assert_eq!(cls.classifier.operations.len(), 0);
}

#[test]
fn class_abstract_creation() {
    let cls = Class::new_abstract("AbstractBase");
    assert!(cls.base.is_abstract);
}

#[test]
fn interface_creation() {
    let iface = Interface::new("MyInterface");
    assert_eq!(iface.base.name, "MyInterface");
    assert!(iface.base.is_abstract, "interfaces are always abstract");
}

#[test]
fn enum_creation_and_literals() {
    let mut enm = Enum::new("Color");
    assert_eq!(enm.literal_count(), 0);

    enm.add_literal("Red", Some("0".into()));
    enm.add_literal("Green", Some("1".into()));
    enm.add_literal("Blue", None);

    assert_eq!(enm.literal_count(), 3);
    assert_eq!(enm.literals[0].name, "Red");
    assert_eq!(enm.literals[0].value, Some("0".to_string()));
    assert_eq!(enm.literals[2].value, None);
}

#[test]
fn classifier_data_add_attribute() {
    let mut data = ClassifierData::new();
    data.add_attribute(Attribute {
        name: "count".into(),
        type_ref: TypeReference::primitive("int"),
        visibility: Visibility::Private,
        initial_value: Some("0".into()),
        is_static: false,
    });
    assert_eq!(data.attributes.len(), 1);
    assert_eq!(data.attributes[0].name, "count");
}

#[test]
fn classifier_data_add_operation() {
    let mut data = ClassifierData::new();
    data.add_operation(Operation {
        name: "doSomething".into(),
        return_type: TypeReference::primitive("void"),
        parameters: vec![Parameter {
            name: "x".into(),
            type_ref: TypeReference::primitive("int"),
            direction: ParameterDirection::In,
            default_value: None,
        }],
        visibility: Visibility::Public,
        is_static: false,
        is_abstract: false,
        is_virtual: true,
    });
    assert_eq!(data.operations.len(), 1);
    assert_eq!(data.operations[0].name, "doSomething");
    assert_eq!(data.operations[0].parameters.len(), 1);
}

#[test]
fn model_element_object_type() {
    assert_eq!(ModelElement::Package(Package::new("P")).object_type(), ObjectType::Package);
    assert_eq!(ModelElement::Class(Class::new("C")).object_type(), ObjectType::Class);
    assert_eq!(ModelElement::Interface(Interface::new("I")).object_type(), ObjectType::Interface);
    assert_eq!(ModelElement::Enum(Enum::new("E")).object_type(), ObjectType::Enumeration);
}

#[test]
fn model_element_is_classifier() {
    assert!(ModelElement::Class(Class::new("C")).is_classifier());
    assert!(ModelElement::Interface(Interface::new("I")).is_classifier());
    assert!(ModelElement::Enum(Enum::new("E")).is_classifier());
    assert!(!ModelElement::Package(Package::new("P")).is_classifier());
}

#[test]
fn model_element_is_package() {
    assert!(ModelElement::Package(Package::new("P")).is_package());
    assert!(!ModelElement::Class(Class::new("C")).is_package());
}

#[test]
fn model_element_classifier_data_access() {
    let mut cls = Class::new("C");
    cls.classifier.add_attribute(Attribute {
        name: "x".into(),
        type_ref: TypeReference::primitive("int"),
        visibility: Visibility::Private,
        initial_value: None,
        is_static: false,
    });

    let elem = ModelElement::Class(cls);
    assert!(elem.classifier_data().is_some());
    assert_eq!(elem.classifier_data().unwrap().attributes.len(), 1);

    let pkg_elem = ModelElement::Package(Package::new("P"));
    assert!(pkg_elem.classifier_data().is_none());
}

#[test]
fn model_element_name_and_id() {
    let id = UmlId::new();
    let name = "TestClass";
    let mut base = ElementBase::new(name);
    base.id = id;

    let elem = ModelElement::Class(Class { base, classifier: ClassifierData::default() });

    assert_eq!(elem.id(), id);
    assert_eq!(elem.name(), name);
}

#[test]
fn model_element_set_name() {
    let mut elem = ModelElement::Class(Class::new("OldName"));
    elem.set_name("NewName".into());
    assert_eq!(elem.name(), "NewName");
}

#[test]
fn named_element_trait() {
    let elem = ModelElement::Class(Class::new("TraitTest"));
    assert_eq!(NamedElement::name(&elem), "TraitTest");
    assert_eq!(NamedElement::object_type(&elem), ObjectType::Class);
    assert!(!NamedElement::name(&elem).is_empty());
}

#[test]
fn element_base_defaults() {
    let base = ElementBase::new("Test");
    assert_eq!(base.name, "Test");
    assert_eq!(base.visibility, Visibility::Public);
    assert!(!base.is_abstract);
    assert!(!base.is_static);
    assert!(base.documentation.is_empty());
    assert!(base.stereotype_id.is_none());
}

#[test]
fn datatype_creation() {
    let dt = Datatype::new("int");
    assert_eq!(dt.base.name, "int");
    assert!(!dt.base.is_abstract);
}

#[test]
fn model_element_datatype_object_type() {
    let elem = ModelElement::Datatype(Datatype::new("String"));
    assert_eq!(elem.object_type(), ObjectType::Datatype);
    assert!(elem.is_classifier());
    assert!(elem.classifier_data().is_some());
}

#[test]
fn element_base_original_xmi_id() {
    let base = ElementBase::new("Test");
    assert!(base.original_xmi_id.is_none());

    let mut base = ElementBase::new("FromXMI");
    base.original_xmi_id = Some("O0JJV24XoKdQ".into());
    assert_eq!(base.original_xmi_id, Some("O0JJV24XoKdQ".to_string()));
}

#[test]
fn relationship_creation() {
    let source = UmlId::new();
    let target = UmlId::new();
    let rel = Relationship::new(AssociationType::Generalization, source, target);
    assert_eq!(rel.kind, AssociationType::Generalization);
    assert_eq!(rel.source_id, source);
    assert_eq!(rel.target_id, target);
    assert!(rel.source_multiplicity.is_none());
}

#[test]
fn relationship_constructor_methods() {
    let a = UmlId::new();
    let b = UmlId::new();

    let gen = Relationship::new_generalization(a, b);
    assert_eq!(gen.kind, AssociationType::Generalization);

    let real = Relationship::new_realization(a, b);
    assert_eq!(real.kind, AssociationType::Realization);

    let assoc = Relationship::new_association(a, b);
    assert_eq!(assoc.kind, AssociationType::Association);

    let agg = Relationship::new_aggregation(a, b);
    assert_eq!(agg.kind, AssociationType::Aggregation);

    let comp = Relationship::new_composition(a, b);
    assert_eq!(comp.kind, AssociationType::Composition);

    let dep = Relationship::new_dependency(a, b);
    assert_eq!(dep.kind, AssociationType::Dependency);
}

#[test]
fn relationship_object_type() {
    assert_eq!(
        Relationship::new_generalization(UmlId::new(), UmlId::new()).object_type(),
        ObjectType::Generalization
    );
    assert_eq!(
        Relationship::new_realization(UmlId::new(), UmlId::new()).object_type(),
        ObjectType::Realization
    );
    assert_eq!(
        Relationship::new_dependency(UmlId::new(), UmlId::new()).object_type(),
        ObjectType::Dependency
    );
    assert_eq!(
        Relationship::new_association(UmlId::new(), UmlId::new()).object_type(),
        ObjectType::Association
    );
}

#[test]
fn model_element_relationship_object_type() {
    let rel = Relationship::new_generalization(UmlId::new(), UmlId::new());
    let elem = ModelElement::Relationship(rel);
    assert_eq!(elem.object_type(), ObjectType::Generalization);
    assert!(elem.classifier_data().is_none());
    assert!(!elem.is_classifier());
    assert!(!elem.is_package());
}

#[test]
fn type_reference_unspecified() {
    let tr = TypeReference::unspecified();
    assert!(!tr.is_resolved());
    assert!(!tr.is_model_type());
    assert!(!tr.is_primitive());
    assert!(tr.is_valid());
    assert_eq!(tr.display_name(None), "void");
}

#[test]
fn type_reference_model() {
    let id = UmlId::new();
    let tr = TypeReference::model(id);
    assert!(tr.is_resolved());
    assert!(tr.is_model_type());
    assert!(!tr.is_primitive());
    assert!(tr.is_valid());
    assert_eq!(tr.model_id, Some(id));
}

#[test]
fn type_reference_primitive() {
    let tr = TypeReference::primitive("int");
    assert!(tr.is_resolved());
    assert!(!tr.is_model_type());
    assert!(tr.is_primitive());
    assert!(tr.is_valid());
    assert_eq!(tr.display_name(None), "int");
}

#[test]
fn type_reference_both_set_is_invalid() {
    let tr = TypeReference { model_id: Some(UmlId::new()), primitive_name: Some("int".into()) };
    assert!(!tr.is_valid());
}

#[test]
fn type_reference_default() {
    let tr = TypeReference::default();
    assert!(!tr.is_resolved());
    assert!(tr.is_valid());
}

#[test]
fn type_reference_display_name_with_model() {
    let mut model = UmlModel::new();
    let cls = Class::new("Person");
    let cls_id = cls.base.id;
    model.insert(ModelElement::Class(cls));

    let tr = TypeReference::model(cls_id);
    assert_eq!(tr.display_name(Some(&model)), "Person");
}

#[test]
fn type_reference_display_name_dangling() {
    let dangling = UmlId::new();
    let tr = TypeReference::model(dangling);
    let display = tr.display_name(None);
    assert!(display.starts_with("<unknown:"));
}

#[test]
fn type_reference_display_name_dangling_names_the_id() {
    let id = UmlId::from_u128(0x0123_4567_89ab_cdef_0123_4567_89ab_cdef);
    let tr = TypeReference::model(id);
    assert_eq!(tr.display_name(None), "<unknown:01234567-89ab-cdef-0123-456789abcdef>");
}

#[test]
fn actor_creation() {
    let actor = Actor::new("User");
    assert_eq!(actor.base.name, "User");
    assert_eq!(actor.base.visibility, Visibility::Public);
    assert!(actor.base.stereotype_id.is_none());
    assert!(actor.base.documentation.is_empty());
    assert!(!actor.base.is_abstract);
    assert!(!actor.base.is_static);
}

#[test]
fn actor_model_element_insert() {
    let mut model = UmlModel::new();
    let actor = Actor::new("User");
    let id = actor.base.id;
    model.insert(ModelElement::Actor(actor));

    let retrieved = model.get(id).expect("Actor should be in model");
    assert_eq!(retrieved.object_type(), ObjectType::Actor);
    assert_eq!(retrieved.name(), "User");
}

#[test]
fn actor_not_classifier() {
    let elem = ModelElement::Actor(Actor::new("User"));
    assert!(!elem.is_classifier());
}

#[test]
fn actor_not_container() {
    let elem = ModelElement::Actor(Actor::new("User"));
    assert!(!elem.is_package());
}

#[test]
fn usecase_creation() {
    let uc = UseCase::new("Login");
    assert_eq!(uc.base.name, "Login");
    assert_eq!(uc.base.visibility, Visibility::Public);
    assert!(uc.base.stereotype_id.is_none());
    assert!(uc.base.documentation.is_empty());
}

#[test]
fn usecase_model_element_insert() {
    let mut model = UmlModel::new();
    let uc = UseCase::new("Login");
    let id = uc.base.id;
    model.insert(ModelElement::UseCase(uc));

    let retrieved = model.get(id).expect("UseCase should be in model");
    assert_eq!(retrieved.object_type(), ObjectType::UseCase);
    assert_eq!(retrieved.name(), "Login");
}

#[test]
fn usecase_not_classifier() {
    let elem = ModelElement::UseCase(UseCase::new("Search"));
    assert!(!elem.is_classifier());
}
