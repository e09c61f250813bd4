use umbrello::diagram::{Diagram, DiagramKind};
use umbrello::elements::{Actor, Class, ModelElement, UseCase};
use umbrello::naming::{
    decimal_text, generate_unique_diagram_name, generate_unique_name, generate_unique_name_in_draft,
    parse_u64, suffix_of,
};
use umbrello::repository::UmlModel;

#[test]
fn generate_unique_name_first() {
    let model = UmlModel::new();
    assert_eq!(generate_unique_name(&model, "Class"), "Class_1");
    assert_eq!(generate_unique_name(&model, "Package"), "Package_1");
}

#[test]
fn generate_unique_name_increments() {
    let mut model = UmlModel::new();
    model.insert(ModelElement::Class(Class::new("Class_1")));
    assert_eq!(generate_unique_name(&model, "Class"), "Class_2");
}

#[test]
fn generate_unique_name_finds_gap() {
    let mut model = UmlModel::new();
    model.insert(ModelElement::Class(Class::new("Class_1")));
    model.insert(ModelElement::Class(Class::new("Class_3")));
    assert_eq!(generate_unique_name(&model, "Class"), "Class_2");
}

#[test]
fn actor_unique_naming() {
    let mut model = UmlModel::new();
    model.insert(ModelElement::Actor(Actor::new("Actor_1")));
    assert_eq!(generate_unique_name(&model, "Actor"), "Actor_2");
    assert_eq!(generate_unique_name(&UmlModel::new(), "Actor"), "Actor_1");
}

#[test]
fn usecase_unique_naming() {
    let mut model = UmlModel::new();
    model.insert(ModelElement::UseCase(UseCase::new("UseCase_1")));
    assert_eq!(generate_unique_name(&model, "UseCase"), "UseCase_2");
    assert_eq!(generate_unique_name(&UmlModel::new(), "UseCase"), "UseCase_1");
}

#[test]
fn unique_name_ignores_other_bases_and_non_numbers() {
    let mut model = UmlModel::new();
    model.insert(ModelElement::Class(Class::new("Class_x")));
    model.insert(ModelElement::Class(Class::new("Interface_1")));
    model.insert(ModelElement::Class(Class::new("Class_")));
    model.insert(ModelElement::Class(Class::new("Class_+1")));
    model.insert(ModelElement::Class(Class::new("Class_02")));
    assert_eq!(generate_unique_name(&model, "Class"), "Class_3");
}

#[test]
fn unique_diagram_name_uses_diagram_names() {
    let mut model = UmlModel::new();
    model.insert(ModelElement::Class(Class::new("Class_1")));
    model.add_diagram(Diagram::new("Class_2", DiagramKind::Class));
    assert_eq!(generate_unique_diagram_name(&model, "Class"), "Class_1");
    model.add_diagram(Diagram::new("Class_1", DiagramKind::Class));
    assert_eq!(generate_unique_diagram_name(&model, "Class"), "Class_3");
}

#[test]
fn parse_u64_follows_from_str() {
    assert_eq!(parse_u64("42"), Some(42));
    assert_eq!(parse_u64("+7"), Some(7));
    assert_eq!(parse_u64("007"), Some(7));
    assert_eq!(parse_u64("18446744073709551615"), Some(u64::MAX));
    assert_eq!(parse_u64("18446744073709551616"), None);
    assert_eq!(parse_u64(""), None);
    assert_eq!(parse_u64("+"), None);
    assert_eq!(parse_u64("-1"), None);
    assert_eq!(parse_u64("1a"), None);
    for s in ["0", "9", "+12", "99999", "x", " 1"] {
        assert_eq!(parse_u64(s), s.parse::<u64>().ok(), "{s}");
    }
}

#[test]
fn decimal_text_matches_to_string() {
    for n in [0u64, 1, 9, 10, 99, 100, 12345, u64::MAX] {
        assert_eq!(decimal_text(n), n.to_string());
        assert_eq!(parse_u64(&decimal_text(n)), Some(n));
    }
}

#[test]
fn suffix_of_reads_numbered_names() {
    assert_eq!(suffix_of("Class_12", "Class"), Some(12));
    assert_eq!(suffix_of("Class12", "Class"), None);
    assert_eq!(suffix_of("Clas_12", "Class"), None);
    assert_eq!(suffix_of("Class_", "Class"), None);
    assert_eq!(suffix_of("_3", ""), Some(3));
}

#[test]
fn draft_feature_names_skip_the_numbers_in_use() {
    let names = vec![
        "attribute_1".to_string(),
        "attribute_3".to_string(),
        "other_2".to_string(),
    ];
    assert_eq!(generate_unique_name_in_draft("attribute", &names), "attribute_2");
    assert_eq!(generate_unique_name_in_draft("operation", &names), "operation_1");
    assert_eq!(generate_unique_name_in_draft("other", &names), "other_1");
}
