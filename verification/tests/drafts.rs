use umbrello::diagram::edge::{LineRouting, ViewEdge};
use umbrello::diagram::{Diagram, DiagramKind};
use umbrello::drafts::{
    resolve_draft_type, ClassifierDraft, DraftAttribute, DraftOperation, DraftParameter,
    RelationshipDraft,
};
use umbrello::elements::{
    Attribute, Class, ModelElement, Operation, Package, Parameter, Relationship, TypeReference,
};
use umbrello::id::{EdgeId, UmlId};
use umbrello::repository::UmlModel;
use umbrello::session::EditorSession;
use umbrello::types::{AssociationType, ParameterDirection, Visibility};

fn make_app_with_classifier_features() -> (EditorSession, UmlId) {
    make_app_with_classifier_features_and(Vec::new())
}

/// The session of `make_app_with_classifier_features`, with more elements in
/// the model.
fn make_app_with_classifier_features_and(extra: Vec<ModelElement>) -> (EditorSession, UmlId) {
    let mut model = UmlModel::new();
    for e in extra {
        model.insert(e);
    }
    model.add_diagram(Diagram::new("ClassDiagram", DiagramKind::Class));
    let mut cls = Class::new("Person");
    cls.classifier.add_attribute(Attribute {
        name: "name".into(),
        type_ref: TypeReference::primitive("String"),
        visibility: Visibility::Private,
        initial_value: None,
        is_static: false,
    });
    cls.classifier.add_operation(Operation {
        name: "getName".into(),
        return_type: TypeReference::primitive("String"),
        parameters: vec![Parameter {
            name: "format".into(),
            type_ref: TypeReference::primitive("bool"),
            direction: ParameterDirection::In,
            default_value: Some("true".into()),
        }],
        visibility: Visibility::Public,
        is_static: false,
        is_abstract: false,
        is_virtual: true,
    });
    let id = cls.base.id;
    model.insert(ModelElement::Class(cls));
    let mut app = EditorSession::new(model, false);
    app.set_active_diagram(Some(0));
    app.set_current_file_path(Some("/tmp/test-project.xmi"));
    app.select_element(id).unwrap();
    (app, id)
}

/// The current classifier draft, as the inspector holds it.
fn current_draft(app: &EditorSession) -> ClassifierDraft {
    app.classifier_draft().unwrap().1.clone()
}

/// Edit the inspector's classifier draft and return the edited copy.
fn edit_draft(app: &mut EditorSession, id: UmlId, f: impl FnOnce(&mut ClassifierDraft)) -> ClassifierDraft {
    let mut d = current_draft(app);
    f(&mut d);
    app.set_classifier_draft(Some((id, d.clone())));
    d
}

fn features(app: &EditorSession, id: UmlId) -> umbrello::elements::ClassifierData {
    app.model().get(id).unwrap().classifier_data().unwrap().clone()
}

#[test]
fn classifier_draft_populated_and_cleared_by_selection() {
    let pkg = Package::new("Pkg");
    let pkg_id = pkg.base.id;
    let (mut app, id) = make_app_with_classifier_features_and(vec![ModelElement::Package(pkg)]);
    assert!(app.classifier_draft().is_some(), "classifier_draft should be populated for classifier");
    let (draft_id, draft) = app.classifier_draft().unwrap();
    assert_eq!(*draft_id, id);
    assert_eq!(draft.attributes.len(), 1);
    assert_eq!(draft.attributes[0].name, "name");
    assert_eq!(draft.attributes[0].type_text, "String");
    assert_eq!(draft.operations.len(), 1);
    assert_eq!(draft.operations[0].name, "getName");
    assert_eq!(draft.operations[0].return_type_text, "String");
    assert_eq!(draft.operations[0].parameters.len(), 1);
    assert_eq!(draft.operations[0].parameters[0].name, "format");

    app.select_element(pkg_id).unwrap();
    assert!(app.classifier_draft().is_none(), "classifier_draft should be None for non-classifier");

    app.select_element(id).unwrap();
    assert!(app.classifier_draft().is_some(), "classifier_draft should be repopulated for classifier");
}

#[test]
fn classifier_draft_add_delete_attribute() {
    let (app, _) = make_app_with_classifier_features();
    let mut draft = current_draft(&app);
    assert_eq!(draft.attributes.len(), 1);
    draft.attributes.push(DraftAttribute {
        name: "attribute_1".into(),
        type_text: "int".into(),
        original_type: TypeReference::unspecified(),
        visibility: Visibility::Public,
        initial_value: String::new(),
        is_static: false,
    });
    assert_eq!(draft.attributes.len(), 2);
    assert_eq!(draft.attributes[1].name, "attribute_1");
    draft.attributes.remove(0);
    assert_eq!(draft.attributes.len(), 1);
    assert_eq!(draft.attributes[0].name, "attribute_1");
}

#[test]
fn classifier_draft_add_delete_operation() {
    let (app, _) = make_app_with_classifier_features();
    let mut draft = current_draft(&app);
    assert_eq!(draft.operations.len(), 1);
    draft.operations.push(DraftOperation {
        name: "operation_1".into(),
        return_type_text: "void".into(),
        original_return_type: TypeReference::unspecified(),
        parameters: Vec::new(),
        visibility: Visibility::Public,
        is_static: false,
        is_abstract: false,
        is_virtual: false,
    });
    assert_eq!(draft.operations.len(), 2);
    draft.operations.remove(0);
    assert_eq!(draft.operations.len(), 1);
    assert_eq!(draft.operations[0].name, "operation_1");
}

#[test]
fn classifier_draft_add_delete_parameter() {
    let (app, _) = make_app_with_classifier_features();
    let mut draft = current_draft(&app);
    let op = &mut draft.operations[0];
    assert_eq!(op.parameters.len(), 1);
    op.parameters.push(DraftParameter {
        name: "parameter_1".into(),
        type_text: "String".into(),
        original_type: TypeReference::unspecified(),
        direction: ParameterDirection::In,
        default_value: String::new(),
    });
    assert_eq!(op.parameters.len(), 2);
    op.parameters.remove(0);
    assert_eq!(op.parameters.len(), 1);
    assert_eq!(op.parameters[0].name, "parameter_1");
}

#[test]
fn classifier_draft_apply_creates_one_command() {
    let (mut app, id) = make_app_with_classifier_features();
    let draft = edit_draft(&mut app, id, |d| {
        d.attributes.push(DraftAttribute {
            name: "age".into(),
            type_text: "int".into(),
            original_type: TypeReference::unspecified(),
            visibility: Visibility::Private,
            initial_value: "0".into(),
            is_static: false,
        })
    });
    let result = app.apply_classifier_draft(id, &draft).unwrap();
    assert!(result, "Apply should report changes were made");
    assert_eq!(app.history().undo_depth(), 1, "Apply creates one command");
    assert!(app.is_dirty(), "Apply dirties the model");
    let cd = features(&app, id);
    assert_eq!(cd.attributes.len(), 2, "Model should have 2 attributes");
    assert_eq!(cd.attributes[1].name, "age");
    assert_eq!(cd.attributes[1].type_ref, TypeReference::primitive("int"));
    assert_eq!(cd.attributes[1].visibility, Visibility::Private);
    assert_eq!(cd.attributes[1].initial_value, Some("0".to_string()));
}

#[test]
fn classifier_draft_apply_rejects_empty_name() {
    let (mut app, id) = make_app_with_classifier_features();
    let draft = edit_draft(&mut app, id, |d| d.attributes[0].name = "".into());
    let result = app.apply_classifier_draft(id, &draft);
    assert!(result.is_err(), "Empty attribute name should be rejected");
    assert!(result.err().unwrap().contains("empty name"), "Error message should mention empty name");
}

#[test]
fn classifier_draft_problems_name_the_first_blank_field() {
    let (mut app, id) = make_app_with_classifier_features();
    let draft = edit_draft(&mut app, id, |d| {
        d.operations[0].parameters[0].name = " ".into();
        d.operations.push(DraftOperation {
            name: "".into(),
            return_type_text: "".into(),
            original_return_type: TypeReference::unspecified(),
            parameters: Vec::new(),
            visibility: Visibility::Public,
            is_static: false,
            is_abstract: false,
            is_virtual: false,
        });
    });
    assert_eq!(
        app.apply_classifier_draft(id, &draft),
        Err("Operation 0 parameter 0 has an empty name".to_string())
    );
    let mut second = draft.clone();
    second.operations[0].parameters[0].name = "format".into();
    assert_eq!(
        app.apply_classifier_draft(id, &second),
        Err("Operation 1 has an empty name".to_string())
    );
    let mut third = second.clone();
    third.attributes[0].name = "\t".into();
    assert_eq!(
        app.apply_classifier_draft(id, &third),
        Err("Attribute 0 has an empty name".to_string())
    );
    assert_eq!(app.history().undo_depth(), 0);
}

#[test]
fn classifier_draft_apply_refuses_a_non_classifier() {
    let (mut app, _) = make_app_with_classifier_features();
    let draft = current_draft(&app);
    assert_eq!(
        app.apply_classifier_draft(UmlId::from_u128(5), &draft),
        Err("selected element is not a classifier".to_string())
    );
}

#[test]
fn classifier_draft_apply_noop_returns_false() {
    let (mut app, id) = make_app_with_classifier_features();
    let draft = current_draft(&app);
    let result = app.apply_classifier_draft(id, &draft).unwrap();
    assert!(!result, "No-op Apply should return false");
    assert_eq!(app.history().undo_depth(), 0, "No-op should not create history");
    assert!(!app.is_dirty(), "No-op should not dirty model");
}

#[test]
fn classifier_draft_apply_undo_restores() {
    let (mut app, id) = make_app_with_classifier_features();
    let orig_attr_count = features(&app, id).attributes.len();
    let draft = edit_draft(&mut app, id, |d| d.attributes.clear());
    app.apply_classifier_draft(id, &draft).unwrap();
    assert_eq!(features(&app, id).attributes.len(), 0, "After apply, attributes should be empty");
    app.undo_action().unwrap();
    assert_eq!(
        features(&app, id).attributes.len(),
        orig_attr_count,
        "Undo should restore original attribute count"
    );
}

#[test]
fn classifier_draft_revert_restores_from_model() {
    let (mut app, id) = make_app_with_classifier_features();
    edit_draft(&mut app, id, |d| d.attributes[0].name = "changed".into());
    assert_eq!(current_draft(&app).attributes[0].name, "changed");
    app.refresh_property_buffers();
    let draft = current_draft(&app);
    assert_eq!(draft.attributes[0].name, "name", "Revert should restore original name");
}

#[test]
fn classifier_draft_preserves_model_backed_type_reference() {
    let (mut app, id) = make_app_with_classifier_features();
    let model_id = UmlId::new();
    let draft = edit_draft(&mut app, id, |d| {
        d.attributes[0].original_type = TypeReference::model(model_id);
        d.attributes[0].type_text = "SomeElement".into();
    });
    app.apply_classifier_draft(id, &draft).unwrap();
    assert_eq!(
        features(&app, id).attributes[0].type_ref,
        TypeReference::primitive("SomeElement"),
        "When model_id doesn't resolve, text becomes primitive"
    );

    // A model-backed reference that does resolve is kept.
    let mut model = UmlModel::new();
    let target = Class::new("SomeElement");
    let target_id = target.base.id;
    model.insert(ModelElement::Class(target));
    let mut cls = Class::new("Person");
    cls.classifier.add_attribute(Attribute {
        name: "name".into(),
        type_ref: TypeReference::primitive("String"),
        visibility: Visibility::Private,
        initial_value: None,
        is_static: false,
    });
    let cls_id = cls.base.id;
    model.insert(ModelElement::Class(cls));
    let mut app = EditorSession::new(model, false);
    app.select_element(cls_id).unwrap();
    let draft = edit_draft(&mut app, cls_id, |d| {
        d.attributes[0].original_type = TypeReference::model(target_id);
        d.attributes[0].type_text = "SomeElement".into();
    });
    app.apply_classifier_draft(cls_id, &draft).unwrap();
    assert_eq!(
        features(&app, cls_id).attributes[0].type_ref,
        TypeReference::model(target_id),
        "Resolved model reference should be preserved"
    );
}

#[test]
fn clear_selection_clears_classifier_draft() {
    let (mut app, _) = make_app_with_classifier_features();
    assert!(app.classifier_draft().is_some());
    app.clear_selection();
    assert!(app.classifier_draft().is_none());
}

#[test]
fn normalize_transient_state_clears_classifier_draft() {
    let (mut app, _) = make_app_with_classifier_features();
    assert!(app.classifier_draft().is_some());
    let draft = app.classifier_draft().cloned();
    app.clear_selection();
    app.set_classifier_draft(draft);
    assert!(app.classifier_draft().is_some());
    app.normalize_transient_state();
    assert!(app.classifier_draft().is_none());
}

#[test]
fn classifier_draft_apply_primitive_type_roundtrips() {
    let (mut app, id) = make_app_with_classifier_features();
    let draft = edit_draft(&mut app, id, |d| d.operations[0].return_type_text = "i32".into());
    app.apply_classifier_draft(id, &draft).unwrap();
    assert_eq!(
        features(&app, id).operations[0].return_type,
        TypeReference::primitive("i32"),
        "Primitive type should be stored in model"
    );
    app.refresh_property_buffers();
    assert_eq!(current_draft(&app).operations[0].return_type_text, "i32");
}

#[test]
fn classifier_draft_apply_rejects_empty_parameter_name() {
    let (mut app, id) = make_app_with_classifier_features();
    let draft = edit_draft(&mut app, id, |d| d.operations[0].parameters[0].name = "".into());
    let result = app.apply_classifier_draft(id, &draft);
    assert!(result.is_err());
    assert!(result.err().unwrap().contains("empty name"));
}

#[test]
fn classifier_draft_parameter_fields_propagate() {
    let (mut app, id) = make_app_with_classifier_features();
    let draft = edit_draft(&mut app, id, |d| {
        let p = &mut d.operations[0].parameters[0];
        p.type_text = "u64".into();
        p.direction = ParameterDirection::Out;
        p.default_value = "42".into();
    });
    app.apply_classifier_draft(id, &draft).unwrap();
    let cd = features(&app, id);
    let param = &cd.operations[0].parameters[0];
    assert_eq!(param.name, "format");
    assert_eq!(param.type_ref, TypeReference::primitive("u64"));
    assert_eq!(param.direction, ParameterDirection::Out);
    assert_eq!(param.default_value, Some("42".to_string()));
}

#[test]
fn classifier_draft_undo_restores_parameters() {
    let (mut app, id) = make_app_with_classifier_features();
    let orig_ops = features(&app, id).operations.clone();
    let draft =
        edit_draft(&mut app, id, |d| d.operations[0].parameters[0].default_value = "false".into());
    app.apply_classifier_draft(id, &draft).unwrap();
    app.undo_action().unwrap();
    let restored_ops = features(&app, id).operations.clone();
    assert_eq!(restored_ops, orig_ops);
}

#[test]
fn classifier_draft_noop_apply_preserves_draft() {
    let (mut app, id) = make_app_with_classifier_features();
    assert!(app.classifier_draft().is_some());
    let cd = features(&app, id);
    let matching_draft = ClassifierDraft::of(app.model(), &cd);
    let result = app.apply_classifier_draft(id, &matching_draft).unwrap();
    assert!(!result, "No-op Apply must return false");
    assert!(app.classifier_draft().is_some(), "classifier_draft must survive no-op Apply");
    assert_eq!(app.selected_element_id(), Some(id), "Selection must survive no-op Apply");
    let draft = current_draft(&app);
    assert_eq!(draft.attributes.len(), 1);
    assert_eq!(draft.attributes[0].name, "name");
    assert_eq!(draft.operations.len(), 1);
    assert_eq!(draft.operations[0].name, "getName");
}

#[test]
fn draft_type_text_resolution_rules() {
    let mut model = UmlModel::new();
    let target = Class::new("Widget");
    let target_id = target.base.id;
    model.insert(ModelElement::Class(target));
    let original = TypeReference::model(target_id);
    assert_eq!(resolve_draft_type(&model, "  ", &original), TypeReference::unspecified());
    assert_eq!(resolve_draft_type(&model, " Widget ", &original), original);
    assert_eq!(resolve_draft_type(&model, "Gadget", &original), TypeReference::primitive("Gadget"));
    let prim = TypeReference::primitive("int");
    assert_eq!(resolve_draft_type(&model, "int", &prim), prim);
    assert_eq!(resolve_draft_type(&model, "long", &prim), TypeReference::primitive("long"));
}

// ── Relationship drafts ─────────────────────────────────────

fn make_app_with_relationship() -> (EditorSession, UmlId, UmlId, UmlId) {
    let mut model = UmlModel::new();
    let source = Class::new("Source");
    let source_id = source.base.id;
    let target = Class::new("Target");
    let target_id = target.base.id;
    model.insert(ModelElement::Class(source));
    model.insert(ModelElement::Class(target));
    let mut relationship = Relationship::new_association(source_id, target_id);
    relationship.base.original_xmi_id = Some("legacy-rel".into());
    let relationship_id = relationship.base.id;
    model.insert(ModelElement::Relationship(relationship));
    let mut diagram = Diagram::new("Test", DiagramKind::Class);
    diagram.add_edge(
        EdgeId::new(),
        ViewEdge::new(relationship_id, source_id, target_id, LineRouting::Direct),
    );
    model.add_diagram(diagram);
    let mut app = EditorSession::new(model, false);
    app.set_active_diagram(Some(0));
    app.set_current_file_path(Some("/tmp/test-project.xmi"));
    (app, relationship_id, source_id, target_id)
}

#[test]
fn relationship_mcp_draft_applies_atomically_and_roundtrips_history() {
    let (mut app, relationship_id, _, _) = make_app_with_relationship();
    app.select_element(relationship_id).unwrap();
    assert_eq!(app.selected_element_id(), Some(relationship_id));
    let mut draft = app.relationship_draft().unwrap().1.clone();
    draft.name = "owns".into();
    draft.documentation = "updated".into();
    draft.source_role = "owner".into();
    draft.source_multiplicity = " ".into();
    draft.target_role = "item".into();
    draft.target_multiplicity = "0..*".into();
    app.set_relationship_draft(Some((relationship_id, draft)));
    assert_eq!(app.model().get(relationship_id).unwrap().name(), "");
    assert_eq!(app.apply_relationship_draft(relationship_id), Ok(true));
    assert!(app.history().can_undo());
    let ModelElement::Relationship(updated) = app.model().get(relationship_id).unwrap() else {
        unreachable!()
    };
    assert_eq!(updated.base.name, "owns");
    assert_eq!(updated.source_role_name, Some("owner".into()));
    assert_eq!(updated.source_multiplicity, None);
    assert_eq!(updated.target_multiplicity, Some("0..*".into()));
    assert_eq!(updated.base.original_xmi_id.as_deref(), Some("legacy-rel"));
    assert_eq!(app.apply_relationship_draft(relationship_id), Ok(false));
    let mut draft = app.relationship_draft().unwrap().1.clone();
    draft.name = "draft".into();
    app.set_relationship_draft(Some((relationship_id, draft)));
    app.refresh_property_buffers();
    assert_eq!(app.relationship_draft().unwrap().1.name, "owns");
    app.undo_action().unwrap();
    assert_eq!(app.model().get(relationship_id).unwrap().name(), "");
    app.redo_action().unwrap();
    assert_eq!(app.model().get(relationship_id).unwrap().name(), "owns");
    assert_eq!(app.relationship_draft().unwrap().1.name, "owns");
}

#[test]
fn relationship_noop_apply_and_kind_policy_are_safe() {
    let (mut app, relationship_id, _, _) = make_app_with_relationship();
    app.select_element(relationship_id).unwrap();
    let can_undo_before = app.history().can_undo();
    app.apply_relationship_draft(relationship_id).unwrap();
    assert_eq!(app.history().can_undo(), can_undo_before);
    app.set_relationship_draft(None);
    assert_eq!(
        app.apply_relationship_draft(relationship_id),
        Err("relationship draft is unavailable".to_string())
    );
    app.set_active_diagram(None);
    assert!(app.relationship_kind_allowed(AssociationType::Dependency));
}

#[test]
fn relationship_kind_policy_follows_the_active_diagram() {
    let mut model = UmlModel::new();
    model.add_diagram(Diagram::new("Cases", DiagramKind::UseCase));
    let mut app = EditorSession::new(model, false);
    app.set_active_diagram(Some(0));
    assert!(app.relationship_kind_allowed(AssociationType::Association));
    assert!(!app.relationship_kind_allowed(AssociationType::Realization));
    assert!(!app.relationship_kind_allowed(AssociationType::Composition));
    assert_eq!(app.allowed_relationship_kinds().len(), 6);
    assert_eq!(app.allowed_relationship_kinds()[0], AssociationType::Association);
}

#[test]
fn relationship_draft_refuses_stale_and_incompatible_edits() {
    let (mut app, relationship_id, source_id, _) = make_app_with_relationship();
    app.select_element(relationship_id).unwrap();
    let draft = app.relationship_draft().unwrap().1.clone();
    app.set_relationship_draft(Some((source_id, draft.clone())));
    assert_eq!(
        app.apply_relationship_draft(relationship_id),
        Err("relationship draft is stale or incompatible".to_string())
    );
    assert_eq!(
        app.apply_relationship_draft(source_id),
        Err("selected element is not a relationship".to_string())
    );
    let mut model = UmlModel::new();
    let a = Class::new("A");
    let a_id = a.base.id;
    let b = Class::new("B");
    let b_id = b.base.id;
    model.insert(ModelElement::Class(a));
    model.insert(ModelElement::Class(b));
    let rel = Relationship::new_association(a_id, b_id);
    let rel_id = rel.base.id;
    model.insert(ModelElement::Relationship(rel));
    model.add_diagram(Diagram::new("Cases", DiagramKind::UseCase));
    let mut app = EditorSession::new(model, false);
    app.set_active_diagram(Some(0));
    app.select_element(rel_id).unwrap();
    let mut draft = app.relationship_draft().unwrap().1.clone();
    draft.kind = AssociationType::Composition;
    app.set_relationship_draft(Some((rel_id, draft)));
    assert_eq!(
        app.apply_relationship_draft(rel_id),
        Err("relationship draft is stale or incompatible".to_string())
    );
}

#[test]
fn relationship_draft_reads_absent_texts_as_empty() {
    let rel = Relationship::new_association(UmlId::from_u128(1), UmlId::from_u128(2));
    let d = RelationshipDraft::of(&rel);
    assert_eq!(d.kind, AssociationType::Association);
    assert_eq!(d.source_role, "");
    assert_eq!(d.target_multiplicity, "");
    let mut d2 = d.clone();
    d2.target_multiplicity = " 1 ".into();
    let installed = d2.installed_on(&rel);
    assert_eq!(installed.target_multiplicity, Some("1".to_string()));
    assert_eq!(installed.base.id, rel.base.id);
}

#[test]
fn rename_updates_the_name_field_of_the_selected_element() {
    let (mut app, id) = make_app_with_classifier_features();
    assert_eq!(app.name_edit_buffer(), "Person");
    app.rename_element(id, " Human ").unwrap();
    assert_eq!(app.name_edit_buffer(), "Human");
    app.set_documentation_edit_buffer("notes");
    assert_eq!(app.documentation_edit_buffer(), "notes");
    app.clear_selection();
    assert_eq!(app.name_edit_buffer(), "");
    assert_eq!(app.documentation_edit_buffer(), "");
}
