//! Concrete commands for model mutations.
use crate::diagram::edge::{LineRouting, ViewEdge, ViewEdgeView};
use crate::diagram::entries::{has_key, inserted, key_index, keys_unique, lookup, removed};
use crate::diagram::geometry::{Point, Rect, Size};
use crate::diagram::node::ViewNode;
use crate::diagram::{Diagram, DiagramView};
use crate::elements::{
    ClassifierData, ClassifierDataView, ElementBaseView, ModelElement, ModelElementView,
    Relationship, RelationshipView, first_index_of, fresh_relationship, remove_first,
};
use crate::id::{DiagramId, EdgeId, UmlId};
use crate::repository::{
    package_add_result, model_valid, UmlModel, UmlModelView, added_to_package, diagram_index, lemma_diagram_index,
    removed_from_package,
};
use crate::text::owned;
use crate::types::{
    AssociationType, Visibility, association_type_name, object_type_name, visibility_keyword,
};
use crate::undo::{
    Command, CommandError, CommandErrorView, invalid, invalid_operation, not_found, outcome,
    succeeded,
};
use vstd::prelude::*;

verus! {

/// The value of an optional element.
pub open spec fn opt_elem(o: Option<ModelElement>) -> Option<ModelElementView> {
    match o {
        Some(e) => Some(e@),
        None => None,
    }
}

/// The model with one element's metadata replaced.
pub open spec fn with_element_base(m: UmlModelView, id: UmlId, b: ElementBaseView) -> UmlModelView {
    UmlModelView { elements: m.elements.insert(id, m.elements[id].with_base(b)), ..m }
}

/// The model with an element inserted (or replaced).
pub open spec fn with_element(m: UmlModelView, e: ModelElementView) -> UmlModelView {
    UmlModelView { elements: m.elements.insert(e.id(), e), ..m }
}

/// The model with an element removed.
pub open spec fn without_element(m: UmlModelView, id: UmlId) -> UmlModelView {
    UmlModelView { elements: m.elements.remove(id), ..m }
}

/// `"<prefix> <type> '<name>'"`.
pub open spec fn typed_name_text(prefix: Seq<char>, e: ModelElementView) -> Seq<char> {
    prefix + " "@ + object_type_name(e.object_type()) + " '"@ + e.name() + "'"@
}

/// Builds `"<prefix> <type> '<name>'"` for an element.
fn typed_name_description(prefix: &str, e: &ModelElement) -> (s: String)
    ensures
        s@ == typed_name_text(prefix@, e@),
{
    proof {
        reveal_strlit(" ");
        reveal_strlit(" '");
        reveal_strlit("'");
    }
    let mut s = owned(prefix);
    s.append(" ");
    s.append(e.object_type().as_str());
    s.append(" '");
    s.append(e.name());
    s.append("'");
    s
}

/// Replacing an element's metadata by metadata with the same id keeps the id.
pub proof fn lemma_with_base_id(e: ModelElementView, b: ElementBaseView)
    ensures
        e.with_base(b).id() == b.id,
        e.with_base(b).base() == b,
        e.with_base(e.base()) == e,
{
}

// ─── CreateElement ───────────────────────────────────────────────────

/// Command to create a new element in the model.
///
/// On execute: inserts the element. On undo: removes it and keeps it for a
/// later execute.
#[derive(Debug)]
pub struct CreateElement {
    element: Option<ModelElement>,
    element_id: UmlId,
    description: String,
}

impl CreateElement {
    /// The element held for the next execute, if any.
    pub closed spec fn held(self) -> Option<ModelElementView> {
        opt_elem(self.element)
    }

    /// The id of the element that the command creates.
    pub closed spec fn target(self) -> UmlId {
        self.element_id
    }

    /// Create a command that will insert the given element.
    pub fn new(element: ModelElement) -> (c: Self)
        ensures
            c.held() == Some(element@),
            c.target() == element@.id(),
            c.description_text() == typed_name_text("Create"@, element@),
    {
        let id = element.id();
        let desc = typed_name_description("Create", &element);
        CreateElement { element: Some(element), element_id: id, description: desc }
    }
}

impl Command for CreateElement {
    closed spec fn inv(self) -> bool {
        self.element is Some ==> self.element->0@.id() == self.element_id
    }

    closed spec fn executes(
        self,
        after: Self,
        before: UmlModelView,
        after_model: UmlModelView,
        r: Result<(), CommandErrorView>,
    ) -> bool {
        &&& after.element_id == self.element_id
        &&& after.description == self.description
        &&& match self.element {
            Some(e) => {
                &&& after.element is None
                &&& after_model == with_element(before, e@)
                &&& r == succeeded()
            },
            None => {
                &&& after.element is None
                &&& after_model == before
                &&& r == invalid("CreateElement already executed"@)
            },
        }
    }

    closed spec fn undoes(
        self,
        after: Self,
        before: UmlModelView,
        after_model: UmlModelView,
        r: Result<(), CommandErrorView>,
    ) -> bool {
        &&& after.element_id == self.element_id
        &&& after.description == self.description
        &&& opt_elem(after.element) == (if before.elements.contains_key(self.element_id) {
            Some(before.elements[self.element_id])
        } else {
            None
        })
        &&& after_model == without_element(before, self.element_id)
        &&& r == succeeded()
    }

    closed spec fn description_text(self) -> Seq<char> {
        self.description@
    }

    fn execute(&mut self, model: &mut UmlModel) -> (r: Result<(), CommandError>) {
        match self.element.take() {
            Some(e) => {
                model.insert(e);
                Ok(())
            },
            None => Err(invalid_operation("CreateElement already executed")),
        }
    }

    fn undo(&mut self, model: &mut UmlModel) -> (r: Result<(), CommandError>) {
        self.element = model.remove(self.element_id);
        Ok(())
    }

    fn description(&self) -> (s: &str) {
        self.description.as_str()
    }
}

// ─── DeleteElement ───────────────────────────────────────────────────

/// Command to delete an element from the model.
///
/// On execute: removes the element and keeps it. On undo: re-inserts it
/// with its original id.
#[derive(Debug)]
pub struct DeleteElement {
    element: Option<ModelElement>,
    element_id: UmlId,
    description: String,
}

impl DeleteElement {
    /// The removed element held for undo, if any.
    pub closed spec fn held(self) -> Option<ModelElementView> {
        opt_elem(self.element)
    }

    /// The id of the element that the command deletes.
    pub closed spec fn target(self) -> UmlId {
        self.element_id
    }

    /// Create a command that will delete the element with the given id.
    /// Fails with `ElementNotFound(id)` when there is no such element.
    pub fn new(model: &UmlModel, id: UmlId) -> (r: Result<Self, CommandError>)
        requires
            model.wf(),
        ensures
            model@.elements.contains_key(id) <==> r is Ok,
            match r {
                Ok(c) => {
                    &&& c.held() is None
                    &&& c.target() == id
                    &&& c.description_text() == typed_name_text("Delete"@, model@.elements[id])
                },
                Err(e) => e@ == CommandErrorView::ElementNotFound(id),
            },
    {
        match model.get(id) {
            Some(elem) => {
                let desc = typed_name_description("Delete", elem);
                Ok(DeleteElement { element: None, element_id: id, description: desc })
            },
            None => Err(CommandError::ElementNotFound(id)),
        }
    }
}

impl Command for DeleteElement {
    closed spec fn inv(self) -> bool {
        self.element is Some ==> self.element->0@.id() == self.element_id
    }

    closed spec fn executes(
        self,
        after: Self,
        before: UmlModelView,
        after_model: UmlModelView,
        r: Result<(), CommandErrorView>,
    ) -> bool {
        &&& after.element_id == self.element_id
        &&& after.description == self.description
        &&& opt_elem(after.element) == (if before.elements.contains_key(self.element_id) {
            Some(before.elements[self.element_id])
        } else {
            None
        })
        &&& after_model == without_element(before, self.element_id)
        &&& r == succeeded()
    }

    closed spec fn undoes(
        self,
        after: Self,
        before: UmlModelView,
        after_model: UmlModelView,
        r: Result<(), CommandErrorView>,
    ) -> bool {
        &&& after.element_id == self.element_id
        &&& after.description == self.description
        &&& after.element is None
        &&& match self.element {
            Some(e) => after_model == with_element(before, e@) && r == succeeded(),
            None => after_model == before && r == invalid("DeleteElement already undone"@),
        }
    }

    closed spec fn description_text(self) -> Seq<char> {
        self.description@
    }

    fn execute(&mut self, model: &mut UmlModel) -> (r: Result<(), CommandError>) {
        self.element = model.remove(self.element_id);
        Ok(())
    }

    fn undo(&mut self, model: &mut UmlModel) -> (r: Result<(), CommandError>) {
        match self.element.take() {
            Some(e) => {
                model.insert(e);
                Ok(())
            },
            None => Err(invalid_operation("DeleteElement already undone")),
        }
    }

    fn description(&self) -> (s: &str) {
        self.description.as_str()
    }
}

// ─── Metadata edits: name, visibility, flags, documentation ───────────

/// What a metadata edit does: with the element present, its metadata becomes
/// `b(current metadata)` and the outcome is success; otherwise nothing
/// changes and the outcome is `ElementNotFound`.
pub open spec fn edits_base(
    id: UmlId,
    before: UmlModelView,
    after_model: UmlModelView,
    r: Result<(), CommandErrorView>,
    new_base: ElementBaseView,
) -> bool {
    if before.elements.contains_key(id) {
        after_model == with_element_base(before, id, new_base) && r == succeeded()
    } else {
        after_model == before && r == not_found(id)
    }
}

/// Command to rename an element. Re-applying sets the new name again;
/// undoing sets the old name back.
#[derive(Debug)]
pub struct RenameElement {
    element_id: UmlId,
    old_name: String,
    new_name: String,
    description: String,
}

/// `"Rename '<old>' → '<new>'"`.
pub open spec fn rename_text(old_name: Seq<char>, new_name: Seq<char>) -> Seq<char> {
    "Rename '"@ + old_name + "' → '"@ + new_name + "'"@
}

impl RenameElement {
    /// The element renamed by the command.
    pub closed spec fn target(self) -> UmlId {
        self.element_id
    }

    /// The name the element had when the command was created.
    pub closed spec fn previous(self) -> Seq<char> {
        self.old_name@
    }

    /// The name the command gives the element.
    pub closed spec fn replacement(self) -> Seq<char> {
        self.new_name@
    }

    /// Create a command that will rename the element. Fails with
    /// `ElementNotFound(id)` when there is no such element.
    pub fn new(model: &UmlModel, id: UmlId, new_name: String) -> (r: Result<Self, CommandError>)
        requires
            model.wf(),
        ensures
            model@.elements.contains_key(id) <==> r is Ok,
            match r {
                Ok(c) => {
                    &&& c.inv()
                    &&& forall|after: Self, m1: UmlModelView, out: Result<(), CommandErrorView>|
                        #[trigger] c.executes(after, model@, m1, out) ==> out == succeeded()
                    &&& c.target() == id
                    &&& c.previous() == model@.elements[id].name()
                    &&& c.replacement() == new_name@
                    &&& c.description_text() == rename_text(model@.elements[id].name(), new_name@)
                },
                Err(e) => e@ == CommandErrorView::ElementNotFound(id),
            },
    {
        proof {
            reveal_strlit("Rename '");
            reveal_strlit("' → '");
            reveal_strlit("'");
        }
        match model.get(id) {
            Some(elem) => {
                let old_name = owned(elem.name());
                let mut desc = owned("Rename '");
                desc.append(old_name.as_str());
                desc.append("' → '");
                desc.append(new_name.as_str());
                desc.append("'");
                Ok(RenameElement { element_id: id, old_name, new_name, description: desc })
            },
            None => Err(CommandError::ElementNotFound(id)),
        }
    }
}

impl Command for RenameElement {
    closed spec fn inv(self) -> bool {
        true
    }

    closed spec fn executes(
        self,
        after: Self,
        before: UmlModelView,
        after_model: UmlModelView,
        r: Result<(), CommandErrorView>,
    ) -> bool {
        &&& after == self
        &&& edits_base(
            self.element_id,
            before,
            after_model,
            r,
            ElementBaseView { name: self.new_name@, ..before.elements[self.element_id].base() },
        )
    }

    closed spec fn undoes(
        self,
        after: Self,
        before: UmlModelView,
        after_model: UmlModelView,
        r: Result<(), CommandErrorView>,
    ) -> bool {
        &&& after == self
        &&& edits_base(
            self.element_id,
            before,
            after_model,
            r,
            ElementBaseView { name: self.old_name@, ..before.elements[self.element_id].base() },
        )
    }

    closed spec fn description_text(self) -> Seq<char> {
        self.description@
    }

    fn execute(&mut self, model: &mut UmlModel) -> (r: Result<(), CommandError>) {
        match model.get_mut(self.element_id) {
            Some(elem) => {
                proof {
                    lemma_with_base_id(elem@, ElementBaseView { name: self.new_name@, ..elem@.base() });
                }
                elem.set_name(self.new_name.clone());
                Ok(())
            },
            None => Err(CommandError::ElementNotFound(self.element_id)),
        }
    }

    fn undo(&mut self, model: &mut UmlModel) -> (r: Result<(), CommandError>) {
        match model.get_mut(self.element_id) {
            Some(elem) => {
                proof {
                    lemma_with_base_id(elem@, ElementBaseView { name: self.old_name@, ..elem@.base() });
                }
                elem.set_name(self.old_name.clone());
                Ok(())
            },
            None => Err(CommandError::ElementNotFound(self.element_id)),
        }
    }

    fn description(&self) -> (s: &str) {
        self.description.as_str()
    }
}

/// Command to change an element's visibility level.
#[derive(Debug)]
pub struct ChangeVisibility {
    element_id: UmlId,
    old_visibility: Visibility,
    new_visibility: Visibility,
    description: String,
}

/// `"Change visibility of '<name>': <old> → <new>"`.
pub open spec fn visibility_text(name: Seq<char>, old_v: Visibility, new_v: Visibility) -> Seq<char> {
    "Change visibility of '"@ + name + "': "@ + visibility_keyword(old_v) + " → "@
        + visibility_keyword(new_v)
}

impl ChangeVisibility {
    /// The element changed by the command.
    pub closed spec fn target(self) -> UmlId {
        self.element_id
    }

    /// The visibility the element had when the command was created.
    pub closed spec fn previous(self) -> Visibility {
        self.old_visibility
    }

    /// The visibility the command gives the element.
    pub closed spec fn replacement(self) -> Visibility {
        self.new_visibility
    }

    /// Create a command that will change the visibility of the element.
    /// Fails with `ElementNotFound(id)` when there is no such element.
    pub fn new(model: &UmlModel, id: UmlId, visibility: Visibility) -> (r: Result<
        Self,
        CommandError,
    >)
        requires
            model.wf(),
        ensures
            model@.elements.contains_key(id) <==> r is Ok,
            match r {
                Ok(c) => {
                    &&& c.inv()
                    &&& forall|after: Self, m1: UmlModelView, out: Result<(), CommandErrorView>|
                        #[trigger] c.executes(after, model@, m1, out) ==> out == succeeded()
                    &&& c.target() == id
                    &&& c.previous() == model@.elements[id].base().visibility
                    &&& c.replacement() == visibility
                    &&& c.description_text() == visibility_text(
                        model@.elements[id].name(),
                        model@.elements[id].base().visibility,
                        visibility,
                    )
                },
                Err(e) => e@ == CommandErrorView::ElementNotFound(id),
            },
    {
        proof {
            reveal_strlit("Change visibility of '");
            reveal_strlit("': ");
            reveal_strlit(" → ");
        }
        match model.get(id) {
            Some(elem) => {
                let old_visibility = elem.base().visibility;
                let mut desc = owned("Change visibility of '");
                desc.append(elem.name());
                desc.append("': ");
                desc.append(old_visibility.as_str());
                desc.append(" → ");
                desc.append(visibility.as_str());
                Ok(
                    ChangeVisibility {
                        element_id: id,
                        old_visibility,
                        new_visibility: visibility,
                        description: desc,
                    },
                )
            },
            None => Err(CommandError::ElementNotFound(id)),
        }
    }
}

impl Command for ChangeVisibility {
    closed spec fn inv(self) -> bool {
        true
    }

    closed spec fn executes(
        self,
        after: Self,
        before: UmlModelView,
        after_model: UmlModelView,
        r: Result<(), CommandErrorView>,
    ) -> bool {
        &&& after == self
        &&& edits_base(
            self.element_id,
            before,
            after_model,
            r,
            ElementBaseView { visibility: self.new_visibility, ..before.elements[self.element_id].base() },
        )
    }

    closed spec fn undoes(
        self,
        after: Self,
        before: UmlModelView,
        after_model: UmlModelView,
        r: Result<(), CommandErrorView>,
    ) -> bool {
        &&& after == self
        &&& edits_base(
            self.element_id,
            before,
            after_model,
            r,
            ElementBaseView { visibility: self.old_visibility, ..before.elements[self.element_id].base() },
        )
    }

    closed spec fn description_text(self) -> Seq<char> {
        self.description@
    }

    fn execute(&mut self, model: &mut UmlModel) -> (r: Result<(), CommandError>) {
        match model.get_mut(self.element_id) {
            Some(elem) => {
                let b = elem.base_mut();
                b.visibility = self.new_visibility;
                Ok(())
            },
            None => Err(CommandError::ElementNotFound(self.element_id)),
        }
    }

    fn undo(&mut self, model: &mut UmlModel) -> (r: Result<(), CommandError>) {
        match model.get_mut(self.element_id) {
            Some(elem) => {
                let b = elem.base_mut();
                b.visibility = self.old_visibility;
                Ok(())
            },
            None => Err(CommandError::ElementNotFound(self.element_id)),
        }
    }

    fn description(&self) -> (s: &str) {
        self.description.as_str()
    }
}

/// Command to set the abstract and static flags of an element together.
#[derive(Debug)]
pub struct ChangeElementFlags {
    element_id: UmlId,
    is_abstract: bool,
    is_static: bool,
    old_abstract: bool,
    old_static: bool,
    description: String,
}

/// The text of a flag value.
pub open spec fn bool_text(b: bool) -> Seq<char> {
    if b {
        "true"@
    } else {
        "false"@
    }
}

/// `"Set flags of '<name>': abstract=<a>, static=<s>"`.
pub open spec fn flags_text(name: Seq<char>, is_abstract: bool, is_static: bool) -> Seq<char> {
    "Set flags of '"@ + name + "': abstract="@ + bool_text(is_abstract) + ", static="@ + bool_text(
        is_static,
    )
}

fn bool_str(b: bool) -> (s: &'static str)
    ensures
        s@ == bool_text(b),
{
    proof {
        reveal_strlit("true");
        reveal_strlit("false");
    }
    if b {
        "true"
    } else {
        "false"
    }
}

impl ChangeElementFlags {
    /// The element changed by the command.
    pub closed spec fn target(self) -> UmlId {
        self.element_id
    }

    /// The (abstract, static) flags the element had when the command was created.
    pub closed spec fn previous(self) -> (bool, bool) {
        (self.old_abstract, self.old_static)
    }

    /// The flags `(abstract, static)` the command gives the element.
    pub closed spec fn replacement(self) -> (bool, bool) {
        (self.is_abstract, self.is_static)
    }

    /// Create a command that will set the abstract and static flags.
    /// Fails with `ElementNotFound(id)` when there is no such element.
    pub fn new(model: &UmlModel, id: UmlId, is_abstract: bool, is_static: bool) -> (r: Result<
        Self,
        CommandError,
    >)
        requires
            model.wf(),
        ensures
            model@.elements.contains_key(id) <==> r is Ok,
            match r {
                Ok(c) => {
                    &&& c.inv()
                    &&& forall|after: Self, m1: UmlModelView, out: Result<(), CommandErrorView>|
                        #[trigger] c.executes(after, model@, m1, out) ==> out == succeeded()
                    &&& c.target() == id
                    &&& c.previous() == (
                        model@.elements[id].base().is_abstract,
                        model@.elements[id].base().is_static,
                    )
                    &&& c.replacement() == (is_abstract, is_static)
                    &&& c.description_text() == flags_text(
                        model@.elements[id].name(),
                        is_abstract,
                        is_static,
                    )
                },
                Err(e) => e@ == CommandErrorView::ElementNotFound(id),
            },
    {
        proof {
            reveal_strlit("Set flags of '");
            reveal_strlit("': abstract=");
            reveal_strlit(", static=");
        }
        match model.get(id) {
            Some(elem) => {
                let mut desc = owned("Set flags of '");
                desc.append(elem.name());
                desc.append("': abstract=");
                desc.append(bool_str(is_abstract));
                desc.append(", static=");
                desc.append(bool_str(is_static));
                Ok(
                    ChangeElementFlags {
                        element_id: id,
                        is_abstract,
                        is_static,
                        old_abstract: elem.base().is_abstract,
                        old_static: elem.base().is_static,
                        description: desc,
                    },
                )
            },
            None => Err(CommandError::ElementNotFound(id)),
        }
    }
}

impl Command for ChangeElementFlags {
    closed spec fn inv(self) -> bool {
        true
    }

    closed spec fn executes(
        self,
        after: Self,
        before: UmlModelView,
        after_model: UmlModelView,
        r: Result<(), CommandErrorView>,
    ) -> bool {
        &&& after == self
        &&& edits_base(
            self.element_id,
            before,
            after_model,
            r,
            ElementBaseView {
                is_abstract: self.is_abstract,
                is_static: self.is_static,
                ..before.elements[self.element_id].base()
            },
        )
    }

    closed spec fn undoes(
        self,
        after: Self,
        before: UmlModelView,
        after_model: UmlModelView,
        r: Result<(), CommandErrorView>,
    ) -> bool {
        &&& after == self
        &&& edits_base(
            self.element_id,
            before,
            after_model,
            r,
            ElementBaseView {
                is_abstract: self.old_abstract,
                is_static: self.old_static,
                ..before.elements[self.element_id].base()
            },
        )
    }

    closed spec fn description_text(self) -> Seq<char> {
        self.description@
    }

    fn execute(&mut self, model: &mut UmlModel) -> (r: Result<(), CommandError>) {
        match model.get_mut(self.element_id) {
            Some(elem) => {
                let b = elem.base_mut();
                b.is_abstract = self.is_abstract;
                b.is_static = self.is_static;
                Ok(())
            },
            None => Err(CommandError::ElementNotFound(self.element_id)),
        }
    }

    fn undo(&mut self, model: &mut UmlModel) -> (r: Result<(), CommandError>) {
        match model.get_mut(self.element_id) {
            Some(elem) => {
                let b = elem.base_mut();
                b.is_abstract = self.old_abstract;
                b.is_static = self.old_static;
                Ok(())
            },
            None => Err(CommandError::ElementNotFound(self.element_id)),
        }
    }

    fn description(&self) -> (s: &str) {
        self.description.as_str()
    }
}

/// Command to change an element's documentation text.
#[derive(Debug)]
pub struct ChangeDocumentation {
    element_id: UmlId,
    old_documentation: String,
    new_documentation: String,
    description: String,
}

/// `"Change documentation of '<name>'"`.
pub open spec fn documentation_text(name: Seq<char>) -> Seq<char> {
    "Change documentation of '"@ + name + "'"@
}

impl ChangeDocumentation {
    /// The element changed by the command.
    pub closed spec fn target(self) -> UmlId {
        self.element_id
    }

    /// The documentation the element had when the command was created.
    pub closed spec fn previous(self) -> Seq<char> {
        self.old_documentation@
    }

    /// The documentation the command gives the element.
    pub closed spec fn replacement(self) -> Seq<char> {
        self.new_documentation@
    }

    /// Create a command that will change the documentation of the element.
    /// Fails with `ElementNotFound(id)` when there is no such element.
    pub fn new(model: &UmlModel, id: UmlId, documentation: String) -> (r: Result<
        Self,
        CommandError,
    >)
        requires
            model.wf(),
        ensures
            model@.elements.contains_key(id) <==> r is Ok,
            match r {
                Ok(c) => {
                    &&& c.inv()
                    &&& forall|after: Self, m1: UmlModelView, out: Result<(), CommandErrorView>|
                        #[trigger] c.executes(after, model@, m1, out) ==> out == succeeded()
                    &&& c.target() == id
                    &&& c.previous() == model@.elements[id].base().documentation
                    &&& c.replacement() == documentation@
                    &&& c.description_text() == documentation_text(model@.elements[id].name())
                },
                Err(e) => e@ == CommandErrorView::ElementNotFound(id),
            },
    {
        proof {
            reveal_strlit("Change documentation of '");
            reveal_strlit("'");
        }
        match model.get(id) {
            Some(elem) => {
                let mut desc = owned("Change documentation of '");
                desc.append(elem.name());
                desc.append("'");
                Ok(
                    ChangeDocumentation {
                        element_id: id,
                        old_documentation: elem.base().documentation.clone(),
                        new_documentation: documentation,
                        description: desc,
                    },
                )
            },
            None => Err(CommandError::ElementNotFound(id)),
        }
    }
}

impl Command for ChangeDocumentation {
    closed spec fn inv(self) -> bool {
        true
    }

    closed spec fn executes(
        self,
        after: Self,
        before: UmlModelView,
        after_model: UmlModelView,
        r: Result<(), CommandErrorView>,
    ) -> bool {
        &&& after == self
        &&& edits_base(
            self.element_id,
            before,
            after_model,
            r,
            ElementBaseView {
                documentation: self.new_documentation@,
                ..before.elements[self.element_id].base()
            },
        )
    }

    closed spec fn undoes(
        self,
        after: Self,
        before: UmlModelView,
        after_model: UmlModelView,
        r: Result<(), CommandErrorView>,
    ) -> bool {
        &&& after == self
        &&& edits_base(
            self.element_id,
            before,
            after_model,
            r,
            ElementBaseView {
                documentation: self.old_documentation@,
                ..before.elements[self.element_id].base()
            },
        )
    }

    closed spec fn description_text(self) -> Seq<char> {
        self.description@
    }

    fn execute(&mut self, model: &mut UmlModel) -> (r: Result<(), CommandError>) {
        match model.get_mut(self.element_id) {
            Some(elem) => {
                let b = elem.base_mut();
                b.documentation = self.new_documentation.clone();
                Ok(())
            },
            None => Err(CommandError::ElementNotFound(self.element_id)),
        }
    }

    fn undo(&mut self, model: &mut UmlModel) -> (r: Result<(), CommandError>) {
        match model.get_mut(self.element_id) {
            Some(elem) => {
                let b = elem.base_mut();
                b.documentation = self.old_documentation.clone();
                Ok(())
            },
            None => Err(CommandError::ElementNotFound(self.element_id)),
        }
    }

    fn description(&self) -> (s: &str) {
        self.description.as_str()
    }
}


// ─── MoveElement ─────────────────────────────────────────────────────

/// Command to move an element between packages.
///
/// Records the element's first package when created. Execute removes the
/// element from that package and adds it to the destination; undo does the
/// reverse. `None` stands for the model root.
#[derive(Debug)]
pub struct MoveElement {
    element_id: UmlId,
    from_package: Option<UmlId>,
    to_package: Option<UmlId>,
    description: String,
}

/// The model after taking the element out of an optional package.
pub open spec fn taken_out(m: UmlModelView, package: Option<UmlId>, id: UmlId) -> UmlModelView {
    match package {
        Some(p) => removed_from_package(m, p, id),
        None => m,
    }
}

/// What putting the element into an optional package does: the model after
/// it and the outcome.
pub open spec fn put_in(
    m: UmlModelView,
    package: Option<UmlId>,
    id: UmlId,
    after_model: UmlModelView,
    r: Result<(), CommandErrorView>,
) -> bool {
    match package {
        Some(p) => match crate::repository::package_add_result(m, p, id) {
            Ok(()) => after_model == added_to_package(m, p, id) && r == succeeded(),
            Err(e) => after_model == m && r == Err::<(), CommandErrorView>(CommandErrorView::Model(e)),
        },
        None => after_model == m && r == succeeded(),
    }
}

/// The first package recorded for an element.
pub open spec fn first_parent(m: UmlModelView, id: UmlId) -> Option<UmlId> {
    if m.parents.contains_key(id) && m.parents[id].len() > 0 {
        Some(m.parents[id][0])
    } else {
        None
    }
}

/// The display name of a move destination: the package's name, or `root`.
pub open spec fn destination_name(m: UmlModelView, to: Option<UmlId>) -> Seq<char> {
    match to {
        Some(t) => if m.elements.contains_key(t) {
            m.elements[t].name()
        } else {
            "root"@
        },
        None => "root"@,
    }
}

/// `"Move '<name>' to '<destination>'"`.
pub open spec fn move_text(name: Seq<char>, dest: Seq<char>) -> Seq<char> {
    "Move '"@ + name + "' to '"@ + dest + "'"@
}

impl MoveElement {
    /// The element moved by the command.
    pub closed spec fn target(self) -> UmlId {
        self.element_id
    }

    /// The package the element is taken out of.
    pub closed spec fn source(self) -> Option<UmlId> {
        self.from_package
    }

    /// The package the element is put into.
    pub closed spec fn destination(self) -> Option<UmlId> {
        self.to_package
    }

    /// Create a command that will move the element to a new package (or to
    /// the root). Fails with `ElementNotFound(element_id)` when there is no
    /// such element.
    pub fn new(model: &UmlModel, element_id: UmlId, to_package: Option<UmlId>) -> (r: Result<
        Self,
        CommandError,
    >)
        requires
            model.wf(),
        ensures
            model@.elements.contains_key(element_id) <==> r is Ok,
            match r {
                Ok(c) => {
                    &&& c.target() == element_id
                    &&& c.source() == first_parent(model@, element_id)
                    &&& c.destination() == to_package
                    &&& c.description_text() == move_text(
                        model@.elements[element_id].name(),
                        destination_name(model@, to_package),
                    )
                },
                Err(e) => e@ == CommandErrorView::ElementNotFound(element_id),
            },
    {
        proof {
            reveal_strlit("Move '");
            reveal_strlit("' to '");
            reveal_strlit("'");
            reveal_strlit("root");
        }
        let elem = match model.get(element_id) {
            Some(e) => e,
            None => return Err(CommandError::ElementNotFound(element_id)),
        };
        let from_package = match model.parents_of(element_id) {
            Some(ps) => if ps.len() > 0 {
                Some(ps[0])
            } else {
                None
            },
            None => None,
        };
        let mut desc = owned("Move '");
        desc.append(elem.name());
        desc.append("' to '");
        match to_package {
            Some(t) => match model.get(t) {
                Some(p) => desc.append(p.name()),
                None => desc.append("root"),
            },
            None => desc.append("root"),
        }
        desc.append("'");
        Ok(MoveElement { element_id, from_package, to_package, description: desc })
    }
}

impl Command for MoveElement {
    closed spec fn inv(self) -> bool {
        true
    }

    closed spec fn executes(
        self,
        after: Self,
        before: UmlModelView,
        after_model: UmlModelView,
        r: Result<(), CommandErrorView>,
    ) -> bool {
        &&& after == self
        &&& put_in(
            taken_out(before, self.from_package, self.element_id),
            self.to_package,
            self.element_id,
            after_model,
            r,
        )
    }

    closed spec fn undoes(
        self,
        after: Self,
        before: UmlModelView,
        after_model: UmlModelView,
        r: Result<(), CommandErrorView>,
    ) -> bool {
        &&& after == self
        &&& put_in(
            taken_out(before, self.to_package, self.element_id),
            self.from_package,
            self.element_id,
            after_model,
            r,
        )
    }

    closed spec fn description_text(self) -> Seq<char> {
        self.description@
    }

    fn execute(&mut self, model: &mut UmlModel) -> (r: Result<(), CommandError>) {
        if let Some(from) = self.from_package {
            let _ = model.remove_from_package(from, self.element_id);
        }
        if let Some(to) = self.to_package {
            match model.add_to_package(to, self.element_id) {
                Ok(()) => {},
                Err(e) => return Err(CommandError::Model(e)),
            }
        }
        Ok(())
    }

    fn undo(&mut self, model: &mut UmlModel) -> (r: Result<(), CommandError>) {
        if let Some(to) = self.to_package {
            let _ = model.remove_from_package(to, self.element_id);
        }
        if let Some(from) = self.from_package {
            match model.add_to_package(from, self.element_id) {
                Ok(()) => {},
                Err(e) => return Err(CommandError::Model(e)),
            }
        }
        Ok(())
    }

    fn description(&self) -> (s: &str) {
        self.description.as_str()
    }
}

// ─── CreateDiagram ───────────────────────────────────────────────────

/// The model with a diagram inserted at a position.
pub open spec fn with_diagram_at(m: UmlModelView, i: int, d: DiagramView) -> UmlModelView {
    UmlModelView { diagrams: m.diagrams.insert(i, d), ..m }
}

/// The model with the diagram at a position removed.
pub open spec fn without_diagram_at(m: UmlModelView, i: int) -> UmlModelView {
    UmlModelView { diagrams: m.diagrams.remove(i), ..m }
}

/// The model with the diagram at a position replaced.
pub open spec fn with_diagram_replaced(m: UmlModelView, i: int, d: DiagramView) -> UmlModelView {
    UmlModelView { diagrams: m.diagrams.update(i, d), ..m }
}

/// Command to create a diagram at a fixed position in the model's list.
///
/// The whole diagram is kept as a snapshot: undo and redo restore its
/// metadata, nodes and edges.
#[derive(Debug)]
pub struct CreateDiagram {
    diagram: Diagram,
    position: usize,
    applied: bool,
    description: String,
}

/// `"Create diagram '<name>'"`.
pub open spec fn create_diagram_text(name: Seq<char>) -> Seq<char> {
    "Create diagram '"@ + name + "'"@
}

/// Why a diagram cannot be inserted at a position, if it cannot.
pub open spec fn diagram_insert_error(m: UmlModelView, d: DiagramView, position: int) -> Option<Seq<char>> {
    if position > m.diagrams.len() {
        Some("diagram insertion position is out of range"@)
    } else if diagram_index(m.diagrams, d.id) is Some {
        Some("diagram ID already exists"@)
    } else {
        None
    }
}

impl CreateDiagram {
    /// The diagram snapshot held by the command.
    pub closed spec fn snapshot(self) -> DiagramView {
        self.diagram@
    }

    /// The insertion position.
    pub closed spec fn position(self) -> int {
        self.position as int
    }

    /// Whether the diagram is currently inserted.
    pub closed spec fn applied(self) -> bool {
        self.applied
    }


    /// Create a command that appends `diagram` to the model's diagrams.
    /// Fails when a diagram with the same id already exists.
    pub fn new(model: &UmlModel, diagram: Diagram) -> (r: Result<Self, CommandError>)
        requires
            model.wf(),
            diagram.wf(),
        ensures
            match diagram_insert_error(model@, diagram@, model@.diagrams.len() as int) {
                Some(msg) => r is Err && r->Err_0@ == CommandErrorView::InvalidOperation(msg),
                None => {
                    &&& r is Ok
                    &&& r->Ok_0.inv()
                    &&& forall|after: Self, m1: UmlModelView, out: Result<(), CommandErrorView>|
                        #[trigger] r->Ok_0.executes(after, model@, m1, out) ==> out == succeeded()
                    &&& r->Ok_0.snapshot() == diagram@
                    &&& r->Ok_0.position() == model@.diagrams.len()
                    &&& !r->Ok_0.applied()
                    &&& r->Ok_0.description_text() == create_diagram_text(diagram@.name)
                },
            },
    {
        let n = model.diagrams().len();
        CreateDiagram::new_at(model, diagram, n)
    }

    /// Create a command that inserts `diagram` at `position`. Fails when the
    /// position is beyond the end of the list or a diagram with the same id
    /// already exists.
    pub fn new_at(model: &UmlModel, diagram: Diagram, position: usize) -> (r: Result<
        Self,
        CommandError,
    >)
        requires
            model.wf(),
            diagram.wf(),
        ensures
            match diagram_insert_error(model@, diagram@, position as int) {
                Some(msg) => r is Err && r->Err_0@ == CommandErrorView::InvalidOperation(msg),
                None => {
                    &&& r is Ok
                    &&& r->Ok_0.inv()
                    &&& forall|after: Self, m1: UmlModelView, out: Result<(), CommandErrorView>|
                        #[trigger] r->Ok_0.executes(after, model@, m1, out) ==> out == succeeded()
                    &&& r->Ok_0.snapshot() == diagram@
                    &&& r->Ok_0.position() == position
                    &&& !r->Ok_0.applied()
                    &&& r->Ok_0.description_text() == create_diagram_text(diagram@.name)
                },
            },
    {
        proof {
            reveal_strlit("Create diagram '");
            reveal_strlit("'");
        }
        if position > model.diagrams().len() {
            return Err(invalid_operation("diagram insertion position is out of range"));
        }
        if model.get_diagram(diagram.id).is_some() {
            return Err(invalid_operation("diagram ID already exists"));
        }
        let mut desc = owned("Create diagram '");
        desc.append(diagram.name.as_str());
        desc.append("'");
        Ok(CreateDiagram { diagram, position, applied: false, description: desc })
    }
}

impl Command for CreateDiagram {
    closed spec fn inv(self) -> bool {
        self.diagram.wf()
    }

    closed spec fn executes(
        self,
        after: Self,
        before: UmlModelView,
        after_model: UmlModelView,
        r: Result<(), CommandErrorView>,
    ) -> bool {
        &&& after.position == self.position
        &&& after.description == self.description
        &&& after.diagram@ == self.diagram@
        &&& if self.applied {
            after.applied && after_model == before && r == invalid("CreateDiagram already executed"@)
        } else {
            match diagram_insert_error(before, self.diagram@, self.position as int) {
                Some(msg) => !after.applied && after_model == before && r == invalid(msg),
                None => {
                    &&& after.applied
                    &&& after_model == with_diagram_at(before, self.position as int, self.diagram@)
                    &&& r == succeeded()
                },
            }
        }
    }

    closed spec fn undoes(
        self,
        after: Self,
        before: UmlModelView,
        after_model: UmlModelView,
        r: Result<(), CommandErrorView>,
    ) -> bool {
        &&& after.position == self.position
        &&& after.description == self.description
        &&& if !self.applied {
            after == self && after_model == before && r == invalid("CreateDiagram has not been executed"@)
        } else if self.position >= before.diagrams.len() {
            after == self && after_model == before && r == invalid("created diagram is missing"@)
        } else if before.diagrams[self.position as int].id != self.diagram@.id {
            after == self && after_model == before && r == invalid(
                "created diagram is not at its deterministic position"@,
            )
        } else {
            &&& !after.applied
            &&& after.diagram@ == before.diagrams[self.position as int]
            &&& after_model == without_diagram_at(before, self.position as int)
            &&& r == succeeded()
        }
    }

    closed spec fn description_text(self) -> Seq<char> {
        self.description@
    }

    fn execute(&mut self, model: &mut UmlModel) -> (r: Result<(), CommandError>) {
        if self.applied {
            return Err(invalid_operation("CreateDiagram already executed"));
        }
        if self.position > model.diagrams().len() {
            return Err(invalid_operation("diagram insertion position is out of range"));
        }
        if model.get_diagram(self.diagram.id).is_some() {
            return Err(invalid_operation("diagram ID already exists"));
        }
        let copy = self.diagram.duplicate();
        model.insert_diagram_at(self.position, copy);
        self.applied = true;
        Ok(())
    }

    fn undo(&mut self, model: &mut UmlModel) -> (r: Result<(), CommandError>) {
        if !self.applied {
            return Err(invalid_operation("CreateDiagram has not been executed"));
        }
        let n = model.diagrams().len();
        if self.position >= n {
            return Err(invalid_operation("created diagram is missing"));
        }
        if model.diagrams()[self.position].id != self.diagram.id {
            return Err(invalid_operation("created diagram is not at its deterministic position"));
        }
        let removed = model.remove_diagram_at(self.position);
        self.diagram = removed;
        self.applied = false;
        Ok(())
    }

    fn description(&self) -> (s: &str) {
        self.description.as_str()
    }
}


// ─── UpdateRelationship ──────────────────────────────────────────────

/// What replacing a relationship does: the element must exist, be a
/// relationship and still equal `expected`; then it becomes `replacement`.
pub open spec fn replaces_relationship(
    id: UmlId,
    expected: RelationshipView,
    replacement: RelationshipView,
    before: UmlModelView,
    after_model: UmlModelView,
    r: Result<(), CommandErrorView>,
) -> bool {
    if !before.elements.contains_key(id) {
        after_model == before && r == not_found(id)
    } else if !(before.elements[id] is Relationship) {
        after_model == before && r == invalid("element is not a relationship"@)
    } else if before.elements[id]->Relationship_0 != expected {
        after_model == before && r == invalid("relationship was modified externally"@)
    } else {
        after_model == with_element(before, ModelElementView::Relationship(replacement))
            && r == succeeded()
    }
}

/// Replaces the relationship `id` by `replacement` if it still equals `expected`.
fn replace_relationship(
    model: &mut UmlModel,
    id: UmlId,
    expected: &Relationship,
    replacement: &Relationship,
) -> (r: Result<(), CommandError>)
    requires
        old(model).wf(),
        expected@.base.id == id,
        replacement@.base.id == id,
    ensures
        final(model).wf(),
        replaces_relationship(id, expected@, replacement@, old(model)@, final(model)@, outcome(r)),
{
    let ghost m0 = model@;
    proof {
        assert(m0.elements.contains_key(id) ==> m0.elements.insert(id, m0.elements[id]) =~= m0.elements);
    }
    match model.get_mut(id) {
        Some(elem) => {
            let ghost e0 = elem@;
            let is_rel = match elem {
                ModelElement::Relationship(_) => true,
                _ => false,
            };
            if !is_rel {
                return Err(invalid_operation("element is not a relationship"));
            }
            let same = match elem {
                ModelElement::Relationship(current) => current.eq_view(expected),
                _ => false,
            };
            if !same {
                return Err(invalid_operation("relationship was modified externally"));
            }
            let c = replacement.clone();
            *elem = ModelElement::Relationship(c);
            proof {
                assert(elem@ == ModelElementView::Relationship(replacement@));
                assert(elem@.id() == id);
            }
            Ok(())
        },
        None => Err(CommandError::ElementNotFound(id)),
    }
}

/// Command to replace the editable fields of an existing relationship.
///
/// The relationship's id and endpoints cannot change; the replacement's
/// original XMI id is replaced by the one captured from the model.
#[derive(Debug)]
pub struct UpdateRelationship {
    relationship_id: UmlId,
    old: Relationship,
    new: Relationship,
    applied: bool,
    description: String,
}

/// `"Update relationship '<name>'"`.
pub open spec fn update_relationship_text(name: Seq<char>) -> Seq<char> {
    "Update relationship '"@ + name + "'"@
}

/// The relationship that an update installs: the replacement with the XMI
/// id of the current relationship.
pub open spec fn installed_relationship(current: RelationshipView, replacement: RelationshipView) -> RelationshipView {
    RelationshipView {
        base: ElementBaseView { original_xmi_id: current.base.original_xmi_id, ..replacement.base },
        ..replacement
    }
}

impl UpdateRelationship {
    /// The relationship updated by the command.
    pub closed spec fn target(self) -> UmlId {
        self.relationship_id
    }

    /// The relationship value before the update.
    pub closed spec fn before_value(self) -> RelationshipView {
        self.old@
    }

    /// The relationship value after the update.
    pub closed spec fn after_value(self) -> RelationshipView {
        self.new@
    }

    /// Whether the update is currently applied.
    pub closed spec fn applied(self) -> bool {
        self.applied
    }

    /// Create a command that replaces the relationship's editable fields.
    ///
    /// Fails with `ElementNotFound` when the element is absent, and with an
    /// invalid operation when it is not a relationship or the replacement
    /// changes its id or endpoints.
    pub fn new(model: &UmlModel, relationship_id: UmlId, replacement: Relationship) -> (r: Result<
        Self,
        CommandError,
    >)
        requires
            model.wf(),
        ensures
            !model@.elements.contains_key(relationship_id) ==> r is Err && r->Err_0@
                == CommandErrorView::ElementNotFound(relationship_id),
            model@.elements.contains_key(relationship_id) && !(model@.elements[relationship_id] is Relationship)
                ==> r is Err && r->Err_0@ == CommandErrorView::InvalidOperation(
                "element is not a relationship"@,
            ),
            model@.elements.contains_key(relationship_id) && model@.elements[relationship_id] is Relationship
                ==> {
                let current = model@.elements[relationship_id]->Relationship_0;
                if replacement@.base.id != current.base.id || replacement@.source_id != current.source_id
                    || replacement@.target_id != current.target_id {
                    r is Err && r->Err_0@ == CommandErrorView::InvalidOperation(
                        "relationship ID or endpoints cannot be changed"@,
                    )
                } else {
                    &&& r is Ok
                    &&& r->Ok_0.inv()
                    &&& forall|after: Self, m1: UmlModelView, out: Result<(), CommandErrorView>|
                        #[trigger] r->Ok_0.executes(after, model@, m1, out) ==> out == succeeded()
                    &&& r->Ok_0.target() == relationship_id
                    &&& r->Ok_0.before_value() == current
                    &&& r->Ok_0.after_value() == installed_relationship(current, replacement@)
                    &&& !r->Ok_0.applied()
                    &&& r->Ok_0.description_text() == update_relationship_text(current.base.name)
                }
            },
    {
        proof {
            reveal_strlit("Update relationship '");
            reveal_strlit("'");
        }
        let current = match model.get(relationship_id) {
            Some(c) => c,
            None => return Err(CommandError::ElementNotFound(relationship_id)),
        };
        let old = match current {
            ModelElement::Relationship(r) => r,
            _ => return Err(invalid_operation("element is not a relationship")),
        };
        if replacement.base.id != old.base.id || replacement.source_id != old.source_id
            || replacement.target_id != old.target_id {
            return Err(invalid_operation("relationship ID or endpoints cannot be changed"));
        }
        let mut new = replacement;
        new.base.original_xmi_id = crate::text::clone_opt_string(&old.base.original_xmi_id);
        let mut desc = owned("Update relationship '");
        desc.append(old.base.name.as_str());
        desc.append("'");
        Ok(
            UpdateRelationship {
                relationship_id,
                old: old.clone(),
                new,
                applied: false,
                description: desc,
            },
        )
    }
}

impl Command for UpdateRelationship {
    closed spec fn inv(self) -> bool {
        self.old@.base.id == self.relationship_id && self.new@.base.id == self.relationship_id
    }

    closed spec fn executes(
        self,
        after: Self,
        before: UmlModelView,
        after_model: UmlModelView,
        r: Result<(), CommandErrorView>,
    ) -> bool {
        if self.applied {
            after == self && after_model == before && r == invalid("UpdateRelationship already executed"@)
        } else {
            &&& replaces_relationship(self.relationship_id, self.old@, self.new@, before, after_model, r)
            &&& after == (UpdateRelationship { applied: r is Ok, ..self })
        }
    }

    closed spec fn undoes(
        self,
        after: Self,
        before: UmlModelView,
        after_model: UmlModelView,
        r: Result<(), CommandErrorView>,
    ) -> bool {
        if !self.applied {
            after == self && after_model == before && r == invalid(
                "UpdateRelationship has not been executed"@,
            )
        } else {
            &&& replaces_relationship(self.relationship_id, self.new@, self.old@, before, after_model, r)
            &&& after == (UpdateRelationship { applied: !(r is Ok), ..self })
        }
    }

    closed spec fn description_text(self) -> Seq<char> {
        self.description@
    }

    fn execute(&mut self, model: &mut UmlModel) -> (r: Result<(), CommandError>) {
        if self.applied {
            return Err(invalid_operation("UpdateRelationship already executed"));
        }
        replace_relationship(model, self.relationship_id, &self.old, &self.new)?;
        self.applied = true;
        Ok(())
    }

    fn undo(&mut self, model: &mut UmlModel) -> (r: Result<(), CommandError>) {
        if !self.applied {
            return Err(invalid_operation("UpdateRelationship has not been executed"));
        }
        replace_relationship(model, self.relationship_id, &self.new, &self.old)?;
        self.applied = false;
        Ok(())
    }

    fn description(&self) -> (s: &str) {
        self.description.as_str()
    }
}

// ─── UpdateClassifierFeatures ────────────────────────────────────────

/// What replacing classifier features does: the element must exist, be a
/// classifier and its classifier data must still equal `expected`; then the
/// data becomes `replacement` and nothing else of the element changes.
pub open spec fn replaces_features(
    id: UmlId,
    expected: ClassifierDataView,
    replacement: ClassifierDataView,
    before: UmlModelView,
    after_model: UmlModelView,
    r: Result<(), CommandErrorView>,
) -> bool {
    if !before.elements.contains_key(id) {
        after_model == before && r == not_found(id)
    } else if before.elements[id].classifier() is None {
        after_model == before && r == invalid("element is not a classifier"@)
    } else if before.elements[id].classifier() != Some(expected) {
        after_model == before && r == invalid("classifier features were modified externally"@)
    } else {
        after_model == with_element(before, before.elements[id].with_classifier(replacement))
            && r == succeeded()
    }
}

/// Replacing classifier data keeps an element's metadata.
pub proof fn lemma_with_classifier_base(e: ModelElementView, c: ClassifierDataView)
    ensures
        e.with_classifier(c).base() == e.base(),
{
}

/// Replaces the classifier data of `id` by `replacement` if it still equals `expected`.
fn replace_classifier_features(
    model: &mut UmlModel,
    id: UmlId,
    expected: &ClassifierData,
    replacement: &ClassifierData,
) -> (r: Result<(), CommandError>)
    requires
        old(model).wf(),
    ensures
        final(model).wf(),
        replaces_features(id, expected@, replacement@, old(model)@, final(model)@, outcome(r)),
{
    let ghost m0 = model@;
    proof {
        assert(m0.elements.contains_key(id) ==> m0.elements.insert(id, m0.elements[id]) =~= m0.elements);
    }
    match model.get_mut(id) {
        Some(elem) => {
            let ghost e0 = elem@;
            proof {
                lemma_with_classifier_base(e0, replacement@);
            }
            let same = match elem.classifier_data() {
                Some(current) => current.eq_view(expected),
                None => {
                    return Err(invalid_operation("element is not a classifier"));
                },
            };
            if !same {
                return Err(invalid_operation("classifier features were modified externally"));
            }
            let c = replacement.clone();
            match elem.classifier_data_mut() {
                Some(current) => {
                    *current = c;
                },
                None => {},
            }
            proof {
                assert(elem@ == e0.with_classifier(replacement@));
                assert(elem@.id() == id);
            }
            Ok(())
        },
        None => Err(CommandError::ElementNotFound(id)),
    }
}

/// Command to replace the attributes and operations of a classifier.
///
/// Identity, metadata and templates are preserved. Execute and undo check
/// that the stored classifier data still equals the expected snapshot.
#[derive(Debug)]
pub struct UpdateClassifierFeatures {
    element_id: UmlId,
    old: ClassifierData,
    new: ClassifierData,
    applied: bool,
    description: String,
}

/// `"Update classifier '<name>'"`.
pub open spec fn update_classifier_text(name: Seq<char>) -> Seq<char> {
    "Update classifier '"@ + name + "'"@
}

impl UpdateClassifierFeatures {
    /// The classifier updated by the command.
    pub closed spec fn target(self) -> UmlId {
        self.element_id
    }

    /// The classifier data before the update.
    pub closed spec fn before_value(self) -> ClassifierDataView {
        self.old@
    }

    /// The classifier data after the update.
    pub closed spec fn after_value(self) -> ClassifierDataView {
        self.new@
    }

    /// Whether the update is currently applied.
    pub closed spec fn applied(self) -> bool {
        self.applied
    }

    /// Create a command that replaces a classifier's attributes and
    /// operations. Fails with `ElementNotFound` when the element is absent,
    /// and with an invalid operation when it is not a classifier or the
    /// replacement's templates differ from the current ones.
    pub fn new(model: &UmlModel, classifier_id: UmlId, replacement: ClassifierData) -> (r: Result<
        Self,
        CommandError,
    >)
        requires
            model.wf(),
        ensures
            !model@.elements.contains_key(classifier_id) ==> r is Err && r->Err_0@
                == CommandErrorView::ElementNotFound(classifier_id),
            model@.elements.contains_key(classifier_id) && model@.elements[classifier_id].classifier() is None
                ==> r is Err && r->Err_0@ == CommandErrorView::InvalidOperation(
                "element is not a classifier"@,
            ),
            model@.elements.contains_key(classifier_id) && model@.elements[classifier_id].classifier() is Some
                ==> {
                let current = model@.elements[classifier_id].classifier()->0;
                if replacement@.templates != current.templates {
                    r is Err && r->Err_0@ == CommandErrorView::InvalidOperation(
                        "classifier templates cannot be changed through this command"@,
                    )
                } else {
                    &&& r is Ok
                    &&& r->Ok_0.inv()
                    &&& forall|after: Self, m1: UmlModelView, out: Result<(), CommandErrorView>|
                        #[trigger] r->Ok_0.executes(after, model@, m1, out) ==> out == succeeded()
                    &&& r->Ok_0.target() == classifier_id
                    &&& r->Ok_0.before_value() == current
                    &&& r->Ok_0.after_value() == replacement@
                    &&& !r->Ok_0.applied()
                    &&& r->Ok_0.description_text() == update_classifier_text(
                        model@.elements[classifier_id].name(),
                    )
                }
            },
    {
        proof {
            reveal_strlit("Update classifier '");
            reveal_strlit("'");
        }
        let current = match model.get(classifier_id) {
            Some(c) => c,
            None => return Err(CommandError::ElementNotFound(classifier_id)),
        };
        let old = match current.classifier_data() {
            Some(d) => d,
            None => return Err(invalid_operation("element is not a classifier")),
        };
        if !replacement.templates_eq(old) {
            return Err(invalid_operation("classifier templates cannot be changed through this command"));
        }
        let mut desc = owned("Update classifier '");
        desc.append(current.name());
        desc.append("'");
        Ok(
            UpdateClassifierFeatures {
                element_id: classifier_id,
                old: old.clone(),
                new: replacement,
                applied: false,
                description: desc,
            },
        )
    }
}

impl Command for UpdateClassifierFeatures {
    closed spec fn inv(self) -> bool {
        true
    }

    closed spec fn executes(
        self,
        after: Self,
        before: UmlModelView,
        after_model: UmlModelView,
        r: Result<(), CommandErrorView>,
    ) -> bool {
        if self.applied {
            after == self && after_model == before && r == invalid(
                "UpdateClassifierFeatures already executed"@,
            )
        } else {
            &&& replaces_features(self.element_id, self.old@, self.new@, before, after_model, r)
            &&& after == (UpdateClassifierFeatures { applied: r is Ok, ..self })
        }
    }

    closed spec fn undoes(
        self,
        after: Self,
        before: UmlModelView,
        after_model: UmlModelView,
        r: Result<(), CommandErrorView>,
    ) -> bool {
        if !self.applied {
            after == self && after_model == before && r == invalid(
                "UpdateClassifierFeatures has not been executed"@,
            )
        } else {
            &&& replaces_features(self.element_id, self.new@, self.old@, before, after_model, r)
            &&& after == (UpdateClassifierFeatures { applied: !(r is Ok), ..self })
        }
    }

    closed spec fn description_text(self) -> Seq<char> {
        self.description@
    }

    fn execute(&mut self, model: &mut UmlModel) -> (r: Result<(), CommandError>) {
        if self.applied {
            return Err(invalid_operation("UpdateClassifierFeatures already executed"));
        }
        replace_classifier_features(model, self.element_id, &self.old, &self.new)?;
        self.applied = true;
        Ok(())
    }

    fn undo(&mut self, model: &mut UmlModel) -> (r: Result<(), CommandError>) {
        if !self.applied {
            return Err(invalid_operation("UpdateClassifierFeatures has not been executed"));
        }
        replace_classifier_features(model, self.element_id, &self.new, &self.old)?;
        self.applied = false;
        Ok(())
    }

    fn description(&self) -> (s: &str) {
        self.description.as_str()
    }
}


// ─── Diagram commands ────────────────────────────────────────────────

/// The node placed for an element at a position with a size.
pub open spec fn placed_node(id: UmlId, position: Point, size: Size) -> ViewNode {
    ViewNode { model_element_id: id, bounds: Rect { origin: position, size }, z_order: 0, visible: true }
}

/// The diagram with the node of an element added (or replaced).
pub open spec fn with_node(d: DiagramView, id: UmlId, n: ViewNode) -> DiagramView {
    DiagramView { nodes: inserted(d.nodes, id.value, n), ..d }
}

/// The diagram with the node of an element removed.
pub open spec fn without_node(d: DiagramView, id: UmlId) -> DiagramView {
    DiagramView { nodes: removed(d.nodes, id.value), ..d }
}

/// The diagram with the (existing) node of an element replaced in place.
pub open spec fn with_node_in_place(d: DiagramView, id: UmlId, n: ViewNode) -> DiagramView {
    DiagramView { nodes: d.nodes.update(key_index(d.nodes, id.value), (id.value, n)), ..d }
}

/// Builds a node for an element at a position with a size.
fn make_node(id: UmlId, position: Point, size: Size) -> (n: ViewNode)
    ensures
        n == placed_node(id, position, size),
{
    ViewNode::new(id, Rect::new(position.x, position.y, size.width, size.height))
}

/// Command to atomically create a model element and its node in a diagram.
#[derive(Debug)]
pub struct CreateElementWithNode {
    diagram_id: DiagramId,
    element_id: UmlId,
    element: Option<ModelElement>,
    position: Point,
    size: Size,
    description: String,
}

/// `"Create <type> with node"`.
pub open spec fn create_with_node_text(e: ModelElementView) -> Seq<char> {
    "Create "@ + object_type_name(e.object_type()) + " with node"@
}

impl CreateElementWithNode {
    /// The element held for the next execute, if any.
    pub closed spec fn held(self) -> Option<ModelElementView> {
        opt_elem(self.element)
    }

    /// The id of the element created.
    pub closed spec fn target(self) -> UmlId {
        self.element_id
    }

    /// The diagram that receives the node.
    pub closed spec fn diagram(self) -> DiagramId {
        self.diagram_id
    }

    /// The node that the command places.
    pub closed spec fn node(self) -> ViewNode {
        placed_node(self.element_id, self.position, self.size)
    }

    /// Create a command inserting `element` and its node at `position`.
    ///
    /// Fails with an invalid operation when the diagram is missing, the
    /// element id already exists, or the diagram already has a node for it.
    pub fn new(
        model: &UmlModel,
        diagram_id: DiagramId,
        element: ModelElement,
        position: Point,
        size: Size,
    ) -> (r: Result<Self, CommandError>)
        requires
            model.wf(),
        ensures
            match diagram_index(model@.diagrams, diagram_id) {
                None => r is Err && r->Err_0@ == CommandErrorView::InvalidOperation("diagram not found"@),
                Some(i) => if model@.elements.contains_key(element@.id()) {
                    r is Err && r->Err_0@ == CommandErrorView::InvalidOperation(
                        "element ID already exists"@,
                    )
                } else if has_key(model@.diagrams[i].nodes, element@.id().value) {
                    r is Err && r->Err_0@ == CommandErrorView::InvalidOperation(
                        "diagram already contains a node for element"@,
                    )
                } else {
                    &&& r is Ok
                    &&& r->Ok_0.inv()
                    &&& forall|after: Self, m1: UmlModelView, out: Result<(), CommandErrorView>|
                        #[trigger] r->Ok_0.executes(after, model@, m1, out) ==> out == succeeded()
                    &&& r->Ok_0.held() == Some(element@)
                    &&& r->Ok_0.target() == element@.id()
                    &&& r->Ok_0.diagram() == diagram_id
                    &&& r->Ok_0.node() == placed_node(element@.id(), position, size)
                    &&& r->Ok_0.description_text() == create_with_node_text(element@)
                },
            },
    {
        proof {
            reveal_strlit("Create ");
            reveal_strlit(" with node");
        }
        let element_id = element.id();
        let diagram = match model.get_diagram(diagram_id) {
            Some(d) => d,
            None => return Err(invalid_operation("diagram not found")),
        };
        if model.contains(element_id) {
            return Err(invalid_operation("element ID already exists"));
        }
        if diagram.get_node(element_id).is_some() {
            return Err(invalid_operation("diagram already contains a node for element"));
        }
        let mut desc = owned("Create ");
        desc.append(element.object_type().as_str());
        desc.append(" with node");
        Ok(
            CreateElementWithNode {
                diagram_id,
                element_id,
                element: Some(element),
                position,
                size,
                description: desc,
            },
        )
    }
}

impl Command for CreateElementWithNode {
    closed spec fn inv(self) -> bool {
        self.element is Some ==> self.element->0@.id() == self.element_id
    }

    closed spec fn executes(
        self,
        after: Self,
        before: UmlModelView,
        after_model: UmlModelView,
        r: Result<(), CommandErrorView>,
    ) -> bool {
        if before.elements.contains_key(self.element_id) {
            after == self && after_model == before && r == invalid("element ID already exists"@)
        } else {
            match self.element {
                None => after == self && after_model == before && r == invalid(
                    "CreateElementWithNode already executed"@,
                ),
                Some(e) => match diagram_index(before.diagrams, self.diagram_id) {
                    None => {
                        &&& after == (CreateElementWithNode { element: None, ..self })
                        &&& after_model == before
                        &&& r == invalid("diagram not found"@)
                    },
                    Some(i) => if has_key(before.diagrams[i].nodes, self.element_id.value) {
                        after == self && after_model == before && r == invalid(
                            "diagram already contains a node for element"@,
                        )
                    } else {
                        &&& after == (CreateElementWithNode { element: None, ..self })
                        &&& after_model == with_diagram_replaced(
                            with_element(before, e@),
                            i,
                            with_node(before.diagrams[i], self.element_id, placed_node(self.element_id, self.position, self.size)),
                        )
                        &&& r == succeeded()
                    },
                },
            }
        }
    }

    closed spec fn undoes(
        self,
        after: Self,
        before: UmlModelView,
        after_model: UmlModelView,
        r: Result<(), CommandErrorView>,
    ) -> bool {
        match diagram_index(before.diagrams, self.diagram_id) {
            None => after == self && after_model == before && r == invalid("diagram not found"@),
            Some(i) => if !has_key(before.diagrams[i].nodes, self.element_id.value) {
                after == self && after_model == before && r == not_found(self.element_id)
            } else {
                let m1 = with_diagram_replaced(before, i, without_node(before.diagrams[i], self.element_id));
                &&& after == (CreateElementWithNode {
                    element: after.element,
                    ..self
                })
                &&& opt_elem(after.element) == (if m1.elements.contains_key(self.element_id) {
                    Some(m1.elements[self.element_id])
                } else {
                    None
                })
                &&& after_model == without_element(m1, self.element_id)
                &&& r == (if m1.elements.contains_key(self.element_id) {
                    succeeded()
                } else {
                    not_found(self.element_id)
                })
            },
        }
    }

    closed spec fn description_text(self) -> Seq<char> {
        self.description@
    }

    fn execute(&mut self, model: &mut UmlModel) -> (r: Result<(), CommandError>) {
        if model.contains(self.element_id) {
            return Err(invalid_operation("element ID already exists"));
        }
        let element = match self.element.take() {
            Some(e) => e,
            None => return Err(invalid_operation("CreateElementWithNode already executed")),
        };
        let has_node = match model.get_diagram(self.diagram_id) {
            Some(d) => d.get_node(self.element_id).is_some(),
            None => return Err(invalid_operation("diagram not found")),
        };
        if has_node {
            self.element = Some(element);
            return Err(invalid_operation("diagram already contains a node for element"));
        }
        model.insert(element);
        let node = make_node(self.element_id, self.position, self.size);
        match model.get_diagram_mut(self.diagram_id) {
            Some(d) => {
                d.add_node(self.element_id, node);
            },
            None => {
                self.element = model.remove(self.element_id);
                return Err(invalid_operation("diagram not found"));
            },
        }
        Ok(())
    }

    fn undo(&mut self, model: &mut UmlModel) -> (r: Result<(), CommandError>) {
        proof {
            lemma_diagram_index(model@.diagrams, self.diagram_id);
        }
        match model.get_diagram_mut(self.diagram_id) {
            Some(d) => {
                if d.remove_node(self.element_id).is_none() {
                    return Err(CommandError::ElementNotFound(self.element_id));
                }
            },
            None => return Err(invalid_operation("diagram not found")),
        }
        self.element = model.remove(self.element_id);
        if self.element.is_none() {
            return Err(CommandError::ElementNotFound(self.element_id));
        }
        Ok(())
    }

    fn description(&self) -> (s: &str) {
        self.description.as_str()
    }
}

/// Command to add a node to a diagram.
#[derive(Debug)]
pub struct AddNodeToDiagram {
    diagram_id: DiagramId,
    element_id: UmlId,
    position: Point,
    size: Size,
    description: String,
}

impl AddNodeToDiagram {
    /// The element whose node is added.
    pub closed spec fn target(self) -> UmlId {
        self.element_id
    }

    /// The diagram that receives the node.
    pub closed spec fn diagram(self) -> DiagramId {
        self.diagram_id
    }

    /// The node that the command places.
    pub closed spec fn node(self) -> ViewNode {
        placed_node(self.element_id, self.position, self.size)
    }

    /// Create a command to add a node for `element_id` at `position`.
    pub fn new(diagram_id: DiagramId, element_id: UmlId, position: Point, size: Size) -> (c: Self)
        ensures
            c.inv(),
            forall|after: Self, m: UmlModelView, m1: UmlModelView, out: Result<(), CommandErrorView>|
                #[trigger] c.executes(after, m, m1, out) ==> (out == succeeded() <==> diagram_index(m.diagrams, diagram_id) is Some),
            c.target() == element_id,
            c.diagram() == diagram_id,
            c.node() == placed_node(element_id, position, size),
            c.description_text() == "Add node to diagram"@,
    {
        AddNodeToDiagram { diagram_id, element_id, position, size, description: owned("Add node to diagram") }
    }
}

impl Command for AddNodeToDiagram {
    closed spec fn inv(self) -> bool {
        true
    }

    closed spec fn executes(
        self,
        after: Self,
        before: UmlModelView,
        after_model: UmlModelView,
        r: Result<(), CommandErrorView>,
    ) -> bool {
        &&& after == self
        &&& match diagram_index(before.diagrams, self.diagram_id) {
            None => after_model == before && r == invalid("diagram not found"@),
            Some(i) => {
                &&& after_model == with_diagram_replaced(
                    before,
                    i,
                    with_node(before.diagrams[i], self.element_id, placed_node(self.element_id, self.position, self.size)),
                )
                &&& r == succeeded()
            },
        }
    }

    closed spec fn undoes(
        self,
        after: Self,
        before: UmlModelView,
        after_model: UmlModelView,
        r: Result<(), CommandErrorView>,
    ) -> bool {
        &&& after == self
        &&& match diagram_index(before.diagrams, self.diagram_id) {
            None => after_model == before && r == invalid("diagram not found"@),
            Some(i) => {
                &&& after_model == with_diagram_replaced(before, i, without_node(before.diagrams[i], self.element_id))
                &&& r == succeeded()
            },
        }
    }

    closed spec fn description_text(self) -> Seq<char> {
        self.description@
    }

    fn execute(&mut self, model: &mut UmlModel) -> (r: Result<(), CommandError>) {
        let node = make_node(self.element_id, self.position, self.size);
        match model.get_diagram_mut(self.diagram_id) {
            Some(d) => {
                d.add_node(self.element_id, node);
                Ok(())
            },
            None => Err(invalid_operation("diagram not found")),
        }
    }

    fn undo(&mut self, model: &mut UmlModel) -> (r: Result<(), CommandError>) {
        match model.get_diagram_mut(self.diagram_id) {
            Some(d) => {
                let _ = d.remove_node(self.element_id);
                Ok(())
            },
            None => Err(invalid_operation("diagram not found")),
        }
    }

    fn description(&self) -> (s: &str) {
        self.description.as_str()
    }
}

/// Command to remove a node from a diagram.
#[derive(Debug)]
pub struct RemoveNodeFromDiagram {
    diagram_id: DiagramId,
    element_id: UmlId,
    removed_node: Option<ViewNode>,
    description: String,
}

impl RemoveNodeFromDiagram {
    /// The element whose node is removed.
    pub closed spec fn target(self) -> UmlId {
        self.element_id
    }

    /// The diagram the node is removed from.
    pub closed spec fn diagram(self) -> DiagramId {
        self.diagram_id
    }

    /// The removed node kept for undo.
    pub closed spec fn held(self) -> Option<ViewNode> {
        self.removed_node
    }

    /// Create a command to remove the node of `element_id`. Fails with an
    /// invalid operation when the diagram is missing and with
    /// `ElementNotFound` when it has no node for the element.
    pub fn new(model: &UmlModel, diagram_id: DiagramId, element_id: UmlId) -> (r: Result<
        Self,
        CommandError,
    >)
        requires
            model.wf(),
        ensures
            match diagram_index(model@.diagrams, diagram_id) {
                None => r is Err && r->Err_0@ == CommandErrorView::InvalidOperation("diagram not found"@),
                Some(i) => if !has_key(model@.diagrams[i].nodes, element_id.value) {
                    r is Err && r->Err_0@ == CommandErrorView::ElementNotFound(element_id)
                } else {
                    &&& r is Ok
                    &&& r->Ok_0.target() == element_id
                    &&& r->Ok_0.diagram() == diagram_id
                    &&& r->Ok_0.held() is None
                    &&& r->Ok_0.description_text() == "Remove node from diagram"@
                },
            },
    {
        let d = match model.get_diagram(diagram_id) {
            Some(d) => d,
            None => return Err(invalid_operation("diagram not found")),
        };
        if d.get_node(element_id).is_none() {
            return Err(CommandError::ElementNotFound(element_id));
        }
        Ok(
            RemoveNodeFromDiagram {
                diagram_id,
                element_id,
                removed_node: None,
                description: owned("Remove node from diagram"),
            },
        )
    }
}

impl Command for RemoveNodeFromDiagram {
    closed spec fn inv(self) -> bool {
        true
    }

    closed spec fn executes(
        self,
        after: Self,
        before: UmlModelView,
        after_model: UmlModelView,
        r: Result<(), CommandErrorView>,
    ) -> bool {
        match diagram_index(before.diagrams, self.diagram_id) {
            None => after == self && after_model == before && r == invalid("diagram not found"@),
            Some(i) => {
                &&& after == (RemoveNodeFromDiagram {
                    removed_node: lookup(before.diagrams[i].nodes, self.element_id.value),
                    ..self
                })
                &&& after_model == with_diagram_replaced(before, i, without_node(before.diagrams[i], self.element_id))
                &&& r == succeeded()
            },
        }
    }

    closed spec fn undoes(
        self,
        after: Self,
        before: UmlModelView,
        after_model: UmlModelView,
        r: Result<(), CommandErrorView>,
    ) -> bool {
        match diagram_index(before.diagrams, self.diagram_id) {
            None => after == self && after_model == before && r == invalid("diagram not found"@),
            Some(i) => {
                &&& after == (RemoveNodeFromDiagram { removed_node: None, ..self })
                &&& after_model == match self.removed_node {
                    Some(n) => with_diagram_replaced(before, i, with_node(before.diagrams[i], self.element_id, n)),
                    None => before,
                }
                &&& r == succeeded()
            },
        }
    }

    closed spec fn description_text(self) -> Seq<char> {
        self.description@
    }

    fn execute(&mut self, model: &mut UmlModel) -> (r: Result<(), CommandError>) {
        match model.get_diagram_mut(self.diagram_id) {
            Some(d) => {
                self.removed_node = d.remove_node(self.element_id);
                Ok(())
            },
            None => Err(invalid_operation("diagram not found")),
        }
    }

    fn undo(&mut self, model: &mut UmlModel) -> (r: Result<(), CommandError>) {
        let ghost m0 = model@;
        match model.get_diagram_mut(self.diagram_id) {
            Some(d) => {
                let ghost d0 = d@;
                if let Some(node) = self.removed_node.take() {
                    d.add_node(self.element_id, node);
                }
                proof {
                    lemma_diagram_index(m0.diagrams, self.diagram_id);
                }
                Ok(())
            },
            None => Err(invalid_operation("diagram not found")),
        }
    }

    fn description(&self) -> (s: &str) {
        self.description.as_str()
    }
}


/// What a node edit does: in the first diagram with the id, the node of the
/// element is replaced in place by `f(node)`; fails when the diagram or the
/// node is missing.
pub open spec fn edits_node(
    diagram_id: DiagramId,
    id: UmlId,
    before: UmlModelView,
    after_model: UmlModelView,
    r: Result<(), CommandErrorView>,
    new_node: spec_fn(ViewNode) -> ViewNode,
) -> bool {
    match diagram_index(before.diagrams, diagram_id) {
        None => after_model == before && r == invalid("diagram not found"@),
        Some(i) => match lookup(before.diagrams[i].nodes, id.value) {
            None => after_model == before && r == not_found(id),
            Some(n) => {
                &&& after_model == with_diagram_replaced(
                    before,
                    i,
                    with_node_in_place(before.diagrams[i], id, new_node(n)),
                )
                &&& r == succeeded()
            },
        },
    }
}

/// The node found for an element in the first diagram with the id.
pub open spec fn found_node(m: UmlModelView, diagram_id: DiagramId, id: UmlId) -> Option<ViewNode> {
    match diagram_index(m.diagrams, diagram_id) {
        None => None,
        Some(i) => lookup(m.diagrams[i].nodes, id.value),
    }
}

/// The node of an element in a diagram, copied.
fn current_node(model: &UmlModel, diagram_id: DiagramId, id: UmlId) -> (r: Result<ViewNode, CommandError>)
    requires
        model.wf(),
    ensures
        match diagram_index(model@.diagrams, diagram_id) {
            None => r is Err && r->Err_0@ == CommandErrorView::InvalidOperation("diagram not found"@),
            Some(i) => match lookup(model@.diagrams[i].nodes, id.value) {
                None => r is Err && r->Err_0@ == CommandErrorView::ElementNotFound(id),
                Some(n) => r == Ok::<ViewNode, CommandError>(n),
            },
        },
{
    match model.get_diagram(diagram_id) {
        Some(d) => match d.get_node(id) {
            Some(n) => Ok(*n),
            None => Err(CommandError::ElementNotFound(id)),
        },
        None => Err(invalid_operation("diagram not found")),
    }
}

/// Replaces the existing node of an element in the first diagram with the id.
fn replace_node(model: &mut UmlModel, diagram_id: DiagramId, id: UmlId, node: ViewNode)
    requires
        old(model).wf(),
        found_node(old(model)@, diagram_id, id) is Some,
    ensures
        final(model).wf(),
        final(model)@ == with_diagram_replaced(
            old(model)@,
            diagram_index(old(model)@.diagrams, diagram_id)->0,
            with_node_in_place(old(model)@.diagrams[diagram_index(old(model)@.diagrams, diagram_id)->0], id, node),
        ),
{
    proof {
        lemma_diagram_index(model@.diagrams, diagram_id);
    }
    match model.get_diagram_mut(diagram_id) {
        Some(d) => {
            d.add_node(id, node);
        },
        None => {},
    }
}

/// The node moved to a position.
pub open spec fn moved_to(p: Point) -> spec_fn(ViewNode) -> ViewNode {
    |n: ViewNode| ViewNode { bounds: Rect { origin: p, ..n.bounds }, ..n }
}

/// The node resized to a size.
pub open spec fn resized_to(z: Size) -> spec_fn(ViewNode) -> ViewNode {
    |n: ViewNode| ViewNode { bounds: Rect { size: z, ..n.bounds }, ..n }
}

/// Command to move a node on a diagram.
#[derive(Debug)]
pub struct MoveNode {
    diagram_id: DiagramId,
    element_id: UmlId,
    old_position: Option<Point>,
    new_position: Point,
    description: String,
}

/// `"Move node to (<position>)"`.
pub open spec fn move_node_text(position_text: Seq<char>) -> Seq<char> {
    "Move node to ("@ + position_text + ")"@
}

impl MoveNode {
    /// The element whose node is moved.
    pub closed spec fn target(self) -> UmlId {
        self.element_id
    }

    /// The diagram holding the node.
    pub closed spec fn diagram(self) -> DiagramId {
        self.diagram_id
    }

    /// The position recorded by the last execute.
    pub closed spec fn previous(self) -> Option<Point> {
        self.old_position
    }

    /// The destination.
    pub closed spec fn destination(self) -> Point {
        self.new_position
    }

    /// Create a command to move the node of `element_id` to `new_position`.
    /// `position_text` is the destination as shown to the user (the caller
    /// formats the coordinates). Fails with an invalid operation when the
    /// diagram is missing and with `ElementNotFound` when it has no node for
    /// the element.
    pub fn new(
        model: &UmlModel,
        diagram_id: DiagramId,
        element_id: UmlId,
        new_position: Point,
        position_text: &str,
    ) -> (r: Result<Self, CommandError>)
        requires
            model.wf(),
        ensures
            match diagram_index(model@.diagrams, diagram_id) {
                None => r is Err && r->Err_0@ == CommandErrorView::InvalidOperation("diagram not found"@),
                Some(i) => if !has_key(model@.diagrams[i].nodes, element_id.value) {
                    r is Err && r->Err_0@ == CommandErrorView::ElementNotFound(element_id)
                } else {
                    &&& r is Ok
                    &&& r->Ok_0.inv()
                    &&& forall|after: Self, m1: UmlModelView, out: Result<(), CommandErrorView>|
                        #[trigger] r->Ok_0.executes(after, model@, m1, out) ==> out == succeeded()
                    &&& r->Ok_0.target() == element_id
                    &&& r->Ok_0.diagram() == diagram_id
                    &&& r->Ok_0.previous() is None
                    &&& r->Ok_0.destination() == new_position
                    &&& r->Ok_0.description_text() == move_node_text(position_text@)
                },
            },
    {
        proof {
            reveal_strlit("Move node to (");
            reveal_strlit(")");
        }
        let d = match model.get_diagram(diagram_id) {
            Some(d) => d,
            None => return Err(invalid_operation("diagram not found")),
        };
        if d.get_node(element_id).is_none() {
            return Err(CommandError::ElementNotFound(element_id));
        }
        let mut desc = owned("Move node to (");
        desc.append(position_text);
        desc.append(")");
        Ok(MoveNode { diagram_id, element_id, old_position: None, new_position, description: desc })
    }
}

impl Command for MoveNode {
    closed spec fn inv(self) -> bool {
        true
    }

    closed spec fn executes(
        self,
        after: Self,
        before: UmlModelView,
        after_model: UmlModelView,
        r: Result<(), CommandErrorView>,
    ) -> bool {
        &&& edits_node(self.diagram_id, self.element_id, before, after_model, r, moved_to(self.new_position))
        &&& after == match found_node(before, self.diagram_id, self.element_id) {
            Some(n) => MoveNode { old_position: Some(n.bounds.origin), ..self },
            None => self,
        }
    }

    closed spec fn undoes(
        self,
        after: Self,
        before: UmlModelView,
        after_model: UmlModelView,
        r: Result<(), CommandErrorView>,
    ) -> bool {
        &&& after == self
        &&& match self.old_position {
            Some(p) => edits_node(self.diagram_id, self.element_id, before, after_model, r, moved_to(p)),
            None => edits_node(self.diagram_id, self.element_id, before, after_model, r, |n: ViewNode| n),
        }
    }

    closed spec fn description_text(self) -> Seq<char> {
        self.description@
    }

    fn execute(&mut self, model: &mut UmlModel) -> (r: Result<(), CommandError>) {
        let node = current_node(model, self.diagram_id, self.element_id)?;
        self.old_position = Some(node.bounds.origin);
        let mut moved = node;
        moved.bounds.origin = self.new_position;
        replace_node(model, self.diagram_id, self.element_id, moved);
        Ok(())
    }

    fn undo(&mut self, model: &mut UmlModel) -> (r: Result<(), CommandError>) {
        let node = current_node(model, self.diagram_id, self.element_id)?;
        let mut moved = node;
        if let Some(old) = self.old_position {
            moved.bounds.origin = old;
        }
        replace_node(model, self.diagram_id, self.element_id, moved);
        Ok(())
    }

    fn description(&self) -> (s: &str) {
        self.description.as_str()
    }
}

/// Command to resize a node on a diagram.
#[derive(Debug)]
pub struct ResizeNode {
    diagram_id: DiagramId,
    element_id: UmlId,
    old_size: Option<Size>,
    new_size: Size,
    description: String,
}

/// `"Resize node to <size>"`.
pub open spec fn resize_node_text(size_text: Seq<char>) -> Seq<char> {
    "Resize node to "@ + size_text
}

impl ResizeNode {
    /// The element whose node is resized.
    pub closed spec fn target(self) -> UmlId {
        self.element_id
    }

    /// The diagram holding the node.
    pub closed spec fn diagram(self) -> DiagramId {
        self.diagram_id
    }

    /// The size recorded by the last execute.
    pub closed spec fn previous(self) -> Option<Size> {
        self.old_size
    }

    /// The new size.
    pub closed spec fn destination(self) -> Size {
        self.new_size
    }

    /// Create a command to resize the node of `element_id` to `new_size`.
    /// `size_text` is the size as shown to the user (the caller formats it,
    /// e.g. `150×80`). Fails with an invalid operation when the diagram is
    /// missing and with `ElementNotFound` when it has no node for the element.
    pub fn new(
        model: &UmlModel,
        diagram_id: DiagramId,
        element_id: UmlId,
        new_size: Size,
        size_text: &str,
    ) -> (r: Result<Self, CommandError>)
        requires
            model.wf(),
        ensures
            match diagram_index(model@.diagrams, diagram_id) {
                None => r is Err && r->Err_0@ == CommandErrorView::InvalidOperation("diagram not found"@),
                Some(i) => if !has_key(model@.diagrams[i].nodes, element_id.value) {
                    r is Err && r->Err_0@ == CommandErrorView::ElementNotFound(element_id)
                } else {
                    &&& r is Ok
                    &&& r->Ok_0.inv()
                    &&& forall|after: Self, m1: UmlModelView, out: Result<(), CommandErrorView>|
                        #[trigger] r->Ok_0.executes(after, model@, m1, out) ==> out == succeeded()
                    &&& r->Ok_0.target() == element_id
                    &&& r->Ok_0.diagram() == diagram_id
                    &&& r->Ok_0.previous() is None
                    &&& r->Ok_0.destination() == new_size
                    &&& r->Ok_0.description_text() == resize_node_text(size_text@)
                },
            },
    {
        proof {
            reveal_strlit("Resize node to ");
        }
        let d = match model.get_diagram(diagram_id) {
            Some(d) => d,
            None => return Err(invalid_operation("diagram not found")),
        };
        if d.get_node(element_id).is_none() {
            return Err(CommandError::ElementNotFound(element_id));
        }
        let mut desc = owned("Resize node to ");
        desc.append(size_text);
        Ok(ResizeNode { diagram_id, element_id, old_size: None, new_size, description: desc })
    }
}

impl Command for ResizeNode {
    closed spec fn inv(self) -> bool {
        true
    }

    closed spec fn executes(
        self,
        after: Self,
        before: UmlModelView,
        after_model: UmlModelView,
        r: Result<(), CommandErrorView>,
    ) -> bool {
        &&& edits_node(self.diagram_id, self.element_id, before, after_model, r, resized_to(self.new_size))
        &&& after == match found_node(before, self.diagram_id, self.element_id) {
            Some(n) => ResizeNode { old_size: Some(n.bounds.size), ..self },
            None => self,
        }
    }

    closed spec fn undoes(
        self,
        after: Self,
        before: UmlModelView,
        after_model: UmlModelView,
        r: Result<(), CommandErrorView>,
    ) -> bool {
        &&& after == self
        &&& match self.old_size {
            Some(z) => edits_node(self.diagram_id, self.element_id, before, after_model, r, resized_to(z)),
            None => edits_node(self.diagram_id, self.element_id, before, after_model, r, |n: ViewNode| n),
        }
    }

    closed spec fn description_text(self) -> Seq<char> {
        self.description@
    }

    fn execute(&mut self, model: &mut UmlModel) -> (r: Result<(), CommandError>) {
        let node = current_node(model, self.diagram_id, self.element_id)?;
        self.old_size = Some(node.bounds.size);
        let mut moved = node;
        moved.bounds.size = self.new_size;
        replace_node(model, self.diagram_id, self.element_id, moved);
        Ok(())
    }

    fn undo(&mut self, model: &mut UmlModel) -> (r: Result<(), CommandError>) {
        let node = current_node(model, self.diagram_id, self.element_id)?;
        let mut moved = node;
        if let Some(old) = self.old_size {
            moved.bounds.size = old;
        }
        replace_node(model, self.diagram_id, self.element_id, moved);
        Ok(())
    }

    fn description(&self) -> (s: &str) {
        self.description.as_str()
    }
}

// ─── CreateEdge ──────────────────────────────────────────────────────

/// The edge drawn for a relationship: a direct line without waypoints or labels.
pub open spec fn direct_edge(relationship_id: UmlId, source: UmlId, target: UmlId) -> ViewEdgeView {
    ViewEdgeView {
        relationship_id,
        source_node_id: source,
        target_node_id: target,
        waypoints: Seq::empty(),
        routing: LineRouting::Direct,
        labels: Seq::empty(),
    }
}

/// The diagram with an edge added (or replaced).
pub open spec fn with_edge(d: DiagramView, edge_id: EdgeId, e: ViewEdgeView) -> DiagramView {
    DiagramView { edges: inserted(d.edges, edge_id.value, e), ..d }
}

/// The diagram with an edge removed.
pub open spec fn without_edge(d: DiagramView, edge_id: EdgeId) -> DiagramView {
    DiagramView { edges: removed(d.edges, edge_id.value), ..d }
}

/// `"Create <kind> edge"`.
pub open spec fn create_edge_text(kind: AssociationType) -> Seq<char> {
    "Create "@ + association_type_name(kind) + " edge"@
}

/// Command to create a relationship and its edge between two nodes.
///
/// Execute inserts the relationship into the model and the edge into the
/// diagram; undo removes both and keeps the relationship for a later execute.
#[derive(Debug)]
pub struct CreateEdge {
    diagram_id: DiagramId,
    relationship_id: UmlId,
    edge_id: EdgeId,
    source_node_id: UmlId,
    target_node_id: UmlId,
    relationship_element: Option<ModelElement>,
    description: String,
}

impl CreateEdge {
    /// The relationship held for the next execute, if any.
    pub closed spec fn held(self) -> Option<ModelElementView> {
        opt_elem(self.relationship_element)
    }

    /// The id of the created relationship.
    pub closed spec fn relationship(self) -> UmlId {
        self.relationship_id
    }

    /// The id of the created edge.
    pub closed spec fn edge(self) -> EdgeId {
        self.edge_id
    }

    /// The diagram that receives the edge.
    pub closed spec fn diagram(self) -> DiagramId {
        self.diagram_id
    }

    /// The edge that the command draws.
    pub closed spec fn drawn_edge(self) -> ViewEdgeView {
        direct_edge(self.relationship_id, self.source_node_id, self.target_node_id)
    }

    /// Create a command that will create a relationship of `kind` from the
    /// source to the target node, with fresh relationship and edge ids.
    pub fn new(diagram_id: DiagramId, source_node_id: UmlId, target_node_id: UmlId, kind: AssociationType) -> (c: Self)
        ensures
            c.inv(),
            forall|after: Self, m: UmlModelView, m1: UmlModelView, out: Result<(), CommandErrorView>|
                #[trigger] c.executes(after, m, m1, out) ==> (out == succeeded() <==> diagram_index(m.diagrams, diagram_id) is Some),
            c.held() == Some(
                ModelElementView::Relationship(
                    fresh_relationship(c.relationship(), kind, source_node_id, target_node_id),
                ),
            ),
            c.diagram() == diagram_id,
            c.drawn_edge() == direct_edge(c.relationship(), source_node_id, target_node_id),
            c.description_text() == create_edge_text(kind),
    {
        proof {
            reveal_strlit("Create ");
            reveal_strlit(" edge");
        }
        let rel = match kind {
            AssociationType::Generalization => Relationship::new_generalization(source_node_id, target_node_id),
            AssociationType::Realization => Relationship::new_realization(source_node_id, target_node_id),
            AssociationType::Association => Relationship::new_association(source_node_id, target_node_id),
            AssociationType::Aggregation => Relationship::new_aggregation(source_node_id, target_node_id),
            AssociationType::Composition => Relationship::new_composition(source_node_id, target_node_id),
            AssociationType::Dependency => Relationship::new_dependency(source_node_id, target_node_id),
        };
        let rel_id = rel.base.id;
        let edge_id = EdgeId::new();
        let mut desc = owned("Create ");
        desc.append(kind.as_str());
        desc.append(" edge");
        CreateEdge {
            diagram_id,
            relationship_id: rel_id,
            edge_id,
            source_node_id,
            target_node_id,
            relationship_element: Some(ModelElement::Relationship(rel)),
            description: desc,
        }
    }

    /// The id of the created relationship.
    pub fn relationship_id(&self) -> (id: UmlId)
        ensures
            id == self.relationship(),
    {
        self.relationship_id
    }

    /// The id of the created edge.
    pub fn edge_id(&self) -> (id: EdgeId)
        ensures
            id == self.edge(),
    {
        self.edge_id
    }
}

impl Command for CreateEdge {
    closed spec fn inv(self) -> bool {
        self.relationship_element is Some ==> self.relationship_element->0@.id() == self.relationship_id
    }

    closed spec fn executes(
        self,
        after: Self,
        before: UmlModelView,
        after_model: UmlModelView,
        r: Result<(), CommandErrorView>,
    ) -> bool {
        match self.relationship_element {
            None => after == self && after_model == before && r == invalid("CreateEdge already executed"@),
            Some(e) => {
                let m1 = with_element(before, e@);
                &&& after == (CreateEdge { relationship_element: None, ..self })
                &&& match diagram_index(m1.diagrams, self.diagram_id) {
                    None => after_model == m1 && r == invalid("diagram not found"@),
                    Some(i) => {
                        &&& after_model == with_diagram_replaced(
                            m1,
                            i,
                            with_edge(m1.diagrams[i], self.edge_id, direct_edge(self.relationship_id, self.source_node_id, self.target_node_id)),
                        )
                        &&& r == succeeded()
                    },
                }
            },
        }
    }

    closed spec fn undoes(
        self,
        after: Self,
        before: UmlModelView,
        after_model: UmlModelView,
        r: Result<(), CommandErrorView>,
    ) -> bool {
        let m1 = match diagram_index(before.diagrams, self.diagram_id) {
            Some(i) => with_diagram_replaced(before, i, without_edge(before.diagrams[i], self.edge_id)),
            None => before,
        };
        &&& after == (CreateEdge { relationship_element: after.relationship_element, ..self })
        &&& opt_elem(after.relationship_element) == (if m1.elements.contains_key(self.relationship_id) {
            Some(m1.elements[self.relationship_id])
        } else {
            None
        })
        &&& after_model == without_element(m1, self.relationship_id)
        &&& r == (if m1.elements.contains_key(self.relationship_id) {
            succeeded()
        } else {
            not_found(self.relationship_id)
        })
    }

    closed spec fn description_text(self) -> Seq<char> {
        self.description@
    }

    fn execute(&mut self, model: &mut UmlModel) -> (r: Result<(), CommandError>) {
        let rel = match self.relationship_element.take() {
            Some(e) => e,
            None => return Err(invalid_operation("CreateEdge already executed")),
        };
        model.insert(rel);
        let edge = ViewEdge::new(self.relationship_id, self.source_node_id, self.target_node_id, LineRouting::Direct);
        match model.get_diagram_mut(self.diagram_id) {
            Some(d) => {
                d.add_edge(self.edge_id, edge);
                Ok(())
            },
            None => Err(invalid_operation("diagram not found")),
        }
    }

    fn undo(&mut self, model: &mut UmlModel) -> (r: Result<(), CommandError>) {
        match model.get_diagram_mut(self.diagram_id) {
            Some(d) => {
                let _ = d.remove_edge(self.edge_id);
            },
            None => {},
        }
        self.relationship_element = model.remove(self.relationship_id);
        if self.relationship_element.is_none() {
            return Err(CommandError::ElementNotFound(self.relationship_id));
        }
        Ok(())
    }

    fn description(&self) -> (s: &str) {
        self.description.as_str()
    }
}


// ─── Laws: undo reverses execute ─────────────────────────────────────

/// Looking up a diagram id is unaffected by replacing a diagram with one of
/// the same id.
pub proof fn lemma_diagram_index_update(s: Seq<DiagramView>, i: int, d: DiagramView, id: DiagramId)
    requires
        0 <= i < s.len(),
        d.id == s[i].id,
    ensures
        diagram_index(s.update(i, d), id) == diagram_index(s, id),
{
    crate::repository::lemma_diagram_index_same_ids(s, s.update(i, d), id);
}

/// Removing a key that was appended to entries without it gives the entries back.
pub proof fn lemma_removed_inserted<V>(s: Seq<(u128, V)>, key: u128, v: V)
    requires
        !has_key(s, key),
    ensures
        removed(inserted(s, key, v), key) == s,
{
    let t = s.push((key, v));
    assert(t[s.len() as int].0 == key);
    let k = key_index(t, key);
    assert(0 <= k < t.len() && t[k].0 == key);
    if k < s.len() {
        assert(s[k].0 == key);
    }
    assert(t.remove(k) =~= s);
}

/// Replacing the value of an existing key in place keeps the key at the same
/// position, and the new value is found under it.
pub proof fn lemma_in_place<V>(s: Seq<(u128, V)>, key: u128, v: V)
    requires
        keys_unique(s),
        has_key(s, key),
    ensures
        ({
            let t = s.update(key_index(s, key), (key, v));
            &&& keys_unique(t)
            &&& has_key(t, key)
            &&& key_index(t, key) == key_index(s, key)
            &&& lookup(t, key) == Some(v)
        }),
{
    let k = key_index(s, key);
    let t = s.update(k, (key, v));
    assert(t[k].0 == key);
    let k2 = key_index(t, key);
    assert(0 <= k2 < t.len() && t[k2].0 == key);
    if k2 != k {
        assert(s[k2].0 == key);
    }
}

/// Undoing a successful `CreateElement` gives back the model it ran on, when
/// no element with its id was there before; executing it again gives the
/// model of the first execution once more.
#[verifier::rlimit(100)]
pub proof fn lemma_create_element_round_trip(
    c: CreateElement,
    c1: CreateElement,
    c2: CreateElement,
    m0: UmlModelView,
    m1: UmlModelView,
    m2: UmlModelView,
    r2: Result<(), CommandErrorView>,
)
    requires
        c.inv(),
        c.executes(c1, m0, m1, succeeded()),
        c1.undoes(c2, m1, m2, r2),
        !m0.elements.contains_key(c.target()),
    ensures
        r2 == succeeded(),
        m2 == m0,
        c2.held() == c.held(),
        forall|c3: CreateElement, m3: UmlModelView, r3: Result<(), CommandErrorView>|
            c2.executes(c3, m2, m3, r3) ==> m3 == m1 && r3 == succeeded(),
{
    assert(m2.elements =~= m0.elements);
}

/// Redoing an element creation after its undo succeeds and gives the model
/// of the first execution, even where an element with the id was there
/// before: the execution put the held element under its id, the undo took it
/// out and holds it, and the second execution puts it back.
pub proof fn lemma_create_element_redo_after_undo(
    c: CreateElement,
    c1: CreateElement,
    c2: CreateElement,
    m0: UmlModelView,
    m1: UmlModelView,
    m2: UmlModelView,
    r2: Result<(), CommandErrorView>,
)
    requires
        c.inv(),
        c.executes(c1, m0, m1, succeeded()),
        c1.undoes(c2, m1, m2, r2),
    ensures
        r2 == succeeded(),
        forall|c3: CreateElement, m3: UmlModelView, r3: Result<(), CommandErrorView>|
            #[trigger] c2.executes(c3, m2, m3, r3) ==> m3 == m1 && r3 == succeeded(),
{
    assert forall|c3: CreateElement, m3: UmlModelView, r3: Result<(), CommandErrorView>|
        #[trigger] c2.executes(c3, m2, m3, r3) implies m3 == m1 && r3 == succeeded() by {
        assert(m3.elements =~= m1.elements);
    }
}

/// Undoing `DeleteElement` puts a deleted element back: the model is the one
/// it ran on, and executing it again deletes the element once more.
#[verifier::rlimit(100)]
pub proof fn lemma_delete_element_round_trip(
    c: DeleteElement,
    c1: DeleteElement,
    c2: DeleteElement,
    m0: UmlModelView,
    m1: UmlModelView,
    m2: UmlModelView,
    r1: Result<(), CommandErrorView>,
    r2: Result<(), CommandErrorView>,
)
    requires
        model_valid(m0),
        c.executes(c1, m0, m1, r1),
        c1.undoes(c2, m1, m2, r2),
        m0.elements.contains_key(c.target()),
    ensures
        r1 == succeeded(),
        r2 == succeeded(),
        m2 == m0,
        forall|c3: DeleteElement, m3: UmlModelView, r3: Result<(), CommandErrorView>|
            c2.executes(c3, m2, m3, r3) ==> m3 == m1 && r3 == succeeded(),
{
    assert(m2.elements =~= m0.elements);
}

/// Replacing metadata and then putting the original metadata back gives the
/// model back.
proof fn lemma_base_restored(m0: UmlModelView, id: UmlId, b: ElementBaseView)
    requires
        m0.elements.contains_key(id),
    ensures
        with_element_base(with_element_base(m0, id, b), id, m0.elements[id].base()) == m0,
{
    let e = m0.elements[id];
    lemma_with_base_id(e, b);
    lemma_with_base_id(e.with_base(b), e.base());
    assert(e.with_base(b).with_base(e.base()) == e) by {
        match e {
            ModelElementView::Package(_) => {},
            ModelElementView::Class(_) => {},
            ModelElementView::Interface(_) => {},
            ModelElementView::Enum(_) => {},
            ModelElementView::Datatype(_) => {},
            ModelElementView::Relationship(_) => {},
            _ => {},
        }
    }
    assert(with_element_base(with_element_base(m0, id, b), id, m0.elements[id].base()).elements
        =~= m0.elements);
}

/// Undoing a successful rename restores the model when the element still had
/// the name recorded by the command; re-executing renames it again.
#[verifier::rlimit(100)]
pub proof fn lemma_rename_round_trip(
    c: RenameElement,
    c1: RenameElement,
    c2: RenameElement,
    m0: UmlModelView,
    m1: UmlModelView,
    m2: UmlModelView,
    r2: Result<(), CommandErrorView>,
)
    requires
        c.executes(c1, m0, m1, succeeded()),
        c1.undoes(c2, m1, m2, r2),
        m0.elements[c.target()].name() == c.previous(),
    ensures
        r2 == succeeded(),
        m2 == m0,
        c2 == c,
        forall|c3: RenameElement, m3: UmlModelView, r3: Result<(), CommandErrorView>|
            c2.executes(c3, m2, m3, r3) ==> m3 == m1 && r3 == succeeded(),
{
    let id = c.element_id;
    let b = ElementBaseView { name: c.new_name@, ..m0.elements[id].base() };
    lemma_with_base_id(m0.elements[id], b);
    assert(ElementBaseView { name: c.old_name@, ..b } == m0.elements[id].base());
    lemma_base_restored(m0, id, b);
}

/// Undoing a successful visibility change restores the model when the element
/// still had the visibility recorded by the command.
#[verifier::rlimit(100)]
pub proof fn lemma_change_visibility_round_trip(
    c: ChangeVisibility,
    c1: ChangeVisibility,
    c2: ChangeVisibility,
    m0: UmlModelView,
    m1: UmlModelView,
    m2: UmlModelView,
    r2: Result<(), CommandErrorView>,
)
    requires
        c.executes(c1, m0, m1, succeeded()),
        c1.undoes(c2, m1, m2, r2),
        m0.elements[c.target()].base().visibility == c.previous(),
    ensures
        r2 == succeeded(),
        m2 == m0,
        c2 == c,
        forall|c3: ChangeVisibility, m3: UmlModelView, r3: Result<(), CommandErrorView>|
            c2.executes(c3, m2, m3, r3) ==> m3 == m1 && r3 == succeeded(),
{
    let id = c.element_id;
    let b = ElementBaseView { visibility: c.new_visibility, ..m0.elements[id].base() };
    lemma_with_base_id(m0.elements[id], b);
    assert(ElementBaseView { visibility: c.old_visibility, ..b } == m0.elements[id].base());
    lemma_base_restored(m0, id, b);
}

/// Undoing a successful flag change restores the model when the element
/// still had the flags recorded by the command.
#[verifier::rlimit(100)]
pub proof fn lemma_change_flags_round_trip(
    c: ChangeElementFlags,
    c1: ChangeElementFlags,
    c2: ChangeElementFlags,
    m0: UmlModelView,
    m1: UmlModelView,
    m2: UmlModelView,
    r2: Result<(), CommandErrorView>,
)
    requires
        c.executes(c1, m0, m1, succeeded()),
        c1.undoes(c2, m1, m2, r2),
        (m0.elements[c.target()].base().is_abstract, m0.elements[c.target()].base().is_static)
            == c.previous(),
    ensures
        r2 == succeeded(),
        m2 == m0,
        c2 == c,
        forall|c3: ChangeElementFlags, m3: UmlModelView, r3: Result<(), CommandErrorView>|
            c2.executes(c3, m2, m3, r3) ==> m3 == m1 && r3 == succeeded(),
{
    let id = c.element_id;
    let b = ElementBaseView {
        is_abstract: c.is_abstract,
        is_static: c.is_static,
        ..m0.elements[id].base()
    };
    lemma_with_base_id(m0.elements[id], b);
    assert(ElementBaseView { is_abstract: c.old_abstract, is_static: c.old_static, ..b }
        == m0.elements[id].base());
    lemma_base_restored(m0, id, b);
}

/// Undoing a successful documentation change restores the model when the
/// element still had the documentation recorded by the command.
#[verifier::rlimit(100)]
pub proof fn lemma_change_documentation_round_trip(
    c: ChangeDocumentation,
    c1: ChangeDocumentation,
    c2: ChangeDocumentation,
    m0: UmlModelView,
    m1: UmlModelView,
    m2: UmlModelView,
    r2: Result<(), CommandErrorView>,
)
    requires
        c.executes(c1, m0, m1, succeeded()),
        c1.undoes(c2, m1, m2, r2),
        m0.elements[c.target()].base().documentation == c.previous(),
    ensures
        r2 == succeeded(),
        m2 == m0,
        c2 == c,
        forall|c3: ChangeDocumentation, m3: UmlModelView, r3: Result<(), CommandErrorView>|
            c2.executes(c3, m2, m3, r3) ==> m3 == m1 && r3 == succeeded(),
{
    let id = c.element_id;
    let b = ElementBaseView { documentation: c.new_documentation@, ..m0.elements[id].base() };
    lemma_with_base_id(m0.elements[id], b);
    assert(ElementBaseView { documentation: c.old_documentation@, ..b } == m0.elements[id].base());
    lemma_base_restored(m0, id, b);
}

/// Undoing a successful `CreateDiagram` removes the diagram it inserted and
/// gives back the model it ran on; executing it again inserts the same
/// diagram at the same position.
#[verifier::rlimit(100)]
pub proof fn lemma_create_diagram_round_trip(
    c: CreateDiagram,
    c1: CreateDiagram,
    c2: CreateDiagram,
    m0: UmlModelView,
    m1: UmlModelView,
    m2: UmlModelView,
    r2: Result<(), CommandErrorView>,
)
    requires
        c.executes(c1, m0, m1, succeeded()),
        c1.undoes(c2, m1, m2, r2),
    ensures
        r2 == succeeded(),
        m2 == m0,
        c2.snapshot() == c.snapshot(),
        forall|c3: CreateDiagram, m3: UmlModelView, r3: Result<(), CommandErrorView>|
            c2.executes(c3, m2, m3, r3) ==> m3 == m1 && r3 == succeeded(),
{
    assert(m1.diagrams[c.position as int] == c.diagram@);
    assert(m2.diagrams =~= m0.diagrams);
}

/// Undoing a successful `UpdateRelationship` puts the previous relationship
/// back; executing it again installs the update once more.
#[verifier::rlimit(100)]
pub proof fn lemma_update_relationship_round_trip(
    c: UpdateRelationship,
    c1: UpdateRelationship,
    c2: UpdateRelationship,
    m0: UmlModelView,
    m1: UmlModelView,
    m2: UmlModelView,
    r2: Result<(), CommandErrorView>,
)
    requires
        c.inv(),
        c.executes(c1, m0, m1, succeeded()),
        c1.undoes(c2, m1, m2, r2),
    ensures
        r2 == succeeded(),
        m2 == m0,
        c2 == c,
        forall|c3: UpdateRelationship, m3: UmlModelView, r3: Result<(), CommandErrorView>|
            c2.executes(c3, m2, m3, r3) ==> m3 == m1 && r3 == succeeded(),
{
    let id = c.relationship_id;
    assert(m1.elements[id] == ModelElementView::Relationship(c.new@));
    assert(m2.elements =~= m0.elements);
}

/// Replacing classifier data and then putting the original data back gives
/// the element back; the element keeps its id.
proof fn lemma_classifier_restored(e: ModelElementView, c: ClassifierDataView)
    requires
        e.classifier() is Some,
    ensures
        e.with_classifier(c).classifier() == Some(c),
        e.with_classifier(c).with_classifier(e.classifier()->0) == e,
        e.with_classifier(c).id() == e.id(),
{
    lemma_with_classifier_base(e, c);
}

/// Undoing a successful `UpdateClassifierFeatures` puts the previous
/// attributes and operations back; executing it again installs the update
/// once more.
#[verifier::rlimit(100)]
pub proof fn lemma_update_classifier_round_trip(
    c: UpdateClassifierFeatures,
    c1: UpdateClassifierFeatures,
    c2: UpdateClassifierFeatures,
    m0: UmlModelView,
    m1: UmlModelView,
    m2: UmlModelView,
    r2: Result<(), CommandErrorView>,
)
    requires
        model_valid(m0),
        c.executes(c1, m0, m1, succeeded()),
        c1.undoes(c2, m1, m2, r2),
    ensures
        r2 == succeeded(),
        m2 == m0,
        c2 == c,
        forall|c3: UpdateClassifierFeatures, m3: UmlModelView, r3: Result<(), CommandErrorView>|
            c2.executes(c3, m2, m3, r3) ==> m3 == m1 && r3 == succeeded(),
{
    let id = c.element_id;
    let e = m0.elements[id];
    lemma_classifier_restored(e, c.new@);
    assert(m1.elements[id] == e.with_classifier(c.new@));
    assert(m2.elements =~= m0.elements);
}

/// What a successful execute of `CreateElementWithNode` did.
proof fn lemma_create_with_node_executed(
    c: CreateElementWithNode,
    c1: CreateElementWithNode,
    m0: UmlModelView,
    m1: UmlModelView,
)
    requires
        c.inv(),
        c.executes(c1, m0, m1, succeeded()),
    ensures
        c.element is Some,
        c.element->0@.id() == c.element_id,
        !m0.elements.contains_key(c.element_id),
        diagram_index(m0.diagrams, c.diagram_id) is Some,
        !has_key(m0.diagrams[diagram_index(m0.diagrams, c.diagram_id)->0].nodes, c.element_id.value),
        c1 == (CreateElementWithNode { element: None, ..c }),
        m1 == with_diagram_replaced(
            with_element(m0, c.element->0@),
            diagram_index(m0.diagrams, c.diagram_id)->0,
            with_node(
                m0.diagrams[diagram_index(m0.diagrams, c.diagram_id)->0],
                c.element_id,
                placed_node(c.element_id, c.position, c.size),
            ),
        ),
{
}

/// What a successful undo of `CreateElementWithNode` did.
proof fn lemma_create_with_node_undo_step(
    c1: CreateElementWithNode,
    c2: CreateElementWithNode,
    m1: UmlModelView,
    m2: UmlModelView,
    r2: Result<(), CommandErrorView>,
    i: int,
)
    requires
        c1.undoes(c2, m1, m2, r2),
        diagram_index(m1.diagrams, c1.diagram_id) == Some(i),
        has_key(m1.diagrams[i].nodes, c1.element_id.value),
        m1.elements.contains_key(c1.element_id),
    ensures
        r2 == succeeded(),
        m2 == without_element(
            with_diagram_replaced(m1, i, without_node(m1.diagrams[i], c1.element_id)),
            c1.element_id,
        ),
        opt_elem(c2.element) == Some(m1.elements[c1.element_id]),
        c2 == (CreateElementWithNode { element: c2.element, ..c1 }),
{
}

/// Inserting an absent key and removing it again gives the map back.
proof fn lemma_insert_remove_absent<K, V>(m: Map<K, V>, k: K, v: V)
    requires
        !m.contains_key(k),
    ensures
        m.insert(k, v).remove(k) == m,
{
    assert(m.insert(k, v).remove(k) =~= m);
}

/// Adding an element and its node, then removing both, gives the model back.
proof fn lemma_element_and_node_restored(
    m0: UmlModelView,
    m1: UmlModelView,
    e: ModelElementView,
    did: DiagramId,
    id: UmlId,
    n: ViewNode,
    i: int,
)
    requires
        diagram_index(m0.diagrams, did) == Some(i),
        !m0.elements.contains_key(id),
        e.id() == id,
        !has_key(m0.diagrams[i].nodes, id.value),
        m1 == with_diagram_replaced(with_element(m0, e), i, with_node(m0.diagrams[i], id, n)),
    ensures
        diagram_index(m1.diagrams, did) == Some(i),
        has_key(m1.diagrams[i].nodes, id.value),
        m1.elements.contains_key(id),
        m1.elements[id] == e,
        without_element(with_diagram_replaced(m1, i, without_node(m1.diagrams[i], id)), id) == m0,
{
    lemma_diagram_index(m0.diagrams, did);
    let s = m0.diagrams;
    let d = s[i];
    let nd = with_node(d, id, n);
    assert(m1.diagrams == s.update(i, nd));
    lemma_diagram_index_update(s, i, nd, did);
    assert(m1.diagrams[i] == nd);
    let t = d.nodes.push((id.value, n));
    assert(t[d.nodes.len() as int].0 == id.value);
    assert(nd.nodes == t);
    lemma_removed_inserted(d.nodes, id.value, n);
    assert(removed(t, id.value) == d.nodes);
    assert(without_node(nd, id) == d);
    assert(s.update(i, nd).update(i, d) =~= s);
    let m2 = without_element(with_diagram_replaced(m1, i, without_node(m1.diagrams[i], id)), id);
    assert(m2.diagrams == s.update(i, nd).update(i, d));
    lemma_insert_remove_absent(m0.elements, id, e);
    assert(m2.elements == m0.elements.insert(id, e).remove(id));
}

/// The model after undoing a successful `CreateElementWithNode` is the one
/// it ran on.
proof fn lemma_create_with_node_undone(
    c: CreateElementWithNode,
    c1: CreateElementWithNode,
    c2: CreateElementWithNode,
    m0: UmlModelView,
    m1: UmlModelView,
    m2: UmlModelView,
    r2: Result<(), CommandErrorView>,
)
    requires
        c.inv(),
        c.executes(c1, m0, m1, succeeded()),
        c1.undoes(c2, m1, m2, r2),
    ensures
        r2 == succeeded(),
        m2 == m0,
        c2.held() == c.held(),
        c2 == (CreateElementWithNode { element: c2.element, ..c }),
        c.element is Some,
{
    lemma_create_with_node_executed(c, c1, m0, m1);
    let i = diagram_index(m0.diagrams, c.diagram_id)->0;
    lemma_element_and_node_restored(
        m0,
        m1,
        c.element->0@,
        c.diagram_id,
        c.element_id,
        placed_node(c.element_id, c.position, c.size),
        i,
    );
    lemma_create_with_node_undo_step(c1, c2, m1, m2, r2, i);
}

/// Undoing a successful `CreateElementWithNode` removes the node and the
/// element and gives back the model it ran on; executing it again creates
/// both once more.
#[verifier::rlimit(100)]
pub proof fn lemma_create_with_node_round_trip(
    c: CreateElementWithNode,
    c1: CreateElementWithNode,
    c2: CreateElementWithNode,
    m0: UmlModelView,
    m1: UmlModelView,
    m2: UmlModelView,
    r2: Result<(), CommandErrorView>,
)
    requires
        c.inv(),
        c.executes(c1, m0, m1, succeeded()),
        c1.undoes(c2, m1, m2, r2),
    ensures
        r2 == succeeded(),
        m2 == m0,
        c2.held() == c.held(),
        forall|c3: CreateElementWithNode, m3: UmlModelView, r3: Result<(), CommandErrorView>|
            c2.executes(c3, m2, m3, r3) ==> m3 == m1 && r3 == succeeded(),
{
    lemma_create_with_node_undone(c, c1, c2, m0, m1, m2, r2);
    assert forall|c3: CreateElementWithNode, m3: UmlModelView, r3: Result<(), CommandErrorView>|
        c2.executes(c3, m2, m3, r3) implies m3 == m1 && r3 == succeeded() by {
        assert(c2.element->0@ == c.element->0@);
    }
}

/// Undoing `AddNodeToDiagram` gives back the model it ran on when the diagram
/// had no node for the element before; executing it again adds the node once
/// more.
#[verifier::rlimit(100)]
pub proof fn lemma_add_node_round_trip(
    c: AddNodeToDiagram,
    c1: AddNodeToDiagram,
    c2: AddNodeToDiagram,
    m0: UmlModelView,
    m1: UmlModelView,
    m2: UmlModelView,
    r2: Result<(), CommandErrorView>,
)
    requires
        c.executes(c1, m0, m1, succeeded()),
        c1.undoes(c2, m1, m2, r2),
        found_node(m0, c.diagram(), c.target()) is None,
    ensures
        r2 == succeeded(),
        m2 == m0,
        c2 == c,
        forall|c3: AddNodeToDiagram, m3: UmlModelView, r3: Result<(), CommandErrorView>|
            c2.executes(c3, m2, m3, r3) ==> m3 == m1 && r3 == succeeded(),
{
    let id = c.element_id;
    let i = diagram_index(m0.diagrams, c.diagram_id)->0;
    lemma_diagram_index(m0.diagrams, c.diagram_id);
    let d = m0.diagrams[i];
    let n = placed_node(id, c.position, c.size);
    let nd = with_node(d, id, n);
    lemma_diagram_index_update(m0.diagrams, i, nd, c.diagram_id);
    assert(m1.diagrams[i] == nd);
    lemma_removed_inserted(d.nodes, id.value, n);
    assert(without_node(nd, id) == d);
    assert(m2.diagrams =~= m0.diagrams);
}

/// Redoing a node addition after its undo succeeds and gives the model of
/// the first execution when the diagram had no node for the element or had
/// it last: the execution put the node last, the undo took it out, and the
/// second execution puts it last again.
pub proof fn lemma_add_node_redo_after_undo(
    c: AddNodeToDiagram,
    c1: AddNodeToDiagram,
    c2: AddNodeToDiagram,
    m0: UmlModelView,
    m1: UmlModelView,
    m2: UmlModelView,
    r2: Result<(), CommandErrorView>,
)
    requires
        model_valid(m0),
        c.executes(c1, m0, m1, succeeded()),
        c1.undoes(c2, m1, m2, r2),
        match diagram_index(m0.diagrams, c.diagram()) {
            Some(i) => has_key(m0.diagrams[i].nodes, c.target().value) ==> m0.diagrams[i].nodes.last().0
                == c.target().value,
            None => true,
        },
    ensures
        r2 == succeeded(),
        forall|c3: AddNodeToDiagram, m3: UmlModelView, r3: Result<(), CommandErrorView>|
            #[trigger] c2.executes(c3, m2, m3, r3) ==> m3 == m1 && r3 == succeeded(),
{
    let id = c.element_id;
    let key = id.value;
    let i = diagram_index(m0.diagrams, c.diagram_id)->0;
    lemma_diagram_index(m0.diagrams, c.diagram_id);
    let d = m0.diagrams[i];
    if !has_key(d.nodes, key) {
        assert(found_node(m0, c.diagram(), c.target()) is None);
        lemma_add_node_round_trip(c, c1, c2, m0, m1, m2, r2);
    } else {
        assert(keys_unique(d.nodes));
        let n = placed_node(id, c.position, c.size);
        let d1 = with_node(d, id, n);
        lemma_in_place(d.nodes, key, n);
        let k = key_index(d.nodes, key);
        assert(d.nodes[d.nodes.len() - 1].0 == key);
        assert(k == d.nodes.len() - 1);
        assert(d1.nodes.last().0 == key);
        lemma_diagram_index_update(m0.diagrams, i, d1, c.diagram_id);
        assert(m1.diagrams[i] == d1);
        lemma_inserted_removed_last(d1.nodes, key);
        assert(d1.nodes.last().1 == n);
        let d2 = without_node(d1, id);
        lemma_diagram_index_update(m1.diagrams, i, d2, c.diagram_id);
        assert(m2.diagrams[i] == d2);
        assert forall|c3: AddNodeToDiagram, m3: UmlModelView, r3: Result<(), CommandErrorView>|
            #[trigger] c2.executes(c3, m2, m3, r3) implies m3 == m1 && r3 == succeeded() by {
            assert(with_node(d2, id, n) == d1);
            assert(m3.diagrams =~= m1.diagrams);
        }
    }
}

/// Putting back the last entry that a removal took out gives the entries back.
pub proof fn lemma_inserted_removed_last<V>(s: Seq<(u128, V)>, key: u128)
    requires
        keys_unique(s),
        s.len() > 0,
        s.last().0 == key,
    ensures
        lookup(s, key) == Some(s.last().1),
        inserted(removed(s, key), key, s.last().1) == s,
{
    let l = s.len() - 1;
    assert(s[l].0 == key);
    let k = key_index(s, key);
    assert(0 <= k < s.len() && s[k].0 == key);
    assert(k == l);
    let t = s.remove(l);
    assert(t =~= s.drop_last());
    if has_key(t, key) {
        let j = choose|j: int| 0 <= j < t.len() && t[j].0 == key;
        assert(s[j].0 == key);
    }
    assert(t.push((key, s.last().1)) =~= s);
}

/// Removing a diagram's last node and adding it back gives the model back;
/// removing a node the diagram does not have changes nothing.
proof fn lemma_node_removed_and_restored(m0: UmlModelView, did: DiagramId, id: UmlId, i: int)
    requires
        diagram_index(m0.diagrams, did) == Some(i),
        keys_unique(m0.diagrams[i].nodes),
        has_key(m0.diagrams[i].nodes, id.value) ==> m0.diagrams[i].nodes.last().0 == id.value,
    ensures
        ({
            let d = m0.diagrams[i];
            let m1 = with_diagram_replaced(m0, i, without_node(d, id));
            &&& diagram_index(m1.diagrams, did) == Some(i)
            &&& m1.diagrams[i] == without_node(d, id)
            &&& match lookup(d.nodes, id.value) {
                Some(n) => with_diagram_replaced(m1, i, with_node(m1.diagrams[i], id, n)) == m0,
                None => m1 == m0,
            }
        }),
{
    lemma_diagram_index(m0.diagrams, did);
    let d = m0.diagrams[i];
    let nd = without_node(d, id);
    let m1 = with_diagram_replaced(m0, i, nd);
    lemma_diagram_index_update(m0.diagrams, i, nd, did);
    assert(m1.diagrams[i] == nd);
    if has_key(d.nodes, id.value) {
        assert(d.nodes.len() > 0);
        lemma_inserted_removed_last(d.nodes, id.value);
        assert(with_node(nd, id, d.nodes.last().1) == d);
        assert(m1.diagrams.update(i, d) =~= m0.diagrams);
    } else {
        assert(nd == d);
        assert(m1.diagrams =~= m0.diagrams);
    }
}

/// Undoing `RemoveNodeFromDiagram` gives back the model it ran on when the
/// removed node was the diagram's last node (the node comes back at the end);
/// executing it again removes the node once more.
#[verifier::rlimit(100)]
pub proof fn lemma_remove_node_round_trip(
    c: RemoveNodeFromDiagram,
    c1: RemoveNodeFromDiagram,
    c2: RemoveNodeFromDiagram,
    m0: UmlModelView,
    m1: UmlModelView,
    m2: UmlModelView,
    r2: Result<(), CommandErrorView>,
)
    requires
        model_valid(m0),
        c.executes(c1, m0, m1, succeeded()),
        c1.undoes(c2, m1, m2, r2),
        match diagram_index(m0.diagrams, c.diagram()) {
            Some(i) => has_key(m0.diagrams[i].nodes, c.target().value) ==> m0.diagrams[i].nodes.last().0
                == c.target().value,
            None => true,
        },
    ensures
        r2 == succeeded(),
        m2 == m0,
        forall|c3: RemoveNodeFromDiagram, m3: UmlModelView, r3: Result<(), CommandErrorView>|
            c2.executes(c3, m2, m3, r3) ==> m3 == m1 && r3 == succeeded(),
{
    let i = diagram_index(m0.diagrams, c.diagram_id)->0;
    lemma_diagram_index(m0.diagrams, c.diagram_id);
    assert(keys_unique(m0.diagrams[i].nodes));
    lemma_node_removed_and_restored(m0, c.diagram_id, c.element_id, i);
}

/// Replacing a node in place and then putting the original node back gives
/// the diagram back.
proof fn lemma_node_restored(d: DiagramView, id: UmlId, n: ViewNode)
    requires
        keys_unique(d.nodes),
        has_key(d.nodes, id.value),
    ensures
        lookup(with_node_in_place(d, id, n).nodes, id.value) == Some(n),
        has_key(with_node_in_place(d, id, n).nodes, id.value),
        keys_unique(with_node_in_place(d, id, n).nodes),
        with_node_in_place(with_node_in_place(d, id, n), id, lookup(d.nodes, id.value)->0) == d,
{
    lemma_in_place(d.nodes, id.value, n);
    let k = key_index(d.nodes, id.value);
    assert(d.nodes[k].0 == id.value);
    assert(d.nodes.update(k, (id.value, n)).update(k, (id.value, d.nodes[k].1)) =~= d.nodes);
}

/// Undoing a successful `MoveNode` puts the node back where it was; executing
/// it again moves it to the destination once more.
#[verifier::rlimit(100)]
pub proof fn lemma_move_node_round_trip(
    c: MoveNode,
    c1: MoveNode,
    c2: MoveNode,
    m0: UmlModelView,
    m1: UmlModelView,
    m2: UmlModelView,
    r2: Result<(), CommandErrorView>,
)
    requires
        model_valid(m0),
        c.executes(c1, m0, m1, succeeded()),
        c1.undoes(c2, m1, m2, r2),
    ensures
        r2 == succeeded(),
        m2 == m0,
        forall|c3: MoveNode, m3: UmlModelView, r3: Result<(), CommandErrorView>|
            c2.executes(c3, m2, m3, r3) ==> m3 == m1 && r3 == succeeded(),
{
    let id = c.element_id;
    let i = diagram_index(m0.diagrams, c.diagram_id)->0;
    lemma_diagram_index(m0.diagrams, c.diagram_id);
    let d = m0.diagrams[i];
    assert(keys_unique(d.nodes));
    let n = lookup(d.nodes, id.value)->0;
    let moved = moved_to(c.new_position)(n);
    let nd = with_node_in_place(d, id, moved);
    lemma_diagram_index_update(m0.diagrams, i, nd, c.diagram_id);
    lemma_node_restored(d, id, moved);
    assert(m1.diagrams[i] == nd);
    assert(moved_to(n.bounds.origin)(moved) == n);
    assert(m2.diagrams =~= m0.diagrams);
}

/// Undoing a successful `ResizeNode` gives the node its size back; executing
/// it again resizes it once more.
#[verifier::rlimit(100)]
pub proof fn lemma_resize_node_round_trip(
    c: ResizeNode,
    c1: ResizeNode,
    c2: ResizeNode,
    m0: UmlModelView,
    m1: UmlModelView,
    m2: UmlModelView,
    r2: Result<(), CommandErrorView>,
)
    requires
        model_valid(m0),
        c.executes(c1, m0, m1, succeeded()),
        c1.undoes(c2, m1, m2, r2),
    ensures
        r2 == succeeded(),
        m2 == m0,
        forall|c3: ResizeNode, m3: UmlModelView, r3: Result<(), CommandErrorView>|
            c2.executes(c3, m2, m3, r3) ==> m3 == m1 && r3 == succeeded(),
{
    let id = c.element_id;
    let i = diagram_index(m0.diagrams, c.diagram_id)->0;
    lemma_diagram_index(m0.diagrams, c.diagram_id);
    let d = m0.diagrams[i];
    assert(keys_unique(d.nodes));
    let n = lookup(d.nodes, id.value)->0;
    let resized = resized_to(c.new_size)(n);
    let nd = with_node_in_place(d, id, resized);
    lemma_diagram_index_update(m0.diagrams, i, nd, c.diagram_id);
    lemma_node_restored(d, id, resized);
    assert(m1.diagrams[i] == nd);
    assert(resized_to(n.bounds.size)(resized) == n);
    assert(m2.diagrams =~= m0.diagrams);
}

/// The model after undoing a successful `CreateEdge` is the one it ran on,
/// when neither id was in use.
#[verifier::rlimit(100)]
proof fn lemma_create_edge_undone(
    c: CreateEdge,
    c1: CreateEdge,
    c2: CreateEdge,
    m0: UmlModelView,
    m1: UmlModelView,
    m2: UmlModelView,
    r2: Result<(), CommandErrorView>,
)
    requires
        c.inv(),
        c.executes(c1, m0, m1, succeeded()),
        c1.undoes(c2, m1, m2, r2),
        !m0.elements.contains_key(c.relationship()),
        match diagram_index(m0.diagrams, c.diagram()) {
            Some(i) => !has_key(m0.diagrams[i].edges, c.edge().value),
            None => true,
        },
    ensures
        r2 == succeeded(),
        m2 == m0,
        c2.held() == c.held(),
        c2 == (CreateEdge { relationship_element: c2.relationship_element, ..c }),
        c.relationship_element is Some,
{
    let rel = c.relationship_element->0;
    let ma = with_element(m0, rel@);
    assert(ma.diagrams == m0.diagrams);
    let i = diagram_index(m0.diagrams, c.diagram_id)->0;
    lemma_diagram_index(m0.diagrams, c.diagram_id);
    let d = m0.diagrams[i];
    let e = direct_edge(c.relationship_id, c.source_node_id, c.target_node_id);
    let nd = with_edge(d, c.edge_id, e);
    assert(m1 == with_diagram_replaced(ma, i, nd));
    lemma_diagram_index_update(m0.diagrams, i, nd, c.diagram_id);
    assert(m1.diagrams == m0.diagrams.update(i, nd));
    assert(diagram_index(m1.diagrams, c.diagram_id) == Some(i));
    assert(m1.diagrams[i] == nd);
    lemma_removed_inserted(d.edges, c.edge_id.value, e);
    assert(without_edge(nd, c.edge_id) == d);
    let mm = with_diagram_replaced(m1, i, without_edge(nd, c.edge_id));
    assert(mm.diagrams =~= m0.diagrams);
    assert(mm.elements.contains_key(c.relationship_id));
    assert(m2 == without_element(mm, c.relationship_id));
    assert(m2.diagrams =~= m0.diagrams);
    assert(m2.elements =~= m0.elements);
}

/// Undoing a successful `CreateEdge` removes the edge and the relationship
/// and gives back the model it ran on, when neither id was in use; executing
/// it again creates both once more.
#[verifier::rlimit(100)]
pub proof fn lemma_create_edge_round_trip(
    c: CreateEdge,
    c1: CreateEdge,
    c2: CreateEdge,
    m0: UmlModelView,
    m1: UmlModelView,
    m2: UmlModelView,
    r2: Result<(), CommandErrorView>,
)
    requires
        c.inv(),
        c.executes(c1, m0, m1, succeeded()),
        c1.undoes(c2, m1, m2, r2),
        !m0.elements.contains_key(c.relationship()),
        match diagram_index(m0.diagrams, c.diagram()) {
            Some(i) => !has_key(m0.diagrams[i].edges, c.edge().value),
            None => true,
        },
    ensures
        r2 == succeeded(),
        m2 == m0,
        c2.held() == c.held(),
        forall|c3: CreateEdge, m3: UmlModelView, r3: Result<(), CommandErrorView>|
            c2.executes(c3, m2, m3, r3) ==> m3 == m1 && r3 == succeeded(),
{
    lemma_create_edge_undone(c, c1, c2, m0, m1, m2, r2);
    assert forall|c3: CreateEdge, m3: UmlModelView, r3: Result<(), CommandErrorView>|
        c2.executes(c3, m2, m3, r3) implies m3 == m1 && r3 == succeeded() by {
        assert(c2.relationship_element->0@ == c.relationship_element->0@);
    }
}

/// Removing the first occurrence of an id just appended to a list without
/// it gives the list back.
proof fn lemma_remove_first_pushed(s: Seq<UmlId>, x: UmlId)
    requires
        !s.contains(x),
    ensures
        remove_first(s.push(x), x) == s,
{
    let t = s.push(x);
    let n = s.len() as int;
    assert(t[n] == x);
    assert forall|j: int| 0 <= j < n implies t[j] != x by {
        assert(t[j] == s[j]);
        if s[j] == x {
            assert(s.contains(x));
        }
    }
    assert(t.contains(x));
    let c = choose|k: int| 0 <= k < t.len() && t[k] == x && forall|j: int| 0 <= j < k ==> t[j] != x;
    assert(0 <= c < t.len() && t[c] == x && forall|j: int| 0 <= j < c ==> t[j] != x) by {
        assert(0 <= n < t.len() && t[n] == x && forall|j: int| 0 <= j < n ==> t[j] != x);
    }
    if c < n {
        assert(t[c] != x);
    }
    assert(first_index_of(t, x) == Some(n));
    assert(t.remove(n) =~= s);
}

/// When undoing a successful move gives the model back: the element is in
/// the model and its parent entry lists exactly the source package (or
/// nothing); the source package is a package that holds the element once,
/// as its last child; and a different destination does not hold it yet.
pub open spec fn move_reverts(m: UmlModelView, a: UmlId, from: Option<UmlId>, to: Option<UmlId>) -> bool {
    &&& m.elements.contains_key(a)
    &&& m.parents.contains_key(a)
    &&& m.parents[a] == match from {
        Some(p) => seq![p],
        None => Seq::<UmlId>::empty(),
    }
    &&& match from {
        Some(p) => {
            &&& m.elements.contains_key(p)
            &&& m.elements[p] is Package
            &&& m.elements[p]->Package_0.children.len() > 0
            &&& m.elements[p]->Package_0.children.last() == a
            &&& !m.elements[p]->Package_0.children.drop_last().contains(a)
        },
        None => true,
    }
    &&& match to {
        Some(q) => from != Some(q) && m.elements.contains_key(q) && m.elements[q] is Package
            ==> !m.elements[q]->Package_0.children.contains(a),
        None => true,
    }
}

/// Taking the element out of its source package and putting it back gives
/// the model back.
proof fn lemma_move_back_into_source(m: UmlModelView, a: UmlId, p: UmlId)
    requires
        move_reverts(m, a, Some(p), None),
    ensures
        package_add_result(removed_from_package(m, p, a), p, a) is Ok,
        added_to_package(removed_from_package(m, p, a), p, a) == m,
        removed_from_package(m, p, a).elements.contains_key(a),
        removed_from_package(m, p, a).parents.contains_key(a),
        removed_from_package(m, p, a).parents[a] == Seq::<UmlId>::empty(),
{
    let c = m.elements[p]->Package_0.children;
    lemma_remove_first_pushed(c.drop_last(), a);
    assert(c.drop_last().push(a) =~= c);
    lemma_remove_first_pushed(Seq::<UmlId>::empty(), p);
    assert(Seq::<UmlId>::empty().push(p) =~= seq![p]);
    let ma = removed_from_package(m, p, a);
    let mb = added_to_package(ma, p, a);
    assert(ma.elements[p]->Package_0.children == c.drop_last());
    assert(mb.elements =~= m.elements) by {
        assert(mb.elements[p] == m.elements[p]);
    }
    assert(mb.parents =~= m.parents);
}

/// Putting the element into a package that does not hold it and taking it
/// out again gives the model back, when its parent entry is empty.
proof fn lemma_move_out_of_destination(m: UmlModelView, a: UmlId, q: UmlId)
    requires
        m.elements.contains_key(q),
        m.elements[q] is Package,
        !m.elements[q]->Package_0.children.contains(a),
        m.parents.contains_key(a),
        m.parents[a] == Seq::<UmlId>::empty(),
    ensures
        removed_from_package(added_to_package(m, q, a), q, a) == m,
{
    let c = m.elements[q]->Package_0.children;
    lemma_remove_first_pushed(c, a);
    lemma_remove_first_pushed(Seq::<UmlId>::empty(), q);
    let m1 = added_to_package(m, q, a);
    let m2 = removed_from_package(m1, q, a);
    assert(m1.parents[a] =~= seq![q]);
    assert(m2.elements =~= m.elements) by {
        assert(m2.elements[q] == m.elements[q]);
    }
    assert(m2.parents =~= m.parents);
}

/// When executing a move again right after its undo gives the model of the
/// first execution: once taken out of its source, the element has a parent
/// entry, and neither the source nor the destination lists it, nor its entry
/// them (so it stood at most once in each).
pub open spec fn move_redoes(m: UmlModelView, a: UmlId, from: Option<UmlId>, to: Option<UmlId>) -> bool {
    let x = taken_out(m, from, a);
    &&& x.parents.contains_key(a)
    &&& match from {
        Some(p) => {
            &&& x.elements.contains_key(p) && x.elements[p] is Package ==> !x.elements[p]->Package_0.children.contains(a)
            &&& !x.parents[a].contains(p)
        },
        None => true,
    }
    &&& match to {
        Some(q) => {
            &&& x.elements.contains_key(q) && x.elements[q] is Package ==> !x.elements[q]->Package_0.children.contains(a)
            &&& !x.parents[a].contains(q)
        },
        None => true,
    }
}

/// Putting an element into a package that does not list it, and whose
/// parent entry does not list the package, and taking it out again gives
/// the model back.
proof fn lemma_added_then_removed(m: UmlModelView, q: UmlId, a: UmlId)
    requires
        m.elements.contains_key(q),
        m.elements[q] is Package,
        !m.elements[q]->Package_0.children.contains(a),
        m.parents.contains_key(a),
        !m.parents[a].contains(q),
    ensures
        removed_from_package(added_to_package(m, q, a), q, a) == m,
{
    let c = m.elements[q]->Package_0.children;
    lemma_remove_first_pushed(c, a);
    lemma_remove_first_pushed(m.parents[a], q);
    let m1 = added_to_package(m, q, a);
    let m2 = removed_from_package(m1, q, a);
    assert(m2.elements =~= m.elements) by {
        assert(m2.elements[q] == m.elements[q]);
    }
    assert(m2.parents =~= m.parents);
}

/// Redoing a move after its undo succeeds and gives the model of the first
/// execution when `move_redoes` holds: the undo takes the element out of
/// the destination and puts it back as the source's last child, and the
/// second execution takes it out of the source and puts it in the
/// destination as the first did.
#[verifier::rlimit(50)]
pub proof fn lemma_move_element_redo_after_undo(
    c: MoveElement,
    c1: MoveElement,
    c2: MoveElement,
    m0: UmlModelView,
    m1: UmlModelView,
    m2: UmlModelView,
)
    requires
        c.executes(c1, m0, m1, succeeded()),
        c1.undoes(c2, m1, m2, succeeded()),
        move_redoes(m0, c.target(), c.source(), c.destination()),
    ensures
        forall|c3: MoveElement, m3: UmlModelView, r3: Result<(), CommandErrorView>|
            #[trigger] c2.executes(c3, m2, m3, r3) ==> m3 == m1 && r3 == succeeded(),
{
    let a = c.element_id;
    let x = taken_out(m0, c.from_package, a);
    match c.to_package {
        Some(q) => {
            assert(package_add_result(x, q, a) is Ok);
            lemma_added_then_removed(x, q, a);
        },
        None => {},
    }
    assert(taken_out(m1, c.to_package, a) == x);
    match c.from_package {
        Some(p) => {
            assert(package_add_result(x, p, a) is Ok);
            lemma_added_then_removed(x, p, a);
        },
        None => {},
    }
    assert(taken_out(m2, c.from_package, a) == x);
}

/// Undoing a successful `MoveElement` gives back the model it ran on, when
/// `move_reverts` holds of it; executing it again moves the element once more.
#[verifier::rlimit(50)]
pub proof fn lemma_move_element_round_trip(
    c: MoveElement,
    c1: MoveElement,
    c2: MoveElement,
    m0: UmlModelView,
    m1: UmlModelView,
    m2: UmlModelView,
    r2: Result<(), CommandErrorView>,
)
    requires
        c.executes(c1, m0, m1, succeeded()),
        c1.undoes(c2, m1, m2, r2),
        move_reverts(m0, c.target(), c.source(), c.destination()),
    ensures
        r2 == succeeded(),
        m2 == m0,
        c2 == c,
        forall|c3: MoveElement, m3: UmlModelView, r3: Result<(), CommandErrorView>|
            c2.executes(c3, m2, m3, r3) ==> m3 == m1 && r3 == succeeded(),
{
    let a = c.element_id;
    match (c.from_package, c.to_package) {
        (Some(p), Some(q)) => {
            if p == q {
                lemma_move_back_into_source(m0, a, p);
                let ma = removed_from_package(m0, p, a);
                assert(m1 == m0);
                assert(taken_out(m1, c.to_package, a) == ma);
                assert(m2 == m0);
            } else {
                let ma = removed_from_package(m0, p, a);
                assert(ma.elements[q] == m0.elements[q]);
                assert(m1 == added_to_package(ma, q, a));
                lemma_move_back_into_source(m0, a, p);
                lemma_move_out_of_destination(ma, a, q);
                assert(removed_from_package(m1, q, a) == ma);
                assert(m2 == m0);
            }
        },
        (Some(p), None) => {
            lemma_move_back_into_source(m0, a, p);
        },
        (None, Some(q)) => {
            lemma_move_out_of_destination(m0, a, q);
        },
        (None, None) => {},
    }
}


// ─── What the commands do, over their public accessors ───────────────

/// Executing a diagram creation: a fresh command inserts its diagram at its
/// position unless an insertion error applies (then it refuses with that
/// error); a command already executed refuses. The diagram and position
/// stay with the command.
pub proof fn lemma_create_diagram_executes(
    c: CreateDiagram,
    after: CreateDiagram,
    before: UmlModelView,
    m1: UmlModelView,
    r: Result<(), CommandErrorView>,
)
    requires
        c.executes(after, before, m1, r),
    ensures
        after.position() == c.position(),
        after.snapshot() == c.snapshot(),
        c.applied() ==> after.applied() && m1 == before && r == invalid("CreateDiagram already executed"@),
        !c.applied() ==> match diagram_insert_error(before, c.snapshot(), c.position()) {
            Some(msg) => !after.applied() && m1 == before && r == invalid(msg),
            None => after.applied() && m1 == with_diagram_at(before, c.position(), c.snapshot()) && r == succeeded(),
        },
{
}

/// Undoing a diagram creation: an executed command whose diagram is still at
/// its position removes it (keeping the diagram as it now is for a later
/// execute); otherwise the command refuses and nothing changes.
pub proof fn lemma_create_diagram_undoes(
    c: CreateDiagram,
    after: CreateDiagram,
    before: UmlModelView,
    m1: UmlModelView,
    r: Result<(), CommandErrorView>,
)
    requires
        c.undoes(after, before, m1, r),
    ensures
        after.position() == c.position(),
        !c.applied() ==> after == c && m1 == before && r == invalid("CreateDiagram has not been executed"@),
        c.applied() && c.position() >= before.diagrams.len() ==> after == c && m1 == before && r == invalid(
            "created diagram is missing"@,
        ),
        c.applied() && c.position() < before.diagrams.len() && before.diagrams[c.position()].id != c.snapshot().id
            ==> after == c && m1 == before && r == invalid("created diagram is not at its deterministic position"@),
        c.applied() && c.position() < before.diagrams.len() && before.diagrams[c.position()].id == c.snapshot().id
            ==> !after.applied() && after.snapshot() == before.diagrams[c.position()] && m1 == without_diagram_at(
            before,
            c.position(),
        ) && r == succeeded(),
{
}

/// Executing an edge creation: a command that holds its relationship adds
/// it to the model and draws its edge on its diagram (refusing, with the
/// relationship added, when the diagram is missing) and then holds nothing;
/// a command that holds nothing refuses.
pub proof fn lemma_create_edge_executes(
    c: CreateEdge,
    after: CreateEdge,
    before: UmlModelView,
    m1: UmlModelView,
    r: Result<(), CommandErrorView>,
)
    requires
        c.executes(after, before, m1, r),
    ensures
        after.relationship() == c.relationship(),
        after.edge() == c.edge(),
        after.diagram() == c.diagram(),
        after.drawn_edge() == c.drawn_edge(),
        after.held() is None,
        c.held() is None ==> m1 == before && r == invalid("CreateEdge already executed"@),
        c.held() is Some ==> {
            let w = with_element(before, c.held()->0);
            match diagram_index(w.diagrams, c.diagram()) {
                None => m1 == w && r == invalid("diagram not found"@),
                Some(i) => m1 == with_diagram_replaced(w, i, with_edge(w.diagrams[i], c.edge(), c.drawn_edge()))
                    && r == succeeded(),
            }
        },
{
}

/// Undoing an edge creation: the edge leaves its diagram (when the diagram
/// is there) and the relationship leaves the model; the command then holds
/// the relationship as it was, for a later execute. Without the
/// relationship in the model the command reports it missing.
pub proof fn lemma_create_edge_undoes(
    c: CreateEdge,
    after: CreateEdge,
    before: UmlModelView,
    m1: UmlModelView,
    r: Result<(), CommandErrorView>,
)
    requires
        c.undoes(after, before, m1, r),
    ensures
        after.relationship() == c.relationship(),
        after.edge() == c.edge(),
        after.diagram() == c.diagram(),
        after.drawn_edge() == c.drawn_edge(),
        ({
            let w = match diagram_index(before.diagrams, c.diagram()) {
                Some(i) => with_diagram_replaced(before, i, without_edge(before.diagrams[i], c.edge())),
                None => before,
            };
            &&& after.held() == (if w.elements.contains_key(c.relationship()) {
                Some(w.elements[c.relationship()])
            } else {
                None
            })
            &&& m1 == without_element(w, c.relationship())
            &&& r == (if w.elements.contains_key(c.relationship()) {
                succeeded()
            } else {
                not_found(c.relationship())
            })
        }),
{
}

/// Executing a classifier features update: a fresh command replaces the
/// features as `replaces_features` says and counts as executed when that
/// succeeds; a command already executed refuses.
pub proof fn lemma_update_classifier_executes(
    c: UpdateClassifierFeatures,
    after: UpdateClassifierFeatures,
    before: UmlModelView,
    m1: UmlModelView,
    r: Result<(), CommandErrorView>,
)
    requires
        c.executes(after, before, m1, r),
    ensures
        after.target() == c.target(),
        after.before_value() == c.before_value(),
        after.after_value() == c.after_value(),
        c.applied() ==> after == c && m1 == before && r == invalid("UpdateClassifierFeatures already executed"@),
        !c.applied() ==> replaces_features(c.target(), c.before_value(), c.after_value(), before, m1, r)
            && after.applied() == (r is Ok),
{
}

/// Undoing a classifier features update: an executed command puts the
/// earlier features back as `replaces_features` says and counts as not
/// executed when that succeeds; a command never executed refuses.
pub proof fn lemma_update_classifier_undoes(
    c: UpdateClassifierFeatures,
    after: UpdateClassifierFeatures,
    before: UmlModelView,
    m1: UmlModelView,
    r: Result<(), CommandErrorView>,
)
    requires
        c.undoes(after, before, m1, r),
    ensures
        after.target() == c.target(),
        after.before_value() == c.before_value(),
        after.after_value() == c.after_value(),
        !c.applied() ==> after == c && m1 == before && r == invalid("UpdateClassifierFeatures has not been executed"@),
        c.applied() ==> replaces_features(c.target(), c.after_value(), c.before_value(), before, m1, r)
            && after.applied() == !(r is Ok),
{
}


/// Undoing a diagram creation while the created diagram is still at its
/// position (and no other diagram has its id) takes that diagram out as it
/// now is, leaving the other diagrams in order; executing the command again
/// puts the same diagram back at the same position, so the list is as it
/// was when the creation was undone.
pub proof fn lemma_create_diagram_undo_redo(
    c0: CreateDiagram,
    c1: CreateDiagram,
    m0: UmlModelView,
    m1: UmlModelView,
    now: UmlModelView,
    c2: CreateDiagram,
    m2: UmlModelView,
    r2: Result<(), CommandErrorView>,
    c3: CreateDiagram,
    m3: UmlModelView,
    r3: Result<(), CommandErrorView>,
)
    requires
        c0.executes(c1, m0, m1, succeeded()),
        c0.position() < now.diagrams.len(),
        now.diagrams[c0.position()].id == c0.snapshot().id,
        forall|j: int| 0 <= j < now.diagrams.len() && j != c0.position() ==> now.diagrams[j].id != c0.snapshot().id,
        c1.undoes(c2, now, m2, r2),
        c2.executes(c3, m2, m3, r3),
    ensures
        r2 == succeeded(),
        m2 == without_diagram_at(now, c0.position()),
        c2.snapshot() == now.diagrams[c0.position()],
        r3 == succeeded(),
        m3 == with_diagram_at(m2, c0.position(), now.diagrams[c0.position()]),
        m3.diagrams == now.diagrams,
{
    lemma_create_diagram_executes(c0, c1, m0, m1, succeeded());
    if c0.applied() {
        assert(invalid("CreateDiagram already executed"@) != succeeded());
    }
    assert(c1.applied());
    lemma_create_diagram_undoes(c1, c2, now, m2, r2);
    let p = c0.position();
    let d = now.diagrams[p];
    lemma_create_diagram_executes(c2, c3, m2, m3, r3);
    assert(m2.diagrams =~= now.diagrams.remove(p));
    assert forall|k: int| 0 <= k < m2.diagrams.len() implies m2.diagrams[k].id != d.id by {
        if k < p {
            assert(m2.diagrams[k] == now.diagrams[k]);
        } else {
            assert(m2.diagrams[k] == now.diagrams[k + 1]);
        }
    }
    assert(diagram_index(m2.diagrams, d.id) is None);
    assert(diagram_insert_error(m2, d, p) is None);
    assert(m3.diagrams =~= now.diagrams);
}


/// A well-formed edge creation holds the relationship of its own id.
pub proof fn lemma_create_edge_holds_its_relationship(c: CreateEdge)
    requires
        c.inv(),
    ensures
        c.held() is Some ==> c.held()->0.id() == c.relationship(),
{
}


/// Executing a `RenameElement` edits the element's metadata as `edits_base` says, setting
/// its name to the command's replacement; the command is unchanged.
pub proof fn lemma_rename_executes(
    c: RenameElement,
    after: RenameElement,
    before: UmlModelView,
    m1: UmlModelView,
    r: Result<(), CommandErrorView>,
)
    requires
        c.executes(after, before, m1, r),
    ensures
        after == c,
        edits_base(
            c.target(),
            before,
            m1,
            r,
            ElementBaseView { name: c.replacement(), ..before.elements[c.target()].base() },
        ),
{
}

/// Undoing a `RenameElement` edits the element's metadata as `edits_base` says, setting
/// its name to the command's previous value; the command is unchanged.
pub proof fn lemma_rename_undoes(
    c: RenameElement,
    after: RenameElement,
    before: UmlModelView,
    m1: UmlModelView,
    r: Result<(), CommandErrorView>,
)
    requires
        c.undoes(after, before, m1, r),
    ensures
        after == c,
        edits_base(
            c.target(),
            before,
            m1,
            r,
            ElementBaseView { name: c.previous(), ..before.elements[c.target()].base() },
        ),
{
}

/// Executing a `ChangeVisibility` edits the element's metadata as `edits_base` says, setting
/// its visibility to the command's replacement; the command is unchanged.
pub proof fn lemma_change_visibility_executes(
    c: ChangeVisibility,
    after: ChangeVisibility,
    before: UmlModelView,
    m1: UmlModelView,
    r: Result<(), CommandErrorView>,
)
    requires
        c.executes(after, before, m1, r),
    ensures
        after == c,
        edits_base(
            c.target(),
            before,
            m1,
            r,
            ElementBaseView { visibility: c.replacement(), ..before.elements[c.target()].base() },
        ),
{
}

/// Undoing a `ChangeVisibility` edits the element's metadata as `edits_base` says, setting
/// its visibility to the command's previous value; the command is unchanged.
pub proof fn lemma_change_visibility_undoes(
    c: ChangeVisibility,
    after: ChangeVisibility,
    before: UmlModelView,
    m1: UmlModelView,
    r: Result<(), CommandErrorView>,
)
    requires
        c.undoes(after, before, m1, r),
    ensures
        after == c,
        edits_base(
            c.target(),
            before,
            m1,
            r,
            ElementBaseView { visibility: c.previous(), ..before.elements[c.target()].base() },
        ),
{
}

/// Executing a `ChangeElementFlags` edits the element's metadata as `edits_base` says, setting
/// its abstract and static flags to the command's replacement; the command is unchanged.
pub proof fn lemma_change_flags_executes(
    c: ChangeElementFlags,
    after: ChangeElementFlags,
    before: UmlModelView,
    m1: UmlModelView,
    r: Result<(), CommandErrorView>,
)
    requires
        c.executes(after, before, m1, r),
    ensures
        after == c,
        edits_base(
            c.target(),
            before,
            m1,
            r,
            ElementBaseView { is_abstract: c.replacement().0, is_static: c.replacement().1, ..before.elements[c.target()].base() },
        ),
{
}

/// Undoing a `ChangeElementFlags` edits the element's metadata as `edits_base` says, setting
/// its abstract and static flags to the command's previous value; the command is unchanged.
pub proof fn lemma_change_flags_undoes(
    c: ChangeElementFlags,
    after: ChangeElementFlags,
    before: UmlModelView,
    m1: UmlModelView,
    r: Result<(), CommandErrorView>,
)
    requires
        c.undoes(after, before, m1, r),
    ensures
        after == c,
        edits_base(
            c.target(),
            before,
            m1,
            r,
            ElementBaseView { is_abstract: c.previous().0, is_static: c.previous().1, ..before.elements[c.target()].base() },
        ),
{
}

/// Executing a `ChangeDocumentation` edits the element's metadata as `edits_base` says, setting
/// its documentation to the command's replacement; the command is unchanged.
pub proof fn lemma_change_documentation_executes(
    c: ChangeDocumentation,
    after: ChangeDocumentation,
    before: UmlModelView,
    m1: UmlModelView,
    r: Result<(), CommandErrorView>,
)
    requires
        c.executes(after, before, m1, r),
    ensures
        after == c,
        edits_base(
            c.target(),
            before,
            m1,
            r,
            ElementBaseView { documentation: c.replacement(), ..before.elements[c.target()].base() },
        ),
{
}

/// Undoing a `ChangeDocumentation` edits the element's metadata as `edits_base` says, setting
/// its documentation to the command's previous value; the command is unchanged.
pub proof fn lemma_change_documentation_undoes(
    c: ChangeDocumentation,
    after: ChangeDocumentation,
    before: UmlModelView,
    m1: UmlModelView,
    r: Result<(), CommandErrorView>,
)
    requires
        c.undoes(after, before, m1, r),
    ensures
        after == c,
        edits_base(
            c.target(),
            before,
            m1,
            r,
            ElementBaseView { documentation: c.previous(), ..before.elements[c.target()].base() },
        ),
{
}

/// Executing an element creation adds the held element and then holds
/// nothing; one that holds nothing refuses.
pub proof fn lemma_create_element_executes(
    c: CreateElement,
    after: CreateElement,
    before: UmlModelView,
    m1: UmlModelView,
    r: Result<(), CommandErrorView>,
)
    requires
        c.executes(after, before, m1, r),
    ensures
        after.target() == c.target(),
        after.held() is None,
        c.held() is Some ==> m1 == with_element(before, c.held()->0) && r == succeeded(),
        c.held() is None ==> m1 == before && r == invalid("CreateElement already executed"@),
{
}

/// Undoing an element creation removes the element with the target id and
/// holds it as it was (nothing when it is missing); it always succeeds.
pub proof fn lemma_create_element_undoes(
    c: CreateElement,
    after: CreateElement,
    before: UmlModelView,
    m1: UmlModelView,
    r: Result<(), CommandErrorView>,
)
    requires
        c.undoes(after, before, m1, r),
    ensures
        after.target() == c.target(),
        after.held() == (if before.elements.contains_key(c.target()) {
            Some(before.elements[c.target()])
        } else {
            None
        }),
        m1 == without_element(before, c.target()),
        r == succeeded(),
{
}

/// Executing an element deletion removes the element with the target id and
/// holds it as it was (nothing when it is missing); it always succeeds.
pub proof fn lemma_delete_element_executes(
    c: DeleteElement,
    after: DeleteElement,
    before: UmlModelView,
    m1: UmlModelView,
    r: Result<(), CommandErrorView>,
)
    requires
        c.executes(after, before, m1, r),
    ensures
        after.target() == c.target(),
        after.held() == (if before.elements.contains_key(c.target()) {
            Some(before.elements[c.target()])
        } else {
            None
        }),
        m1 == without_element(before, c.target()),
        r == succeeded(),
{
}

/// Undoing an element deletion puts the held element back and then holds
/// nothing; one that holds nothing refuses.
pub proof fn lemma_delete_element_undoes(
    c: DeleteElement,
    after: DeleteElement,
    before: UmlModelView,
    m1: UmlModelView,
    r: Result<(), CommandErrorView>,
)
    requires
        c.undoes(after, before, m1, r),
    ensures
        after.target() == c.target(),
        after.held() is None,
        c.held() is Some ==> m1 == with_element(before, c.held()->0) && r == succeeded(),
        c.held() is None ==> m1 == before && r == invalid("DeleteElement already undone"@),
{
}


/// Executing a package move takes the element out of its source package
/// and puts it in its destination, as `taken_out` and `put_in` say.
pub proof fn lemma_move_element_executes(
    c: MoveElement,
    after: MoveElement,
    before: UmlModelView,
    m1: UmlModelView,
    r: Result<(), CommandErrorView>,
)
    requires
        c.executes(after, before, m1, r),
    ensures
        after == c,
        put_in(taken_out(before, c.source(), c.target()), c.destination(), c.target(), m1, r),
{
}

/// Undoing a package move takes the element out of its destination and puts
/// it back in its source.
pub proof fn lemma_move_element_undoes(
    c: MoveElement,
    after: MoveElement,
    before: UmlModelView,
    m1: UmlModelView,
    r: Result<(), CommandErrorView>,
)
    requires
        c.undoes(after, before, m1, r),
    ensures
        after == c,
        put_in(taken_out(before, c.destination(), c.target()), c.source(), c.target(), m1, r),
{
}

/// Executing a relationship update replaces the relationship as
/// `replaces_relationship` says and counts as executed when that succeeds; a
/// command already executed refuses.
pub proof fn lemma_update_relationship_executes(
    c: UpdateRelationship,
    after: UpdateRelationship,
    before: UmlModelView,
    m1: UmlModelView,
    r: Result<(), CommandErrorView>,
)
    requires
        c.executes(after, before, m1, r),
    ensures
        after.target() == c.target(),
        after.before_value() == c.before_value(),
        after.after_value() == c.after_value(),
        c.applied() ==> after == c && m1 == before && r == invalid("UpdateRelationship already executed"@),
        !c.applied() ==> replaces_relationship(c.target(), c.before_value(), c.after_value(), before, m1, r)
            && after.applied() == (r is Ok),
{
}

/// Undoing a relationship update puts the earlier relationship back as
/// `replaces_relationship` says; a command never executed refuses.
pub proof fn lemma_update_relationship_undoes(
    c: UpdateRelationship,
    after: UpdateRelationship,
    before: UmlModelView,
    m1: UmlModelView,
    r: Result<(), CommandErrorView>,
)
    requires
        c.undoes(after, before, m1, r),
    ensures
        after.target() == c.target(),
        after.before_value() == c.before_value(),
        after.after_value() == c.after_value(),
        !c.applied() ==> after == c && m1 == before && r == invalid("UpdateRelationship has not been executed"@),
        c.applied() ==> replaces_relationship(c.target(), c.after_value(), c.before_value(), before, m1, r)
            && after.applied() == !(r is Ok),
{
}

/// Executing an element creation with its node: refused, with nothing
/// changed, when the id is taken, when nothing is held, or when the diagram
/// already has a node for it; refused after adding nothing when the diagram
/// is missing; otherwise the element and its node are added.
pub proof fn lemma_create_element_with_node_executes(
    c: CreateElementWithNode,
    after: CreateElementWithNode,
    before: UmlModelView,
    m1: UmlModelView,
    r: Result<(), CommandErrorView>,
)
    requires
        c.executes(after, before, m1, r),
    ensures
        after.target() == c.target(),
        after.diagram() == c.diagram(),
        after.node() == c.node(),
        before.elements.contains_key(c.target()) ==> after == c && m1 == before && r == invalid(
            "element ID already exists"@,
        ),
        !before.elements.contains_key(c.target()) && c.held() is None ==> after == c && m1 == before && r
            == invalid("CreateElementWithNode already executed"@),
        !before.elements.contains_key(c.target()) && c.held() is Some ==> match diagram_index(
            before.diagrams,
            c.diagram(),
        ) {
            None => after.held() is None && m1 == before && r == invalid("diagram not found"@),
            Some(i) => if has_key(before.diagrams[i].nodes, c.target().value) {
                after == c && m1 == before && r == invalid("diagram already contains a node for element"@)
            } else {
                &&& after.held() is None
                &&& m1 == with_diagram_replaced(
                    with_element(before, c.held()->0),
                    i,
                    with_node(before.diagrams[i], c.target(), c.node()),
                )
                &&& r == succeeded()
            },
        },
{
}

/// Undoing an element creation with its node removes the node and then the
/// element, holding the element as it was; without the diagram or the node
/// nothing changes and the command refuses.
pub proof fn lemma_create_element_with_node_undoes(
    c: CreateElementWithNode,
    after: CreateElementWithNode,
    before: UmlModelView,
    m1: UmlModelView,
    r: Result<(), CommandErrorView>,
)
    requires
        c.undoes(after, before, m1, r),
    ensures
        after.target() == c.target(),
        after.diagram() == c.diagram(),
        after.node() == c.node(),
        match diagram_index(before.diagrams, c.diagram()) {
            None => after == c && m1 == before && r == invalid("diagram not found"@),
            Some(i) => if !has_key(before.diagrams[i].nodes, c.target().value) {
                after == c && m1 == before && r == not_found(c.target())
            } else {
                let w = with_diagram_replaced(before, i, without_node(before.diagrams[i], c.target()));
                &&& after.held() == (if w.elements.contains_key(c.target()) {
                    Some(w.elements[c.target()])
                } else {
                    None
                })
                &&& m1 == without_element(w, c.target())
                &&& r == (if w.elements.contains_key(c.target()) {
                    succeeded()
                } else {
                    not_found(c.target())
                })
            },
        },
{
}

/// Executing a node addition puts the command's node on its diagram; a
/// missing diagram refuses with nothing changed.
pub proof fn lemma_add_node_executes(
    c: AddNodeToDiagram,
    after: AddNodeToDiagram,
    before: UmlModelView,
    m1: UmlModelView,
    r: Result<(), CommandErrorView>,
)
    requires
        c.executes(after, before, m1, r),
    ensures
        after == c,
        match diagram_index(before.diagrams, c.diagram()) {
            None => m1 == before && r == invalid("diagram not found"@),
            Some(i) => m1 == with_diagram_replaced(before, i, with_node(before.diagrams[i], c.target(), c.node()))
                && r == succeeded(),
        },
{
}

/// Undoing a node addition takes the node off its diagram; a missing diagram
/// refuses with nothing changed.
pub proof fn lemma_add_node_undoes(
    c: AddNodeToDiagram,
    after: AddNodeToDiagram,
    before: UmlModelView,
    m1: UmlModelView,
    r: Result<(), CommandErrorView>,
)
    requires
        c.undoes(after, before, m1, r),
    ensures
        after == c,
        match diagram_index(before.diagrams, c.diagram()) {
            None => m1 == before && r == invalid("diagram not found"@),
            Some(i) => m1 == with_diagram_replaced(before, i, without_node(before.diagrams[i], c.target()))
                && r == succeeded(),
        },
{
}

/// Executing a node removal takes the node off its diagram and holds it as
/// it was; a missing diagram refuses with nothing changed.
pub proof fn lemma_remove_node_executes(
    c: RemoveNodeFromDiagram,
    after: RemoveNodeFromDiagram,
    before: UmlModelView,
    m1: UmlModelView,
    r: Result<(), CommandErrorView>,
)
    requires
        c.executes(after, before, m1, r),
    ensures
        after.target() == c.target(),
        after.diagram() == c.diagram(),
        match diagram_index(before.diagrams, c.diagram()) {
            None => after == c && m1 == before && r == invalid("diagram not found"@),
            Some(i) => {
                &&& after.held() == lookup(before.diagrams[i].nodes, c.target().value)
                &&& m1 == with_diagram_replaced(before, i, without_node(before.diagrams[i], c.target()))
                &&& r == succeeded()
            },
        },
{
}

/// Undoing a node removal puts the held node back on its diagram and then
/// holds nothing; a missing diagram refuses with nothing changed.
pub proof fn lemma_remove_node_undoes(
    c: RemoveNodeFromDiagram,
    after: RemoveNodeFromDiagram,
    before: UmlModelView,
    m1: UmlModelView,
    r: Result<(), CommandErrorView>,
)
    requires
        c.undoes(after, before, m1, r),
    ensures
        after.target() == c.target(),
        after.diagram() == c.diagram(),
        match diagram_index(before.diagrams, c.diagram()) {
            None => after == c && m1 == before && r == invalid("diagram not found"@),
            Some(i) => {
                &&& after.held() is None
                &&& m1 == match c.held() {
                    Some(n) => with_diagram_replaced(before, i, with_node(before.diagrams[i], c.target(), n)),
                    None => before,
                }
                &&& r == succeeded()
            },
        },
{
}

/// Executing a node move moves the node as `edits_node` says and records
/// where it was (when it was found).
pub proof fn lemma_move_node_executes(
    c: MoveNode,
    after: MoveNode,
    before: UmlModelView,
    m1: UmlModelView,
    r: Result<(), CommandErrorView>,
)
    requires
        c.executes(after, before, m1, r),
    ensures
        after.target() == c.target(),
        after.diagram() == c.diagram(),
        after.destination() == c.destination(),
        edits_node(c.diagram(), c.target(), before, m1, r, moved_to(c.destination())),
        after.previous() == match found_node(before, c.diagram(), c.target()) {
            Some(n) => Some(n.bounds.origin),
            None => c.previous(),
        },
{
}

/// Undoing a node move moves the node back where it was (leaving it as it is
/// when nothing was recorded), as `edits_node` says.
pub proof fn lemma_move_node_undoes(
    c: MoveNode,
    after: MoveNode,
    before: UmlModelView,
    m1: UmlModelView,
    r: Result<(), CommandErrorView>,
)
    requires
        c.undoes(after, before, m1, r),
    ensures
        after == c,
        match c.previous() {
            Some(p) => edits_node(c.diagram(), c.target(), before, m1, r, moved_to(p)),
            None => edits_node(c.diagram(), c.target(), before, m1, r, |n: ViewNode| n),
        },
{
}

/// Executing a node resize resizes the node as `edits_node` says and records
/// its size before (when it was found).
pub proof fn lemma_resize_node_executes(
    c: ResizeNode,
    after: ResizeNode,
    before: UmlModelView,
    m1: UmlModelView,
    r: Result<(), CommandErrorView>,
)
    requires
        c.executes(after, before, m1, r),
    ensures
        after.target() == c.target(),
        after.diagram() == c.diagram(),
        after.destination() == c.destination(),
        edits_node(c.diagram(), c.target(), before, m1, r, resized_to(c.destination())),
        after.previous() == match found_node(before, c.diagram(), c.target()) {
            Some(n) => Some(n.bounds.size),
            None => c.previous(),
        },
{
}

/// Undoing a node resize gives the node its size back (leaving it as it is
/// when nothing was recorded), as `edits_node` says.
pub proof fn lemma_resize_node_undoes(
    c: ResizeNode,
    after: ResizeNode,
    before: UmlModelView,
    m1: UmlModelView,
    r: Result<(), CommandErrorView>,
)
    requires
        c.undoes(after, before, m1, r),
    ensures
        after == c,
        match c.previous() {
            Some(z) => edits_node(c.diagram(), c.target(), before, m1, r, resized_to(z)),
            None => edits_node(c.diagram(), c.target(), before, m1, r, |n: ViewNode| n),
        },
{
}

} // verus!
