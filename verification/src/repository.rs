//! Storage for UML model elements, package membership and diagrams.
use crate::diagram::entries::keys_unique;
use crate::diagram::{Diagram, DiagramView};
use crate::elements::{remove_first, remove_first_id, ModelElement, ModelElementView, PackageView};
use crate::id::{uuid_text_spec, DiagramId, UmlId};
use crate::text::owned;
use crate::keyed::{
    item_index, keyed_map, keys_distinct, lemma_item_at, lemma_keyed_absent,
    lemma_keyed_len, lemma_keyed_push, lemma_keyed_remove, lemma_keyed_update,
};
use vstd::prelude::*;

verus! {

/// The model repository placeholder of the arena-based storage design.
#[derive(Debug)]
pub struct ModelRepository {
    placeholder: (),
}

impl ModelRepository {
    /// The empty repository (the only value the placeholder has).
    pub closed spec fn empty() -> Self {
        ModelRepository { placeholder: () }
    }

    /// Create a new, empty model repository.
    pub fn new() -> (r: Self)
        ensures
            r == Self::empty(),
    {
        ModelRepository { placeholder: () }
    }
}

impl Default for ModelRepository {
    /// The empty repository, the same as `new`.
    fn default() -> (r: Self)
        ensures
            r == ModelRepository::empty(),
    {
        ModelRepository::new()
    }
}

/// Errors of model-level operations.
#[derive(Debug, Clone, Copy, PartialEq, Eq, Structural)]
pub enum ModelError {
    /// No element has the id.
    ElementNotFound(UmlId),
    /// The element with the id is not a package.
    NotAPackage(UmlId),
}

/// The text of a model error.
pub open spec fn model_error_text(e: ModelError) -> Seq<char> {
    match e {
        ModelError::ElementNotFound(id) => "element not found: "@ + uuid_text_spec(id.value),
        ModelError::NotAPackage(id) => "element is not a package: "@ + uuid_text_spec(id.value),
    }
}

impl ModelError {
    /// The error's text.
    pub fn message(&self) -> (s: String)
        ensures
            s@ == model_error_text(*self),
    {
        match self {
            ModelError::ElementNotFound(id) => {
                let mut s = owned("element not found: ");
                s.append(id.to_text().as_str());
                s
            },
            ModelError::NotAPackage(id) => {
                let mut s = owned("element is not a package: ");
                s.append(id.to_text().as_str());
                s
            },
        }
    }
}

/// The key of a stored element: its id.
pub open spec fn elem_key() -> spec_fn(ModelElement) -> UmlId {
    |e: ModelElement| e@.id()
}

/// The value of a stored element.
pub open spec fn elem_val() -> spec_fn(ModelElement) -> ModelElementView {
    |e: ModelElement| e@
}

/// The key of a parent-index entry: the child's id.
pub open spec fn parent_key() -> spec_fn((UmlId, Vec<UmlId>)) -> UmlId {
    |p: (UmlId, Vec<UmlId>)| p.0
}

/// The value of a parent-index entry: the containing packages, in order.
pub open spec fn parent_val() -> spec_fn((UmlId, Vec<UmlId>)) -> Seq<UmlId> {
    |p: (UmlId, Vec<UmlId>)| p.1@
}

/// The mathematical value of a model.
pub struct UmlModelView {
    /// Elements by id.
    pub elements: Map<UmlId, ModelElementView>,
    /// For each element that has been placed in a package: its packages, in order.
    pub parents: Map<UmlId, Seq<UmlId>>,
    /// Diagrams, in order.
    pub diagrams: Seq<DiagramView>,
}

/// The position of the first diagram with the id, if any.
pub open spec fn diagram_index(s: Seq<DiagramView>, id: DiagramId) -> Option<int> {
    if exists|i: int| 0 <= i < s.len() && s[i].id == id {
        Some(choose|i: int| 0 <= i < s.len() && s[i].id == id && forall|j: int| 0 <= j < i ==> s[j].id != id)
    } else {
        None
    }
}

/// The first diagram with the id is at position `i`.
pub proof fn lemma_first_diagram(s: Seq<DiagramView>, id: DiagramId, i: int)
    requires
        0 <= i < s.len(),
        s[i].id == id,
        forall|j: int| 0 <= j < i ==> s[j].id != id,
    ensures
        diagram_index(s, id) == Some(i),
{
    let c = choose|k: int| 0 <= k < s.len() && s[k].id == id && forall|j: int| 0 <= j < k ==> s[j].id != id;
    assert(0 <= c < s.len() && s[c].id == id && forall|j: int| 0 <= j < c ==> s[j].id != id);
    if c < i {
        assert(s[c].id != id);
    }
    if c > i {
        assert(s[i].id != id);
    }
}

/// The position found for a diagram id holds a diagram with that id.
pub proof fn lemma_diagram_index(s: Seq<DiagramView>, id: DiagramId)
    ensures
        match diagram_index(s, id) {
            Some(i) => 0 <= i < s.len() && s[i].id == id && s.update(i, s[i]) == s,
            None => forall|k: int| 0 <= k < s.len() ==> s[k].id != id,
        },
{
    if exists|k: int| 0 <= k < s.len() && s[k].id == id {
        let k = choose|k: int| 0 <= k < s.len() && s[k].id == id;
        lemma_first_diagram_exists(s, id, k);
        let i = diagram_index(s, id)->0;
        assert(s.update(i, s[i]) =~= s);
    }
}

/// Lists of diagrams with the same ids, position by position, find a diagram
/// id at the same position.
pub proof fn lemma_diagram_index_same_ids(s: Seq<DiagramView>, t: Seq<DiagramView>, id: DiagramId)
    requires
        s.len() == t.len(),
        forall|j: int| 0 <= j < s.len() ==> s[j].id == t[j].id,
    ensures
        diagram_index(s, id) == diagram_index(t, id),
{
    if exists|k: int| 0 <= k < s.len() && s[k].id == id {
        let k = choose|k: int| 0 <= k < s.len() && s[k].id == id;
        lemma_first_diagram_exists(s, id, k);
        let i = diagram_index(s, id)->0;
        assert(0 <= i < s.len() && s[i].id == id && forall|j: int| 0 <= j < i ==> s[j].id != id);
        assert(forall|j: int| 0 <= j < i ==> t[j].id != id) by {
            assert forall|j: int| 0 <= j < i implies t[j].id != id by {
                assert(s[j].id != id);
            }
        }
        lemma_first_diagram(t, id, i);
    } else {
        assert forall|k: int| 0 <= k < t.len() implies t[k].id != id by {
            assert(s[k].id == t[k].id);
        }
    }
}

/// Some diagram with the id comes first.
proof fn lemma_first_diagram_exists(s: Seq<DiagramView>, id: DiagramId, k: int)
    requires
        0 <= k < s.len(),
        s[k].id == id,
    ensures
        exists|i: int| 0 <= i < s.len() && s[i].id == id && forall|j: int| 0 <= j < i ==> s[j].id != id,
    decreases k,
{
    if exists|j: int| 0 <= j < k && s[j].id == id {
        let j = choose|j: int| 0 <= j < k && s[j].id == id;
        lemma_first_diagram_exists(s, id, j);
    } else {
        assert(0 <= k < s.len() && s[k].id == id && forall|j: int| 0 <= j < k ==> s[j].id != id);
    }
}

/// The diagrams' values.
pub open spec fn diagram_views(s: Seq<Diagram>) -> Seq<DiagramView> {
    s.map_values(|d: Diagram| d@)
}

/// The parents recorded for an element (none if it has no entry).
pub open spec fn parents_or_empty(m: UmlModelView, id: UmlId) -> Seq<UmlId> {
    if m.parents.contains_key(id) {
        m.parents[id]
    } else {
        Seq::empty()
    }
}

/// The outcome of `add_to_package(package_id, child_id)`: the package must
/// exist and be a package, then the child must exist.
pub open spec fn package_add_result(m: UmlModelView, package_id: UmlId, child_id: UmlId) -> Result<(), ModelError> {
    if !m.elements.contains_key(package_id) {
        Err(ModelError::ElementNotFound(package_id))
    } else if !(m.elements[package_id] is Package) {
        Err(ModelError::NotAPackage(package_id))
    } else if !m.elements.contains_key(child_id) {
        Err(ModelError::ElementNotFound(child_id))
    } else {
        Ok(())
    }
}

/// The model after a successful `add_to_package(package_id, child_id)`: the
/// child is appended to the package's children and the package to the
/// child's parents.
pub open spec fn added_to_package(m: UmlModelView, package_id: UmlId, child_id: UmlId) -> UmlModelView {
    let p = m.elements[package_id]->Package_0;
    UmlModelView {
        elements: m.elements.insert(
            package_id,
            ModelElementView::Package(PackageView { children: p.children.push(child_id), ..p }),
        ),
        parents: m.parents.insert(child_id, parents_or_empty(m, child_id).push(package_id)),
        diagrams: m.diagrams,
    }
}

/// The model after `remove_from_package(package_id, child_id)`: the first
/// occurrence of the child is removed from the package (if it is a package),
/// and the first occurrence of the package from the child's parents (if the
/// child has an entry).
pub open spec fn removed_from_package(m: UmlModelView, package_id: UmlId, child_id: UmlId) -> UmlModelView {
    UmlModelView {
        elements: if m.elements.contains_key(package_id) && m.elements[package_id] is Package {
            let p = m.elements[package_id]->Package_0;
            m.elements.insert(
                package_id,
                ModelElementView::Package(PackageView { children: remove_first(p.children, child_id), ..p }),
            )
        } else {
            m.elements
        },
        parents: if m.parents.contains_key(child_id) {
            m.parents.insert(child_id, remove_first(m.parents[child_id], package_id))
        } else {
            m.parents
        },
        diagrams: m.diagrams,
    }
}

/// A model value that a well-formed model can have: each element is stored
/// under its own id, no diagram holds two nodes for one element and no
/// diagram holds two edges under one id.
pub open spec fn model_valid(m: UmlModelView) -> bool {
    &&& forall|id: UmlId| #[trigger] m.elements.contains_key(id) ==> m.elements[id].id() == id
    &&& forall|i: int| 0 <= i < m.diagrams.len() ==> keys_unique(#[trigger] m.diagrams[i].nodes)
    &&& forall|i: int| 0 <= i < m.diagrams.len() ==> keys_unique(#[trigger] m.diagrams[i].edges)
}

/// The arena of UML model elements, the package-membership index and the
/// diagrams of a project.
#[derive(Debug)]
pub struct UmlModel {
    elements: Vec<ModelElement>,
    parents: Vec<(UmlId, Vec<UmlId>)>,
    diagrams: Vec<Diagram>,
}

impl View for UmlModel {
    type V = UmlModelView;

    closed spec fn view(&self) -> UmlModelView {
        UmlModelView {
            elements: keyed_map(self.elements@, elem_key(), elem_val()),
            parents: keyed_map(self.parents@, parent_key(), parent_val()),
            diagrams: diagram_views(self.diagrams@),
        }
    }
}

impl UmlModel {
    /// Element ids are unique, the parent index has one entry per element,
    /// and every diagram is well formed.
    pub closed spec fn wf(&self) -> bool {
        &&& keys_distinct(self.elements@, elem_key())
        &&& keys_distinct(self.parents@, parent_key())
        &&& forall|i: int| 0 <= i < self.diagrams@.len() ==> (#[trigger] self.diagrams@[i]).wf()
    }

    /// The ids of the stored elements, in storage order.
    pub closed spec fn element_ids(&self) -> Seq<UmlId> {
        self.elements@.map_values(|e: ModelElement| e@.id())
    }

    /// The diagrams stored in the model, in order.
    pub closed spec fn diagram_list(&self) -> Seq<Diagram> {
        self.diagrams@
    }

    /// Each element is stored under its own id.
    pub proof fn lemma_ids_match(&self)
        requires
            self.wf(),
        ensures
            forall|id: UmlId| #[trigger] self@.elements.contains_key(id) ==> self@.elements[id].id() == id,
    {
        assert forall|id: UmlId| #[trigger] self@.elements.contains_key(id) implies self@.elements[id].id() == id by {
            let i = item_index(self.elements@, elem_key(), id);
            lemma_item_at(self.elements@, elem_key(), elem_val(), i);
        }
    }

    /// The value of a well-formed model is valid.
    pub proof fn lemma_valid(&self)
        requires
            self.wf(),
        ensures
            model_valid(self@),
    {
        self.lemma_ids_match();
        assert forall|i: int| 0 <= i < self@.diagrams.len() implies keys_unique(
            #[trigger] self@.diagrams[i].nodes,
        ) by {
            assert(self.diagrams@[i].wf());
        }
        assert forall|i: int| 0 <= i < self@.diagrams.len() implies keys_unique(
            #[trigger] self@.diagrams[i].edges,
        ) by {
            let d = self.diagrams@[i];
            assert(d.wf());
            crate::diagram::lemma_edge_views(crate::diagram::entries::edge_entries(d.edges), 0, arbitrary());
        }
    }

    /// Create a new, empty model.
    pub fn new() -> (m: Self)
        ensures
            m.wf(),
            m@.elements == Map::<UmlId, ModelElementView>::empty(),
            m@.parents == Map::<UmlId, Seq<UmlId>>::empty(),
            m@.diagrams == Seq::<DiagramView>::empty(),
    {
        let m = UmlModel { elements: Vec::new(), parents: Vec::new(), diagrams: Vec::new() };
        assert(m@.elements =~= Map::<UmlId, ModelElementView>::empty());
        assert(m@.parents =~= Map::<UmlId, Seq<UmlId>>::empty());
        assert(m@.diagrams =~= Seq::<DiagramView>::empty());
        m
    }

    /// The position of the element with the id.
    fn find(&self, id: UmlId) -> (r: Option<usize>)
        requires
            self.wf(),
        ensures
            match r {
                Some(i) => i < self.elements@.len() && self.elements@[i as int]@.id() == id,
                None => !self@.elements.contains_key(id),
            },
            self@.elements.contains_key(id) == r is Some,
    {
        let mut i: usize = 0;
        while i < self.elements.len()
            invariant
                i <= self.elements@.len(),
                keys_distinct(self.elements@, elem_key()),
                forall|j: int| 0 <= j < i ==> self.elements@[j]@.id() != id,
            decreases self.elements.len() - i,
        {
            if self.elements[i].id() == id {
                proof {
                    lemma_item_at(self.elements@, elem_key(), elem_val(), i as int);
                }
                return Some(i);
            }
            i += 1;
        }
        proof {
            lemma_keyed_absent(self.elements@, elem_key(), elem_val(), id);
        }
        None
    }

    /// Insert an element; an element with the same id is replaced.
    pub fn insert(&mut self, element: ModelElement)
        requires
            old(self).wf(),
        ensures
            final(self).wf(),
            final(self)@ == (UmlModelView {
                elements: old(self)@.elements.insert(element@.id(), element@),
                ..old(self)@
            }),
    {
        let id = element.id();
        match self.find(id) {
            Some(i) => {
                proof {
                    lemma_keyed_update(self.elements@, elem_key(), elem_val(), i as int, element);
                }
                self.elements.set(i, element);
            },
            None => {
                proof {
                    lemma_keyed_push(self.elements@, elem_key(), elem_val(), element);
                }
                self.elements.push(element);
            },
        }
    }

    /// Remove the element with the id and return it. Package membership and
    /// diagrams are left as they are.
    pub fn remove(&mut self, id: UmlId) -> (r: Option<ModelElement>)
        requires
            old(self).wf(),
        ensures
            final(self).wf(),
            match r {
                Some(e) => old(self)@.elements.contains_key(id) && e@ == old(self)@.elements[id] && e@.id() == id,
                None => !old(self)@.elements.contains_key(id),
            },
            final(self)@ == (UmlModelView { elements: old(self)@.elements.remove(id), ..old(self)@ }),
    {
        match self.find(id) {
            Some(i) => {
                proof {
                    lemma_keyed_remove(self.elements@, elem_key(), elem_val(), i as int);
                    lemma_item_at(self.elements@, elem_key(), elem_val(), i as int);
                }
                let e = self.elements.remove(i);
                Some(e)
            },
            None => {
                assert(old(self)@.elements.remove(id) =~= old(self)@.elements);
                None
            },
        }
    }

    /// The element with the id.
    pub fn get(&self, id: UmlId) -> (r: Option<&ModelElement>)
        requires
            self.wf(),
        ensures
            match r {
                Some(e) => self@.elements.contains_key(id) && e@ == self@.elements[id] && e@.id() == id,
                None => !self@.elements.contains_key(id),
            },
    {
        match self.find(id) {
            Some(i) => {
                proof {
                    lemma_item_at(self.elements@, elem_key(), elem_val(), i as int);
                }
                Some(&self.elements[i])
            },
            None => None,
        }
    }

    /// A mutable reference to the element with the id. As long as the id of
    /// the element is left unchanged, what is written through the reference
    /// replaces the element in the model.
    pub fn get_mut(&mut self, id: UmlId) -> (r: Option<&mut ModelElement>)
        requires
            old(self).wf(),
        ensures
            match r {
                Some(e) => {
                    &&& old(self)@.elements.contains_key(id)
                    &&& e@ == old(self)@.elements[id]
                    &&& e@.id() == id
                    &&& final(e)@.id() == id ==> {
                        &&& final(self).wf()
                        &&& final(self)@ == (UmlModelView {
                            elements: old(self)@.elements.insert(id, final(e)@),
                            ..old(self)@
                        })
                    }
                },
                None => {
                    &&& !old(self)@.elements.contains_key(id)
                    &&& final(self).wf()
                    &&& final(self)@ == old(self)@
                },
            },
    {
        match self.find(id) {
            Some(i) => {
                proof {
                    lemma_item_at(self.elements@, elem_key(), elem_val(), i as int);
                    assert forall|e: ModelElement| e@.id() == id implies {
                        &&& keys_distinct(self.elements@.update(i as int, e), elem_key())
                        &&& keyed_map(self.elements@.update(i as int, e), elem_key(), elem_val())
                            == keyed_map(self.elements@, elem_key(), elem_val()).insert(id, e@)
                    } by {
                        lemma_keyed_update(self.elements@, elem_key(), elem_val(), i as int, e);
                    }
                }
                Some(&mut self.elements[i])
            },
            None => None,
        }
    }

    /// Whether an element with the id exists.
    pub fn contains(&self, id: UmlId) -> (r: bool)
        requires
            self.wf(),
        ensures
            r == self@.elements.contains_key(id),
    {
        self.find(id).is_some()
    }

    /// Number of elements.
    pub fn len(&self) -> (n: usize)
        requires
            self.wf(),
        ensures
            n == self@.elements.len(),
            self@.elements.dom().finite(),
    {
        proof {
            lemma_keyed_len(self.elements@, elem_key(), elem_val());
        }
        self.elements.len()
    }

    /// Whether the model has no elements.
    pub fn is_empty(&self) -> (r: bool)
        requires
            self.wf(),
        ensures
            r == (self@.elements.len() == 0),
    {
        self.len() == 0
    }

    /// The stored elements, each once, in storage order.
    pub fn elements(&self) -> (s: &[ModelElement])
        requires
            self.wf(),
        ensures
            s@.len() == self@.elements.len(),
            s@.len() == self.element_ids().len(),
            forall|i: int| 0 <= i < s@.len() ==> #[trigger] s@[i]@.id() == self.element_ids()[i],
            forall|i: int|
                0 <= i < s@.len() ==> self@.elements.contains_key(#[trigger] s@[i]@.id())
                    && self@.elements[s@[i]@.id()] == s@[i]@,
            forall|id: UmlId|
                #[trigger] self@.elements.contains_key(id) ==> exists|i: int|
                    0 <= i < s@.len() && s@[i]@.id() == id,
            forall|i: int, j: int|
                0 <= i < s@.len() && 0 <= j < s@.len() && i != j ==> s@[i]@.id() != s@[j]@.id(),
    {
        proof {
            lemma_keyed_len(self.elements@, elem_key(), elem_val());
            assert forall|i: int| 0 <= i < self.elements@.len() implies self@.elements.contains_key(
                #[trigger] self.elements@[i]@.id(),
            ) && self@.elements[self.elements@[i]@.id()] == self.elements@[i]@ by {
                lemma_item_at(self.elements@, elem_key(), elem_val(), i);
            }
            assert forall|id: UmlId| #[trigger] self@.elements.contains_key(id) implies exists|i: int|
                0 <= i < self.elements@.len() && self.elements@[i]@.id() == id by {
                let i = item_index(self.elements@, elem_key(), id);
                assert(elem_key()(self.elements@[i]) == id);
            }
            assert forall|i: int, j: int|
                0 <= i < self.elements@.len() && 0 <= j < self.elements@.len() && i != j implies self.elements@[i]@.id()
                != self.elements@[j]@.id() by {
                assert(elem_key()(self.elements@[i]) != elem_key()(self.elements@[j]));
            }
        }
        self.elements.as_slice()
    }

    /// The position of the parent-index entry of an element.
    fn find_parents(&self, id: UmlId) -> (r: Option<usize>)
        requires
            self.wf(),
        ensures
            match r {
                Some(i) => i < self.parents@.len() && self.parents@[i as int].0 == id,
                None => !self@.parents.contains_key(id),
            },
            self@.parents.contains_key(id) == r is Some,
    {
        let mut i: usize = 0;
        while i < self.parents.len()
            invariant
                i <= self.parents@.len(),
                keys_distinct(self.parents@, parent_key()),
                forall|j: int| 0 <= j < i ==> self.parents@[j].0 != id,
            decreases self.parents.len() - i,
        {
            if self.parents[i].0 == id {
                proof {
                    lemma_item_at(self.parents@, parent_key(), parent_val(), i as int);
                }
                return Some(i);
            }
            i += 1;
        }
        proof {
            lemma_keyed_absent(self.parents@, parent_key(), parent_val(), id);
        }
        None
    }

    /// The packages recorded as containing the element, in order; `None` if
    /// the element has never been placed in a package.
    pub fn parents_of(&self, id: UmlId) -> (r: Option<&[UmlId]>)
        requires
            self.wf(),
        ensures
            match r {
                Some(s) => self@.parents.contains_key(id) && s@ == self@.parents[id],
                None => !self@.parents.contains_key(id),
            },
    {
        match self.find_parents(id) {
            Some(i) => {
                proof {
                    lemma_item_at(self.parents@, parent_key(), parent_val(), i as int);
                }
                Some(self.parents[i].1.as_slice())
            },
            None => None,
        }
    }

    /// Place an element in a package: the child is appended to the package's
    /// children and the package to the child's parents.
    ///
    /// Fails, changing nothing, when the package does not exist
    /// (`ElementNotFound(package_id)`), is not a package (`NotAPackage`), or
    /// the child does not exist (`ElementNotFound(child_id)`).
    pub fn add_to_package(&mut self, package_id: UmlId, child_id: UmlId) -> (r: Result<(), ModelError>)
        requires
            old(self).wf(),
        ensures
            final(self).wf(),
            r == package_add_result(old(self)@, package_id, child_id),
            r is Ok ==> final(self)@ == added_to_package(old(self)@, package_id, child_id),
            r is Err ==> final(self)@ == old(self)@,
    {
        let pi = match self.find(package_id) {
            Some(i) => i,
            None => return Err(ModelError::ElementNotFound(package_id)),
        };
        let is_pkg = match &self.elements[pi] {
            ModelElement::Package(_) => true,
            _ => false,
        };
        if !is_pkg {
            proof {
                lemma_item_at(self.elements@, elem_key(), elem_val(), pi as int);
            }
            return Err(ModelError::NotAPackage(package_id));
        }
        if self.find(child_id).is_none() {
            proof {
                lemma_item_at(self.elements@, elem_key(), elem_val(), pi as int);
            }
            return Err(ModelError::ElementNotFound(child_id));
        }
        let ghost m0 = self@;
        proof {
            lemma_item_at(self.elements@, elem_key(), elem_val(), pi as int);
        }
        let ghost old_elem = self.elements@[pi as int];
        let mut elem = self.elements.remove(pi);
        let ghost mid = self.elements@;
        proof {
            assert(mid == old(self).elements@.remove(pi as int));
        }
        match &mut elem {
            ModelElement::Package(p) => {
                p.children.push(child_id);
            },
            _ => {},
        }
        proof {
            assert(elem@.id() == package_id);
            lemma_keyed_update(old(self).elements@, elem_key(), elem_val(), pi as int, elem);
        }
        self.elements.insert(pi, elem);
        proof {
            assert(self.elements@ =~= old(self).elements@.update(pi as int, elem));
            assert(elem@ == ModelElementView::Package(
                PackageView {
                    children: m0.elements[package_id]->Package_0.children.push(child_id),
                    ..m0.elements[package_id]->Package_0
                },
            ));
        }
        match self.find_parents(child_id) {
            Some(j) => {
                proof {
                    lemma_item_at(self.parents@, parent_key(), parent_val(), j as int);
                }
                let (c, mut ps) = self.parents.remove(j);
                ps.push(package_id);
                let entry = (c, ps);
                proof {
                    lemma_keyed_update(old(self).parents@, parent_key(), parent_val(), j as int, entry);
                }
                self.parents.insert(j, entry);
                assert(self.parents@ =~= old(self).parents@.update(j as int, entry));
            },
            None => {
                let mut ps: Vec<UmlId> = Vec::new();
                ps.push(package_id);
                let entry = (child_id, ps);
                proof {
                    assert(ps@ =~= Seq::<UmlId>::empty().push(package_id));
                    lemma_keyed_push(self.parents@, parent_key(), parent_val(), entry);
                }
                self.parents.push(entry);
            },
        }
        proof {
            assert(self@.elements =~= added_to_package(m0, package_id, child_id).elements);
            assert(self@.parents =~= added_to_package(m0, package_id, child_id).parents);
        }
        Ok(())
    }

    /// Remove the first occurrence of the child from the package's children
    /// (when the package exists and is a package) and the first occurrence of
    /// the package from the child's parents. Returns whether the child was
    /// among the package's children.
    pub fn remove_from_package(&mut self, package_id: UmlId, child_id: UmlId) -> (found: bool)
        requires
            old(self).wf(),
        ensures
            final(self).wf(),
            found == (old(self)@.elements.contains_key(package_id)
                && old(self)@.elements[package_id] is Package
                && old(self)@.elements[package_id]->Package_0.children.contains(child_id)),
            final(self)@ == removed_from_package(old(self)@, package_id, child_id),
    {
        let ghost m0 = self@;
        let mut found = false;
        match self.find(package_id) {
            Some(pi) => {
                proof {
                    lemma_item_at(self.elements@, elem_key(), elem_val(), pi as int);
                }
                let is_pkg = match &self.elements[pi] {
                    ModelElement::Package(_) => true,
                    _ => false,
                };
                if is_pkg {
                    let ghost before = self.elements@;
                    let mut elem = self.elements.remove(pi);
                    match &mut elem {
                        ModelElement::Package(p) => {
                            found = p.remove_child(child_id);
                        },
                        _ => {},
                    }
                    proof {
                        lemma_keyed_update(before, elem_key(), elem_val(), pi as int, elem);
                    }
                    self.elements.insert(pi, elem);
                    assert(self.elements@ =~= before.update(pi as int, elem));
                }
            },
            None => {},
        }
        proof {
            assert(self@.elements =~= removed_from_package(m0, package_id, child_id).elements);
        }
        match self.find_parents(child_id) {
            Some(j) => {
                proof {
                    lemma_item_at(self.parents@, parent_key(), parent_val(), j as int);
                }
                let ghost before = self.parents@;
                let (c, mut ps) = self.parents.remove(j);
                remove_first_id(&mut ps, package_id);
                let entry = (c, ps);
                proof {
                    lemma_keyed_update(before, parent_key(), parent_val(), j as int, entry);
                }
                self.parents.insert(j, entry);
                assert(self.parents@ =~= before.update(j as int, entry));
            },
            None => {},
        }
        proof {
            assert(self@.parents =~= removed_from_package(m0, package_id, child_id).parents);
        }
        found
    }

    /// The diagrams, in order.
    pub fn diagrams(&self) -> (s: &[Diagram])
        ensures
            diagram_views(s@) == self@.diagrams,
            s@ == self.diagram_list(),
    {
        self.diagrams.as_slice()
    }

    /// The position of the first diagram with the id.
    pub fn diagram_position(&self, id: DiagramId) -> (r: Option<usize>)
        ensures
            match r {
                Some(i) => {
                    &&& diagram_index(self@.diagrams, id) == Some(i as int)
                    &&& i < self@.diagrams.len()
                    &&& self@.diagrams[i as int].id == id
                },
                None => diagram_index(self@.diagrams, id) is None,
            },
    {
        let mut i: usize = 0;
        while i < self.diagrams.len()
            invariant
                i <= self.diagrams@.len(),
                forall|j: int| 0 <= j < i ==> (#[trigger] self.diagrams@[j]).id != id,
            decreases self.diagrams.len() - i,
        {
            if self.diagrams[i].id == id {
                proof {
                    lemma_first_diagram(diagram_views(self.diagrams@), id, i as int);
                }
                return Some(i);
            }
            i += 1;
        }
        proof {
            let s = diagram_views(self.diagrams@);
            assert(!exists|k: int| 0 <= k < s.len() && s[k].id == id) by {
                if exists|k: int| 0 <= k < s.len() && s[k].id == id {
                    let k = choose|k: int| 0 <= k < s.len() && s[k].id == id;
                    assert(self.diagrams@[k].id != id);
                }
            }
        }
        None
    }

    /// Append a diagram.
    pub fn add_diagram(&mut self, diagram: Diagram)
        requires
            old(self).wf(),
            diagram.wf(),
        ensures
            final(self).wf(),
            final(self)@ == (UmlModelView { diagrams: old(self)@.diagrams.push(diagram@), ..old(self)@ }),
    {
        self.diagrams.push(diagram);
        proof {
            assert(diagram_views(self.diagrams@) =~= diagram_views(old(self).diagrams@).push(diagram@));
            assert forall|i: int| 0 <= i < self.diagrams@.len() implies (#[trigger] self.diagrams@[i]).wf() by {
                if i < old(self).diagrams@.len() {
                    assert(self.diagrams@[i] == old(self).diagrams@[i]);
                }
            }
        }
    }

    /// Insert a diagram at a position (at most the number of diagrams).
    pub fn insert_diagram_at(&mut self, position: usize, diagram: Diagram)
        requires
            old(self).wf(),
            diagram.wf(),
            position <= old(self)@.diagrams.len(),
        ensures
            final(self).wf(),
            final(self)@ == (UmlModelView {
                diagrams: old(self)@.diagrams.insert(position as int, diagram@),
                ..old(self)@
            }),
    {
        self.diagrams.insert(position, diagram);
        proof {
            assert(diagram_views(self.diagrams@) =~= diagram_views(old(self).diagrams@).insert(
                position as int,
                diagram@,
            ));
            assert forall|i: int| 0 <= i < self.diagrams@.len() implies (#[trigger] self.diagrams@[i]).wf() by {
                if i < position {
                    assert(self.diagrams@[i] == old(self).diagrams@[i]);
                } else if i > position {
                    assert(self.diagrams@[i] == old(self).diagrams@[i - 1]);
                }
            }
        }
    }

    /// Remove and return the diagram at a position.
    pub fn remove_diagram_at(&mut self, position: usize) -> (d: Diagram)
        requires
            old(self).wf(),
            position < old(self)@.diagrams.len(),
        ensures
            final(self).wf(),
            d.wf(),
            d@ == old(self)@.diagrams[position as int],
            final(self)@ == (UmlModelView {
                diagrams: old(self)@.diagrams.remove(position as int),
                ..old(self)@
            }),
    {
        proof {
            assert(self.diagrams@[position as int].wf());
        }
        let d = self.diagrams.remove(position);
        proof {
            assert(diagram_views(self.diagrams@) =~= diagram_views(old(self).diagrams@).remove(
                position as int,
            ));
            assert forall|i: int| 0 <= i < self.diagrams@.len() implies (#[trigger] self.diagrams@[i]).wf() by {
                if i < position {
                    assert(self.diagrams@[i] == old(self).diagrams@[i]);
                } else {
                    assert(self.diagrams@[i] == old(self).diagrams@[i + 1]);
                }
            }
        }
        d
    }

    /// Remove and return the first diagram with the id.
    pub fn remove_diagram(&mut self, id: DiagramId) -> (r: Option<Diagram>)
        requires
            old(self).wf(),
        ensures
            final(self).wf(),
            match diagram_index(old(self)@.diagrams, id) {
                Some(i) => r is Some && r->0@ == old(self)@.diagrams[i] && final(self)@ == (UmlModelView {
                    diagrams: old(self)@.diagrams.remove(i),
                    ..old(self)@
                }),
                None => r is None && final(self)@ == old(self)@,
            },
    {
        match self.diagram_position(id) {
            Some(i) => {
                proof {
                    assert(i < self@.diagrams.len());
                }
                Some(self.remove_diagram_at(i))
            },
            None => None,
        }
    }

    /// The first diagram with the id.
    pub fn get_diagram(&self, id: DiagramId) -> (r: Option<&Diagram>)
        requires
            self.wf(),
        ensures
            match diagram_index(self@.diagrams, id) {
                Some(i) => r is Some && r->0@ == self@.diagrams[i] && r->0.wf(),
                None => r is None,
            },
    {
        match self.diagram_position(id) {
            Some(i) => {
                proof {
                    assert(i < self@.diagrams.len());
                    assert(self.diagrams@[i as int].wf());
                }
                Some(&self.diagrams[i])
            },
            None => None,
        }
    }

    /// The diagram at a position of the list, if there is one.
    pub fn diagram_at(&self, index: usize) -> (r: Option<&Diagram>)
        requires
            self.wf(),
        ensures
            index < self@.diagrams.len() ==> r is Some && r->0@ == self@.diagrams[index as int] && r->0.wf(),
            index >= self@.diagrams.len() ==> r is None,
    {
        if index < self.diagrams.len() {
            proof {
                assert(self.diagrams@[index as int].wf());
            }
            Some(&self.diagrams[index])
        } else {
            None
        }
    }

    /// A mutable reference to the first diagram with the id. As long as the
    /// diagram stays well formed, what is written through the reference
    /// replaces that diagram in the model.
    pub fn get_diagram_mut(&mut self, id: DiagramId) -> (r: Option<&mut Diagram>)
        requires
            old(self).wf(),
        ensures
            match diagram_index(old(self)@.diagrams, id) {
                Some(i) => {
                    &&& r is Some
                    &&& r->0@ == old(self)@.diagrams[i]
                    &&& r->0.wf()
                    &&& final(r->0).wf() ==> {
                        &&& final(self).wf()
                        &&& final(self)@ == (UmlModelView {
                            diagrams: old(self)@.diagrams.update(i, final(r->0)@),
                            ..old(self)@
                        })
                    }
                },
                None => r is None && final(self).wf() && final(self)@ == old(self)@,
            },
    {
        match self.diagram_position(id) {
            Some(i) => {
                proof {
                    assert(i < self@.diagrams.len());
                    assert(self.diagrams@[i as int].wf());
                    assert forall|d: Diagram| d.wf() implies {
                        &&& diagram_views(self.diagrams@.update(i as int, d)) == diagram_views(
                            self.diagrams@,
                        ).update(i as int, d@)
                        &&& forall|k: int|
                            0 <= k < self.diagrams@.len() ==> (#[trigger] self.diagrams@.update(
                                i as int,
                                d,
                            )[k]).wf()
                    } by {
                        assert(diagram_views(self.diagrams@.update(i as int, d)) =~= diagram_views(
                            self.diagrams@,
                        ).update(i as int, d@));
                        assert forall|k: int| 0 <= k < self.diagrams@.len() implies (
                        #[trigger] self.diagrams@.update(i as int, d)[k]).wf() by {
                            if k != i {
                                assert(self.diagrams@.update(i as int, d)[k] == self.diagrams@[k]);
                            }
                        }
                    }
                }
                Some(&mut self.diagrams[i])
            },
            None => None,
        }
    }
}

} // verus!
