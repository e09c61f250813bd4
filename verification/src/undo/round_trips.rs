//! Round trips of the commands through undo and a later execute, stated
//! over the commands' public accessors.
use crate::diagram::entries::{has_key, inserted, key_index, keys_unique, removed};
use crate::diagram::lemma_keys_unique_preserved;
use crate::repository::{diagram_index, model_valid, lemma_diagram_index, lemma_diagram_index_same_ids, UmlModelView};
use crate::elements::{ElementBaseView, ModelElementView};
use crate::id::UmlId;
use crate::undo::commands::{
    edits_base, lemma_change_documentation_executes, lemma_change_documentation_undoes, lemma_change_flags_executes,
    lemma_change_flags_undoes, lemma_change_visibility_executes, lemma_change_visibility_undoes, lemma_rename_executes,
    lemma_rename_undoes, lemma_with_base_id, with_element_base, ChangeDocumentation, ChangeElementFlags, ChangeVisibility,
    RenameElement,
    lemma_create_edge_executes, lemma_create_edge_holds_its_relationship, lemma_create_edge_undoes, lemma_inserted_removed_last, lemma_remove_node_executes,
    lemma_remove_node_undoes, lemma_removed_inserted, with_diagram_replaced, with_edge, with_element, with_node, without_edge,
    without_node, CreateEdge, RemoveNodeFromDiagram,
};
use crate::undo::{invalid, succeeded, Command, CommandErrorView};
use vstd::prelude::*;

verus! {

/// An entry inserted under a key is there afterwards, with that value.
proof fn lemma_inserted_has<V>(s: Seq<(u128, V)>, key: u128, value: V)
    ensures
        has_key(inserted(s, key, value), key),
{
    let t = inserted(s, key, value);
    if has_key(s, key) {
        let i = key_index(s, key);
        assert(t[i].0 == key);
    } else {
        assert(t[s.len() as int].0 == key);
    }
}

/// With unique keys, removing a key leaves no entry under it.
proof fn lemma_removed_lacks<V>(s: Seq<(u128, V)>, key: u128)
    requires
        keys_unique(s),
    ensures
        !has_key(removed(s, key), key),
{
    if has_key(s, key) {
        let i = key_index(s, key);
        let t = s.remove(i);
        assert forall|j: int| 0 <= j < t.len() implies t[j].0 != key by {
            if j < i {
                assert(t[j] == s[j]);
            } else {
                assert(t[j] == s[j + 1]);
            }
        }
    }
}

/// Replacing a diagram by one with the same id finds diagrams as before.
proof fn lemma_replaced_index(ds: Seq<crate::diagram::DiagramView>, i: int, d: crate::diagram::DiagramView, id: crate::id::DiagramId)
    requires
        0 <= i < ds.len(),
        d.id == ds[i].id,
    ensures
        diagram_index(ds.update(i, d), id) == diagram_index(ds, id),
{
    let t = ds.update(i, d);
    assert forall|j: int| 0 <= j < ds.len() implies ds[j].id == t[j].id by {
        if j == i {
        }
    }
    lemma_diagram_index_same_ids(ds, t, id);
}

/// Undoing a well-formed edge creation on a valid model succeeds and leaves
/// neither the relationship nor an edge under the command's edge id on its
/// diagram; executing the command again succeeds and puts back the
/// relationship as it was, under its id, and an edge under the command's
/// edge id on the command's diagram, drawing the same relationship between
/// the same nodes.
#[verifier::rlimit(40)]
pub proof fn lemma_create_edge_redo_after_undo(
    c0: CreateEdge,
    c1: CreateEdge,
    m0: UmlModelView,
    m1: UmlModelView,
    c2: CreateEdge,
    m2: UmlModelView,
    r2: Result<(), CommandErrorView>,
    c3: CreateEdge,
    m3: UmlModelView,
    r3: Result<(), CommandErrorView>,
)
    requires
        c0.inv(),
        model_valid(m0),
        c0.executes(c1, m0, m1, succeeded()),
        c1.undoes(c2, m1, m2, r2),
        c2.executes(c3, m2, m3, r3),
    ensures
        r2 == succeeded(),
        !m2.elements.contains_key(c0.relationship()),
        diagram_index(m2.diagrams, c0.diagram()) is Some,
        !has_key(m2.diagrams[diagram_index(m2.diagrams, c0.diagram())->0].edges, c0.edge().value),
        r3 == succeeded(),
        m3.elements.contains_key(c0.relationship()),
        m3.elements[c0.relationship()] == m1.elements[c0.relationship()],
        diagram_index(m3.diagrams, c0.diagram()) is Some,
        has_key(m3.diagrams[diagram_index(m3.diagrams, c0.diagram())->0].edges, c0.edge().value),
        c3.drawn_edge() == c0.drawn_edge(),
{
    lemma_create_edge_executes(c0, c1, m0, m1, succeeded());
    lemma_create_edge_holds_its_relationship(c0);
    if c0.held() is None {
        assert(invalid("CreateEdge already executed"@) != succeeded());
    }
    let e = c0.held()->0;
    let w0 = with_element(m0, e);
    if diagram_index(w0.diagrams, c0.diagram()) is None {
        assert(invalid("diagram not found"@) != succeeded());
    }
    let i = diagram_index(w0.diagrams, c0.diagram())->0;
    lemma_diagram_index(w0.diagrams, c0.diagram());
    let d1 = with_edge(w0.diagrams[i], c0.edge(), c0.drawn_edge());
    assert(m1.diagrams == w0.diagrams.update(i, d1));
    lemma_replaced_index(w0.diagrams, i, d1, c0.diagram());
    assert(diagram_index(m1.diagrams, c1.diagram()) == Some(i));
    lemma_create_edge_undoes(c1, c2, m1, m2, r2);
    let d2 = without_edge(m1.diagrams[i], c1.edge());
    lemma_replaced_index(m1.diagrams, i, d2, c0.diagram());
    assert(m1.elements.contains_key(c0.relationship()));
    assert(r2 == succeeded());
    assert(m2.diagrams == m1.diagrams.update(i, d2));
    assert(keys_unique(w0.diagrams[i].edges));
    lemma_keys_unique_preserved(w0.diagrams[i].edges, c0.edge().value, c0.drawn_edge());
    lemma_removed_lacks(m1.diagrams[i].edges, c1.edge().value);
    assert(m2.diagrams[i] == d2);
    assert(c2.held() == Some(m1.elements[c0.relationship()]));
    lemma_create_edge_executes(c2, c3, m2, m3, r3);
    let w2 = with_element(m2, c2.held()->0);
    assert(w2.diagrams == m2.diagrams);
    assert(diagram_index(w2.diagrams, c2.diagram()) == Some(i));
    let d3 = with_edge(w2.diagrams[i], c2.edge(), c2.drawn_edge());
    assert(m3.diagrams == w2.diagrams.update(i, d3));
    lemma_replaced_index(w2.diagrams, i, d3, c0.diagram());
    lemma_inserted_has(w2.diagrams[i].edges, c2.edge().value, c2.drawn_edge());
}

/// Redoing an edge creation after its undo succeeds and gives the model of
/// the first execution when the diagram had no edge under the command's
/// edge id or had it last: the relationship comes back as the undo held it,
/// and the edge goes last again, where the first execution put it.
#[verifier::rlimit(40)]
pub proof fn lemma_create_edge_redo_restores(
    c0: CreateEdge,
    c1: CreateEdge,
    m0: UmlModelView,
    m1: UmlModelView,
    c2: CreateEdge,
    m2: UmlModelView,
    r2: Result<(), CommandErrorView>,
)
    requires
        c0.inv(),
        model_valid(m0),
        c0.executes(c1, m0, m1, succeeded()),
        c1.undoes(c2, m1, m2, r2),
        match diagram_index(m0.diagrams, c0.diagram()) {
            Some(i) => has_key(m0.diagrams[i].edges, c0.edge().value) ==> m0.diagrams[i].edges.last().0
                == c0.edge().value,
            None => true,
        },
    ensures
        r2 == succeeded(),
        forall|c3: CreateEdge, m3: UmlModelView, r3: Result<(), CommandErrorView>|
            #[trigger] c2.executes(c3, m2, m3, r3) ==> m3 == m1 && r3 == succeeded(),
{
    lemma_create_edge_executes(c0, c1, m0, m1, succeeded());
    lemma_create_edge_holds_its_relationship(c0);
    if c0.held() is None {
        assert(invalid("CreateEdge already executed"@) != succeeded());
    }
    let e = c0.held()->0;
    let w0 = with_element(m0, e);
    if diagram_index(w0.diagrams, c0.diagram()) is None {
        assert(invalid("diagram not found"@) != succeeded());
    }
    let i = diagram_index(w0.diagrams, c0.diagram())->0;
    lemma_diagram_index(w0.diagrams, c0.diagram());
    let key = c0.edge().value;
    let e0 = w0.diagrams[i].edges;
    assert(keys_unique(e0));
    let d1 = with_edge(w0.diagrams[i], c0.edge(), c0.drawn_edge());
    let s1 = d1.edges;
    lemma_keys_unique_preserved(e0, key, c0.drawn_edge());
    if has_key(e0, key) {
        let k = key_index(e0, key);
        assert(e0[e0.len() - 1].0 == key);
        assert(k == e0.len() - 1);
    } else {
        assert(s1 == e0.push((key, c0.drawn_edge())));
    }
    assert(s1.last() == (key, c0.drawn_edge()));
    lemma_inserted_removed_last(s1, key);
    assert(m1.diagrams == w0.diagrams.update(i, d1));
    lemma_replaced_index(w0.diagrams, i, d1, c0.diagram());
    lemma_create_edge_undoes(c1, c2, m1, m2, r2);
    let d2 = without_edge(m1.diagrams[i], c1.edge());
    lemma_replaced_index(m1.diagrams, i, d2, c0.diagram());
    assert(m1.elements.contains_key(c0.relationship()));
    assert(m2.diagrams == m1.diagrams.update(i, d2));
    assert(c2.held() == Some(m1.elements[c0.relationship()]));
    assert forall|c3: CreateEdge, m3: UmlModelView, r3: Result<(), CommandErrorView>|
        #[trigger] c2.executes(c3, m2, m3, r3) implies m3 == m1 && r3 == succeeded() by {
        lemma_create_edge_executes(c2, c3, m2, m3, r3);
        let w2 = with_element(m2, c2.held()->0);
        assert(w2.diagrams == m2.diagrams);
        assert(diagram_index(w2.diagrams, c2.diagram()) == Some(i));
        let d3 = with_edge(w2.diagrams[i], c2.edge(), c2.drawn_edge());
        assert(d3 == d1);
        assert(m3.diagrams =~= m1.diagrams);
        assert(m3.elements =~= m1.elements);
    }
}

/// Redoing a node removal after its undo removes the node again, wherever
/// it stood on its diagram: the undo puts the node back at the diagram's
/// end, and the second removal gives the model of the first.
pub proof fn lemma_remove_node_redo_after_undo(
    c0: RemoveNodeFromDiagram,
    c1: RemoveNodeFromDiagram,
    m0: UmlModelView,
    m1: UmlModelView,
    c2: RemoveNodeFromDiagram,
    m2: UmlModelView,
    r2: Result<(), CommandErrorView>,
)
    requires
        model_valid(m0),
        c0.executes(c1, m0, m1, succeeded()),
        c1.undoes(c2, m1, m2, r2),
    ensures
        r2 == succeeded(),
        forall|c3: RemoveNodeFromDiagram, m3: UmlModelView, r3: Result<(), CommandErrorView>|
            #[trigger] c2.executes(c3, m2, m3, r3) ==> r3 == succeeded() && m3 == m1,
{
    lemma_remove_node_executes(c0, c1, m0, m1, succeeded());
    let i = diagram_index(m0.diagrams, c0.diagram())->0;
    lemma_diagram_index(m0.diagrams, c0.diagram());
    let d = m0.diagrams[i];
    let key = c0.target().value;
    assert(keys_unique(d.nodes));
    let nd = without_node(d, c0.target());
    lemma_replaced_index(m0.diagrams, i, nd, c0.diagram());
    assert(m1.diagrams[i] == nd);
    lemma_removed_lacks(d.nodes, key);
    lemma_remove_node_undoes(c1, c2, m1, m2, r2);
    assert forall|c3: RemoveNodeFromDiagram, m3: UmlModelView, r3: Result<(), CommandErrorView>|
        #[trigger] c2.executes(c3, m2, m3, r3) implies r3 == succeeded() && m3 == m1 by {
        lemma_remove_node_executes(c2, c3, m2, m3, r3);
        match c1.held() {
            Some(n) => {
                let d2 = with_node(nd, c0.target(), n);
                lemma_replaced_index(m1.diagrams, i, d2, c0.diagram());
                assert(m2.diagrams[i] == d2);
                lemma_removed_inserted(nd.nodes, key, n);
                assert(without_node(d2, c0.target()) == nd);
                assert(m3.diagrams =~= m1.diagrams);
            },
            None => {
                assert(removed(nd.nodes, key) == nd.nodes);
                assert(without_node(nd, c0.target()) == nd);
                assert(m3.diagrams =~= m1.diagrams);
            },
        }
    }
}

/// Giving an element metadata twice keeps the second.
proof fn lemma_with_base_twice(e: ModelElementView, x: ElementBaseView, y: ElementBaseView)
    ensures
        e.with_base(x).with_base(y) == e.with_base(y),
{
    match e {
        ModelElementView::Package(_) => {},
        ModelElementView::Class(_) => {},
        ModelElementView::Interface(_) => {},
        ModelElementView::Enum(_) => {},
        ModelElementView::Datatype(_) => {},
        ModelElementView::Relationship(_) => {},
        _ => {},
    }
}

/// Redoing a metadata edit after its undo: when an edit gives an element
/// metadata `b1`, the undo gives it other metadata, and the edit again
/// gives it `b1`, all three succeed and the model is the one of the first
/// edit.
pub proof fn lemma_base_edit_redone(
    id: UmlId,
    m0: UmlModelView,
    m1: UmlModelView,
    m2: UmlModelView,
    m3: UmlModelView,
    r2: Result<(), CommandErrorView>,
    r3: Result<(), CommandErrorView>,
    b1: ElementBaseView,
    b2: ElementBaseView,
)
    requires
        edits_base(id, m0, m1, succeeded(), b1),
        edits_base(id, m1, m2, r2, b2),
        edits_base(id, m2, m3, r3, b1),
    ensures
        r2 == succeeded(),
        r3 == succeeded(),
        m3 == m1,
{
    assert(m0.elements.contains_key(id));
    let e = m0.elements[id];
    assert(m1.elements.contains_key(id));
    assert(m2.elements.contains_key(id));
    lemma_with_base_twice(e.with_base(b1), b2, b1);
    lemma_with_base_twice(e, b1, b1);
    assert(m3.elements =~= m1.elements);
}

/// Redoing a rename after its undo succeeds and gives the model of the
/// first execution, whatever the element's name was before it.
pub proof fn lemma_rename_redo_after_undo(
    a: RenameElement,
    b: RenameElement,
    d: RenameElement,
    m0: UmlModelView,
    m1: UmlModelView,
    m2: UmlModelView,
    r2: Result<(), CommandErrorView>,
)
    requires
        a.executes(b, m0, m1, succeeded()),
        b.undoes(d, m1, m2, r2),
    ensures
        r2 == succeeded(),
        forall|e: RenameElement, m3: UmlModelView, r3: Result<(), CommandErrorView>|
            #[trigger] d.executes(e, m2, m3, r3) ==> m3 == m1 && r3 == succeeded(),
{
    let id = a.target();
    lemma_rename_executes(a, b, m0, m1, succeeded());
    let b1 = ElementBaseView { name: a.replacement(), ..m0.elements[id].base() };
    lemma_with_base_id(m0.elements[id], b1);
    lemma_rename_undoes(b, d, m1, m2, r2);
    let b2 = ElementBaseView { name: a.previous(), ..b1 };
    assert(m1.elements.contains_key(id));
    if m2.elements.contains_key(id) {
        lemma_with_base_id(m1.elements[id], b2);
    }
    assert forall|e: RenameElement, m3: UmlModelView, r3: Result<(), CommandErrorView>|
        #[trigger] d.executes(e, m2, m3, r3) implies m3 == m1 && r3 == succeeded() by {
        lemma_rename_executes(d, e, m2, m3, r3);
        assert(ElementBaseView { name: a.replacement(), ..b2 } == b1);
        lemma_base_edit_redone(id, m0, m1, m2, m3, r2, r3, b1, b2);
    }
    if r2 != succeeded() {
        lemma_base_edit_redone(id, m0, m1, m2, with_element_base(m2, id, b1), r2, succeeded(), b1, b2);
    }
}

/// Redoing a visibility change after its undo succeeds and gives the model of the
/// first execution, whatever the element's visibility was before it.
pub proof fn lemma_change_visibility_redo_after_undo(
    a: ChangeVisibility,
    b: ChangeVisibility,
    d: ChangeVisibility,
    m0: UmlModelView,
    m1: UmlModelView,
    m2: UmlModelView,
    r2: Result<(), CommandErrorView>,
)
    requires
        a.executes(b, m0, m1, succeeded()),
        b.undoes(d, m1, m2, r2),
    ensures
        r2 == succeeded(),
        forall|e: ChangeVisibility, m3: UmlModelView, r3: Result<(), CommandErrorView>|
            #[trigger] d.executes(e, m2, m3, r3) ==> m3 == m1 && r3 == succeeded(),
{
    let id = a.target();
    lemma_change_visibility_executes(a, b, m0, m1, succeeded());
    let b1 = ElementBaseView { visibility: a.replacement(), ..m0.elements[id].base() };
    lemma_with_base_id(m0.elements[id], b1);
    lemma_change_visibility_undoes(b, d, m1, m2, r2);
    let b2 = ElementBaseView { visibility: a.previous(), ..b1 };
    assert(m1.elements.contains_key(id));
    if m2.elements.contains_key(id) {
        lemma_with_base_id(m1.elements[id], b2);
    }
    assert forall|e: ChangeVisibility, m3: UmlModelView, r3: Result<(), CommandErrorView>|
        #[trigger] d.executes(e, m2, m3, r3) implies m3 == m1 && r3 == succeeded() by {
        lemma_change_visibility_executes(d, e, m2, m3, r3);
        assert(ElementBaseView { visibility: a.replacement(), ..b2 } == b1);
        lemma_base_edit_redone(id, m0, m1, m2, m3, r2, r3, b1, b2);
    }
    if r2 != succeeded() {
        lemma_base_edit_redone(id, m0, m1, m2, with_element_base(m2, id, b1), r2, succeeded(), b1, b2);
    }
}

/// Redoing a change of the abstract and static flags after its undo succeeds and gives the model of the
/// first execution, whatever the element's flags was before it.
pub proof fn lemma_change_flags_redo_after_undo(
    a: ChangeElementFlags,
    b: ChangeElementFlags,
    d: ChangeElementFlags,
    m0: UmlModelView,
    m1: UmlModelView,
    m2: UmlModelView,
    r2: Result<(), CommandErrorView>,
)
    requires
        a.executes(b, m0, m1, succeeded()),
        b.undoes(d, m1, m2, r2),
    ensures
        r2 == succeeded(),
        forall|e: ChangeElementFlags, m3: UmlModelView, r3: Result<(), CommandErrorView>|
            #[trigger] d.executes(e, m2, m3, r3) ==> m3 == m1 && r3 == succeeded(),
{
    let id = a.target();
    lemma_change_flags_executes(a, b, m0, m1, succeeded());
    let b1 = ElementBaseView { is_abstract: a.replacement().0, is_static: a.replacement().1, ..m0.elements[id].base() };
    lemma_with_base_id(m0.elements[id], b1);
    lemma_change_flags_undoes(b, d, m1, m2, r2);
    let b2 = ElementBaseView { is_abstract: a.previous().0, is_static: a.previous().1, ..b1 };
    assert(m1.elements.contains_key(id));
    if m2.elements.contains_key(id) {
        lemma_with_base_id(m1.elements[id], b2);
    }
    assert forall|e: ChangeElementFlags, m3: UmlModelView, r3: Result<(), CommandErrorView>|
        #[trigger] d.executes(e, m2, m3, r3) implies m3 == m1 && r3 == succeeded() by {
        lemma_change_flags_executes(d, e, m2, m3, r3);
        assert(ElementBaseView { is_abstract: a.replacement().0, is_static: a.replacement().1, ..b2 } == b1);
        lemma_base_edit_redone(id, m0, m1, m2, m3, r2, r3, b1, b2);
    }
    if r2 != succeeded() {
        lemma_base_edit_redone(id, m0, m1, m2, with_element_base(m2, id, b1), r2, succeeded(), b1, b2);
    }
}

/// Redoing a documentation change after its undo succeeds and gives the model of the
/// first execution, whatever the element's documentation was before it.
pub proof fn lemma_change_documentation_redo_after_undo(
    a: ChangeDocumentation,
    b: ChangeDocumentation,
    d: ChangeDocumentation,
    m0: UmlModelView,
    m1: UmlModelView,
    m2: UmlModelView,
    r2: Result<(), CommandErrorView>,
)
    requires
        a.executes(b, m0, m1, succeeded()),
        b.undoes(d, m1, m2, r2),
    ensures
        r2 == succeeded(),
        forall|e: ChangeDocumentation, m3: UmlModelView, r3: Result<(), CommandErrorView>|
            #[trigger] d.executes(e, m2, m3, r3) ==> m3 == m1 && r3 == succeeded(),
{
    let id = a.target();
    lemma_change_documentation_executes(a, b, m0, m1, succeeded());
    let b1 = ElementBaseView { documentation: a.replacement(), ..m0.elements[id].base() };
    lemma_with_base_id(m0.elements[id], b1);
    lemma_change_documentation_undoes(b, d, m1, m2, r2);
    let b2 = ElementBaseView { documentation: a.previous(), ..b1 };
    assert(m1.elements.contains_key(id));
    if m2.elements.contains_key(id) {
        lemma_with_base_id(m1.elements[id], b2);
    }
    assert forall|e: ChangeDocumentation, m3: UmlModelView, r3: Result<(), CommandErrorView>|
        #[trigger] d.executes(e, m2, m3, r3) implies m3 == m1 && r3 == succeeded() by {
        lemma_change_documentation_executes(d, e, m2, m3, r3);
        assert(ElementBaseView { documentation: a.replacement(), ..b2 } == b1);
        lemma_base_edit_redone(id, m0, m1, m2, m3, r2, r3, b1, b2);
    }
    if r2 != succeeded() {
        lemma_base_edit_redone(id, m0, m1, m2, with_element_base(m2, id, b1), r2, succeeded(), b1, b2);
    }
}

} // verus!
