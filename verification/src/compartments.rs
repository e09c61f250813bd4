//! The text lines of a node's compartments as the canvas shows them:
//! attributes and operations with their visibility marks and types, and
//! enumeration literals with their values.
use crate::editor::{type_display, visibility_mark, visibility_symbol};
use crate::elements::{
    type_display_spec, Attribute, AttributeView, EnumLiteral, EnumLiteralView, Operation, OperationView, Parameter,
    ParameterView,
};
use crate::repository::{UmlModel, UmlModelView};
use crate::text::owned;
use vstd::prelude::*;

verus! {

/// `<mark> <name>: <type>` for an attribute.
pub open spec fn attribute_line(a: AttributeView, m: UmlModelView) -> Seq<char> {
    visibility_mark(a.visibility) + " "@ + a.name + ": "@ + type_display_spec(a.type_ref, Some(m))
}

/// `<name>: <type>` for a parameter.
pub open spec fn parameter_text(p: ParameterView, m: UmlModelView) -> Seq<char> {
    p.name + ": "@ + type_display_spec(p.type_ref, Some(m))
}

/// The parameters' texts, separated by `, `.
pub open spec fn parameter_list(ps: Seq<ParameterView>, m: UmlModelView) -> Seq<char>
    decreases ps.len(),
{
    if ps.len() == 0 {
        Seq::empty()
    } else if ps.len() == 1 {
        parameter_text(ps[0], m)
    } else {
        parameter_list(ps.drop_last(), m) + ", "@ + parameter_text(ps.last(), m)
    }
}

/// `<mark> <name>(<parameters>): <return type>` for an operation.
pub open spec fn operation_line(o: OperationView, m: UmlModelView) -> Seq<char> {
    visibility_mark(o.visibility) + " "@ + o.name + "("@ + parameter_list(o.parameters, m) + "): "@
        + type_display_spec(o.return_type, Some(m))
}

/// `<name> = <value>` for a literal with a value, else its name.
pub open spec fn literal_line(l: EnumLiteralView) -> Seq<char> {
    match l.value {
        Some(v) => l.name + " = "@ + v,
        None => l.name,
    }
}

/// The line of an attribute (see `attribute_line`).
pub fn attribute_line_text(a: &Attribute, model: &UmlModel) -> (s: String)
    requires
        model.wf(),
    ensures
        s@ == attribute_line(a@, model@),
{
    let mut s = owned(visibility_symbol(a.visibility));
    s.append(" ");
    s.append(a.name.as_str());
    s.append(": ");
    let t = type_display(&a.type_ref, Some(model));
    s.append(t.as_str());
    s
}

/// The line of a parameter (see `parameter_text`).
fn parameter_text_of(p: &Parameter, model: &UmlModel) -> (s: String)
    requires
        model.wf(),
    ensures
        s@ == parameter_text(p@, model@),
{
    let mut s = owned(p.name.as_str());
    s.append(": ");
    let t = type_display(&p.type_ref, Some(model));
    s.append(t.as_str());
    s
}

/// The parameters' texts, separated by `, ` (see `parameter_list`).
fn parameter_list_text(ps: &Vec<Parameter>, model: &UmlModel) -> (s: String)
    requires
        model.wf(),
    ensures
        s@ == parameter_list(ps@.map_values(|p: Parameter| p@), model@),
{
    let ghost v = ps@.map_values(|p: Parameter| p@);
    let mut s = String::new();
    let mut i: usize = 0;
    assert(v.take(0) =~= Seq::<ParameterView>::empty());
    while i < ps.len()
        invariant
            0 <= i <= ps.len(),
            v == ps@.map_values(|p: Parameter| p@),
            model.wf(),
            s@ == parameter_list(v.take(i as int), model@),
        decreases ps.len() - i,
    {
        let t = parameter_text_of(&ps[i], model);
        proof {
            assert(v.take(i + 1).drop_last() =~= v.take(i as int));
            assert(v.take(i + 1).last() == v[i as int]);
        }
        if i > 0 {
            s.append(", ");
        } else {
            assert(s@ =~= Seq::<char>::empty());
        }
        s.append(t.as_str());
        i += 1;
    }
    assert(v.take(ps.len() as int) =~= v);
    s
}

/// The line of an operation (see `operation_line`).
pub fn operation_line_text(o: &Operation, model: &UmlModel) -> (s: String)
    requires
        model.wf(),
    ensures
        s@ == operation_line(o@, model@),
{
    let mut s = owned(visibility_symbol(o.visibility));
    s.append(" ");
    s.append(o.name.as_str());
    s.append("(");
    let ps = parameter_list_text(&o.parameters, model);
    s.append(ps.as_str());
    s.append("): ");
    let t = type_display(&o.return_type, Some(model));
    s.append(t.as_str());
    s
}

/// The line of an enumeration literal (see `literal_line`).
pub fn literal_line_text(l: &EnumLiteral) -> (s: String)
    ensures
        s@ == literal_line(l@),
{
    let mut s = owned(l.name.as_str());
    match &l.value {
        Some(v) => {
            s.append(" = ");
            s.append(v.as_str());
        },
        None => {},
    }
    s
}

/// Adding a parameter after others adds `, ` and its text at the end.
pub proof fn lemma_parameter_list_push(ps: Seq<ParameterView>, p: ParameterView, m: UmlModelView)
    requires
        ps.len() > 0,
    ensures
        parameter_list(ps.push(p), m) == parameter_list(ps, m) + ", "@ + parameter_text(p, m),
{
    assert(ps.push(p).drop_last() =~= ps);
}

/// The list of one parameter is its text; the list of none is empty.
pub proof fn lemma_parameter_list_short(p: ParameterView, m: UmlModelView)
    ensures
        parameter_list(Seq::<ParameterView>::empty(), m) == Seq::<char>::empty(),
        parameter_list(seq![p], m) == parameter_text(p, m),
{
}

/// The list of two runs of parameters is the list of the first, `, `, and
/// the list of the second: every parameter appears, in order, each once.
pub proof fn lemma_parameter_list_concat(a: Seq<ParameterView>, b: Seq<ParameterView>, m: UmlModelView)
    requires
        a.len() > 0,
        b.len() > 0,
    ensures
        parameter_list(a + b, m) == parameter_list(a, m) + ", "@ + parameter_list(b, m),
    decreases b.len(),
{
    if b.len() == 1 {
        assert((a + b).drop_last() =~= a);
        assert((a + b).last() == b[0]);
    } else {
        let b1 = b.drop_last();
        lemma_parameter_list_concat(a, b1, m);
        assert((a + b).drop_last() =~= a + b1);
        assert((a + b).last() == b.last());
        assert(parameter_list(a + b, m) =~= parameter_list(a, m) + ", "@ + (parameter_list(b1, m) + ", "@
            + parameter_text(b.last(), m)));
    }
}

/// The text of a parameter list is as long as the parameters' texts
/// together with one `, ` between each two of them.
pub proof fn lemma_parameter_list_len(ps: Seq<ParameterView>, m: UmlModelView)
    ensures
        parameter_list(ps, m).len() == texts_len(ps, m) + if ps.len() == 0 {
            0
        } else {
            2 * (ps.len() - 1)
        },
    decreases ps.len(),
{
    reveal_strlit(", ");
    if ps.len() == 1 {
        assert(ps.drop_last().len() == 0);
        assert(texts_len(ps.drop_last(), m) == 0);
        assert(ps.last() == ps[0]);
    } else if ps.len() > 1 {
        lemma_parameter_list_len(ps.drop_last(), m);
    }
}

/// The total length of the parameters' texts.
pub open spec fn texts_len(ps: Seq<ParameterView>, m: UmlModelView) -> int
    decreases ps.len(),
{
    if ps.len() == 0 {
        0
    } else {
        texts_len(ps.drop_last(), m) + parameter_text(ps.last(), m).len()
    }
}

} // verus!
