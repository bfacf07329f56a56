//! Laws that relate the contributions of composite types to those of their
//! parts.
use vstd::prelude::*;
use crate::context::GenContextView;
use crate::input::{input_effect, param_names, param_views, relax};
use crate::openapi::{empty_operation, OperationView, ParameterView, ResponseView};
use crate::output::{
    bytes_response_view, inferred_effect, no_content_response_view, ok_status, response_effect,
    text_response_view,
};
use crate::shape::{PointerKind, Shape};

verus! {

/// Text, byte streams and the empty result each document exactly one
/// response: text and bytes under status 200 with their fixed content type,
/// the empty result under the context's "no content" status. A bare status
/// code documents no response at all.
pub proof fn lemma_fixed_mappings(c: GenContextView)
    ensures
        inferred_effect(Shape::Text, c).1 == seq![(Some(ok_status()), text_response_view())],
        inferred_effect(Shape::Bytes, c).1 == seq![(Some(ok_status()), bytes_response_view())],
        inferred_effect(Shape::Unit, c).1 == seq![(Some(c.no_content_status), no_content_response_view())],
        inferred_effect(Shape::StatusCode, c).1.len() == 0,
{
}

proof fn lemma_relax_keeps_names(ps: Seq<ParameterView>, names: Seq<Seq<char>>)
    ensures
        param_names(relax(ps, names)) == param_names(ps),
{
    assert(param_names(relax(ps, names)) =~= param_names(ps));
}

/// The parameter names an argument adds do not depend on the operation it is
/// added to: they follow the names that were there.
pub proof fn lemma_added_names(t: Shape, o: OperationView)
    ensures
        param_names(input_effect(t, o).parameters) == param_names(o.parameters) + param_names(
            input_effect(t, empty_operation()).parameters,
        ),
    decreases t,
{
    match t {
        Shape::Params(ps) => {
            assert(param_names(o.parameters + param_views(ps@)) =~= param_names(o.parameters)
                + param_names(param_views(ps@)));
            assert(empty_operation().parameters + param_views(ps@) =~= param_views(ps@));
        },
        Shape::Optional(inner) => {
            lemma_added_names(*inner, o);
            lemma_added_names(*inner, empty_operation());
            let scratch = input_effect(*inner, empty_operation());
            lemma_relax_keeps_names(input_effect(*inner, o).parameters, param_names(scratch.parameters));
            lemma_relax_keeps_names(scratch.parameters, param_names(scratch.parameters));
            assert(param_names(empty_operation().parameters) =~= seq![]);
            assert(seq![] + param_names(scratch.parameters) =~= param_names(scratch.parameters));
        },
        Shape::Fallible(inner, _) => lemma_added_names(*inner, o),
        Shape::Pointer(_, inner) => lemma_added_names(*inner, o),
        _ => {
            assert(param_names(empty_operation().parameters) =~= seq![]);
            assert(param_names(o.parameters) + seq![] =~= param_names(o.parameters));
        },
    }
}

/// Wrapping an argument type in the optional wrapper keeps every parameter
/// name the inner type declares, marks each parameter of such a name not
/// required, and leaves the request body as the inner type set it.
pub proof fn lemma_optional_relaxes(t: Shape, o: OperationView, name: Seq<char>)
    requires
        param_names(input_effect(t, empty_operation()).parameters).contains(name),
    ensures
        param_names(input_effect(Shape::Optional(Box::new(t)), o).parameters).contains(name),
        forall|i: int|
            0 <= i < input_effect(Shape::Optional(Box::new(t)), o).parameters.len()
                && (#[trigger] input_effect(Shape::Optional(Box::new(t)), o).parameters[i]).name == name
                ==> !input_effect(Shape::Optional(Box::new(t)), o).parameters[i].required,
        input_effect(Shape::Optional(Box::new(t)), o).request_body == input_effect(t, o).request_body,
{
    let scratch = input_effect(t, empty_operation());
    let applied = input_effect(t, o);
    lemma_added_names(t, o);
    lemma_relax_keeps_names(applied.parameters, param_names(scratch.parameters));
    let names = param_names(input_effect(t, o).parameters);
    let k = choose|k: int| 0 <= k < param_names(scratch.parameters).len() && param_names(scratch.parameters)[k] == name;
    assert(names[param_names(o.parameters).len() + k] == name);
}

/// The fallible wrapper documents the success type's responses followed by
/// the error type's, in that order, with none merged or dropped.
pub proof fn lemma_fallible_concatenates(
    s: Shape,
    e: Shape,
    c: GenContextView,
    a: ResponseView,
    b: ResponseView,
)
    requires
        inferred_effect(s, c).1 == seq![(Some(200u16), a)],
        inferred_effect(e, inferred_effect(s, c).0).1 == seq![(Some(400u16), b)],
    ensures
        inferred_effect(Shape::Fallible(Box::new(s), Box::new(e)), c).1 == seq![(Some(200u16), a), (Some(400u16), b)],
        response_effect(Shape::Fallible(Box::new(s), Box::new(e)), c) == response_effect(s, c),
{
    assert(seq![(Some(200u16), a)] + seq![(Some(400u16), b)] =~= seq![(Some(200u16), a), (Some(400u16), b)]);
}

/// A pointer or reference of any kind documents exactly what its inner
/// type documents, as an argument and as a result.
pub proof fn lemma_pointer_transparent(k: PointerKind, t: Shape, c: GenContextView, o: OperationView)
    ensures
        input_effect(Shape::Pointer(k, Box::new(t)), o) == input_effect(t, o),
        response_effect(Shape::Pointer(k, Box::new(t)), c) == response_effect(t, c),
        inferred_effect(Shape::Pointer(k, Box::new(t)), c) == inferred_effect(t, c),
{
}

} // verus!
