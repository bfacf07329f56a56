//! What a type documents when a handler takes it as an argument.
use vstd::prelude::*;
use vstd::string::*;
use crate::content::single_content;
use crate::openapi::{
    empty_operation, responses_view, MediaType, Operation, OperationView, Parameter, ParameterView,
    RequestBody, RequestBodyView, Response,
};
use crate::output::{octet_stream, text_plain};
use crate::shape::Shape;

verus! {

pub open spec fn text_body_view() -> RequestBodyView {
    RequestBodyView { content: seq![(text_plain(), None)], required: true }
}

pub open spec fn bytes_body_view() -> RequestBodyView {
    RequestBodyView { content: seq![(octet_stream(), None)], required: true }
}

/// The operation with its request body set to `b`.
pub open spec fn with_body(o: OperationView, b: RequestBodyView) -> OperationView {
    OperationView { request_body: Some(b), ..o }
}

pub open spec fn param_views(ps: Seq<Parameter>) -> Seq<ParameterView> {
    ps.map_values(|p: Parameter| p@)
}

pub open spec fn param_names(ps: Seq<ParameterView>) -> Seq<Seq<char>> {
    ps.map_values(|p: ParameterView| p.name)
}

/// The parameters with every one whose name is in `names` marked not
/// required, and the rest unchanged.
pub open spec fn relax(ps: Seq<ParameterView>, names: Seq<Seq<char>>) -> Seq<ParameterView> {
    ps.map_values(|p: ParameterView| relax_one(p, names))
}

pub open spec fn relax_one(p: ParameterView, names: Seq<Seq<char>>) -> ParameterView {
    if names.contains(p.name) {
        ParameterView { name: p.name, location: p.location, required: false, schema: p.schema }
    } else {
        p
    }
}

/// The operation after a type of shape `ty` has contributed to it as an
/// argument.
pub open spec fn input_effect(ty: Shape, o: OperationView) -> OperationView
    decreases ty,
{
    match ty {
        Shape::Text => with_body(o, text_body_view()),
        Shape::Bytes => with_body(o, bytes_body_view()),
        Shape::Params(ps) => OperationView { parameters: o.parameters + param_views(ps@), ..o },
        Shape::Optional(t) => {
            let scratch = input_effect(*t, empty_operation());
            let applied = input_effect(*t, o);
            OperationView { parameters: relax(applied.parameters, param_names(scratch.parameters)), ..applied }
        },
        Shape::Fallible(t, _) => input_effect(*t, o),
        Shape::Pointer(_, t) => input_effect(*t, o),
        _ => o,
    }
}

/// Sets the request body of the operation, replacing any earlier one.
pub fn set_body(operation: &mut Operation, body: RequestBody)
    ensures
        final(operation)@ == with_body(old(operation)@, body@),
{
    operation.request_body = Some(body);
}

/// The required plain-text request body.
pub fn text_request_body() -> (r: RequestBody)
    ensures
        r@ == text_body_view(),
{
    let r = RequestBody {
        content: single_content(String::from_str("text/plain; charset=utf-8"), MediaType { schema: None }),
        required: true,
    };
    proof {
        reveal_strlit("text/plain; charset=utf-8");
        assert(r@.content =~= text_body_view().content);
    }
    r
}

/// The required byte-stream request body.
pub fn bytes_request_body() -> (r: RequestBody)
    ensures
        r@ == bytes_body_view(),
{
    let r = RequestBody {
        content: single_content(String::from_str("application/octet-stream"), MediaType { schema: None }),
        required: true,
    };
    proof {
        reveal_strlit("application/octet-stream");
        assert(r@.content =~= bytes_body_view().content);
    }
    r
}

/// Whether a parameter of that name is among `ps`.
fn has_parameter_named(ps: &Vec<Parameter>, name: &String) -> (r: bool)
    ensures
        r == param_names(param_views(ps@)).contains(name@),
{
    let mut i: usize = 0;
    while i < ps.len()
        invariant
            i <= ps@.len(),
            forall|j: int| 0 <= j < i ==> (#[trigger] ps@[j]).name@ != name@,
        decreases ps@.len() - i,
    {
        if ps[i].name == *name {
            assert(param_names(param_views(ps@))[i as int] == name@);
            return true;
        }
        i += 1;
    }
    proof {
        if param_names(param_views(ps@)).contains(name@) {
            let k = choose|k: int|
                0 <= k < param_names(param_views(ps@)).len() && param_names(param_views(ps@))[k] == name@;
            assert(ps@[k].name@ == name@);
        }
    }
    false
}

/// Marks every parameter whose name one of `scratch` carries as not required.
fn relax_parameters(params: &mut Vec<Parameter>, scratch: &Vec<Parameter>)
    ensures
        param_views(final(params)@) == relax(param_views(old(params)@), param_names(param_views(scratch@))),
{
    let ghost names = param_names(param_views(scratch@));
    let ghost target = relax(param_views(old(params)@), names);
    let mut i: usize = 0;
    while i < params.len()
        invariant
            i <= params@.len(),
            params@.len() == old(params)@.len(),
            names == param_names(param_views(scratch@)),
            target == relax(param_views(old(params)@), names),
            target.len() == params@.len(),
            forall|j: int| 0 <= j < i ==> (#[trigger] params@[j])@ == target[j],
            forall|j: int| i <= j < params@.len() ==> (#[trigger] params@[j]) == old(params)@[j],
        decreases params@.len() - i,
    {
        assert(param_views(old(params)@)[i as int] == old(params)@[i as int]@);
        assert(target[i as int] == relax_one(params@[i as int]@, names));
        if has_parameter_named(scratch, &params[i].name) {
            let mut p = params[i].cloned();
            p.required = false;
            params.set(i, p);
        }
        assert(params@[i as int]@ == target[i as int]);
        i += 1;
    }
    assert(param_views(params@) =~= target);
}

/// Adds what a type of shape `ty` documents as a handler argument: its
/// parameters, or its request body.
pub fn operation_input(operation: &mut Operation, ty: &Shape)
    ensures
        final(operation)@ == input_effect(*ty, old(operation)@),
    decreases ty,
{
    match ty {
        Shape::Text => set_body(operation, text_request_body()),
        Shape::Bytes => set_body(operation, bytes_request_body()),
        Shape::Params(ps) => {
            let ghost before = operation.parameters@;
            let mut i: usize = 0;
            while i < ps.len()
                invariant
                    i <= ps@.len(),
                    operation.request_body == old(operation).request_body,
                    operation.responses == old(operation).responses,
                    operation.parameters@.len() == before.len() + i,
                    forall|j: int| 0 <= j < before.len() ==> operation.parameters@[j] == before[j],
                    forall|j: int| 0 <= j < i ==> (#[trigger] operation.parameters@[before.len() + j])@ == ps@[j]@,
                decreases ps@.len() - i,
            {
                operation.parameters.push(ps[i].cloned());
                i += 1;
            }
            assert forall|k: int| 0 <= k < operation.parameters@.len() implies
                (#[trigger] param_views(operation.parameters@)[k]) == (param_views(before) + param_views(ps@))[k] by {
                if k >= before.len() {
                    let j = k - before.len();
                    assert(operation.parameters@[before.len() + j]@ == ps@[j]@);
                }
            }
            assert(param_views(operation.parameters@) =~= param_views(before) + param_views(ps@));
        },
        Shape::Optional(t) => {
            let mut scratch = Operation::new();
            operation_input(&mut scratch, t);
            operation_input(operation, t);
            if scratch.parameters.len() == 0 {
                assert(param_names(param_views(scratch.parameters@)) =~= seq![]);
                assert(relax(param_views(operation.parameters@), seq![]) =~= param_views(operation.parameters@));
                return;
            }
            relax_parameters(&mut operation.parameters, &scratch.parameters);
        },
        Shape::Fallible(t, _) => operation_input(operation, t),
        Shape::Pointer(_, t) => operation_input(operation, t),
        _ => {},
    }
}

/// The responses a type forces before the handler runs. None of the
/// described argument types fails early, and the fallible and pointer
/// wrappers pass their inner type's on.
pub fn inferred_early_responses(ty: &Shape) -> (r: Vec<(Option<u16>, Response)>)
    ensures
        r@.len() == 0,
    decreases ty,
{
    match ty {
        Shape::Fallible(t, _) => inferred_early_responses(t),
        Shape::Pointer(_, t) => inferred_early_responses(t),
        _ => Vec::new(),
    }
}

} // verus!
