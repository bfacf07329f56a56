//! What a type documents when a handler returns it.
use vstd::prelude::*;
use vstd::string::*;
use crate::content::{empty_content, single_content};
use crate::context::{schema_effect, GenContext, GenContextView, SchemaSource};
use crate::openapi::{
    opt_response_view, responses_view, MediaType, Response, ResponseView, SchemaRef, SchemaView,
};
use crate::shape::Shape;

verus! {

pub open spec fn text_plain() -> Seq<char> {
    "text/plain; charset=utf-8"@
}

pub open spec fn octet_stream() -> Seq<char> {
    "application/octet-stream"@
}

pub open spec fn application_json() -> Seq<char> {
    "application/json"@
}

pub open spec fn form_urlencoded() -> Seq<char> {
    "application/x-www-form-urlencoded"@
}

pub open spec fn text_html() -> Seq<char> {
    "text/html"@
}

/// The inline schema of a string.
pub open spec fn string_schema() -> Seq<char> {
    "{\"type\":\"string\"}"@
}

/// The status under which a body-carrying response is documented.
pub open spec fn ok_status() -> u16 {
    200
}

pub open spec fn text_response_view() -> ResponseView {
    ResponseView { description: "plain text"@, content: seq![(text_plain(), None)] }
}

pub open spec fn bytes_response_view() -> ResponseView {
    ResponseView { description: "byte stream"@, content: seq![(octet_stream(), None)] }
}

pub open spec fn html_response_view() -> ResponseView {
    ResponseView {
        description: "HTML content"@,
        content: seq![(text_html(), Some(SchemaView::Inline(string_schema())))],
    }
}

pub open spec fn redirect_response_view() -> ResponseView {
    ResponseView { description: "A redirect to the described URL"@, content: seq![] }
}

pub open spec fn no_content_response_view() -> ResponseView {
    ResponseView { description: "no content"@, content: seq![] }
}

/// A schema-backed body of the given content type: its schema is resolved in
/// the context, and its description is the schema's, or empty.
pub open spec fn schema_response_effect(c: GenContextView, s: SchemaSource, content_type: Seq<char>) -> (
    GenContextView,
    ResponseView,
) {
    let (c2, r) = schema_effect(c, s);
    let description = match s.description {
        Some(d) => d@,
        None => Seq::<char>::empty(),
    };
    (c2, ResponseView { description, content: seq![(content_type, Some(r))] })
}

/// The single canonical response of a type, and the context after it.
pub open spec fn response_effect(ty: Shape, c: GenContextView) -> (GenContextView, Option<ResponseView>)
    decreases ty,
{
    match ty {
        Shape::Json(s) => {
            let (c2, r) = schema_response_effect(c, s, application_json());
            (c2, Some(r))
        },
        Shape::Form(s) => {
            let (c2, r) = schema_response_effect(c, s, form_urlencoded());
            (c2, Some(r))
        },
        Shape::Html => (c, Some(html_response_view())),
        Shape::Redirect => (c, Some(redirect_response_view())),
        Shape::Text => (c, Some(text_response_view())),
        Shape::Bytes => (c, Some(bytes_response_view())),
        Shape::Unit => (c, Some(no_content_response_view())),
        Shape::StatusCode => (c, None),
        Shape::Metadata => (c, None),
        Shape::Params(_) => (c, None),
        Shape::Optional(t) => response_effect(*t, c),
        Shape::Fallible(t, _) => response_effect(*t, c),
        Shape::Pointer(_, t) => response_effect(*t, c),
    }
}

/// Every (status, response) pair a type can produce, and the context after
/// it. A fallible type lists its success type's pairs, then its error type's,
/// with no pair dropped.
pub open spec fn inferred_effect(ty: Shape, c: GenContextView) -> (
    GenContextView,
    Seq<(Option<u16>, ResponseView)>,
)
    decreases ty,
{
    match ty {
        Shape::Json(_) | Shape::Form(_) | Shape::Html | Shape::Text | Shape::Bytes => {
            let (c2, r) = response_effect(ty, c);
            (c2, seq![(Some(ok_status()), r.unwrap())])
        },
        Shape::Unit => (c, seq![(Some(c.no_content_status), no_content_response_view())]),
        Shape::Redirect | Shape::StatusCode | Shape::Metadata | Shape::Params(_) => (c, seq![]),
        Shape::Optional(t) => inferred_effect(*t, c),
        Shape::Fallible(t, e) => {
            let (c1, a) = inferred_effect(*t, c);
            let (c2, b) = inferred_effect(*e, c1);
            (c2, a + b)
        },
        Shape::Pointer(_, t) => inferred_effect(*t, c),
    }
}

/// The plain-text response.
pub fn text_response() -> (r: Response)
    ensures
        r@ == text_response_view(),
{
    let content = single_content(String::from_str("text/plain; charset=utf-8"), MediaType { schema: None });
    let r = Response { description: String::from_str("plain text"), content };
    proof {
        reveal_strlit("text/plain; charset=utf-8");
        reveal_strlit("plain text");
        assert(r@.content =~= text_response_view().content);
    }
    r
}

/// The byte-stream response.
pub fn bytes_response() -> (r: Response)
    ensures
        r@ == bytes_response_view(),
{
    let content = single_content(String::from_str("application/octet-stream"), MediaType { schema: None });
    let r = Response { description: String::from_str("byte stream"), content };
    proof {
        reveal_strlit("application/octet-stream");
        reveal_strlit("byte stream");
        assert(r@.content =~= bytes_response_view().content);
    }
    r
}

/// The HTML response: a string schema under `text/html`.
pub fn html_response() -> (r: Response)
    ensures
        r@ == html_response_view(),
{
    let media = MediaType { schema: Some(SchemaRef::Inline(String::from_str("{\"type\":\"string\"}"))) };
    let content = single_content(String::from_str("text/html"), media);
    let r = Response { description: String::from_str("HTML content"), content };
    proof {
        reveal_strlit("{\"type\":\"string\"}");
        reveal_strlit("text/html");
        reveal_strlit("HTML content");
        assert(r@.content =~= html_response_view().content);
    }
    r
}

/// The redirect response: a fixed description and no body.
pub fn redirect_response() -> (r: Response)
    ensures
        r@ == redirect_response_view(),
{
    let r = Response::bodyless(String::from_str("A redirect to the described URL"));
    proof {
        reveal_strlit("A redirect to the described URL");
        assert(r@.content =~= redirect_response_view().content);
    }
    r
}

/// The response of the empty result: no body.
pub fn no_content_response() -> (r: Response)
    ensures
        r@ == no_content_response_view(),
{
    let r = Response::bodyless(String::from_str("no content"));
    proof {
        reveal_strlit("no content");
        assert(r@.content =~= no_content_response_view().content);
    }
    r
}

/// A schema-backed response under `content_type`.
pub fn schema_response(ctx: &mut GenContext, source: &SchemaSource, content_type: String) -> (r: Response)
    requires
        old(ctx).wf(),
    ensures
        final(ctx).wf(),
        (final(ctx)@, r@) == schema_response_effect(old(ctx)@, *source, content_type@),
{
    let schema = ctx.schema_for(source);
    let description = match &source.description {
        Some(d) => d.clone(),
        None => String::new(),
    };
    let r = Response { description, content: single_content(content_type, MediaType { schema: Some(schema) }) };
    proof {
        assert(r@.content =~= schema_response_effect(old(ctx)@, *source, content_type@).1.content);
    }
    r
}

/// The single canonical response of a type, if it has one.
pub fn operation_response(ctx: &mut GenContext, ty: &Shape) -> (r: Option<Response>)
    requires
        old(ctx).wf(),
    ensures
        final(ctx).wf(),
        (final(ctx)@, opt_response_view(r)) == response_effect(*ty, old(ctx)@),
    decreases ty,
{
    match ty {
        Shape::Json(s) => {
            let r = schema_response(ctx, s, String::from_str("application/json"));
            proof { reveal_strlit("application/json"); }
            Some(r)
        },
        Shape::Form(s) => {
            let r = schema_response(ctx, s, String::from_str("application/x-www-form-urlencoded"));
            proof { reveal_strlit("application/x-www-form-urlencoded"); }
            Some(r)
        },
        Shape::Html => Some(html_response()),
        Shape::Redirect => Some(redirect_response()),
        Shape::Text => Some(text_response()),
        Shape::Bytes => Some(bytes_response()),
        Shape::Unit => Some(no_content_response()),
        Shape::StatusCode | Shape::Metadata | Shape::Params(_) => None,
        Shape::Optional(t) => operation_response(ctx, t),
        Shape::Fallible(t, _) => operation_response(ctx, t),
        Shape::Pointer(_, t) => operation_response(ctx, t),
    }
}

/// Every (status, response) pair a type can produce, in order.
pub fn inferred_responses(ctx: &mut GenContext, ty: &Shape) -> (r: Vec<(Option<u16>, Response)>)
    requires
        old(ctx).wf(),
    ensures
        final(ctx).wf(),
        (final(ctx)@, responses_view(r@)) == inferred_effect(*ty, old(ctx)@),
    decreases ty,
{
    match ty {
        Shape::Json(_) | Shape::Form(_) | Shape::Html | Shape::Text | Shape::Bytes => {
            let ghost c0 = ctx@;
            let mut out: Vec<(Option<u16>, Response)> = Vec::new();
            if let Some(res) = operation_response(ctx, ty) {
                out.push((Some(200), res));
            }
            proof {
                assert(responses_view(out@) =~= inferred_effect(*ty, c0).1);
            }
            out
        },
        Shape::Unit => {
            let mut out: Vec<(Option<u16>, Response)> = Vec::new();
            out.push((Some(ctx.no_content_status), no_content_response()));
            proof {
                assert(responses_view(out@) =~= inferred_effect(*ty, ctx@).1);
            }
            out
        },
        Shape::Redirect | Shape::StatusCode | Shape::Metadata | Shape::Params(_) => {
            let out: Vec<(Option<u16>, Response)> = Vec::new();
            proof {
                assert(responses_view(out@) =~= inferred_effect(*ty, ctx@).1);
            }
            out
        },
        Shape::Optional(t) => inferred_responses(ctx, t),
        Shape::Pointer(_, t) => inferred_responses(ctx, t),
        Shape::Fallible(t, e) => {
            let mut responses = inferred_responses(ctx, t);
            let mut rest = inferred_responses(ctx, e);
            let ghost a = responses@;
            let ghost b = rest@;
            responses.append(&mut rest);
            proof {
                assert(responses_view(responses@) =~= responses_view(a) + responses_view(b));
            }
            responses
        },
    }
}

} // verus!
