//! Descriptions of the types that handlers take and return.
use vstd::prelude::*;
use crate::context::SchemaSource;
use crate::openapi::Parameter;

verus! {

/// The kinds of indirection that carry no documentation of their own.
#[derive(Clone, Copy, Debug, PartialEq, Eq, Structural)]
pub enum PointerKind {
    Boxed,
    Rc,
    Arc,
    Ref,
    Cow,
}

/// The documentation-relevant shape of a handler argument or return type.
pub enum Shape {
    /// A JSON body of a schema-backed type.
    Json(SchemaSource),
    /// A form-encoded body of a schema-backed type.
    Form(SchemaSource),
    /// An HTML page.
    Html,
    /// A redirect, whose status the handler chooses.
    Redirect,
    /// Plain text (owned, borrowed or copy-on-write).
    Text,
    /// Raw bytes (owned, borrowed or copy-on-write).
    Bytes,
    /// The empty result.
    Unit,
    /// A bare status code.
    StatusCode,
    /// Request metadata: method, URI, headers, protocol version.
    Metadata,
    /// An input that declares the given parameters (a query or a path).
    Params(Vec<Parameter>),
    /// An optional value.
    Optional(Box<Shape>),
    /// A success type and an error type.
    Fallible(Box<Shape>, Box<Shape>),
    /// A transparent pointer or reference to the inner type.
    Pointer(PointerKind, Box<Shape>),
}

} // verus!
