//! The documentation fragments that contributors produce, and their models.
use vstd::prelude::*;
use crate::content::{content_entries, empty_content};
use indexmap::IndexMap;

verus! {

/// Where a parameter is read from.
#[derive(Clone, Copy, Debug, PartialEq, Eq, Structural)]
pub enum ParameterLocation {
    Query,
    Path,
    Header,
    Cookie,
}

/// A schema as a fragment refers to it: by component name, or written out
/// in place as JSON text.
#[derive(Clone, Debug, PartialEq, Eq)]
pub enum SchemaRef {
    Component(String),
    Inline(String),
}

pub enum SchemaView {
    Component(Seq<char>),
    Inline(Seq<char>),
}

impl SchemaRef {
    pub open spec fn view(&self) -> SchemaView {
        match self {
            SchemaRef::Component(n) => SchemaView::Component(n@),
            SchemaRef::Inline(s) => SchemaView::Inline(s@),
        }
    }
}

pub open spec fn opt_schema_view(s: Option<SchemaRef>) -> Option<SchemaView> {
    match s {
        Some(r) => Some(r@),
        None => None,
    }
}

/// The schema of one content type of a body.
#[derive(Clone, Debug, PartialEq, Eq)]
pub struct MediaType {
    pub schema: Option<SchemaRef>,
}

impl MediaType {
    pub open spec fn view(&self) -> Option<SchemaView> {
        opt_schema_view(self.schema)
    }
}

/// A content map as a sequence of (content type, schema) pairs.
pub open spec fn content_view(m: IndexMap<String, MediaType>) -> Seq<(Seq<char>, Option<SchemaView>)> {
    content_entries(m).map_values(|e: (Seq<char>, MediaType)| (e.0, e.1@))
}

/// A parameter of an operation.
#[derive(Clone, Debug, PartialEq, Eq)]
pub struct Parameter {
    pub name: String,
    pub location: ParameterLocation,
    pub required: bool,
    pub schema: Option<SchemaRef>,
}

impl SchemaRef {
    /// A copy of this reference.
    pub fn cloned(&self) -> (r: SchemaRef)
        ensures
            r@ == self@,
    {
        match self {
            SchemaRef::Component(n) => SchemaRef::Component(n.clone()),
            SchemaRef::Inline(s) => SchemaRef::Inline(s.clone()),
        }
    }
}

impl Parameter {
    /// A copy of this parameter.
    pub fn cloned(&self) -> (r: Parameter)
        ensures
            r@ == self@,
    {
        let schema = match &self.schema {
            Some(s) => Some(s.cloned()),
            None => None,
        };
        Parameter { name: self.name.clone(), location: self.location, required: self.required, schema }
    }
}

pub struct ParameterView {
    pub name: Seq<char>,
    pub location: ParameterLocation,
    pub required: bool,
    pub schema: Option<SchemaView>,
}

impl Parameter {
    pub open spec fn view(&self) -> ParameterView {
        ParameterView {
            name: self.name@,
            location: self.location,
            required: self.required,
            schema: opt_schema_view(self.schema),
        }
    }
}

/// The request body of an operation.
#[derive(Debug, PartialEq)]
pub struct RequestBody {
    pub content: IndexMap<String, MediaType>,
    pub required: bool,
}

pub struct RequestBodyView {
    pub content: Seq<(Seq<char>, Option<SchemaView>)>,
    pub required: bool,
}

impl RequestBody {
    pub open spec fn view(&self) -> RequestBodyView {
        RequestBodyView { content: content_view(self.content), required: self.required }
    }
}

/// One documented response.
#[derive(Debug, PartialEq)]
pub struct Response {
    pub description: String,
    pub content: IndexMap<String, MediaType>,
}

pub struct ResponseView {
    pub description: Seq<char>,
    pub content: Seq<(Seq<char>, Option<SchemaView>)>,
}

impl Response {
    pub open spec fn view(&self) -> ResponseView {
        ResponseView { description: self.description@, content: content_view(self.content) }
    }
}

pub open spec fn opt_response_view(r: Option<Response>) -> Option<ResponseView> {
    match r {
        Some(x) => Some(x@),
        None => None,
    }
}

/// A list of (status, response) pairs as a sequence of models.
pub open spec fn responses_view(v: Seq<(Option<u16>, Response)>) -> Seq<(Option<u16>, ResponseView)> {
    v.map_values(|e: (Option<u16>, Response)| (e.0, e.1@))
}

/// The documentation of one handler, as its argument and return types
/// contribute to it.
#[derive(Debug, PartialEq)]
pub struct Operation {
    pub parameters: Vec<Parameter>,
    pub request_body: Option<RequestBody>,
    pub responses: Vec<(Option<u16>, Response)>,
}

pub struct OperationView {
    pub parameters: Seq<ParameterView>,
    pub request_body: Option<RequestBodyView>,
    pub responses: Seq<(Option<u16>, ResponseView)>,
}

/// The model of an operation that nothing has contributed to.
pub open spec fn empty_operation() -> OperationView {
    OperationView { parameters: seq![], request_body: None, responses: seq![] }
}

impl Operation {
    pub open spec fn view(&self) -> OperationView {
        OperationView {
            parameters: self.parameters@.map_values(|p: Parameter| p@),
            request_body: match self.request_body {
                Some(b) => Some(b@),
                None => None,
            },
            responses: responses_view(self.responses@),
        }
    }

    /// An operation with no parameters, no body and no responses.
    pub fn new() -> (r: Operation)
        ensures
            r@ == empty_operation(),
    {
        let r = Operation { parameters: Vec::new(), request_body: None, responses: Vec::new() };
        assert(r@.parameters =~= empty_operation().parameters);
        assert(r@.responses =~= empty_operation().responses);
        r
    }
}

impl Response {
    /// A response with the given description and no content.
    pub fn bodyless(description: String) -> (r: Response)
        ensures
            r@.description == description@,
            r@.content.len() == 0,
    {
        Response { description, content: empty_content() }
    }
}

} // verus!
