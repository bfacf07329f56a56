use aide::context::{GenContext, SchemaSource};
use aide::input::{inferred_early_responses, operation_input};
use aide::merge::{add_response, record_responses};
use aide::openapi::{MediaType, Operation, Parameter, ParameterLocation, Response, SchemaRef};
use aide::output::{inferred_responses, operation_response};
use aide::shape::{PointerKind, Shape};

fn query_param(name: &str) -> Parameter {
    Parameter {
        name: name.to_string(),
        location: ParameterLocation::Query,
        required: true,
        schema: Some(SchemaRef::Inline("{\"type\":\"integer\"}".to_string())),
    }
}

fn named(name: &str, schema: &str, description: Option<&str>) -> SchemaSource {
    SchemaSource {
        name: Some(name.to_string()),
        schema: schema.to_string(),
        description: description.map(|d| d.to_string()),
    }
}

fn content_types(r: &Response) -> Vec<String> {
    r.content.keys().cloned().collect()
}

#[test]
fn text_output_is_one_plain_text_response_at_200() {
    let mut ctx = GenContext::new(204);
    let rs = inferred_responses(&mut ctx, &Shape::Text);
    assert_eq!(rs.len(), 1);
    assert_eq!(rs[0].0, Some(200));
    assert_eq!(rs[0].1.description, "plain text");
    assert_eq!(content_types(&rs[0].1), vec!["text/plain; charset=utf-8".to_string()]);
    assert_eq!(rs[0].1.content[0], MediaType { schema: None });
}

#[test]
fn bytes_output_is_one_octet_stream_response_at_200() {
    let mut ctx = GenContext::new(204);
    let rs = inferred_responses(&mut ctx, &Shape::Bytes);
    assert_eq!(rs.len(), 1);
    assert_eq!(rs[0].0, Some(200));
    assert_eq!(rs[0].1.description, "byte stream");
    assert_eq!(content_types(&rs[0].1), vec!["application/octet-stream".to_string()]);
}

#[test]
fn unit_output_uses_configured_no_content_status() {
    let mut ctx = GenContext::new(204);
    let rs = inferred_responses(&mut ctx, &Shape::Unit);
    assert_eq!(rs.len(), 1);
    assert_eq!(rs[0].0, Some(204));
    assert_eq!(rs[0].1.description, "no content");
    assert!(rs[0].1.content.is_empty());

    let mut other = GenContext::new(200);
    let rs = inferred_responses(&mut other, &Shape::Unit);
    assert_eq!(rs[0].0, Some(200));
}

#[test]
fn status_code_output_documents_nothing() {
    let mut ctx = GenContext::new(204);
    assert!(operation_response(&mut ctx, &Shape::StatusCode).is_none());
    assert!(inferred_responses(&mut ctx, &Shape::StatusCode).is_empty());
    assert!(operation_response(&mut ctx, &Shape::Metadata).is_none());
}

#[test]
fn redirect_has_a_response_but_no_status() {
    let mut ctx = GenContext::new(204);
    let r = operation_response(&mut ctx, &Shape::Redirect).unwrap();
    assert_eq!(r.description, "A redirect to the described URL");
    assert!(r.content.is_empty());
    assert!(inferred_responses(&mut ctx, &Shape::Redirect).is_empty());
}

#[test]
fn html_output_carries_a_string_schema() {
    let mut ctx = GenContext::new(204);
    let rs = inferred_responses(&mut ctx, &Shape::Html);
    assert_eq!(rs.len(), 1);
    assert_eq!(rs[0].0, Some(200));
    assert_eq!(rs[0].1.description, "HTML content");
    let media = rs[0].1.content.get("text/html").unwrap();
    assert_eq!(media.schema, Some(SchemaRef::Inline("{\"type\":\"string\"}".to_string())));
}

#[test]
fn json_output_registers_component_and_takes_description() {
    let mut ctx = GenContext::new(204);
    let user = named("User", "{\"type\":\"object\"}", Some("a user"));
    let rs = inferred_responses(&mut ctx, &Shape::Json(user));
    assert_eq!(rs.len(), 1);
    assert_eq!(rs[0].0, Some(200));
    assert_eq!(rs[0].1.description, "a user");
    let media = rs[0].1.content.get("application/json").unwrap();
    assert_eq!(media.schema, Some(SchemaRef::Component("User".to_string())));
    assert_eq!(ctx.component_count(), 1);
    assert_eq!(ctx.resolve(&"User".to_string()), Some("{\"type\":\"object\"}".to_string()));
}

#[test]
fn form_output_is_form_encoded_with_empty_description() {
    let mut ctx = GenContext::new(204);
    let inline = SchemaSource { name: None, schema: "{\"type\":\"integer\"}".to_string(), description: None };
    let r = operation_response(&mut ctx, &Shape::Form(inline)).unwrap();
    assert_eq!(r.description, "");
    let media = r.content.get("application/x-www-form-urlencoded").unwrap();
    assert_eq!(media.schema, Some(SchemaRef::Inline("{\"type\":\"integer\"}".to_string())));
    assert_eq!(ctx.component_count(), 0);
}

#[test]
fn schema_for_twice_gives_same_reference_and_no_growth() {
    let mut ctx = GenContext::new(204);
    let user = named("User", "{\"type\":\"object\"}", None);
    let first = ctx.schema_for(&user);
    assert_eq!(ctx.component_count(), 1);
    let second = ctx.schema_for(&user);
    assert_eq!(first, second);
    assert_eq!(ctx.component_count(), 1);
    assert_eq!(ctx.resolve(&"User".to_string()), Some("{\"type\":\"object\"}".to_string()));
    assert_eq!(ctx.resolve(&"Other".to_string()), None);
}

#[test]
fn optional_marks_inner_parameters_not_required() {
    let inner = Shape::Params(vec![query_param("id"), query_param("page")]);
    let mut op = Operation::new();
    operation_input(&mut op, &Shape::Optional(Box::new(inner)));
    assert_eq!(op.parameters.len(), 2);
    assert_eq!(op.parameters[0].name, "id");
    assert!(!op.parameters[0].required);
    assert_eq!(op.parameters[1].name, "page");
    assert!(!op.parameters[1].required);
}

#[test]
fn optional_relaxes_earlier_parameter_of_same_name_only() {
    let mut op = Operation::new();
    operation_input(&mut op, &Shape::Params(vec![query_param("id"), query_param("other")]));
    operation_input(&mut op, &Shape::Optional(Box::new(Shape::Params(vec![query_param("id")]))));
    assert_eq!(op.parameters.len(), 3);
    assert!(!op.parameters[0].required);
    assert!(op.parameters[1].required);
    assert!(!op.parameters[2].required);
}

#[test]
fn optional_body_stays_required() {
    let mut op = Operation::new();
    operation_input(&mut op, &Shape::Optional(Box::new(Shape::Text)));
    let body = op.request_body.unwrap();
    assert!(body.required);
    assert!(body.content.contains_key("text/plain; charset=utf-8"));
    assert!(op.parameters.is_empty());
}

#[test]
fn text_and_bytes_inputs_set_one_body() {
    let mut op = Operation::new();
    operation_input(&mut op, &Shape::Text);
    operation_input(&mut op, &Shape::Bytes);
    let body = op.request_body.unwrap();
    assert!(body.required);
    assert_eq!(body.content.len(), 1);
    assert!(body.content.contains_key("application/octet-stream"));
}

#[test]
fn metadata_input_contributes_nothing() {
    let mut op = Operation::new();
    operation_input(&mut op, &Shape::Metadata);
    operation_input(&mut op, &Shape::Unit);
    assert_eq!(op, Operation::new());
    assert!(inferred_early_responses(&Shape::Metadata).is_empty());
}

#[test]
fn fallible_input_is_its_success_type() {
    let mut op = Operation::new();
    let shape = Shape::Fallible(Box::new(Shape::Params(vec![query_param("id")])), Box::new(Shape::Bytes));
    operation_input(&mut op, &shape);
    assert_eq!(op.parameters, vec![query_param("id")]);
    assert!(op.request_body.is_none());
    assert!(inferred_early_responses(&shape).is_empty());
}

#[test]
fn fallible_output_lists_success_then_error() {
    let mut ctx = GenContext::new(400);
    let shape = Shape::Fallible(Box::new(Shape::Text), Box::new(Shape::Unit));
    let rs = inferred_responses(&mut ctx, &shape);
    assert_eq!(rs.len(), 2);
    assert_eq!(rs[0].0, Some(200));
    assert_eq!(rs[0].1.description, "plain text");
    assert_eq!(rs[1].0, Some(400));
    assert_eq!(rs[1].1.description, "no content");
    let default = operation_response(&mut ctx, &shape).unwrap();
    assert_eq!(default.description, "plain text");
}

#[test]
fn pointers_are_transparent() {
    let kinds = [PointerKind::Boxed, PointerKind::Rc, PointerKind::Arc, PointerKind::Ref, PointerKind::Cow];
    for kind in kinds {
        let mut direct = Operation::new();
        operation_input(&mut direct, &Shape::Optional(Box::new(Shape::Params(vec![query_param("q")]))));
        let mut wrapped = Operation::new();
        let inner = Shape::Optional(Box::new(Shape::Params(vec![query_param("q")])));
        operation_input(&mut wrapped, &Shape::Pointer(kind, Box::new(inner)));
        assert_eq!(direct, wrapped);

        let mut c1 = GenContext::new(204);
        let mut c2 = GenContext::new(204);
        let a = inferred_responses(&mut c1, &Shape::Json(named("User", "{}", Some("u"))));
        let b = inferred_responses(&mut c2, &Shape::Pointer(kind, Box::new(Shape::Json(named("User", "{}", Some("u"))))));
        assert_eq!(a, b);
        assert_eq!(c1.components, c2.components);
    }
}

#[test]
fn optional_output_passes_through() {
    let mut ctx = GenContext::new(204);
    let rs = inferred_responses(&mut ctx, &Shape::Optional(Box::new(Shape::Bytes)));
    assert_eq!(rs.len(), 1);
    assert_eq!(rs[0].0, Some(200));
    assert_eq!(rs[0].1.description, "byte stream");
}

#[test]
fn handler_with_optional_query_and_fallible_json() {
    let mut ctx = GenContext::new(204);
    let mut op = Operation::new();
    let arg = Shape::Optional(Box::new(Shape::Params(vec![query_param("id")])));
    assert!(inferred_early_responses(&arg).is_empty());
    operation_input(&mut op, &arg);
    let ret = Shape::Fallible(
        Box::new(Shape::Json(named("User", "{\"type\":\"object\"}", None))),
        Box::new(Shape::Json(named("ApiError", "{\"type\":\"object\"}", None))),
    );
    let rs = inferred_responses(&mut ctx, &ret);

    assert_eq!(op.parameters.len(), 1);
    assert_eq!(op.parameters[0].name, "id");
    assert_eq!(op.parameters[0].location, ParameterLocation::Query);
    assert!(!op.parameters[0].required);

    assert_eq!(rs.len(), 2);
    assert_eq!(rs[0].0, Some(200));
    assert_eq!(
        rs[0].1.content.get("application/json").unwrap().schema,
        Some(SchemaRef::Component("User".to_string()))
    );
    assert_eq!(rs[1].0, Some(200));
    assert_eq!(
        rs[1].1.content.get("application/json").unwrap().schema,
        Some(SchemaRef::Component("ApiError".to_string()))
    );
    assert_eq!(ctx.component_count(), 2);
}

#[test]
fn recording_keeps_one_response_per_status_later_wins() {
    let mut ctx = GenContext::new(204);
    let mut op = Operation::new();
    let ret = Shape::Fallible(Box::new(Shape::Text), Box::new(Shape::Bytes));
    let rs = inferred_responses(&mut ctx, &ret);
    record_responses(&mut op, rs);
    assert_eq!(op.responses.len(), 1);
    assert_eq!(op.responses[0].0, Some(200));
    assert_eq!(op.responses[0].1.description, "byte stream");

    let unit = inferred_responses(&mut ctx, &Shape::Unit);
    record_responses(&mut op, unit);
    assert_eq!(op.responses.len(), 2);
    assert_eq!(op.responses[1].0, Some(204));

    let redirect = operation_response(&mut ctx, &Shape::Redirect).unwrap();
    add_response(&mut op, None, redirect);
    assert_eq!(op.responses.len(), 3);
    assert_eq!(op.responses[2].0, None);
    assert_eq!(op.responses[2].1.description, "A redirect to the described URL");
}

#[test]
fn duplicate_component_names_are_not_well_formed() {
    let mut ctx = GenContext::new(204);
    assert!(ctx.is_well_formed());
    ctx.schema_for(&named("User", "{}", None));
    ctx.schema_for(&named("Team", "{}", None));
    assert!(ctx.is_well_formed());
    ctx.components.push(aide::context::Component { name: "User".to_string(), schema: "[]".to_string() });
    assert!(!ctx.is_well_formed());
}
