use axum::routing::MethodRouter;
use modkit::api::operation_builder::{
    AuthNotSet, Missing, OpenApiRegistry, OperationBuilder, OperationBuilderODataExt, OperationSpec, ParamLocation, ParamSpec,
    RateLimitSpec, RbacAction, RbacResource, RequestBodySchema, ResponseSpec, Routing,
    TypeSchema,
};
use modkit::api::problem::APPLICATION_PROBLEM_JSON;
use modkit::protocol::{Method, StatusCode};

// Mock registry for testing: stores operations; records schema names
struct MockRegistry {
    operations: std::sync::Mutex<Vec<OperationSpec>>,
    schemas: std::sync::Mutex<Vec<String>>,
}

impl MockRegistry {
    fn new() -> Self {
        Self {
            operations: std::sync::Mutex::new(Vec::new()),
            schemas: std::sync::Mutex::new(Vec::new()),
        }
    }
}

/// The component schema of a type, as the registry takes it.
type ComponentSchema = utoipa::openapi::RefOr<utoipa::openapi::schema::Schema>;

/// A type without component schemas.
fn named(name: &str) -> TypeSchema<ComponentSchema> {
    TypeSchema {
        name: name.to_owned(),
        schemas: vec![],
    }
}

impl OpenApiRegistry for MockRegistry {
    type Schema = ComponentSchema;

    fn register_operation(&self, spec: &OperationSpec) {
        if let Ok(mut ops) = self.operations.lock() {
            ops.push(spec.clone());
        }
    }

    fn ensure_schema_raw(&self, name: &str, _schemas: Vec<(String, ComponentSchema)>) -> String {
        let name = name.to_owned();
        if let Ok(mut s) = self.schemas.lock() {
            s.push(name.clone());
        }
        name
    }

    fn error_schemas(&self, _name: &str) -> Vec<(String, ComponentSchema)> {
        vec![]
    }
}

async fn answer() -> &'static str {
    "ok"
}

fn test_handler(routing: Routing) -> MethodRouter<()> {
    match routing {
        Routing::Get => axum::routing::get(answer),
        Routing::Post => axum::routing::post(answer),
        Routing::Put => axum::routing::put(answer),
        Routing::Delete => axum::routing::delete(answer),
        Routing::Patch => axum::routing::patch(answer),
        Routing::MethodNotAllowed => axum::routing::any(|| async {
            axum::http::StatusCode::METHOD_NOT_ALLOWED
        }),
    }
}

#[test]
fn test_builder_descriptive_methods() {
    let builder = OperationBuilder::<Missing, Missing, (), AuthNotSet>::get("/test")
        .operation_id("test.get")
        .summary("Test endpoint")
        .description("A test endpoint for validation")
        .tag("test")
        .path_param("id", "Test ID");

    assert_eq!(builder.spec().method, Method::GET);
    assert_eq!(builder.spec().path, "/test");
    assert_eq!(builder.spec().operation_id, Some("test.get".to_owned()));
    assert_eq!(builder.spec().summary, Some("Test endpoint".to_owned()));
    assert_eq!(
        builder.spec().description,
        Some("A test endpoint for validation".to_owned())
    );
    assert_eq!(builder.spec().tags, vec!["test"]);
    assert_eq!(builder.spec().params.len(), 1);
}

#[test]
fn test_builder_with_request_response_and_handler() {
    let registry = MockRegistry::new();
    let router: axum::Router<()> = axum::Router::new();

    let _router = OperationBuilder::<Missing, Missing, ()>::post("/test")
        .summary("Test endpoint")
        .json_request(&registry, named("Value"), "optional body") // registers schema
        .public()
        .handler(test_handler)
        .json_response_with_schema(&registry, named("Value"), StatusCode::OK, "Success response") // registers schema
        .register(|path: &str, mr: MethodRouter<()>| router.route(path, mr), &registry);

    // Verify that the operation was registered
    let ops = registry.operations.lock().unwrap();
    assert_eq!(ops.len(), 1);
    let op = &ops[0];
    assert_eq!(op.method, Method::POST);
    assert_eq!(op.path, "/test");
    assert!(op.request_body.is_some());
    assert!(op.request_body.as_ref().unwrap().required);
    assert_eq!(op.responses.len(), 1);
    assert_eq!(op.responses[0].status, 200);

    // Verify schemas recorded
    let schemas = registry.schemas.lock().unwrap();
    assert!(!schemas.is_empty());
}

#[test]
fn test_convenience_constructors() {
    let get_builder = OperationBuilder::<Missing, Missing, (), AuthNotSet>::get("/get");
    assert_eq!(get_builder.spec().method, Method::GET);
    assert_eq!(get_builder.spec().path, "/get");

    let post_builder = OperationBuilder::<Missing, Missing, (), AuthNotSet>::post("/post");
    assert_eq!(post_builder.spec().method, Method::POST);
    assert_eq!(post_builder.spec().path, "/post");

    let put_builder = OperationBuilder::<Missing, Missing, (), AuthNotSet>::put("/put");
    assert_eq!(put_builder.spec().method, Method::PUT);
    assert_eq!(put_builder.spec().path, "/put");

    let delete_builder = OperationBuilder::<Missing, Missing, (), AuthNotSet>::delete("/delete");
    assert_eq!(delete_builder.spec().method, Method::DELETE);
    assert_eq!(delete_builder.spec().path, "/delete");

    let patch_builder = OperationBuilder::<Missing, Missing, (), AuthNotSet>::patch("/patch");
    assert_eq!(patch_builder.spec().method, Method::PATCH);
    assert_eq!(patch_builder.spec().path, "/patch");
}

#[test]
fn test_path_normalization_in_constructors() {
    // Paths are kept as they are
    let builder = OperationBuilder::<Missing, Missing, ()>::get("/users/{id}");
    assert_eq!(builder.spec().path, "/users/{id}");

    let builder =
        OperationBuilder::<Missing, Missing, ()>::post("/projects/{project_id}/items/{item_id}");
    assert_eq!(
        builder.spec().path,
        "/projects/{project_id}/items/{item_id}"
    );

    // Simple paths remain unchanged
    let builder = OperationBuilder::<Missing, Missing, ()>::get("/simple");
    assert_eq!(builder.spec().path, "/simple");
}

#[test]
fn test_standard_errors() {
    let registry = MockRegistry::new();
    let builder = OperationBuilder::<Missing, Missing, ()>::get("/test")
        .public()
        .handler(test_handler)
        .json_response(StatusCode::OK, "Success")
        .standard_errors(&registry);

    // Should have 1 success response + 8 standard error responses
    assert_eq!(builder.spec().responses.len(), 9);

    // Check that all standard error status codes are present
    let statuses: Vec<u16> = builder.spec().responses.iter().map(|r| r.status).collect();
    assert!(statuses.contains(&200)); // success response
    assert!(statuses.contains(&400));
    assert!(statuses.contains(&401));
    assert!(statuses.contains(&403));
    assert!(statuses.contains(&404));
    assert!(statuses.contains(&409));
    assert!(statuses.contains(&422));
    assert!(statuses.contains(&429));
    assert!(statuses.contains(&500));

    // All error responses should use Problem content type
    let error_responses: Vec<_> = builder
        .spec()
        .responses
        .iter()
        .filter(|r| r.status >= 400)
        .collect();

    for resp in error_responses {
        assert_eq!(resp.content_type, APPLICATION_PROBLEM_JSON);
        assert!(resp.schema_name.is_some());
    }
}

#[test]
fn test_with_422_validation_error() {
    let registry = MockRegistry::new();
    let builder = OperationBuilder::<Missing, Missing, ()>::post("/test")
        .public()
        .handler(test_handler)
        .json_response(StatusCode::CREATED, "Created")
        .with_422_validation_error(&registry);

    // Should have success response + validation error response
    assert_eq!(builder.spec().responses.len(), 2);

    let validation_response = builder
        .spec()
        .responses
        .iter()
        .find(|r| r.status == 422)
        .expect("Should have 422 response");

    assert_eq!(validation_response.description, "Validation Error");
    assert_eq!(validation_response.content_type, APPLICATION_PROBLEM_JSON);
    assert!(validation_response.schema_name.is_some());
}

#[test]
fn test_allow_content_types_with_existing_request_body() {
    let registry = MockRegistry::new();
    let builder = OperationBuilder::<Missing, Missing, ()>::post("/test")
        .json_request(&registry, named("Value"), "Test request")
        .allow_content_types(&["application/json", "application/xml"])
        .public()
        .handler(test_handler)
        .json_response(StatusCode::OK, "Success");

    // allowed_content_types should be on OperationSpec, not RequestBodySpec
    assert!(builder.spec().request_body.is_some());
    assert!(builder.spec().allowed_request_content_types.is_some());
    let allowed = builder
        .spec()
        .allowed_request_content_types
        .as_ref()
        .unwrap();
    assert_eq!(allowed.len(), 2);
    assert!(allowed.contains(&"application/json"));
    assert!(allowed.contains(&"application/xml"));
}

#[test]
fn test_allow_content_types_without_existing_request_body() {
    let builder = OperationBuilder::<Missing, Missing, ()>::post("/test")
        .allow_content_types(&["multipart/form-data"])
        .public()
        .handler(test_handler)
        .json_response(StatusCode::OK, "Success");

    // Should NOT create synthetic request body, only set allowed_request_content_types
    assert!(builder.spec().request_body.is_none());
    assert!(builder.spec().allowed_request_content_types.is_some());
    let allowed = builder
        .spec()
        .allowed_request_content_types
        .as_ref()
        .unwrap();
    assert_eq!(allowed.len(), 1);
    assert!(allowed.contains(&"multipart/form-data"));
}

#[test]
fn test_allow_content_types_can_be_chained() {
    let registry = MockRegistry::new();
    let builder = OperationBuilder::<Missing, Missing, ()>::post("/test")
        .operation_id("test.post")
        .summary("Test endpoint")
        .json_request(&registry, named("Value"), "Test request")
        .allow_content_types(&["application/json"])
        .public()
        .handler(test_handler)
        .json_response(StatusCode::OK, "Success")
        .problem_response(
            &registry,
            StatusCode::UNSUPPORTED_MEDIA_TYPE,
            "Unsupported Media Type",
        );

    assert_eq!(builder.spec().operation_id, Some("test.post".to_owned()));
    assert!(builder.spec().request_body.is_some());
    assert!(builder.spec().allowed_request_content_types.is_some());
    assert_eq!(builder.spec().responses.len(), 2);
}

#[test]
fn test_multipart_file_request() {
    let builder = OperationBuilder::<Missing, Missing, ()>::post("/upload")
        .operation_id("test.upload")
        .summary("Upload file")
        .multipart_file_request("file", Some("Upload a file"))
        .public()
        .handler(test_handler)
        .json_response(StatusCode::OK, "Success");

    // Should set request body with multipart/form-data
    assert!(builder.spec().request_body.is_some());
    let rb = builder.spec().request_body.as_ref().unwrap();
    assert_eq!(rb.content_type, "multipart/form-data");
    assert!(rb.description.is_some());
    assert!(rb.description.as_ref().unwrap().contains("file"));
    assert!(rb.required);

    // Should use MultipartFile schema variant
    assert_eq!(
        rb.schema,
        RequestBodySchema::MultipartFile {
            field_name: "file".to_owned()
        }
    );

    // Should also set allowed_request_content_types
    assert!(builder.spec().allowed_request_content_types.is_some());
    let allowed = builder
        .spec()
        .allowed_request_content_types
        .as_ref()
        .unwrap();
    assert_eq!(allowed.len(), 1);
    assert!(allowed.contains(&"multipart/form-data"));
}

#[test]
fn test_multipart_file_request_without_description() {
    let builder = OperationBuilder::<Missing, Missing, ()>::post("/upload")
        .multipart_file_request("file", None)
        .public()
        .handler(test_handler)
        .json_response(StatusCode::OK, "Success");

    assert!(builder.spec().request_body.is_some());
    let rb = builder.spec().request_body.as_ref().unwrap();
    assert_eq!(rb.content_type, "multipart/form-data");
    assert!(rb.description.is_none());
    assert_eq!(
        rb.schema,
        RequestBodySchema::MultipartFile {
            field_name: "file".to_owned()
        }
    );
}

#[test]
fn test_octet_stream_request() {
    let builder = OperationBuilder::<Missing, Missing, ()>::post("/upload")
        .operation_id("test.upload")
        .summary("Upload raw file")
        .octet_stream_request(Some("Raw file bytes"))
        .public()
        .handler(test_handler)
        .json_response(StatusCode::OK, "Success");

    // Should set request body with application/octet-stream
    assert!(builder.spec().request_body.is_some());
    let rb = builder.spec().request_body.as_ref().unwrap();
    assert_eq!(rb.content_type, "application/octet-stream");
    assert_eq!(rb.description, Some("Raw file bytes".to_owned()));
    assert!(rb.required);

    // Should use Binary schema variant
    assert_eq!(rb.schema, RequestBodySchema::Binary);

    // Should also set allowed_request_content_types
    assert!(builder.spec().allowed_request_content_types.is_some());
    let allowed = builder
        .spec()
        .allowed_request_content_types
        .as_ref()
        .unwrap();
    assert_eq!(allowed.len(), 1);
    assert!(allowed.contains(&"application/octet-stream"));
}

#[test]
fn test_octet_stream_request_without_description() {
    let builder = OperationBuilder::<Missing, Missing, ()>::post("/upload")
        .octet_stream_request(None)
        .public()
        .handler(test_handler)
        .json_response(StatusCode::OK, "Success");

    assert!(builder.spec().request_body.is_some());
    let rb = builder.spec().request_body.as_ref().unwrap();
    assert_eq!(rb.content_type, "application/octet-stream");
    assert!(rb.description.is_none());
    assert_eq!(rb.schema, RequestBodySchema::Binary);
}

#[test]
fn test_json_request_uses_ref_schema() {
    let registry = MockRegistry::new();
    let builder = OperationBuilder::<Missing, Missing, ()>::post("/test")
        .json_request(&registry, named("Value"), "Test request body")
        .public()
        .handler(test_handler)
        .json_response(StatusCode::OK, "Success");

    assert!(builder.spec().request_body.is_some());
    let rb = builder.spec().request_body.as_ref().unwrap();
    assert_eq!(rb.content_type, "application/json");

    // Should use Ref schema variant with the registered schema name
    match &rb.schema {
        RequestBodySchema::Ref { schema_name } => {
            assert!(!schema_name.is_empty());
        }
        _ => panic!("Expected RequestBodySchema::Ref for JSON request"),
    }
}

#[test]
fn test_response_content_types_must_not_contain_parameters() {
    // Media type keys cannot include parameters like "; charset=utf-8"
    let registry = MockRegistry::new();
    let builder = OperationBuilder::<Missing, Missing, ()>::post("/test")
        .operation_id("test.content_type_purity")
        .summary("Test response content types")
        .json_request(&registry, named("Value"), "Test")
        .public()
        .handler(test_handler)
        .text_response(StatusCode::OK, "Text", "text/plain")
        .text_response(StatusCode::OK, "Markdown", "text/markdown")
        .html_response(StatusCode::OK, "HTML")
        .json_response(StatusCode::OK, "JSON")
        .problem_response(&registry, StatusCode::BAD_REQUEST, "Error");

    // Verify no response content_type contains semicolon (parameter separator)
    for response in &builder.spec().responses {
        assert!(
            !response.content_type.contains(';'),
            "Response content_type '{}' must not contain parameters.",
            response.content_type
        );
    }
}

enum TestResource {
    Test,
}

impl RbacResource for TestResource {
    fn as_str(&self) -> &'static str {
        match self {
            TestResource::Test => "test",
        }
    }
}

enum Action {
    Read,
    Write,
}

impl RbacAction for Action {
    fn as_str(&self) -> &'static str {
        match self {
            Action::Read => "read",
            Action::Write => "write",
        }
    }
}

#[test]
fn authentication_is_decided_once() {
    let builder = OperationBuilder::<Missing, Missing, ()>::get("/a")
        .require_auth(&TestResource::Test, &[Action::Read, Action::Write]);
    let requirement = builder.spec().sec_requirement.as_ref().unwrap();
    assert_eq!(requirement.resource, "test");
    assert_eq!(requirement.actions, vec!["read", "write"]);
    assert!(!builder.spec().is_public);

    let builder = OperationBuilder::<Missing, Missing, ()>::get("/a").public();
    assert!(builder.spec().sec_requirement.is_none());
    assert!(builder.spec().is_public);

    let builder = OperationBuilder::<Missing, Missing, ()>::get("/a");
    assert!(builder.spec().sec_requirement.is_none());
    assert!(!builder.spec().is_public);
}

#[test]
fn handler_ids_are_flat() {
    let builder = OperationBuilder::<Missing, Missing, ()>::get("/users/{id}");
    assert_eq!(builder.spec().handler_id, "get:_users__id_");
    let method = Method::from_name("REPORT").unwrap();
    let builder = OperationBuilder::<Missing, Missing, ()>::new(method, "a");
    assert_eq!(builder.spec().handler_id, "report:a");
}

#[test]
fn handlers_are_routed_by_the_method() {
    for (method, expected) in [
        ("GET", Routing::Get),
        ("POST", Routing::Post),
        ("PUT", Routing::Put),
        ("DELETE", Routing::Delete),
        ("PATCH", Routing::Patch),
        ("HEAD", Routing::MethodNotAllowed),
        ("get", Routing::MethodNotAllowed),
    ] {
        let mut seen = None;
        let method = Method::from_name(method).unwrap();
        let _ = OperationBuilder::<Missing, Missing, ()>::new(method, "/a").handler(|routing| {
            seen = Some(routing);
            test_handler(routing)
        });
        assert_eq!(seen, Some(expected));
    }
}

#[test]
fn parameters_are_described() {
    let builder = OperationBuilder::<Missing, Missing, ()>::get("/a")
        .path_param("id", "the id")
        .query_param("q", true, "the query")
        .query_param_typed("limit", false, "how many", "integer")
        .param(ParamSpec {
            name: "X-Key".to_owned(),
            location: ParamLocation::Header,
            required: true,
            description: None,
            param_type: "string".to_owned(),
        })
        .with_odata_filter()
        .with_odata_filter_doc("by name");
    let params: Vec<_> = builder
        .spec()
        .params
        .iter()
        .map(|p| {
            (
                p.name.as_str(),
                p.location,
                p.required,
                p.description.as_deref(),
                p.param_type.as_str(),
            )
        })
        .collect();
    assert_eq!(
        params,
        vec![
            ("id", ParamLocation::Path, true, Some("the id"), "string"),
            ("q", ParamLocation::Query, true, Some("the query"), "string"),
            ("limit", ParamLocation::Query, false, Some("how many"), "integer"),
            ("X-Key", ParamLocation::Header, true, None, "string"),
            (
                "$filter",
                ParamLocation::Query,
                false,
                Some("OData v4 filter expression"),
                "string"
            ),
            ("$filter", ParamLocation::Query, false, Some("by name"), "string"),
        ]
    );
}

#[test]
fn request_bodies_are_described() {
    let registry = MockRegistry::new();
    let builder = OperationBuilder::<Missing, Missing, ()>::post("/a").request_optional();
    assert!(builder.spec().request_body.is_none());

    let builder = builder.json_request_schema("User", "a user");
    let body = builder.spec().request_body.as_ref().unwrap();
    assert_eq!(body.content_type, "application/json");
    assert_eq!(body.description.as_deref(), Some("a user"));
    assert_eq!(
        body.schema,
        RequestBodySchema::Ref {
            schema_name: "User".to_owned()
        }
    );
    assert!(body.required);

    let builder = builder.request_optional();
    let body = builder.spec().request_body.as_ref().unwrap();
    assert!(!body.required);
    assert_eq!(body.description.as_deref(), Some("a user"));

    let builder = builder.json_request_schema_no_desc("User");
    let body = builder.spec().request_body.as_ref().unwrap();
    assert!(body.required);
    assert!(body.description.is_none());

    let builder = builder.json_request_no_desc(&registry, named("Order"));
    let body = builder.spec().request_body.as_ref().unwrap();
    assert_eq!(
        body.schema,
        RequestBodySchema::Ref {
            schema_name: "Order".to_owned()
        }
    );
    assert_eq!(*registry.schemas.lock().unwrap(), vec!["Order"]);

    let builder = builder.multipart_file_request("file", Some("A file"));
    let body = builder.spec().request_body.as_ref().unwrap();
    assert_eq!(
        body.description.as_deref(),
        Some("A file (expects field 'file' with file data)")
    );
    assert_ne!(body.schema, RequestBodySchema::Binary);
}

#[test]
fn rate_limits_are_kept() {
    let mut builder = OperationBuilder::<Missing, Missing, ()>::get("/a");
    assert!(builder.spec().rate_limit.is_none());
    builder.require_rate_limit(10, 20, 5).require_rate_limit(1, 2, 3);
    assert_eq!(
        builder.spec().rate_limit,
        Some(RateLimitSpec {
            rps: 1,
            burst: 2,
            in_flight: 3
        })
    );
    assert_eq!(
        RateLimitSpec::default(),
        RateLimitSpec {
            rps: 0,
            burst: 0,
            in_flight: 0
        }
    );
}

#[test]
fn responses_are_described_in_order() {
    let registry = MockRegistry::new();
    let builder = OperationBuilder::<Missing, Missing, ()>::get("/a")
        .response(ResponseSpec {
            status: 299,
            content_type: "text/csv",
            description: "raw".to_owned(),
            schema_name: None,
        })
        .sse_json(&registry, named("Event"), "events")
        .error_400(&registry)
        .error_401(&registry)
        .error_403(&registry)
        .error_404(&registry)
        .error_409(&registry)
        .error_415(&registry)
        .error_422(&registry)
        .error_429(&registry)
        .error_500(&registry)
        .with_422_validation_error(&registry);
    let responses: Vec<_> = builder
        .spec()
        .responses
        .iter()
        .map(|r| {
            (
                r.status,
                r.content_type,
                r.description.as_str(),
                r.schema_name.as_deref(),
            )
        })
        .collect();
    let problem = |status, text| (status, "application/problem+json", text, Some("Problem"));
    assert_eq!(
        responses,
        vec![
            (299, "text/csv", "raw", None),
            (200, "text/event-stream", "events", Some("Event")),
            problem(400, "Bad Request"),
            problem(401, "Unauthorized"),
            problem(403, "Forbidden"),
            problem(404, "Not Found"),
            problem(409, "Conflict"),
            problem(415, "Unsupported Media Type"),
            problem(422, "Unprocessable Entity"),
            problem(429, "Too Many Requests"),
            problem(500, "Internal Server Error"),
            (
                422,
                "application/problem+json",
                "Validation Error",
                Some("ValidationErrorResponse")
            ),
        ]
    );
    let schemas = registry.schemas.lock().unwrap();
    assert_eq!(schemas.len(), 11);
    assert_eq!(schemas[0], "Event");
    assert_eq!(schemas[1], "Problem");
    assert_eq!(schemas[10], "ValidationErrorResponse");
}

#[test]
fn first_responses_are_described() {
    let registry = MockRegistry::new();
    let bare = || OperationBuilder::<Missing, Missing, ()>::get("/a");
    let first = |status: u16, content_type: &str, schema: Option<&str>, r: &ResponseSpec| {
        assert_eq!(r.status, status);
        assert_eq!(r.content_type, content_type);
        assert_eq!(r.description, "d");
        assert_eq!(r.schema_name.as_deref(), schema);
    };
    let no_content = || StatusCode::from_u16(204).unwrap();
    first(
        204,
        "application/json",
        None,
        &bare().json_response(no_content(), "d").spec().responses[0],
    );
    first(
        204,
        "text/plain",
        None,
        &bare().text_response(no_content(), "d", "text/plain").spec().responses[0],
    );
    first(
        204,
        "text/html",
        None,
        &bare().html_response(no_content(), "d").spec().responses[0],
    );
    first(
        204,
        "application/json",
        Some("X"),
        &bare()
            .json_response_with_schema(&registry, named("X"), no_content(), "d")
            .spec()
            .responses[0],
    );
    first(
        204,
        "application/problem+json",
        Some("Problem"),
        &bare()
            .problem_response(&registry, no_content(), "d")
            .spec()
            .responses[0],
    );
    first(
        200,
        "text/event-stream",
        Some("X"),
        &bare().sse_json(&registry, named("X"), "d").spec().responses[0],
    );
}

#[test]
fn standard_errors_come_in_order_and_share_a_schema() {
    let registry = MockRegistry::new();
    let builder = OperationBuilder::<Missing, Missing, ()>::get("/test")
        .json_response(StatusCode::OK, "Success")
        .standard_errors(&registry);
    let statuses: Vec<u16> = builder.spec().responses.iter().map(|r| r.status).collect();
    assert_eq!(statuses, vec![200, 400, 401, 403, 404, 409, 422, 429, 500]);
    assert_eq!(builder.spec().responses[4].description, "Not Found");
    for response in &builder.spec().responses[1..] {
        assert_eq!(response.schema_name.as_deref(), Some("Problem"));
    }
    assert_eq!(*registry.schemas.lock().unwrap(), vec!["Problem"]);
}

#[test]
fn registration_tells_the_registry_and_mounts_the_route() {
    let registry = MockRegistry::new();
    let mut mounted = Vec::new();
    OperationBuilder::<Missing, Missing, ()>::get("/one/{id}")
        .public()
        .method_router(axum::routing::get(answer))
        .json_response(StatusCode::OK, "ok")
        .register(|path: &str, _| mounted.push(path.to_owned()), &registry);
    OperationBuilder::<Missing, Missing, ()>::delete("/two")
        .require_auth(&TestResource::Test, &[Action::Write])
        .handler(test_handler)
        .json_response(StatusCode::NO_CONTENT, "gone")
        .register(|path: &str, _| mounted.push(path.to_owned()), &registry);
    assert_eq!(mounted, vec!["/one/{id}", "/two"]);
    let operations = registry.operations.lock().unwrap();
    assert_eq!(operations.len(), 2);
    for operation in operations.iter() {
        assert!(!operation.responses.is_empty());
        assert_ne!(operation.is_public, operation.sec_requirement.is_some());
    }
}

#[test]
fn specs_can_be_copied() {
    let registry = MockRegistry::new();
    let builder = OperationBuilder::<Missing, Missing, ()>::post("/a")
        .tag("t")
        .path_param("id", "d")
        .multipart_file_request("file", None)
        .require_auth(&TestResource::Test, &[Action::Read])
        .json_response(StatusCode::OK, "ok")
        .standard_errors(&registry);
    let copy = builder.spec().clone();
    assert_eq!(format!("{:?}", copy), format!("{:?}", builder.spec()));
}

/// A registry that gives components names of its own and keeps what it is handed.
struct PrefixingRegistry {
    seen: std::sync::Mutex<Vec<(String, Vec<(String, u8)>)>>,
}

impl OpenApiRegistry for PrefixingRegistry {
    type Schema = u8;

    fn register_operation(&self, _spec: &OperationSpec) {}

    fn ensure_schema_raw(&self, name: &str, schemas: Vec<(String, u8)>) -> String {
        self.seen.lock().unwrap().push((name.to_owned(), schemas));
        format!("api.{name}")
    }

    fn error_schemas(&self, name: &str) -> Vec<(String, u8)> {
        vec![(name.to_owned(), 1), ("Detail".to_owned(), 2)]
    }
}

fn user() -> TypeSchema<u8> {
    TypeSchema {
        name: "User".to_owned(),
        schemas: vec![("User".to_owned(), 7), ("Address".to_owned(), 8)],
    }
}

#[test]
fn components_are_referred_to_by_the_name_the_registry_gives() {
    let kept = PrefixingRegistry {
        seen: std::sync::Mutex::new(Vec::new()),
    };
    let registry: &dyn OpenApiRegistry<Schema = u8> = &kept;
    let builder = OperationBuilder::<Missing, Missing, ()>::post("/a")
        .json_request(registry, user(), "a user")
        .json_response_with_schema(registry, user(), StatusCode::CREATED, "made")
        .standard_errors(registry)
        .with_422_validation_error(registry);
    assert_eq!(
        builder.spec().request_body.as_ref().unwrap().schema,
        RequestBodySchema::Ref {
            schema_name: "api.User".to_owned()
        }
    );
    let names: Vec<_> = builder
        .spec()
        .responses
        .iter()
        .map(|r| r.schema_name.as_deref().unwrap())
        .collect();
    assert_eq!(names.len(), 10);
    assert_eq!(names[0], "api.User");
    assert!(names[1..9].iter().all(|name| *name == "api.Problem"));
    assert_eq!(names[9], "api.ValidationErrorResponse");

    // the component schemas are handed over with the name
    let error = |name: &str| {
        (
            name.to_owned(),
            vec![(name.to_owned(), 1), ("Detail".to_owned(), 2)],
        )
    };
    assert_eq!(
        *kept.seen.lock().unwrap(),
        vec![
            ("User".to_owned(), user().schemas),
            ("User".to_owned(), user().schemas),
            error("Problem"),
            error("ValidationErrorResponse"),
        ]
    );
}

#[test]
fn wildcards_are_marked_in_constructors() {
    let builder = OperationBuilder::<Missing, Missing, ()>::get("/static/{path}");
    assert_eq!(builder.spec().path, "/static/{*path}");
    let builder = OperationBuilder::<Missing, Missing, ()>::delete("/files/{filepath}");
    assert_eq!(builder.spec().path, "/files/{*filepath}");
    let builder = OperationBuilder::<Missing, Missing, ()>::new(Method::GET, "/static/{path}");
    assert_eq!(builder.spec().path, "/static/{path}");
}

#[test]
fn responses_can_refer_to_registered_schemas_by_name() {
    let builder = OperationBuilder::<Missing, Missing, ()>::get("/a")
        .with_response(ResponseSpec {
            status: 200,
            content_type: "application/json",
            description: "ok".to_owned(),
            schema_name: Some("User".to_owned()),
        })
        .with_standard_errors("Oops");
    assert_eq!(builder.spec().responses.len(), 9);
    assert_eq!(
        builder.spec().responses[0].schema_name.as_deref(),
        Some("User")
    );
    assert_eq!(
        builder.spec().responses[8].schema_name.as_deref(),
        Some("Oops")
    );
}
