//! Type-safe API operation builder with compile-time guarantees.
//!
//! This module implements a type-state builder pattern that ensures:
//! - `register()` cannot be called unless a handler is set
//! - `register()` cannot be called unless at least one response is declared
//! - `register()` cannot be called unless it is decided who may call the operation
//! - Descriptive methods remain available at any stage

use std::marker::PhantomData;

use axum::routing::MethodRouter;
use vstd::prelude::*;

pub use crate::api::openapi_registry::{
    ensure_error_schema, ensure_schema, is_component, is_error_component, is_told, OpenApiRegistry,
    TypeSchema,
};
pub use crate::api::operation_builder::state::{
    AuthNotSet, AuthSet, AuthState, HandlerSlot, Missing, Present, ResponseState,
};
pub use crate::api::operation_spec::{
    OperationSecRequirement, OperationSpec, ParamLocation, ParamSpec, RateLimitSpec,
    RequestBodySchema, RequestBodySpec, ResponseSpec,
};
pub use crate::api::path::{axum_to_openapi_path, normalize_to_axum_path};
pub use crate::protocol::Routing;

use crate::api::operation_spec::{
    copy_texts, responses_view, str_texts, OperationSecRequirementView, OperationSpecView,
    ParamSpecView, RequestBodySchemaView, RequestBodySpecView, ResponseSpecView,
};
use crate::api::path::axum_path;
use crate::api::problem::{APPLICATION_PROBLEM_JSON, PROBLEM_SCHEMA, VALIDATION_ERROR_SCHEMA};
use crate::protocol::{
    is_token, is_token_char, lower_char, lower_name, routing_of, Method, StatusCode,
};
use crate::text::{append, chars_of, texts};

pub mod laws;
mod sealed;
pub mod state;

verus! {

/// An `axum` method router. It is carried through; nothing is known of what it does.
#[verifier::external_type_specification]
#[verifier::external_body]
#[verifier::reject_recursive_types(S)]
#[verifier::reject_recursive_types(E)]
pub struct ExMethodRouter<S, E>(MethodRouter<S, E>);

/// A resource that access is granted to.
pub trait RbacResource {
    fn as_str(&self) -> &'static str;
}

/// An action that is granted on a resource.
pub trait RbacAction {
    fn as_str(&self) -> &'static str;
}

/// The requirement names the resource and the actions as they name themselves.
pub open spec fn is_requirement_of<Resource: RbacResource, Action: RbacAction>(
    requirement: OperationSecRequirementView,
    resource: &Resource,
    actions: Seq<Action>,
) -> bool {
    &&& exists|name: &'static str|
        name@ == requirement.resource && #[trigger] call_ensures(
            Resource::as_str,
            (resource,),
            name,
        )
    &&& requirement.actions.len() == actions.len()
    &&& forall|i: int|
        0 <= i < actions.len() ==> is_name_of(&actions[i], #[trigger] requirement.actions[i])
}

/// The text is how the action names itself.
pub open spec fn is_name_of<Action: RbacAction>(action: &Action, text: Seq<char>) -> bool {
    exists|name: &'static str|
        name@ == text && #[trigger] call_ensures(Action::as_str, (action,), name)
}

/// The character, or an underscore for a slash or a brace.
pub open spec fn id_char(c: char) -> char {
    if c == '/' || c == '{' || c == '}' {
        '_'
    } else {
        c
    }
}

/// The id of the handler of an operation: the method in lower case, a colon, and the path with
/// underscores for slashes and braces.
pub open spec fn handler_id(method: Seq<char>, path: Seq<char>) -> Seq<char> {
    lower_name(method) + seq![':'] + path.map_values(|c: char| id_char(c))
}

/// The id of a handler is flat: it holds no slash and no brace.
pub proof fn law_handler_id_is_flat(method: Seq<char>, path: Seq<char>)
    requires
        is_token(method),
    ensures
        !handler_id(method, path).contains('/'),
        !handler_id(method, path).contains('{'),
        !handler_id(method, path).contains('}'),
{
    let id = handler_id(method, path);
    assert forall|i: int| 0 <= i < id.len() implies id[i] != '/' && id[i] != '{' && id[i]
        != '}' by {
        if i < method.len() {
            assert(is_token_char(method[i]));
            assert(id[i] == lower_char(method[i]));
        } else if i > method.len() {
            assert(id[i] == id_char(path[i - method.len() - 1]));
        }
    }
}

/// What is known of an operation of which only the method and the path are given.
pub open spec fn bare_operation(method: Seq<char>, path: Seq<char>) -> OperationSpecView {
    OperationSpecView {
        method,
        path,
        operation_id: None,
        summary: None,
        description: None,
        tags: Seq::empty(),
        params: Seq::empty(),
        request_body: None,
        responses: Seq::empty(),
        handler_id: handler_id(method, path),
        sec_requirement: None,
        is_public: false,
        rate_limit: None,
        allowed_request_content_types: None,
    }
}

/// A JSON request body that must be there.
pub open spec fn json_body(
    schema_name: Seq<char>,
    description: Option<Seq<char>>,
) -> RequestBodySpecView {
    RequestBodySpecView {
        content_type: "application/json"@,
        description,
        schema: RequestBodySchemaView::Ref { schema_name },
        required: true,
    }
}

/// The description of a file upload, which says in which field the file is expected.
pub open spec fn upload_description(text: Seq<char>, field_name: Seq<char>) -> Seq<char> {
    text + " (expects field '"@ + field_name + "' with file data)"@
}

/// An error response with the problem schema.
pub open spec fn problem_response_of(
    status: u16,
    description: Seq<char>,
    schema_name: Seq<char>,
) -> ResponseSpecView {
    ResponseSpecView {
        status,
        content_type: APPLICATION_PROBLEM_JSON@,
        description,
        schema_name: Some(schema_name),
    }
}

/// The standard error responses, in order.
pub open spec fn standard_error_responses(schema_name: Seq<char>) -> Seq<ResponseSpecView> {
    seq![
        problem_response_of(400, "Bad Request"@, schema_name),
        problem_response_of(401, "Unauthorized"@, schema_name),
        problem_response_of(403, "Forbidden"@, schema_name),
        problem_response_of(404, "Not Found"@, schema_name),
        problem_response_of(409, "Conflict"@, schema_name),
        problem_response_of(422, "Unprocessable Entity"@, schema_name),
        problem_response_of(429, "Too Many Requests"@, schema_name),
        problem_response_of(500, "Internal Server Error"@, schema_name),
    ]
}

/// What holds of an operation at a stage: a response is there once one is declared, and it is
/// public or has a requirement, but not both, once that is decided.
pub open spec fn fits_stage<R: ResponseState, A: AuthState>(operation: OperationSpecView) -> bool {
    &&& R::is_declared() ==> operation.responses.len() > 0
    &&& A::is_decided() ==> operation.is_public != (operation.sec_requirement is Some)
    &&& !A::is_decided() ==> !operation.is_public && operation.sec_requirement is None
}

/// Type-safe operation builder with compile-time guarantees. Its view is the operation so far.
///
/// Generic parameters:
/// - `H`: Handler state (Missing | Present)
/// - `R`: Response state (Missing | Present)
/// - `S`: Router state type (what you put into `Router::with_state(S)`).
/// - `A`: Auth state (`AuthNotSet` | `AuthSet`)
#[must_use]
pub struct OperationBuilder<H = Missing, R = Missing, S = (), A = AuthNotSet> where
    H: HandlerSlot<S>,
    R: ResponseState,
    A: AuthState,
 {
    spec: OperationSpec,
    method_router: <H as HandlerSlot<S>>::Slot,
    _has_handler: PhantomData<H>,
    _has_response: PhantomData<R>,
    _state: PhantomData<S>,
    _auth_state: PhantomData<A>,
}

impl<H: HandlerSlot<S>, R: ResponseState, S, A: AuthState> OperationBuilder<H, R, S, A> {
    #[verifier::type_invariant]
    spec fn inv(self) -> bool {
        fits_stage::<R, A>(self.spec@)
    }

    /// The router of the handler, where there is one.
    pub closed spec fn slot(&self) -> <H as HandlerSlot<S>>::Slot {
        self.method_router
    }

    fn assemble(spec: OperationSpec, method_router: <H as HandlerSlot<S>>::Slot) -> (builder: Self)
        requires
            fits_stage::<R, A>(spec@),
        ensures
            builder@ == spec@,
            builder.slot() == method_router,
    {
        OperationBuilder {
            spec,
            method_router,
            _has_handler: PhantomData,
            _has_response: PhantomData,
            _state: PhantomData,
            _auth_state: PhantomData,
        }
    }
}

impl<H: HandlerSlot<S>, R: ResponseState, S, A: AuthState> View for OperationBuilder<H, R, S, A> {
    type V = OperationSpecView;

    closed spec fn view(&self) -> OperationSpecView {
        self.spec@
    }
}

// -------------------------------------------------------------------------------------------------
// Constructors: start with both handler and response missing, auth not set
// -------------------------------------------------------------------------------------------------
impl<S> OperationBuilder<Missing, Missing, S, AuthNotSet> {
    /// Create a new operation builder with an HTTP method and path.
    pub fn new(method: Method, path: &str) -> (builder: Self)
        ensures
            builder@ == bare_operation(method@, path@),
    {
        let mut id = method.lowercase_name();
        id.push(':');
        let chars = chars_of(path);
        let ghost start = id@;
        let ghost marks = path@.map_values(|c: char| id_char(c));
        assert(start + marks.take(0) =~= start);
        for i in 0..chars.len()
            invariant
                chars@ == path@,
                marks == path@.map_values(|c: char| id_char(c)),
                id@ == start + marks.take(i as int),
        {
            let c = chars[i];
            if c == '/' || c == '{' || c == '}' {
                id.push('_');
            } else {
                id.push(c);
            }
            assert(id@ =~= start + marks.take(i + 1));
        }
        assert(marks.take(marks.len() as int) =~= marks);
        assert(id@ =~= handler_id(method@, path@));
        let spec = OperationSpec {
            method,
            path: path.to_owned(),
            operation_id: None,
            summary: None,
            description: None,
            tags: Vec::new(),
            params: Vec::new(),
            request_body: None,
            responses: Vec::new(),
            handler_id: id,
            sec_requirement: None,
            is_public: false,
            rate_limit: None,
            allowed_request_content_types: None,
        };
        assert(spec@ =~= bare_operation(method@, path@));
        Self::assemble(spec, ())
    }

    /// Convenience constructor for GET requests.
    pub fn get(path: &str) -> (builder: Self)
        ensures
            builder@ == bare_operation("GET"@, axum_path(path@)),
    {
        Self::new(Method::GET, normalize_to_axum_path(path).as_str())
    }

    /// Convenience constructor for POST requests.
    pub fn post(path: &str) -> (builder: Self)
        ensures
            builder@ == bare_operation("POST"@, axum_path(path@)),
    {
        Self::new(Method::POST, normalize_to_axum_path(path).as_str())
    }

    /// Convenience constructor for PUT requests.
    pub fn put(path: &str) -> (builder: Self)
        ensures
            builder@ == bare_operation("PUT"@, axum_path(path@)),
    {
        Self::new(Method::PUT, normalize_to_axum_path(path).as_str())
    }

    /// Convenience constructor for DELETE requests.
    pub fn delete(path: &str) -> (builder: Self)
        ensures
            builder@ == bare_operation("DELETE"@, axum_path(path@)),
    {
        Self::new(Method::DELETE, normalize_to_axum_path(path).as_str())
    }

    /// Convenience constructor for PATCH requests.
    pub fn patch(path: &str) -> (builder: Self)
        ensures
            builder@ == bare_operation("PATCH"@, axum_path(path@)),
    {
        Self::new(Method::PATCH, normalize_to_axum_path(path).as_str())
    }
}

// -------------------------------------------------------------------------------------------------
// Descriptive methods: available at any stage
// -------------------------------------------------------------------------------------------------
impl<H: HandlerSlot<S>, R: ResponseState, S, A: AuthState> OperationBuilder<H, R, S, A> {
    /// Inspect the spec (primarily for tests).
    pub fn spec(&self) -> (spec: &OperationSpec)
        ensures
            spec@ == self@,
            fits_stage::<R, A>(spec@),
    {
        proof {
            use_type_invariant(self);
        }
        &self.spec
    }

    /// Set the operation ID.
    pub fn operation_id(self, id: &str) -> (builder: Self)
        ensures
            builder@ == (OperationSpecView { operation_id: Some(id@), ..self@ }),
            builder.slot() == self.slot(),
    {
        proof {
            use_type_invariant(&self);
        }
        let mut spec = self.spec;
        spec.operation_id = Some(id.to_owned());
        Self::assemble(spec, self.method_router)
    }

    /// Require per-route rate and concurrency limits.
    /// Stores metadata for the ingress to enforce.
    pub fn require_rate_limit(&mut self, rps: u32, burst: u32, in_flight: u32) -> (builder:
        &mut Self)
        ensures
            builder@ == (OperationSpecView {
                rate_limit: Some(RateLimitSpec { rps, burst, in_flight }),
                ..old(self)@
            }),
            builder.slot() == old(self).slot(),
            *final(self) == *final(builder),
    {
        proof {
            use_type_invariant(&*self);
        }
        self.spec.rate_limit = Some(RateLimitSpec { rps, burst, in_flight });
        self
    }

    /// Set the operation summary.
    pub fn summary(self, text: &str) -> (builder: Self)
        ensures
            builder@ == (OperationSpecView { summary: Some(text@), ..self@ }),
            builder.slot() == self.slot(),
    {
        proof {
            use_type_invariant(&self);
        }
        let mut spec = self.spec;
        spec.summary = Some(text.to_owned());
        Self::assemble(spec, self.method_router)
    }

    /// Set the operation description.
    pub fn description(self, text: &str) -> (builder: Self)
        ensures
            builder@ == (OperationSpecView { description: Some(text@), ..self@ }),
            builder.slot() == self.slot(),
    {
        proof {
            use_type_invariant(&self);
        }
        let mut spec = self.spec;
        spec.description = Some(text.to_owned());
        Self::assemble(spec, self.method_router)
    }

    /// Add a tag to the operation.
    pub fn tag(self, tag: &str) -> (builder: Self)
        ensures
            builder@ == (OperationSpecView { tags: self@.tags.push(tag@), ..self@ }),
            builder.slot() == self.slot(),
    {
        proof {
            use_type_invariant(&self);
        }
        let mut spec = self.spec;
        spec.tags.push(tag.to_owned());
        assert(spec@ =~= (OperationSpecView { tags: self@.tags.push(tag@), ..self@ }));
        Self::assemble(spec, self.method_router)
    }

    /// Add a parameter to the operation.
    pub fn param(self, param: ParamSpec) -> (builder: Self)
        ensures
            builder@ == (OperationSpecView { params: self@.params.push(param@), ..self@ }),
            builder.slot() == self.slot(),
    {
        proof {
            use_type_invariant(&self);
        }
        let mut spec = self.spec;
        spec.params.push(param);
        assert(spec@ =~= (OperationSpecView { params: self@.params.push(param@), ..self@ }));
        Self::assemble(spec, self.method_router)
    }

    /// Add a path parameter with type inference (defaults to string).
    pub fn path_param(self, name: &str, description: &str) -> (builder: Self)
        ensures
            builder@ == (OperationSpecView {
                params: self@.params.push(
                    ParamSpecView {
                        name: name@,
                        location: ParamLocation::Path,
                        required: true,
                        description: Some(description@),
                        param_type: "string"@,
                    },
                ),
                ..self@
            }),
            builder.slot() == self.slot(),
    {
        self.param(
            ParamSpec {
                name: name.to_owned(),
                location: ParamLocation::Path,
                required: true,
                description: Some(description.to_owned()),
                param_type: "string".to_owned(),
            },
        )
    }

    /// Add a query parameter (defaults to string).
    pub fn query_param(self, name: &str, required: bool, description: &str) -> (builder: Self)
        ensures
            builder@ == (OperationSpecView {
                params: self@.params.push(
                    ParamSpecView {
                        name: name@,
                        location: ParamLocation::Query,
                        required,
                        description: Some(description@),
                        param_type: "string"@,
                    },
                ),
                ..self@
            }),
            builder.slot() == self.slot(),
    {
        self.param(
            ParamSpec {
                name: name.to_owned(),
                location: ParamLocation::Query,
                required,
                description: Some(description.to_owned()),
                param_type: "string".to_owned(),
            },
        )
    }

    /// Add a typed query parameter with explicit `OpenAPI` type.
    pub fn query_param_typed(
        self,
        name: &str,
        required: bool,
        description: &str,
        param_type: &str,
    ) -> (builder: Self)
        ensures
            builder@ == (OperationSpecView {
                params: self@.params.push(
                    ParamSpecView {
                        name: name@,
                        location: ParamLocation::Query,
                        required,
                        description: Some(description@),
                        param_type: param_type@,
                    },
                ),
                ..self@
            }),
            builder.slot() == self.slot(),
    {
        self.param(
            ParamSpec {
                name: name.to_owned(),
                location: ParamLocation::Query,
                required,
                description: Some(description.to_owned()),
                param_type: param_type.to_owned(),
            },
        )
    }

    fn with_request_body(self, body: RequestBodySpec) -> (builder: Self)
        ensures
            builder@ == (OperationSpecView { request_body: Some(body@), ..self@ }),
            builder.slot() == self.slot(),
    {
        proof {
            use_type_invariant(&self);
        }
        let mut spec = self.spec;
        spec.request_body = Some(body);
        Self::assemble(spec, self.method_router)
    }

    /// Attach a JSON request body by *schema name* that you've already registered.
    /// This variant sets a description (`Some(desc)`) and marks the body as **required**.
    pub fn json_request_schema(self, schema_name: &str, desc: &str) -> (builder: Self)
        ensures
            builder@ == (OperationSpecView {
                request_body: Some(json_body(schema_name@, Some(desc@))),
                ..self@
            }),
            builder.slot() == self.slot(),
    {
        self.with_request_body(
            RequestBodySpec {
                content_type: "application/json",
                description: Some(desc.to_owned()),
                schema: RequestBodySchema::Ref { schema_name: schema_name.to_owned() },
                required: true,
            },
        )
    }

    /// Attach a JSON request body by *schema name* with **no** description (`None`).
    /// Marks the body as **required**.
    pub fn json_request_schema_no_desc(self, schema_name: &str) -> (builder: Self)
        ensures
            builder@ == (OperationSpecView {
                request_body: Some(json_body(schema_name@, None)),
                ..self@
            }),
            builder.slot() == self.slot(),
    {
        self.with_request_body(
            RequestBodySpec {
                content_type: "application/json",
                description: None,
                schema: RequestBodySchema::Ref { schema_name: schema_name.to_owned() },
                required: true,
            },
        )
    }

    /// Attach a JSON request body and register its schema.
    /// This variant sets a description (`Some(desc)`) and marks the body as **required**.
    pub fn json_request<G: OpenApiRegistry + ?Sized>(
        self,
        registry: &G,
        schema: TypeSchema<G::Schema>,
        desc: &str,
    ) -> (builder: Self)
        ensures
            exists|component: Seq<char>|
                #[trigger] is_component(
                    registry,
                    schema.name@,
                    schema.schemas@,
                    component,
                ) && builder@ == (
                OperationSpecView {
                    request_body: Some(json_body(component, Some(desc@))),
                    ..self@
                }),
            builder.slot() == self.slot(),
    {
        let name = ensure_schema(registry, schema);
        self.json_request_schema(name.as_str(), desc)
    }

    /// Attach a JSON request body (register schema) with **no** description (`None`).
    /// Marks the body as **required**.
    pub fn json_request_no_desc<G: OpenApiRegistry + ?Sized>(
        self,
        registry: &G,
        schema: TypeSchema<G::Schema>,
    ) -> (builder: Self)
        ensures
            exists|component: Seq<char>|
                #[trigger] is_component(
                    registry,
                    schema.name@,
                    schema.schemas@,
                    component,
                ) && builder@ == (
                OperationSpecView {
                    request_body: Some(json_body(component, None)),
                    ..self@
                }),
            builder.slot() == self.slot(),
    {
        let name = ensure_schema(registry, schema);
        self.json_request_schema_no_desc(name.as_str())
    }

    /// Make the previously attached request body **optional** (if any).
    pub fn request_optional(self) -> (builder: Self)
        ensures
            builder@ == (OperationSpecView {
                request_body: match self@.request_body {
                    Some(body) => Some(RequestBodySpecView { required: false, ..body }),
                    None => None,
                },
                ..self@
            }),
            builder.slot() == self.slot(),
    {
        proof {
            use_type_invariant(&self);
        }
        let mut spec = self.spec;
        let body = spec.request_body.take();
        spec.request_body = match body {
            Some(body) => Some(
                RequestBodySpec {
                    content_type: body.content_type,
                    description: body.description,
                    schema: body.schema,
                    required: false,
                },
            ),
            None => None,
        };
        Self::assemble(spec, self.method_router)
    }

    /// Configure a multipart/form-data file upload request.
    ///
    /// This is a convenience helper for file upload endpoints that:
    /// - Sets the request body content type to "multipart/form-data"
    /// - Sets a description for the request body
    /// - Configures an inline object schema with a binary file field
    /// - Restricts allowed Content-Type to only "multipart/form-data"
    ///
    /// # Arguments
    /// * `field_name` - Name of the multipart form field (e.g., "file")
    /// * `description` - Optional description for the request body
    pub fn multipart_file_request(self, field_name: &str, description: Option<&str>) -> (builder:
        Self)
        ensures
            builder@ == (OperationSpecView {
                request_body: Some(
                    RequestBodySpecView {
                        content_type: "multipart/form-data"@,
                        description: match description {
                            Some(text) => Some(upload_description(text@, field_name@)),
                            None => None,
                        },
                        schema: RequestBodySchemaView::MultipartFile { field_name: field_name@ },
                        required: true,
                    },
                ),
                allowed_request_content_types: Some(seq!["multipart/form-data"@]),
                ..self@
            }),
            builder.slot() == self.slot(),
    {
        let description = match description {
            Some(text) => {
                let mut full = text.to_owned();
                append(&mut full, " (expects field '");
                append(&mut full, field_name);
                append(&mut full, "' with file data)");
                Some(full)
            },
            None => None,
        };
        let builder = self.with_request_body(
            RequestBodySpec {
                content_type: "multipart/form-data",
                description,
                schema: RequestBodySchema::MultipartFile { field_name: field_name.to_owned() },
                required: true,
            },
        );
        // Also configure MIME type validation
        builder.allow_content_type("multipart/form-data")
    }

    /// Configure the request body as raw binary (application/octet-stream).
    ///
    /// This is intended for endpoints that accept the entire request body
    /// as a file or arbitrary bytes, without multipart form encoding.
    ///
    /// # Arguments
    /// * `description` - Optional description for the request body
    pub fn octet_stream_request(self, description: Option<&str>) -> (builder: Self)
        ensures
            builder@ == (OperationSpecView {
                request_body: Some(
                    RequestBodySpecView {
                        content_type: "application/octet-stream"@,
                        description: match description {
                            Some(text) => Some(text@),
                            None => None,
                        },
                        schema: RequestBodySchemaView::Binary,
                        required: true,
                    },
                ),
                allowed_request_content_types: Some(seq!["application/octet-stream"@]),
                ..self@
            }),
            builder.slot() == self.slot(),
    {
        let description = match description {
            Some(text) => Some(text.to_owned()),
            None => None,
        };
        let builder = self.with_request_body(
            RequestBodySpec {
                content_type: "application/octet-stream",
                description,
                schema: RequestBodySchema::Binary,
                required: true,
            },
        );
        // Also configure MIME type validation
        builder.allow_content_type("application/octet-stream")
    }

    fn with_content_types(self, types: Vec<&'static str>) -> (builder: Self)
        ensures
            builder@ == (OperationSpecView {
                allowed_request_content_types: Some(str_texts(types@)),
                ..self@
            }),
            builder.slot() == self.slot(),
    {
        proof {
            use_type_invariant(&self);
        }
        let mut spec = self.spec;
        spec.allowed_request_content_types = Some(types);
        Self::assemble(spec, self.method_router)
    }

    fn allow_content_type(self, content_type: &'static str) -> (builder: Self)
        ensures
            builder@ == (OperationSpecView {
                allowed_request_content_types: Some(seq![content_type@]),
                ..self@
            }),
            builder.slot() == self.slot(),
    {
        let mut types: Vec<&'static str> = Vec::new();
        types.push(content_type);
        assert(str_texts(types@) =~= seq![content_type@]);
        self.with_content_types(types)
    }

    /// Configure allowed request MIME types for this operation.
    ///
    /// This attaches a whitelist of allowed Content-Type values (without parameters),
    /// which will be enforced by ingress middleware. If a request arrives with a
    /// Content-Type that is not in this list, ingress will return HTTP 415.
    ///
    /// This is independent of the request body schema - it only configures ingress
    /// validation and does not affect `OpenAPI` request body specifications.
    pub fn allow_content_types(self, types: &[&'static str]) -> (builder: Self)
        ensures
            builder@ == (OperationSpecView {
                allowed_request_content_types: Some(str_texts(types@)),
                ..self@
            }),
            builder.slot() == self.slot(),
    {
        self.with_content_types(copy_texts(types))
    }
}

// -------------------------------------------------------------------------------------------------
// Auth requirement setting: transitions AuthNotSet -> AuthSet
// -------------------------------------------------------------------------------------------------
impl<H: HandlerSlot<S>, R: ResponseState, S> OperationBuilder<H, R, S, AuthNotSet> {
    /// Require authentication with a specific resource:action permission.
    ///
    /// This only sets per-route security metadata (`resource` + allowed `actions`).
    /// Runtime enforcement is performed by middleware when it is configured.
    ///
    /// `actions` are treated as "any-of" during authorization (at least one action must match).
    ///
    /// This method transitions from `AuthNotSet` to `AuthSet` state.
    pub fn require_auth<Resource: RbacResource, Action: RbacAction>(
        self,
        resource: &Resource,
        actions: &[Action],
    ) -> (builder: OperationBuilder<H, R, S, AuthSet>)
        ensures
            exists|requirement: OperationSecRequirementView|
                #[trigger] is_requirement_of(requirement, resource, actions@) && builder@ == (
                OperationSpecView {
                    sec_requirement: Some(requirement),
                    is_public: false,
                    ..self@
                }),
            builder.slot() == self.slot(),
    {
        proof {
            use_type_invariant(&self);
        }
        let mut required: Vec<String> = Vec::new();
        for i in 0..actions.len()
            invariant
                required.len() == i,
                forall|j: int|
                    0 <= j < i ==> is_name_of(&actions@[j], #[trigger] texts(required@)[j]),
        {
            let name = actions[i].as_str();
            let ghost before = texts(required@);
            required.push(name.to_owned());
            assert(texts(required@) =~= before.push(name@));
        }
        let requirement = OperationSecRequirement {
            resource: resource.as_str().to_owned(),
            actions: required,
        };
        assert(is_requirement_of(requirement@, resource, actions@));
        let mut spec = self.spec;
        spec.sec_requirement = Some(requirement);
        spec.is_public = false;
        OperationBuilder::assemble(spec, self.method_router)
    }

    /// Mark this route as public (no authentication required).
    ///
    /// This explicitly opts out of the `require_auth_by_default` setting.
    /// This method transitions from `AuthNotSet` to `AuthSet` state.
    pub fn public(self) -> (builder: OperationBuilder<H, R, S, AuthSet>)
        ensures
            builder@ == (OperationSpecView { is_public: true, sec_requirement: None, ..self@ }),
            builder.slot() == self.slot(),
    {
        proof {
            use_type_invariant(&self);
        }
        let mut spec = self.spec;
        spec.is_public = true;
        spec.sec_requirement = None;
        OperationBuilder::assemble(spec, self.method_router)
    }
}

// -------------------------------------------------------------------------------------------------
// Handler setting: transitions Missing -> Present for handler
// -------------------------------------------------------------------------------------------------
impl<R: ResponseState, S, A: AuthState> OperationBuilder<Missing, R, S, A> {
    /// Set the handler for this operation.
    ///
    /// `route` makes the method router: it is told how requests are routed to the handler,
    /// which is by the method of the operation.
    ///
    /// This transitions the builder from `Missing` to `Present` handler state.
    pub fn handler<F: FnOnce(Routing) -> MethodRouter<S>>(self, route: F) -> (builder:
        OperationBuilder<Present, R, S, A>)
        requires
            call_requires(route, (routing_of(self@.method),)),
        ensures
            builder@ == self@,
            call_ensures(route, (routing_of(self@.method),), builder.slot()),
    {
        let routing = self.spec.method.routing();
        self.method_router(route(routing))
    }

    /// Alternative path: provide a pre-composed `MethodRouter<S>` yourself
    /// (useful to attach per-route middleware/layers).
    pub fn method_router(self, mr: MethodRouter<S>) -> (builder: OperationBuilder<
        Present,
        R,
        S,
        A,
    >)
        ensures
            builder@ == self@,
            builder.slot() == mr,
    {
        proof {
            use_type_invariant(&self);
        }
        OperationBuilder::assemble(self.spec, mr)
    }
}


impl<H: HandlerSlot<S>, R: ResponseState, S, A: AuthState> OperationBuilder<H, R, S, A> {
    /// Add a raw response spec (first or additional).
    pub fn with_response(self, response: ResponseSpec) -> (builder: OperationBuilder<
        H,
        Present,
        S,
        A,
    >)
        ensures
            builder@ == (OperationSpecView {
                responses: self@.responses.push(response@),
                ..self@
            }),
            builder.slot() == self.slot(),
    {
        proof {
            use_type_invariant(&self);
        }
        let mut spec = self.spec;
        spec.responses.push(response);
        assert(spec@ =~= (OperationSpecView {
            responses: self@.responses.push(response@),
            ..self@
        }));
        OperationBuilder::assemble(spec, self.method_router)
    }

    fn with_component_response(
        self,
        component: String,
        status: StatusCode,
        content_type: &'static str,
        description: &str,
    ) -> (builder: OperationBuilder<H, Present, S, A>)
        ensures
            builder@ == (OperationSpecView {
                responses: self@.responses.push(
                    ResponseSpecView {
                        status: status@,
                        content_type: content_type@,
                        description: description@,
                        schema_name: Some(component@),
                    },
                ),
                ..self@
            }),
            builder.slot() == self.slot(),
    {
        self.with_response(
            ResponseSpec {
                status: status.as_u16(),
                content_type,
                description: description.to_owned(),
                schema_name: Some(component),
            },
        )
    }
}

// -------------------------------------------------------------------------------------------------
// Response setting: transitions Missing -> Present for response (first response)
// -------------------------------------------------------------------------------------------------
impl<H: HandlerSlot<S>, S, A: AuthState> OperationBuilder<H, Missing, S, A> {
    /// Add a raw response spec (transitions from Missing to Present).
    pub fn response(self, resp: ResponseSpec) -> (builder: OperationBuilder<H, Present, S, A>)
        ensures
            builder@ == (OperationSpecView { responses: self@.responses.push(resp@), ..self@ }),
            builder.slot() == self.slot(),
    {
        self.with_response(resp)
    }

    /// Add a JSON response (transitions from Missing to Present).
    pub fn json_response(self, status: StatusCode, description: &str) -> (builder: OperationBuilder<
        H,
        Present,
        S,
        A,
    >)
        ensures
            builder@ == (OperationSpecView {
                responses: self@.responses.push(
                    ResponseSpecView {
                        status: status@,
                        content_type: "application/json"@,
                        description: description@,
                        schema_name: None,
                    },
                ),
                ..self@
            }),
            builder.slot() == self.slot(),
    {
        self.with_response(
            ResponseSpec {
                status: status.as_u16(),
                content_type: "application/json",
                description: description.to_owned(),
                schema_name: None,
            },
        )
    }

    /// Add a JSON response with a registered schema (transitions from Missing to Present).
    pub fn json_response_with_schema<G: OpenApiRegistry + ?Sized>(
        self,
        registry: &G,
        schema: TypeSchema<G::Schema>,
        status: StatusCode,
        description: &str,
    ) -> (builder: OperationBuilder<H, Present, S, A>)
        ensures
            exists|component: Seq<char>|
                #[trigger] is_component(
                    registry,
                    schema.name@,
                    schema.schemas@,
                    component,
                ) && builder@ == (
                OperationSpecView {
                    responses: self@.responses.push(
                        ResponseSpecView {
                            status: status@,
                            content_type: "application/json"@,
                            description: description@,
                            schema_name: Some(component),
                        },
                    ),
                    ..self@
                }),
            builder.slot() == self.slot(),
    {
        let name = ensure_schema(registry, schema);
        self.with_component_response(name, status, "application/json", description)
    }

    /// Add a text response with a custom content type (transitions from Missing to Present).
    ///
    /// # Arguments
    /// * `status` - HTTP status code
    /// * `description` - Description of the response
    /// * `content_type` - **Pure media type without parameters** (e.g., `"text/plain"`)
    ///
    /// # Important
    /// The `content_type` must be a pure media type **without parameters** like `; charset=utf-8`.
    /// `OpenAPI` media type keys cannot include parameters. Actual HTTP response headers in
    /// handlers should still include the charset parameter.
    pub fn text_response(
        self,
        status: StatusCode,
        description: &str,
        content_type: &'static str,
    ) -> (builder: OperationBuilder<H, Present, S, A>)
        ensures
            builder@ == (OperationSpecView {
                responses: self@.responses.push(
                    ResponseSpecView {
                        status: status@,
                        content_type: content_type@,
                        description: description@,
                        schema_name: None,
                    },
                ),
                ..self@
            }),
            builder.slot() == self.slot(),
    {
        self.with_response(
            ResponseSpec {
                status: status.as_u16(),
                content_type,
                description: description.to_owned(),
                schema_name: None,
            },
        )
    }

    /// Add an HTML response (transitions from Missing to Present).
    pub fn html_response(self, status: StatusCode, description: &str) -> (builder: OperationBuilder<
        H,
        Present,
        S,
        A,
    >)
        ensures
            builder@ == (OperationSpecView {
                responses: self@.responses.push(
                    ResponseSpecView {
                        status: status@,
                        content_type: "text/html"@,
                        description: description@,
                        schema_name: None,
                    },
                ),
                ..self@
            }),
            builder.slot() == self.slot(),
    {
        self.with_response(
            ResponseSpec {
                status: status.as_u16(),
                content_type: "text/html",
                description: description.to_owned(),
                schema_name: None,
            },
        )
    }

    /// Add an RFC 9457 `application/problem+json` response (transitions from Missing to Present).
    pub fn problem_response<G: OpenApiRegistry + ?Sized>(
        self,
        registry: &G,
        status: StatusCode,
        description: &str,
    ) -> (builder: OperationBuilder<H, Present, S, A>)
        ensures
            exists|component: Seq<char>|
                #[trigger] is_error_component(registry, PROBLEM_SCHEMA@, component) && builder@ == (
                OperationSpecView {
                    responses: self@.responses.push(
                        ResponseSpecView {
                            status: status@,
                            content_type: APPLICATION_PROBLEM_JSON@,
                            description: description@,
                            schema_name: Some(component),
                        },
                    ),
                    ..self@
                }),
            builder.slot() == self.slot(),
    {
        let problem_name = ensure_error_schema(registry, PROBLEM_SCHEMA);
        self.with_component_response(problem_name, status, APPLICATION_PROBLEM_JSON, description)
    }

    /// Add an SSE stream of JSON events (`text/event-stream`; transitions from Missing to Present).
    pub fn sse_json<G: OpenApiRegistry + ?Sized>(
        self,
        registry: &G,
        schema: TypeSchema<G::Schema>,
        description: &str,
    ) -> (builder: OperationBuilder<H, Present, S, A>)
        ensures
            exists|component: Seq<char>|
                #[trigger] is_component(
                    registry,
                    schema.name@,
                    schema.schemas@,
                    component,
                ) && builder@ == (
                OperationSpecView {
                    responses: self@.responses.push(
                        ResponseSpecView {
                            status: 200,
                            content_type: "text/event-stream"@,
                            description: description@,
                            schema_name: Some(component),
                        },
                    ),
                    ..self@
                }),
            builder.slot() == self.slot(),
    {
        let name = ensure_schema(registry, schema);
        self.with_component_response(name, StatusCode::OK, "text/event-stream", description)
    }
}

// -------------------------------------------------------------------------------------------------
// Additional responses: for Present response state
// -------------------------------------------------------------------------------------------------
impl<H: HandlerSlot<S>, S, A: AuthState> OperationBuilder<H, Present, S, A> {
    /// Add a JSON response (additional).
    pub fn json_response(self, status: StatusCode, description: &str) -> (builder: Self)
        ensures
            builder@ == (OperationSpecView {
                responses: self@.responses.push(
                    ResponseSpecView {
                        status: status@,
                        content_type: "application/json"@,
                        description: description@,
                        schema_name: None,
                    },
                ),
                ..self@
            }),
            builder.slot() == self.slot(),
    {
        self.with_response(
            ResponseSpec {
                status: status.as_u16(),
                content_type: "application/json",
                description: description.to_owned(),
                schema_name: None,
            },
        )
    }

    /// Add a JSON response with a registered schema (additional).
    pub fn json_response_with_schema<G: OpenApiRegistry + ?Sized>(
        self,
        registry: &G,
        schema: TypeSchema<G::Schema>,
        status: StatusCode,
        description: &str,
    ) -> (builder: Self)
        ensures
            exists|component: Seq<char>|
                #[trigger] is_component(
                    registry,
                    schema.name@,
                    schema.schemas@,
                    component,
                ) && builder@ == (
                OperationSpecView {
                    responses: self@.responses.push(
                        ResponseSpecView {
                            status: status@,
                            content_type: "application/json"@,
                            description: description@,
                            schema_name: Some(component),
                        },
                    ),
                    ..self@
                }),
            builder.slot() == self.slot(),
    {
        let name = ensure_schema(registry, schema);
        self.with_component_response(name, status, "application/json", description)
    }

    /// Add a text response with a custom content type (additional).
    ///
    /// # Arguments
    /// * `status` - HTTP status code
    /// * `description` - Description of the response
    /// * `content_type` - **Pure media type without parameters** (e.g., `"text/plain"`)
    ///
    /// # Important
    /// The `content_type` must be a pure media type **without parameters** like `; charset=utf-8`.
    /// `OpenAPI` media type keys cannot include parameters. Actual HTTP response headers in
    /// handlers should still include the charset parameter.
    pub fn text_response(
        self,
        status: StatusCode,
        description: &str,
        content_type: &'static str,
    ) -> (builder: Self)
        ensures
            builder@ == (OperationSpecView {
                responses: self@.responses.push(
                    ResponseSpecView {
                        status: status@,
                        content_type: content_type@,
                        description: description@,
                        schema_name: None,
                    },
                ),
                ..self@
            }),
            builder.slot() == self.slot(),
    {
        self.with_response(
            ResponseSpec {
                status: status.as_u16(),
                content_type,
                description: description.to_owned(),
                schema_name: None,
            },
        )
    }

    /// Add an HTML response (additional).
    pub fn html_response(self, status: StatusCode, description: &str) -> (builder: Self)
        ensures
            builder@ == (OperationSpecView {
                responses: self@.responses.push(
                    ResponseSpecView {
                        status: status@,
                        content_type: "text/html"@,
                        description: description@,
                        schema_name: None,
                    },
                ),
                ..self@
            }),
            builder.slot() == self.slot(),
    {
        self.with_response(
            ResponseSpec {
                status: status.as_u16(),
                content_type: "text/html",
                description: description.to_owned(),
                schema_name: None,
            },
        )
    }

    /// Add an RFC 9457 `application/problem+json` response (additional).
    pub fn problem_response<G: OpenApiRegistry + ?Sized>(
        self,
        registry: &G,
        status: StatusCode,
        description: &str,
    ) -> (builder: Self)
        ensures
            exists|component: Seq<char>|
                #[trigger] is_error_component(registry, PROBLEM_SCHEMA@, component) && builder@ == (
                OperationSpecView {
                    responses: self@.responses.push(
                        ResponseSpecView {
                            status: status@,
                            content_type: APPLICATION_PROBLEM_JSON@,
                            description: description@,
                            schema_name: Some(component),
                        },
                    ),
                    ..self@
                }),
            builder.slot() == self.slot(),
    {
        let problem_name = ensure_error_schema(registry, PROBLEM_SCHEMA);
        self.with_component_response(problem_name, status, APPLICATION_PROBLEM_JSON, description)
    }

    /// Add an SSE stream of JSON events (`text/event-stream`; additional).
    pub fn sse_json<G: OpenApiRegistry + ?Sized>(
        self,
        registry: &G,
        schema: TypeSchema<G::Schema>,
        description: &str,
    ) -> (builder: Self)
        ensures
            exists|component: Seq<char>|
                #[trigger] is_component(
                    registry,
                    schema.name@,
                    schema.schemas@,
                    component,
                ) && builder@ == (
                OperationSpecView {
                    responses: self@.responses.push(
                        ResponseSpecView {
                            status: 200,
                            content_type: "text/event-stream"@,
                            description: description@,
                            schema_name: Some(component),
                        },
                    ),
                    ..self@
                }),
            builder.slot() == self.slot(),
    {
        let name = ensure_schema(registry, schema);
        self.with_component_response(name, StatusCode::OK, "text/event-stream", description)
    }

    /// Add standard error responses (400, 401, 403, 404, 409, 422, 429, 500).
    ///
    /// All responses reference the shared Problem schema (RFC 9457) for consistent
    /// error handling across your API. This is the recommended way to declare
    /// common error responses without repeating boilerplate.
    ///
    /// This adds the following error responses:
    /// - 400 Bad Request
    /// - 401 Unauthorized
    /// - 403 Forbidden
    /// - 404 Not Found
    /// - 409 Conflict
    /// - 422 Unprocessable Entity
    /// - 429 Too Many Requests
    /// - 500 Internal Server Error
    pub fn standard_errors<G: OpenApiRegistry + ?Sized>(self, registry: &G) -> (builder: Self)
        ensures
            exists|component: Seq<char>|
                #[trigger] is_error_component(registry, PROBLEM_SCHEMA@, component) && builder@ == (
                OperationSpecView {
                    responses: self@.responses + standard_error_responses(component),
                    ..self@
                }),
            builder.slot() == self.slot(),
    {
        let problem_name = ensure_error_schema(registry, PROBLEM_SCHEMA);
        self.with_standard_errors(problem_name.as_str())
    }

    /// Add standard error responses that refer to a registered schema by its name.
    pub fn with_standard_errors(self, problem_name: &str) -> (builder: Self)
        ensures
            builder@ == (OperationSpecView {
                responses: self@.responses + standard_error_responses(problem_name@),
                ..self@
            }),
            builder.slot() == self.slot(),
    {
        proof {
            use_type_invariant(&self);
        }
        let standard_errors = [
            (StatusCode::BAD_REQUEST, "Bad Request"),
            (StatusCode::UNAUTHORIZED, "Unauthorized"),
            (StatusCode::FORBIDDEN, "Forbidden"),
            (StatusCode::NOT_FOUND, "Not Found"),
            (StatusCode::CONFLICT, "Conflict"),
            (StatusCode::UNPROCESSABLE_ENTITY, "Unprocessable Entity"),
            (StatusCode::TOO_MANY_REQUESTS, "Too Many Requests"),
            (StatusCode::INTERNAL_SERVER_ERROR, "Internal Server Error"),
        ];
        let ghost added = standard_error_responses(problem_name@);
        let mut spec = self.spec;
        let mut responses = spec.responses;
        assert(responses_view(responses@) =~= self@.responses + added.take(0));
        for i in 0..standard_errors.len()
            invariant
                standard_errors@.len() == 8,
                added == standard_error_responses(problem_name@),
                forall|j: int|
                    0 <= j < 8 ==> (#[trigger] standard_errors@[j]).0@ == added[j].status
                        && standard_errors@[j].1@ == added[j].description,
                responses_view(responses@) == self@.responses + added.take(i as int),
        {
            let ghost before = responses@;
            responses.push(
                ResponseSpec {
                    status: standard_errors[i].0.as_u16(),
                    content_type: APPLICATION_PROBLEM_JSON,
                    description: standard_errors[i].1.to_owned(),
                    schema_name: Some(problem_name.to_owned()),
                },
            );
            assert(responses@.last()@ == added[i as int]);
            assert(responses_view(responses@) =~= responses_view(before).push(added[i as int]));
            assert(responses_view(responses@) =~= self@.responses + added.take(i + 1));
        }
        assert(added.take(8) =~= added);
        spec.responses = responses;
        Self::assemble(spec, self.method_router)
    }

    /// Add 422 validation error response using the validation error schema.
    ///
    /// This method adds a specific 422 Unprocessable Entity response that uses
    /// the validation error schema instead of the generic Problem schema. Use this
    /// for endpoints that perform input validation and need structured error details.
    pub fn with_422_validation_error<G: OpenApiRegistry + ?Sized>(self, registry: &G) -> (builder:
        Self)
        ensures
            exists|component: Seq<char>|
                #[trigger] is_error_component(registry, VALIDATION_ERROR_SCHEMA@, component)
                    && builder@ == (OperationSpecView {
                    responses: self@.responses.push(
                        ResponseSpecView {
                            status: 422,
                            content_type: APPLICATION_PROBLEM_JSON@,
                            description: "Validation Error"@,
                            schema_name: Some(component),
                        },
                    ),
                    ..self@
                }),
            builder.slot() == self.slot(),
    {
        let validation_error_name = ensure_error_schema(registry, VALIDATION_ERROR_SCHEMA);
        self.with_component_response(
            validation_error_name,
            StatusCode::UNPROCESSABLE_ENTITY,
            APPLICATION_PROBLEM_JSON,
            "Validation Error",
        )
    }

    /// Add a 400 Bad Request error response.
    ///
    /// This is a convenience wrapper around `problem_response`.
    pub fn error_400<G: OpenApiRegistry + ?Sized>(self, registry: &G) -> (builder: Self)
        ensures
            exists|component: Seq<char>|
                #[trigger] is_error_component(registry, PROBLEM_SCHEMA@, component) && builder@ == (
                OperationSpecView {
                    responses: self@.responses.push(
                        problem_response_of(400, "Bad Request"@, component),
                    ),
                    ..self@
                }),
            builder.slot() == self.slot(),
    {
        self.problem_response(registry, StatusCode::BAD_REQUEST, "Bad Request")
    }

    /// Add a 401 Unauthorized error response.
    ///
    /// This is a convenience wrapper around `problem_response`.
    pub fn error_401<G: OpenApiRegistry + ?Sized>(self, registry: &G) -> (builder: Self)
        ensures
            exists|component: Seq<char>|
                #[trigger] is_error_component(registry, PROBLEM_SCHEMA@, component) && builder@ == (
                OperationSpecView {
                    responses: self@.responses.push(
                        problem_response_of(401, "Unauthorized"@, component),
                    ),
                    ..self@
                }),
            builder.slot() == self.slot(),
    {
        self.problem_response(registry, StatusCode::UNAUTHORIZED, "Unauthorized")
    }

    /// Add a 403 Forbidden error response.
    ///
    /// This is a convenience wrapper around `problem_response`.
    pub fn error_403<G: OpenApiRegistry + ?Sized>(self, registry: &G) -> (builder: Self)
        ensures
            exists|component: Seq<char>|
                #[trigger] is_error_component(registry, PROBLEM_SCHEMA@, component) && builder@ == (
                OperationSpecView {
                    responses: self@.responses.push(
                        problem_response_of(403, "Forbidden"@, component),
                    ),
                    ..self@
                }),
            builder.slot() == self.slot(),
    {
        self.problem_response(registry, StatusCode::FORBIDDEN, "Forbidden")
    }

    /// Add a 404 Not Found error response.
    ///
    /// This is a convenience wrapper around `problem_response`.
    pub fn error_404<G: OpenApiRegistry + ?Sized>(self, registry: &G) -> (builder: Self)
        ensures
            exists|component: Seq<char>|
                #[trigger] is_error_component(registry, PROBLEM_SCHEMA@, component) && builder@ == (
                OperationSpecView {
                    responses: self@.responses.push(
                        problem_response_of(404, "Not Found"@, component),
                    ),
                    ..self@
                }),
            builder.slot() == self.slot(),
    {
        self.problem_response(registry, StatusCode::NOT_FOUND, "Not Found")
    }

    /// Add a 409 Conflict error response.
    ///
    /// This is a convenience wrapper around `problem_response`.
    pub fn error_409<G: OpenApiRegistry + ?Sized>(self, registry: &G) -> (builder: Self)
        ensures
            exists|component: Seq<char>|
                #[trigger] is_error_component(registry, PROBLEM_SCHEMA@, component) && builder@ == (
                OperationSpecView {
                    responses: self@.responses.push(
                        problem_response_of(409, "Conflict"@, component),
                    ),
                    ..self@
                }),
            builder.slot() == self.slot(),
    {
        self.problem_response(registry, StatusCode::CONFLICT, "Conflict")
    }

    /// Add a 415 Unsupported Media Type error response.
    ///
    /// This is a convenience wrapper around `problem_response`.
    pub fn error_415<G: OpenApiRegistry + ?Sized>(self, registry: &G) -> (builder: Self)
        ensures
            exists|component: Seq<char>|
                #[trigger] is_error_component(registry, PROBLEM_SCHEMA@, component) && builder@ == (
                OperationSpecView {
                    responses: self@.responses.push(
                        problem_response_of(415, "Unsupported Media Type"@, component),
                    ),
                    ..self@
                }),
            builder.slot() == self.slot(),
    {
        self.problem_response(
            registry,
            StatusCode::UNSUPPORTED_MEDIA_TYPE,
            "Unsupported Media Type",
        )
    }

    /// Add a 422 Unprocessable Entity error response.
    ///
    /// This is a convenience wrapper around `problem_response`.
    pub fn error_422<G: OpenApiRegistry + ?Sized>(self, registry: &G) -> (builder: Self)
        ensures
            exists|component: Seq<char>|
                #[trigger] is_error_component(registry, PROBLEM_SCHEMA@, component) && builder@ == (
                OperationSpecView {
                    responses: self@.responses.push(
                        problem_response_of(422, "Unprocessable Entity"@, component),
                    ),
                    ..self@
                }),
            builder.slot() == self.slot(),
    {
        self.problem_response(registry, StatusCode::UNPROCESSABLE_ENTITY, "Unprocessable Entity")
    }

    /// Add a 429 Too Many Requests error response.
    ///
    /// This is a convenience wrapper around `problem_response`.
    pub fn error_429<G: OpenApiRegistry + ?Sized>(self, registry: &G) -> (builder: Self)
        ensures
            exists|component: Seq<char>|
                #[trigger] is_error_component(registry, PROBLEM_SCHEMA@, component) && builder@ == (
                OperationSpecView {
                    responses: self@.responses.push(
                        problem_response_of(429, "Too Many Requests"@, component),
                    ),
                    ..self@
                }),
            builder.slot() == self.slot(),
    {
        self.problem_response(registry, StatusCode::TOO_MANY_REQUESTS, "Too Many Requests")
    }

    /// Add a 500 Internal Server Error error response.
    ///
    /// This is a convenience wrapper around `problem_response`.
    pub fn error_500<G: OpenApiRegistry + ?Sized>(self, registry: &G) -> (builder: Self)
        ensures
            exists|component: Seq<char>|
                #[trigger] is_error_component(registry, PROBLEM_SCHEMA@, component) && builder@ == (
                OperationSpecView {
                    responses: self@.responses.push(
                        problem_response_of(500, "Internal Server Error"@, component),
                    ),
                    ..self@
                }),
            builder.slot() == self.slot(),
    {
        self.problem_response(registry, StatusCode::INTERNAL_SERVER_ERROR, "Internal Server Error")
    }
}

// -------------------------------------------------------------------------------------------------
// Registration: only available when handler, response, AND auth are all set
// -------------------------------------------------------------------------------------------------
impl<S> OperationBuilder<Present, Present, S, AuthSet> {
    /// Register the operation with the router and `OpenAPI` registry.
    ///
    /// This method is only available when:
    /// - Handler is present
    /// - Response is present
    /// - Auth requirement is set (either `require_auth` or `public`)
    ///
    /// All conditions are enforced at compile time by the type system.
    ///
    /// The registry is told first. Then `mount` puts the method router under the path; what it
    /// gives back is the router.
    pub fn register<
        Router,
        M: FnOnce(&str, MethodRouter<S>) -> Router,
        G: OpenApiRegistry + ?Sized,
    >(
        self,
        mount: M,
        openapi: &G,
    ) -> (router: Router)
        requires
            forall|path: &str| path@ == self@.path ==> call_requires(mount, (path, self.slot())),
        ensures
            exists|path: &str|
                path@ == self@.path && #[trigger] call_ensures(
                    mount,
                    (path, self.slot()),
                    router,
                ),
            is_told(openapi, self@),
            self@.responses.len() > 0,
            self@.is_public != (self@.sec_requirement is Some),
    {
        proof {
            use_type_invariant(&self);
        }
        // Inform the OpenAPI registry (the implementation will turn OperationSpec
        // into an OpenAPI Operation + RequestBody + Responses with component refs).
        openapi.register_operation(&self.spec);
        // In Present state the method_router is guaranteed to be a real MethodRouter<S>.
        mount(self.spec.path.as_str(), self.method_router)
    }
}

/// Adds OData query options to an operation.
pub trait OperationBuilderODataExt<S, H, R>: Sized {
    /// Adds optional `$filter` query parameter to `OpenAPI`.
    #[must_use]
    fn with_odata_filter(self) -> Self;

    /// Same as above but with explicit description (e.g., allowed fields).
    #[must_use]
    fn with_odata_filter_doc(self, description: &str) -> Self;
}

/// The `$filter` query parameter.
pub open spec fn odata_filter(description: Seq<char>) -> ParamSpecView {
    ParamSpecView {
        name: "$filter"@,
        location: ParamLocation::Query,
        required: false,
        description: Some(description),
        param_type: "string"@,
    }
}

impl<
    S,
    H: HandlerSlot<S>,
    R: ResponseState,
    A: AuthState,
> OperationBuilderODataExt<S, H, R> for OperationBuilder<H, R, S, A> {
    fn with_odata_filter(self) -> (builder: Self)
        ensures
            builder@ == (OperationSpecView {
                params: self@.params.push(odata_filter("OData v4 filter expression"@)),
                ..self@
            }),
            builder.slot() == self.slot(),
    {
        self.query_param("$filter", false, "OData v4 filter expression")
    }

    fn with_odata_filter_doc(self, description: &str) -> (builder: Self)
        ensures
            builder@ == (OperationSpecView {
                params: self@.params.push(odata_filter(description@)),
                ..self@
            }),
            builder.slot() == self.slot(),
    {
        self.query_param("$filter", false, description)
    }
}

} // verus!
