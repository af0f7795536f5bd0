//! What is known of an API operation: its route, its documentation and its limits.

use vstd::prelude::*;

use crate::protocol::Method;
use crate::text::{opt_text, same_text, texts};

verus! {

/// Where a parameter is found in a request.
#[derive(Clone, Copy, Debug, PartialEq, Eq, Structural)]
pub enum ParamLocation {
    Path,
    Query,
    Header,
    Cookie,
}

/// Parameter specification for API operations.
#[derive(Debug)]
pub struct ParamSpec {
    pub name: String,
    pub location: ParamLocation,
    pub required: bool,
    pub description: Option<String>,
    /// JSON Schema type (string, integer, etc.).
    pub param_type: String,
}

/// Request body schema variants for different kinds of request bodies.
#[derive(Debug)]
pub enum RequestBodySchema {
    /// Reference to a component schema in `#/components/schemas/{schema_name}`.
    Ref { schema_name: String },
    /// Multipart form with a single file field.
    MultipartFile { field_name: String },
    /// Raw binary body (e.g. application/octet-stream).
    Binary,
    /// A generic inline object schema with no predefined properties.
    InlineObject,
}

/// Request body specification for API operations.
#[derive(Debug)]
pub struct RequestBodySpec {
    pub content_type: &'static str,
    pub description: Option<String>,
    /// The schema for this request body.
    pub schema: RequestBodySchema,
    /// Whether request body is required.
    pub required: bool,
}

/// Response specification for API operations.
#[derive(Debug)]
pub struct ResponseSpec {
    pub status: u16,
    pub content_type: &'static str,
    pub description: String,
    /// Name of a registered component schema (if any).
    pub schema_name: Option<String>,
}

/// Security requirement for an operation (resource:action pattern).
#[derive(Debug)]
pub struct OperationSecRequirement {
    pub resource: String,
    pub actions: Vec<String>,
}

/// Per-operation rate & concurrency limit specification.
#[derive(Clone, Copy, Debug, PartialEq, Eq, Structural)]
pub struct RateLimitSpec {
    /// Target steady-state requests per second.
    pub rps: u32,
    /// Maximum burst size (token bucket capacity).
    pub burst: u32,
    /// Maximum number of in-flight requests for this route.
    pub in_flight: u32,
}

impl Default for RateLimitSpec {
    fn default() -> (limit: Self)
        ensures
            limit == (RateLimitSpec { rps: 0, burst: 0, in_flight: 0 }),
    {
        RateLimitSpec { rps: 0, burst: 0, in_flight: 0 }
    }
}

/// Simplified operation specification for the type-safe builder.
#[derive(Debug)]
pub struct OperationSpec {
    pub method: Method,
    pub path: String,
    pub operation_id: Option<String>,
    pub summary: Option<String>,
    pub description: Option<String>,
    pub tags: Vec<String>,
    pub params: Vec<ParamSpec>,
    pub request_body: Option<RequestBodySpec>,
    pub responses: Vec<ResponseSpec>,
    /// Internal handler id; can be used by registry/generator to map a handler identity.
    pub handler_id: String,
    /// Security requirement for this operation (if any).
    pub sec_requirement: Option<OperationSecRequirement>,
    /// Explicitly mark route as public (no auth required).
    pub is_public: bool,
    /// Optional rate & concurrency limits for this operation.
    pub rate_limit: Option<RateLimitSpec>,
    /// Optional whitelist of allowed request Content-Type values (without parameters).
    /// This is independent of the request body.
    pub allowed_request_content_types: Option<Vec<&'static str>>,
}

/// What a [`ParamSpec`] says.
#[verifier::ext_equal]
pub struct ParamSpecView {
    pub name: Seq<char>,
    pub location: ParamLocation,
    pub required: bool,
    pub description: Option<Seq<char>>,
    pub param_type: Seq<char>,
}

/// What a [`RequestBodySchema`] says.
#[verifier::ext_equal]
pub enum RequestBodySchemaView {
    Ref { schema_name: Seq<char> },
    MultipartFile { field_name: Seq<char> },
    Binary,
    InlineObject,
}

/// What a [`RequestBodySpec`] says.
#[verifier::ext_equal]
pub struct RequestBodySpecView {
    pub content_type: Seq<char>,
    pub description: Option<Seq<char>>,
    pub schema: RequestBodySchemaView,
    pub required: bool,
}

/// What a [`ResponseSpec`] says.
#[verifier::ext_equal]
pub struct ResponseSpecView {
    pub status: u16,
    pub content_type: Seq<char>,
    pub description: Seq<char>,
    pub schema_name: Option<Seq<char>>,
}

/// What an [`OperationSecRequirement`] says.
#[verifier::ext_equal]
pub struct OperationSecRequirementView {
    pub resource: Seq<char>,
    pub actions: Seq<Seq<char>>,
}

/// What an [`OperationSpec`] says. The method is given by its name.
#[verifier::ext_equal]
pub struct OperationSpecView {
    pub method: Seq<char>,
    pub path: Seq<char>,
    pub operation_id: Option<Seq<char>>,
    pub summary: Option<Seq<char>>,
    pub description: Option<Seq<char>>,
    pub tags: Seq<Seq<char>>,
    pub params: Seq<ParamSpecView>,
    pub request_body: Option<RequestBodySpecView>,
    pub responses: Seq<ResponseSpecView>,
    pub handler_id: Seq<char>,
    pub sec_requirement: Option<OperationSecRequirementView>,
    pub is_public: bool,
    pub rate_limit: Option<RateLimitSpec>,
    pub allowed_request_content_types: Option<Seq<Seq<char>>>,
}

impl View for ParamSpec {
    type V = ParamSpecView;

    open spec fn view(&self) -> ParamSpecView {
        ParamSpecView {
            name: self.name@,
            location: self.location,
            required: self.required,
            description: opt_text(self.description),
            param_type: self.param_type@,
        }
    }
}

impl View for RequestBodySchema {
    type V = RequestBodySchemaView;

    open spec fn view(&self) -> RequestBodySchemaView {
        match self {
            RequestBodySchema::Ref { schema_name } => RequestBodySchemaView::Ref {
                schema_name: schema_name@,
            },
            RequestBodySchema::MultipartFile {
                field_name,
            } => RequestBodySchemaView::MultipartFile { field_name: field_name@ },
            RequestBodySchema::Binary => RequestBodySchemaView::Binary,
            RequestBodySchema::InlineObject => RequestBodySchemaView::InlineObject,
        }
    }
}

impl View for RequestBodySpec {
    type V = RequestBodySpecView;

    open spec fn view(&self) -> RequestBodySpecView {
        RequestBodySpecView {
            content_type: self.content_type@,
            description: opt_text(self.description),
            schema: self.schema@,
            required: self.required,
        }
    }
}

impl View for ResponseSpec {
    type V = ResponseSpecView;

    open spec fn view(&self) -> ResponseSpecView {
        ResponseSpecView {
            status: self.status,
            content_type: self.content_type@,
            description: self.description@,
            schema_name: opt_text(self.schema_name),
        }
    }
}

impl View for OperationSecRequirement {
    type V = OperationSecRequirementView;

    open spec fn view(&self) -> OperationSecRequirementView {
        OperationSecRequirementView { resource: self.resource@, actions: texts(self.actions@) }
    }
}

/// What a list of parameters says.
pub open spec fn params_view(params: Seq<ParamSpec>) -> Seq<ParamSpecView> {
    params.map_values(|param: ParamSpec| param@)
}

/// What a list of responses says.
pub open spec fn responses_view(responses: Seq<ResponseSpec>) -> Seq<ResponseSpecView> {
    responses.map_values(|response: ResponseSpec| response@)
}

/// The texts of a list.
pub open spec fn str_texts(list: Seq<&'static str>) -> Seq<Seq<char>> {
    list.map_values(|text: &'static str| text@)
}

impl View for OperationSpec {
    type V = OperationSpecView;

    open spec fn view(&self) -> OperationSpecView {
        OperationSpecView {
            method: self.method@,
            path: self.path@,
            operation_id: opt_text(self.operation_id),
            summary: opt_text(self.summary),
            description: opt_text(self.description),
            tags: texts(self.tags@),
            params: params_view(self.params@),
            request_body: match self.request_body {
                Some(body) => Some(body@),
                None => None,
            },
            responses: responses_view(self.responses@),
            handler_id: self.handler_id@,
            sec_requirement: match self.sec_requirement {
                Some(requirement) => Some(requirement@),
                None => None,
            },
            is_public: self.is_public,
            rate_limit: self.rate_limit,
            allowed_request_content_types: match self.allowed_request_content_types {
                Some(types) => Some(str_texts(types@)),
                None => None,
            },
        }
    }
}

fn clone_text(text: &Option<String>) -> (copy: Option<String>)
    ensures
        opt_text(copy) == opt_text(*text),
{
    match text {
        Some(text) => Some(text.clone()),
        None => None,
    }
}

impl Clone for ParamSpec {
    fn clone(&self) -> (copy: Self)
        ensures
            copy@ == self@,
    {
        ParamSpec {
            name: self.name.clone(),
            location: self.location,
            required: self.required,
            description: clone_text(&self.description),
            param_type: self.param_type.clone(),
        }
    }
}

impl Clone for RequestBodySchema {
    fn clone(&self) -> (copy: Self)
        ensures
            copy@ == self@,
    {
        match self {
            RequestBodySchema::Ref { schema_name } => RequestBodySchema::Ref {
                schema_name: schema_name.clone(),
            },
            RequestBodySchema::MultipartFile { field_name } => RequestBodySchema::MultipartFile {
                field_name: field_name.clone(),
            },
            RequestBodySchema::Binary => RequestBodySchema::Binary,
            RequestBodySchema::InlineObject => RequestBodySchema::InlineObject,
        }
    }
}

impl PartialEq for RequestBodySchema {
    fn eq(&self, other: &Self) -> (same: bool) {
        match (self, other) {
            (
                RequestBodySchema::Ref { schema_name: a },
                RequestBodySchema::Ref { schema_name: b },
            ) => same_text(a.as_str(), b.as_str()),
            (
                RequestBodySchema::MultipartFile { field_name: a },
                RequestBodySchema::MultipartFile { field_name: b },
            ) => same_text(a.as_str(), b.as_str()),
            (RequestBodySchema::Binary, RequestBodySchema::Binary) => true,
            (RequestBodySchema::InlineObject, RequestBodySchema::InlineObject) => true,
            _ => false,
        }
    }
}

impl vstd::std_specs::cmp::PartialEqSpecImpl for RequestBodySchema {
    open spec fn obeys_eq_spec() -> bool {
        true
    }

    open spec fn eq_spec(&self, other: &Self) -> bool {
        self@ == other@
    }
}

impl Eq for RequestBodySchema {

}

impl Clone for RequestBodySpec {
    fn clone(&self) -> (copy: Self)
        ensures
            copy@ == self@,
    {
        RequestBodySpec {
            content_type: self.content_type,
            description: clone_text(&self.description),
            schema: self.schema.clone(),
            required: self.required,
        }
    }
}

impl Clone for ResponseSpec {
    fn clone(&self) -> (copy: Self)
        ensures
            copy@ == self@,
    {
        ResponseSpec {
            status: self.status,
            content_type: self.content_type,
            description: self.description.clone(),
            schema_name: clone_text(&self.schema_name),
        }
    }
}

impl Clone for OperationSecRequirement {
    fn clone(&self) -> (copy: Self)
        ensures
            copy@ == self@,
    {
        let copy = OperationSecRequirement {
            resource: self.resource.clone(),
            actions: self.actions.clone(),
        };
        assert(texts(copy.actions@) =~= texts(self.actions@));
        copy
    }
}

impl Clone for OperationSpec {
    fn clone(&self) -> (copy: Self)
        ensures
            copy@ == self@,
    {
        let tags = self.tags.clone();
        let params = self.params.clone();
        let responses = self.responses.clone();
        let request_body = match &self.request_body {
            Some(body) => Some(body.clone()),
            None => None,
        };
        let sec_requirement = match &self.sec_requirement {
            Some(requirement) => Some(requirement.clone()),
            None => None,
        };
        let allowed_request_content_types = match &self.allowed_request_content_types {
            Some(types) => Some(copy_texts(types.as_slice())),
            None => None,
        };
        assert(texts(tags@) =~= texts(self.tags@));
        assert(params_view(params@) =~= params_view(self.params@));
        assert(responses_view(responses@) =~= responses_view(self.responses@));
        OperationSpec {
            method: self.method.clone(),
            path: self.path.clone(),
            operation_id: clone_text(&self.operation_id),
            summary: clone_text(&self.summary),
            description: clone_text(&self.description),
            tags,
            params,
            request_body,
            responses,
            handler_id: self.handler_id.clone(),
            sec_requirement,
            is_public: self.is_public,
            rate_limit: self.rate_limit,
            allowed_request_content_types,
        }
    }
}

/// A copy of a list of texts.
pub fn copy_texts(list: &[&'static str]) -> (copy: Vec<&'static str>)
    ensures
        copy@ == list@,
{
    let mut copy: Vec<&'static str> = Vec::new();
    for i in 0..list.len()
        invariant
            copy@ == list@.take(i as int),
    {
        copy.push(list[i]);
        assert(copy@ =~= list@.take(i + 1));
    }
    assert(list@.take(list@.len() as int) =~= list@);
    copy
}

/// A parameter says all that it holds.
pub proof fn law_parameter_says_all(param: ParamSpec)
    ensures
        param@.name == param.name@,
        param@.location == param.location,
        param@.required == param.required,
        param@.param_type == param.param_type@,
        param.description matches Some(text) ==> param@.description == Some(text@),
        param.description is None ==> param@.description is None,
{
}

/// A request body says all that it holds.
pub proof fn law_request_body_says_all(body: RequestBodySpec)
    ensures
        body@.content_type == body.content_type@,
        body@.required == body.required,
        body.description matches Some(text) ==> body@.description == Some(text@),
        body.description is None ==> body@.description is None,
        body.schema matches RequestBodySchema::Ref { schema_name } ==> body@.schema == (
        RequestBodySchemaView::Ref { schema_name: schema_name@ }),
        body.schema matches RequestBodySchema::MultipartFile { field_name } ==> body@.schema == (
        RequestBodySchemaView::MultipartFile { field_name: field_name@ }),
        body.schema is Binary ==> body@.schema is Binary,
        body.schema is InlineObject ==> body@.schema is InlineObject,
{
}

/// A response says all that it holds.
pub proof fn law_response_says_all(response: ResponseSpec)
    ensures
        response@.status == response.status,
        response@.content_type == response.content_type@,
        response@.description == response.description@,
        response.schema_name matches Some(name) ==> response@.schema_name == Some(name@),
        response.schema_name is None ==> response@.schema_name is None,
{
}

/// A requirement says all that it holds: the resource and every action, in order.
pub proof fn law_operation_requirement_says_all(requirement: OperationSecRequirement)
    ensures
        requirement@.resource == requirement.resource@,
        requirement@.actions.len() == requirement.actions@.len(),
        forall|a: int|
            0 <= a < requirement.actions@.len() ==> #[trigger] requirement@.actions[a]
                == requirement.actions@[a]@,
{
}

/// An operation says all that it holds: its route, its documentation, every tag, parameter and
/// response in order, who may call it, its limits and the accepted content types.
pub proof fn law_operation_says_all(spec: OperationSpec)
    ensures
        spec@.method == spec.method@,
        spec@.path == spec.path@,
        spec@.handler_id == spec.handler_id@,
        spec@.is_public == spec.is_public,
        spec@.rate_limit == spec.rate_limit,
        spec.operation_id matches Some(text) ==> spec@.operation_id == Some(text@),
        spec.operation_id is None ==> spec@.operation_id is None,
        spec.summary matches Some(text) ==> spec@.summary == Some(text@),
        spec.summary is None ==> spec@.summary is None,
        spec.description matches Some(text) ==> spec@.description == Some(text@),
        spec.description is None ==> spec@.description is None,
        spec@.tags.len() == spec.tags@.len(),
        forall|i: int| 0 <= i < spec.tags@.len() ==> #[trigger] spec@.tags[i] == spec.tags@[i]@,
        spec@.params.len() == spec.params@.len(),
        forall|i: int|
            0 <= i < spec.params@.len() ==> #[trigger] spec@.params[i] == spec.params@[i]@,
        spec.request_body matches Some(body) ==> spec@.request_body == Some(body@),
        spec.request_body is None ==> spec@.request_body is None,
        spec@.responses.len() == spec.responses@.len(),
        forall|i: int|
            0 <= i < spec.responses@.len() ==> #[trigger] spec@.responses[i] == spec.responses@[i]@,
        spec.sec_requirement matches Some(requirement) ==> spec@.sec_requirement == Some(
            requirement@,
        ),
        spec.sec_requirement is None ==> spec@.sec_requirement is None,
        spec.allowed_request_content_types is None
            ==> spec@.allowed_request_content_types is None,
        spec.allowed_request_content_types matches Some(types) ==> {
            &&& spec@.allowed_request_content_types is Some
            &&& spec@.allowed_request_content_types->0.len() == types@.len()
            &&& forall|i: int|
                0 <= i < types@.len() ==> #[trigger] spec@.allowed_request_content_types->0[i]
                    == types@[i]@
        },
{
}

/// A copy of an operation says what the operation says.
pub proof fn law_copied_operation_says_the_same(spec: &OperationSpec, copy: OperationSpec)
    requires
        call_ensures(<OperationSpec as Clone>::clone, (spec,), copy),
    ensures
        copy@ == spec@,
{
}

/// Two body schemas are the same if and only if they are of the same kind and name the same.
pub proof fn law_same_body_schema(
    schema: &RequestBodySchema,
    other: &RequestBodySchema,
    same: bool,
)
    requires
        call_ensures(<RequestBodySchema as PartialEq>::eq, (schema, other), same),
    ensures
        same <==> match (*schema, *other) {
            (
                RequestBodySchema::Ref { schema_name: a },
                RequestBodySchema::Ref { schema_name: b },
            ) => a@ == b@,
            (
                RequestBodySchema::MultipartFile { field_name: a },
                RequestBodySchema::MultipartFile { field_name: b },
            ) => a@ == b@,
            (RequestBodySchema::Binary, RequestBodySchema::Binary) => true,
            (RequestBodySchema::InlineObject, RequestBodySchema::InlineObject) => true,
            _ => false,
        },
{
}

} // verus!
