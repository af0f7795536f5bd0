//! What the builder promises of the operations that are built with it.

use axum::routing::MethodRouter;
use vstd::prelude::*;

use crate::api::openapi_registry::{
    is_component, is_error_component, OpenApiRegistry, TypeSchema,
};
use crate::api::operation_builder::state::{
    AuthNotSet, AuthSet, AuthState, HandlerSlot, Missing, Present, ResponseState,
};
use crate::api::operation_builder::{
    is_name_of, standard_error_responses, OperationBuilder, OperationBuilderODataExt, RbacAction,
    RbacResource,
};
use crate::api::operation_spec::{
    OperationSpec, OperationSpecView, ParamLocation, ParamSpec, RateLimitSpec,
    RequestBodySchemaView, RequestBodySpecView, ResponseSpec, ResponseSpecView,
};
use crate::api::path::normalize_to_axum_path;
use crate::api::problem::PROBLEM_SCHEMA;
use crate::protocol::{Method, Routing, StatusCode};

verus! {

/// A new operation has the method and the path that it was given. Nothing else is known of it:
/// it is undocumented, declares no response, and it is not decided who may call it.
pub proof fn law_new_operation_is_bare<S>(
    method: Method,
    path: &str,
    builder: OperationBuilder<Missing, Missing, S, AuthNotSet>,
)
    requires
        call_ensures(
            OperationBuilder::<Missing, Missing, S, AuthNotSet>::new,
            (method, path),
            builder,
        ),
    ensures
        builder@.method == method@,
        builder@.path == path@,
        builder@.operation_id is None,
        builder@.summary is None,
        builder@.description is None,
        builder@.tags.len() == 0,
        builder@.params.len() == 0,
        builder@.request_body is None,
        builder@.responses.len() == 0,
        builder@.sec_requirement is None,
        !builder@.is_public,
        builder@.rate_limit is None,
        builder@.allowed_request_content_types is None,
{
}

/// The id of the handler of a new operation is the method's name in lower case, a colon, and the
/// path with an underscore for every slash and every brace, all else as it is.
pub proof fn law_handler_id_spells_the_route<S>(
    method: Method,
    name: String,
    path: &str,
    builder: OperationBuilder<Missing, Missing, S, AuthNotSet>,
)
    requires
        call_ensures(
            OperationBuilder::<Missing, Missing, S, AuthNotSet>::new,
            (method, path),
            builder,
        ),
        call_ensures(Method::lowercase_name, (&method,), name),
    ensures
        builder@.handler_id.len() == name@.len() + 1 + path@.len(),
        builder@.handler_id.take(name@.len() as int) == name@,
        builder@.handler_id[name@.len() as int] == ':',
        forall|i: int|
            0 <= i < path@.len() ==> builder@.handler_id[name@.len() + 1 + i] == (
            if #[trigger] path@[i] == '/' || path@[i] == '{' || path@[i] == '}' {
                '_'
            } else {
                path@[i]
            }),
{
    assert(builder@.handler_id.take(name@.len() as int) =~= name@);
}

/// The convenience constructors make just what [`OperationBuilder::new`] makes of the method that
/// they are named after and of the path in the router's syntax.
pub proof fn law_constructors_make_new_operations<S>(
    path: &str,
    normalized: String,
    router_path: &str,
    get: OperationBuilder<Missing, Missing, S, AuthNotSet>,
    new_get: OperationBuilder<Missing, Missing, S, AuthNotSet>,
    post: OperationBuilder<Missing, Missing, S, AuthNotSet>,
    new_post: OperationBuilder<Missing, Missing, S, AuthNotSet>,
    put: OperationBuilder<Missing, Missing, S, AuthNotSet>,
    new_put: OperationBuilder<Missing, Missing, S, AuthNotSet>,
    delete: OperationBuilder<Missing, Missing, S, AuthNotSet>,
    new_delete: OperationBuilder<Missing, Missing, S, AuthNotSet>,
    patch: OperationBuilder<Missing, Missing, S, AuthNotSet>,
    new_patch: OperationBuilder<Missing, Missing, S, AuthNotSet>,
)
    requires
        call_ensures(normalize_to_axum_path, (path,), normalized),
        router_path@ == normalized@,
        call_ensures(OperationBuilder::<Missing, Missing, S, AuthNotSet>::get, (path,), get),
        call_ensures(
            OperationBuilder::<Missing, Missing, S, AuthNotSet>::new,
            (Method::GET, router_path),
            new_get,
        ),
        call_ensures(OperationBuilder::<Missing, Missing, S, AuthNotSet>::post, (path,), post),
        call_ensures(
            OperationBuilder::<Missing, Missing, S, AuthNotSet>::new,
            (Method::POST, router_path),
            new_post,
        ),
        call_ensures(OperationBuilder::<Missing, Missing, S, AuthNotSet>::put, (path,), put),
        call_ensures(
            OperationBuilder::<Missing, Missing, S, AuthNotSet>::new,
            (Method::PUT, router_path),
            new_put,
        ),
        call_ensures(OperationBuilder::<Missing, Missing, S, AuthNotSet>::delete, (path,), delete),
        call_ensures(
            OperationBuilder::<Missing, Missing, S, AuthNotSet>::new,
            (Method::DELETE, router_path),
            new_delete,
        ),
        call_ensures(OperationBuilder::<Missing, Missing, S, AuthNotSet>::patch, (path,), patch),
        call_ensures(
            OperationBuilder::<Missing, Missing, S, AuthNotSet>::new,
            (Method::PATCH, router_path),
            new_patch,
        ),
    ensures
        get@ == new_get@,
        post@ == new_post@,
        put@ == new_put@,
        delete@ == new_delete@,
        patch@ == new_patch@,
{
}

/// The requirement of an operation names the resource and every action, in order, as they name
/// themselves. The operation is then not public, and all else stays as it was.
pub proof fn law_required_actions_are_all_kept<
    H: HandlerSlot<S>,
    R: ResponseState,
    S,
    Resource: RbacResource,
    Action: RbacAction,
>(
    before: OperationBuilder<H, R, S, AuthNotSet>,
    resource: &Resource,
    actions: &[Action],
    after: OperationBuilder<H, R, S, AuthSet>,
    i: int,
)
    requires
        call_ensures(
            OperationBuilder::<H, R, S, AuthNotSet>::require_auth::<Resource, Action>,
            (before, resource, actions),
            after,
        ),
    ensures
        after@.sec_requirement is Some,
        exists|name: &'static str|
            name@ == after@.sec_requirement->0.resource && #[trigger] call_ensures(
                Resource::as_str,
                (resource,),
                name,
            ),
        after@.sec_requirement->0.actions.len() == actions@.len(),
        0 <= i < actions@.len() ==> exists|name: &'static str|
            name@ == after@.sec_requirement->0.actions[i] && #[trigger] call_ensures(
                Action::as_str,
                (&actions@[i],),
                name,
            ),
        !after@.is_public,
        after@ == (OperationSpecView {
            sec_requirement: after@.sec_requirement,
            is_public: after@.is_public,
            ..before@
        }),
        after.slot() == before.slot(),
{
    if 0 <= i < actions@.len() {
        assert(is_name_of(&actions@[i], after@.sec_requirement->0.actions[i]));
    }
}

/// A public operation has no requirement, and all else stays as it was.
pub proof fn law_public_operation_requires_nothing<H: HandlerSlot<S>, R: ResponseState, S>(
    before: OperationBuilder<H, R, S, AuthNotSet>,
    after: OperationBuilder<H, R, S, AuthSet>,
)
    requires
        call_ensures(OperationBuilder::<H, R, S, AuthNotSet>::public, (before,), after),
    ensures
        after@.is_public,
        after@.sec_requirement is None,
        after@ == (OperationSpecView {
            sec_requirement: after@.sec_requirement,
            is_public: after@.is_public,
            ..before@
        }),
        after.slot() == before.slot(),
{
}

/// The documentation of an operation is kept: what is set later takes nothing away from what was
/// set before, and changes nothing else.
pub proof fn law_documentation_is_kept<H: HandlerSlot<S>, R: ResponseState, S, A: AuthState>(
    before: OperationBuilder<H, R, S, A>,
    id: &str,
    summary: &str,
    description: &str,
    identified: OperationBuilder<H, R, S, A>,
    summarized: OperationBuilder<H, R, S, A>,
    described: OperationBuilder<H, R, S, A>,
)
    requires
        call_ensures(OperationBuilder::<H, R, S, A>::operation_id, (before, id), identified),
        call_ensures(OperationBuilder::<H, R, S, A>::summary, (identified, summary), summarized),
        call_ensures(
            OperationBuilder::<H, R, S, A>::description,
            (summarized, description),
            described,
        ),
    ensures
        described@.operation_id == Some(id@),
        described@.summary == Some(summary@),
        described@.description == Some(description@),
        described@ == (OperationSpecView {
            operation_id: described@.operation_id,
            summary: described@.summary,
            description: described@.description,
            ..before@
        }),
        described.slot() == before.slot(),
{
}

/// A further tag stands behind the others, and changes nothing else.
pub proof fn law_tags_add_up<H: HandlerSlot<S>, R: ResponseState, S, A: AuthState>(
    before: OperationBuilder<H, R, S, A>,
    tag: &str,
    after: OperationBuilder<H, R, S, A>,
)
    requires
        call_ensures(OperationBuilder::<H, R, S, A>::tag, (before, tag), after),
    ensures
        after@.tags.len() == before@.tags.len() + 1,
        forall|i: int| 0 <= i < before@.tags.len() ==> #[trigger] after@.tags[i] == before@.tags[i],
        after@.tags.last() == tag@,
        after@ == (OperationSpecView { tags: after@.tags, ..before@ }),
        after.slot() == before.slot(),
{
}

/// A further parameter stands behind the others as it is, and changes nothing else.
pub proof fn law_parameters_add_up<H: HandlerSlot<S>, R: ResponseState, S, A: AuthState>(
    before: OperationBuilder<H, R, S, A>,
    param: ParamSpec,
    after: OperationBuilder<H, R, S, A>,
)
    requires
        call_ensures(OperationBuilder::<H, R, S, A>::param, (before, param), after),
    ensures
        after@.params.len() == before@.params.len() + 1,
        forall|i: int|
            0 <= i < before@.params.len() ==> #[trigger] after@.params[i] == before@.params[i],
        after@.params.last().name == param.name@,
        after@.params.last().location == param.location,
        after@.params.last().required == param.required,
        after@.params.last().param_type == param.param_type@,
        param.description matches Some(text) ==> after@.params.last().description == Some(text@),
        param.description is None ==> after@.params.last().description is None,
        after@ == (OperationSpecView { params: after@.params, ..before@ }),
        after.slot() == before.slot(),
{
}

/// A path parameter is required. A query parameter is as required as is said. Both are strings,
/// unless another type is given.
pub proof fn law_parameters_are_of_their_kind<
    H: HandlerSlot<S>,
    R: ResponseState,
    S,
    A: AuthState,
>(
    before: OperationBuilder<H, R, S, A>,
    name: &str,
    required: bool,
    description: &str,
    param_type: &str,
    path: OperationBuilder<H, R, S, A>,
    query: OperationBuilder<H, R, S, A>,
    typed: OperationBuilder<H, R, S, A>,
)
    requires
        call_ensures(
            OperationBuilder::<H, R, S, A>::path_param,
            (before, name, description),
            path,
        ),
        call_ensures(
            OperationBuilder::<H, R, S, A>::query_param,
            (before, name, required, description),
            query,
        ),
        call_ensures(
            OperationBuilder::<H, R, S, A>::query_param_typed,
            (before, name, required, description, param_type),
            typed,
        ),
    ensures
        path@.params.len() == before@.params.len() + 1,
        query@.params.len() == before@.params.len() + 1,
        typed@.params.len() == before@.params.len() + 1,
        path@.params.drop_last() == before@.params,
        query@.params.drop_last() == before@.params,
        typed@.params.drop_last() == before@.params,
        path@.params.last().location is Path && path@.params.last().required,
        query@.params.last().location is Query && query@.params.last().required == required,
        typed@.params.last().location is Query && typed@.params.last().required == required,
        path@.params.last().name == name@ && path@.params.last().description == Some(description@),
        query@.params.last().name == name@ && query@.params.last().description == Some(
            description@,
        ),
        typed@.params.last().name == name@ && typed@.params.last().description == Some(
            description@,
        ),
        path@.params.last().param_type == "string"@,
        query@.params.last().param_type == "string"@,
        typed@.params.last().param_type == param_type@,
        path@ == (OperationSpecView { params: path@.params, ..before@ }),
        query@ == (OperationSpecView { params: query@.params, ..before@ }),
        typed@ == (OperationSpecView { params: typed@.params, ..before@ }),
{
}

/// The filter option is an optional query parameter: a string, described as is said.
pub proof fn law_filter_is_an_optional_query_parameter<
    H: HandlerSlot<S>,
    R: ResponseState,
    S,
    A: AuthState,
>(
    before: OperationBuilder<H, R, S, A>,
    description: &str,
    filtered: OperationBuilder<H, R, S, A>,
    documented: OperationBuilder<H, R, S, A>,
)
    requires
        call_ensures(
            <OperationBuilder<H, R, S, A> as OperationBuilderODataExt<S, H, R>>::with_odata_filter,
            (before,),
            filtered,
        ),
        call_ensures(
            <OperationBuilder<
                H,
                R,
                S,
                A,
            > as OperationBuilderODataExt<S, H, R>>::with_odata_filter_doc,
            (before, description),
            documented,
        ),
    ensures
        filtered@.params.len() == before@.params.len() + 1,
        filtered@.params.drop_last() == before@.params,
        filtered@.params.last().name == "$filter"@,
        filtered@.params.last().location is Query,
        !filtered@.params.last().required,
        filtered@.params.last().param_type == "string"@,
        filtered@.params.last().description == Some("OData v4 filter expression"@),
        filtered@ == (OperationSpecView { params: filtered@.params, ..before@ }),
        documented@.params.len() == before@.params.len() + 1,
        documented@.params.drop_last() == before@.params,
        documented@.params.last().name == "$filter"@,
        documented@.params.last().location is Query,
        !documented@.params.last().required,
        documented@.params.last().param_type == "string"@,
        documented@.params.last().description == Some(description@),
        documented@ == (OperationSpecView { params: documented@.params, ..before@ }),
{
}

/// The limits of an operation are those that were set last, and change nothing else.
pub proof fn law_limits_are_those_set_last<H: HandlerSlot<S>, R: ResponseState, S, A: AuthState>(
    builder: &mut OperationBuilder<H, R, S, A>,
    rps: u32,
    burst: u32,
    in_flight: u32,
    after: &mut OperationBuilder<H, R, S, A>,
)
    requires
        call_ensures(
            OperationBuilder::<H, R, S, A>::require_rate_limit,
            (builder, rps, burst, in_flight),
            after,
        ),
    ensures
        old(after)@.rate_limit == Some(RateLimitSpec { rps, burst, in_flight }),
        old(after)@ == (OperationSpecView {
            rate_limit: old(after)@.rate_limit,
            ..old(builder)@
        }),
        *final(builder) == *final(after),
{
}

/// A JSON request body refers to the schema that was named, and must be there unless it is made
/// optional. It is described as is said, or not at all.
pub proof fn law_json_body_refers_to_its_schema<
    H: HandlerSlot<S>,
    R: ResponseState,
    S,
    A: AuthState,
>(
    before: OperationBuilder<H, R, S, A>,
    schema_name: &str,
    description: &str,
    described: OperationBuilder<H, R, S, A>,
    bare: OperationBuilder<H, R, S, A>,
    optional: OperationBuilder<H, R, S, A>,
)
    requires
        call_ensures(
            OperationBuilder::<H, R, S, A>::json_request_schema,
            (before, schema_name, description),
            described,
        ),
        call_ensures(
            OperationBuilder::<H, R, S, A>::json_request_schema_no_desc,
            (before, schema_name),
            bare,
        ),
        call_ensures(OperationBuilder::<H, R, S, A>::request_optional, (described,), optional),
    ensures
        described@.request_body == Some(
            RequestBodySpecView {
                content_type: "application/json"@,
                description: Some(description@),
                schema: RequestBodySchemaView::Ref { schema_name: schema_name@ },
                required: true,
            },
        ),
        bare@.request_body == Some(
            RequestBodySpecView {
                content_type: "application/json"@,
                description: None,
                schema: RequestBodySchemaView::Ref { schema_name: schema_name@ },
                required: true,
            },
        ),
        optional@.request_body == Some(
            RequestBodySpecView { required: false, ..described@.request_body->0 },
        ),
        described@ == (OperationSpecView { request_body: described@.request_body, ..before@ }),
        bare@ == (OperationSpecView { request_body: bare@.request_body, ..before@ }),
        optional@ == (OperationSpecView { request_body: optional@.request_body, ..before@ }),
{
}

/// To make the body optional changes nothing where there is none.
pub proof fn law_no_body_stays_no_body<H: HandlerSlot<S>, R: ResponseState, S, A: AuthState>(
    before: OperationBuilder<H, R, S, A>,
    after: OperationBuilder<H, R, S, A>,
)
    requires
        call_ensures(OperationBuilder::<H, R, S, A>::request_optional, (before,), after),
        before@.request_body is None,
    ensures
        after@ == before@,
{
}

/// A file upload is a form with the file in the named field, and the description says so. No
/// other content type is then accepted.
pub proof fn law_upload_accepts_forms_only<H: HandlerSlot<S>, R: ResponseState, S, A: AuthState>(
    before: OperationBuilder<H, R, S, A>,
    field_name: &str,
    description: Option<&str>,
    after: OperationBuilder<H, R, S, A>,
)
    requires
        call_ensures(
            OperationBuilder::<H, R, S, A>::multipart_file_request,
            (before, field_name, description),
            after,
        ),
    ensures
        after@.request_body matches Some(body) && {
            &&& body.content_type == "multipart/form-data"@
            &&& body.schema == (RequestBodySchemaView::MultipartFile { field_name: field_name@ })
            &&& body.required
            &&& description is None ==> body.description is None
            &&& description matches Some(text) ==> body.description == Some(
                text@ + " (expects field '"@ + field_name@ + "' with file data)"@,
            )
        },
        after@.allowed_request_content_types == Some(seq!["multipart/form-data"@]),
        after@ == (OperationSpecView {
            request_body: after@.request_body,
            allowed_request_content_types: after@.allowed_request_content_types,
            ..before@
        }),
{
}

/// A raw upload is a stream of bytes, and no other content type is then accepted.
pub proof fn law_raw_upload_accepts_bytes_only<
    H: HandlerSlot<S>,
    R: ResponseState,
    S,
    A: AuthState,
>(
    before: OperationBuilder<H, R, S, A>,
    description: Option<&str>,
    after: OperationBuilder<H, R, S, A>,
)
    requires
        call_ensures(
            OperationBuilder::<H, R, S, A>::octet_stream_request,
            (before, description),
            after,
        ),
    ensures
        after@.request_body matches Some(body) && {
            &&& body.content_type == "application/octet-stream"@
            &&& body.schema is Binary
            &&& body.required
            &&& description is None ==> body.description is None
            &&& description matches Some(text) ==> body.description == Some(text@)
        },
        after@.allowed_request_content_types == Some(seq!["application/octet-stream"@]),
        after@ == (OperationSpecView {
            request_body: after@.request_body,
            allowed_request_content_types: after@.allowed_request_content_types,
            ..before@
        }),
{
}

/// The content types that are accepted are all that were listed, in order, and the body stays
/// as it was.
pub proof fn law_listed_content_types_are_accepted<
    H: HandlerSlot<S>,
    R: ResponseState,
    S,
    A: AuthState,
>(
    before: OperationBuilder<H, R, S, A>,
    types: &[&'static str],
    after: OperationBuilder<H, R, S, A>,
)
    requires
        call_ensures(
            OperationBuilder::<H, R, S, A>::allow_content_types,
            (before, types),
            after,
        ),
    ensures
        after@.allowed_request_content_types matches Some(accepted) && {
            &&& accepted.len() == types@.len()
            &&& forall|i: int|
                0 <= i < types@.len() ==> #[trigger] accepted[i] == types@[i]@
        },
        after@ == (OperationSpecView {
            allowed_request_content_types: after@.allowed_request_content_types,
            ..before@
        }),
{
}

/// A further response stands behind the others as it is, and changes nothing else.
pub proof fn law_responses_add_up<H: HandlerSlot<S>, R: ResponseState, S, A: AuthState>(
    before: OperationBuilder<H, R, S, A>,
    response: ResponseSpec,
    after: OperationBuilder<H, Present, S, A>,
)
    requires
        call_ensures(OperationBuilder::<H, R, S, A>::with_response, (before, response), after),
    ensures
        after@.responses.len() == before@.responses.len() + 1,
        after@.responses.drop_last() == before@.responses,
        after@.responses.last().status == response.status,
        after@.responses.last().content_type == response.content_type@,
        after@.responses.last().description == response.description@,
        response.schema_name matches Some(name) ==> after@.responses.last().schema_name == Some(
            name@,
        ),
        response.schema_name is None ==> after@.responses.last().schema_name is None,
        after@ == (OperationSpecView { responses: after@.responses, ..before@ }),
        after.slot() == before.slot(),
{
}

/// JSON, text and HTML responses have the status and the description that were given and their
/// content type, whether they are the first or not.
pub proof fn law_responses_are_of_their_kind<H: HandlerSlot<S>, S, A: AuthState>(
    none: OperationBuilder<H, Missing, S, A>,
    some: OperationBuilder<H, Present, S, A>,
    status: StatusCode,
    description: &str,
    content_type: &'static str,
    json: OperationBuilder<H, Present, S, A>,
    text: OperationBuilder<H, Present, S, A>,
    html: OperationBuilder<H, Present, S, A>,
    more_json: OperationBuilder<H, Present, S, A>,
    more_text: OperationBuilder<H, Present, S, A>,
    more_html: OperationBuilder<H, Present, S, A>,
)
    requires
        call_ensures(
            OperationBuilder::<H, Missing, S, A>::json_response,
            (none, status, description),
            json,
        ),
        call_ensures(
            OperationBuilder::<H, Missing, S, A>::text_response,
            (none, status, description, content_type),
            text,
        ),
        call_ensures(
            OperationBuilder::<H, Missing, S, A>::html_response,
            (none, status, description),
            html,
        ),
        call_ensures(
            OperationBuilder::<H, Present, S, A>::json_response,
            (some, status, description),
            more_json,
        ),
        call_ensures(
            OperationBuilder::<H, Present, S, A>::text_response,
            (some, status, description, content_type),
            more_text,
        ),
        call_ensures(
            OperationBuilder::<H, Present, S, A>::html_response,
            (some, status, description),
            more_html,
        ),
    ensures
        ({
            let bare = ResponseSpecView {
                status: status@,
                content_type: content_type@,
                description: description@,
                schema_name: None,
            };
            &&& text@ == (OperationSpecView { responses: none@.responses.push(bare), ..none@ })
            &&& more_text@ == (OperationSpecView { responses: some@.responses.push(bare), ..some@ })
            &&& json@.responses == none@.responses.push(
                ResponseSpecView { content_type: "application/json"@, ..bare },
            )
            &&& more_json@.responses == some@.responses.push(
                ResponseSpecView { content_type: "application/json"@, ..bare },
            )
            &&& html@.responses == none@.responses.push(
                ResponseSpecView { content_type: "text/html"@, ..bare },
            )
            &&& more_html@.responses == some@.responses.push(
                ResponseSpecView { content_type: "text/html"@, ..bare },
            )
        }),
{
}

/// The standard errors are eight further responses, in the order of their numbers: all are
/// problems that refer to the one schema that was named.
pub proof fn law_standard_errors_are_problems<H: HandlerSlot<S>, S, A: AuthState>(
    before: OperationBuilder<H, Present, S, A>,
    schema_name: &str,
    after: OperationBuilder<H, Present, S, A>,
)
    requires
        call_ensures(
            OperationBuilder::<H, Present, S, A>::with_standard_errors,
            (before, schema_name),
            after,
        ),
    ensures
        after@.responses.len() == before@.responses.len() + 8,
        after@.responses.take(before@.responses.len() as int) == before@.responses,
        ({
            let added = after@.responses.skip(before@.responses.len() as int);
            &&& forall|i: int|
                0 <= i < 8 ==> (#[trigger] added[i]).content_type == "application/problem+json"@
                    && added[i].schema_name == Some(schema_name@)
            &&& added[0].status == 400 && added[0].description == "Bad Request"@
            &&& added[1].status == 401 && added[1].description == "Unauthorized"@
            &&& added[2].status == 403 && added[2].description == "Forbidden"@
            &&& added[3].status == 404 && added[3].description == "Not Found"@
            &&& added[4].status == 409 && added[4].description == "Conflict"@
            &&& added[5].status == 422 && added[5].description == "Unprocessable Entity"@
            &&& added[6].status == 429 && added[6].description == "Too Many Requests"@
            &&& added[7].status == 500 && added[7].description == "Internal Server Error"@
        }),
        after@ == (OperationSpecView { responses: after@.responses, ..before@ }),
        after.slot() == before.slot(),
{
    let n = before@.responses.len() as int;
    assert(after@.responses.take(n) =~= before@.responses);
}

/// The handler is routed by the method of the operation, and changes nothing else.
pub proof fn law_handler_is_routed_by_the_method<
    R: ResponseState,
    S,
    A: AuthState,
    F: FnOnce(Routing) -> MethodRouter<S>,
>(
    before: OperationBuilder<Missing, R, S, A>,
    route: F,
    after: OperationBuilder<Present, R, S, A>,
)
    requires
        call_ensures(
            OperationBuilder::<Missing, R, S, A>::handler::<F>,
            (before, route),
            after,
        ),
    ensures
        after@ == before@,
        before@.method == "GET"@ ==> call_ensures(route, (Routing::Get,), after.slot()),
        before@.method == "POST"@ ==> call_ensures(route, (Routing::Post,), after.slot()),
        before@.method == "PUT"@ ==> call_ensures(route, (Routing::Put,), after.slot()),
        before@.method == "DELETE"@ ==> call_ensures(route, (Routing::Delete,), after.slot()),
        before@.method == "PATCH"@ ==> call_ensures(route, (Routing::Patch,), after.slot()),
        before@.method != "GET"@ && before@.method != "POST"@ && before@.method != "PUT"@
            && before@.method != "DELETE"@ && before@.method != "PATCH"@ ==> call_ensures(
            route,
            (Routing::MethodNotAllowed,),
            after.slot(),
        ),
{
    reveal_strlit("GET");
    reveal_strlit("POST");
    reveal_strlit("PUT");
    reveal_strlit("DELETE");
    reveal_strlit("PATCH");
    assert("GET"@.len() == 3 && "POST"@.len() == 4 && "PUT"@.len() == 3);
    assert("DELETE"@.len() == 6 && "PATCH"@.len() == 5);
    assert("GET"@[0] != "PUT"@[0]);
}

/// An operation that is registered is made known to the registry as it is, and its handler is
/// mounted under its path. It declares a response, and it is public or has a requirement, but
/// not both.
pub proof fn law_registered_operation_is_made_known<
    S,
    Router,
    M: FnOnce(&str, MethodRouter<S>) -> Router,
    G: OpenApiRegistry + ?Sized,
>(
    builder: OperationBuilder<Present, Present, S, AuthSet>,
    mount: M,
    openapi: &G,
    router: Router,
)
    requires
        call_ensures(
            OperationBuilder::<Present, Present, S, AuthSet>::register::<Router, M, G>,
            (builder, mount, openapi),
            router,
        ),
    ensures
        exists|spec: &OperationSpec|
            spec@ == builder@ && #[trigger] call_ensures(
                G::register_operation,
                (openapi, spec),
                (),
            ),
        exists|path: &str|
            path@ == builder@.path && #[trigger] call_ensures(
                mount,
                (path, builder.slot()),
                router,
            ),
        builder@.responses.len() > 0,
        builder@.is_public <==> builder@.sec_requirement is None,
{
}

/// What can be inspected of a builder is the operation so far.
pub proof fn law_inspected_operation_is_the_one_built<
    H: HandlerSlot<S>,
    R: ResponseState,
    S,
    A: AuthState,
>(builder: &OperationBuilder<H, R, S, A>, spec: &OperationSpec)
    requires
        call_ensures(OperationBuilder::<H, R, S, A>::spec, (builder,), spec),
    ensures
        spec@ == builder@,
{
}

/// A response for an error of the client that is named by its number is one further response: a
/// problem with that number and the phrase that goes with it. It refers to the component that
/// the registry gives for the schema of problems.
pub proof fn law_client_errors_are_problems<
    H: HandlerSlot<S>,
    S,
    A: AuthState,
    G: OpenApiRegistry + ?Sized,
>(
    before: OperationBuilder<H, Present, S, A>,
    registry: &G,
    with_400: OperationBuilder<H, Present, S, A>,
    with_401: OperationBuilder<H, Present, S, A>,
    with_403: OperationBuilder<H, Present, S, A>,
    with_404: OperationBuilder<H, Present, S, A>,
    with_409: OperationBuilder<H, Present, S, A>,
)
    requires
        call_ensures(
            OperationBuilder::<H, Present, S, A>::error_400::<G>,
            (before, registry),
            with_400,
        ),
        call_ensures(
            OperationBuilder::<H, Present, S, A>::error_401::<G>,
            (before, registry),
            with_401,
        ),
        call_ensures(
            OperationBuilder::<H, Present, S, A>::error_403::<G>,
            (before, registry),
            with_403,
        ),
        call_ensures(
            OperationBuilder::<H, Present, S, A>::error_404::<G>,
            (before, registry),
            with_404,
        ),
        call_ensures(
            OperationBuilder::<H, Present, S, A>::error_409::<G>,
            (before, registry),
            with_409,
        ),
    ensures
        with_400@ == (OperationSpecView {
            responses: before@.responses.push(
                ResponseSpecView {
                    status: 400,
                    content_type: "application/problem+json"@,
                    description: "Bad Request"@,
                    schema_name: with_400@.responses.last().schema_name,
                },
            ),
            ..before@
        }),
        with_400@.responses.last().schema_name matches Some(component) && is_error_component(
            registry,
            "Problem"@,
            component,
        ),
        with_401@ == (OperationSpecView {
            responses: before@.responses.push(
                ResponseSpecView {
                    status: 401,
                    content_type: "application/problem+json"@,
                    description: "Unauthorized"@,
                    schema_name: with_401@.responses.last().schema_name,
                },
            ),
            ..before@
        }),
        with_401@.responses.last().schema_name matches Some(component) && is_error_component(
            registry,
            "Problem"@,
            component,
        ),
        with_403@ == (OperationSpecView {
            responses: before@.responses.push(
                ResponseSpecView {
                    status: 403,
                    content_type: "application/problem+json"@,
                    description: "Forbidden"@,
                    schema_name: with_403@.responses.last().schema_name,
                },
            ),
            ..before@
        }),
        with_403@.responses.last().schema_name matches Some(component) && is_error_component(
            registry,
            "Problem"@,
            component,
        ),
        with_404@ == (OperationSpecView {
            responses: before@.responses.push(
                ResponseSpecView {
                    status: 404,
                    content_type: "application/problem+json"@,
                    description: "Not Found"@,
                    schema_name: with_404@.responses.last().schema_name,
                },
            ),
            ..before@
        }),
        with_404@.responses.last().schema_name matches Some(component) && is_error_component(
            registry,
            "Problem"@,
            component,
        ),
        with_409@ == (OperationSpecView {
            responses: before@.responses.push(
                ResponseSpecView {
                    status: 409,
                    content_type: "application/problem+json"@,
                    description: "Conflict"@,
                    schema_name: with_409@.responses.last().schema_name,
                },
            ),
            ..before@
        }),
        with_409@.responses.last().schema_name matches Some(component) && is_error_component(
            registry,
            "Problem"@,
            component,
        ),
{
}

/// The same holds of the further errors that are named by their numbers.
pub proof fn law_further_errors_are_problems<
    H: HandlerSlot<S>,
    S,
    A: AuthState,
    G: OpenApiRegistry + ?Sized,
>(
    before: OperationBuilder<H, Present, S, A>,
    registry: &G,
    with_415: OperationBuilder<H, Present, S, A>,
    with_422: OperationBuilder<H, Present, S, A>,
    with_429: OperationBuilder<H, Present, S, A>,
    with_500: OperationBuilder<H, Present, S, A>,
)
    requires
        call_ensures(
            OperationBuilder::<H, Present, S, A>::error_415::<G>,
            (before, registry),
            with_415,
        ),
        call_ensures(
            OperationBuilder::<H, Present, S, A>::error_422::<G>,
            (before, registry),
            with_422,
        ),
        call_ensures(
            OperationBuilder::<H, Present, S, A>::error_429::<G>,
            (before, registry),
            with_429,
        ),
        call_ensures(
            OperationBuilder::<H, Present, S, A>::error_500::<G>,
            (before, registry),
            with_500,
        ),
    ensures
        with_415@ == (OperationSpecView {
            responses: before@.responses.push(
                ResponseSpecView {
                    status: 415,
                    content_type: "application/problem+json"@,
                    description: "Unsupported Media Type"@,
                    schema_name: with_415@.responses.last().schema_name,
                },
            ),
            ..before@
        }),
        with_415@.responses.last().schema_name matches Some(component) && is_error_component(
            registry,
            "Problem"@,
            component,
        ),
        with_422@ == (OperationSpecView {
            responses: before@.responses.push(
                ResponseSpecView {
                    status: 422,
                    content_type: "application/problem+json"@,
                    description: "Unprocessable Entity"@,
                    schema_name: with_422@.responses.last().schema_name,
                },
            ),
            ..before@
        }),
        with_422@.responses.last().schema_name matches Some(component) && is_error_component(
            registry,
            "Problem"@,
            component,
        ),
        with_429@ == (OperationSpecView {
            responses: before@.responses.push(
                ResponseSpecView {
                    status: 429,
                    content_type: "application/problem+json"@,
                    description: "Too Many Requests"@,
                    schema_name: with_429@.responses.last().schema_name,
                },
            ),
            ..before@
        }),
        with_429@.responses.last().schema_name matches Some(component) && is_error_component(
            registry,
            "Problem"@,
            component,
        ),
        with_500@ == (OperationSpecView {
            responses: before@.responses.push(
                ResponseSpecView {
                    status: 500,
                    content_type: "application/problem+json"@,
                    description: "Internal Server Error"@,
                    schema_name: with_500@.responses.last().schema_name,
                },
            ),
            ..before@
        }),
        with_500@.responses.last().schema_name matches Some(component) && is_error_component(
            registry,
            "Problem"@,
            component,
        ),
{
}

/// A validation error is a further problem that refers to the component for validation errors.
pub proof fn law_validation_error_is_a_problem<
    H: HandlerSlot<S>,
    S,
    A: AuthState,
    G: OpenApiRegistry + ?Sized,
>(
    before: OperationBuilder<H, Present, S, A>,
    registry: &G,
    after: OperationBuilder<H, Present, S, A>,
)
    requires
        call_ensures(
            OperationBuilder::<H, Present, S, A>::with_422_validation_error::<G>,
            (before, registry),
            after,
        ),
    ensures
        after@ == (OperationSpecView {
            responses: before@.responses.push(
                ResponseSpecView {
                    status: 422,
                    content_type: "application/problem+json"@,
                    description: "Validation Error"@,
                    schema_name: after@.responses.last().schema_name,
                },
            ),
            ..before@
        }),
        after@.responses.last().schema_name matches Some(component) && is_error_component(
            registry,
            "ValidationErrorResponse"@,
            component,
        ),
{
}

/// The standard errors with the schema of problems registered are those that refer to it by its
/// name.
pub proof fn law_standard_errors_refer_to_the_problem_schema<
    H: HandlerSlot<S>,
    S,
    A: AuthState,
    G: OpenApiRegistry + ?Sized,
>(
    before: OperationBuilder<H, Present, S, A>,
    registry: &G,
    after: OperationBuilder<H, Present, S, A>,
    schema_name: &str,
    named: OperationBuilder<H, Present, S, A>,
)
    requires
        call_ensures(
            OperationBuilder::<H, Present, S, A>::standard_errors::<G>,
            (before, registry),
            after,
        ),
        call_ensures(
            OperationBuilder::<H, Present, S, A>::with_standard_errors,
            (before, schema_name),
            named,
        ),
    ensures
        after@.responses.len() == named@.responses.len(),
        after@.responses.last().schema_name matches Some(component) && is_error_component(
            registry,
            "Problem"@,
            component,
        ) && (component == schema_name@ ==> after@ == named@),
{
    let component = choose|component: Seq<char>| #[trigger]
        is_error_component(registry, PROBLEM_SCHEMA@, component) && after@ == (OperationSpecView {
            responses: before@.responses + standard_error_responses(component),
            ..before@
        });
    let added = standard_error_responses(component);
    assert(added.len() == 8 && added[7].schema_name == Some(component));
    assert(after@.responses.last() == added[7]);
}

/// A first response with a schema refers to the component that the registry gives for the type:
/// JSON, a stream of events, or a problem.
pub proof fn law_first_response_refers_to_its_schema<
    H: HandlerSlot<S>,
    S,
    A: AuthState,
    G: OpenApiRegistry + ?Sized,
>(
    before: OperationBuilder<H, Missing, S, A>,
    registry: &G,
    schema: TypeSchema<G::Schema>,
    status: StatusCode,
    description: &str,
    json: OperationBuilder<H, Present, S, A>,
    events: OperationBuilder<H, Present, S, A>,
    problem: OperationBuilder<H, Present, S, A>,
)
    requires
        call_ensures(
            OperationBuilder::<H, Missing, S, A>::json_response_with_schema::<G>,
            (before, registry, schema, status, description),
            json,
        ),
        call_ensures(
            OperationBuilder::<H, Missing, S, A>::sse_json::<G>,
            (before, registry, schema, description),
            events,
        ),
        call_ensures(
            OperationBuilder::<H, Missing, S, A>::problem_response::<G>,
            (before, registry, status, description),
            problem,
        ),
    ensures
        json@ == (OperationSpecView {
            responses: before@.responses.push(
                ResponseSpecView {
                    status: status@,
                    content_type: "application/json"@,
                    description: description@,
                    schema_name: json@.responses.last().schema_name,
                },
            ),
            ..before@
        }),
        json@.responses.last().schema_name matches Some(component) && is_component(
            registry,
            schema.name@,
            schema.schemas@,
            component,
        ),
        events@ == (OperationSpecView {
            responses: before@.responses.push(
                ResponseSpecView {
                    status: 200,
                    content_type: "text/event-stream"@,
                    description: description@,
                    schema_name: events@.responses.last().schema_name,
                },
            ),
            ..before@
        }),
        events@.responses.last().schema_name matches Some(component) && is_component(
            registry,
            schema.name@,
            schema.schemas@,
            component,
        ),
        problem@ == (OperationSpecView {
            responses: before@.responses.push(
                ResponseSpecView {
                    status: status@,
                    content_type: "application/problem+json"@,
                    description: description@,
                    schema_name: problem@.responses.last().schema_name,
                },
            ),
            ..before@
        }),
        problem@.responses.last().schema_name matches Some(component) && is_error_component(
            registry,
            "Problem"@,
            component,
        ),
{
}

/// A further response with a schema refers to the component that the registry gives for the type:
/// JSON, a stream of events, or a problem.
pub proof fn law_further_response_refers_to_its_schema<
    H: HandlerSlot<S>,
    S,
    A: AuthState,
    G: OpenApiRegistry + ?Sized,
>(
    before: OperationBuilder<H, Present, S, A>,
    registry: &G,
    schema: TypeSchema<G::Schema>,
    status: StatusCode,
    description: &str,
    json: OperationBuilder<H, Present, S, A>,
    events: OperationBuilder<H, Present, S, A>,
    problem: OperationBuilder<H, Present, S, A>,
)
    requires
        call_ensures(
            OperationBuilder::<H, Present, S, A>::json_response_with_schema::<G>,
            (before, registry, schema, status, description),
            json,
        ),
        call_ensures(
            OperationBuilder::<H, Present, S, A>::sse_json::<G>,
            (before, registry, schema, description),
            events,
        ),
        call_ensures(
            OperationBuilder::<H, Present, S, A>::problem_response::<G>,
            (before, registry, status, description),
            problem,
        ),
    ensures
        json@ == (OperationSpecView {
            responses: before@.responses.push(
                ResponseSpecView {
                    status: status@,
                    content_type: "application/json"@,
                    description: description@,
                    schema_name: json@.responses.last().schema_name,
                },
            ),
            ..before@
        }),
        json@.responses.last().schema_name matches Some(component) && is_component(
            registry,
            schema.name@,
            schema.schemas@,
            component,
        ),
        events@ == (OperationSpecView {
            responses: before@.responses.push(
                ResponseSpecView {
                    status: 200,
                    content_type: "text/event-stream"@,
                    description: description@,
                    schema_name: events@.responses.last().schema_name,
                },
            ),
            ..before@
        }),
        events@.responses.last().schema_name matches Some(component) && is_component(
            registry,
            schema.name@,
            schema.schemas@,
            component,
        ),
        problem@ == (OperationSpecView {
            responses: before@.responses.push(
                ResponseSpecView {
                    status: status@,
                    content_type: "application/problem+json"@,
                    description: description@,
                    schema_name: problem@.responses.last().schema_name,
                },
            ),
            ..before@
        }),
        problem@.responses.last().schema_name matches Some(component) && is_error_component(
            registry,
            "Problem"@,
            component,
        ),
{
}

/// A JSON request body with its schema registered is one that refers to the component that the
/// registry gives for the type.
pub proof fn law_registered_json_body_refers_to_its_schema<
    H: HandlerSlot<S>,
    R: ResponseState,
    S,
    A: AuthState,
    G: OpenApiRegistry + ?Sized,
>(
    before: OperationBuilder<H, R, S, A>,
    registry: &G,
    schema: TypeSchema<G::Schema>,
    description: &str,
    described: OperationBuilder<H, R, S, A>,
    bare: OperationBuilder<H, R, S, A>,
)
    requires
        call_ensures(
            OperationBuilder::<H, R, S, A>::json_request::<G>,
            (before, registry, schema, description),
            described,
        ),
        call_ensures(
            OperationBuilder::<H, R, S, A>::json_request_no_desc::<G>,
            (before, registry, schema),
            bare,
        ),
    ensures
        described@.request_body matches Some(body) && {
            &&& body.content_type == "application/json"@
            &&& body.description == Some(description@)
            &&& body.required
            &&& body.schema matches RequestBodySchemaView::Ref { schema_name } && is_component(
                registry,
                schema.name@,
                schema.schemas@,
                schema_name,
            )
        },
        bare@.request_body matches Some(body) && {
            &&& body.content_type == "application/json"@
            &&& body.description is None
            &&& body.required
            &&& body.schema matches RequestBodySchemaView::Ref { schema_name } && is_component(
                registry,
                schema.name@,
                schema.schemas@,
                schema_name,
            )
        },
        described@ == (OperationSpecView { request_body: described@.request_body, ..before@ }),
        bare@ == (OperationSpecView { request_body: bare@.request_body, ..before@ }),
{
}

/// The stages mean what they say: once a response is declared there is one, once it is decided
/// who may call the operation it is public or has a requirement, but not both, and before that
/// neither is so.
pub proof fn law_stages_mean_what_they_say<
    H: HandlerSlot<S>,
    R: ResponseState,
    S,
    A: AuthState,
>(
    answered: &OperationBuilder<H, Present, S, A>,
    answered_spec: &OperationSpec,
    decided: &OperationBuilder<H, R, S, AuthSet>,
    decided_spec: &OperationSpec,
    open: &OperationBuilder<H, R, S, AuthNotSet>,
    open_spec: &OperationSpec,
)
    requires
        call_ensures(OperationBuilder::<H, Present, S, A>::spec, (answered,), answered_spec),
        call_ensures(OperationBuilder::<H, R, S, AuthSet>::spec, (decided,), decided_spec),
        call_ensures(OperationBuilder::<H, R, S, AuthNotSet>::spec, (open,), open_spec),
    ensures
        answered_spec.responses@.len() > 0,
        decided_spec.is_public <==> decided_spec.sec_requirement is None,
        !open_spec.is_public && open_spec.sec_requirement is None,
{
    assert(answered_spec@.responses.len() == answered_spec.responses@.len());
}

} // verus!
