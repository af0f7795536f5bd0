//! The registry that API documents are generated from.

use vstd::prelude::*;

use crate::api::operation_spec::{OperationSpec, OperationSpecView};

verus! {

/// Where operations and the schemas that they refer to are registered.
pub trait OpenApiRegistry {
    /// The schema of a component.
    type Schema;

    /// Register an operation.
    fn register_operation(&self, spec: &OperationSpec);

    /// Register component schemas: that of a type, which has the given name, and those that it
    /// refers to. Gives the name of the type's component.
    fn ensure_schema_raw(&self, name: &str, schemas: Vec<(String, Self::Schema)>) -> String;

    /// The component schemas of one of the types that error responses refer to, given by its
    /// name: its own and those that it refers to.
    fn error_schemas(&self, name: &str) -> Vec<(String, Self::Schema)>;
}

/// A type that requests or responses hold, by the name of its schema, with the component
/// schemas that belong to it: its own and those that it refers to.
pub struct TypeSchema<C> {
    pub name: String,
    pub schemas: Vec<(String, C)>,
}

/// The text is what the registry gives for a type of this name with these component schemas.
pub open spec fn is_component<G: OpenApiRegistry + ?Sized>(
    registry: &G,
    name: Seq<char>,
    schemas: Seq<(String, G::Schema)>,
    component: Seq<char>,
) -> bool {
    exists|raw: &str, list: Vec<(String, G::Schema)>, registered: String|
        raw@ == name && list@ == schemas && registered@ == component && #[trigger] call_ensures(
            G::ensure_schema_raw,
            (registry, raw, list),
            registered,
        )
}

/// The component schemas are those that the registry has for an error type of this name.
pub open spec fn are_error_schemas<G: OpenApiRegistry + ?Sized>(
    registry: &G,
    name: Seq<char>,
    schemas: Seq<(String, G::Schema)>,
) -> bool {
    exists|raw: &str, list: Vec<(String, G::Schema)>|
        raw@ == name && list@ == schemas && #[trigger] call_ensures(
            G::error_schemas,
            (registry, raw),
            list,
        )
}

/// The text is what the registry gives for an error type of this name with its schemas.
pub open spec fn is_error_component<G: OpenApiRegistry + ?Sized>(
    registry: &G,
    name: Seq<char>,
    component: Seq<char>,
) -> bool {
    exists|schemas: Seq<(String, G::Schema)>| #[trigger]
        are_error_schemas(registry, name, schemas) && is_component(
            registry,
            name,
            schemas,
            component,
        )
}

/// The registry has been told of the operation.
pub open spec fn is_told<G: OpenApiRegistry + ?Sized>(
    registry: &G,
    operation: OperationSpecView,
) -> bool {
    exists|spec: &OperationSpec|
        spec@ == operation && #[trigger] call_ensures(
            G::register_operation,
            (registry, spec),
            (),
        )
}

/// Register the component schemas of a type, and give the name of its component.
pub fn ensure_schema<G: OpenApiRegistry + ?Sized>(
    registry: &G,
    schema: TypeSchema<G::Schema>,
) -> (registered: String)
    ensures
        is_component(registry, schema.name@, schema.schemas@, registered@),
{
    registry.ensure_schema_raw(schema.name.as_str(), schema.schemas)
}

/// Register the component schemas of an error type, and give the name of its component.
pub fn ensure_error_schema<G: OpenApiRegistry + ?Sized>(registry: &G, name: &str) -> (registered:
    String)
    ensures
        is_error_component(registry, name@, registered@),
{
    let schemas = registry.error_schemas(name);
    let ghost list = schemas@;
    assert(are_error_schemas(registry, name@, list));
    registry.ensure_schema_raw(name, schemas)
}

/// The registry is handed the name of the type and all its component schemas as they are, and
/// the name that it gives for the component is the one that is given back.
pub proof fn law_registry_gets_the_whole_schema<G: OpenApiRegistry + ?Sized>(
    registry: &G,
    schema: TypeSchema<G::Schema>,
    registered: String,
)
    requires
        call_ensures(ensure_schema::<G>, (registry, schema), registered),
    ensures
        exists|name: &str, schemas: Vec<(String, G::Schema)>, component: String|
            name@ == schema.name@ && schemas@ == schema.schemas@ && component@ == registered@
                && #[trigger] call_ensures(
                G::ensure_schema_raw,
                (registry, name, schemas),
                component,
            ),
{
}

/// For an error type the registry is asked for the component schemas under the type's name, and
/// handed back just those under that name; the name that it gives for the component is the one
/// that is given back.
pub proof fn law_registry_gets_its_error_schemas<G: OpenApiRegistry + ?Sized>(
    registry: &G,
    name: &str,
    registered: String,
)
    requires
        call_ensures(ensure_error_schema::<G>, (registry, name), registered),
    ensures
        exists|
            asked: &str,
            schemas: Vec<(String, G::Schema)>,
            told: &str,
            handed: Vec<(String, G::Schema)>,
            component: String,
        |
            {
                &&& #[trigger] call_ensures(G::error_schemas, (registry, asked), schemas)
                &&& #[trigger] call_ensures(
                    G::ensure_schema_raw,
                    (registry, told, handed),
                    component,
                )
                &&& asked@ == name@ && told@ == name@
                &&& handed@ == schemas@
                &&& component@ == registered@
            },
{
    let schemas = choose|schemas: Seq<(String, G::Schema)>| #[trigger]
        are_error_schemas(registry, name@, schemas) && is_component(
            registry,
            name@,
            schemas,
            registered@,
        );
    let (asked, list) = choose|asked: &str, list: Vec<(String, G::Schema)>|
        asked@ == name@ && list@ == schemas && #[trigger] call_ensures(
            G::error_schemas,
            (registry, asked),
            list,
        );
    let (told, handed, component) = choose|
        told: &str,
        handed: Vec<(String, G::Schema)>,
        component: String,
    |
        told@ == name@ && handed@ == schemas && component@ == registered@
            && #[trigger] call_ensures(G::ensure_schema_raw, (registry, told, handed), component);
    assert(call_ensures(G::error_schemas, (registry, asked), list));
    assert(call_ensures(G::ensure_schema_raw, (registry, told, handed), component));
}

} // verus!
