pub mod openapi_registry;
pub mod operation_builder;
pub mod operation_spec;
pub mod path;
pub mod problem;
