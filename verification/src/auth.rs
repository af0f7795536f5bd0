pub mod authorizer;
pub mod config;
pub mod ingress;
pub mod method_map;
pub mod routing;
pub mod setup;
pub mod types;
