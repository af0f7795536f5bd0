pub mod api;
pub mod auth;
pub mod protocol;
pub mod text;
pub mod wiring;
