//! Type-state markers for compile-time enforcement.

use vstd::prelude::*;

use crate::api::operation_builder::sealed::{Sealed, SealedAuth};

verus! {

/// Marker for missing required components.
#[derive(Debug, Clone, Copy)]
pub struct Missing;

/// Marker for present required components.
#[derive(Debug, Clone, Copy)]
pub struct Present;

/// Marker for auth requirement not yet set.
#[derive(Debug, Clone, Copy)]
pub struct AuthNotSet;

/// Marker for auth requirement set (either `require_auth` or public).
#[derive(Debug, Clone, Copy)]
pub struct AuthSet;

impl Sealed for Missing {

}

impl Sealed for Present {

}

impl SealedAuth for AuthNotSet {

}

impl SealedAuth for AuthSet {

}

/// A stage of the handler, with what stands in the builder for it.
/// For `Missing` there is no router; for `Present` it is a `MethodRouter<S>`.
pub trait HandlerSlot<S>: Sealed {
    type Slot;
}

impl<S> HandlerSlot<S> for Missing {
    type Slot = ();
}

impl<S> HandlerSlot<S> for Present {
    type Slot = axum::routing::MethodRouter<S>;
}

/// A stage of the responses.
pub trait ResponseState: Sealed {
    /// Whether a response has been declared.
    spec fn is_declared() -> bool;
}

impl ResponseState for Missing {
    open spec fn is_declared() -> bool {
        false
    }
}

impl ResponseState for Present {
    open spec fn is_declared() -> bool {
        true
    }
}

/// A stage of the authentication requirement.
pub trait AuthState: SealedAuth {
    /// Whether it has been decided who may call the operation.
    spec fn is_decided() -> bool;
}

impl AuthState for AuthNotSet {
    open spec fn is_decided() -> bool {
        false
    }
}

impl AuthState for AuthSet {
    open spec fn is_decided() -> bool {
        true
    }
}

} // verus!
