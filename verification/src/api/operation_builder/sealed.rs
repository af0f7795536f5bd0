//! Traits that no type outside of this crate can implement.

use vstd::prelude::*;

verus! {

/// Marks the stages of the handler and of the responses.
pub trait Sealed {

}

/// Marks the stages of the authentication requirement.
pub trait SealedAuth {

}

} // verus!
