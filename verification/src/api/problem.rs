//! Error responses (RFC 9457): their media type and the names of their schemas.

use vstd::prelude::*;

verus! {

/// The media type of a problem.
pub const APPLICATION_PROBLEM_JSON: &'static str = "application/problem+json";

/// The name of the schema of a problem.
pub const PROBLEM_SCHEMA: &'static str = "Problem";

/// The name of the schema of a problem that lists what is wrong with the input.
pub const VALIDATION_ERROR_SCHEMA: &'static str = "ValidationErrorResponse";

} // verus!
