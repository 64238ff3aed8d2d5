//! What the request handlers decide.

pub mod oauth2;

use vstd::prelude::*;

verus! {

/// Why a request was turned away.
#[derive(Debug, Clone, Copy, PartialEq, Eq, Structural)]
pub enum RequestError {
    BearerTokenMissing,
    AppNotFound,
    AuthorizationError,
}

} // verus!
