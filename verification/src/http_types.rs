//! The error value the HTTP boundary serves for malformed client input.

use vstd::prelude::*;

verus! {

/// A client-visible error: a message served with a client-error status.
#[derive(Debug)]
pub struct ApiError {
    pub message: String,
}

impl ApiError {
    /// The HTTP status such an error is served with: bad request.
    pub fn status_code(&self) -> (c: u16)
        ensures
            c == 400,
    {
        400
    }
}

} // verus!
