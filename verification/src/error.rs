//! The ways a call to the service can fail.

use vstd::prelude::*;

verus! {

/// A failed call.  A record that does not exist is no failure: retrieval
/// reports it as `None`.
#[derive(Debug)]
pub enum ClientError {
    /// The request never reached the service, or its answer never arrived.
    Transport { cause: String },
    /// The service answered with a status outside the success range.  The
    /// body is kept as received.
    Api { status: u16, body: String },
    /// The service reported success, but its body does not have the expected
    /// shape.
    Decode { cause: String },
    /// The input was rejected before any request was made.
    Validation { message: String },
}

} // verus!
