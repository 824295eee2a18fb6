//! The flat error taxonomy and its mapping to a transport response.
//!
//! Every failure of the handling sequence — pool acquisition, schema
//! initialization, the row write, the read-back — is collapsed into one
//! opaque internal-server response; only success carries a body.

use vstd::prelude::*;

verus! {

/// Which step of the handling sequence failed.  The variants carry no
/// detail: the response mapping treats them all alike.
#[derive(Clone, Copy, PartialEq, Eq, Structural, Debug)]
pub enum HandlerError {
    /// Acquiring a connection from the pool failed (exhaustion, engine
    /// unreachable).
    Pool,
    /// The idempotent schema initialization failed.
    Schema,
    /// Persisting the row failed (constraint violation, I/O).
    Write,
    /// Reading the name back under the fresh identifier failed.
    Read,
}

/// The transport-level outcome of one request: a status code and, on
/// success only, the stored name as the body.
pub struct Response {
    pub status: u16,
    pub body: Option<String>,
}

impl Response {
    /// A success response: status 200, body equal to the stored name.
    pub open spec fn is_ok_with(self, name: Seq<char>) -> bool {
        &&& self.status == 200
        &&& self.body is Some
        &&& self.body->0@ == name
    }

    /// The opaque failure response: status 500, empty body, no leaked
    /// detail.
    pub open spec fn is_internal_error(self) -> bool {
        &&& self.status == 500
        &&& self.body is None
    }
}

/// Maps the outcome of the handling sequence to the transport response:
/// a retrieved name becomes 200 with that name as the body; every error
/// variant becomes the same opaque 500 with an empty body.
pub fn respond(outcome: Result<String, HandlerError>) -> (resp: Response)
    ensures
        outcome matches Ok(name) ==> resp.is_ok_with(name@),
        outcome is Err ==> resp.is_internal_error(),
{
    match outcome {
        Ok(name) => Response { status: 200, body: Some(name) },
        Err(_) => Response { status: 500, body: None },
    }
}

} // verus!
