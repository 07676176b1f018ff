use vstd::prelude::*;

verus! {

/// Failures that a token request can surface to the caller.
///
/// The two variants keep "service unreachable" and "service responded
/// unexpectedly" distinct, so that callers can choose different recovery
/// policies for each. No failure is swallowed: every error path of the flow
/// returns one of these.
#[derive(Debug)]
pub enum Error {
    /// The HTTP exchange could not complete, or the service answered with a
    /// non-success status. Carries the status when one was received, and a
    /// message describing the fault.
    TransportError(Option<u16>, String),
    /// The response body could not be parsed into the expected token shape.
    MalformedResponseError,
}

impl Error {
    /// True when the error reports a transport-level fault with the given status.
    pub open spec fn is_status_fault(&self, status: u16) -> bool {
        match *self {
            Error::TransportError(st, _) => st == Some(status),
            Error::MalformedResponseError => false,
        }
    }
}

} // verus!
