//! The backend seam: the one capability through which a quote call reaches
//! the provider, together with the envelope it returns.

use crate::form::Values;
use crate::records::{ForexPair, YfinError};
use vstd::prelude::*;

verus! {

/// An opaque session handle, acquired outside this crate and threaded
/// through unchanged from the request parameters to the backend for
/// authentication or tracing.
#[derive(Debug, Clone)]
pub struct Context;

/// A transport-level failure: the backend could not complete the call or
/// could not parse the provider's envelope.
#[derive(Debug, Clone)]
pub struct TransportError {
    /// What went wrong, as the transport reported it.
    pub message: String,
}

/// The provider's response envelope for one quote call.
#[derive(Debug, Clone)]
pub struct Response {
    /// The payload of the envelope.
    pub quote_response: QuoteResponse,
}

/// The payload of a response envelope: the records the provider returned,
/// and any error it reported beside them. Records together with an error,
/// and an empty result with an error, are both valid combinations.
#[derive(Debug, Clone)]
pub struct QuoteResponse {
    /// The quotes the provider returned, in arrival order.
    pub result: Vec<ForexPair>,
    /// The error the provider reported inside the envelope, if any.
    pub error: Option<YfinError>,
}

/// The one seam across which the system talks to the network: performs a
/// single call against the provider and returns its envelope, or fails
/// with a transport error. Retry, timeout and pooling policy belong to
/// implementations, never to the client. Implementations hold no per-call
/// mutable state, so one instance may serve any number of independent
/// calls.
pub trait Backend {
    /// Performs one call to `endpoint` with the form-encoded `body` and
    /// the caller's optional session `context`.
    fn call(&self, endpoint: &str, body: &Values, context: Option<Context>) -> Result<
        Response,
        TransportError,
    >;
}

impl<'a, B: Backend> Backend for &'a B {
    /// A shared reference to a backend is itself a backend: backends hold
    /// no per-call mutable state, so read-only sharing is safe.
    fn call(&self, endpoint: &str, body: &Values, context: Option<Context>) -> Result<
        Response,
        TransportError,
    > {
        B::call(*self, endpoint, body, context)
    }
}

/// The provider-facing backend. The concrete transport is an external
/// collaborator wired in around this crate; on its own, this backend
/// answers every call with an empty envelope.
#[derive(Debug, Clone)]
pub struct YFinBackend;

impl YFinBackend {
    /// A backend ready to serve calls.
    pub fn new() -> (r: YFinBackend) {
        YFinBackend
    }
}

impl Backend for YFinBackend {
    fn call(&self, _endpoint: &str, _body: &Values, _context: Option<Context>) -> Result<
        Response,
        TransportError,
    > {
        Ok(Response { quote_response: QuoteResponse { result: Vec::new(), error: None } })
    }
}

} // verus!
