//! The service abstractions the pipelines are built over.
//!
//! A call here is a plain function call; the host program drives any
//! waiting — sockets, handshakes, sleeps — around the verified core.

use vstd::prelude::*;

use crate::common::{Body, Request, Response};

verus! {

/// What a transport reports when a call fails or the peer answers with
/// a failure: the status it read from the trailers or mapped from the
/// connection error, when it has one, and a rendered description.
#[derive(Debug)]
pub struct TransportError {
    pub message: String,
    pub status: Option<crate::status::Status>,
}

impl TransportError {
    /// A failure no status describes; the client wraps it as Unknown.
    pub fn new(message: &str) -> (r: TransportError)
        ensures
            r.message@ == message@,
            r.status is None,
    {
        TransportError { message: message.to_owned(), status: None }
    }

    /// A failure the peer or the error mapping already described.
    pub fn with_status(status: crate::status::Status) -> (r: TransportError)
        ensures
            r.message@ == status.spec_message(),
            r.status == Some(status),
    {
        let message = status.message().to_owned();
        TransportError { message, status: Some(status) }
    }
}

/// A request handler: one call, one response or error.
pub trait Service<R> {
    type Response;

    type Error;

    fn call(&mut self, req: R) -> Result<Self::Response, Self::Error>;
}

/// The one operation a client transport offers: carry an opaque
/// request to the peer and bring its response back.  A transport reads
/// the trailers and the HTTP status it received: an OK trailer or a
/// bare success lets the body through, and anything else comes back as
/// an error carrying that status.
pub trait SimpleInstantService {
    fn call(&mut self, req: Request<Body>) -> Result<Response<Body>, TransportError>;
}

} // verus!
