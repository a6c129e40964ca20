//! The transport layer's state: the client endpoint that knows its
//! destination, and the server pieces that carry a registered service
//! to the accept loop.  The socket work itself — connecting, the
//! HTTP/2 handshake, reading and writing frames — happens in the host
//! program around these values.

use vstd::prelude::*;

use crate::common::{Body, Request, Response};
use crate::runtime::{Service, TransportError};
use crate::status::Status;

verus! {

/// A client endpoint: the destination each call connects to afresh.
#[derive(Debug)]
pub struct Endpoint {
    dst: String,
}

impl Endpoint {
    pub closed spec fn spec_dst(&self) -> Seq<char> {
        self.dst@
    }

    /// Remember a destination; the connection itself is opened per
    /// call.
    pub fn connect(dst: String) -> (r: Result<Endpoint, TransportError>)
        ensures
            r matches Ok(ep) && ep.spec_dst() == dst@,
    {
        Ok(Endpoint { dst })
    }

    /// Where calls go.
    pub fn dst(&self) -> (r: &str)
        ensures
            r@ == self.spec_dst(),
    {
        self.dst.as_str()
    }
}

/// The server under construction.
#[derive(Clone, Copy, Debug)]
pub struct Server {
    id: i32,
}

impl Server {
    pub closed spec fn spec_id(&self) -> int {
        self.id as int
    }

    /// A fresh server value.
    pub fn builder() -> (r: Server)
        ensures
            r.spec_id() == 456,
    {
        Server { id: 456 }
    }

    /// Pair the server with a service, ready to serve.
    pub fn register<S: Service<Request<Body>, Response = (Response<Body>, Status)>>(
        &mut self,
        svc: S,
    ) -> (r: Router<S>)
        ensures
            r.spec_server().spec_id() == old(self).spec_id(),
            r.spec_routes().spec_inner() == svc,
            final(self).spec_id() == old(self).spec_id(),
    {
        Router::new(*self, svc)
    }
}

/// A server together with the routes it dispatches to.
pub struct Router<S> {
    server: Server,
    routes: Routes<S>,
}

impl<S> Router<S> {
    pub closed spec fn spec_server(&self) -> Server {
        self.server
    }

    pub closed spec fn spec_routes(&self) -> Routes<S> {
        self.routes
    }

    pub(crate) fn new(server: Server, svc: S) -> (r: Router<S>)
        ensures
            r.spec_server() == server,
            r.spec_routes().spec_inner() == svc,
    {
        Router { server, routes: Routes::new(svc) }
    }

    /// Hand the routes back out, as the accept loop takes them over.
    pub fn into_parts(self) -> (r: (Server, Routes<S>))
        ensures
            r.0 == self.spec_server(),
            r.1 == self.spec_routes(),
    {
        (self.server, self.routes)
    }
}

/// The routing adapter cloned into each connection's task.
#[derive(Clone)]
pub struct Routes<S> {
    inner: S,
}

impl<S> Routes<S> {
    pub closed spec fn spec_inner(&self) -> S {
        self.inner
    }

    pub(crate) fn new(inner: S) -> (r: Routes<S>)
        ensures
            r.spec_inner() == inner,
    {
        Routes { inner }
    }

    /// The registered service, to be invoked once per request body.
    pub fn service_mut(&mut self) -> (r: &mut S)
        ensures
            *r == old(self).spec_inner(),
            final(self).spec_inner() == *final(r),
    {
        &mut self.inner
    }
}

} // verus!
