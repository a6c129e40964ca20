use std::cell::Cell;
use std::rc::Rc;

use lucat::client;
use lucat::codec::IdentityCodec;
use lucat::metadata::AsciiMetadataValue;
use lucat::server;
use lucat::status::infer_grpc_status;
use lucat::transport::{Endpoint, Server};
use lucat::{Body, Code, Request, Response, Service, SimpleInstantService, Status, TransportError};

/// Echoes every decoded request back, ticking a shared call counter.
struct EchoService {
    calls: Rc<Cell<u32>>,
}

impl EchoService {
    fn fresh() -> EchoService {
        EchoService { calls: Rc::new(Cell::new(0)) }
    }
}

impl server::UnaryService<Vec<u8>> for EchoService {
    type Response = Vec<u8>;

    fn call(&mut self, request: Request<Vec<u8>>) -> Result<Response<Vec<u8>>, Status> {
        self.calls.set(self.calls.get() + 1);
        Ok(Response::new(request.into_inner()))
    }
}

/// Always refuses, the way a validating handler would.
struct RejectingService;

impl server::UnaryService<Vec<u8>> for RejectingService {
    type Response = Vec<u8>;

    fn call(&mut self, _request: Request<Vec<u8>>) -> Result<Response<Vec<u8>>, Status> {
        Err(Status::invalid_argument("bad data"))
    }
}

/// An in-memory transport: each call runs the whole server pipeline and
/// then reads its own trailers back, as the socket transport would.
fn loop_back<S: server::UnaryService<Vec<u8>, Response = Vec<u8>>>(
    service: S,
    req: Request<Body>,
) -> Result<Response<Body>, TransportError> {
    let mut rpc = server::Rpc::new(IdentityCodec);
    let (reply, status) = rpc.unary(service, req);
    let trailers = status.to_header_map().unwrap();
    match infer_grpc_status(Some(&trailers), 200) {
        Ok(()) => Ok(reply),
        Err(None) => Ok(reply),
        Err(Some(status)) => Err(TransportError::with_status(status)),
    }
}

struct EchoTransport;

impl SimpleInstantService for EchoTransport {
    fn call(&mut self, req: Request<Body>) -> Result<Response<Body>, TransportError> {
        loop_back(EchoService::fresh(), req)
    }
}

struct RejectingTransport;

impl SimpleInstantService for RejectingTransport {
    fn call(&mut self, req: Request<Body>) -> Result<Response<Body>, TransportError> {
        loop_back(RejectingService, req)
    }
}

/// A transport that never reaches the peer and has no status to show.
struct FailingTransport;

impl SimpleInstantService for FailingTransport {
    fn call(&mut self, _req: Request<Body>) -> Result<Response<Body>, TransportError> {
        Err(TransportError::new("connection refused"))
    }
}

/// A transport whose failure the error mapping already described.
struct MappedFailureTransport;

impl SimpleInstantService for MappedFailureTransport {
    fn call(&mut self, _req: Request<Body>) -> Result<Response<Body>, TransportError> {
        Err(TransportError::with_status(Status::unavailable("connection reset")))
    }
}

#[test]
fn echo_unary_round_trip() {
    let mut rpc = client::Rpc::new(EchoTransport);
    let reply = rpc
        .unary(
            Request::new(vec![1, 2, 5]),
            "/echo.Echo/SayEcho",
            IdentityCodec,
        )
        .unwrap();
    assert_eq!(reply.into_inner(), vec![1, 2, 5]);
}

#[test]
fn two_calls_with_distinct_payloads_get_their_own_replies() {
    let mut rpc = client::Rpc::new(EchoTransport);
    let first = rpc
        .unary(Request::new(vec![1, 2, 5]), "/echo.Echo/SayEcho", IdentityCodec)
        .unwrap();
    let second = rpc
        .unary(Request::new(vec![9, 9]), "/echo.Echo/SayEcho", IdentityCodec)
        .unwrap();
    assert_eq!(first.into_inner(), vec![1, 2, 5]);
    assert_eq!(second.into_inner(), vec![9, 9]);
}

#[test]
fn handler_status_reaches_the_client() {
    let mut rpc = client::Rpc::new(RejectingTransport);
    let err = rpc
        .unary(Request::new(vec![1]), "/echo.Echo/SayEcho", IdentityCodec)
        .unwrap_err();
    assert_eq!(err.code(), Code::InvalidArgument);
    assert_eq!(err.message(), "bad data");
    assert!(err.details().is_empty());
}

#[test]
fn empty_request_body_draws_an_empty_reply() {
    let mut rpc = server::Rpc::new(IdentityCodec);
    let (reply, status) = rpc.unary(EchoService::fresh(), Request::new(Body::new(None)));
    assert!(reply.into_inner().data().is_none());
    assert_eq!(status.code(), Code::Internal);
    assert_eq!(status.message(), "missing request body");
}

#[test]
fn handler_error_draws_an_empty_body_and_its_status() {
    let mut rpc = server::Rpc::new(IdentityCodec);
    let (reply, status) = rpc.unary(RejectingService, Request::new(Body::new(Some(vec![1]))));
    assert!(reply.into_inner().data().is_none());
    assert_eq!(status.code(), Code::InvalidArgument);
    assert_eq!(status.message(), "bad data");
}

#[test]
fn handler_success_draws_an_ok_status() {
    let mut rpc = server::Rpc::new(IdentityCodec);
    let (reply, status) = rpc.unary(EchoService::fresh(), Request::new(Body::new(Some(vec![7]))));
    assert_eq!(reply.into_inner().data(), Some(vec![7]));
    assert_eq!(status.code(), Code::Okay);
    assert_eq!(status.message(), "");
}

#[test]
fn unmapped_transport_failure_wraps_as_unknown() {
    let mut rpc = client::Rpc::new(FailingTransport);
    let err = rpc
        .unary(Request::new(vec![1]), "/echo.Echo/SayEcho", IdentityCodec)
        .unwrap_err();
    assert_eq!(err.code(), Code::Unknown);
    assert_eq!(err.message(), "connection refused");
}

#[test]
fn mapped_transport_failure_keeps_its_status() {
    let mut rpc = client::Rpc::new(MappedFailureTransport);
    let err = rpc
        .unary(Request::new(vec![1]), "/echo.Echo/SayEcho", IdentityCodec)
        .unwrap_err();
    assert_eq!(err.code(), Code::Unavailable);
    assert_eq!(err.message(), "connection reset");
}

#[test]
fn handler_observes_every_call() {
    let counter = Rc::new(Cell::new(0));
    let mut rpc = server::Rpc::new(IdentityCodec);
    let (first, _) = rpc.unary(
        EchoService { calls: counter.clone() },
        Request::new(Body::new(Some(vec![1]))),
    );
    let (second, _) = rpc.unary(
        EchoService { calls: counter.clone() },
        Request::new(Body::new(Some(vec![2]))),
    );
    assert_eq!(first.into_inner().data(), Some(vec![1]));
    assert_eq!(second.into_inner().data(), Some(vec![2]));
    assert_eq!(counter.get(), 2);
}

#[test]
fn request_envelope_holds_payload_and_metadata() {
    let mut req = Request::new(41u64);
    *req.get_mut() += 1;
    assert_eq!(*req.get_ref(), 42);
    req.metadata_mut()
        .insert("x-tag", AsciiMetadataValue::from_str("t").unwrap());
    assert_eq!(req.metadata().len(), 1);
    let req = req.map(|n| n * 2);
    assert_eq!(req.metadata().len(), 1);
    let (metadata, payload) = req.into_parts();
    assert_eq!(payload, 84);
    let again = Request::from_parts(metadata, payload);
    assert_eq!(again.into_inner(), 84);
}

#[test]
fn response_envelope_holds_payload_and_metadata() {
    let mut resp = Response::new(String::from("hi"));
    resp.get_mut().push('!');
    assert_eq!(resp.get_ref(), "hi!");
    resp.metadata_mut()
        .insert("x-tag", AsciiMetadataValue::from_str("t").unwrap());
    let (metadata, payload) = resp.into_parts();
    assert_eq!(payload, "hi!");
    let again = Response::from_parts(metadata, payload);
    assert_eq!(again.metadata().len(), 1);
    assert_eq!(again.into_inner(), "hi!");
}

#[test]
fn sanitizing_an_envelope_drops_reserved_headers() {
    let mut req = Request::new(());
    req.metadata_mut()
        .insert("x-kept", AsciiMetadataValue::from_str("yes").unwrap());
    let (headers, _) = req.into_headers(lucat::common::request::SanitizeHeaders::Yes);
    assert_eq!(headers.get("x-kept"), Some(b"yes".to_vec()));
    assert!(headers.get("grpc-status").is_none());
}

#[test]
fn endpoint_remembers_its_destination() {
    let ep = Endpoint::connect(String::from("127.0.0.1:7000")).unwrap();
    assert_eq!(ep.dst(), "127.0.0.1:7000");
}

#[test]
fn server_registers_a_service_into_a_router() {
    struct Noop;
    impl Service<Request<Body>> for Noop {
        type Response = (Response<Body>, Status);
        type Error = Status;
        fn call(&mut self, _req: Request<Body>) -> Result<(Response<Body>, Status), Status> {
            Ok((Response::new(Body::new(None)), Status::ok("")))
        }
    }
    let mut server = Server::builder();
    let router = server.register(Noop);
    let (_server, mut routes) = router.into_parts();
    let (reply, status) = routes
        .service_mut()
        .call(Request::new(Body::new(None)))
        .unwrap();
    assert!(reply.into_inner().data().is_none());
    assert_eq!(status.code(), Code::Okay);
}

#[test]
fn decode_buf_consumes_from_the_front() {
    let mut buf = lucat::codec::DecodeBuf::new(vec![1, 2, 3, 4, 5]);
    assert_eq!(buf.remaining(), 5);
    assert_eq!(buf.byte_at(0), 1);
    buf.advance(2);
    assert_eq!(buf.remaining(), 3);
    assert_eq!(buf.byte_at(0), 3);
    assert_eq!(buf.into_vec(), vec![3, 4, 5]);

    let mut out = lucat::codec::EncodeBuf::new();
    out.reserve(16);
    out.put_slice(&[1, 2]);
    out.put_slice(&[3]);
    assert_eq!(out.into_vec(), vec![1, 2, 3]);
}
