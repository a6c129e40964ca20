//! The client side of a unary call: encode the message, hand it to the
//! transport, decode what comes back.
//!
//! A failure keeps its cause: a status the transport carried — read
//! from the trailers, or mapped from the connection error — comes back
//! as it is, and only codec-level failures (a missing body, bytes that
//! spell no message) collapse into the opaque `OutOfRange` status.

use vstd::prelude::*;

use crate::codec::{Codec, Decoder, Encoder};
use crate::common::{Body, Request, Response};
use crate::runtime::{SimpleInstantService, TransportError};
use crate::status::{Code, Status};

verus! {

/// Whether a status is the pipeline's opaque codec failure.
pub open spec fn spec_pipeline_failure(st: Status) -> bool {
    &&& st.spec_code() == Code::OutOfRange
    &&& st.spec_message() == "error"@
    &&& st.spec_details() == Seq::<u8>::empty()
    &&& st.spec_metadata() == Seq::<(Seq<char>, Seq<u8>)>::empty()
}

/// Judge the encoder's answer: the transport request around exactly
/// the encoded bytes, under the caller's metadata, or the encoder's
/// own status.
pub fn map_encoded_request(metadata: crate::metadata::MetadataMap, encoded: Result<
    Vec<u8>,
    Status,
>) -> (r: Result<Request<Body>, Status>)
    ensures
        (match encoded {
            Ok(bytes) => (r matches Ok(req) && req.spec_metadata_map() == metadata
                && req.spec_payload().data == Some(bytes)),
            Err(st) => r == Result::<Request<Body>, Status>::Err(st),
        }),
{
    match encoded {
        Ok(bytes) => Ok(Request::from_parts(metadata, Body::new(Some(bytes)))),
        Err(st) => Err(st),
    }
}

/// Encode a request's message and wrap the bytes as an opaque body,
/// keeping the metadata with it.
pub fn map_request<B, E: Encoder<Item = B>>(encoder: &mut E, request: Request<B>) -> (r: Result<
    Request<Body>,
    Status,
>)
    ensures
        r matches Ok(req) ==> req.spec_metadata() == request.spec_metadata()
            && req.spec_payload().data is Some,
{
    let (metadata, message) = request.into_parts();
    map_encoded_request(metadata, encoder.encode(message))
}

/// Judge what the transport brought back: the body bytes to decode, or
/// the status the call already ended with.  A carried status — one the
/// transport read from the trailers or mapped from its own failure —
/// passes through; a failure without one is wrapped as Unknown; an
/// answer without a body is the opaque codec failure.
pub fn map_reply(reply: Result<Response<Body>, TransportError>) -> (r: Result<Vec<u8>, Status>)
    ensures
        (match reply {
            Err(te) => match te.status {
                Some(st) => r == Result::<Vec<u8>, Status>::Err(st),
                None => (r matches Err(st2) && st2.spec_code() == Code::Unknown
                    && st2.spec_message() == te.message@ && st2.spec_details() == Seq::<
                    u8,
                >::empty() && st2.spec_metadata() == Seq::<(Seq<char>, Seq<u8>)>::empty()),
            },
            Ok(res) => match res.spec_payload().data {
                Some(bytes) => r == Result::<Vec<u8>, Status>::Ok(bytes),
                None => (r matches Err(st) && spec_pipeline_failure(st)),
            },
        }),
{
    match reply {
        Ok(res) => {
            match res.into_inner().data() {
                Some(bytes) => Ok(bytes),
                None => Err(Status::new(Code::OutOfRange, "error")),
            }
        },
        Err(te) => {
            match te.status {
                Some(st) => Err(st),
                None => Err(Status::new(Code::Unknown, te.message.as_str())),
            }
        },
    }
}

/// Judge the decoder's answer: the response envelope around the
/// message, the decoder's own status, or — when the bytes were too
/// short for a message — the opaque codec failure.
pub fn map_decoded<M>(decoded: Result<Option<M>, Status>) -> (r: Result<Response<M>, Status>)
    ensures
        (match decoded {
            Ok(Some(m)) => (r matches Ok(resp) && resp.spec_payload() == m
                && resp.spec_metadata() == Seq::<(Seq<char>, Seq<u8>)>::empty()),
            Ok(None) => (r matches Err(st) && spec_pipeline_failure(st)),
            Err(st) => r == Result::<Response<M>, Status>::Err(st),
        }),
{
    match decoded {
        Ok(Some(msg)) => Ok(Response::new(msg)),
        Ok(None) => Err(Status::new(Code::OutOfRange, "error")),
        Err(e) => Err(e),
    }
}

/// The client pipeline around a transport.
pub struct Rpc<T> {
    inner: T,
}

impl<T> Rpc<T> {
    pub closed spec fn spec_inner(&self) -> T {
        self.inner
    }

    pub fn new(inner: T) -> (r: Self)
        ensures
            r.spec_inner() == inner,
    {
        Rpc { inner }
    }
}

impl<T: SimpleInstantService> Rpc<T> {
    /// One unary exchange.  The encoded request goes out through the
    /// transport; the first body that comes back is decoded into the
    /// response message, which travels in a fresh envelope.  An error
    /// is the encoder's or decoder's own status, a status the
    /// transport carried (wrapped as Unknown when it carried none), or
    /// the opaque codec failure for a missing or short body.
    pub fn unary<M1, M2, C: Codec<Encode = M1, Decode = M2>>(
        &mut self,
        req: Request<M1>,
        _path: &str,
        codec: C,
    ) -> (r: Result<Response<M2>, Status>)
        ensures
            r matches Ok(resp) ==> resp.spec_metadata() == Seq::<(Seq<char>, Seq<u8>)>::empty(),
    {
        let mut codec = codec;
        let mut encoder = codec.encoder();
        let req = map_request(&mut encoder, req);
        match req {
            Ok(request) => {
                let reply = self.inner.call(request);
                match map_reply(reply) {
                    Ok(data) => {
                        let mut decoder = codec.decoder();
                        map_decoded(decoder.decode(data))
                    },
                    Err(st) => Err(st),
                }
            },
            Err(st) => Err(st),
        }
    }
}

} // verus!
