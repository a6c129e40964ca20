//! The server side of a unary call: decode the request body, invoke
//! the handler, encode its answer.
//!
//! The pipeline answers with a reply body and the status the exchange
//! ended with; the transport writes that status into the response
//! trailers.  A missing body, an undecodable request, a handler error
//! or an encoder error all draw an empty-bodied reply, and the status
//! says which it was.

use vstd::prelude::*;

use crate::codec::{Codec, Decoder, Encoder};
use crate::common::{Body, Request, Response};
use crate::status::{Code, Status};

verus! {

/// Whether a response carries no body and no metadata.
pub open spec fn spec_empty_reply(resp: Response<Body>) -> bool {
    resp.spec_payload().data is None && resp.spec_metadata() == Seq::<(Seq<char>, Seq<u8>)>::empty()
}

/// Whether a status carries just a code and a fixed message, with no
/// details and no metadata.
pub open spec fn spec_bare_status(st: Status, code: Code, message: Seq<char>) -> bool {
    &&& st.spec_code() == code
    &&& st.spec_message() == message
    &&& st.spec_details() == Seq::<u8>::empty()
    &&& st.spec_metadata() == Seq::<(Seq<char>, Seq<u8>)>::empty()
}

/// Judge the decoder's answer on the server: the message to hand the
/// handler, or the reply an undecodable body draws — empty, with the
/// decoder's own status, or Internal when the bytes were merely short.
pub fn map_decoded_request<M>(decoded: Result<Option<M>, Status>) -> (r: Result<
    M,
    (Response<Body>, Status),
>)
    ensures
        (match decoded {
            Ok(Some(m)) => r == Result::<M, (Response<Body>, Status)>::Ok(m),
            Ok(None) => (r matches Err(pair) && spec_empty_reply(pair.0) && spec_bare_status(
                pair.1,
                Code::Internal,
                "failed to decode request message"@,
            )),
            Err(st) => (r matches Err(pair) && spec_empty_reply(pair.0) && pair.1 == st),
        }),
{
    match decoded {
        Ok(Some(msg)) => Ok(msg),
        Ok(None) => Err(
            (
                Response::new(Body::new(None)),
                Status::new(Code::Internal, "failed to decode request message"),
            ),
        ),
        Err(st) => Err((Response::new(Body::new(None)), st)),
    }
}

/// Judge the encoder's answer for a handler success: the encoded reply
/// with an OK status, or — when the encoder refused — the empty reply
/// with the encoder's own status.
pub fn map_encoded(encoded: Result<Vec<u8>, Status>) -> (r: (Response<Body>, Status))
    ensures
        (match encoded {
            Ok(bytes) => r.0.spec_payload().data == Some(bytes) && r.0.spec_metadata() == Seq::<
                (Seq<char>, Seq<u8>),
            >::empty() && spec_bare_status(r.1, Code::Okay, Seq::empty()),
            Err(st) => spec_empty_reply(r.0) && r.1 == st,
        }),
{
    proof {
        reveal_strlit("");
        assert(""@ =~= Seq::<char>::empty());
    }
    match encoded {
        Ok(bytes) => (Response::new(Body::new(Some(bytes))), Status::new(Code::Okay, "")),
        Err(st) => (Response::new(Body::new(None)), st),
    }
}

/// Encode a handler's answer as an opaque body, beside the status the
/// trailers will carry: the handler's own error, the encoder's, or OK.
pub fn map_response<B, E: Encoder<Item = B>>(
    encoder: &mut E,
    response: Result<Response<B>, Status>,
) -> (r: (Response<Body>, Status))
    ensures
        (response matches Err(st) ==> spec_empty_reply(r.0) && r.1 == st),
        r.0.spec_metadata() == Seq::<(Seq<char>, Seq<u8>)>::empty(),
{
    let response = match response {
        Ok(r) => r,
        Err(st) => {
            return (Response::new(Body::new(None)), st);
        },
    };
    let message = response.into_inner();
    map_encoded(encoder.encode(message))
}

/// The per-message service a generated adapter implements: a decoded
/// request in, a typed response or status out.
pub trait UnaryService<R> {
    type Response;

    fn call(&mut self, request: Request<R>) -> Result<Response<Self::Response>, Status>;
}

/// The server pipeline around a codec.
pub struct Rpc<T> {
    codec: T,
}

impl<T: Codec> Rpc<T> {
    pub closed spec fn spec_codec(&self) -> T {
        self.codec
    }

    pub fn new(codec: T) -> (r: Self)
        ensures
            r.spec_codec() == codec,
    {
        Rpc { codec }
    }

    /// One unary dispatch: the reply body and the status the trailers
    /// carry.  An absent body draws the empty reply with an Internal
    /// status and never reaches the handler; an undecodable body draws
    /// the same through the decoder's verdict; otherwise the handler's
    /// answer comes back encoded, its error as the trailer status.
    pub fn unary<S: UnaryService<T::Decode, Response = T::Encode>>(
        &mut self,
        service: S,
        req: Request<Body>,
    ) -> (r: (Response<Body>, Status))
        ensures
            req.spec_payload().data is None ==> spec_empty_reply(r.0) && spec_bare_status(
                r.1,
                Code::Internal,
                "missing request body"@,
            ),
            r.0.spec_metadata() == Seq::<(Seq<char>, Seq<u8>)>::empty(),
    {
        let mut service = service;
        let req = req.into_inner().data();
        match req {
            Some(data) => {
                let mut decoder = self.codec.decoder();
                match map_decoded_request(decoder.decode(data)) {
                    Ok(msg) => {
                        let dec_req = Request::new(msg);
                        let output = service.call(dec_req);
                        let mut encoder = self.codec.encoder();
                        map_response(&mut encoder, output)
                    },
                    Err(pair) => pair,
                }
            },
            None => (
                Response::new(Body::new(None)),
                Status::new(Code::Internal, "missing request body"),
            ),
        }
    }
}

} // verus!
