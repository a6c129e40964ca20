//! The pluggable message codec: a factory for a matched encoder and
//! decoder pair.
//!
//! A decoder answering `None` signals that the bytes do not yet hold a
//! whole message; a unary exchange always decodes to `Some`.  The
//! message-format codec itself lives with the host program, which owns
//! the generated message types.

use vstd::prelude::*;

use crate::status::Status;

verus! {

/// A byte window a decoder consumes from the front.
pub struct DecodeBuf {
    buf: Vec<u8>,
}

impl View for DecodeBuf {
    type V = Seq<u8>;

    closed spec fn view(&self) -> Seq<u8> {
        self.buf@
    }
}

impl DecodeBuf {
    /// A window over a whole buffer.
    pub fn new(buf: Vec<u8>) -> (r: DecodeBuf)
        ensures
            r@ == buf@,
    {
        DecodeBuf { buf }
    }

    /// How many bytes are left.
    pub fn remaining(&self) -> (r: usize)
        ensures
            r == self@.len(),
    {
        self.buf.len()
    }

    /// The byte at an offset into what is left.
    pub fn byte_at(&self, i: usize) -> (r: u8)
        requires
            i < self@.len(),
        ensures
            r == self@[i as int],
    {
        self.buf[i]
    }

    /// Step past the first `cnt` bytes.
    pub fn advance(&mut self, cnt: usize)
        requires
            cnt <= old(self)@.len(),
        ensures
            final(self)@ == old(self)@.skip(cnt as int),
    {
        let n = self.buf.len();
        let mut rest: Vec<u8> = Vec::new();
        let mut i: usize = cnt;
        proof {
            assert(rest@ =~= old(self)@.subrange(cnt as int, cnt as int));
        }
        while i < n
            invariant
                cnt <= i <= n,
                n == self.buf@.len(),
                self.buf@ == old(self)@,
                rest@ == old(self)@.subrange(cnt as int, i as int),
            decreases n - i,
        {
            rest.push(self.buf[i]);
            proof {
                assert(rest@ =~= old(self)@.subrange(cnt as int, i + 1));
            }
            i = i + 1;
        }
        proof {
            assert(old(self)@.subrange(cnt as int, n as int) =~= old(self)@.skip(cnt as int));
        }
        self.buf = rest;
    }

    /// Everything left, handed over.
    pub fn into_vec(self) -> (r: Vec<u8>)
        ensures
            r@ == self@,
    {
        self.buf
    }
}

/// A byte buffer an encoder writes into from the back.
pub struct EncodeBuf {
    buf: Vec<u8>,
}

impl View for EncodeBuf {
    type V = Seq<u8>;

    closed spec fn view(&self) -> Seq<u8> {
        self.buf@
    }
}

impl EncodeBuf {
    /// An empty buffer.
    pub fn new() -> (r: EncodeBuf)
        ensures
            r@ =~= Seq::<u8>::empty(),
    {
        EncodeBuf { buf: Vec::new() }
    }

    /// Ask for room; a size hint this representation does not track.
    pub fn reserve(&mut self, additional: usize)
        ensures
            final(self)@ == old(self)@,
    {
        let _ = additional;
    }

    /// Append bytes at the end.
    pub fn put_slice(&mut self, src: &[u8])
        ensures
            final(self)@ == old(self)@ + src@,
    {
        let n = src.len();
        let mut i: usize = 0;
        proof {
            assert(old(self)@ + src@.subrange(0, 0) =~= old(self)@);
        }
        while i < n
            invariant
                i <= n,
                n == src@.len(),
                self@ == old(self)@ + src@.subrange(0, i as int),
            decreases n - i,
        {
            self.buf.push(src[i]);
            proof {
                assert(src@.subrange(0, i + 1) =~= src@.subrange(0, i as int).push(
                    src@[i as int],
                ));
                assert(self@ =~= old(self)@ + src@.subrange(0, i + 1));
            }
            i = i + 1;
        }
        proof {
            assert(src@.subrange(0, n as int) =~= src@);
        }
    }

    /// The bytes written, handed over.
    pub fn into_vec(self) -> (r: Vec<u8>)
        ensures
            r@ == self@,
    {
        self.buf
    }
}

/// A factory for one encoder and one decoder.
pub trait Codec {
    type Encode;

    type Decode;

    type Encoder: Encoder<Item = Self::Encode>;

    type Decoder: Decoder<Item = Self::Decode>;

    fn encoder(&mut self) -> Self::Encoder;

    fn decoder(&mut self) -> Self::Decoder;
}

/// Turns one message into bytes.
pub trait Encoder {
    type Item;

    fn encode(&mut self, item: Self::Item) -> Result<Vec<u8>, Status>;
}

/// Turns bytes back into a message, or `None` while they are short.
pub trait Decoder {
    type Item;

    fn decode(&mut self, src: Vec<u8>) -> Result<Option<Self::Item>, Status>;
}

/// A codec that hands bytes through untouched: the identity message
/// format, and the shape every other codec plugs into.
pub struct IdentityCodec;

pub struct IdentityEncoder;

pub struct IdentityDecoder;

impl Encoder for IdentityEncoder {
    type Item = Vec<u8>;

    fn encode(&mut self, item: Vec<u8>) -> (r: Result<Vec<u8>, Status>)
        ensures
            r matches Ok(v) && v@ == item@,
    {
        Ok(item)
    }
}

impl Decoder for IdentityDecoder {
    type Item = Vec<u8>;

    fn decode(&mut self, src: Vec<u8>) -> (r: Result<Option<Vec<u8>>, Status>)
        ensures
            r matches Ok(v) && v matches Some(b) && b@ == src@,
    {
        Ok(Some(src))
    }
}

impl Codec for IdentityCodec {
    type Encode = Vec<u8>;

    type Decode = Vec<u8>;

    type Encoder = IdentityEncoder;

    type Decoder = IdentityDecoder;

    fn encoder(&mut self) -> IdentityEncoder {
        IdentityEncoder
    }

    fn decoder(&mut self) -> IdentityDecoder {
        IdentityDecoder
    }
}

} // verus!
