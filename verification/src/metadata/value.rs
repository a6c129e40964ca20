//! Metadata values.
//!
//! A value's view is its encoded form: the bytes as they stand in a
//! header.  An ASCII value stores its text unchanged; a binary value
//! stores the base64 spelling of the bytes it was made from.

use core::marker::PhantomData;
use vstd::prelude::*;
use vstd::slice::slice_to_vec;
use vstd::string::StringSliceAdditionalSpecFns;
use vstd::utf8::{decode_utf8, is_ascii_chars_encode_utf8, valid_utf8};

use crate::base64::{
    base64_decode, base64_encode, spec_base64_decode, spec_base64_encode, spec_base64_valid,
};
use crate::metadata::encoding::{
    spec_is_value_byte, Ascii, Binary, InvalidMetadataValue, InvalidMetadataValueBytes,
    ValueEncoding,
};
use crate::metadata::key::MetadataKey;
use crate::strutil::{lemma_ascii_bytes_utf8, string_from_utf8};

verus! {

/// A metadata value; the view is its wire form.
#[derive(Debug, PartialEq, Eq)]
pub struct MetadataValue<VE: ValueEncoding> {
    bytes: Vec<u8>,
    sensitive: bool,
    marker: PhantomData<VE>,
}

pub type AsciiMetadataValue = MetadataValue<Ascii>;

pub type BinaryMetadataValue = MetadataValue<Binary>;

/// The error for a value that is no printable text.
#[derive(Debug)]
pub struct ToStrError {
    _priv: (),
}

impl ToStrError {
    pub fn new() -> (r: ToStrError) {
        ToStrError { _priv: () }
    }
}

impl<VE: ValueEncoding> View for MetadataValue<VE> {
    type V = Seq<u8>;

    closed spec fn view(&self) -> Seq<u8> {
        self.bytes@
    }
}

impl<VE: ValueEncoding> MetadataValue<VE> {
    /// Whether the wire form is empty.
    pub fn is_empty(&self) -> (r: bool)
        ensures
            r == (self@.len() == 0),
    {
        self.bytes.len() == 0
    }

    /// The bytes as they stand in a header.
    pub fn as_encoded_bytes(&self) -> (r: &[u8])
        ensures
            r@ == self@,
    {
        self.bytes.as_slice()
    }

    /// Mark the value as one that printouts should hide.
    pub fn set_sensitive(&mut self, val: bool)
        ensures
            final(self)@ == old(self)@,
            final(self).spec_is_sensitive() == val,
    {
        self.sensitive = val;
    }

    pub closed spec fn spec_is_sensitive(&self) -> bool {
        self.sensitive
    }

    pub fn is_sensitive(&self) -> (r: bool)
        ensures
            r == self.spec_is_sensitive(),
    {
        self.sensitive
    }

    /// A value taken as it stands, for entries read off the wire.
    pub(crate) fn from_encoded(bytes: Vec<u8>) -> (r: Self)
        ensures
            r@ == bytes@,
            !r.spec_is_sensitive(),
    {
        MetadataValue { bytes, sensitive: false, marker: PhantomData }
    }
}

impl MetadataValue<Ascii> {
    /// Accept text whose bytes a header can carry: tab, or anything
    /// from space upward except delete.
    pub fn from_str(src: &str) -> (r: Result<Self, InvalidMetadataValue>)
        ensures
            r is Ok <==> (forall|i: int|
                0 <= i < src.spec_bytes().len() ==> spec_is_value_byte(
                    #[trigger] src.spec_bytes()[i],
                )),
            r is Ok ==> r.unwrap()@ == src.spec_bytes(),
    {
        let bytes = src.as_bytes_vec();
        let n = bytes.len();
        let mut i: usize = 0;
        while i < n
            invariant
                i <= n,
                n == bytes@.len(),
                bytes@ == src.spec_bytes(),
                forall|j: int| 0 <= j < i ==> spec_is_value_byte(#[trigger] bytes@[j]),
            decreases n - i,
        {
            let b = bytes[i];
            if !(b == 0x09 || (0x20 <= b && b != 0x7f)) {
                return Err(InvalidMetadataValue::new());
            }
            i = i + 1;
        }
        Ok(MetadataValue { bytes, sensitive: false, marker: PhantomData })
    }

    /// Wrap a literal value; the caller vouches for its bytes.
    pub fn from_static(src: &'static str) -> (r: Self)
        requires
            forall|i: int|
                0 <= i < src.spec_bytes().len() ==> spec_is_value_byte(
                    #[trigger] src.spec_bytes()[i],
                ),
        ensures
            r@ == src.spec_bytes(),
    {
        MetadataValue { bytes: src.as_bytes_vec(), sensitive: false, marker: PhantomData }
    }

    /// Accept bytes that a header can carry.
    pub fn try_from_bytes(src: &[u8]) -> (r: Result<Self, InvalidMetadataValueBytes>)
        ensures
            r is Ok <==> (forall|i: int|
                0 <= i < src@.len() ==> spec_is_value_byte(#[trigger] src@[i])),
            r is Ok ==> r.unwrap()@ == src@,
    {
        let n = src.len();
        let mut i: usize = 0;
        while i < n
            invariant
                i <= n,
                n == src@.len(),
                forall|j: int| 0 <= j < i ==> spec_is_value_byte(#[trigger] src@[j]),
            decreases n - i,
        {
            let b = src[i];
            if !(b == 0x09 || (0x20 <= b && b != 0x7f)) {
                return Err(InvalidMetadataValueBytes::new());
            }
            i = i + 1;
        }
        Ok(MetadataValue { bytes: slice_to_vec(src), sensitive: false, marker: PhantomData })
    }

    /// A key reused as a value; its characters are all value bytes.
    pub fn from_key<KVE: ValueEncoding>(key: MetadataKey<KVE>) -> (r: Self)
        requires
            key.wf(),
        ensures
            r@.len() == key@.len(),
            forall|i: int| 0 <= i < key@.len() ==> r@[i] == (#[trigger] key@[i]) as u8,
    {
        proof {
            KVE::lemma_key_ascii(key@);
            is_ascii_chars_encode_utf8(key@);
        }
        let s = key.into_string();
        let bytes = s.as_str().as_bytes_vec();
        MetadataValue { bytes, sensitive: false, marker: PhantomData }
    }

    /// The number of bytes on the wire.
    pub fn len(&self) -> (r: usize)
        ensures
            r == self@.len(),
    {
        self.bytes.len()
    }

    /// The value's bytes.
    pub fn as_bytes(&self) -> (r: &[u8])
        ensures
            r@ == self@,
    {
        self.bytes.as_slice()
    }

    /// The value as text, owned; refused unless every byte is printable
    /// ASCII.
    pub fn to_str(&self) -> (r: Result<String, ToStrError>)
        ensures
            r is Ok <==> (forall|i: int|
                0 <= i < self@.len() ==> 0x20 <= #[trigger] self@[i] < 0x7f),
            r is Ok ==> r.unwrap()@ == decode_utf8(self@),
    {
        let n = self.bytes.len();
        let mut i: usize = 0;
        while i < n
            invariant
                i <= n,
                n == self@.len(),
                forall|j: int| 0 <= j < i ==> 0x20 <= #[trigger] self@[j] < 0x7f,
            decreases n - i,
        {
            let b = self.bytes[i];
            if !(0x20 <= b && b < 0x7f) {
                return Err(ToStrError::new());
            }
            i = i + 1;
        }
        proof {
            lemma_ascii_bytes_utf8(self@);
        }
        match string_from_utf8(slice_to_vec(self.bytes.as_slice())) {
            Some(s) => Ok(s),
            None => Err(ToStrError::new()),
        }
    }
}

impl MetadataValue<Binary> {
    /// Take any bytes; on the wire they stand base64-encoded.
    pub fn from_bytes(src: &[u8]) -> (r: Self)
        ensures
            r@ == spec_base64_encode(src@),
    {
        MetadataValue { bytes: base64_encode(src), sensitive: false, marker: PhantomData }
    }

    /// Take any bytes; the fallible form other encodings offer.
    pub fn try_from_bytes(src: &[u8]) -> (r: Result<Self, InvalidMetadataValueBytes>)
        ensures
            r is Ok,
            r.unwrap()@ == spec_base64_encode(src@),
    {
        Ok(Self::from_bytes(src))
    }

    /// The bytes the wire form stands for; refused when it is not a
    /// base64 spelling.
    pub fn to_bytes(&self) -> (r: Result<Vec<u8>, InvalidMetadataValueBytes>)
        ensures
            r is Ok <==> spec_base64_valid(self@),
            r is Ok ==> r.unwrap()@ == spec_base64_decode(self@),
    {
        match base64_decode(self.bytes.as_slice()) {
            Some(v) => Ok(v),
            None => Err(InvalidMetadataValueBytes::new()),
        }
    }
}

} // verus!
