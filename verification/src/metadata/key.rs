//! Validated metadata keys.

use core::marker::PhantomData;
use vstd::prelude::*;
use vstd::slice::slice_to_vec;
use vstd::utf8::{decode_utf8, valid_utf8};

use crate::metadata::encoding::{Ascii, Binary, ValueEncoding};
use crate::strutil::string_from_utf8;

verus! {

/// A metadata key that its encoding has accepted.
#[derive(Debug)]
pub struct MetadataKey<VE: ValueEncoding> {
    name: String,
    marker: PhantomData<VE>,
}

pub type AsciiMetadataKey = MetadataKey<Ascii>;

pub type BinaryMetadataKey = MetadataKey<Binary>;

/// The error for bytes that spell no acceptable key.
#[derive(Debug)]
pub struct InvalidMetadataKey {
    _priv: (),
}

impl InvalidMetadataKey {
    pub fn new() -> (r: InvalidMetadataKey) {
        InvalidMetadataKey { _priv: () }
    }
}

impl<VE: ValueEncoding> View for MetadataKey<VE> {
    type V = Seq<char>;

    closed spec fn view(&self) -> Seq<char> {
        self.name@
    }
}

impl<VE: ValueEncoding> MetadataKey<VE> {
    /// The shape every constructed key has.
    pub open spec fn wf(&self) -> bool {
        VE::spec_is_valid_key(self@)
    }

    /// Parse a key from bytes.  The bytes must spell a key the encoding
    /// accepts; anything else is turned away.
    pub fn from_bytes(src: &[u8]) -> (r: Result<Self, InvalidMetadataKey>)
        ensures
            r is Ok <==> valid_utf8(src@) && VE::spec_is_valid_key(decode_utf8(src@)),
            r is Ok ==> r.unwrap()@ == decode_utf8(src@) && r.unwrap().wf(),
    {
        let v = slice_to_vec(src);
        match string_from_utf8(v) {
            Some(s) => {
                if VE::is_valid_key(s.as_str()) {
                    Ok(MetadataKey { name: s, marker: PhantomData })
                } else {
                    Err(InvalidMetadataKey::new())
                }
            },
            None => Err(InvalidMetadataKey::new()),
        }
    }

    /// Wrap a literal key.  The caller vouches for it; a program with
    /// an invalid literal key is simply wrong.
    pub fn from_static(src: &'static str) -> (r: Self)
        requires
            VE::spec_is_valid_key(src@),
        ensures
            r@ == src@,
            r.wf(),
    {
        MetadataKey { name: src.to_owned(), marker: PhantomData }
    }

    /// The key as text.
    pub fn as_str(&self) -> (r: &str)
        ensures
            r@ == self@,
    {
        self.name.as_str()
    }

    /// The key as an owned string.
    pub fn into_string(self) -> (r: String)
        ensures
            r@ == self@,
    {
        self.name
    }
}

} // verus!
