//! The request envelope: a typed payload with its metadata.

use vstd::prelude::*;

use crate::headers::HeaderSeq;
use crate::metadata::map::spec_sanitize;
use crate::metadata::MetadataMap;

verus! {

/// A request: a payload and the metadata travelling with it.
#[derive(Debug)]
pub struct Request<T> {
    metadata: MetadataMap,
    payload: T,
}

/// Whether a conversion to plain headers drops the reserved names.
#[derive(Clone, Copy, Debug, PartialEq, Eq, Structural)]
pub enum SanitizeHeaders {
    Yes,
    No,
}

impl<T> Request<T> {
    pub closed spec fn spec_payload(&self) -> T {
        self.payload
    }

    pub open spec fn spec_metadata(&self) -> HeaderSeq {
        self.spec_metadata_map()@
    }

    pub closed spec fn spec_metadata_map(&self) -> MetadataMap {
        self.metadata
    }

    /// A request around a payload, with no metadata yet.
    pub fn new(payload: T) -> (r: Request<T>)
        ensures
            r.spec_payload() == payload,
            r.spec_metadata() =~= Seq::<(Seq<char>, Seq<u8>)>::empty(),
    {
        Request { metadata: MetadataMap::new(), payload }
    }

    pub fn get_ref(&self) -> (r: &T)
        ensures
            *r == self.spec_payload(),
    {
        &self.payload
    }

    pub fn get_mut(&mut self) -> (r: &mut T)
        ensures
            *r == old(self).spec_payload(),
            final(self).spec_payload() == *final(r),
            final(self).spec_metadata_map() == old(self).spec_metadata_map(),
    {
        &mut self.payload
    }

    pub fn metadata(&self) -> (r: &MetadataMap)
        ensures
            r@ == self.spec_metadata(),
    {
        &self.metadata
    }

    pub fn metadata_mut(&mut self) -> (r: &mut MetadataMap)
        ensures
            *r == old(self).spec_metadata_map(),
            final(self).spec_metadata_map() == *final(r),
            final(self).spec_payload() == old(self).spec_payload(),
    {
        &mut self.metadata
    }

    pub fn into_inner(self) -> (r: T)
        ensures
            r == self.spec_payload(),
    {
        self.payload
    }

    pub fn into_parts(self) -> (r: (MetadataMap, T))
        ensures
            r.0 == self.spec_metadata_map(),
            r.1 == self.spec_payload(),
    {
        (self.metadata, self.payload)
    }

    /// A request assembled from metadata and a payload, as one arrives
    /// off the wire.
    pub fn from_parts(metadata: MetadataMap, payload: T) -> (r: Request<T>)
        ensures
            r.spec_metadata_map() == metadata,
            r.spec_payload() == payload,
    {
        Request { metadata, payload }
    }

    /// The metadata as plain headers, sanitized or not.
    pub fn into_headers(self, sanitize: SanitizeHeaders) -> (r: (crate::headers::HeaderMap, T))
        ensures
            sanitize == SanitizeHeaders::Yes ==> r.0@ == spec_sanitize(self.spec_metadata()),
            sanitize == SanitizeHeaders::No ==> r.0@ == self.spec_metadata(),
            r.1 == self.spec_payload(),
    {
        let headers = match sanitize {
            SanitizeHeaders::Yes => self.metadata.into_sanitized_headers(),
            SanitizeHeaders::No => self.metadata.into_headers(),
        };
        (headers, self.payload)
    }

    /// The same envelope around a rewritten payload.
    pub fn map<U, F: FnOnce(T) -> U>(self, f: F) -> (r: Request<U>)
        requires
            call_requires(f, (self.spec_payload(),)),
        ensures
            r.spec_metadata_map() == self.spec_metadata_map(),
            call_ensures(f, (self.spec_payload(),), r.spec_payload()),
    {
        let payload = f(self.payload);
        Request { metadata: self.metadata, payload }
    }
}

} // verus!
