//! The opaque payload at the transport boundary: at most one message's
//! bytes.

use vstd::prelude::*;

verus! {

/// One message payload, or nothing.
#[derive(Debug)]
pub struct Body {
    pub data: Option<Vec<u8>>,
}

impl Body {
    pub fn new(data: Option<Vec<u8>>) -> (r: Body)
        ensures
            r.data == data,
    {
        Body { data }
    }

    /// Take the bytes out.
    pub fn data(self) -> (r: Option<Vec<u8>>)
        ensures
            r == self.data,
    {
        self.data
    }
}

} // verus!
