//! The metadata map: typed access to a header block.
//!
//! Keys select an encoding by their spelling: a key ending in `-bin`
//! reaches binary values, any other key reaches ASCII values.  A call
//! with a key the encoding refuses reads nothing and changes nothing.

use vstd::prelude::*;
use vstd::slice::slice_to_vec;

use crate::headers::{
    spec_first_value, spec_has_name, spec_insert, spec_remove_name, HeaderMap, HeaderSeq,
    StrEqExt,
};
use crate::metadata::encoding::{Ascii, Binary, ValueEncoding};
use crate::metadata::value::{AsciiMetadataValue, BinaryMetadataValue, MetadataValue};

verus! {

/// The deadline header: a key the framework reserves a name for but
/// does not enforce.
pub const GRPC_TIMEOUT_HEADER: &'static str = "grpc-timeout";

/// The names the framework owns and never surfaces as user metadata.
pub open spec fn spec_reserved(name: Seq<char>) -> bool {
    name == "te"@ || name == "user-agent"@ || name == "content-type"@ || name == "grpc-message"@
        || name == "grpc-message-type"@ || name == "grpc-status"@
}

/// The entries left once every reserved name is dropped.
pub open spec fn spec_sanitize(s: HeaderSeq) -> HeaderSeq
    decreases s.len(),
{
    if s.len() == 0 {
        s
    } else {
        let rest = spec_sanitize(s.drop_last());
        if spec_reserved(s.last().0) {
            rest
        } else {
            rest.push(s.last())
        }
    }
}

/// Whether a name is one the framework owns.
pub fn is_reserved(name: &str) -> (r: bool)
    ensures
        r == spec_reserved(name@),
{
    name.eq_str("te") || name.eq_str("user-agent") || name.eq_str("content-type") || name.eq_str(
        "grpc-message",
    ) || name.eq_str("grpc-message-type") || name.eq_str("grpc-status")
}

/// Sanitizing keeps no reserved name: looking one up finds nothing.
pub proof fn lemma_sanitized_reserved_gone(s: HeaderSeq, name: Seq<char>)
    requires
        spec_reserved(name),
    ensures
        spec_first_value(spec_sanitize(s), name) is None,
    decreases s.len(),
{
    if s.len() > 0 {
        lemma_sanitized_reserved_gone(s.drop_last(), name);
        if !spec_reserved(s.last().0) {
            crate::headers::lemma_first_value_push(
                spec_sanitize(s.drop_last()),
                s.last(),
                name,
            );
        }
    }
}

/// Sanitizing a block without reserved names changes nothing.
pub proof fn lemma_sanitize_clean(s: HeaderSeq)
    requires
        forall|i: int| 0 <= i < s.len() ==> !spec_reserved(#[trigger] s[i].0),
    ensures
        spec_sanitize(s) == s,
    decreases s.len(),
{
    if s.len() > 0 {
        assert(forall|i: int|
            0 <= i < s.drop_last().len() ==> #[trigger] s.drop_last()[i] == s[i]);
        lemma_sanitize_clean(s.drop_last());
        assert(!spec_reserved(s.last().0));
        assert(s.drop_last().push(s.last()) =~= s);
    }
}

/// A typed, multi-valued metadata map.
#[derive(Debug)]
pub struct MetadataMap {
    headers: HeaderMap,
}

impl View for MetadataMap {
    type V = HeaderSeq;

    closed spec fn view(&self) -> HeaderSeq {
        self.headers@
    }
}

impl Clone for MetadataMap {
    /// An entry-for-entry copy.
    fn clone(&self) -> (r: Self)
        ensures
            r@ == self@,
    {
        MetadataMap { headers: self.headers.clone() }
    }
}

impl MetadataMap {
    /// A map with no entries.
    pub fn new() -> (r: MetadataMap)
        ensures
            r@ =~= Seq::<(Seq<char>, Seq<u8>)>::empty(),
    {
        MetadataMap { headers: HeaderMap::new() }
    }

    /// A map with no entries; the room asked for is only a hint.
    pub fn with_capacity(capacity: usize) -> (r: MetadataMap)
        ensures
            r@ =~= Seq::<(Seq<char>, Seq<u8>)>::empty(),
    {
        MetadataMap { headers: HeaderMap::with_capacity(capacity) }
    }

    /// Adopt a header block as metadata, unchecked, as headers read off
    /// the wire arrive.
    pub fn from_headers(headers: HeaderMap) -> (r: MetadataMap)
        ensures
            r@ == headers@,
    {
        MetadataMap { headers }
    }

    /// The headers as they stand.
    pub fn into_headers(self) -> (r: HeaderMap)
        ensures
            r@ == self@,
    {
        self.headers
    }

    /// The headers with every reserved name dropped.
    pub fn into_sanitized_headers(self) -> (r: HeaderMap)
        ensures
            r@ == spec_sanitize(self@),
    {
        self.sanitized_headers()
    }

    /// A copy of the headers with every reserved name dropped.
    pub fn sanitized_headers(&self) -> (r: HeaderMap)
        ensures
            r@ == spec_sanitize(self@),
    {
        let n = self.headers.len();
        let mut out = HeaderMap::new();
        let mut i: usize = 0;
        proof {
            assert(self@.subrange(0, 0) =~= Seq::<(Seq<char>, Seq<u8>)>::empty());
            assert(out@ =~= spec_sanitize(self@.subrange(0, 0)));
        }
        while i < n
            invariant
                i <= n,
                n == self@.len(),
                out@ == spec_sanitize(self@.subrange(0, i as int)),
            decreases n - i,
        {
            proof {
                assert(self@.subrange(0, i + 1).drop_last() =~= self@.subrange(0, i as int));
                assert(self@.subrange(0, i + 1).last() == self@[i as int]);
            }
            let entry = self.headers.entry_at(i);
            if !is_reserved(entry.0.as_str()) {
                out.append(entry.0.as_str(), entry.1);
            }
            i = i + 1;
        }
        proof {
            assert(self@.subrange(0, n as int) =~= self@);
        }
        out
    }

    /// How many values the map holds, over all names.
    pub fn len(&self) -> (r: usize)
        ensures
            r == self@.len(),
    {
        self.headers.len()
    }

    /// How many distinct keys the map holds.
    pub fn keys_len(&self) -> (r: usize)
        ensures
            r == crate::headers::spec_distinct_names(self@),
    {
        self.headers.keys_len()
    }

    /// The key and raw value at one position, cloned out; with `len`,
    /// this walks the map entry by entry.
    pub fn entry_at(&self, i: usize) -> (r: (String, Vec<u8>))
        requires
            i < self@.len(),
        ensures
            (r.0@, r.1@) == self@[i as int],
    {
        self.headers.entry_at(i)
    }

    pub fn is_empty(&self) -> (r: bool)
        ensures
            r == (self@.len() == 0),
    {
        self.headers.is_empty()
    }

    pub fn clear(&mut self)
        ensures
            final(self)@ =~= Seq::<(Seq<char>, Seq<u8>)>::empty(),
    {
        self.headers.clear();
    }

    /// The first ASCII value under a key.
    pub fn get(&self, key: &str) -> (r: Option<AsciiMetadataValue>)
        ensures
            !Ascii::spec_is_valid_key(key@) ==> r is None,
            Ascii::spec_is_valid_key(key@) ==> (match r {
                Some(v) => spec_first_value(self@, key@) == Some(v@),
                None => spec_first_value(self@, key@) is None,
            }),
    {
        if !Ascii::is_valid_key(key) {
            return None;
        }
        match self.headers.get(key) {
            Some(v) => Some(MetadataValue::from_encoded(v)),
            None => None,
        }
    }

    /// The first binary value under a key.
    pub fn get_bin(&self, key: &str) -> (r: Option<BinaryMetadataValue>)
        ensures
            !Binary::spec_is_valid_key(key@) ==> r is None,
            Binary::spec_is_valid_key(key@) ==> (match r {
                Some(v) => spec_first_value(self@, key@) == Some(v@),
                None => spec_first_value(self@, key@) is None,
            }),
    {
        if !Binary::is_valid_key(key) {
            return None;
        }
        match self.headers.get(key) {
            Some(v) => Some(MetadataValue::from_encoded(v)),
            None => None,
        }
    }

    /// Every ASCII value under a key, in order.
    pub fn get_all(&self, key: &str) -> (r: Vec<AsciiMetadataValue>)
        ensures
            !Ascii::spec_is_valid_key(key@) ==> r@.len() == 0,
            Ascii::spec_is_valid_key(key@) ==> Seq::new(r@.len(), |k: int| r@[k]@)
                == crate::headers::spec_all_values(self@, key@),
    {
        if !Ascii::is_valid_key(key) {
            return Vec::new();
        }
        let raw = self.headers.get_all(key);
        wrap_values(raw)
    }

    /// Every binary value under a key, in order.
    pub fn get_all_bin(&self, key: &str) -> (r: Vec<BinaryMetadataValue>)
        ensures
            !Binary::spec_is_valid_key(key@) ==> r@.len() == 0,
            Binary::spec_is_valid_key(key@) ==> Seq::new(r@.len(), |k: int| r@[k]@)
                == crate::headers::spec_all_values(self@, key@),
    {
        if !Binary::is_valid_key(key) {
            return Vec::new();
        }
        let raw = self.headers.get_all(key);
        wrap_values(raw)
    }

    /// Whether any value stands under a key of either encoding.
    pub fn contains_key(&self, key: &str) -> (r: bool)
        ensures
            r == (crate::metadata::encoding::spec_is_valid_name(key@) && spec_has_name(
                self@,
                key@,
            )),
    {
        if !crate::metadata::encoding::is_valid_name(key) {
            return false;
        }
        self.headers.contains_name(key)
    }

    /// Replace everything under an ASCII key by one value; the first
    /// value the key had comes back.
    pub fn insert(&mut self, key: &str, val: AsciiMetadataValue) -> (r: Option<
        AsciiMetadataValue,
    >)
        requires
            Ascii::spec_is_valid_key(key@),
        ensures
            final(self)@ == spec_insert(old(self)@, key@, val@),
            match r {
                Some(v) => spec_first_value(old(self)@, key@) == Some(v@),
                None => spec_first_value(old(self)@, key@) is None,
            },
    {
        let stored = val.as_encoded_bytes();
        let prev = self.headers.insert(key, slice_to_vec(stored));
        match prev {
            Some(v) => Some(MetadataValue::from_encoded(v)),
            None => None,
        }
    }

    /// Replace everything under a binary key by one value.
    pub fn insert_bin(&mut self, key: &str, val: BinaryMetadataValue) -> (r: Option<
        BinaryMetadataValue,
    >)
        requires
            Binary::spec_is_valid_key(key@),
        ensures
            final(self)@ == spec_insert(old(self)@, key@, val@),
            match r {
                Some(v) => spec_first_value(old(self)@, key@) == Some(v@),
                None => spec_first_value(old(self)@, key@) is None,
            },
    {
        let stored = val.as_encoded_bytes();
        let prev = self.headers.insert(key, slice_to_vec(stored));
        match prev {
            Some(v) => Some(MetadataValue::from_encoded(v)),
            None => None,
        }
    }

    /// Add one more ASCII value under a key; says whether the key
    /// already had one.
    pub fn append(&mut self, key: &str, val: AsciiMetadataValue) -> (r: bool)
        requires
            Ascii::spec_is_valid_key(key@),
        ensures
            final(self)@ =~= old(self)@.push((key@, val@)),
            r == spec_has_name(old(self)@, key@),
    {
        let had = self.headers.contains_name(key);
        let stored = val.as_encoded_bytes();
        self.headers.append(key, slice_to_vec(stored));
        had
    }

    /// Add one more binary value under a key.
    pub fn append_bin(&mut self, key: &str, val: BinaryMetadataValue) -> (r: bool)
        requires
            Binary::spec_is_valid_key(key@),
        ensures
            final(self)@ =~= old(self)@.push((key@, val@)),
            r == spec_has_name(old(self)@, key@),
    {
        let had = self.headers.contains_name(key);
        let stored = val.as_encoded_bytes();
        self.headers.append(key, slice_to_vec(stored));
        had
    }

    /// Drop everything under an ASCII key; the first value dropped
    /// comes back.  A key the encoding refuses removes nothing.
    pub fn remove(&mut self, key: &str) -> (r: Option<AsciiMetadataValue>)
        ensures
            !Ascii::spec_is_valid_key(key@) ==> final(self)@ == old(self)@ && r is None,
            Ascii::spec_is_valid_key(key@) ==> final(self)@ == spec_remove_name(
                old(self)@,
                key@,
            ) && (match r {
                Some(v) => spec_first_value(old(self)@, key@) == Some(v@),
                None => spec_first_value(old(self)@, key@) is None,
            }),
    {
        if !Ascii::is_valid_key(key) {
            return None;
        }
        match self.headers.remove(key) {
            Some(v) => Some(MetadataValue::from_encoded(v)),
            None => None,
        }
    }

    /// Drop everything under a binary key.
    pub fn remove_bin(&mut self, key: &str) -> (r: Option<BinaryMetadataValue>)
        ensures
            !Binary::spec_is_valid_key(key@) ==> final(self)@ == old(self)@ && r is None,
            Binary::spec_is_valid_key(key@) ==> final(self)@ == spec_remove_name(
                old(self)@,
                key@,
            ) && (match r {
                Some(v) => spec_first_value(old(self)@, key@) == Some(v@),
                None => spec_first_value(old(self)@, key@) is None,
            }),
    {
        if !Binary::is_valid_key(key) {
            return None;
        }
        match self.headers.remove(key) {
            Some(v) => Some(MetadataValue::from_encoded(v)),
            None => None,
        }
    }

    /// Take every entry of another map, after this map's own.
    pub fn merge(&mut self, other: MetadataMap)
        ensures
            final(self)@ =~= old(self)@ + other@,
    {
        self.headers.extend(other.headers);
    }
}

fn wrap_values<VE: ValueEncoding>(raw: Vec<Vec<u8>>) -> (r: Vec<MetadataValue<VE>>)
    ensures
        r@.len() == raw@.len(),
        Seq::new(r@.len(), |k: int| r@[k]@) =~= Seq::new(raw@.len(), |k: int| raw@[k]@),
{
    let mut out: Vec<MetadataValue<VE>> = Vec::new();
    let n = raw.len();
    let mut i: usize = 0;
    while i < n
        invariant
            i <= n,
            n == raw@.len(),
            out@.len() == i,
            forall|k: int| 0 <= k < i ==> (#[trigger] out@[k])@ == raw@[k]@,
        decreases n - i,
    {
        out.push(MetadataValue::from_encoded(crate::headers::clone_bytes(&raw[i])));
        i = i + 1;
    }
    out
}

} // verus!
