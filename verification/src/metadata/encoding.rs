//! The two value encodings a metadata key selects between.
//!
//! A key is a lowercase token.  Keys for binary values end in `-bin`;
//! keys for ASCII values must not.

use vstd::prelude::*;

verus! {

/// Whether a character may stand in a metadata key: a lowercase RFC 7230
/// token character.
pub open spec fn spec_is_name_char(c: char) -> bool {
    let u = c as u32;
    (0x61 <= u <= 0x7a) || (0x30 <= u <= 0x39) || u == 0x2d || u == 0x5f || u == 0x2e || u
        == 0x21 || u == 0x23 || u == 0x24 || u == 0x25 || u == 0x26 || u == 0x27 || u == 0x2a
        || u == 0x2b || u == 0x5e || u == 0x60 || u == 0x7c || u == 0x7e
}

/// A non-empty run of key characters.
pub open spec fn spec_is_valid_name(name: Seq<char>) -> bool {
    name.len() > 0 && (forall|i: int| 0 <= i < name.len() ==> spec_is_name_char(#[trigger] name[i]))
}

/// Whether a name ends in the four characters `-bin`.
pub open spec fn spec_ends_bin(name: Seq<char>) -> bool {
    let n = name.len() as int;
    n >= 4 && name[n - 4] as u32 == 0x2d && name[n - 3] as u32 == 0x62 && name[n - 2] as u32
        == 0x69 && name[n - 1] as u32 == 0x6e
}

/// Whether a byte may stand in an ASCII metadata value: a tab, or
/// anything from space upward except delete.
pub open spec fn spec_is_value_byte(b: u8) -> bool {
    b == 0x09 || (0x20 <= b && b != 0x7f)
}

/// A non-empty run of key characters, checked one by one.
pub fn is_valid_name(s: &str) -> (r: bool)
    ensures
        r == spec_is_valid_name(s@),
{
    let n = s.unicode_len();
    if n == 0 {
        return false;
    }
    let mut i: usize = 0;
    while i < n
        invariant
            i <= n,
            n == s@.len(),
            forall|j: int| 0 <= j < i ==> spec_is_name_char(#[trigger] s@[j]),
        decreases n - i,
    {
        let u = s.get_char(i) as u32;
        let good = (0x61 <= u && u <= 0x7a) || (0x30 <= u && u <= 0x39) || u == 0x2d || u
            == 0x5f || u == 0x2e || u == 0x21 || u == 0x23 || u == 0x24 || u == 0x25 || u
            == 0x26 || u == 0x27 || u == 0x2a || u == 0x2b || u == 0x5e || u == 0x60 || u
            == 0x7c || u == 0x7e;
        if !good {
            return false;
        }
        i = i + 1;
    }
    true
}

/// Whether a string ends in `-bin`.
pub fn name_ends_bin(s: &str) -> (r: bool)
    ensures
        r == spec_ends_bin(s@),
{
    let n = s.unicode_len();
    if n < 4 {
        return false;
    }
    (s.get_char(n - 4) as u32 == 0x2d) && (s.get_char(n - 3) as u32 == 0x62) && (s.get_char(
        n - 2,
    ) as u32 == 0x69) && (s.get_char(n - 1) as u32 == 0x6e)
}

/// Marker for keys carrying ASCII text values.
#[derive(Clone, Copy, Debug, PartialEq, Eq)]
pub struct Ascii;

/// Marker for keys carrying binary values, base64-encoded on the wire.
#[derive(Clone, Copy, Debug, PartialEq, Eq)]
pub struct Binary;

/// A valid name is printable ASCII throughout.
pub proof fn lemma_valid_name_ascii(name: Seq<char>)
    requires
        spec_is_valid_name(name),
    ensures
        vstd::utf8::is_ascii_chars(name),
{
    assert forall|i: int| 0 <= i < name.len() implies '\0' <= #[trigger] name[i] <= '\u{7f}' by {
        assert(spec_is_name_char(name[i]));
        let u = name[i] as u32;
        vstd::utf8::char_u32_cast(name[i], u);
        assert(u <= 0x7e);
    }
}

/// What a key must look like for each value encoding.
pub trait ValueEncoding: Sized {
    spec fn spec_is_valid_key(name: Seq<char>) -> bool;

    fn is_valid_key(name: &str) -> (r: bool)
        ensures
            r == Self::spec_is_valid_key(name@),
    ;

    proof fn lemma_key_ascii(name: Seq<char>)
        requires
            Self::spec_is_valid_key(name),
        ensures
            vstd::utf8::is_ascii_chars(name),
    ;
}

impl ValueEncoding for Ascii {
    open spec fn spec_is_valid_key(name: Seq<char>) -> bool {
        spec_is_valid_name(name) && !spec_ends_bin(name)
    }

    fn is_valid_key(name: &str) -> (r: bool) {
        is_valid_name(name) && !name_ends_bin(name)
    }

    proof fn lemma_key_ascii(name: Seq<char>) {
        lemma_valid_name_ascii(name);
    }
}

impl ValueEncoding for Binary {
    open spec fn spec_is_valid_key(name: Seq<char>) -> bool {
        spec_is_valid_name(name) && spec_ends_bin(name)
    }

    fn is_valid_key(name: &str) -> (r: bool) {
        is_valid_name(name) && name_ends_bin(name)
    }

    proof fn lemma_key_ascii(name: Seq<char>) {
        lemma_valid_name_ascii(name);
    }
}

/// The error for a value that its encoding refuses.
#[derive(Debug)]
pub struct InvalidMetadataValue {
    _priv: (),
}

impl InvalidMetadataValue {
    pub fn new() -> (r: InvalidMetadataValue) {
        InvalidMetadataValue { _priv: () }
    }
}

/// The error for value bytes that their encoding refuses.
#[derive(Debug)]
pub struct InvalidMetadataValueBytes {
    _priv: (),
}

impl InvalidMetadataValueBytes {
    pub fn new() -> (r: InvalidMetadataValueBytes) {
        InvalidMetadataValueBytes { _priv: () }
    }
}

} // verus!
