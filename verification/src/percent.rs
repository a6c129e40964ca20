//! Percent-encoding of header bytes.
//!
//! The escape set covers the ASCII controls (0x00..0x1f and 0x7f) plus
//! space, `"`, `#`, `<`, `>`, backquote, `?`, `{` and `}`.  Decoding turns
//! every `%` followed by two hex digits back into a byte and passes any
//! other byte through unchanged.

use vstd::prelude::*;

verus! {

/// Bytes that the wire encoding escapes.
pub open spec fn spec_needs_escape(b: u8) -> bool {
    b < 0x20 || b == 0x7f || b == 0x20 || b == 0x22 || b == 0x23 || b == 0x3c || b == 0x3e
        || b == 0x60 || b == 0x3f || b == 0x7b || b == 0x7d
}

/// The uppercase hex digit for a value below 16.
pub open spec fn spec_hex_digit(x: int) -> u8 {
    if x < 10 {
        (0x30 + x) as u8
    } else {
        (0x37 + x) as u8
    }
}

/// How one byte appears once encoded.
pub open spec fn spec_escape_byte(b: u8) -> Seq<u8> {
    if spec_needs_escape(b) {
        seq![0x25u8, spec_hex_digit(b as int / 16), spec_hex_digit(b as int % 16)]
    } else {
        seq![b]
    }
}

/// The percent-encoded form of a byte sequence.
pub open spec fn spec_percent_encode(s: Seq<u8>) -> Seq<u8>
    decreases s.len(),
{
    if s.len() == 0 {
        Seq::empty()
    } else {
        spec_escape_byte(s.first()) + spec_percent_encode(s.drop_first())
    }
}

/// Whether a byte is an ASCII hex digit, either case.
pub open spec fn spec_is_hex(b: u8) -> bool {
    (0x30 <= b <= 0x39) || (0x41 <= b <= 0x46) || (0x61 <= b <= 0x66)
}

/// The value of an ASCII hex digit.
pub open spec fn spec_hex_val(b: u8) -> int {
    if 0x30 <= b <= 0x39 {
        b - 0x30
    } else if 0x41 <= b <= 0x46 {
        b - 0x37
    } else {
        b - 0x57
    }
}

/// The percent-decoded form of a byte sequence.
pub open spec fn spec_percent_decode(s: Seq<u8>) -> Seq<u8>
    decreases s.len(),
{
    if s.len() == 0 {
        Seq::empty()
    } else if s.first() == 0x25 && s.len() >= 3 && spec_is_hex(s[1]) && spec_is_hex(s[2]) {
        seq![(spec_hex_val(s[1]) * 16 + spec_hex_val(s[2])) as u8] + spec_percent_decode(s.skip(3))
    } else {
        seq![s.first()] + spec_percent_decode(s.drop_first())
    }
}

proof fn lemma_encode_snoc(s: Seq<u8>, b: u8)
    ensures
        spec_percent_encode(s.push(b)) == spec_percent_encode(s) + spec_escape_byte(b),
    decreases s.len(),
{
    if s.len() == 0 {
        assert(s.push(b).len() == 1);
        assert(s.push(b).first() == b);
        assert(s.push(b).drop_first() =~= Seq::<u8>::empty());
        assert(spec_percent_encode(s.push(b)) == spec_escape_byte(b)
            + spec_percent_encode(Seq::<u8>::empty()));
        assert(spec_escape_byte(b) + spec_percent_encode(Seq::<u8>::empty())
            =~= spec_escape_byte(b));
        assert(spec_percent_encode(s) + spec_escape_byte(b) =~= spec_escape_byte(b));
    } else {
        assert(s.push(b).drop_first() =~= s.drop_first().push(b));
        lemma_encode_snoc(s.drop_first(), b);
        assert(spec_percent_encode(s.push(b)) == spec_escape_byte(s.first())
            + (spec_percent_encode(s.drop_first()) + spec_escape_byte(b)));
        assert(spec_escape_byte(s.first()) + (spec_percent_encode(s.drop_first())
            + spec_escape_byte(b)) =~= (spec_escape_byte(s.first())
            + spec_percent_encode(s.drop_first())) + spec_escape_byte(b));
    }
}

fn hex_digit(x: u8) -> (r: u8)
    requires
        x < 16,
    ensures
        r == spec_hex_digit(x as int),
{
    if x < 10 {
        0x30 + x
    } else {
        0x37 + x
    }
}

/// Percent-encode a byte sequence with the wire escape set.
pub fn percent_encode(src: &[u8]) -> (r: Vec<u8>)
    ensures
        r@ == spec_percent_encode(src@),
{
    let mut out: Vec<u8> = Vec::new();
    let mut i: usize = 0;
    while i < src.len()
        invariant
            i <= src.len(),
            out@ == spec_percent_encode(src@.subrange(0, i as int)),
        decreases src.len() - i,
    {
        let b = src[i];
        proof {
            assert(src@.subrange(0, i + 1) =~= src@.subrange(0, i as int).push(b));
            lemma_encode_snoc(src@.subrange(0, i as int), b);
        }
        if b < 0x20 || b == 0x7f || b == 0x20 || b == 0x22 || b == 0x23 || b == 0x3c || b == 0x3e
            || b == 0x60 || b == 0x3f || b == 0x7b || b == 0x7d {
            out.push(0x25);
            out.push(hex_digit(b / 16));
            out.push(hex_digit(b % 16));
        } else {
            out.push(b);
        }
        i = i + 1;
    }
    proof {
        assert(src@.subrange(0, src@.len() as int) =~= src@);
    }
    out
}

fn is_hex(b: u8) -> (r: bool)
    ensures
        r == spec_is_hex(b),
{
    (0x30 <= b && b <= 0x39) || (0x41 <= b && b <= 0x46) || (0x61 <= b && b <= 0x66)
}

fn hex_val(b: u8) -> (r: u8)
    requires
        spec_is_hex(b),
    ensures
        r as int == spec_hex_val(b),
        r < 16,
{
    if 0x30 <= b && b <= 0x39 {
        b - 0x30
    } else if 0x41 <= b && b <= 0x46 {
        b - 0x37
    } else {
        b - 0x57
    }
}

/// Percent-decode a byte sequence.  Decoding never fails: a `%` that is
/// not followed by two hex digits stands for itself.
pub fn percent_decode(src: &[u8]) -> (r: Vec<u8>)
    ensures
        r@ == spec_percent_decode(src@),
{
    let mut out: Vec<u8> = Vec::new();
    let mut i: usize = 0;
    proof {
        assert(src@.skip(0) =~= src@);
        assert(out@ + spec_percent_decode(src@) =~= spec_percent_decode(src@));
    }
    while i < src.len()
        invariant
            i <= src.len(),
            spec_percent_decode(src@) == out@ + spec_percent_decode(src@.skip(i as int)),
        decreases src.len() - i,
    {
        let ghost rest = src@.skip(i as int);
        proof {
            assert(rest.first() == src@[i as int]);
            assert(rest.len() == src@.len() - i);
        }
        let b = src[i];
        if b == 0x25 && src.len() - i >= 3 && is_hex(src[i + 1]) && is_hex(src[i + 2]) {
            proof {
                assert(rest[1] == src@[i + 1]);
                assert(rest[2] == src@[i + 2]);
                assert(rest.skip(3) =~= src@.skip(i + 3));
                assert(spec_percent_decode(rest) == seq![
                    (spec_hex_val(rest[1]) * 16 + spec_hex_val(rest[2])) as u8,
                ] + spec_percent_decode(src@.skip(i + 3)));
            }
            let ghost out_before = out@;
            let v = hex_val(src[i + 1]) * 16 + hex_val(src[i + 2]);
            out.push(v);
            proof {
                assert(v as int == spec_hex_val(rest[1]) * 16 + spec_hex_val(rest[2]));
                assert(out_before + (seq![v] + spec_percent_decode(src@.skip(i + 3)))
                    =~= out@ + spec_percent_decode(src@.skip(i + 3)));
            }
            i = i + 3;
        } else {
            proof {
                assert(spec_percent_decode(rest) == seq![rest.first()]
                    + spec_percent_decode(rest.drop_first()));
                assert(rest.drop_first() =~= src@.skip(i + 1));
            }
            let ghost out_before = out@;
            out.push(b);
            proof {
                assert(out_before + (seq![b] + spec_percent_decode(src@.skip(i + 1)))
                    =~= out@ + spec_percent_decode(src@.skip(i + 1)));
            }
            i = i + 1;
        }
    }
    proof {
        assert(src@.skip(src@.len() as int) =~= Seq::<u8>::empty());
        assert(out@ + spec_percent_decode(src@.skip(src@.len() as int)) =~= out@);
    }
    out
}

/// Decoding inverts encoding on any sequence without a literal `%`.
///
/// A literal `%` is not escaped, so a message such as `%41` re-decodes
/// to a different byte sequence; such inputs are left out.
pub proof fn lemma_percent_round_trip(s: Seq<u8>)
    requires
        forall|i: int| 0 <= i < s.len() ==> s[i] != 0x25,
    ensures
        spec_percent_decode(spec_percent_encode(s)) == s,
    decreases s.len(),
{
    if s.len() == 0 {
    } else {
        let b = s.first();
        let rest = s.drop_first();
        assert(forall|i: int| 0 <= i < rest.len() ==> rest[i] == s[i + 1] && rest[i] != 0x25);
        lemma_percent_round_trip(rest);
        let enc = spec_percent_encode(s);
        assert(enc == spec_escape_byte(b) + spec_percent_encode(rest));
        if spec_needs_escape(b) {
            let h1 = spec_hex_digit(b as int / 16);
            let h2 = spec_hex_digit(b as int % 16);
            assert(spec_is_hex(h1) && spec_is_hex(h2));
            assert(spec_hex_val(h1) == b as int / 16);
            assert(spec_hex_val(h2) == b as int % 16);
            assert(enc.first() == 0x25);
            assert(enc[1] == h1 && enc[2] == h2);
            assert(enc.len() >= 3);
            assert(enc.skip(3) =~= spec_percent_encode(rest));
            assert(spec_hex_val(h1) * 16 + spec_hex_val(h2) == b as int);
            assert(spec_percent_decode(enc) == seq![b] + spec_percent_decode(
                spec_percent_encode(rest),
            ));
            assert(seq![b] + rest =~= s);
        } else {
            assert(b != 0x25);
            assert(enc.first() == b);
            assert(spec_percent_decode(enc) == seq![b] + spec_percent_decode(enc.drop_first()));
            assert(enc.drop_first() =~= spec_percent_encode(rest));
            assert(seq![b] + rest =~= s);
        }
    }
}

} // verus!
