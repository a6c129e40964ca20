//! Standard base64 without padding, as the status details travel on the
//! wire.
//!
//! Every three input bytes become four alphabet characters; a tail of one
//! or two bytes becomes two or three characters with the unused low bits
//! zero.  Decoding accepts exactly the sequences that encoding produces:
//! alphabet characters only, a length that is never 1 modulo 4, and zero
//! unused bits in the final character.

use vstd::prelude::*;

verus! {

/// The alphabet character for a six-bit value.
pub open spec fn spec_b64_char(x: int) -> u8 {
    if x < 26 {
        (0x41 + x) as u8
    } else if x < 52 {
        (0x61 + (x - 26)) as u8
    } else if x < 62 {
        (0x30 + (x - 52)) as u8
    } else if x == 62 {
        0x2b
    } else {
        0x2f
    }
}

/// Whether a byte is an alphabet character.
pub open spec fn spec_is_b64(b: u8) -> bool {
    (0x41 <= b <= 0x5a) || (0x61 <= b <= 0x7a) || (0x30 <= b <= 0x39) || b == 0x2b || b == 0x2f
}

/// The six-bit value of an alphabet character.
pub open spec fn spec_b64_val(b: u8) -> int {
    if 0x41 <= b <= 0x5a {
        b - 0x41
    } else if 0x61 <= b <= 0x7a {
        b - 0x61 + 26
    } else if 0x30 <= b <= 0x39 {
        b - 0x30 + 52
    } else if b == 0x2b {
        62
    } else {
        63
    }
}

/// The unpadded base64 encoding of a byte sequence.
pub open spec fn spec_base64_encode(s: Seq<u8>) -> Seq<u8>
    decreases s.len(),
{
    if s.len() == 0 {
        Seq::empty()
    } else if s.len() == 1 {
        let b0 = s[0] as int;
        seq![spec_b64_char(b0 / 4), spec_b64_char((b0 % 4) * 16)]
    } else if s.len() == 2 {
        let b0 = s[0] as int;
        let b1 = s[1] as int;
        seq![
            spec_b64_char(b0 / 4),
            spec_b64_char((b0 % 4) * 16 + b1 / 16),
            spec_b64_char((b1 % 16) * 4),
        ]
    } else {
        let b0 = s[0] as int;
        let b1 = s[1] as int;
        let b2 = s[2] as int;
        seq![
            spec_b64_char(b0 / 4),
            spec_b64_char((b0 % 4) * 16 + b1 / 16),
            spec_b64_char((b1 % 16) * 4 + b2 / 64),
            spec_b64_char(b2 % 64),
        ] + spec_base64_encode(s.skip(3))
    }
}

/// The sequences that decoding accepts.
pub open spec fn spec_base64_valid(s: Seq<u8>) -> bool {
    &&& s.len() % 4 != 1
    &&& (forall|i: int| 0 <= i < s.len() ==> spec_is_b64(s[i]))
    &&& (s.len() % 4 == 2 ==> spec_b64_val(s.last()) % 16 == 0)
    &&& (s.len() % 4 == 3 ==> spec_b64_val(s.last()) % 4 == 0)
}

/// The bytes that a sequence of alphabet characters stands for.
pub open spec fn spec_base64_decode(s: Seq<u8>) -> Seq<u8>
    decreases s.len(),
{
    if s.len() < 2 {
        Seq::empty()
    } else if s.len() == 2 {
        let v0 = spec_b64_val(s[0]);
        let v1 = spec_b64_val(s[1]);
        seq![(v0 * 4 + v1 / 16) as u8]
    } else if s.len() == 3 {
        let v0 = spec_b64_val(s[0]);
        let v1 = spec_b64_val(s[1]);
        let v2 = spec_b64_val(s[2]);
        seq![(v0 * 4 + v1 / 16) as u8, ((v1 % 16) * 16 + v2 / 4) as u8]
    } else {
        let v0 = spec_b64_val(s[0]);
        let v1 = spec_b64_val(s[1]);
        let v2 = spec_b64_val(s[2]);
        let v3 = spec_b64_val(s[3]);
        seq![
            (v0 * 4 + v1 / 16) as u8,
            ((v1 % 16) * 16 + v2 / 4) as u8,
            ((v2 % 4) * 64 + v3) as u8,
        ] + spec_base64_decode(s.skip(4))
    }
}

proof fn lemma_pack_div_mod(a: int, r: int, k: int)
    by (nonlinear_arith)
    requires
        0 <= r < k,
        0 <= a,
    ensures
        (a * k + r) / k == a,
        (a * k + r) % k == r,
{
}

/// How long an encoding is: four characters per full three-byte group,
/// two or three for a tail byte or two.
pub proof fn lemma_base64_encode_len(s: Seq<u8>)
    ensures
        s.len() % 3 == 0 ==> spec_base64_encode(s).len() == 4 * (s.len() / 3),
        s.len() % 3 == 1 ==> spec_base64_encode(s).len() == 4 * (s.len() / 3) + 2,
        s.len() % 3 == 2 ==> spec_base64_encode(s).len() == 4 * (s.len() / 3) + 3,
    decreases s.len(),
{
    if s.len() >= 3 {
        lemma_base64_encode_len(s.skip(3));
        assert(s.skip(3).len() == s.len() - 3);
    }
}

/// Encoding always produces a sequence that decoding accepts.
pub proof fn lemma_base64_encode_valid(s: Seq<u8>)
    ensures
        spec_base64_valid(spec_base64_encode(s)),
    decreases s.len(),
{
    let enc = spec_base64_encode(s);
    lemma_base64_encode_len(s);
    if s.len() == 0 {
    } else if s.len() == 1 {
        let b0 = s[0] as int;
        lemma_char_val(b0 / 4);
        lemma_char_val((b0 % 4) * 16);
        lemma_pack_div_mod(b0 % 4, 0, 16);
    } else if s.len() == 2 {
        let b0 = s[0] as int;
        let b1 = s[1] as int;
        lemma_char_val(b0 / 4);
        lemma_char_val((b0 % 4) * 16 + b1 / 16);
        lemma_char_val((b1 % 16) * 4);
        lemma_pack_div_mod(b1 % 16, 0, 4);
    } else {
        let b0 = s[0] as int;
        let b1 = s[1] as int;
        let b2 = s[2] as int;
        lemma_char_val(b0 / 4);
        lemma_char_val((b0 % 4) * 16 + b1 / 16);
        lemma_char_val((b1 % 16) * 4 + b2 / 64);
        lemma_char_val(b2 % 64);
        lemma_base64_encode_valid(s.skip(3));
        lemma_base64_encode_len(s.skip(3));
        let group = seq![
            spec_b64_char(b0 / 4),
            spec_b64_char((b0 % 4) * 16 + b1 / 16),
            spec_b64_char((b1 % 16) * 4 + b2 / 64),
            spec_b64_char(b2 % 64),
        ];
        let tail = spec_base64_encode(s.skip(3));
        assert(enc == group + tail);
        assert(enc.len() == 4 + tail.len());
        assert forall|i: int| 0 <= i < enc.len() implies spec_is_b64(enc[i]) by {
            if i < 4 {
                assert(enc[i] == group[i]);
            } else {
                assert(enc[i] == tail[i - 4]);
                assert(spec_base64_valid(tail));
            }
        }
        if tail.len() > 0 {
            assert(enc.last() == tail[tail.len() - 1]);
            assert(enc.last() == tail.last());
        }
    }
}

/// Decoding inverts encoding.
pub proof fn lemma_base64_round_trip(s: Seq<u8>)
    ensures
        spec_base64_decode(spec_base64_encode(s)) == s,
    decreases s.len(),
{
    let enc = spec_base64_encode(s);
    if s.len() == 0 {
    } else if s.len() == 1 {
        let b0 = s[0] as int;
        lemma_char_val(b0 / 4);
        lemma_char_val((b0 % 4) * 16);
        lemma_pack_div_mod(b0 % 4, 0, 16);
        assert(spec_b64_val(enc[1]) / 16 == b0 % 4);
        assert(spec_base64_decode(enc) =~= s);
    } else if s.len() == 2 {
        let b0 = s[0] as int;
        let b1 = s[1] as int;
        lemma_char_val(b0 / 4);
        lemma_char_val((b0 % 4) * 16 + b1 / 16);
        lemma_char_val((b1 % 16) * 4);
        lemma_pack_div_mod(b0 % 4, b1 / 16, 16);
        lemma_pack_div_mod(b1 % 16, 0, 4);
        assert(spec_b64_val(enc[1]) / 16 == b0 % 4);
        assert(spec_b64_val(enc[1]) % 16 == b1 / 16);
        assert(spec_b64_val(enc[2]) / 4 == b1 % 16);
        assert(spec_base64_decode(enc) =~= s);
    } else {
        let b0 = s[0] as int;
        let b1 = s[1] as int;
        let b2 = s[2] as int;
        lemma_char_val(b0 / 4);
        lemma_char_val((b0 % 4) * 16 + b1 / 16);
        lemma_char_val((b1 % 16) * 4 + b2 / 64);
        lemma_char_val(b2 % 64);
        lemma_pack_div_mod(b0 % 4, b1 / 16, 16);
        lemma_pack_div_mod(b1 % 16, b2 / 64, 4);
        lemma_base64_round_trip(s.skip(3));
        lemma_base64_encode_len(s.skip(3));
        assert(enc.len() >= 4);
        assert(spec_b64_val(enc[1]) / 16 == b0 % 4);
        assert(spec_b64_val(enc[1]) % 16 == b1 / 16);
        assert(spec_b64_val(enc[2]) / 4 == b1 % 16);
        assert(spec_b64_val(enc[2]) % 4 == b2 / 64);
        assert(spec_b64_val(enc[3]) == b2 % 64);
        assert(enc.skip(4) =~= spec_base64_encode(s.skip(3)));
        assert(spec_base64_decode(enc) == seq![
            (spec_b64_val(enc[0]) * 4 + spec_b64_val(enc[1]) / 16) as u8,
            ((spec_b64_val(enc[1]) % 16) * 16 + spec_b64_val(enc[2]) / 4) as u8,
            ((spec_b64_val(enc[2]) % 4) * 64 + spec_b64_val(enc[3])) as u8,
        ] + spec_base64_decode(enc.skip(4)));
        assert(spec_base64_decode(enc) =~= s);
    }
}

proof fn lemma_char_val(x: int)
    requires
        0 <= x < 64,
    ensures
        spec_is_b64(spec_b64_char(x)),
        spec_b64_val(spec_b64_char(x)) == x,
{
}

fn b64_char(x: u8) -> (r: u8)
    requires
        x < 64,
    ensures
        r == spec_b64_char(x as int),
{
    if x < 26 {
        0x41 + x
    } else if x < 52 {
        0x61 + (x - 26)
    } else if x < 62 {
        0x30 + (x - 52)
    } else if x == 62 {
        0x2b
    } else {
        0x2f
    }
}

fn is_b64(b: u8) -> (r: bool)
    ensures
        r == spec_is_b64(b),
{
    (0x41 <= b && b <= 0x5a) || (0x61 <= b && b <= 0x7a) || (0x30 <= b && b <= 0x39) || b == 0x2b
        || b == 0x2f
}

fn b64_val(b: u8) -> (r: u8)
    requires
        spec_is_b64(b),
    ensures
        r as int == spec_b64_val(b),
        r < 64,
{
    if 0x41 <= b && b <= 0x5a {
        b - 0x41
    } else if 0x61 <= b && b <= 0x7a {
        b - 0x61 + 26
    } else if 0x30 <= b && b <= 0x39 {
        b - 0x30 + 52
    } else if b == 0x2b {
        62
    } else {
        63
    }
}

/// Encode a byte sequence as unpadded base64.
pub fn base64_encode(src: &[u8]) -> (r: Vec<u8>)
    ensures
        r@ == spec_base64_encode(src@),
{
    let mut out: Vec<u8> = Vec::new();
    let mut i: usize = 0;
    proof {
        assert(src@.skip(0) =~= src@);
        assert(out@ + spec_base64_encode(src@) =~= spec_base64_encode(src@));
    }
    while src.len() - i >= 3
        invariant
            i <= src.len(),
            spec_base64_encode(src@) == out@ + spec_base64_encode(src@.skip(i as int)),
        decreases src.len() - i,
    {
        let ghost rest = src@.skip(i as int);
        let b0 = src[i];
        let b1 = src[i + 1];
        let b2 = src[i + 2];
        proof {
            assert(rest.len() >= 3);
            assert(rest[0] == src@[i as int] && rest[1] == src@[i + 1]);
            assert(rest[2] == src@[i + 2]);
            assert(rest.skip(3) =~= src@.skip(i + 3));
        }
        let ghost out_before = out@;
        out.push(b64_char(b0 / 4));
        out.push(b64_char((b0 % 4) * 16 + b1 / 16));
        out.push(b64_char((b1 % 16) * 4 + b2 / 64));
        out.push(b64_char(b2 % 64));
        proof {
            let group = seq![
                spec_b64_char(b0 as int / 4),
                spec_b64_char((b0 as int % 4) * 16 + b1 as int / 16),
                spec_b64_char((b1 as int % 16) * 4 + b2 as int / 64),
                spec_b64_char(b2 as int % 64),
            ];
            assert(out@ =~= out_before + group);
            assert(spec_base64_encode(rest) == group + spec_base64_encode(src@.skip(i + 3)));
            assert(out_before + (group + spec_base64_encode(src@.skip(i + 3))) =~= out@
                + spec_base64_encode(src@.skip(i + 3)));
        }
        i = i + 3;
    }
    let ghost rest = src@.skip(i as int);
    let ghost out_before = out@;
    if src.len() - i == 1 {
        let b0 = src[i];
        proof {
            assert(rest.len() == 1 && rest[0] == src@[i as int]);
        }
        out.push(b64_char(b0 / 4));
        out.push(b64_char((b0 % 4) * 16));
        proof {
            assert(out@ =~= out_before + spec_base64_encode(rest));
        }
    } else if src.len() - i == 2 {
        let b0 = src[i];
        let b1 = src[i + 1];
        proof {
            assert(rest.len() == 2 && rest[0] == src@[i as int] && rest[1] == src@[i + 1]);
        }
        out.push(b64_char(b0 / 4));
        out.push(b64_char((b0 % 4) * 16 + b1 / 16));
        out.push(b64_char((b1 % 16) * 4));
        proof {
            assert(out@ =~= out_before + spec_base64_encode(rest));
        }
    } else {
        proof {
            assert(rest.len() == 0);
            assert(out_before + spec_base64_encode(rest) =~= out@);
        }
    }
    out
}

/// Decode unpadded base64; `None` exactly on sequences that no encoding
/// produces.
pub fn base64_decode(src: &[u8]) -> (r: Option<Vec<u8>>)
    ensures
        r is Some <==> spec_base64_valid(src@),
        r is Some ==> r.unwrap()@ == spec_base64_decode(src@),
{
    if src.len() % 4 == 1 {
        return None;
    }
    let mut i: usize = 0;
    while i < src.len()
        invariant
            i <= src.len(),
            forall|j: int| 0 <= j < i ==> spec_is_b64(src@[j]),
        decreases src.len() - i,
    {
        if !is_b64(src[i]) {
            return None;
        }
        i = i + 1;
    }
    if src.len() % 4 == 2 {
        let last = b64_val(src[src.len() - 1]);
        if last % 16 != 0 {
            return None;
        }
    }
    if src.len() % 4 == 3 {
        let last = b64_val(src[src.len() - 1]);
        if last % 4 != 0 {
            return None;
        }
    }
    let mut out: Vec<u8> = Vec::new();
    let mut i: usize = 0;
    proof {
        assert(src@.skip(0) =~= src@);
        assert(out@ + spec_base64_decode(src@) =~= spec_base64_decode(src@));
    }
    while src.len() - i >= 4
        invariant
            i <= src.len(),
            forall|j: int| 0 <= j < src@.len() ==> spec_is_b64(src@[j]),
            spec_base64_decode(src@) == out@ + spec_base64_decode(src@.skip(i as int)),
        decreases src.len() - i,
    {
        let ghost rest = src@.skip(i as int);
        let v0 = b64_val(src[i]);
        let v1 = b64_val(src[i + 1]);
        let v2 = b64_val(src[i + 2]);
        let v3 = b64_val(src[i + 3]);
        proof {
            assert(rest.len() >= 4);
            assert(rest[0] == src@[i as int] && rest[1] == src@[i + 1] && rest[2] == src@[i + 2]
                && rest[3] == src@[i + 3]);
            assert(rest.skip(4) =~= src@.skip(i + 4));
        }
        let ghost out_before = out@;
        out.push(v0 * 4 + v1 / 16);
        out.push((v1 % 16) * 16 + v2 / 4);
        out.push((v2 % 4) * 64 + v3);
        proof {
            let group = seq![
                (spec_b64_val(rest[0]) * 4 + spec_b64_val(rest[1]) / 16) as u8,
                ((spec_b64_val(rest[1]) % 16) * 16 + spec_b64_val(rest[2]) / 4) as u8,
                ((spec_b64_val(rest[2]) % 4) * 64 + spec_b64_val(rest[3])) as u8,
            ];
            assert(out@ =~= out_before + group);
            assert(spec_base64_decode(rest) == group + spec_base64_decode(src@.skip(i + 4)));
            assert(out_before + (group + spec_base64_decode(src@.skip(i + 4))) =~= out@
                + spec_base64_decode(src@.skip(i + 4)));
        }
        i = i + 4;
    }
    let ghost rest = src@.skip(i as int);
    let ghost out_before = out@;
    if src.len() - i == 2 {
        let v0 = b64_val(src[i]);
        let v1 = b64_val(src[i + 1]);
        proof {
            assert(rest.len() == 2 && rest[0] == src@[i as int] && rest[1] == src@[i + 1]);
        }
        out.push(v0 * 4 + v1 / 16);
        proof {
            assert(out@ =~= out_before + spec_base64_decode(rest));
        }
    } else if src.len() - i == 3 {
        let v0 = b64_val(src[i]);
        let v1 = b64_val(src[i + 1]);
        let v2 = b64_val(src[i + 2]);
        proof {
            assert(rest.len() == 3 && rest[0] == src@[i as int] && rest[1] == src@[i + 1]
                && rest[2] == src@[i + 2]);
        }
        out.push(v0 * 4 + v1 / 16);
        out.push((v1 % 16) * 16 + v2 / 4);
        proof {
            assert(out@ =~= out_before + spec_base64_decode(rest));
        }
    } else {
        proof {
            assert(rest.len() < 2);
            assert(out_before + spec_base64_decode(rest) =~= out@);
        }
    }
    Some(out)
}

} // verus!
