//! Small string helpers: UTF-8 parsing of owned bytes, and decimal
//! rendering for diagnostics.

use vstd::prelude::*;
use vstd::utf8::*;

verus! {

/// Bytes below 0x80 are UTF-8 on their own and decode character for
/// character.
pub proof fn lemma_ascii_bytes_utf8(b: Seq<u8>)
    requires
        forall|i: int| 0 <= i < b.len() ==> b[i] < 0x80,
    ensures
        valid_utf8(b),
        decode_utf8(b).len() == b.len(),
        forall|i: int| 0 <= i < b.len() ==> (#[trigger] decode_utf8(b)[i]) as u32 == b[i] as u32,
    decreases b.len(),
{
    if b.len() > 0 {
        let b0 = b[0];
        assert((b0 & 0x7f) == b0) by (bit_vector)
            requires
                b0 < 0x80,
        ;
        assert(is_leading_byte_width_1(b0));
        assert(decode_first_codepoint(b) == b0 as u32);
        assert(length_of_first_codepoint(b) == 1);
        assert(valid_first_scalar(b));
        let rest = pop_first_scalar(b);
        assert(rest =~= b.skip(1));
        assert(forall|i: int| 0 <= i < rest.len() ==> rest[i] == b[i + 1]);
        lemma_ascii_bytes_utf8(rest);
        assert(valid_utf8(b));
        decode_utf8_first_scalar(b);
        let c = decode_first_scalar(b) as char;
        let cu = c as u32;
        char_is_scalar(c);
        assert(take_first_scalar(b) =~= seq![b0]);
        assert(encode_scalar(cu) == seq![b0]);
        if !has_width_1_encoding(cu) {
            assert(encode_scalar(cu).len() >= 2);
        }
        assert(has_width_1_encoding(cu));
        assert(leading_byte_width_1(cu) == b0);
        assert(cu == b0 as u32) by (bit_vector)
            requires
                cu <= 0x7f,
                ((cu & 0x7f) as u8) == b0,
        ;
        assert(decode_utf8(b) == seq![c] + decode_utf8(rest));
        assert forall|i: int| 0 <= i < b.len() implies (#[trigger] decode_utf8(b)[i]) as u32
            == b[i] as u32 by {
            if i == 0 {
                assert(decode_utf8(b)[0] == c);
            } else {
                assert(decode_utf8(b)[i] == decode_utf8(rest)[i - 1]);
            }
        }
    }
}

/// UTF-8 encoding introduces the byte of `%` only for the character `%`:
/// every byte of a multi-byte encoding has its high bit set.
pub proof fn lemma_encode_utf8_no_percent(chars: Seq<char>)
    requires
        forall|i: int| 0 <= i < chars.len() ==> (#[trigger] chars[i]) as u32 != 0x25,
    ensures
        forall|i: int|
            0 <= i < encode_utf8(chars).len() ==> #[trigger] encode_utf8(chars)[i] != 0x25,
    decreases chars.len(),
{
    if chars.len() > 0 {
        let c = chars[0];
        let cu = c as u32;
        char_is_scalar(c);
        let head = encode_scalar(cu);
        assert forall|i: int| 0 <= i < head.len() implies #[trigger] head[i] != 0x25 by {
            if has_width_1_encoding(cu) {
                assert((cu & 0x7f) as u8 != 0x25) by (bit_vector)
                    requires
                        cu <= 0x7f,
                        cu != 0x25,
                ;
            } else {
                assert((0xC0u8 | ((cu >> 6) & 0x1F) as u8) >= 0x80) by (bit_vector);
                assert((0xE0u8 | ((cu >> 12) & 0x0F) as u8) >= 0x80) by (bit_vector);
                assert((0xF0u8 | ((cu >> 18) & 0x7) as u8) >= 0x80) by (bit_vector);
                assert((0x80u8 | (cu & 0x3F) as u8) >= 0x80) by (bit_vector);
                assert((0x80u8 | ((cu >> 6) & 0x3F) as u8) >= 0x80) by (bit_vector);
                assert((0x80u8 | ((cu >> 12) & 0x3F) as u8) >= 0x80) by (bit_vector);
            }
        }
        let rest = chars.drop_first();
        assert(forall|i: int| 0 <= i < rest.len() ==> (#[trigger] rest[i]) as u32 != 0x25);
        lemma_encode_utf8_no_percent(rest);
        assert(encode_utf8(chars) == head + encode_utf8(rest));
        assert forall|i: int| 0 <= i < encode_utf8(chars).len() implies #[trigger] encode_utf8(
            chars,
        )[i] != 0x25 by {
            if i < head.len() {
                assert(encode_utf8(chars)[i] == head[i]);
            } else {
                assert(encode_utf8(chars)[i] == encode_utf8(rest)[i - head.len()]);
            }
        }
    }
}

/// Relies on String::from_utf8: it succeeds exactly on well-formed UTF-8
/// and returns the string those bytes spell.
#[verifier::external_body]
pub fn string_from_utf8(bytes: Vec<u8>) -> (r: Option<String>)
    ensures
        r is Some <==> vstd::utf8::valid_utf8(bytes@),
        r is Some ==> r.unwrap()@ == vstd::utf8::decode_utf8(bytes@),
{
    String::from_utf8(bytes).ok()
}

/// The decimal digits of a number, most significant first.
pub open spec fn spec_decimal(n: int) -> Seq<char>
    decreases n,
{
    if n < 0 {
        Seq::empty()
    } else if n < 10 {
        seq![spec_digit_char(n)]
    } else {
        spec_decimal(n / 10).push(spec_digit_char(n % 10))
    }
}

/// The character for one decimal digit.
pub open spec fn spec_digit_char(d: int) -> char {
    if d == 0 {
        '0'
    } else if d == 1 {
        '1'
    } else if d == 2 {
        '2'
    } else if d == 3 {
        '3'
    } else if d == 4 {
        '4'
    } else if d == 5 {
        '5'
    } else if d == 6 {
        '6'
    } else if d == 7 {
        '7'
    } else if d == 8 {
        '8'
    } else {
        '9'
    }
}

fn digit_str(d: u16) -> (r: &'static str)
    requires
        d < 10,
    ensures
        r@ =~= seq![spec_digit_char(d as int)],
{
    proof {
        reveal_strlit("0");
        reveal_strlit("1");
        reveal_strlit("2");
        reveal_strlit("3");
        reveal_strlit("4");
        reveal_strlit("5");
        reveal_strlit("6");
        reveal_strlit("7");
        reveal_strlit("8");
        reveal_strlit("9");
    }
    match d {
        0 => "0",
        1 => "1",
        2 => "2",
        3 => "3",
        4 => "4",
        5 => "5",
        6 => "6",
        7 => "7",
        8 => "8",
        _ => "9",
    }
}

/// A number written in decimal.
pub fn u16_decimal(n: u16) -> (r: String)
    ensures
        r@ == spec_decimal(n as int),
    decreases n,
{
    if n < 10 {
        let mut s = String::new();
        s.append(digit_str(n));
        proof {
            assert(s@ =~= spec_decimal(n as int));
        }
        s
    } else {
        let mut s = u16_decimal(n / 10);
        s.append(digit_str(n % 10));
        proof {
            assert(s@ =~= spec_decimal(n as int));
        }
        s
    }
}

} // verus!
