//! String decisions of the generator: paths, casing, attribute
//! matching, and message-type resolution.

use vstd::prelude::*;
use vstd::string::StringSliceAdditionalSpecFns;
use vstd::utf8::{decode_utf8_encode_utf8, is_ascii_chars_encode_utf8};

use crate::headers::StrEqExt;
use crate::strutil::{lemma_ascii_bytes_utf8, string_from_utf8};

verus! {

/// Whether one character sequence starts another.
pub open spec fn spec_has_prefix(s: Seq<char>, p: Seq<char>) -> bool {
    p.len() <= s.len() && s.subrange(0, p.len() as int) == p
}

/// Whether one character sequence ends another.
pub open spec fn spec_has_suffix(s: Seq<char>, p: Seq<char>) -> bool {
    p.len() <= s.len() && s.subrange(s.len() - p.len(), s.len() as int) == p
}

fn char_eq(a: char, b: char) -> (r: bool)
    ensures
        r == (a == b),
{
    proof {
        vstd::utf8::char_u32_cast(a, a as u32);
        vstd::utf8::char_u32_cast(b, b as u32);
    }
    (a as u32) == (b as u32)
}

/// Whether a string starts with another, character by character.
pub fn has_prefix(s: &str, p: &str) -> (r: bool)
    ensures
        r == spec_has_prefix(s@, p@),
{
    let pn = p.unicode_len();
    let sn = s.unicode_len();
    if pn > sn {
        return false;
    }
    let mut i: usize = 0;
    while i < pn
        invariant
            i <= pn,
            pn <= sn,
            pn == p@.len(),
            sn == s@.len(),
            forall|j: int| 0 <= j < i ==> s@[j] == p@[j],
        decreases pn - i,
    {
        if !char_eq(s.get_char(i), p.get_char(i)) {
            proof {
                assert(s@.subrange(0, p@.len() as int)[i as int] == s@[i as int]);
            }
            return false;
        }
        i = i + 1;
    }
    proof {
        assert(s@.subrange(0, p@.len() as int) =~= p@);
    }
    true
}

/// Whether a string ends with another, character by character.
pub fn has_suffix(s: &str, p: &str) -> (r: bool)
    ensures
        r == spec_has_suffix(s@, p@),
{
    let pn = p.unicode_len();
    let sn = s.unicode_len();
    if pn > sn {
        return false;
    }
    let off = sn - pn;
    let mut i: usize = 0;
    while i < pn
        invariant
            i <= pn,
            pn <= sn,
            off == sn - pn,
            pn == p@.len(),
            sn == s@.len(),
            forall|j: int| 0 <= j < i ==> s@[off + j] == p@[j],
        decreases pn - i,
    {
        if !char_eq(s.get_char(off + i), p.get_char(i)) {
            proof {
                let ghost k = off + i;
                assert(s@.subrange(s@.len() - p@.len(), s@.len() as int)[i as int] == s@[k as int]);
            }
            return false;
        }
        i = i + 1;
    }
    proof {
        assert(s@.subrange(s@.len() - p@.len(), s@.len() as int) =~= p@);
    }
    true
}

/// The attribute-pattern match: an empty pattern matches nothing, a
/// lone dot or the path itself matches, a pattern anchored by a
/// leading dot must lead the path segment for segment, and any other
/// pattern must close it segment for segment.
pub open spec fn spec_match_name(pattern: Seq<char>, path: Seq<char>) -> bool {
    if pattern.len() == 0 {
        false
    } else if pattern == "."@ || pattern == path {
        true
    } else if pattern.first() == '.' {
        spec_has_prefix(path, pattern) && (pattern.len() == path.len() || path[pattern.len() as int]
            == '.')
    } else {
        spec_has_suffix(path, pattern) && (pattern.len() == path.len() || path[path.len()
            - pattern.len() - 1] == '.')
    }
}

/// Decide whether an attribute pattern names a path.
pub fn match_name(pattern: &str, path: &str) -> (r: bool)
    ensures
        r == spec_match_name(pattern@, path@),
{
    let pn = pattern.unicode_len();
    let n = path.unicode_len();
    if pn == 0 {
        return false;
    }
    if pattern.eq_str(".") || pattern.eq_str(path) {
        return true;
    }
    if char_eq(pattern.get_char(0), '.') {
        has_prefix(path, pattern) && (pn == n || char_eq(path.get_char(pn), '.'))
    } else {
        has_suffix(path, pattern) && (pn == n || char_eq(path.get_char(n - pn - 1), '.'))
    }
}

/// Whether a byte is an ASCII capital.
pub open spec fn spec_is_upper_byte(b: u8) -> bool {
    0x41 <= b <= 0x5a
}

/// The byte lowercased, if it is an ASCII capital.
pub open spec fn spec_lower_byte(b: u8) -> u8 {
    if spec_is_upper_byte(b) {
        (b + 0x20) as u8
    } else {
        b
    }
}

/// Snake casing over bytes: each byte lowercased, with an underscore
/// before every capital that follows another character.
pub open spec fn spec_snake_bytes(s: Seq<u8>) -> Seq<u8>
    decreases s.len(),
{
    if s.len() == 0 {
        Seq::empty()
    } else {
        let sep: Seq<u8> = if s.len() >= 2 && spec_is_upper_byte(s[1]) {
            seq![0x5fu8]
        } else {
            Seq::empty()
        };
        seq![spec_lower_byte(s[0])] + sep + spec_snake_bytes(s.drop_first())
    }
}

/// The generator's casing for module names.  An ASCII name is snake
/// cased byte for byte; any other name passes through unchanged.
pub fn naive_snake_case(name: &str) -> (r: String)
    ensures
        name.is_ascii() ==> vstd::utf8::encode_utf8(r@) == spec_snake_bytes(name.spec_bytes()),
        !name.is_ascii() ==> r@ == name@,
{
    if !name.is_ascii() {
        return name.to_owned();
    }
    proof {
        is_ascii_chars_encode_utf8(name@);
    }
    let bytes = name.as_bytes_vec();
    let n = bytes.len();
    let mut out: Vec<u8> = Vec::new();
    let mut i: usize = 0;
    proof {
        assert(bytes@.skip(0) =~= bytes@);
        assert(out@ + spec_snake_bytes(bytes@) =~= spec_snake_bytes(bytes@));
    }
    while i < n
        invariant
            i <= n,
            n == bytes@.len(),
            bytes@ == name.spec_bytes(),
            forall|j: int| 0 <= j < bytes@.len() ==> bytes@[j] < 0x80,
            forall|j: int| 0 <= j < out@.len() ==> out@[j] < 0x80,
            spec_snake_bytes(bytes@) == out@ + spec_snake_bytes(bytes@.skip(i as int)),
        decreases n - i,
    {
        let ghost rest = bytes@.skip(i as int);
        let b = bytes[i];
        proof {
            assert(rest[0] == bytes@[i as int]);
            assert(rest.len() == bytes@.len() - i);
            if rest.len() >= 2 {
                assert(rest[1] == bytes@[i + 1]);
            }
            assert(rest.drop_first() =~= bytes@.skip(i + 1));
        }
        let ghost out_before = out@;
        let low = if 0x41 <= b && b <= 0x5a {
            b + 0x20
        } else {
            b
        };
        out.push(low);
        if i + 1 < n && 0x41 <= bytes[i + 1] && bytes[i + 1] <= 0x5a {
            out.push(0x5f);
            proof {
                assert(out_before + (seq![spec_lower_byte(rest[0])] + seq![0x5fu8]
                    + spec_snake_bytes(bytes@.skip(i + 1))) =~= out@ + spec_snake_bytes(
                    bytes@.skip(i + 1),
                ));
            }
        } else {
            proof {
                assert(seq![spec_lower_byte(rest[0])] + Seq::<u8>::empty() + spec_snake_bytes(
                    bytes@.skip(i + 1),
                ) =~= seq![spec_lower_byte(rest[0])] + spec_snake_bytes(bytes@.skip(i + 1)));
                assert(out_before + (seq![spec_lower_byte(rest[0])] + spec_snake_bytes(
                    bytes@.skip(i + 1),
                )) =~= out@ + spec_snake_bytes(bytes@.skip(i + 1)));
            }
        }
        i = i + 1;
    }
    proof {
        assert(bytes@.skip(n as int) =~= Seq::<u8>::empty());
        assert(out@ + spec_snake_bytes(bytes@.skip(n as int)) =~= out@);
        lemma_ascii_bytes_utf8(out@);
    }
    let ghost outv = out@;
    match string_from_utf8(out) {
        Some(s) => {
            proof {
                decode_utf8_encode_utf8(outv);
            }
            s
        },
        None => name.to_owned(),
    }
}

/// The path of one method on the wire: `/package.Service/Method`, with
/// the package segment left out when the package is empty.
pub open spec fn spec_method_path(package: Seq<char>, service: Seq<char>, method: Seq<char>)
    -> Seq<char> {
    if package.len() == 0 {
        "/"@ + service + "/"@ + method
    } else {
        "/"@ + package + "."@ + service + "/"@ + method
    }
}

/// Build the request path the generated client dials for one method.
pub fn method_path(package: &str, service: &str, method: &str) -> (r: String)
    ensures
        r@ == spec_method_path(package@, service@, method@),
{
    let mut s: String = ("/").to_owned();
    if package.unicode_len() != 0 {
        s.append(package);
        s.append(".");
    }
    s.append(service);
    s.append("/");
    s.append(method);
    s
}

/// The dotted name attributes are matched against: `package.Service`,
/// or the bare service name when the package is empty.
pub open spec fn spec_service_full_name(package: Seq<char>, service: Seq<char>) -> Seq<char> {
    if package.len() == 0 {
        service
    } else {
        package + "."@ + service
    }
}

pub fn service_full_name(package: &str, service: &str) -> (r: String)
    ensures
        r@ == spec_service_full_name(package@, service@),
{
    if package.unicode_len() == 0 {
        return service.to_owned();
    }
    let mut s: String = package.to_owned();
    s.append(".");
    s.append(service);
    s
}

/// Whether a protobuf type name lives under `.google.protobuf`.
pub fn is_google_type(ty: &str) -> (r: bool)
    ensures
        r == spec_has_prefix(ty@, ".google.protobuf"@),
{
    has_prefix(ty, ".google.protobuf")
}

/// Where a message type is found from generated code: well-known and
/// pre-qualified names stand as written, anything else lives under the
/// configured proto path.
pub open spec fn spec_resolved_type(
    proto_path: Seq<char>,
    message_type: Seq<char>,
    proto_type: Seq<char>,
    compile_well_known_types: bool,
) -> Seq<char> {
    if (spec_has_prefix(proto_type, ".google.protobuf"@) && !compile_well_known_types)
        || spec_has_prefix(message_type, "::"@) {
        message_type
    } else if spec_has_prefix(message_type, "crate::"@) {
        message_type
    } else {
        proto_path + "::"@ + message_type
    }
}

/// Resolve the language-level name of a request or response type.
pub fn resolve_message_type(
    proto_path: &str,
    message_type: &str,
    proto_type: &str,
    compile_well_known_types: bool,
) -> (r: String)
    ensures
        r@ == spec_resolved_type(
            proto_path@,
            message_type@,
            proto_type@,
            compile_well_known_types,
        ),
{
    if (is_google_type(proto_type) && !compile_well_known_types) || has_prefix(
        message_type,
        "::",
    ) {
        return message_type.to_owned();
    }
    if has_prefix(message_type, "crate::") {
        return message_type.to_owned();
    }
    let mut s: String = proto_path.to_owned();
    s.append("::");
    s.append(message_type);
    s
}

/// Which attributes stand above a matched name, in order.
pub open spec fn spec_matched_attributes(
    attrs: Seq<(Seq<char>, Seq<char>)>,
    name: Seq<char>,
) -> Seq<Seq<char>>
    decreases attrs.len(),
{
    if attrs.len() == 0 {
        Seq::empty()
    } else {
        let rest = spec_matched_attributes(attrs.drop_last(), name);
        if spec_match_name(attrs.last().0, name) {
            rest.push(attrs.last().1)
        } else {
            rest
        }
    }
}

/// The attribute patterns a generation run was given: patterns over
/// module names and over struct paths.
#[derive(Clone, Debug)]
pub struct Attributes {
    module: Vec<(String, String)>,
    structure: Vec<(String, String)>,
}

impl Attributes {
    pub closed spec fn spec_module(&self) -> Seq<(Seq<char>, Seq<char>)> {
        Seq::new(self.module@.len(), |i: int| (self.module@[i].0@, self.module@[i].1@))
    }

    pub closed spec fn spec_structure(&self) -> Seq<(Seq<char>, Seq<char>)> {
        Seq::new(self.structure@.len(), |i: int| (self.structure@[i].0@, self.structure@[i].1@))
    }

    /// Remember an attribute for modules whose name matches a pattern.
    pub fn push_mod(&mut self, pattern: &str, attr: &str)
        ensures
            final(self).spec_module() =~= old(self).spec_module().push((pattern@, attr@)),
            final(self).spec_structure() == old(self).spec_structure(),
    {
        self.module.push((pattern.to_owned(), attr.to_owned()));
    }

    /// Remember an attribute for structs whose path matches a pattern.
    pub fn push_struct(&mut self, pattern: &str, attr: &str)
        ensures
            final(self).spec_structure() =~= old(self).spec_structure().push((pattern@, attr@)),
            final(self).spec_module() == old(self).spec_module(),
    {
        self.structure.push((pattern.to_owned(), attr.to_owned()));
    }

    /// The attributes to write above a module.
    pub fn for_mod(&self, name: &str) -> (r: Vec<String>)
        ensures
            Seq::new(r@.len(), |i: int| r@[i]@) == spec_matched_attributes(
                self.spec_module(),
                name@,
            ),
    {
        matched_attributes(&self.module, name)
    }

    /// The attributes to write above a struct.
    pub fn for_struct(&self, name: &str) -> (r: Vec<String>)
        ensures
            Seq::new(r@.len(), |i: int| r@[i]@) == spec_matched_attributes(
                self.spec_structure(),
                name@,
            ),
    {
        matched_attributes(&self.structure, name)
    }
}

impl Default for Attributes {
    /// No patterns at all.
    fn default() -> (r: Attributes)
        ensures
            r.spec_module() =~= Seq::<(Seq<char>, Seq<char>)>::empty(),
            r.spec_structure() =~= Seq::<(Seq<char>, Seq<char>)>::empty(),
    {
        Attributes { module: Vec::new(), structure: Vec::new() }
    }
}

fn matched_attributes(attrs: &Vec<(String, String)>, name: &str) -> (r: Vec<String>)
    ensures
        Seq::new(r@.len(), |i: int| r@[i]@) == spec_matched_attributes(
            Seq::new(attrs@.len(), |i: int| (attrs@[i].0@, attrs@[i].1@)),
            name@,
        ),
{
    let ghost aseq = Seq::new(attrs@.len(), |i: int| (attrs@[i].0@, attrs@[i].1@));
    let n = attrs.len();
    let mut out: Vec<String> = Vec::new();
    let mut i: usize = 0;
    proof {
        assert(aseq.subrange(0, 0) =~= Seq::<(Seq<char>, Seq<char>)>::empty());
        assert(Seq::new(out@.len(), |k: int| out@[k]@) =~= spec_matched_attributes(
            aseq.subrange(0, 0),
            name@,
        ));
    }
    while i < n
        invariant
            i <= n,
            n == aseq.len(),
            n == attrs@.len(),
            aseq == Seq::new(attrs@.len(), |k: int| (attrs@[k].0@, attrs@[k].1@)),
            Seq::new(out@.len(), |k: int| out@[k]@) == spec_matched_attributes(
                aseq.subrange(0, i as int),
                name@,
            ),
        decreases n - i,
    {
        proof {
            assert(aseq.subrange(0, i + 1).drop_last() =~= aseq.subrange(0, i as int));
            assert(aseq.subrange(0, i + 1).last() == aseq[i as int]);
        }
        let ghost outseq = Seq::new(out@.len(), |k: int| out@[k]@);
        if match_name(attrs[i].0.as_str(), name) {
            out.push(attrs[i].1.clone());
            proof {
                assert(Seq::new(out@.len(), |k: int| out@[k]@) =~= outseq.push(
                    aseq[i as int].1,
                ));
            }
        }
        i = i + 1;
    }
    proof {
        assert(aseq.subrange(0, n as int) =~= aseq);
    }
    out
}

} // verus!
