//! The failure descriptor every call can end with, and its wire form:
//! `grpc-status` carries the decimal code, `grpc-message` the
//! percent-encoded text, `grpc-status-details-bin` the base64 details,
//! and the remaining headers the status metadata.

use vstd::prelude::*;
use vstd::utf8::{decode_utf8, encode_utf8, valid_utf8};

use crate::base64::{base64_decode, base64_encode, spec_base64_decode, spec_base64_encode,
    spec_base64_valid};
use crate::headers::{spec_first_value, spec_has_name, spec_insert, spec_remove_name, HeaderMap,
    HeaderSeq};
use crate::metadata::map::{spec_reserved, spec_sanitize};
use crate::metadata::MetadataMap;
use crate::percent::{percent_decode, percent_encode, spec_percent_decode, spec_percent_encode};
use crate::strutil::{string_from_utf8, u16_decimal};

verus! {

/// The canonical RPC result codes, numbered 0 through 16 on the wire.
#[derive(Clone, Copy, Debug, PartialEq, Eq, Structural)]
pub enum Code {
    Okay,
    Cancelled,
    Unknown,
    InvalidArgument,
    DeadlineExceeded,
    NotFound,
    AlreadyExists,
    PermissionDenied,
    ResourceExhausted,
    FailedPrecondition,
    Aborted,
    OutOfRange,
    Unimplemented,
    Internal,
    Unavailable,
    DataLoss,
    Unauthenticated,
}

impl Code {
    /// The numeric value of this code on the wire.
    pub open spec fn spec_num(self) -> int {
        match self {
            Code::Okay => 0,
            Code::Cancelled => 1,
            Code::Unknown => 2,
            Code::InvalidArgument => 3,
            Code::DeadlineExceeded => 4,
            Code::NotFound => 5,
            Code::AlreadyExists => 6,
            Code::PermissionDenied => 7,
            Code::ResourceExhausted => 8,
            Code::FailedPrecondition => 9,
            Code::Aborted => 10,
            Code::OutOfRange => 11,
            Code::Unimplemented => 12,
            Code::Internal => 13,
            Code::Unavailable => 14,
            Code::DataLoss => 15,
            Code::Unauthenticated => 16,
        }
    }

    /// The code with a given numeric value; anything out of range is Unknown.
    pub open spec fn spec_from_int(i: int) -> Code {
        if i == 0 {
            Code::Okay
        } else if i == 1 {
            Code::Cancelled
        } else if i == 2 {
            Code::Unknown
        } else if i == 3 {
            Code::InvalidArgument
        } else if i == 4 {
            Code::DeadlineExceeded
        } else if i == 5 {
            Code::NotFound
        } else if i == 6 {
            Code::AlreadyExists
        } else if i == 7 {
            Code::PermissionDenied
        } else if i == 8 {
            Code::ResourceExhausted
        } else if i == 9 {
            Code::FailedPrecondition
        } else if i == 10 {
            Code::Aborted
        } else if i == 11 {
            Code::OutOfRange
        } else if i == 12 {
            Code::Unimplemented
        } else if i == 13 {
            Code::Internal
        } else if i == 14 {
            Code::Unavailable
        } else if i == 15 {
            Code::DataLoss
        } else if i == 16 {
            Code::Unauthenticated
        } else {
            Code::Unknown
        }
    }

    pub fn from_i32(i: i32) -> (r: Code)
        ensures
            r == Code::spec_from_int(i as int),
    {
        match i {
            0 => Code::Okay,
            1 => Code::Cancelled,
            2 => Code::Unknown,
            3 => Code::InvalidArgument,
            4 => Code::DeadlineExceeded,
            5 => Code::NotFound,
            6 => Code::AlreadyExists,
            7 => Code::PermissionDenied,
            8 => Code::ResourceExhausted,
            9 => Code::FailedPrecondition,
            10 => Code::Aborted,
            11 => Code::OutOfRange,
            12 => Code::Unimplemented,
            13 => Code::Internal,
            14 => Code::Unavailable,
            15 => Code::DataLoss,
            16 => Code::Unauthenticated,
            _ => Code::Unknown,
        }
    }

    /// The numeric value of this code.
    pub fn to_i32(self) -> (r: i32)
        ensures
            r as int == self.spec_num(),
    {
        match self {
            Code::Okay => 0,
            Code::Cancelled => 1,
            Code::Unknown => 2,
            Code::InvalidArgument => 3,
            Code::DeadlineExceeded => 4,
            Code::NotFound => 5,
            Code::AlreadyExists => 6,
            Code::PermissionDenied => 7,
            Code::ResourceExhausted => 8,
            Code::FailedPrecondition => 9,
            Code::Aborted => 10,
            Code::OutOfRange => 11,
            Code::Unimplemented => 12,
            Code::Internal => 13,
            Code::Unavailable => 14,
            Code::DataLoss => 15,
            Code::Unauthenticated => 16,
        }
    }

    pub open spec fn spec_description(self) -> Seq<char> {
        match self {
            Code::Okay => "The operation completed successfully"@,
            Code::Cancelled => "The operation was cancelled"@,
            Code::Unknown => "Unknown error"@,
            Code::InvalidArgument => "Client specified an invalid argument"@,
            Code::DeadlineExceeded => "Deadline expired before operation could complete"@,
            Code::NotFound => "Some requested entity was not found"@,
            Code::AlreadyExists => "Some entity that we attempted to create already exists"@,
            Code::PermissionDenied => "The caller does not have permission to execute the specified operation"@,
            Code::ResourceExhausted => "Some resource has been exhausted"@,
            Code::FailedPrecondition => "The system is not in a state required for the operation's execution"@,
            Code::Aborted => "The operation was aborted"@,
            Code::OutOfRange => "Operation was attempted past the valid range"@,
            Code::Unimplemented => "Operation is not implemented or not supported"@,
            Code::Internal => "Internal error"@,
            Code::Unavailable => "The service is currently unavailable"@,
            Code::DataLoss => "Unrecoverable data loss or corruption"@,
            Code::Unauthenticated => "The request does not have valid authentication credentials"@,
        }
    }

    /// A short human-readable account of the code.
    pub fn description(&self) -> (r: &'static str)
        ensures
            r@ == self.spec_description(),
    {
        match self {
            Code::Okay => "The operation completed successfully",
            Code::Cancelled => "The operation was cancelled",
            Code::Unknown => "Unknown error",
            Code::InvalidArgument => "Client specified an invalid argument",
            Code::DeadlineExceeded => "Deadline expired before operation could complete",
            Code::NotFound => "Some requested entity was not found",
            Code::AlreadyExists => "Some entity that we attempted to create already exists",
            Code::PermissionDenied => "The caller does not have permission to execute the specified operation",
            Code::ResourceExhausted => "Some resource has been exhausted",
            Code::FailedPrecondition => "The system is not in a state required for the operation's execution",
            Code::Aborted => "The operation was aborted",
            Code::OutOfRange => "Operation was attempted past the valid range",
            Code::Unimplemented => "Operation is not implemented or not supported",
            Code::Internal => "Internal error",
            Code::Unavailable => "The service is currently unavailable",
            Code::DataLoss => "Unrecoverable data loss or corruption",
            Code::Unauthenticated => "The request does not have valid authentication credentials",
        }
    }

    /// The decimal spelling of a code's number: one byte for 0 to 9,
    /// two for 10 to 16.
    pub open spec fn spec_wire_digits(self) -> Seq<u8> {
        let n = self.spec_num();
        if n < 10 {
            seq![(0x30 + n) as u8]
        } else {
            seq![0x31u8, (0x30 + (n - 10)) as u8]
        }
    }

    /// The code a `grpc-status` value names: one digit, or `1` followed
    /// by a digit up to `6`; anything else is Unknown.
    pub open spec fn spec_from_wire(bytes: Seq<u8>) -> Code {
        if bytes.len() == 1 && 0x30 <= bytes[0] <= 0x39 {
            Code::spec_from_int(bytes[0] - 0x30)
        } else if bytes.len() == 2 && bytes[0] == 0x31 && 0x30 <= bytes[1] <= 0x36 {
            Code::spec_from_int(10 + bytes[1] - 0x30)
        } else {
            Code::Unknown
        }
    }

    /// Parse a `grpc-status` value.
    pub fn from_bytes(bytes: &[u8]) -> (r: Code)
        ensures
            r == Code::spec_from_wire(bytes@),
    {
        if bytes.len() == 1 {
            let b = bytes[0];
            if 0x30 <= b && b <= 0x39 {
                Code::from_i32((b - 0x30) as i32)
            } else {
                Code::Unknown
            }
        } else if bytes.len() == 2 {
            let b0 = bytes[0];
            let b1 = bytes[1];
            if b0 == 0x31 && 0x30 <= b1 && b1 <= 0x36 {
                Code::from_i32((10 + (b1 - 0x30)) as i32)
            } else {
                Code::Unknown
            }
        } else {
            Code::Unknown
        }
    }

    /// The bytes that spell this code in a header.
    pub fn to_header_value(self) -> (r: Vec<u8>)
        ensures
            r@ == self.spec_wire_digits(),
    {
        let n = self.to_i32();
        let mut out: Vec<u8> = Vec::new();
        if n < 10 {
            out.push((0x30 + n) as u8);
        } else {
            out.push(0x31);
            out.push((0x30 + (n - 10)) as u8);
        }
        proof {
            assert(out@ =~= self.spec_wire_digits());
        }
        out
    }

    /// A code's wire spelling names the code itself.
    pub proof fn lemma_wire_digits_round_trip(self)
        ensures
            Code::spec_from_wire(self.spec_wire_digits()) == self,
    {
    }
}

/// A failure descriptor: a code, a human-readable message, opaque
/// detail bytes, and extra metadata headers.
#[derive(Debug)]
pub struct Status {
    code: Code,
    message: String,
    details: Vec<u8>,
    metadata: MetadataMap,
}

impl Clone for Status {
    /// A field-for-field copy.
    fn clone(&self) -> (r: Self)
        ensures
            r.spec_code() == self.spec_code(),
            r.spec_message() == self.spec_message(),
            r.spec_details() == self.spec_details(),
            r.spec_metadata() == self.spec_metadata(),
    {
        Status {
            code: self.code,
            message: self.message.clone(),
            details: crate::headers::clone_bytes(&self.details),
            metadata: self.metadata.clone(),
        }
    }
}

impl Status {
    pub closed spec fn spec_code(&self) -> Code {
        self.code
    }

    pub closed spec fn spec_message(&self) -> Seq<char> {
        self.message@
    }

    pub closed spec fn spec_details(&self) -> Seq<u8> {
        self.details@
    }

    pub open spec fn spec_metadata(&self) -> HeaderSeq {
        self.spec_metadata_map()@
    }

    pub closed spec fn spec_metadata_map(&self) -> MetadataMap {
        self.metadata
    }

    /// A status with a code and a message, nothing else.
    pub fn new(code: Code, message: &str) -> (r: Status)
        ensures
            r.spec_code() == code,
            r.spec_message() == message@,
            r.spec_details() =~= Seq::<u8>::empty(),
            r.spec_metadata() =~= Seq::<(Seq<char>, Seq<u8>)>::empty(),
    {
        Status {
            code,
            message: message.to_owned(),
            details: Vec::new(),
            metadata: MetadataMap::new(),
        }
    }

    pub fn ok(message: &str) -> (r: Status)
        ensures
            r.spec_code() == Code::Okay,
            r.spec_message() == message@,
            r.spec_details() =~= Seq::<u8>::empty(),
            r.spec_metadata() =~= Seq::<(Seq<char>, Seq<u8>)>::empty(),
    {
        Status::new(Code::Okay, message)
    }

    pub fn cancelled(message: &str) -> (r: Status)
        ensures
            r.spec_code() == Code::Cancelled,
            r.spec_message() == message@,
            r.spec_details() =~= Seq::<u8>::empty(),
            r.spec_metadata() =~= Seq::<(Seq<char>, Seq<u8>)>::empty(),
    {
        Status::new(Code::Cancelled, message)
    }

    pub fn unknown(message: &str) -> (r: Status)
        ensures
            r.spec_code() == Code::Unknown,
            r.spec_message() == message@,
            r.spec_details() =~= Seq::<u8>::empty(),
            r.spec_metadata() =~= Seq::<(Seq<char>, Seq<u8>)>::empty(),
    {
        Status::new(Code::Unknown, message)
    }

    pub fn invalid_argument(message: &str) -> (r: Status)
        ensures
            r.spec_code() == Code::InvalidArgument,
            r.spec_message() == message@,
            r.spec_details() =~= Seq::<u8>::empty(),
            r.spec_metadata() =~= Seq::<(Seq<char>, Seq<u8>)>::empty(),
    {
        Status::new(Code::InvalidArgument, message)
    }

    pub fn deadline_exceeded(message: &str) -> (r: Status)
        ensures
            r.spec_code() == Code::DeadlineExceeded,
            r.spec_message() == message@,
            r.spec_details() =~= Seq::<u8>::empty(),
            r.spec_metadata() =~= Seq::<(Seq<char>, Seq<u8>)>::empty(),
    {
        Status::new(Code::DeadlineExceeded, message)
    }

    pub fn not_found(message: &str) -> (r: Status)
        ensures
            r.spec_code() == Code::NotFound,
            r.spec_message() == message@,
            r.spec_details() =~= Seq::<u8>::empty(),
            r.spec_metadata() =~= Seq::<(Seq<char>, Seq<u8>)>::empty(),
    {
        Status::new(Code::NotFound, message)
    }

    pub fn already_exists(message: &str) -> (r: Status)
        ensures
            r.spec_code() == Code::AlreadyExists,
            r.spec_message() == message@,
            r.spec_details() =~= Seq::<u8>::empty(),
            r.spec_metadata() =~= Seq::<(Seq<char>, Seq<u8>)>::empty(),
    {
        Status::new(Code::AlreadyExists, message)
    }

    pub fn permission_denied(message: &str) -> (r: Status)
        ensures
            r.spec_code() == Code::PermissionDenied,
            r.spec_message() == message@,
            r.spec_details() =~= Seq::<u8>::empty(),
            r.spec_metadata() =~= Seq::<(Seq<char>, Seq<u8>)>::empty(),
    {
        Status::new(Code::PermissionDenied, message)
    }

    pub fn resource_exhausted(message: &str) -> (r: Status)
        ensures
            r.spec_code() == Code::ResourceExhausted,
            r.spec_message() == message@,
            r.spec_details() =~= Seq::<u8>::empty(),
            r.spec_metadata() =~= Seq::<(Seq<char>, Seq<u8>)>::empty(),
    {
        Status::new(Code::ResourceExhausted, message)
    }

    pub fn failed_precondition(message: &str) -> (r: Status)
        ensures
            r.spec_code() == Code::FailedPrecondition,
            r.spec_message() == message@,
            r.spec_details() =~= Seq::<u8>::empty(),
            r.spec_metadata() =~= Seq::<(Seq<char>, Seq<u8>)>::empty(),
    {
        Status::new(Code::FailedPrecondition, message)
    }

    pub fn aborted(message: &str) -> (r: Status)
        ensures
            r.spec_code() == Code::Aborted,
            r.spec_message() == message@,
            r.spec_details() =~= Seq::<u8>::empty(),
            r.spec_metadata() =~= Seq::<(Seq<char>, Seq<u8>)>::empty(),
    {
        Status::new(Code::Aborted, message)
    }

    pub fn out_of_range(message: &str) -> (r: Status)
        ensures
            r.spec_code() == Code::OutOfRange,
            r.spec_message() == message@,
            r.spec_details() =~= Seq::<u8>::empty(),
            r.spec_metadata() =~= Seq::<(Seq<char>, Seq<u8>)>::empty(),
    {
        Status::new(Code::OutOfRange, message)
    }

    pub fn unimplemented(message: &str) -> (r: Status)
        ensures
            r.spec_code() == Code::Unimplemented,
            r.spec_message() == message@,
            r.spec_details() =~= Seq::<u8>::empty(),
            r.spec_metadata() =~= Seq::<(Seq<char>, Seq<u8>)>::empty(),
    {
        Status::new(Code::Unimplemented, message)
    }

    pub fn internal(message: &str) -> (r: Status)
        ensures
            r.spec_code() == Code::Internal,
            r.spec_message() == message@,
            r.spec_details() =~= Seq::<u8>::empty(),
            r.spec_metadata() =~= Seq::<(Seq<char>, Seq<u8>)>::empty(),
    {
        Status::new(Code::Internal, message)
    }

    pub fn unavailable(message: &str) -> (r: Status)
        ensures
            r.spec_code() == Code::Unavailable,
            r.spec_message() == message@,
            r.spec_details() =~= Seq::<u8>::empty(),
            r.spec_metadata() =~= Seq::<(Seq<char>, Seq<u8>)>::empty(),
    {
        Status::new(Code::Unavailable, message)
    }

    pub fn data_loss(message: &str) -> (r: Status)
        ensures
            r.spec_code() == Code::DataLoss,
            r.spec_message() == message@,
            r.spec_details() =~= Seq::<u8>::empty(),
            r.spec_metadata() =~= Seq::<(Seq<char>, Seq<u8>)>::empty(),
    {
        Status::new(Code::DataLoss, message)
    }

    pub fn unauthenticated(message: &str) -> (r: Status)
        ensures
            r.spec_code() == Code::Unauthenticated,
            r.spec_message() == message@,
            r.spec_details() =~= Seq::<u8>::empty(),
            r.spec_metadata() =~= Seq::<(Seq<char>, Seq<u8>)>::empty(),
    {
        Status::new(Code::Unauthenticated, message)
    }

    /// A status that carries detail bytes as well.
    pub fn with_details(code: Code, message: &str, details: Vec<u8>) -> (r: Status)
        ensures
            r.spec_code() == code,
            r.spec_message() == message@,
            r.spec_details() == details@,
            r.spec_metadata() =~= Seq::<(Seq<char>, Seq<u8>)>::empty(),
    {
        Status::with_details_and_metadata(code, message, details, MetadataMap::new())
    }

    /// A status that carries metadata as well.
    pub fn with_metadata(code: Code, message: &str, metadata: MetadataMap) -> (r: Status)
        ensures
            r.spec_code() == code,
            r.spec_message() == message@,
            r.spec_details() =~= Seq::<u8>::empty(),
            r.spec_metadata() == metadata@,
    {
        Status::with_details_and_metadata(code, message, Vec::new(), metadata)
    }

    /// A status with every field given.
    pub fn with_details_and_metadata(
        code: Code,
        message: &str,
        details: Vec<u8>,
        metadata: MetadataMap,
    ) -> (r: Status)
        ensures
            r.spec_code() == code,
            r.spec_message() == message@,
            r.spec_details() == details@,
            r.spec_metadata() == metadata@,
    {
        Status { code, message: message.to_owned(), details, metadata }
    }

    pub fn code(&self) -> (r: Code)
        ensures
            r == self.spec_code(),
    {
        self.code
    }

    pub fn message(&self) -> (r: &str)
        ensures
            r@ == self.spec_message(),
    {
        self.message.as_str()
    }

    pub fn details(&self) -> (r: &[u8])
        ensures
            r@ == self.spec_details(),
    {
        self.details.as_slice()
    }

    pub fn metadata(&self) -> (r: &MetadataMap)
        ensures
            r@ == self.spec_metadata(),
    {
        &self.metadata
    }

    pub fn metadata_mut(&mut self) -> (r: &mut MetadataMap)
        ensures
            *r == old(self).spec_metadata_map(),
            final(self).spec_code() == old(self).spec_code(),
            final(self).spec_message() == old(self).spec_message(),
            final(self).spec_details() == old(self).spec_details(),
            final(self).spec_metadata_map() == *final(r),
    {
        &mut self.metadata
    }

    /// Write this status into a header block: the sanitized metadata,
    /// then `grpc-status`, then `grpc-message` if the message is
    /// non-empty, then `grpc-status-details-bin` if details are.
    pub fn add_header(&self, header_map: &mut HeaderMap) -> (r: Result<(), Status>)
        ensures
            r is Ok,
            final(header_map)@ == spec_status_wire(
                self.spec_code(),
                self.spec_message(),
                self.spec_details(),
                self.spec_metadata(),
                old(header_map)@,
            ),
    {
        let sanitized = self.metadata.sanitized_headers();
        header_map.extend(sanitized);
        header_map.insert("grpc-status", self.code.to_header_value());
        if self.message.as_str().unicode_len() != 0 {
            header_map.insert(
                "grpc-message",
                percent_encode(self.message.as_str().as_bytes()),
            );
        }
        if self.details.len() != 0 {
            header_map.insert("grpc-status-details-bin", base64_encode(self.details.as_slice()));
        }
        Ok(())
    }

    /// This status as a fresh header block.
    pub fn to_header_map(&self) -> (r: Result<HeaderMap, Status>)
        ensures
            r is Ok,
            r.unwrap()@ == spec_status_wire(
                self.spec_code(),
                self.spec_message(),
                self.spec_details(),
                self.spec_metadata(),
                Seq::empty(),
            ),
    {
        let mut header_map = HeaderMap::with_capacity(self.metadata.len());
        match self.add_header(&mut header_map) {
            Ok(_) => Ok(header_map),
            Err(e) => Err(e),
        }
    }

    /// Read a status back from a header block, if `grpc-status` is
    /// there.  A details header that holds no base64 yields Unknown
    /// with a diagnostic, never a failure.
    pub fn from_header_map(header_map: &HeaderMap) -> (r: Option<Status>)
        ensures
            r is Some <==> spec_has_name(header_map@, "grpc-status"@),
            r is Some ==> spec_parsed_status_matches(header_map@, r.unwrap()),
    {
        let code_bytes = match header_map.get("grpc-status") {
            None => {
                return None;
            },
            Some(b) => b,
        };
        let code = Code::from_bytes(code_bytes.as_slice());
        let mut others = header_map.clone();
        others.remove("grpc-status");
        others.remove("grpc-message");
        others.remove("grpc-status-details-bin");
        let metadata = MetadataMap::from_headers(others);
        let details: Vec<u8> = match header_map.get("grpc-status-details-bin") {
            None => Vec::new(),
            Some(d) => match base64_decode(d.as_slice()) {
                Some(v) => v,
                None => {
                    return Some(
                        Status {
                            code: Code::Unknown,
                            message: (
                            "Invalid status header, expected base64 encoded value").to_owned(),
                            details: Vec::new(),
                            metadata,
                        },
                    );
                },
            },
        };
        match header_map.get("grpc-message") {
            None => Some(Status { code, message: String::new(), details, metadata }),
            Some(mv) => {
                let decoded = percent_decode(mv.as_slice());
                match string_from_utf8(decoded) {
                    Some(message) => Some(Status { code, message, details, metadata }),
                    None => Some(
                        Status {
                            code: Code::Unknown,
                            message: ("Error deserializing status message header").to_owned(),
                            details,
                            metadata,
                        },
                    ),
                }
            },
        }
    }
}

/// What the message header says about the parsed message and code.
pub open spec fn spec_parsed_text(h: HeaderSeq, st: Status) -> bool {
    let codeb = spec_first_value(h, "grpc-status"@).unwrap();
    match spec_first_value(h, "grpc-message"@) {
        None => st.spec_message() == Seq::<char>::empty() && st.spec_code()
            == Code::spec_from_wire(codeb),
        Some(mv) => {
            let dec = spec_percent_decode(mv);
            if valid_utf8(dec) {
                st.spec_message() == decode_utf8(dec) && st.spec_code() == Code::spec_from_wire(
                    codeb,
                )
            } else {
                st.spec_message() == "Error deserializing status message header"@
                    && st.spec_code() == Code::Unknown
            }
        },
    }
}

/// What a header block says, field by field, once parsed as a status.
/// A details header holding no base64 overrides the rest: the status
/// is Unknown with a fixed diagnostic and empty details.
pub open spec fn spec_parsed_status_matches(h: HeaderSeq, st: Status) -> bool {
    &&& st.spec_metadata() == spec_remove_name(
        spec_remove_name(spec_remove_name(h, "grpc-status"@), "grpc-message"@),
        "grpc-status-details-bin"@,
    )
    &&& match spec_first_value(h, "grpc-status-details-bin"@) {
        None => st.spec_details() == Seq::<u8>::empty() && spec_parsed_text(h, st),
        Some(v) => if spec_base64_valid(v) {
            st.spec_details() == spec_base64_decode(v) && spec_parsed_text(h, st)
        } else {
            st.spec_details() == Seq::<u8>::empty() && st.spec_code() == Code::Unknown
                && st.spec_message() == "Invalid status header, expected base64 encoded value"@
        },
    }
}

/// The code a parse of a header block lands on.
pub open spec fn spec_parsed_code(h: HeaderSeq) -> Code {
    let codeb = spec_first_value(h, "grpc-status"@).unwrap();
    let text_code = match spec_first_value(h, "grpc-message"@) {
        None => Code::spec_from_wire(codeb),
        Some(mv) => if valid_utf8(spec_percent_decode(mv)) {
            Code::spec_from_wire(codeb)
        } else {
            Code::Unknown
        },
    };
    match spec_first_value(h, "grpc-status-details-bin"@) {
        None => text_code,
        Some(v) => if spec_base64_valid(v) {
            text_code
        } else {
            Code::Unknown
        },
    }
}

/// The code inferred from a bare HTTP status, when the trailers carry
/// no `grpc-status` and the response is not a plain 200.
pub open spec fn spec_inferred_code(status_code: int) -> Code {
    if status_code == 400 {
        Code::Internal
    } else if status_code == 401 {
        Code::Unauthenticated
    } else if status_code == 403 {
        Code::PermissionDenied
    } else if status_code == 404 {
        Code::Unimplemented
    } else if status_code == 429 || status_code == 502 || status_code == 503 || status_code
        == 504 {
        Code::Unavailable
    } else {
        Code::Unknown
    }
}

/// What the caller learns from trailers and the HTTP status: nothing to
/// report on success, no verdict on a bare 200, and a status otherwise.
pub fn infer_grpc_status(trailers: Option<&HeaderMap>, status_code: u16) -> (r: Result<
    (),
    Option<Status>,
>)
    ensures
        (match trailers {
            Some(t) => spec_has_name(t@, "grpc-status"@),
            None => false,
        }) ==> (match r {
            Ok(_) => spec_parsed_code(trailers.unwrap()@) == Code::Okay,
            Err(None) => false,
            Err(Some(st)) => spec_parsed_code(trailers.unwrap()@) != Code::Okay
                && spec_parsed_status_matches(trailers.unwrap()@, st),
        }),
        !(match trailers {
            Some(t) => spec_has_name(t@, "grpc-status"@),
            None => false,
        }) ==> (if status_code == 200 {
            r == Result::<(), Option<Status>>::Err(None)
        } else {
            match r {
                Err(Some(st)) => st.spec_code() == spec_inferred_code(status_code as int)
                    && st.spec_message()
                    == "grpc-status header missing, mapped from HTTP status code "@
                    + crate::strutil::spec_decimal(status_code as int) && st.spec_details()
                    =~= Seq::<u8>::empty() && st.spec_metadata() =~= Seq::<
                    (Seq<char>, Seq<u8>),
                >::empty(),
                _ => false,
            }
        }),
{
    if let Some(t) = trailers {
        if let Some(status) = Status::from_header_map(t) {
            if status.code() == Code::Okay {
                return Ok(());
            } else {
                return Err(Some(status));
            }
        }
    }
    let code = if status_code == 400 {
        Code::Internal
    } else if status_code == 401 {
        Code::Unauthenticated
    } else if status_code == 403 {
        Code::PermissionDenied
    } else if status_code == 404 {
        Code::Unimplemented
    } else if status_code == 429 || status_code == 502 || status_code == 503 || status_code
        == 504 {
        Code::Unavailable
    } else if status_code == 200 {
        return Err(None);
    } else {
        Code::Unknown
    };
    let mut msg: String = ("grpc-status header missing, mapped from HTTP status code ").to_owned();
    msg.append(u16_decimal(status_code).as_str());
    let status = Status { code, message: msg, details: Vec::new(), metadata: MetadataMap::new() };
    Err(Some(status))
}

/// The stream-error causes of the HTTP/2 layer, as this framework
/// tells them apart; the transport names one of these for each failure.
#[derive(Clone, Copy, Debug, PartialEq, Eq, Structural)]
pub enum H2Reason {
    NoError,
    ProtocolError,
    InternalError,
    FlowControlError,
    SettingsTimeout,
    CompressionError,
    ConnectError,
    RefusedStream,
    Cancel,
    EnhanceYourCalm,
    InadequateSecurity,
    Other,
}

/// The code an HTTP/2 stream error maps to.
pub open spec fn spec_code_for_h2_reason(reason: H2Reason) -> Code {
    match reason {
        H2Reason::NoError => Code::Internal,
        H2Reason::ProtocolError => Code::Internal,
        H2Reason::InternalError => Code::Internal,
        H2Reason::FlowControlError => Code::Internal,
        H2Reason::SettingsTimeout => Code::Internal,
        H2Reason::CompressionError => Code::Internal,
        H2Reason::ConnectError => Code::Internal,
        H2Reason::RefusedStream => Code::Unavailable,
        H2Reason::Cancel => Code::Cancelled,
        H2Reason::EnhanceYourCalm => Code::ResourceExhausted,
        H2Reason::InadequateSecurity => Code::PermissionDenied,
        H2Reason::Other => Code::Unknown,
    }
}

pub fn code_for_h2_reason(reason: H2Reason) -> (r: Code)
    ensures
        r == spec_code_for_h2_reason(reason),
{
    match reason {
        H2Reason::NoError => Code::Internal,
        H2Reason::ProtocolError => Code::Internal,
        H2Reason::InternalError => Code::Internal,
        H2Reason::FlowControlError => Code::Internal,
        H2Reason::SettingsTimeout => Code::Internal,
        H2Reason::CompressionError => Code::Internal,
        H2Reason::ConnectError => Code::Internal,
        H2Reason::RefusedStream => Code::Unavailable,
        H2Reason::Cancel => Code::Cancelled,
        H2Reason::EnhanceYourCalm => Code::ResourceExhausted,
        H2Reason::InadequateSecurity => Code::PermissionDenied,
        H2Reason::Other => Code::Unknown,
    }
}

/// The kinds of I/O failure this framework tells apart.
#[derive(Clone, Copy, Debug, PartialEq, Eq, Structural)]
pub enum IoErrorKind {
    BrokenPipe,
    WouldBlock,
    WriteZero,
    Interrupted,
    ConnectionRefused,
    ConnectionReset,
    NotConnected,
    AddrInUse,
    AddrNotAvailable,
    AlreadyExists,
    ConnectionAborted,
    InvalidData,
    InvalidInput,
    NotFound,
    PermissionDenied,
    TimedOut,
    UnexpectedEof,
    Other,
}

/// The code an I/O failure maps to.
pub open spec fn spec_code_for_io_kind(kind: IoErrorKind) -> Code {
    match kind {
        IoErrorKind::BrokenPipe => Code::Internal,
        IoErrorKind::WouldBlock => Code::Internal,
        IoErrorKind::WriteZero => Code::Internal,
        IoErrorKind::Interrupted => Code::Internal,
        IoErrorKind::ConnectionRefused => Code::Unavailable,
        IoErrorKind::ConnectionReset => Code::Unavailable,
        IoErrorKind::NotConnected => Code::Unavailable,
        IoErrorKind::AddrInUse => Code::Unavailable,
        IoErrorKind::AddrNotAvailable => Code::Unavailable,
        IoErrorKind::AlreadyExists => Code::AlreadyExists,
        IoErrorKind::ConnectionAborted => Code::Aborted,
        IoErrorKind::InvalidData => Code::DataLoss,
        IoErrorKind::InvalidInput => Code::InvalidArgument,
        IoErrorKind::NotFound => Code::NotFound,
        IoErrorKind::PermissionDenied => Code::PermissionDenied,
        IoErrorKind::TimedOut => Code::DeadlineExceeded,
        IoErrorKind::UnexpectedEof => Code::OutOfRange,
        IoErrorKind::Other => Code::Unknown,
    }
}

pub fn code_for_io_kind(kind: IoErrorKind) -> (r: Code)
    ensures
        r == spec_code_for_io_kind(kind),
{
    match kind {
        IoErrorKind::BrokenPipe => Code::Internal,
        IoErrorKind::WouldBlock => Code::Internal,
        IoErrorKind::WriteZero => Code::Internal,
        IoErrorKind::Interrupted => Code::Internal,
        IoErrorKind::ConnectionRefused => Code::Unavailable,
        IoErrorKind::ConnectionReset => Code::Unavailable,
        IoErrorKind::NotConnected => Code::Unavailable,
        IoErrorKind::AddrInUse => Code::Unavailable,
        IoErrorKind::AddrNotAvailable => Code::Unavailable,
        IoErrorKind::AlreadyExists => Code::AlreadyExists,
        IoErrorKind::ConnectionAborted => Code::Aborted,
        IoErrorKind::InvalidData => Code::DataLoss,
        IoErrorKind::InvalidInput => Code::InvalidArgument,
        IoErrorKind::NotFound => Code::NotFound,
        IoErrorKind::PermissionDenied => Code::PermissionDenied,
        IoErrorKind::TimedOut => Code::DeadlineExceeded,
        IoErrorKind::UnexpectedEof => Code::OutOfRange,
        IoErrorKind::Other => Code::Unknown,
    }
}

impl Status {
    /// A status for an HTTP/2 stream error; the caller supplies the
    /// rendered description.
    pub fn from_h2_reason(reason: H2Reason, message: &str) -> (r: Status)
        ensures
            r.spec_code() == spec_code_for_h2_reason(reason),
            r.spec_message() == message@,
            r.spec_details() =~= Seq::<u8>::empty(),
            r.spec_metadata() =~= Seq::<(Seq<char>, Seq<u8>)>::empty(),
    {
        Status::new(code_for_h2_reason(reason), message)
    }

    /// The cause this status closes a stream with: cancellation stays a
    /// cancellation, everything else is an internal error.
    pub fn to_h2_reason(&self) -> (r: H2Reason)
        ensures
            self.spec_code() == Code::Cancelled ==> r == H2Reason::Cancel,
            self.spec_code() != Code::Cancelled ==> r == H2Reason::InternalError,
    {
        match self.code {
            Code::Cancelled => H2Reason::Cancel,
            _ => H2Reason::InternalError,
        }
    }

    /// A status for an I/O failure; the caller supplies the rendered
    /// description.
    pub fn from_io_kind(kind: IoErrorKind, message: &str) -> (r: Status)
        ensures
            r.spec_code() == spec_code_for_io_kind(kind),
            r.spec_message() == message@,
            r.spec_details() =~= Seq::<u8>::empty(),
            r.spec_metadata() =~= Seq::<(Seq<char>, Seq<u8>)>::empty(),
    {
        Status::new(code_for_io_kind(kind), message)
    }
}

/// A status written into fresh headers and parsed back is itself:
/// whatever `from_header_map` accepts for the block `add_header` wrote
/// carries the same code, message, details and metadata.
///
/// The message must hold no percent sign: encoding leaves a literal `%`
/// alone, so a message such as `%41` would come back as `A`.  The
/// metadata must keep off the six reserved names and the details
/// header, which writing drops or overwrites.
#[verifier::rlimit(30)]
pub proof fn lemma_status_wire_round_trip(
    code: Code,
    message: Seq<char>,
    details: Seq<u8>,
    metadata: HeaderSeq,
)
    requires
        forall|i: int| 0 <= i < message.len() ==> (#[trigger] message[i]) as u32 != 0x25,
        forall|i: int|
            0 <= i < metadata.len() ==> !spec_reserved((#[trigger] metadata[i]).0)
                && metadata[i].0 != "grpc-status-details-bin"@,
    ensures
        spec_has_name(
            spec_status_wire(code, message, details, metadata, Seq::empty()),
            "grpc-status"@,
        ),
        forall|st: Status|
            #[trigger] spec_parsed_status_matches(
                spec_status_wire(code, message, details, metadata, Seq::empty()),
                st,
            ) ==> st.spec_code() == code && st.spec_message() == message && st.spec_details()
                == details && st.spec_metadata() == metadata,
{
    let sname = "grpc-status"@;
    let mname = "grpc-message"@;
    let dname = "grpc-status-details-bin"@;
    reveal_strlit("grpc-status");
    reveal_strlit("grpc-message");
    reveal_strlit("grpc-status-details-bin");
    assert(sname.len() == 11 && mname.len() == 12 && dname.len() == 23);
    let st_e = (sname, code.spec_wire_digits());
    let m_e = (mname, spec_percent_encode(encode_utf8(message)));
    let d_e = (dname, spec_base64_encode(details));
    let wire = spec_status_wire(code, message, details, metadata, Seq::empty());

    crate::metadata::map::lemma_sanitize_clean(metadata);
    assert(Seq::empty() + spec_sanitize(metadata) =~= metadata);
    assert(forall|i: int| 0 <= i < metadata.len() ==> (#[trigger] metadata[i]).0 != sname
        && metadata[i].0 != mname && metadata[i].0 != dname);
    crate::headers::lemma_remove_name_absent(metadata, sname);
    crate::headers::lemma_remove_name_absent(metadata, mname);
    crate::headers::lemma_remove_name_absent(metadata, dname);
    crate::headers::lemma_first_value_none(metadata, sname);
    crate::headers::lemma_first_value_none(metadata, mname);
    crate::headers::lemma_first_value_none(metadata, dname);

    let m2 = metadata.push(st_e);
    assert(spec_insert(metadata, sname, code.spec_wire_digits()) == m2);
    crate::headers::lemma_first_value_push(metadata, st_e, sname);
    crate::headers::lemma_first_value_push(metadata, st_e, mname);
    crate::headers::lemma_first_value_push(metadata, st_e, dname);
    crate::headers::lemma_remove_name_push(metadata, st_e, sname);
    crate::headers::lemma_remove_name_push(metadata, st_e, mname);
    crate::headers::lemma_remove_name_push(metadata, st_e, dname);

    let m3 = if message.len() == 0 {
        m2
    } else {
        m2.push(m_e)
    };
    if message.len() > 0 {
        crate::headers::lemma_remove_name_push(m2, m_e, mname);
        crate::headers::lemma_remove_name_push(metadata, st_e, mname);
        assert(spec_remove_name(m2, mname) == metadata.push(st_e));
        assert(spec_insert(m2, mname, m_e.1) == m3);
        crate::headers::lemma_first_value_push(m2, m_e, sname);
        crate::headers::lemma_first_value_push(m2, m_e, mname);
        crate::headers::lemma_first_value_push(m2, m_e, dname);
    }
    if details.len() > 0 {
        crate::headers::lemma_remove_name_push(m3, d_e, dname);
        if message.len() > 0 {
            crate::headers::lemma_remove_name_push(m2, m_e, dname);
        }
        assert(spec_remove_name(m3, dname) == m3);
        assert(spec_insert(m3, dname, d_e.1) == m3.push(d_e));
        assert(wire == m3.push(d_e));
        crate::headers::lemma_first_value_push(m3, d_e, sname);
        crate::headers::lemma_first_value_push(m3, d_e, mname);
        crate::headers::lemma_first_value_push(m3, d_e, dname);
    } else {
        assert(wire == m3);
    }

    // What each owned header holds on the wire.
    assert(spec_first_value(wire, sname) == Some(code.spec_wire_digits()));
    if message.len() == 0 {
        assert(spec_first_value(wire, mname) is None);
    } else {
        assert(spec_first_value(wire, mname) == Some(m_e.1));
    }
    if details.len() == 0 {
        assert(spec_first_value(wire, dname) is None);
    } else {
        assert(spec_first_value(wire, dname) == Some(d_e.1));
        crate::base64::lemma_base64_encode_valid(details);
        crate::base64::lemma_base64_round_trip(details);
    }

    // The message survives percent-encoding and UTF-8.
    if message.len() > 0 {
        crate::strutil::lemma_encode_utf8_no_percent(message);
        crate::percent::lemma_percent_round_trip(encode_utf8(message));
        vstd::utf8::encode_utf8_valid_utf8(message);
        vstd::utf8::encode_utf8_decode_utf8(message);
        assert(spec_percent_decode(m_e.1) == encode_utf8(message));
    }

    // The code's digits name the code again.
    code.lemma_wire_digits_round_trip();
    assert(spec_parsed_code(wire) == code);

    // Stripping the three owned headers leaves the metadata.
    let r1 = spec_remove_name(wire, sname);
    if details.len() > 0 {
        crate::headers::lemma_remove_name_push(m3, d_e, sname);
        assert(r1 == spec_remove_name(m3, sname).push(d_e));
    }
    if message.len() > 0 {
        crate::headers::lemma_remove_name_push(m2, m_e, sname);
        assert(spec_remove_name(m3, sname) == spec_remove_name(m2, sname).push(m_e));
    }
    assert(spec_remove_name(m2, sname) == metadata);
    let r2 = spec_remove_name(r1, mname);
    if details.len() > 0 {
        if message.len() > 0 {
            crate::headers::lemma_remove_name_push(metadata.push(m_e), d_e, mname);
            crate::headers::lemma_remove_name_push(metadata, m_e, mname);
        } else {
            crate::headers::lemma_remove_name_push(metadata, d_e, mname);
        }
    } else {
        if message.len() > 0 {
            crate::headers::lemma_remove_name_push(metadata, m_e, mname);
        }
    }
    assert(r2 == if details.len() > 0 {
        metadata.push(d_e)
    } else {
        metadata
    });
    let r3 = spec_remove_name(r2, dname);
    if details.len() > 0 {
        crate::headers::lemma_remove_name_push(metadata, d_e, dname);
    }
    assert(r3 == metadata);
}

/// The header block a status writes over a base block: sanitized
/// metadata first, then the three owned headers.
pub open spec fn spec_status_wire(
    code: Code,
    message: Seq<char>,
    details: Seq<u8>,
    metadata: HeaderSeq,
    base: HeaderSeq,
) -> HeaderSeq {
    let m1 = base + spec_sanitize(metadata);
    let m2 = spec_insert(m1, "grpc-status"@, code.spec_wire_digits());
    let m3 = if message.len() == 0 {
        m2
    } else {
        spec_insert(m2, "grpc-message"@, spec_percent_encode(encode_utf8(message)))
    };
    if details.len() == 0 {
        m3
    } else {
        spec_insert(m3, "grpc-status-details-bin"@, spec_base64_encode(details))
    }
}

} // verus!
