use lucat::base64::{base64_decode, base64_encode};
use lucat::headers::HeaderMap;
use lucat::metadata::MetadataMap;
use lucat::percent::{percent_decode, percent_encode};
use lucat::status::{
    code_for_h2_reason, code_for_io_kind, infer_grpc_status, H2Reason, IoErrorKind,
};
use lucat::{Code, Status};

#[test]
fn code_numeric_values_match_the_table() {
    let expected = [
        (Code::Okay, 0),
        (Code::Cancelled, 1),
        (Code::Unknown, 2),
        (Code::InvalidArgument, 3),
        (Code::DeadlineExceeded, 4),
        (Code::NotFound, 5),
        (Code::AlreadyExists, 6),
        (Code::PermissionDenied, 7),
        (Code::ResourceExhausted, 8),
        (Code::FailedPrecondition, 9),
        (Code::Aborted, 10),
        (Code::OutOfRange, 11),
        (Code::Unimplemented, 12),
        (Code::Internal, 13),
        (Code::Unavailable, 14),
        (Code::DataLoss, 15),
        (Code::Unauthenticated, 16),
    ];
    for (code, num) in expected {
        assert_eq!(code.to_i32(), num);
        assert_eq!(Code::from_i32(num), code);
    }
    assert_eq!(Code::from_i32(17), Code::Unknown);
    assert_eq!(Code::from_i32(-1), Code::Unknown);
}

#[test]
fn code_wire_digits_round_trip() {
    for num in 0..=16 {
        let code = Code::from_i32(num);
        let wire = code.to_header_value();
        assert_eq!(Code::from_bytes(&wire), code);
    }
    assert_eq!(Code::from_bytes(b"0"), Code::Okay);
    assert_eq!(Code::from_bytes(b"9"), Code::FailedPrecondition);
    assert_eq!(Code::from_bytes(b"10"), Code::Aborted);
    assert_eq!(Code::from_bytes(b"16"), Code::Unauthenticated);
}

#[test]
fn invalid_status_digits_come_back_unknown() {
    assert_eq!(Code::from_bytes(b""), Code::Unknown);
    assert_eq!(Code::from_bytes(b"x"), Code::Unknown);
    assert_eq!(Code::from_bytes(b"1x"), Code::Unknown);
    assert_eq!(Code::from_bytes(b"17"), Code::Unknown);
    assert_eq!(Code::from_bytes(b"27"), Code::Unknown);
    assert_eq!(Code::from_bytes(b"007"), Code::Unknown);
}

#[test]
fn percent_encoding_matches_the_escape_set() {
    let encoded = percent_encode(b"a b#c{d}");
    assert_eq!(encoded, b"a%20b%23c%7Bd%7D".to_vec());
    assert_eq!(percent_decode(&encoded), b"a b#c{d}".to_vec());
}

#[test]
fn percent_decoding_inverts_encoding() {
    let samples: [&[u8]; 4] = [b"plain", b"with space", b"\x01\x02\x7f", b"mixed <text>?"];
    for sample in samples {
        assert_eq!(percent_decode(&percent_encode(sample)), sample.to_vec());
    }
    // A lone percent sign passes through both ways unchanged.
    assert_eq!(percent_decode(b"100%"), b"100%".to_vec());
}

#[test]
fn base64_details_round_trip() {
    let encoded = base64_encode(&[0xde, 0xad, 0xbe, 0xef]);
    assert_eq!(encoded, b"3q2+7w".to_vec());
    assert_eq!(base64_decode(&encoded), Some(vec![0xde, 0xad, 0xbe, 0xef]));
    assert_eq!(base64_decode(b"!!"), None);
    assert_eq!(base64_decode(b"abcde"), None);
    assert_eq!(base64_encode(b""), Vec::<u8>::new());
}

#[test]
fn status_with_details_writes_base64_trailer() {
    let status = Status::with_details(
        Code::FailedPrecondition,
        "precondition",
        vec![0xde, 0xad, 0xbe, 0xef],
    );
    let headers = status.to_header_map().unwrap();
    assert_eq!(headers.get("grpc-status"), Some(b"9".to_vec()));
    assert_eq!(headers.get("grpc-message"), Some(b"precondition".to_vec()));
    assert_eq!(
        headers.get("grpc-status-details-bin"),
        Some(b"3q2+7w".to_vec())
    );
    let parsed = Status::from_header_map(&headers).unwrap();
    assert_eq!(parsed.code(), Code::FailedPrecondition);
    assert_eq!(parsed.message(), "precondition");
    assert_eq!(parsed.details(), &[0xde, 0xad, 0xbe, 0xef]);
}

#[test]
fn status_message_is_percent_encoded_on_the_wire() {
    let status = Status::unknown("a b#c{d}");
    let headers = status.to_header_map().unwrap();
    assert_eq!(headers.get("grpc-message"), Some(b"a%20b%23c%7Bd%7D".to_vec()));
    let parsed = Status::from_header_map(&headers).unwrap();
    assert_eq!(parsed.code(), Code::Unknown);
    assert_eq!(parsed.message(), "a b#c{d}");
}

#[test]
fn status_round_trips_through_headers_with_metadata() {
    let mut metadata = MetadataMap::new();
    metadata.insert(
        "x-span",
        lucat::metadata::AsciiMetadataValue::from_str("abc").unwrap(),
    );
    let status = Status::with_details_and_metadata(
        Code::ResourceExhausted,
        "too much",
        vec![1, 2, 3],
        metadata,
    );
    let headers = status.to_header_map().unwrap();
    let parsed = Status::from_header_map(&headers).unwrap();
    assert_eq!(parsed.code(), Code::ResourceExhausted);
    assert_eq!(parsed.message(), "too much");
    assert_eq!(parsed.details(), &[1, 2, 3]);
    let value = parsed.metadata().get("x-span").unwrap();
    assert_eq!(value.as_bytes(), b"abc");
    assert_eq!(parsed.metadata().len(), 1);
}

#[test]
fn empty_message_and_details_write_no_headers() {
    let status = Status::ok("");
    let headers = status.to_header_map().unwrap();
    assert_eq!(headers.get("grpc-status"), Some(b"0".to_vec()));
    assert_eq!(headers.get("grpc-message"), None);
    assert_eq!(headers.get("grpc-status-details-bin"), None);
    let parsed = Status::from_header_map(&headers).unwrap();
    assert_eq!(parsed.code(), Code::Okay);
    assert_eq!(parsed.message(), "");
    assert_eq!(parsed.details(), b"");
}

#[test]
fn missing_grpc_status_parses_to_nothing() {
    let mut headers = HeaderMap::new();
    headers.insert("content-type", b"application/grpc".to_vec());
    assert!(Status::from_header_map(&headers).is_none());
}

#[test]
fn invalid_digits_synthesize_unknown() {
    let mut headers = HeaderMap::new();
    headers.insert("grpc-status", b"boom".to_vec());
    let parsed = Status::from_header_map(&headers).unwrap();
    assert_eq!(parsed.code(), Code::Unknown);
}

#[test]
fn undecodable_message_synthesizes_unknown() {
    let mut headers = HeaderMap::new();
    headers.insert("grpc-status", b"3".to_vec());
    // %ff percent-decodes to a byte that is not UTF-8.
    headers.insert("grpc-message", b"%ff%fe".to_vec());
    let parsed = Status::from_header_map(&headers).unwrap();
    assert_eq!(parsed.code(), Code::Unknown);
    assert_eq!(parsed.message(), "Error deserializing status message header");
}

#[test]
fn infer_reports_nothing_for_bare_200() {
    assert!(matches!(infer_grpc_status(None, 200), Err(None)));
    let empty = HeaderMap::new();
    assert!(matches!(infer_grpc_status(Some(&empty), 200), Err(None)));
}

#[test]
fn infer_maps_http_503_to_unavailable() {
    let r = infer_grpc_status(None, 503);
    match r {
        Err(Some(status)) => {
            assert_eq!(status.code(), Code::Unavailable);
            assert_eq!(
                status.message(),
                "grpc-status header missing, mapped from HTTP status code 503"
            );
        }
        other => panic!("expected a synthesized status, got {:?}", other),
    }
}

#[test]
fn infer_maps_the_other_http_codes() {
    let cases = [
        (400, Code::Internal),
        (401, Code::Unauthenticated),
        (403, Code::PermissionDenied),
        (404, Code::Unimplemented),
        (429, Code::Unavailable),
        (502, Code::Unavailable),
        (504, Code::Unavailable),
        (500, Code::Unknown),
    ];
    for (http, code) in cases {
        match infer_grpc_status(None, http) {
            Err(Some(status)) => assert_eq!(status.code(), code),
            other => panic!("expected a synthesized status, got {:?}", other),
        }
    }
}

#[test]
fn infer_prefers_trailer_status() {
    let ok = Status::ok("");
    let trailers = ok.to_header_map().unwrap();
    assert!(matches!(infer_grpc_status(Some(&trailers), 503), Ok(())));

    let bad = Status::invalid_argument("bad data");
    let trailers = bad.to_header_map().unwrap();
    match infer_grpc_status(Some(&trailers), 200) {
        Err(Some(status)) => {
            assert_eq!(status.code(), Code::InvalidArgument);
            assert_eq!(status.message(), "bad data");
        }
        other => panic!("expected the trailer status, got {:?}", other),
    }
}

#[test]
fn h2_reasons_map_per_the_table() {
    let internal = [
        H2Reason::NoError,
        H2Reason::ProtocolError,
        H2Reason::InternalError,
        H2Reason::FlowControlError,
        H2Reason::SettingsTimeout,
        H2Reason::CompressionError,
        H2Reason::ConnectError,
    ];
    for reason in internal {
        assert_eq!(code_for_h2_reason(reason), Code::Internal);
    }
    assert_eq!(code_for_h2_reason(H2Reason::RefusedStream), Code::Unavailable);
    assert_eq!(code_for_h2_reason(H2Reason::Cancel), Code::Cancelled);
    assert_eq!(
        code_for_h2_reason(H2Reason::EnhanceYourCalm),
        Code::ResourceExhausted
    );
    assert_eq!(
        code_for_h2_reason(H2Reason::InadequateSecurity),
        Code::PermissionDenied
    );
    assert_eq!(code_for_h2_reason(H2Reason::Other), Code::Unknown);
}

#[test]
fn io_kinds_map_per_the_table() {
    let internal = [
        IoErrorKind::BrokenPipe,
        IoErrorKind::WouldBlock,
        IoErrorKind::WriteZero,
        IoErrorKind::Interrupted,
    ];
    for kind in internal {
        assert_eq!(code_for_io_kind(kind), Code::Internal);
    }
    let unavailable = [
        IoErrorKind::ConnectionRefused,
        IoErrorKind::ConnectionReset,
        IoErrorKind::NotConnected,
        IoErrorKind::AddrInUse,
        IoErrorKind::AddrNotAvailable,
    ];
    for kind in unavailable {
        assert_eq!(code_for_io_kind(kind), Code::Unavailable);
    }
    assert_eq!(code_for_io_kind(IoErrorKind::AlreadyExists), Code::AlreadyExists);
    assert_eq!(code_for_io_kind(IoErrorKind::ConnectionAborted), Code::Aborted);
    assert_eq!(code_for_io_kind(IoErrorKind::InvalidData), Code::DataLoss);
    assert_eq!(code_for_io_kind(IoErrorKind::InvalidInput), Code::InvalidArgument);
    assert_eq!(code_for_io_kind(IoErrorKind::NotFound), Code::NotFound);
    assert_eq!(
        code_for_io_kind(IoErrorKind::PermissionDenied),
        Code::PermissionDenied
    );
    assert_eq!(code_for_io_kind(IoErrorKind::TimedOut), Code::DeadlineExceeded);
    assert_eq!(code_for_io_kind(IoErrorKind::UnexpectedEof), Code::OutOfRange);
    assert_eq!(code_for_io_kind(IoErrorKind::Other), Code::Unknown);
}

#[test]
fn status_to_h2_reason_keeps_only_cancellation() {
    assert_eq!(Status::cancelled("gone").to_h2_reason(), H2Reason::Cancel);
    assert_eq!(Status::internal("boom").to_h2_reason(), H2Reason::InternalError);
    assert_eq!(Status::ok("").to_h2_reason(), H2Reason::InternalError);
}

#[test]
fn code_descriptions_are_stable() {
    assert_eq!(
        Code::Okay.description(),
        "The operation completed successfully"
    );
    assert_eq!(Code::Unknown.description(), "Unknown error");
    assert_eq!(
        Code::Unauthenticated.description(),
        "The request does not have valid authentication credentials"
    );
}

#[test]
fn invalid_base64_details_synthesize_unknown() {
    let mut headers = HeaderMap::new();
    headers.insert("grpc-status", b"9".to_vec());
    headers.insert("grpc-status-details-bin", b"!!".to_vec());
    headers.insert("x-kept", b"yes".to_vec());
    let parsed = Status::from_header_map(&headers).unwrap();
    assert_eq!(parsed.code(), Code::Unknown);
    assert_eq!(
        parsed.message(),
        "Invalid status header, expected base64 encoded value"
    );
    assert!(parsed.details().is_empty());
    assert_eq!(parsed.metadata().len(), 1);
}
