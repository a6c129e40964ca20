use lucat::headers::HeaderMap;
use lucat::metadata::{
    Ascii, AsciiMetadataValue, Binary, BinaryMetadataValue, MetadataKey, MetadataMap,
};

#[test]
fn it_can_insert_metadata_key_as_metadata_value() {
    let mut map = MetadataMap::new();
    let key = MetadataKey::<Ascii>::from_bytes(b"hello-world").unwrap();
    map.insert("accept", AsciiMetadataValue::from_key(key));

    assert_eq!(
        map.get("accept").unwrap(),
        AsciiMetadataValue::try_from_bytes(b"hello-world").unwrap()
    );
}

#[test]
fn ascii_api_rejects_bin_suffixed_keys() {
    assert!(MetadataKey::<Ascii>::from_bytes(b"trailer-bin").is_err());
    assert!(MetadataKey::<Binary>::from_bytes(b"trailer-bin").is_ok());
    assert!(MetadataKey::<Binary>::from_bytes(b"trailer").is_err());
    assert!(MetadataKey::<Ascii>::from_bytes(b"trailer").is_ok());
    assert!(MetadataKey::<Ascii>::from_bytes(b"").is_err());
    assert!(MetadataKey::<Ascii>::from_bytes(b"No-Upper").is_err());
}

#[test]
fn ascii_reads_skip_binary_keys_and_back() {
    let mut map = MetadataMap::new();
    map.insert("plain", AsciiMetadataValue::from_str("one").unwrap());
    map.insert_bin("blob-bin", BinaryMetadataValue::from_bytes(&[1, 2, 3]));

    assert!(map.get("blob-bin").is_none());
    assert!(map.get_bin("plain").is_none());
    assert_eq!(map.get_bin("blob-bin").unwrap().to_bytes().unwrap(), vec![1, 2, 3]);
    assert_eq!(map.get("plain").unwrap().as_bytes(), b"one");
}

#[test]
fn binary_values_travel_base64_encoded() {
    let value = BinaryMetadataValue::from_bytes(&[0xde, 0xad, 0xbe, 0xef]);
    assert_eq!(value.as_encoded_bytes(), b"3q2+7w");
    assert_eq!(value.to_bytes().unwrap(), vec![0xde, 0xad, 0xbe, 0xef]);
}

#[test]
fn append_keeps_every_value_in_order() {
    let mut map = MetadataMap::new();
    map.append("k", AsciiMetadataValue::from_str("a").unwrap());
    map.append("k", AsciiMetadataValue::from_str("b").unwrap());
    let all = map.get_all("k");
    assert_eq!(all.len(), 2);
    assert_eq!(all[0].as_bytes(), b"a");
    assert_eq!(all[1].as_bytes(), b"b");
    assert_eq!(map.get("k").unwrap().as_bytes(), b"a");
    assert_eq!(map.len(), 2);
}

#[test]
fn insert_replaces_and_returns_the_first_value() {
    let mut map = MetadataMap::new();
    assert!(map.insert("k", AsciiMetadataValue::from_str("a").unwrap()).is_none());
    map.append("k", AsciiMetadataValue::from_str("b").unwrap());
    let prev = map.insert("k", AsciiMetadataValue::from_str("c").unwrap()).unwrap();
    assert_eq!(prev.as_bytes(), b"a");
    assert_eq!(map.len(), 1);
    assert_eq!(map.get("k").unwrap().as_bytes(), b"c");
}

#[test]
fn remove_drops_every_value_of_a_key() {
    let mut map = MetadataMap::new();
    map.append("k", AsciiMetadataValue::from_str("a").unwrap());
    map.append("k", AsciiMetadataValue::from_str("b").unwrap());
    map.insert("other", AsciiMetadataValue::from_str("x").unwrap());
    let removed = map.remove("k").unwrap();
    assert_eq!(removed.as_bytes(), b"a");
    assert!(map.get("k").is_none());
    assert!(map.contains_key("other"));
    assert!(!map.contains_key("k"));
    assert_eq!(map.len(), 1);
}

#[test]
fn sanitized_headers_drop_every_reserved_name() {
    let mut headers = HeaderMap::new();
    headers.append("te", b"trailers".to_vec());
    headers.append("user-agent", b"x".to_vec());
    headers.append("content-type", b"application/grpc".to_vec());
    headers.append("grpc-message", b"m".to_vec());
    headers.append("grpc-message-type", b"t".to_vec());
    headers.append("grpc-status", b"0".to_vec());
    headers.append("x-kept", b"yes".to_vec());
    let sanitized = MetadataMap::from_headers(headers).into_sanitized_headers();
    for reserved in [
        "te",
        "user-agent",
        "content-type",
        "grpc-message",
        "grpc-message-type",
        "grpc-status",
    ] {
        assert!(sanitized.get(reserved).is_none());
    }
    assert_eq!(sanitized.get("x-kept"), Some(b"yes".to_vec()));
    assert_eq!(sanitized.len(), 1);
}

#[test]
fn merge_appends_the_other_map() {
    let mut a = MetadataMap::new();
    a.insert("one", AsciiMetadataValue::from_str("1").unwrap());
    let mut b = MetadataMap::new();
    b.insert("two", AsciiMetadataValue::from_str("2").unwrap());
    a.merge(b);
    assert_eq!(a.len(), 2);
    assert_eq!(a.get("one").unwrap().as_bytes(), b"1");
    assert_eq!(a.get("two").unwrap().as_bytes(), b"2");
}

#[test]
fn values_check_their_bytes() {
    assert!(AsciiMetadataValue::from_str("ok value").is_ok());
    assert!(AsciiMetadataValue::from_str("bad\nvalue").is_err());
    assert!(AsciiMetadataValue::try_from_bytes(b"\x7f").is_err());
    let v = AsciiMetadataValue::from_str("text").unwrap();
    assert_eq!(v.to_str().unwrap(), "text");
    assert_eq!(v.len(), 4);
    assert!(!v.is_empty());
}

#[test]
fn values_with_unprintable_bytes_refuse_to_str() {
    let v = AsciiMetadataValue::try_from_bytes(b"has\ttab").unwrap();
    assert!(v.to_str().is_err());
}

#[test]
fn sensitive_is_a_flag_on_the_value() {
    let mut v = AsciiMetadataValue::from_str("secret").unwrap();
    assert!(!v.is_sensitive());
    v.set_sensitive(true);
    assert!(v.is_sensitive());
    assert_eq!(v.as_bytes(), b"secret");
}

#[test]
fn header_map_reads_first_values() {
    let mut headers = HeaderMap::new();
    assert!(headers.is_empty());
    headers.append("k", b"a".to_vec());
    headers.append("k", b"b".to_vec());
    assert_eq!(headers.get("k"), Some(b"a".to_vec()));
    assert_eq!(headers.get_all("k"), vec![b"a".to_vec(), b"b".to_vec()]);
    assert!(headers.contains_name("k"));
    assert!(!headers.contains_name("missing"));
    let prev = headers.insert("k", b"c".to_vec());
    assert_eq!(prev, Some(b"a".to_vec()));
    assert_eq!(headers.len(), 1);
    headers.clear();
    assert!(headers.is_empty());
}

#[test]
fn keys_len_counts_distinct_names() {
    let mut map = MetadataMap::new();
    map.append("a", AsciiMetadataValue::from_str("1").unwrap());
    map.append("a", AsciiMetadataValue::from_str("2").unwrap());
    map.append("b", AsciiMetadataValue::from_str("3").unwrap());
    assert_eq!(map.len(), 3);
    assert_eq!(map.keys_len(), 2);
    let (name, value) = map.entry_at(0);
    assert_eq!(name, "a");
    assert_eq!(value, b"1".to_vec());
}

#[test]
fn the_timeout_header_name_is_reserved_but_unenforced() {
    assert_eq!(lucat::metadata::map::GRPC_TIMEOUT_HEADER, "grpc-timeout");
}
