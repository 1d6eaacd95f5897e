use http::{HeaderMap, HeaderValue};
use traffic_generator::response::{
    check_multiplexed_body, check_serialized, check_upstream, validate_serialized,
    validate_upstream, BodyTally, Chunk, Verdict, EXPECTED_BODY_SIZE,
};

fn headers(pairs: &[(&'static str, &'static str)]) -> HeaderMap {
    let mut map = HeaderMap::new();
    for (name, value) in pairs {
        map.append(*name, HeaderValue::from_static(value));
    }
    map
}

#[test]
fn serialized_fixture_passes() {
    assert_eq!(EXPECTED_BODY_SIZE, 1069320);
    let ct = Some(b"application/wasm".to_vec());
    assert_eq!(check_serialized(1069320, &ct), Verdict::Valid);
}

#[test]
fn serialized_wrong_size_fails() {
    let ct = Some(b"application/wasm".to_vec());
    assert_eq!(check_serialized(1069319, &ct), Verdict::WrongBodySize);
    assert_eq!(check_serialized(0, &ct), Verdict::WrongBodySize);
    assert_eq!(check_serialized(1069321, &None), Verdict::WrongBodySize);
}

#[test]
fn serialized_content_type_checked() {
    assert_eq!(check_serialized(1069320, &None), Verdict::MissingContentType);
    let ct = Some(b"text/plain".to_vec());
    assert_eq!(check_serialized(1069320, &ct), Verdict::WrongContentType);
    let ct = Some(b"application/wasm2".to_vec());
    assert_eq!(check_serialized(1069320, &ct), Verdict::WrongContentType);
}

#[test]
fn serialized_from_header_map() {
    let h = headers(&[("content-type", "application/wasm")]);
    assert_eq!(validate_serialized(1069320, &h), Verdict::Valid);
    let h = headers(&[("Content-Type", "application/json")]);
    assert_eq!(validate_serialized(1069320, &h), Verdict::WrongContentType);
    let h = headers(&[("x-other", "application/wasm")]);
    assert_eq!(validate_serialized(1069320, &h), Verdict::MissingContentType);
    let h = headers(&[("content-type", "application/wasm"), ("content-type", "text/plain")]);
    assert_eq!(validate_serialized(1069320, &h), Verdict::Valid);
}

#[test]
fn upstream_header_value_checked() {
    assert_eq!(check_upstream(&Some(b"true".to_vec())), Verdict::Valid);
    assert_eq!(check_upstream(&Some(b"false".to_vec())), Verdict::WrongUpstreamHeader);
    assert_eq!(check_upstream(&Some(b"TRUE".to_vec())), Verdict::WrongUpstreamHeader);
    assert_eq!(check_upstream(&None), Verdict::WrongUpstreamHeader);
}

#[test]
fn upstream_from_header_map() {
    let h = headers(&[("x-super-fast-large-data-server", "true")]);
    assert_eq!(validate_upstream(&h), Verdict::Valid);
    let h = headers(&[("x-super-fast-large-data-server", "yes")]);
    assert_eq!(validate_upstream(&h), Verdict::WrongUpstreamHeader);
    assert_eq!(validate_upstream(&headers(&[])), Verdict::WrongUpstreamHeader);
}

#[test]
fn multiplexed_body_must_be_nonempty() {
    assert_eq!(check_multiplexed_body(0), Verdict::EmptyBody);
    assert_eq!(check_multiplexed_body(1), Verdict::Valid);
    assert_eq!(check_multiplexed_body(1069320), Verdict::Valid);
}

#[test]
fn tally_sums_until_read_error() {
    let mut t = BodyTally::new();
    assert!(t.on_chunk(Chunk::Data { len: 16384 }));
    assert!(t.on_chunk(Chunk::Data { len: 100 }));
    assert!(!t.on_chunk(Chunk::ReadError));
    assert_eq!(t.size(), 16484);
}

#[test]
fn tally_of_empty_body() {
    let t = BodyTally::new();
    assert_eq!(t.size(), 0);
}
