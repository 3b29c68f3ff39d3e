use axum::http::header::{ACCEPT, AUTHORIZATION, CONTENT_TYPE, HOST};
use axum::http::{HeaderMap, HeaderName, HeaderValue};
use light_local_router::headers::build_headers;

fn credential() -> HeaderValue {
    HeaderValue::from_static("Bearer sk-abc")
}

#[test]
fn host_and_authorization_are_replaced() {
    let mut src = HeaderMap::new();
    src.insert(HOST, HeaderValue::from_static("localhost:8080"));
    src.insert(AUTHORIZATION, HeaderValue::from_static("Bearer inbound"));
    src.insert(CONTENT_TYPE, HeaderValue::from_static("application/json"));
    let dst = build_headers(&src, &credential()).unwrap();
    assert!(!dst.contains_key(HOST));
    let auth: Vec<&HeaderValue> = dst.get_all(AUTHORIZATION).iter().collect();
    assert_eq!(auth, vec![&credential()]);
    assert_eq!(dst.get(CONTENT_TYPE).unwrap(), "application/json");
    assert_eq!(dst.len(), 2);
}

#[test]
fn empty_headers_get_the_credential() {
    let dst = build_headers(&HeaderMap::new(), &credential()).unwrap();
    assert_eq!(dst.len(), 1);
    assert_eq!(dst.get(AUTHORIZATION).unwrap(), "Bearer sk-abc");
}

#[test]
fn several_inbound_authorization_headers_leave_one() {
    let mut src = HeaderMap::new();
    src.append(AUTHORIZATION, HeaderValue::from_static("one"));
    src.append(AUTHORIZATION, HeaderValue::from_static("two"));
    src.append(HOST, HeaderValue::from_static("a"));
    src.append(HOST, HeaderValue::from_static("b"));
    let dst = build_headers(&src, &credential()).unwrap();
    assert_eq!(dst.len(), 1);
    assert_eq!(dst.get_all(AUTHORIZATION).iter().count(), 1);
    assert_eq!(dst.get(AUTHORIZATION).unwrap(), "Bearer sk-abc");
    assert!(dst.get(HOST).is_none());
}

#[test]
fn every_value_of_a_repeated_header_is_copied_in_order() {
    let mut src = HeaderMap::new();
    src.append(ACCEPT, HeaderValue::from_static("text/plain"));
    src.append(HeaderName::from_static("x-trace"), HeaderValue::from_static("1"));
    src.append(ACCEPT, HeaderValue::from_static("application/json"));
    src.append(ACCEPT, HeaderValue::from_static("*/*"));
    let dst = build_headers(&src, &credential()).unwrap();
    let accept: Vec<&str> = dst
        .get_all(ACCEPT)
        .iter()
        .map(|v| v.to_str().unwrap())
        .collect();
    assert_eq!(accept, vec!["text/plain", "application/json", "*/*"]);
    assert_eq!(dst.get("x-trace").unwrap(), "1");
    assert_eq!(dst.len(), 5);
}

#[test]
fn header_names_match_in_any_case() {
    let mut src = HeaderMap::new();
    src.insert(
        HeaderName::from_bytes(b"Host").unwrap(),
        HeaderValue::from_static("h"),
    );
    src.insert(
        HeaderName::from_bytes(b"AUTHORIZATION").unwrap(),
        HeaderValue::from_static("x"),
    );
    src.insert(
        HeaderName::from_bytes(b"X-Host").unwrap(),
        HeaderValue::from_static("kept"),
    );
    let dst = build_headers(&src, &credential()).unwrap();
    assert!(dst.get("host").is_none());
    assert_eq!(dst.get("authorization").unwrap(), "Bearer sk-abc");
    assert_eq!(dst.get("x-host").unwrap(), "kept");
    assert_eq!(dst.len(), 2);
}

#[test]
fn opaque_value_bytes_are_copied() {
    let mut src = HeaderMap::new();
    src.insert(
        HeaderName::from_static("x-bin"),
        HeaderValue::from_bytes(&[0x80, 0xff, b'a']).unwrap(),
    );
    let dst = build_headers(&src, &credential()).unwrap();
    assert_eq!(dst.get("x-bin").unwrap().as_bytes(), &[0x80, 0xff, b'a']);
}

#[test]
fn source_headers_are_left_alone() {
    let mut src = HeaderMap::new();
    src.insert(HOST, HeaderValue::from_static("h"));
    let before = src.clone();
    let _ = build_headers(&src, &credential()).unwrap();
    assert_eq!(src, before);
}

#[test]
fn map_with_room_is_always_built() {
    let mut src = HeaderMap::new();
    for i in 0..6553 {
        let name = HeaderName::from_bytes(format!("x-field-{}", i).as_bytes()).unwrap();
        src.append(name, HeaderValue::from_static("v"));
    }
    src.append(HOST, HeaderValue::from_static("h"));
    assert_eq!(src.keys_len(), 6554);
    let small: HeaderMap = src
        .iter()
        .filter(|(name, _)| *name != HOST)
        .map(|(name, value)| (name.clone(), value.clone()))
        .collect();
    assert_eq!(small.keys_len(), 6553);
    let dst = build_headers(&small, &credential()).unwrap();
    assert_eq!(dst.keys_len(), 6554);
    assert_eq!(dst.get(AUTHORIZATION).unwrap(), "Bearer sk-abc");
    assert_eq!(dst.get("x-field-6552").unwrap(), "v");
}

#[test]
fn repeated_names_take_no_room() {
    let mut src = HeaderMap::new();
    for _ in 0..5000 {
        src.append(ACCEPT, HeaderValue::from_static("*/*"));
    }
    let dst = build_headers(&src, &credential()).unwrap();
    assert_eq!(dst.get_all(ACCEPT).iter().count(), 5000);
    assert_eq!(dst.keys_len(), 2);
}
