use std::collections::HashMap;

use httpsrv::bridge::{
    build_request, failure_reply, prepare_dispatch, reply_for, reply_for_response,
    CanonicalResponse, FAILURE_BODY, FAILURE_STATUS, HANDLE_REQUEST_OP,
};
use httpsrv::bridge::fits_wire;
use httpsrv::frame::check_nesting;
use httpsrv::pairs::{fold_pairs, lookup_last};

fn pair(a: &str, b: &str) -> (String, String) {
    (a.to_string(), b.to_string())
}

fn encoded_response(status_code: u32, header: &[(&str, &str)], body: &[u8]) -> Vec<u8> {
    let resp = wascc_codec::http::Response {
        status_code,
        status: "OK".to_string(),
        header: header.iter().map(|(k, v)| (k.to_string(), v.to_string())).collect(),
        body: body.to_vec(),
    };
    wascc_codec::serialize(resp).unwrap()
}

#[test]
fn duplicate_header_keeps_later_value() {
    let raw = vec![pair("accept", "text/plain"), pair("x-id", "1"), pair("accept", "application/json")];
    let folded = fold_pairs(&raw);
    assert_eq!(folded.len(), 2);
    assert_eq!(lookup_last(&folded, &"accept".to_string()), Some(&"application/json".to_string()));
    assert_eq!(lookup_last(&folded, &"x-id".to_string()), Some(&"1".to_string()));
}

#[test]
fn canonical_request_folds_headers() {
    let raw = vec![pair("host", "a"), pair("host", "b")];
    let req = build_request("GET".to_string(), "/p".to_string(), "q=1".to_string(), &raw, b"xyz".to_vec());
    assert_eq!(req.header, vec![pair("host", "b")]);
    assert_eq!(req.method, "GET");
    assert_eq!(req.path, "/p");
    assert_eq!(req.query_string, "q=1");
    assert_eq!(req.body, b"xyz".to_vec());
}

#[test]
fn fold_of_empty_list_is_empty() {
    assert!(fold_pairs(&Vec::new()).is_empty());
}

#[test]
fn lookup_finds_last_value() {
    let raw = vec![pair("PORT", "1"), pair("HOST", "h"), pair("PORT", "2")];
    assert_eq!(lookup_last(&raw, &"PORT".to_string()), Some(&"2".to_string()));
    assert_eq!(lookup_last(&raw, &"HOST".to_string()), Some(&"h".to_string()));
    assert_eq!(lookup_last(&raw, &"NONE".to_string()), None);
}

#[test]
fn request_payload_round_trips() {
    let raw = vec![pair("accept", "*/*"), pair("x-a", "1"), pair("x-a", "2")];
    let req = build_request("POST".to_string(), "/items".to_string(), "a=1&b=2".to_string(), &raw, vec![0, 1, 2, 255]);
    let call = prepare_dispatch(&"m1".to_string(), &req).unwrap();
    assert_eq!(call.module, "m1");
    assert_eq!(call.operation, HANDLE_REQUEST_OP);
    let back: wascc_codec::http::Request = wascc_codec::deserialize(&call.payload).unwrap();
    assert_eq!(back.method, "POST");
    assert_eq!(back.path, "/items");
    assert_eq!(back.query_string, "a=1&b=2");
    let mut expected = HashMap::new();
    expected.insert("accept".to_string(), "*/*".to_string());
    expected.insert("x-a".to_string(), "2".to_string());
    assert_eq!(back.header, expected);
    assert_eq!(back.body, vec![0, 1, 2, 255]);
}

#[test]
fn dispatch_error_gives_fixed_failure() {
    let r = reply_for(Err("module unreachable".to_string()));
    assert_eq!(r.status, 500);
    assert_eq!(r.status, FAILURE_STATUS);
    assert!(r.header.is_empty());
    assert_eq!(r.body, b"Failed to handle request".to_vec());
    assert_eq!(r.body, FAILURE_BODY.as_bytes().to_vec());
}

#[test]
fn failure_isolated_from_other_module() {
    let a = reply_for(Err("guest trapped".to_string()));
    let b = reply_for(Ok(encoded_response(202, &[("x-b", "yes")], b"from b")));
    assert_eq!(a.status, 500);
    assert_eq!(a.body, b"Failed to handle request".to_vec());
    assert_eq!(b.status, 202);
    assert_eq!(b.header, vec![pair("x-b", "yes")]);
    assert_eq!(b.body, b"from b".to_vec());
}

#[test]
fn module_response_is_mirrored() {
    let r = reply_for(Ok(encoded_response(201, &[], b"ok")));
    assert_eq!(r.status, 201);
    assert!(r.header.is_empty());
    assert_eq!(r.body, b"ok".to_vec());
}

#[test]
fn undecodable_payload_gives_failure() {
    let r = reply_for(Ok(vec![0xc1, 0xc1, 0xc1]));
    assert_eq!(r.status, 500);
    assert_eq!(r.body, b"Failed to handle request".to_vec());
}

#[test]
fn out_of_range_status_gives_failure() {
    for code in [0u32, 99, 1000, 70000] {
        let r = reply_for(Ok(encoded_response(code, &[], b"x")));
        assert_eq!(r.status, 500);
        assert_eq!(r.body, b"Failed to handle request".to_vec());
    }
}

#[test]
fn status_range_edges_pass_through() {
    for code in [100u32, 999] {
        let resp = CanonicalResponse { status_code: code, status: String::new(), header: vec![], body: b"e".to_vec() };
        let r = reply_for_response(resp);
        assert_eq!(r.status as u32, code);
        assert_eq!(r.body, b"e".to_vec());
    }
}

#[test]
fn failure_reply_is_fixed() {
    let r = failure_reply();
    assert_eq!(r.status, 500);
    assert!(r.header.is_empty());
    assert_eq!(r.body, b"Failed to handle request".to_vec());
}

fn deeply_nested(levels: usize) -> Vec<u8> {
    let mut b = vec![0x81, 0xa1, b'x'];
    b.extend(std::iter::repeat(0x91).take(levels));
    b.push(0xc0);
    b
}

#[test]
fn deep_reply_gives_failure_without_decoding() {
    let r = reply_for(Ok(deeply_nested(100_000)));
    assert_eq!(r.status, 500);
    assert_eq!(r.body, b"Failed to handle request".to_vec());
}

#[test]
fn nesting_scan_bounds() {
    assert!(check_nesting(&deeply_nested(31)));
    assert!(!check_nesting(&deeply_nested(32)));
    assert!(!check_nesting(&[]));
    assert!(!check_nesting(&[0xc1]));
    assert!(!check_nesting(&[0xa3, b'a']));
    assert!(check_nesting(&[0xa3, b'a', b'b', b'c']));
    assert!(check_nesting(&encoded_response(200, &[("a", "b")], b"body")));
    assert!(!check_nesting(&[0xdd, 0xff, 0xff, 0xff, 0xff]));
}

#[test]
fn post_request_payload_decodes() {
    let raw = vec![pair("content-type", "text/plain")];
    let req = build_request("POST".to_string(), "/a/b".to_string(), "x=1&y=2".to_string(), &raw, b"hello".to_vec());
    assert!(fits_wire(&req));
    let call = prepare_dispatch(&"m".to_string(), &req).unwrap();
    assert_eq!(call.module, "m");
    assert_eq!(call.operation, "HandleRequest");
    let back: wascc_codec::http::Request = wascc_codec::deserialize(&call.payload).unwrap();
    let mut header = HashMap::new();
    header.insert("content-type".to_string(), "text/plain".to_string());
    let expected = wascc_codec::http::Request {
        method: "POST".to_string(),
        path: "/a/b".to_string(),
        query_string: "x=1&y=2".to_string(),
        header,
        body: b"hello".to_vec(),
    };
    assert_eq!(back, expected);
}

#[test]
fn get_request_payload_decodes() {
    let req = build_request("GET".to_string(), "/anything".to_string(), String::new(), &Vec::new(), Vec::new());
    let call = prepare_dispatch(&"m1".to_string(), &req).unwrap();
    assert_eq!(call.module, "m1");
    assert_eq!(call.operation, HANDLE_REQUEST_OP);
    let back: wascc_codec::http::Request = wascc_codec::deserialize(&call.payload).unwrap();
    assert_eq!(back.method, "GET");
    assert_eq!(back.path, "/anything");
    assert_eq!(back.query_string, "");
    assert!(back.header.is_empty());
    assert!(back.body.is_empty());
}
