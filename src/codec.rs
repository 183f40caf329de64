use vstd::prelude::*;
use crate::bridge::{encodable, CanonicalRequest, CanonicalResponse};
use crate::frame::nesting_within_limit;
use crate::pairs::{distinct_keys, pair_map};

verus! {

/// What the wire codec decodes a capability configuration out of `bytes`
/// into: the module id and its configuration values, or `None` where the
/// bytes hold no configuration.
pub uninterp spec fn decoded_config(bytes: Seq<u8>) -> Option<(Seq<char>, Map<Seq<char>, Seq<char>>)>;

/// What the wire codec decodes an HTTP response out of `bytes` into: status
/// code, status text, headers and body, or `None` where the bytes hold no
/// response.
pub uninterp spec fn decoded_response(bytes: Seq<u8>) -> Option<(u32, Seq<char>, Map<Seq<char>, Seq<char>>, Seq<u8>)>;

/// What the wire codec decodes an HTTP request out of `bytes` into: method,
/// path, query string, headers and body, or `None` where the bytes hold no
/// request.
pub uninterp spec fn decoded_request(bytes: Seq<u8>) -> Option<(Seq<char>, Seq<char>, Seq<char>, Map<Seq<char>, Seq<char>>, Seq<u8>)>;

/// Relies on `wascc_codec::deserialize` for `CapabilityConfiguration`: the
/// decoded value depends on the bytes alone, and its values come out of a
/// `HashMap`, so no key occurs twice. The list's order is the map's. The
/// decoder recurses once per level of nesting, with no limit of its own, so
/// the input's nesting is bounded first.
#[verifier::external_body]
pub(crate) fn decode_config(msg: &[u8]) -> (r: Result<(String, Vec<(String, String)>), String>)
    requires
        nesting_within_limit(msg@),
    ensures
        match r {
            Ok((module, values)) => {
                &&& decoded_config(msg@) == Some((module@, pair_map(values@)))
                &&& distinct_keys(values@)
            },
            Err(_) => decoded_config(msg@) is None,
        },
{
    match wascc_codec::deserialize::<wascc_codec::core::CapabilityConfiguration>(msg) {
        Ok(c) => Ok((c.module, c.values.into_iter().collect())),
        Err(e) => Err(e.to_string()),
    }
}

/// Relies on `wascc_codec::deserialize` for `http::Response`: the decoded
/// value depends on the bytes alone, and its headers come out of a
/// `HashMap`, so no name occurs twice. The input's nesting is bounded first,
/// as for [`decode_config`].
#[verifier::external_body]
pub(crate) fn decode_response(bytes: &[u8]) -> (r: Result<CanonicalResponse, String>)
    requires
        nesting_within_limit(bytes@),
    ensures
        match r {
            Ok(resp) => {
                &&& decoded_response(bytes@) == Some(
                    (resp.status_code, resp.status@, pair_map(resp.header@), resp.body@),
                )
                &&& distinct_keys(resp.header@)
            },
            Err(_) => decoded_response(bytes@) is None,
        },
{
    match wascc_codec::deserialize::<wascc_codec::http::Response>(bytes) {
        Ok(r) => Ok(CanonicalResponse {
            status_code: r.status_code,
            status: r.status,
            header: r.header.into_iter().collect(),
            body: r.body,
        }),
        Err(e) => Err(e.to_string()),
    }
}

/// Relies on `wascc_codec::serialize` for `http::Request`: it writes to a
/// `Vec` and every length is known, so it fails only where a length does not
/// fit the `u32` that the encoder writes, which `encodable` rules out. What
/// it writes decodes back to the same request, its headers collected into a
/// `HashMap` in which a later pair overrides an earlier one with its name.
/// The bytes themselves follow the map's order of iteration, which differs
/// from process to process, so they get no name of their own.
#[verifier::external_body]
pub(crate) fn encode_request(req: &CanonicalRequest) -> (r: Result<Vec<u8>, String>)
    requires
        encodable(*req),
    ensures
        r is Ok,
        r is Ok ==> decoded_request(r->Ok_0@) == Some(
            (req.method@, req.path@, req.query_string@, pair_map(req.header@), req.body@),
        ),
{
    let request = wascc_codec::http::Request {
        method: req.method.clone(),
        path: req.path.clone(),
        query_string: req.query_string.clone(),
        header: req.header.iter().cloned().collect(),
        body: req.body.clone(),
    };
    wascc_codec::serialize(request).map_err(|e| e.to_string())
}

} // verus!
