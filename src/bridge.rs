use vstd::prelude::*;
use vstd::slice::slice_to_vec;
use vstd::string::StringSliceAdditionalSpecFns;
use crate::codec::{decode_response, decoded_request, decoded_response, encode_request};
use crate::frame::{check_nesting, nesting_within_limit};
use vstd::string::StrSliceExecFns;
use crate::pairs::{distinct_keys, fold_pairs, pair_map};

verus! {

/// Operation that a module is asked to perform for each inbound request.
pub const HANDLE_REQUEST_OP: &'static str = "HandleRequest";

/// Body of the reply sent when a module could not answer a request.
pub const FAILURE_BODY: &'static str = "Failed to handle request";

/// Status of the reply sent when a module could not answer a request.
pub const FAILURE_STATUS: u16 = 500;

/// An inbound HTTP request as handed to a module.
pub struct CanonicalRequest {
    pub method: String,
    pub path: String,
    pub query_string: String,
    pub header: Vec<(String, String)>,
    pub body: Vec<u8>,
}

/// A module's answer to a request.
pub struct CanonicalResponse {
    pub status_code: u32,
    pub status: String,
    pub header: Vec<(String, String)>,
    pub body: Vec<u8>,
}

/// What goes back over the wire to the HTTP client.
pub struct HttpReply {
    pub status: u16,
    pub header: Vec<(String, String)>,
    pub body: Vec<u8>,
}

/// A call to hand to the dispatcher: which module, which operation, and the
/// encoded request.
pub struct DispatchCall {
    pub module: String,
    pub operation: String,
    pub payload: Vec<u8>,
}

/// Longest text, in characters, that a request field may hold: its UTF-8
/// form then stays under the 2^32 bytes that the wire format can frame.
pub const MAX_FIELD_CHARS: usize = 0x4000_0000;

/// Most header pairs or body bytes that the wire format can frame.
pub const MAX_WIRE_LEN: u64 = 0xffff_ffff;

/// Whether every length in the request fits the wire format.
pub open spec fn encodable(req: CanonicalRequest) -> bool {
    &&& req.method@.len() < MAX_FIELD_CHARS
    &&& req.path@.len() < MAX_FIELD_CHARS
    &&& req.query_string@.len() < MAX_FIELD_CHARS
    &&& req.header@.len() <= MAX_WIRE_LEN
    &&& forall|i: int|
        0 <= i < req.header@.len() ==> #[trigger] req.header@[i].0@.len() < MAX_FIELD_CHARS
            && req.header@[i].1@.len() < MAX_FIELD_CHARS
    &&& req.body@.len() <= MAX_WIRE_LEN
}

/// What a payload that carries `req` decodes to.
pub open spec fn request_model(req: CanonicalRequest) -> (Seq<char>, Seq<char>, Seq<char>, Map<Seq<char>, Seq<char>>, Seq<u8>) {
    (req.method@, req.path@, req.query_string@, pair_map(req.header@), req.body@)
}

/// What the module's reply decodes to, where its nesting is within the
/// limit; `None` where it does not decode or nests too deep.
pub open spec fn accepted_response(bytes: Seq<u8>) -> Option<(u32, Seq<char>, Map<Seq<char>, Seq<char>>, Seq<u8>)> {
    if nesting_within_limit(bytes) {
        decoded_response(bytes)
    } else {
        None
    }
}

fn short_text(s: &String) -> (r: bool)
    ensures
        r == (s@.len() < MAX_FIELD_CHARS),
{
    s.as_str().unicode_len() < MAX_FIELD_CHARS
}

/// Whether every length in the request fits the wire format.
pub fn fits_wire(req: &CanonicalRequest) -> (r: bool)
    ensures
        r == encodable(*req),
{
    if !short_text(&req.method) || !short_text(&req.path) || !short_text(&req.query_string) {
        return false;
    }
    if req.header.len() as u64 > MAX_WIRE_LEN || req.body.len() as u64 > MAX_WIRE_LEN {
        return false;
    }
    let mut i: usize = 0;
    while i < req.header.len()
        invariant
            i <= req.header@.len(),
            forall|k: int|
                0 <= k < i ==> #[trigger] req.header@[k].0@.len() < MAX_FIELD_CHARS
                    && req.header@[k].1@.len() < MAX_FIELD_CHARS,
        decreases req.header@.len() - i,
    {
        if !short_text(&req.header[i].0) || !short_text(&req.header[i].1) {
            return false;
        }
        i = i + 1;
    }
    true
}

/// The status codes that an HTTP status line can carry.
pub open spec fn valid_status(code: u32) -> bool {
    100 <= code < 1000
}

/// The reply sent when a module could not answer: status 500 with a fixed
/// body and no headers.
pub open spec fn is_failure_reply(r: HttpReply) -> bool {
    &&& r.status == FAILURE_STATUS
    &&& r.header@.len() == 0
    &&& r.body@ == FAILURE_BODY.spec_bytes()
}

/// The reply that mirrors a module's response with the given status code,
/// headers and body.
pub open spec fn mirrors(
    r: HttpReply,
    code: u32,
    header: Map<Seq<char>, Seq<char>>,
    body: Seq<u8>,
) -> bool {
    &&& r.status as u32 == code
    &&& distinct_keys(r.header@)
    &&& pair_map(r.header@) == header
    &&& r.body@ == body
}

/// Builds the canonical form of a request; headers that share a name collapse
/// to the last value given for it.
pub fn build_request(
    method: String,
    path: String,
    query_string: String,
    raw_headers: &Vec<(String, String)>,
    body: Vec<u8>,
) -> (r: CanonicalRequest)
    ensures
        r.method == method,
        r.path == path,
        r.query_string == query_string,
        distinct_keys(r.header@),
        pair_map(r.header@) == pair_map(raw_headers@),
        r.body == body,
{
    let header = fold_pairs(raw_headers);
    CanonicalRequest { method, path, query_string, header, body }
}

/// The dispatch call that asks `module` to handle `req`: its payload decodes
/// back to the request. `None` where a length in the request does not fit
/// the wire format.
pub fn prepare_dispatch(module: &String, req: &CanonicalRequest) -> (r: Option<DispatchCall>)
    ensures
        r is Some <==> encodable(*req),
        r matches Some(call) ==> {
            &&& call.module@ == module@
            &&& call.operation@ == HANDLE_REQUEST_OP@
            &&& decoded_request(call.payload@) == Some(request_model(*req))
        },
{
    if !fits_wire(req) {
        return None;
    }
    match encode_request(req) {
        Ok(payload) => Some(
            DispatchCall {
                module: module.clone(),
                operation: HANDLE_REQUEST_OP.to_owned(),
                payload,
            },
        ),
        Err(_) => None,
    }
}

/// The reply sent when a module could not answer a request.
pub fn failure_reply() -> (r: HttpReply)
    ensures
        is_failure_reply(r),
{
    HttpReply { status: FAILURE_STATUS, header: Vec::new(), body: slice_to_vec(FAILURE_BODY.as_bytes()) }
}

/// Mirrors a module's response onto the wire; a status code that no status
/// line can carry turns into the failure reply.
pub fn reply_for_response(resp: CanonicalResponse) -> (r: HttpReply)
    requires
        distinct_keys(resp.header@),
    ensures
        valid_status(resp.status_code) ==> mirrors(
            r,
            resp.status_code,
            pair_map(resp.header@),
            resp.body@,
        ),
        !valid_status(resp.status_code) ==> is_failure_reply(r),
{
    if 100 <= resp.status_code && resp.status_code < 1000 {
        HttpReply { status: resp.status_code as u16, header: resp.header, body: resp.body }
    } else {
        failure_reply()
    }
}

/// The reply owed for what the dispatcher returned.
pub open spec fn is_reply_for(outcome: Result<Vec<u8>, String>, r: HttpReply) -> bool {
    match outcome {
        Err(_) => is_failure_reply(r),
        Ok(bytes) => match accepted_response(bytes@) {
            Some((code, _, header, body)) => if valid_status(code) {
                mirrors(r, code, header, body)
            } else {
                is_failure_reply(r)
            },
            None => is_failure_reply(r),
        },
    }
}

/// Turns what the dispatcher returned for one request into the reply for
/// that request. A dispatch error, a payload that decodes to no response or
/// nests too deep, or a status code that no status line can carry all give
/// the failure reply; nothing else is affected.
pub fn reply_for(outcome: Result<Vec<u8>, String>) -> (r: HttpReply)
    ensures
        is_reply_for(outcome, r),
{
    match outcome {
        Err(_) => failure_reply(),
        Ok(bytes) => {
            if !check_nesting(bytes.as_slice()) {
                return failure_reply();
            }
            match decode_response(bytes.as_slice()) {
                Ok(resp) => reply_for_response(resp),
                Err(_) => failure_reply(),
            }
        },
    }
}

/// Replies depend on the dispatch outcome alone: two requests whose
/// outcomes carry the same bytes, or that both failed, get the same status
/// and body and the same headers, whatever happened to other requests.
pub proof fn lemma_reply_depends_on_outcome_alone(
    first: Result<Vec<u8>, String>,
    second: Result<Vec<u8>, String>,
    r1: HttpReply,
    r2: HttpReply,
)
    requires
        is_reply_for(first, r1),
        is_reply_for(second, r2),
        match (first, second) {
            (Ok(a), Ok(b)) => a@ == b@,
            (Err(_), Err(_)) => true,
            _ => false,
        },
    ensures
        r1.status == r2.status,
        r1.body@ == r2.body@,
        pair_map(r1.header@) == pair_map(r2.header@),
{
    if r1.header@.len() == 0 {
        assert(pair_map(r1.header@) == Map::<Seq<char>, Seq<char>>::empty());
    }
    if r2.header@.len() == 0 {
        assert(pair_map(r2.header@) == Map::<Seq<char>, Seq<char>>::empty());
    }
}

} // verus!
