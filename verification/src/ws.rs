//! Decision logic of the WebSocket protocol handler: origin gating, request
//! routing (CORS pre-flight, GET negotiation, path check), and the
//! steady-state handling of inbound frames and outbound updates. The
//! unverified connection plumbing reads a request, asks this module what to
//! answer, and performs the answer; in the streaming state it races the next
//! inbound frame against the next published snapshot and hands whichever
//! arrives to this module.

use vstd::prelude::*;
use vstd::string::StringSliceAdditionalSpecFns;

use crate::bridge::{inputs_slot_of, outputs_slot_of, InputsBridge, OutputsBridge};
use crate::json::{spec_decode_outputs, JsonError};
use crate::json_dec::decode_outputs_json;
use crate::json_enc::{encode_inputs_json, spec_inputs_json};
use crate::records::Inputs;
use crate::scan::{find_byte, key_is, spec_find_byte};

verus! {

/// The first index at or after `i` where the scheme separator `://`
/// stands, if any.
pub open spec fn spec_find_scheme_sep(s: Seq<u8>, i: int) -> Option<int>
    decreases s.len() - i,
{
    if !(0 <= i && i + 3 <= s.len()) {
        None
    } else if s[i] == 58 && s[i + 1] == 47 && s[i + 2] == 47 {
        Some(i)
    } else {
        spec_find_scheme_sep(s, i + 1)
    }
}

/// The host component of an `Origin` header value: the bytes after the
/// first `://` and before the next `:` (a port), if the separator is there
/// at all.
pub open spec fn spec_host_of(s: Seq<u8>) -> Option<Seq<u8>> {
    match spec_find_scheme_sep(s, 0) {
        None => None,
        Some(p) => match spec_find_byte(s, p + 3, 58) {
            None => Some(s.subrange(p + 3, s.len() as int)),
            Some(c) => Some(s.subrange(p + 3, c)),
        },
    }
}

/// An origin is allowed exactly when its host component is one of the fixed
/// allow-list of hostnames; a missing separator disallows the value.
pub open spec fn spec_origin_allowed(s: Seq<u8>) -> bool {
    match spec_host_of(s) {
        None => false,
        Some(h) => h == "chrisprice.dev".spec_bytes() || h == "localhost".spec_bytes(),
    }
}

/// Find the scheme separator `://`.
fn find_scheme_sep(s: &[u8], i: usize) -> (r: Option<usize>)
    requires
        i <= s@.len(),
    ensures
        (match r {
            Some(p) => Some(p as int),
            None => None,
        }) == spec_find_scheme_sep(s@, i as int),
        r matches Some(p) ==> i <= p && p + 3 <= s@.len(),
{
    let mut k: usize = i;
    while s.len() - k >= 3 && !(s[k] == 58 && s[k + 1] == 47 && s[k + 2] == 47)
        invariant
            i <= k <= s@.len(),
            spec_find_scheme_sep(s@, i as int) == spec_find_scheme_sep(s@, k as int),
        decreases s@.len() - k,
    {
        k = k + 1;
    }
    if s.len() - k >= 3 {
        Some(k)
    } else {
        None
    }
}

/// Whether an `Origin` header value is allowed: its host component, the
/// substring after `://` and before an optional `:port`, must equal one of
/// the fixed allow-list of hostnames. Any other value, or one without a
/// separator, is disallowed.
pub fn is_allowed_origin(origin: &str) -> (r: bool)
    ensures
        r == spec_origin_allowed(origin.spec_bytes()),
{
    let s = origin.as_bytes();
    let n = s.len();
    match find_scheme_sep(s, 0) {
        None => false,
        Some(p) => {
            let start = p + 3;
            let host_end = match find_byte(s, start, 58) {
                None => n,
                Some(c) => c,
            };
            key_is(s, start, host_end, "chrisprice.dev") || key_is(s, start, host_end, "localhost")
        },
    }
}

/// The request method, as far as the handler distinguishes it.
#[derive(PartialEq, Eq, Structural, Clone, Copy, Debug)]
pub enum Method {
    Get,
    Options,
    Other,
}

/// One response header.
#[derive(PartialEq, Eq, Debug)]
pub struct HeaderField {
    pub name: String,
    pub value: String,
}

/// A planned response: status, optional reason phrase, headers, optional
/// body.
#[derive(PartialEq, Eq, Debug)]
pub struct ResponsePlan {
    pub status: u16,
    pub reason: Option<String>,
    pub headers: Vec<HeaderField>,
    pub body: Option<String>,
}

/// What to do with a received request: answer it, or proceed with the
/// WebSocket upgrade handshake.
#[derive(PartialEq, Eq, Debug)]
pub enum RequestAction {
    Respond(ResponsePlan),
    Upgrade,
}

/// The path names the root resource.
pub open spec fn spec_is_root(path: &str) -> bool {
    path.spec_bytes() == "/".spec_bytes()
}

/// The origin header is present and allowed.
pub open spec fn spec_origin_ok(origin: Option<&str>) -> bool {
    match origin {
        None => false,
        Some(o) => spec_origin_allowed(o.spec_bytes()),
    }
}

/// Route one received request. A CORS pre-flight from an allowed origin is
/// answered 204 with the CORS headers echoed; one from anywhere else is
/// answered 204 bare. A method other than GET or OPTIONS is answered 405; a
/// path other than the root, 404; a plain GET of the root, 200 with an
/// informational body; a GET of the root asking for the upgrade proceeds to
/// the handshake. The allow-origin header is attached exactly when the
/// origin is allowed.
pub fn route_request(
    method: Method,
    path: &str,
    origin: Option<&str>,
    ws_upgrade: bool,
    request_headers: &str,
) -> (r: RequestAction)
    ensures
        method == Method::Options && spec_origin_ok(origin) ==> (r matches
            RequestAction::Respond(p) && p.status == 204 && p.reason is None && p.body is None
            && p.headers@.len() == 4 && p.headers@[0].name@ == "Access-Control-Allow-Origin"@
            && (origin matches Some(o) && p.headers@[0].value@ == o@)
            && p.headers@[1].name@ == "Access-Control-Allow-Methods"@ && p.headers@[1].value@
            == "GET, OPTIONS"@ && p.headers@[2].name@ == "Access-Control-Allow-Headers"@
            && p.headers@[2].value@ == request_headers@ && p.headers@[3].name@
            == "Access-Control-Max-Age"@ && p.headers@[3].value@ == "86400"@),
        method == Method::Options && !spec_origin_ok(origin) ==> (r matches
            RequestAction::Respond(p) && p.status == 204 && p.reason is None && p.body is None
            && p.headers@.len() == 0),
        method == Method::Other ==> (r matches RequestAction::Respond(p) && p.status == 405 && (
        p.reason matches Some(m) && m@ == "Method Not Allowed"@) && p.body is None
            && p.headers@.len() == 0),
        method == Method::Get && !spec_is_root(path) ==> (r matches RequestAction::Respond(p)
            && p.status == 404 && (p.reason matches Some(m) && m@ == "Not Found"@)
            && p.body is None && (spec_origin_ok(origin) ==> p.headers@.len() == 1
            && p.headers@[0].name@ == "Access-Control-Allow-Origin"@ && (origin matches Some(o)
            && p.headers@[0].value@ == o@)) && (!spec_origin_ok(origin) ==> p.headers@.len()
            == 0)),
        method == Method::Get && spec_is_root(path) && !ws_upgrade ==> (r matches
            RequestAction::Respond(p) && p.status == 200 && (p.reason matches Some(m) && m@
            == "OK"@) && (p.body matches Some(b) && b@
            == "Initiate WS Upgrade request to switch this connection to WS"@)
            && p.headers@[0].name@ == "Content-Type"@ && p.headers@[0].value@ == "text/plain"@ && (
        spec_origin_ok(origin) ==> p.headers@.len() == 2 && p.headers@[1].name@
            == "Access-Control-Allow-Origin"@ && (origin matches Some(o) && p.headers@[1].value@
            == o@)) && (!spec_origin_ok(origin) ==> p.headers@.len() == 1)),
        method == Method::Get && spec_is_root(path) && ws_upgrade ==> r == RequestAction::Upgrade,
{
    let is_allowed = match origin {
        None => false,
        Some(o) => is_allowed_origin(o),
    };
    if method == Method::Options {
        if is_allowed {
            let mut headers: Vec<HeaderField> = Vec::new();
            let origin_value = match origin {
                None => "",
                Some(o) => o,
            };
            headers.push(
                HeaderField {
                    name: "Access-Control-Allow-Origin".to_owned(),
                    value: origin_value.to_owned(),
                },
            );
            headers.push(
                HeaderField {
                    name: "Access-Control-Allow-Methods".to_owned(),
                    value: "GET, OPTIONS".to_owned(),
                },
            );
            headers.push(
                HeaderField {
                    name: "Access-Control-Allow-Headers".to_owned(),
                    value: request_headers.to_owned(),
                },
            );
            headers.push(
                HeaderField { name: "Access-Control-Max-Age".to_owned(), value: "86400".to_owned() },
            );
            RequestAction::Respond(
                ResponsePlan { status: 204, reason: None, headers, body: None },
            )
        } else {
            RequestAction::Respond(
                ResponsePlan { status: 204, reason: None, headers: Vec::new(), body: None },
            )
        }
    } else if method == Method::Other {
        RequestAction::Respond(
            ResponsePlan {
                status: 405,
                reason: Some("Method Not Allowed".to_owned()),
                headers: Vec::new(),
                body: None,
            },
        )
    } else {
        let path_bytes = path.as_bytes();
        let root = key_is(path_bytes, 0, path_bytes.len(), "/");
        proof {
            assert(path.spec_bytes().subrange(0, path.spec_bytes().len() as int) =~= path
                .spec_bytes());
        }
        if !root {
            let mut headers: Vec<HeaderField> = Vec::new();
            if is_allowed {
                let origin_value = match origin {
                    None => "",
                    Some(o) => o,
                };
                headers.push(
                    HeaderField {
                        name: "Access-Control-Allow-Origin".to_owned(),
                        value: origin_value.to_owned(),
                    },
                );
            }
            RequestAction::Respond(
                ResponsePlan {
                    status: 404,
                    reason: Some("Not Found".to_owned()),
                    headers,
                    body: None,
                },
            )
        } else if !ws_upgrade {
            let mut headers: Vec<HeaderField> = Vec::new();
            headers.push(
                HeaderField { name: "Content-Type".to_owned(), value: "text/plain".to_owned() },
            );
            if is_allowed {
                let origin_value = match origin {
                    None => "",
                    Some(o) => o,
                };
                headers.push(
                    HeaderField {
                        name: "Access-Control-Allow-Origin".to_owned(),
                        value: origin_value.to_owned(),
                    },
                );
            }
            RequestAction::Respond(
                ResponsePlan {
                    status: 200,
                    reason: Some("OK".to_owned()),
                    headers,
                    body: Some(
                        "Initiate WS Upgrade request to switch this connection to WS".to_owned(),
                    ),
                },
            )
        } else {
            RequestAction::Upgrade
        }
    }
}

/// The kind of a received frame, as far as the handler distinguishes it.
#[derive(PartialEq, Eq, Structural, Clone, Copy, Debug)]
pub enum FrameKind {
    /// A text frame, possibly a fragment of a larger message.
    Text { fragmented: bool },
    /// A close frame.
    Close,
    /// Any other frame type; only text and close are meaningful here.
    Other,
}

/// A protocol failure that tears the connection down.
#[derive(PartialEq, Eq, Structural, Clone, Copy, Debug)]
pub enum ProtocolError {
    /// A fragmented text frame; fragmentation is unsupported.
    FragmentedFrame,
    /// The decoder did not consume the entire payload.
    TrailingData,
    /// The payload is not a well-formed actuator record.
    Json(JsonError),
}

/// What the streaming loop does after one inbound frame.
#[derive(PartialEq, Eq, Structural, Clone, Copy, Debug)]
pub enum StreamStep {
    /// Keep streaming.
    Continue,
    /// The client closed the connection cleanly; leave the loop.
    CloseClean,
    /// An unsupported frame type; close defensively.
    CloseUnexpected,
}

/// What one inbound frame asks of the streaming loop.
#[derive(PartialEq, Eq, Structural, Clone, Copy, Debug)]
pub enum FrameDecision {
    /// Publish this decoded command on the command channel, then keep
    /// streaming.
    Publish(crate::records::Outputs),
    /// The client closed the connection cleanly; leave the loop.
    CloseClean,
    /// An unsupported frame type; close defensively.
    CloseUnexpected,
}

/// Classify one inbound frame. A well-formed, fully-consumed text payload
/// decodes to a command to publish; a fragmented text frame, a malformed
/// payload, or a partial parse is fatal to the connection; a close frame
/// leaves the loop cleanly; any other frame type closes defensively.
pub fn classify_frame(kind: FrameKind, payload: &[u8]) -> (r: Result<FrameDecision, ProtocolError>)
    ensures
        kind matches FrameKind::Text { fragmented } && fragmented ==> r == Err::<
            FrameDecision,
            ProtocolError,
        >(ProtocolError::FragmentedFrame),
        kind matches FrameKind::Text { fragmented } && !fragmented ==> (match spec_decode_outputs(
            payload@,
        ) {
            Ok((o, n)) => {
                if n == payload@.len() {
                    r == Ok::<FrameDecision, ProtocolError>(FrameDecision::Publish(o))
                } else {
                    r == Err::<FrameDecision, ProtocolError>(ProtocolError::TrailingData)
                }
            },
            Err(e) => r == Err::<FrameDecision, ProtocolError>(ProtocolError::Json(e)),
        }),
        kind == FrameKind::Close ==> r == Ok::<FrameDecision, ProtocolError>(
            FrameDecision::CloseClean,
        ),
        kind == FrameKind::Other ==> r == Ok::<FrameDecision, ProtocolError>(
            FrameDecision::CloseUnexpected,
        ),
{
    match kind {
        FrameKind::Text { fragmented } => {
            if fragmented {
                Err(ProtocolError::FragmentedFrame)
            } else {
                match decode_outputs_json(payload) {
                    Err(e) => Err(ProtocolError::Json(e)),
                    Ok((outputs, consumed)) => {
                        if consumed != payload.len() {
                            Err(ProtocolError::TrailingData)
                        } else {
                            Ok(FrameDecision::Publish(outputs))
                        }
                    },
                }
            }
        },
        FrameKind::Close => Ok(FrameDecision::CloseClean),
        FrameKind::Other => Ok(FrameDecision::CloseUnexpected),
    }
}

/// Handle one inbound frame. A well-formed, fully-consumed text payload is
/// decoded and published on the command channel; a fragmented text frame,
/// a malformed payload, or a partial parse is fatal to the connection and
/// publishes nothing; a close frame leaves the loop cleanly; any other
/// frame type closes defensively, publishing nothing.
pub fn handle_frame(ingress: &mut OutputsBridge, kind: FrameKind, payload: &[u8]) -> (r: Result<
    StreamStep,
    ProtocolError,
>)
    ensures
        kind matches FrameKind::Text { fragmented } && fragmented ==> r == Err::<
            StreamStep,
            ProtocolError,
        >(ProtocolError::FragmentedFrame) && outputs_slot_of(*final(ingress)) == outputs_slot_of(
            *old(ingress),
        ),
        kind matches FrameKind::Text { fragmented } && !fragmented ==> (match spec_decode_outputs(
            payload@,
        ) {
            Ok((o, n)) => {
                if n == payload@.len() {
                    r == Ok::<StreamStep, ProtocolError>(StreamStep::Continue) && outputs_slot_of(
                        *final(ingress),
                    ) == Some(o)
                } else {
                    r == Err::<StreamStep, ProtocolError>(ProtocolError::TrailingData)
                        && outputs_slot_of(*final(ingress)) == outputs_slot_of(*old(ingress))
                }
            },
            Err(e) => r == Err::<StreamStep, ProtocolError>(ProtocolError::Json(e))
                && outputs_slot_of(*final(ingress)) == outputs_slot_of(*old(ingress)),
        }),
        kind == FrameKind::Close ==> r == Ok::<StreamStep, ProtocolError>(StreamStep::CloseClean)
            && outputs_slot_of(*final(ingress)) == outputs_slot_of(*old(ingress)),
        kind == FrameKind::Other ==> r == Ok::<StreamStep, ProtocolError>(
            StreamStep::CloseUnexpected,
        ) && outputs_slot_of(*final(ingress)) == outputs_slot_of(*old(ingress)),
{
    match classify_frame(kind, payload) {
        Err(e) => Err(e),
        Ok(FrameDecision::Publish(outputs)) => {
            ingress.publish(outputs);
            Ok(StreamStep::Continue)
        },
        Ok(FrameDecision::CloseClean) => Ok(StreamStep::CloseClean),
        Ok(FrameDecision::CloseUnexpected) => Ok(StreamStep::CloseUnexpected),
    }
}

/// The plan of one outbound frame.
#[derive(PartialEq, Eq, Debug)]
pub struct FramePlan {
    /// The frame payload.
    pub payload: Vec<u8>,
    /// The masking key; a server-originated frame is never masked.
    pub mask_key: Option<u32>,
    /// Whether the frame is a fragment; updates are never fragmented.
    pub fragmented: bool,
}

/// The exactly-one outbound frame that a fresh snapshot becomes: an
/// unmasked, unfragmented text frame carrying the snapshot's JSON encoding.
pub fn update_frame(inputs: &Inputs) -> (f: FramePlan)
    ensures
        f.payload@ == spec_inputs_json(*inputs),
        f.mask_key is None,
        !f.fragmented,
{
    FramePlan { payload: encode_inputs_json(inputs), mask_key: None, fragmented: false }
}

/// Drain the snapshot channel and render the pending snapshot, if one is
/// there, as its outbound frame. Each published snapshot yields exactly one
/// frame: after the call the channel is empty, so a second call sends
/// nothing until the next publish.
pub fn pending_update_frame(egress: &mut InputsBridge) -> (r: Option<FramePlan>)
    ensures
        inputs_slot_of(*final(egress)) == None::<Inputs>,
        (match inputs_slot_of(*old(egress)) {
            Some(i) => r matches Some(f) && f.payload@ == spec_inputs_json(i) && f.mask_key is None
                && !f.fragmented,
            None => r is None,
        }),
{
    match egress.try_take() {
        None => None,
        Some(inputs) => Some(update_frame(&inputs)),
    }
}

} // verus!
