//! The signalling endpoint's decisions: which media worker serves a
//! session, and which HTTP reply each outcome of an offer becomes.
use vstd::prelude::*;
use vstd::string::*;
use vstd::utf8::*;
use vstd::slice::slice_to_vec;
use crate::numparse::{decimal, decimal_bytes};
use crate::config::port_range;

verus! {

/// A message exchanged between the signalling endpoint and a media worker
/// (SDP payloads and reasons held as raw bytes).
pub enum SignalingProtocolMessage {
    Offer { session_id: u64, endpoint_id: u64, offer_sdp: Vec<u8> },
    Answer { session_id: u64, endpoint_id: u64, answer_sdp: Vec<u8> },
    Error { session_id: u64, endpoint_id: u64, reason: Vec<u8> },
    Leave { session_id: u64, endpoint_id: u64 },
    Ack { session_id: u64, endpoint_id: u64 },
}

/// An HTTP reply: status code, whether the body is announced as
/// `application/json`, and the body bytes.
pub struct HttpReply {
    pub status: u16,
    pub json: bool,
    pub body: Vec<u8>,
}

pub struct ReplyView {
    pub status: u16,
    pub json: bool,
    pub body: Seq<u8>,
}

impl View for HttpReply {
    type V = ReplyView;

    open spec fn view(&self) -> ReplyView {
        ReplyView { status: self.status, json: self.json, body: self.body@ }
    }
}

/// The bytes of an ASCII text.
pub open spec fn ascii_of(s: Seq<char>) -> Seq<u8> {
    Seq::new(s.len(), |i: int| s[i] as u8)
}

/// A plain-text reply with the given status and ASCII text.
pub open spec fn text_reply(status: u16, text: Seq<char>) -> ReplyView {
    ReplyView { status, json: false, body: ascii_of(text) }
}

fn ascii_literal(s: &str) -> (r: Vec<u8>)
    requires
        is_ascii(s),
    ensures
        r@ == ascii_of(s@),
{
    proof {
        is_ascii_spec_bytes(s);
    }
    let v = slice_to_vec(s.as_bytes());
    assert(v@ =~= ascii_of(s@));
    v
}

/// The liveness probe: `200 OK` with body `OK`.
pub fn health() -> (r: HttpReply)
    ensures
        r@ == text_reply(200, "OK"@),
{
    proof {
        reveal_strlit("OK");
    }
    HttpReply { status: 200, json: false, body: ascii_literal("OK") }
}

/// Leaving a session: `200 OK` with an empty body.
pub fn leave() -> (r: HttpReply)
    ensures
        r@ == (ReplyView { status: 200, json: false, body: Seq::<u8>::empty() }),
{
    let body: Vec<u8> = Vec::new();
    HttpReply { status: 200, json: false, body }
}

/// The reply to an offer whose token does not decode or verify.
pub fn token_rejected() -> (r: HttpReply)
    ensures
        r@ == text_reply(500, "Error decoding token"@),
{
    proof {
        reveal_strlit("Error decoding token");
    }
    HttpReply { status: 500, json: false, body: ascii_literal("Error decoding token") }
}

/// The reply to an offer that cannot be written out as JSON.
pub fn offer_unserializable() -> (r: HttpReply)
    ensures
        r@ == text_reply(500, "Error serializing offer"@),
{
    proof {
        reveal_strlit("Error serializing offer");
    }
    HttpReply { status: 500, json: false, body: ascii_literal("Error serializing offer") }
}

/// The reply when no worker listens on the chosen port.
pub fn no_media_port() -> (r: HttpReply)
    ensures
        r@ == text_reply(500, "No media port available"@),
{
    proof {
        reveal_strlit("No media port available");
    }
    HttpReply { status: 500, json: false, body: ascii_literal("No media port available") }
}

/// The worker port that serves session `session_id`: the pool entry at the
/// session identifier modulo the pool size.
pub open spec fn port_for_session(ports: Seq<u16>, session_id: u64) -> u16
    recommends
        ports.len() > 0,
{
    ports[((session_id as int) % (ports.len() as int)) as int]
}

/// Chooses the media worker for a session from the pool of worker ports
/// (`ports[session_id % ports.len()]`, the identifier taken as 64 bits).
pub fn select_port(ports: &[u16], session_id: u64) -> (r: u16)
    requires
        ports@.len() > 0,
    ensures
        r == port_for_session(ports@, session_id),
{
    let n = ports.len() as u64;
    ports[(session_id % n) as usize]
}

/// Answers on which the endpoint cannot reply: an error reason or an offer
/// payload that is not UTF-8 text.
pub open spec fn answer_unprintable(msg: SignalingProtocolMessage) -> bool {
    match msg {
        SignalingProtocolMessage::Error { reason, .. } => !valid_utf8(reason@),
        SignalingProtocolMessage::Offer { offer_sdp, .. } => !valid_utf8(offer_sdp@),
        _ => false,
    }
}

/// The HTTP reply for what a worker sent back in response to an offer.
pub open spec fn reply_to_answer(msg: SignalingProtocolMessage) -> ReplyView {
    match msg {
        SignalingProtocolMessage::Answer { answer_sdp, .. } => ReplyView {
            status: 200,
            json: true,
            body: answer_sdp@,
        },
        SignalingProtocolMessage::Error { session_id, endpoint_id, reason } => ReplyView {
            status: 500,
            json: false,
            body: ascii_of("Error for session "@) + decimal(session_id as nat) + ascii_of(
                " endpoint "@,
            ) + decimal(endpoint_id as nat) + ascii_of(": "@) + reason@,
        },
        SignalingProtocolMessage::Leave { .. } => text_reply(500, "Session left"@),
        SignalingProtocolMessage::Offer { .. } => text_reply(
            500,
            "Received offer for session endpoint while expecting answer"@,
        ),
        SignalingProtocolMessage::Ack { .. } => text_reply(
            500,
            "Received Ok for session endpoint while expecting answer"@,
        ),
    }
}

/// Turns a worker's response to an offer into the HTTP reply; `None` when
/// the response carries text that is not UTF-8 (the endpoint cannot print it).
pub fn answer_reply(msg: SignalingProtocolMessage) -> (r: Option<HttpReply>)
    ensures
        r is None <==> answer_unprintable(msg),
        r matches Some(rep) ==> rep@ == reply_to_answer(msg),
{
    match msg {
        SignalingProtocolMessage::Answer { answer_sdp, .. } => {
            Some(HttpReply { status: 200, json: true, body: answer_sdp })
        },
        SignalingProtocolMessage::Error { session_id, endpoint_id, reason } => {
            if !crate::utf8check::is_valid_utf8(reason.as_slice()) {
                return None;
            }
            proof {
                reveal_strlit("Error for session ");
                reveal_strlit(" endpoint ");
                reveal_strlit(": ");
            }
            let mut body = ascii_literal("Error for session ");
            let mut sid = decimal_bytes(session_id);
            body.append(&mut sid);
            let mut mid = ascii_literal(" endpoint ");
            body.append(&mut mid);
            let mut eid = decimal_bytes(endpoint_id);
            body.append(&mut eid);
            let mut sep = ascii_literal(": ");
            body.append(&mut sep);
            let mut rest = reason;
            body.append(&mut rest);
            Some(HttpReply { status: 500, json: false, body })
        },
        SignalingProtocolMessage::Leave { .. } => {
            proof {
                reveal_strlit("Session left");
            }
            Some(HttpReply { status: 500, json: false, body: ascii_literal("Session left") })
        },
        SignalingProtocolMessage::Offer { offer_sdp, .. } => {
            if !crate::utf8check::is_valid_utf8(offer_sdp.as_slice()) {
                return None;
            }
            proof {
                reveal_strlit("Received offer for session endpoint while expecting answer");
            }
            Some(
                HttpReply {
                    status: 500,
                    json: false,
                    body: ascii_literal(
                        "Received offer for session endpoint while expecting answer",
                    ),
                },
            )
        },
        SignalingProtocolMessage::Ack { .. } => {
            proof {
                reveal_strlit("Received Ok for session endpoint while expecting answer");
            }
            Some(
                HttpReply {
                    status: 500,
                    json: false,
                    body: ascii_literal("Received Ok for session endpoint while expecting answer"),
                },
            )
        },
    }
}

/// Every session is routed to a port of the pool, so a worker is found for
/// it whenever the pool is the set of running workers.
pub proof fn law_session_port_in_pool(ports: Seq<u16>, session_id: u64)
    requires
        ports.len() > 0,
    ensures
        ports.contains(port_for_session(ports, session_id)),
{
    let k = ((session_id as int) % (ports.len() as int)) as int;
    assert(ports[k] == port_for_session(ports, session_id));
}

/// The worker depends on the session identifier alone: requests of one
/// session (and of sessions whose identifiers agree modulo the pool size)
/// reach the same worker.
pub proof fn law_same_session_same_port(ports: Seq<u16>, s1: u64, s2: u64)
    requires
        ports.len() > 0,
        (s1 as int) % (ports.len() as int) == (s2 as int) % (ports.len() as int),
    ensures
        port_for_session(ports, s1) == port_for_session(ports, s2),
{
}

/// With the pool built from a configured range of media ports, every
/// session is served on a port inside that range.
pub proof fn law_session_port_in_configured_range(min: u16, max: u16, session_id: u64)
    requires
        min <= max,
    ensures
        min <= port_for_session(port_range(min, max), session_id) <= max,
{
    let n = port_range(min, max).len() as int;
    let k = (session_id as int) % n;
    assert(0 <= k < n);
}

/// Only an answer from the worker is a success: its reply is `200` with the
/// answer SDP as a JSON body, unchanged; every other response is a `500`.
pub proof fn law_only_answers_succeed(msg: SignalingProtocolMessage)
    ensures
        reply_to_answer(msg).status == 200 <==> msg is Answer,
        reply_to_answer(msg).status != 200 ==> reply_to_answer(msg).status == 500,
        msg matches SignalingProtocolMessage::Answer { answer_sdp, .. } ==> reply_to_answer(msg).json
            && reply_to_answer(msg).body == answer_sdp@,
{
}


/// A session is served by the pool entry at its identifier modulo the pool
/// size, whatever the pool's size.
pub proof fn law_session_index(ports: Seq<u16>, session_id: u64)
    requires
        ports.len() > 0,
    ensures
        port_for_session(ports, session_id) == ports[(session_id as int) % (ports.len() as int)],
{
}

/// Every worker of the pool serves sessions: the session numbered `i`
/// (below the pool size) goes to the `i`-th port.
pub proof fn law_every_worker_serves(ports: Seq<u16>, i: u64)
    requires
        (i as int) < ports.len(),
    ensures
        port_for_session(ports, i) == ports[i as int],
{
    assert((i as int) % (ports.len() as int) == i as int) by (nonlinear_arith)
        requires
            0 <= i < ports.len(),
    ;
}

/// The endpoint fails on a worker response exactly when it carries text it
/// cannot print: an error reason or an offer payload that is not UTF-8.
/// Answers, leaves and acknowledgements, and any UTF-8 text of any length,
/// are always replied to.
pub proof fn law_unprintable_exactly(msg: SignalingProtocolMessage)
    ensures
        msg matches SignalingProtocolMessage::Error { reason, .. } ==> (answer_unprintable(msg)
            <==> !valid_utf8(reason@)),
        msg matches SignalingProtocolMessage::Offer { offer_sdp, .. } ==> (answer_unprintable(msg)
            <==> !valid_utf8(offer_sdp@)),
        msg is Answer ==> !answer_unprintable(msg),
        msg is Leave ==> !answer_unprintable(msg),
        msg is Ack ==> !answer_unprintable(msg),
{
}

/// The reply to a worker error names the session, then the endpoint, and
/// ends with the worker's reason unchanged.
pub proof fn law_error_reply_carries_reason(session_id: u64, endpoint_id: u64, reason: Vec<u8>)
    ensures
        ({
            let body = reply_to_answer(
                SignalingProtocolMessage::Error { session_id, endpoint_id, reason },
            ).body;
            let head = ascii_of("Error for session "@) + decimal(session_id as nat);
            &&& reply_to_answer(
                SignalingProtocolMessage::Error { session_id, endpoint_id, reason },
            ).status == 500
            &&& body.len() >= head.len() + reason@.len()
            &&& body.take(head.len() as int) == head
            &&& body.skip(body.len() - reason@.len()) == reason@
        }),
{
    let body = reply_to_answer(SignalingProtocolMessage::Error { session_id, endpoint_id, reason }).body;
    let head = ascii_of("Error for session "@) + decimal(session_id as nat);
    let mid = ascii_of(" endpoint "@) + decimal(endpoint_id as nat) + ascii_of(": "@);
    assert(body =~= head + mid + reason@);
    assert(body.take(head.len() as int) =~= head);
    assert(body.skip(body.len() - reason@.len()) =~= reason@);
}

/// The bytes of an ASCII text are its UTF-8 encoding.
pub proof fn law_ascii_is_utf8(s: Seq<char>)
    requires
        is_ascii_chars(s),
    ensures
        ascii_of(s) == encode_utf8(s),
{
    is_ascii_chars_encode_utf8(s);
    assert(ascii_of(s) =~= encode_utf8(s));
}

} // verus!
