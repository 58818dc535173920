//! What a media worker answers to each signalling request.
use vstd::prelude::*;
use crate::signaling::{ascii_of, SignalingProtocolMessage};
use vstd::string::*;
use vstd::slice::slice_to_vec;

verus! {

/// What a worker does with a request: accept an offer with its session
/// state, or send a response straight back.
pub enum WorkerTask {
    AcceptOffer { session_id: u64, endpoint_id: u64, offer_sdp: Vec<u8> },
    Respond(SignalingProtocolMessage),
}

/// The worker's response to a request that is not for it.
pub open spec fn invalid_request(
    r: SignalingProtocolMessage,
    session_id: u64,
    endpoint_id: u64,
) -> bool {
    r matches SignalingProtocolMessage::Error { session_id: s, endpoint_id: e, reason } && s
        == session_id && e == endpoint_id && reason@ == ascii_of("Invalid Request"@)
}

/// Sorts a request: an offer is accepted, a leave is acknowledged, and any
/// other request (an acknowledgement, an error, an answer) is refused as
/// `Invalid Request` for the same session and endpoint.
pub fn worker_task(request: SignalingProtocolMessage) -> (r: WorkerTask)
    ensures
        match request {
            SignalingProtocolMessage::Offer { session_id, endpoint_id, offer_sdp } => r
                == WorkerTask::AcceptOffer { session_id, endpoint_id, offer_sdp },
            SignalingProtocolMessage::Leave { session_id, endpoint_id } => r == WorkerTask::Respond(
                SignalingProtocolMessage::Ack { session_id, endpoint_id },
            ),
            SignalingProtocolMessage::Ack { session_id, endpoint_id } => r matches WorkerTask::Respond(
                m,
            ) && invalid_request(m, session_id, endpoint_id),
            SignalingProtocolMessage::Error { session_id, endpoint_id, .. } => r matches WorkerTask::Respond(
                m,
            ) && invalid_request(m, session_id, endpoint_id),
            SignalingProtocolMessage::Answer { session_id, endpoint_id, .. } => r matches WorkerTask::Respond(
                m,
            ) && invalid_request(m, session_id, endpoint_id),
        },
{
    match request {
        SignalingProtocolMessage::Offer { session_id, endpoint_id, offer_sdp } => {
            WorkerTask::AcceptOffer { session_id, endpoint_id, offer_sdp }
        },
        SignalingProtocolMessage::Leave { session_id, endpoint_id } => {
            WorkerTask::Respond(SignalingProtocolMessage::Ack { session_id, endpoint_id })
        },
        SignalingProtocolMessage::Ack { session_id, endpoint_id } => {
            WorkerTask::Respond(refusal(session_id, endpoint_id))
        },
        SignalingProtocolMessage::Error { session_id, endpoint_id, .. } => {
            WorkerTask::Respond(refusal(session_id, endpoint_id))
        },
        SignalingProtocolMessage::Answer { session_id, endpoint_id, .. } => {
            WorkerTask::Respond(refusal(session_id, endpoint_id))
        },
    }
}

fn refusal(session_id: u64, endpoint_id: u64) -> (r: SignalingProtocolMessage)
    ensures
        invalid_request(r, session_id, endpoint_id),
{
    proof {
        reveal_strlit("Invalid Request");
        is_ascii_spec_bytes("Invalid Request");
    }
    let reason = slice_to_vec("Invalid Request".as_bytes());
    assert(reason@ =~= ascii_of("Invalid Request"@));
    SignalingProtocolMessage::Error { session_id, endpoint_id, reason }
}

/// The worker's response once it has tried to accept an offer: the answer
/// SDP on success, or the failure's text as an error.
pub fn offer_outcome(
    session_id: u64,
    endpoint_id: u64,
    outcome: Result<Vec<u8>, Vec<u8>>,
) -> (r: SignalingProtocolMessage)
    ensures
        match outcome {
            Ok(answer_sdp) => r == SignalingProtocolMessage::Answer {
                session_id,
                endpoint_id,
                answer_sdp,
            },
            Err(reason) => r == SignalingProtocolMessage::Error { session_id, endpoint_id, reason },
        },
{
    match outcome {
        Ok(answer_sdp) => SignalingProtocolMessage::Answer { session_id, endpoint_id, answer_sdp },
        Err(reason) => SignalingProtocolMessage::Error { session_id, endpoint_id, reason },
    }
}

} // verus!
