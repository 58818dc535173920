//! The course of one offer request: checking the client's token, reading
//! the session from its claims, choosing the worker, sending the offer and
//! turning the worker's response into the HTTP reply.
//!
//! The handler is a state machine: each outside step (parsing the claims,
//! writing the offer as JSON, finding the worker's channel, the worker's
//! response) comes back as an event, and `step` decides the next stage and
//! what to do.
use vstd::prelude::*;
use crate::config::port_range;
use crate::signaling::{
    answer_reply, answer_unprintable, no_media_port, offer_unserializable, port_for_session,
    reply_to_answer, select_port, text_reply, ReplyView, token_rejected, HttpReply, SignalingProtocolMessage,
};
use crate::token::{id_of, TokenOffer};
use crate::numparse::IntErrorKind;
use vstd::utf8::valid_utf8;
use crate::utf8check::is_valid_utf8;
use crate::verify_jwt::{hs256_authentic, DecodeService};

verus! {

/// Where an offer request stands.
pub enum OfferStage {
    /// The token was accepted; its claims are being read.
    ReadingClaims,
    /// The session is known and its worker chosen; the offer is being
    /// written as JSON.
    Serializing { session_id: u64, endpoint_id: u64, port: u16 },
    /// The offer is ready; the worker on `port` is being looked up.
    Dispatching { session_id: u64, endpoint_id: u64, port: u16, offer_sdp: Vec<u8> },
    /// The offer was sent; the worker's response is awaited.
    AwaitingAnswer { session_id: u64, endpoint_id: u64 },
    /// A reply was given; nothing more happens.
    Finished,
}

/// What the outside world reports back.
pub enum OfferEvent {
    /// The token's claims, or `None` when they do not read as a `TokenOffer`.
    ClaimsRead(Option<TokenOffer>),
    /// The offer written as JSON, or `None` when it could not be written.
    OfferSerialized(Option<Vec<u8>>),
    /// Whether a worker listens on the chosen port.
    WorkerFound(bool),
    /// The worker's response to the offer.
    AnswerReceived(SignalingProtocolMessage),
}

/// What the handler asks the outside world to do next.
pub enum OfferAction {
    ReadClaims,
    SerializeOffer,
    LookUpWorker { port: u16 },
    SendOffer { port: u16, request: SignalingProtocolMessage },
    Reply(HttpReply),
}

/// One offer request in progress.
pub struct OfferHandler {
    stage: OfferStage,
    ports: Vec<u16>,
    token: Ghost<Seq<char>>,
    secret: Ghost<Seq<char>>,
}

/// Whether `action` is the reply `view`.
pub open spec fn replies(action: OfferAction, view: ReplyView) -> bool {
    match action {
        OfferAction::Reply(r) => r@ == view,
        _ => false,
    }
}

/// The step from `stage` on `event`, with the worker pool `ports`: the next
/// stage `next` and the action `action`.
pub open spec fn offer_step(
    stage: OfferStage,
    event: OfferEvent,
    ports: Seq<u16>,
    next: OfferStage,
    action: OfferAction,
) -> bool {
    match stage {
        OfferStage::ReadingClaims => match event {
            OfferEvent::ClaimsRead(None) => next is Finished && replies(action, text_reply(500, "Error decoding token"@)),
            OfferEvent::ClaimsRead(Some(t)) => match (id_of(&t.channelSn), id_of(&t.userSn)) {
                (Ok(sid), Ok(eid)) => next == OfferStage::Serializing {
                    session_id: sid as u64,
                    endpoint_id: eid as u64,
                    port: port_for_session(ports, sid as u64),
                } && action is SerializeOffer,
                _ => false,
            },
            _ => false,
        },
        OfferStage::Serializing { session_id, endpoint_id, port } => match event {
            OfferEvent::OfferSerialized(None) => next is Finished && replies(action, text_reply(500, "Error serializing offer"@)),
            OfferEvent::OfferSerialized(Some(offer_sdp)) => next == OfferStage::Dispatching {
                session_id,
                endpoint_id,
                port,
                offer_sdp,
            } && action == OfferAction::LookUpWorker { port },
            _ => false,
        },
        OfferStage::Dispatching { session_id, endpoint_id, port, offer_sdp } => match event {
            OfferEvent::WorkerFound(false) => next is Finished && replies(action, text_reply(500, "No media port available"@)),
            OfferEvent::WorkerFound(true) => next == OfferStage::AwaitingAnswer {
                session_id,
                endpoint_id,
            } && action == OfferAction::SendOffer {
                port,
                request: SignalingProtocolMessage::Offer { session_id, endpoint_id, offer_sdp },
            },
            _ => false,
        },
        OfferStage::AwaitingAnswer { .. } => match event {
            OfferEvent::AnswerReceived(m) => next is Finished && replies(action, reply_to_answer(m)),
            _ => false,
        },
        OfferStage::Finished => false,
    }
}

/// Whether `event` is the one `stage` waits for and the request can go on
/// with it: claims whose identifiers read as `u64` with a non-empty pool,
/// and a worker response whose text is UTF-8.
pub open spec fn offer_admits(stage: OfferStage, event: OfferEvent, ports: Seq<u16>) -> bool {
    match stage {
        OfferStage::ReadingClaims => match event {
            OfferEvent::ClaimsRead(c) => c matches Some(t) ==> (id_of(&t.channelSn) is Ok && id_of(
                &t.userSn,
            ) is Ok && ports.len() > 0),
            _ => false,
        },
        OfferStage::Serializing { .. } => event is OfferSerialized,
        OfferStage::Dispatching { .. } => event is WorkerFound,
        OfferStage::AwaitingAnswer { .. } => match event {
            OfferEvent::AnswerReceived(m) => !answer_unprintable(m),
            _ => false,
        },
        OfferStage::Finished => false,
    }
}

impl OfferHandler {
    #[verifier::type_invariant]
    spec fn well_formed(self) -> bool {
        &&& !(self.stage is Finished) ==> hs256_authentic(self.token@, self.secret@)
        &&& match self.stage {
            OfferStage::Serializing { session_id, port, .. } => self.ports@.len() > 0 && port
                == port_for_session(self.ports@, session_id),
            OfferStage::Dispatching { session_id, port, .. } => self.ports@.len() > 0 && port
                == port_for_session(self.ports@, session_id),
            _ => true,
        }
    }

    pub closed spec fn stage(self) -> OfferStage {
        self.stage
    }

    /// The pool of worker ports the request is routed in.
    pub closed spec fn ports(self) -> Seq<u16> {
        self.ports@
    }

    /// The token the request came with.
    pub closed spec fn token(self) -> Seq<char> {
        self.token@
    }

    /// The secret the token was checked against.
    pub closed spec fn secret(self) -> Seq<char> {
        self.secret@
    }

    /// Starts an offer request: checks `token` with `service`. A refused
    /// token ends the request with `500 Error decoding token`; an accepted
    /// one asks for its claims.
    pub fn start(service: &DecodeService, token: &str, ports: Vec<u16>) -> (r: (
        OfferHandler,
        OfferAction,
    ))
        ensures
            r.0.token() == token@,
            r.0.secret() == service.app_secret@,
            r.0.ports() == ports@,
            r.1 is ReadClaims ==> r.0.stage() is ReadingClaims && hs256_authentic(
                token@,
                service.app_secret@,
            ),
            !(r.1 is ReadClaims) ==> r.0.stage() is Finished && replies(
                r.1,
                text_reply(500, "Error decoding token"@),
            ),
    {
        if service.accepts(token) {
            let h = OfferHandler {
                stage: OfferStage::ReadingClaims,
                ports,
                token: Ghost(token@),
                secret: Ghost(service.app_secret@),
            };
            (h, OfferAction::ReadClaims)
        } else {
            let h = OfferHandler {
                stage: OfferStage::Finished,
                ports,
                token: Ghost(token@),
                secret: Ghost(service.app_secret@),
            };
            (h, OfferAction::Reply(token_rejected()))
        }
    }

    /// Whether the request can go on with `event` (see `offer_admits`).
    pub fn admits(&self, event: &OfferEvent) -> (r: bool)
        ensures
            r == offer_admits(self.stage(), *event, self.ports()),
    {
        match (&self.stage, event) {
            (OfferStage::ReadingClaims, OfferEvent::ClaimsRead(c)) => match c {
                None => true,
                Some(t) => t.session_id().is_ok() && t.endpoint_id().is_ok() && self.ports.len()
                    > 0,
            },
            (OfferStage::Serializing { .. }, OfferEvent::OfferSerialized(_)) => true,
            (OfferStage::Dispatching { .. }, OfferEvent::WorkerFound(_)) => true,
            (OfferStage::AwaitingAnswer { .. }, OfferEvent::AnswerReceived(m)) => match m {
                SignalingProtocolMessage::Error { reason, .. } => is_valid_utf8(reason.as_slice()),
                SignalingProtocolMessage::Offer { offer_sdp, .. } => is_valid_utf8(
                    offer_sdp.as_slice(),
                ),
                _ => true,
            },
            _ => false,
        }
    }

    /// Takes the request one step on `event`. Every offer that is sent goes
    /// to the session's port in the pool, and only for a token signed with
    /// the service's secret.
    pub fn step(self, event: OfferEvent) -> (r: (OfferHandler, OfferAction))
        requires
            offer_admits(self.stage(), event, self.ports()),
        ensures
            offer_step(self.stage(), event, self.ports(), r.0.stage(), r.1),
            r.0.token() == self.token(),
            r.0.secret() == self.secret(),
            r.0.ports() == self.ports(),
            match r.1 {
                OfferAction::SendOffer { port, request } => hs256_authentic(
                    self.token(),
                    self.secret(),
                ) && self.ports().contains(port) && match request {
                    SignalingProtocolMessage::Offer { session_id, .. } => port == port_for_session(
                        self.ports(),
                        session_id,
                    ),
                    _ => false,
                },
                _ => true,
            },
    {
        proof {
            use_type_invariant(&self);
        }
        let OfferHandler { stage, ports, token, secret } = self;
        match stage {
            OfferStage::ReadingClaims => match event {
                OfferEvent::ClaimsRead(Some(t)) => {
                    let session_id = match t.session_id() {
                        Ok(v) => v,
                        Err(_) => {
                            proof {
                                assert(false);
                            }
                            0
                        },
                    };
                    let endpoint_id = match t.endpoint_id() {
                        Ok(v) => v,
                        Err(_) => {
                            proof {
                                assert(false);
                            }
                            0
                        },
                    };
                    let port = select_port(ports.as_slice(), session_id);
                    let h = OfferHandler {
                        stage: OfferStage::Serializing { session_id, endpoint_id, port },
                        ports,
                        token,
                        secret,
                    };
                    (h, OfferAction::SerializeOffer)
                },
                _ => {
                    let h = OfferHandler { stage: OfferStage::Finished, ports, token, secret };
                    (h, OfferAction::Reply(token_rejected()))
                },
            },
            OfferStage::Serializing { session_id, endpoint_id, port } => match event {
                OfferEvent::OfferSerialized(Some(offer_sdp)) => {
                    let h = OfferHandler {
                        stage: OfferStage::Dispatching { session_id, endpoint_id, port, offer_sdp },
                        ports,
                        token,
                        secret,
                    };
                    (h, OfferAction::LookUpWorker { port })
                },
                _ => {
                    let h = OfferHandler { stage: OfferStage::Finished, ports, token, secret };
                    (h, OfferAction::Reply(offer_unserializable()))
                },
            },
            OfferStage::Dispatching { session_id, endpoint_id, port, offer_sdp } => match event {
                OfferEvent::WorkerFound(true) => {
                    proof {
                        assert(ports@[(session_id as int) % (ports@.len() as int)] == port);
                    }
                    let h = OfferHandler {
                        stage: OfferStage::AwaitingAnswer { session_id, endpoint_id },
                        ports,
                        token,
                        secret,
                    };
                    let request = SignalingProtocolMessage::Offer { session_id, endpoint_id, offer_sdp };
                    (h, OfferAction::SendOffer { port, request })
                },
                _ => {
                    let h = OfferHandler { stage: OfferStage::Finished, ports, token, secret };
                    (h, OfferAction::Reply(no_media_port()))
                },
            },
            OfferStage::AwaitingAnswer { .. } => match event {
                OfferEvent::AnswerReceived(m) => {
                    let reply = match answer_reply(m) {
                        Some(rep) => rep,
                        None => {
                            proof {
                                assert(false);
                            }
                            no_media_port()
                        },
                    };
                    let h = OfferHandler { stage: OfferStage::Finished, ports, token, secret };
                    (h, OfferAction::Reply(reply))
                },
                _ => {
                    proof {
                        assert(false);
                    }
                    let h = OfferHandler { stage: OfferStage::Finished, ports, token, secret };
                    (h, OfferAction::Reply(no_media_port()))
                },
            },
            OfferStage::Finished => {
                proof {
                    assert(false);
                }
                let h = OfferHandler { stage: OfferStage::Finished, ports, token, secret };
                (h, OfferAction::Reply(no_media_port()))
            },
        }
    }
}

/// Once a reply is given the request is over: no event is taken after it,
/// so nothing is sent after a refused token or a missing worker.
pub proof fn law_finished_is_final(event: OfferEvent, ports: Seq<u16>)
    ensures
        !offer_admits(OfferStage::Finished, event, ports),
{
}

/// With the pool built from the configured media port range, an offer is
/// only ever sent to a port inside that range.
pub proof fn law_offers_stay_in_configured_range(
    stage: OfferStage,
    event: OfferEvent,
    min: u16,
    max: u16,
    next: OfferStage,
    action: OfferAction,
)
    requires
        min <= max,
        stage matches OfferStage::Dispatching { session_id, port, .. } && port == port_for_session(
            port_range(min, max),
            session_id,
        ),
        offer_step(stage, event, port_range(min, max), next, action),
    ensures
        action matches OfferAction::SendOffer { port, .. } ==> min <= port <= max,
{
    if let OfferStage::Dispatching { session_id, port, .. } = stage {
        crate::signaling::law_session_port_in_configured_range(min, max, session_id);
    }
}


/// Claims whose channel and user serials both read as `u64` are taken by a
/// request that waits for them, for every non-empty pool (a single media
/// worker included); unreadable claims (`None`) are always taken too, and
/// answered with an error.
pub proof fn law_readable_claims_admitted(t: TokenOffer, ports: Seq<u16>)
    ensures
        (ports.len() > 0 && id_of(&t.channelSn) is Ok && id_of(&t.userSn) is Ok) ==> offer_admits(
            OfferStage::ReadingClaims,
            OfferEvent::ClaimsRead(Some(t)),
            ports,
        ),
        offer_admits(OfferStage::ReadingClaims, OfferEvent::ClaimsRead(Some(t)), ports) ==> (
        ports.len() > 0 && id_of(&t.channelSn) is Ok && id_of(&t.userSn) is Ok),
        offer_admits(OfferStage::ReadingClaims, OfferEvent::ClaimsRead(None), ports),
{
}

/// A request waiting for the worker takes every response except an error
/// reason or offer payload that is not UTF-8.
pub proof fn law_responses_admitted(
    session_id: u64,
    endpoint_id: u64,
    msg: SignalingProtocolMessage,
    ports: Seq<u16>,
)
    ensures
        offer_admits(
            OfferStage::AwaitingAnswer { session_id, endpoint_id },
            OfferEvent::AnswerReceived(msg),
            ports,
        ) <==> match msg {
            SignalingProtocolMessage::Error { reason, .. } => valid_utf8(reason@),
            SignalingProtocolMessage::Offer { offer_sdp, .. } => valid_utf8(offer_sdp@),
            _ => true,
        },
{
}

/// Reading a session's claims chooses the worker at the session identifier
/// modulo the pool size, and carries both identifiers on.
pub proof fn law_claims_route_session(
    t: TokenOffer,
    ports: Seq<u16>,
    next: OfferStage,
    action: OfferAction,
)
    requires
        ports.len() > 0,
        offer_step(OfferStage::ReadingClaims, OfferEvent::ClaimsRead(Some(t)), ports, next, action),
    ensures
        match next {
            OfferStage::Serializing { session_id, endpoint_id, port } => id_of(&t.channelSn)
                == Ok::<nat, IntErrorKind>(session_id as nat) && id_of(&t.userSn) == Ok::<
                nat,
                IntErrorKind,
            >(endpoint_id as nat) && port == ports[(session_id as int) % (ports.len() as int)],
            _ => false,
        },
        action is SerializeOffer,
{
    crate::numparse::law_parse_within_bound(crate::token::text_bytes(&t.channelSn), u64::MAX as nat);
    crate::numparse::law_parse_within_bound(crate::token::text_bytes(&t.userSn), u64::MAX as nat);
}

/// The offer sent to the worker is the session's offer, unchanged, on the
/// port chosen for the session.
pub proof fn law_offer_sent_unchanged(
    session_id: u64,
    endpoint_id: u64,
    port: u16,
    offer_sdp: Vec<u8>,
    ports: Seq<u16>,
    next: OfferStage,
    action: OfferAction,
)
    requires
        offer_step(
            OfferStage::Dispatching { session_id, endpoint_id, port, offer_sdp },
            OfferEvent::WorkerFound(true),
            ports,
            next,
            action,
        ),
    ensures
        match action {
            OfferAction::SendOffer { port: p, request } => p == port && match request {
                SignalingProtocolMessage::Offer { session_id: s, endpoint_id: e, offer_sdp: o } => s
                    == session_id && e == endpoint_id && o@ == offer_sdp@,
                _ => false,
            },
            _ => false,
        },
        match next {
            OfferStage::AwaitingAnswer { session_id: s, endpoint_id: e } => s == session_id && e
                == endpoint_id,
            _ => false,
        },
{
}

} // verus!
