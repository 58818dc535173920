use std::time::{SystemTime, UNIX_EPOCH};

use beep_sfu::config::media_port_range;
use beep_sfu::offer::{OfferAction, OfferEvent, OfferHandler};
use beep_sfu::signaling::{select_port, SignalingProtocolMessage};
use beep_sfu::token::TokenOffer;
use beep_sfu::verify_jwt::{jwt_hs256_accepts, DecodeService};
use beep_sfu::worker::{offer_outcome, worker_task, WorkerTask};
use jsonwebtoken::{encode, Algorithm, EncodingKey, Header};

const SECRET: &str = "G9e1d_eQQQpnbiEAeBa7uqYXwRgtecNL";

fn now() -> i64 {
    SystemTime::now().duration_since(UNIX_EPOCH).unwrap().as_secs() as i64
}

fn sign(alg: Algorithm, secret: &str, channel: &str, user: &str, exp: i64) -> String {
    let mut claims = serde_json::Map::new();
    claims.insert("channelSn".to_string(), serde_json::Value::from(channel));
    claims.insert("userSn".to_string(), serde_json::Value::from(user));
    claims.insert("iat".to_string(), serde_json::Value::from(now()));
    claims.insert("exp".to_string(), serde_json::Value::from(exp));
    encode(&Header::new(alg), &claims, &EncodingKey::from_secret(secret.as_bytes())).unwrap()
}

fn claims(channel: &str, user: &str) -> TokenOffer {
    TokenOffer { channelSn: channel.to_string(), userSn: user.to_string(), iat: 0, exp: 0 }
}

#[test]
fn tokens_signed_with_the_app_key_are_accepted() {
    let service = DecodeService::new(SECRET.to_string());
    let token = sign(Algorithm::HS256, SECRET, "433774451", "456773342", now() + 3600);
    assert!(service.accepts(&token));
    assert!(jwt_hs256_accepts(&token, SECRET));
}

#[test]
fn other_tokens_are_refused() {
    let service = DecodeService::new(SECRET.to_string());
    let wrong_key = sign(Algorithm::HS256, "another secret", "1", "2", now() + 3600);
    assert!(!service.accepts(&wrong_key));
    let expired = sign(Algorithm::HS256, SECRET, "1", "2", now() - 3600);
    assert!(!service.accepts(&expired));
    let other_alg = sign(Algorithm::HS384, SECRET, "1", "2", now() + 3600);
    assert!(!service.accepts(&other_alg));
    assert!(!service.accepts("not.a.token"));
    assert!(!service.accepts(""));
    // the secret itself is no token
    assert!(!jwt_hs256_accepts(SECRET, SECRET));
}

#[test]
fn refused_token_ends_the_request() {
    let service = DecodeService::new(SECRET.to_string());
    let (_, action) = OfferHandler::start(&service, "garbage", vec![3478]);
    match action {
        OfferAction::Reply(r) => {
            assert_eq!((r.status, r.body), (500, b"Error decoding token".to_vec()));
        }
        _ => panic!("a refused token must be answered at once"),
    }
}

#[test]
fn an_offer_goes_to_the_session_worker() {
    let service = DecodeService::new(SECRET.to_string());
    let token = sign(Algorithm::HS256, SECRET, "433774451", "7", now() + 3600);
    let ports = media_port_range(3478, 3495);
    let (h, a) = OfferHandler::start(&service, &token, ports.clone());
    assert!(matches!(a, OfferAction::ReadClaims));

    let ev = OfferEvent::ClaimsRead(Some(claims("433774451", "7")));
    assert!(h.admits(&ev));
    let (h, a) = h.step(ev);
    assert!(matches!(a, OfferAction::SerializeOffer));

    let ev = OfferEvent::OfferSerialized(Some(b"{\"sdp\":\"v=0\",\"type\":\"offer\"}".to_vec()));
    assert!(h.admits(&ev));
    let (h, a) = h.step(ev);
    let expected_port = select_port(&ports, 433774451);
    match a {
        OfferAction::LookUpWorker { port } => assert_eq!(port, expected_port),
        _ => panic!("the worker must be looked up"),
    }

    let ev = OfferEvent::WorkerFound(true);
    assert!(h.admits(&ev));
    let (h, a) = h.step(ev);
    match a {
        OfferAction::SendOffer { port, request } => {
            assert_eq!(port, expected_port);
            match request {
                SignalingProtocolMessage::Offer { session_id, endpoint_id, offer_sdp } => {
                    assert_eq!((session_id, endpoint_id), (433774451, 7));
                    assert_eq!(offer_sdp, b"{\"sdp\":\"v=0\",\"type\":\"offer\"}".to_vec());
                }
                _ => panic!("an offer must be sent"),
            }
        }
        _ => panic!("the offer must be sent"),
    }

    let ev = OfferEvent::AnswerReceived(SignalingProtocolMessage::Answer {
        session_id: 433774451,
        endpoint_id: 7,
        answer_sdp: b"answer".to_vec(),
    });
    assert!(h.admits(&ev));
    let (h, a) = h.step(ev);
    match a {
        OfferAction::Reply(r) => assert_eq!((r.status, r.json, r.body), (200, true, b"answer".to_vec())),
        _ => panic!("the answer must be replied"),
    }
    // nothing more is taken
    assert!(!h.admits(&OfferEvent::WorkerFound(true)));
}

#[test]
fn failures_along_the_way_are_replied() {
    let service = DecodeService::new(SECRET.to_string());
    let token = sign(Algorithm::HS256, SECRET, "5", "6", now() + 3600);

    let (h, _) = OfferHandler::start(&service, &token, vec![4000]);
    let (h, a) = h.step(OfferEvent::ClaimsRead(None));
    assert!(matches!(a, OfferAction::Reply(ref r) if r.body == b"Error decoding token".to_vec()));
    assert!(!h.admits(&OfferEvent::OfferSerialized(None)));

    let (h, _) = OfferHandler::start(&service, &token, vec![4000]);
    let (h, _) = h.step(OfferEvent::ClaimsRead(Some(claims("5", "6"))));
    let (_, a) = h.step(OfferEvent::OfferSerialized(None));
    assert!(matches!(a, OfferAction::Reply(ref r) if r.status == 500 && r.body == b"Error serializing offer".to_vec()));

    let (h, _) = OfferHandler::start(&service, &token, vec![4000]);
    let (h, _) = h.step(OfferEvent::ClaimsRead(Some(claims("5", "6"))));
    let (h, a) = h.step(OfferEvent::OfferSerialized(Some(vec![1])));
    assert!(matches!(a, OfferAction::LookUpWorker { port: 4000 }));
    let (_, a) = h.step(OfferEvent::WorkerFound(false));
    assert!(matches!(a, OfferAction::Reply(ref r) if r.body == b"No media port available".to_vec()));
}

#[test]
fn requests_that_cannot_go_on_are_not_admitted() {
    let service = DecodeService::new(SECRET.to_string());
    let token = sign(Algorithm::HS256, SECRET, "5", "6", now() + 3600);
    let (h, _) = OfferHandler::start(&service, &token, vec![4000]);
    assert!(!h.admits(&OfferEvent::ClaimsRead(Some(claims("five", "6")))));
    assert!(!h.admits(&OfferEvent::ClaimsRead(Some(claims("5", "")))));
    assert!(!h.admits(&OfferEvent::WorkerFound(true)));
    assert!(h.admits(&OfferEvent::ClaimsRead(None)));
    let (h, _) = OfferHandler::start(&service, &token, vec![]);
    assert!(!h.admits(&OfferEvent::ClaimsRead(Some(claims("5", "6")))));

    let (h, _) = OfferHandler::start(&service, &token, vec![4000]);
    let (h, _) = h.step(OfferEvent::ClaimsRead(Some(claims("5", "6"))));
    let (h, _) = h.step(OfferEvent::OfferSerialized(Some(vec![1])));
    let (h, _) = h.step(OfferEvent::WorkerFound(true));
    assert!(!h.admits(&OfferEvent::AnswerReceived(SignalingProtocolMessage::Error {
        session_id: 5,
        endpoint_id: 6,
        reason: vec![0xff],
    })));
    assert!(h.admits(&OfferEvent::AnswerReceived(SignalingProtocolMessage::Leave {
        session_id: 5,
        endpoint_id: 6,
    })));
}

#[test]
fn workers_sort_requests() {
    match worker_task(SignalingProtocolMessage::Offer { session_id: 1, endpoint_id: 2, offer_sdp: vec![9] }) {
        WorkerTask::AcceptOffer { session_id, endpoint_id, offer_sdp } => {
            assert_eq!((session_id, endpoint_id, offer_sdp), (1, 2, vec![9]))
        }
        _ => panic!("offers are accepted"),
    }
    match worker_task(SignalingProtocolMessage::Leave { session_id: 1, endpoint_id: 2 }) {
        WorkerTask::Respond(SignalingProtocolMessage::Ack { session_id: 1, endpoint_id: 2 }) => {}
        _ => panic!("leaves are acknowledged"),
    }
    let stray = [
        SignalingProtocolMessage::Ack { session_id: 3, endpoint_id: 4 },
        SignalingProtocolMessage::Error { session_id: 3, endpoint_id: 4, reason: vec![1] },
        SignalingProtocolMessage::Answer { session_id: 3, endpoint_id: 4, answer_sdp: vec![2] },
    ];
    for m in stray {
        match worker_task(m) {
            WorkerTask::Respond(SignalingProtocolMessage::Error { session_id, endpoint_id, reason }) => {
                assert_eq!((session_id, endpoint_id), (3, 4));
                assert_eq!(reason, b"Invalid Request".to_vec());
            }
            _ => panic!("stray requests are refused"),
        }
    }
}

#[test]
fn offer_outcomes() {
    match offer_outcome(1, 2, Ok(b"sdp".to_vec())) {
        SignalingProtocolMessage::Answer { session_id: 1, endpoint_id: 2, answer_sdp } => {
            assert_eq!(answer_sdp, b"sdp".to_vec())
        }
        _ => panic!("accepted offers are answered"),
    }
    match offer_outcome(1, 2, Err(b"bad sdp".to_vec())) {
        SignalingProtocolMessage::Error { session_id: 1, endpoint_id: 2, reason } => {
            assert_eq!(reason, b"bad sdp".to_vec())
        }
        _ => panic!("failed offers are reported"),
    }
}
