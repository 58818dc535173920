use beep_sfu::config::{media_port_range, Config, IpEndpoint};
use beep_sfu::numparse::{decimal_bytes, parse_u16, parse_u64, IntErrorKind};
use beep_sfu::signaling::{
    answer_reply, health, leave, no_media_port, offer_unserializable, select_port, token_rejected,
    SignalingProtocolMessage,
};
use beep_sfu::token::TokenOffer;
use beep_sfu::utf8check::is_valid_utf8;
use beep_sfu::verify_jwt::DecodeService;

fn token(channel: &str, user: &str) -> TokenOffer {
    TokenOffer { channelSn: channel.to_string(), userSn: user.to_string(), iat: 1, exp: 2 }
}

#[test]
fn ports_parse_like_std() {
    assert_eq!(parse_u16("3478"), Ok(3478));
    assert_eq!(parse_u16("+8080"), Ok(8080));
    assert_eq!(parse_u16("0"), Ok(0));
    assert_eq!(parse_u16("65535"), Ok(65535));
    assert_eq!(parse_u16("00042"), Ok(42));
}

#[test]
fn port_parse_errors() {
    assert_eq!(parse_u16(""), Err(IntErrorKind::Empty));
    assert_eq!(parse_u16("+"), Err(IntErrorKind::InvalidDigit));
    assert_eq!(parse_u16("-"), Err(IntErrorKind::InvalidDigit));
    assert_eq!(parse_u16("-1"), Err(IntErrorKind::InvalidDigit));
    assert_eq!(parse_u16("12a"), Err(IntErrorKind::InvalidDigit));
    assert_eq!(parse_u16(" 80"), Err(IntErrorKind::InvalidDigit));
    assert_eq!(parse_u16("65536"), Err(IntErrorKind::PosOverflow));
    // the first offending byte decides: overflow comes before the letter
    assert_eq!(parse_u16("999999x"), Err(IntErrorKind::PosOverflow));
    assert_eq!(parse_u16("99x999"), Err(IntErrorKind::InvalidDigit));
    assert_eq!(parse_u16("é"), Err(IntErrorKind::InvalidDigit));
}

#[test]
fn parse_agrees_with_std() {
    let cases = [
        "", "+", "-", "0", "7", "+7", "-7", "65535", "65536", "99999", "123456", "1a", "a1",
        "+-1", "++1", "18446744073709551615", "18446744073709551616", "00000000000000000000001",
        "1 ", " 1", "٣",
    ];
    for c in cases {
        let ours16 = parse_u16(c).ok();
        assert_eq!(ours16, c.parse::<u16>().ok(), "u16 {c:?}");
        let ours64 = parse_u64(c).ok();
        assert_eq!(ours64, c.parse::<u64>().ok(), "u64 {c:?}");
    }
}

#[test]
fn u64_ids_parse() {
    assert_eq!(parse_u64("18446744073709551615"), Ok(u64::MAX));
    assert_eq!(parse_u64("18446744073709551616"), Err(IntErrorKind::PosOverflow));
    let t = token("433774451", "456773342");
    assert_eq!(t.session_id(), Ok(433774451));
    assert_eq!(t.endpoint_id(), Ok(456773342));
    let bad = token("chan-1", "");
    assert_eq!(bad.session_id(), Err(IntErrorKind::InvalidDigit));
    assert_eq!(bad.endpoint_id(), Err(IntErrorKind::Empty));
}

#[test]
fn decimal_round_trip() {
    for n in [0u64, 9, 10, 99, 100, 4294967296, u64::MAX] {
        let digits = decimal_bytes(n);
        assert_eq!(digits, n.to_string().into_bytes());
        let text = String::from_utf8(digits).unwrap();
        assert_eq!(parse_u64(&text), Ok(n));
    }
}

#[test]
fn media_ports_cover_the_range() {
    assert_eq!(media_port_range(3478, 3481), vec![3478, 3479, 3480, 3481]);
    assert_eq!(media_port_range(3478, 3478), vec![3478]);
    assert_eq!(media_port_range(3479, 3478), Vec::<u16>::new());
    let all = media_port_range(65530, 65535);
    assert_eq!(all, vec![65530, 65531, 65532, 65533, 65534, 65535]);
    assert_eq!(media_port_range(0, 65535).len(), 65536);
}

#[test]
fn sessions_are_routed_by_identifier() {
    let ports = media_port_range(3478, 3495);
    assert_eq!(select_port(&ports, 0), 3478);
    assert_eq!(select_port(&ports, 17), 3495);
    assert_eq!(select_port(&ports, 18), 3478);
    assert_eq!(select_port(&ports, 433774451), ports[(433774451u64 % 18) as usize]);
    // same session, same worker; and the port is one of the pool
    for s in [1u64, 77, 1234567, u64::MAX] {
        let p = select_port(&ports, s);
        assert_eq!(p, select_port(&ports, s));
        assert!(ports.contains(&p));
        assert!((3478..=3495).contains(&p));
    }
    assert_eq!(select_port(&[9000, 7000], 3), 7000);
}

#[test]
fn fixed_replies() {
    let h = health();
    assert_eq!((h.status, h.json, h.body), (200, false, b"OK".to_vec()));
    let l = leave();
    assert_eq!((l.status, l.json, l.body), (200, false, Vec::new()));
    let t = token_rejected();
    assert_eq!((t.status, t.body), (500, b"Error decoding token".to_vec()));
    let s = offer_unserializable();
    assert_eq!((s.status, s.body), (500, b"Error serializing offer".to_vec()));
    let n = no_media_port();
    assert_eq!((n.status, n.body), (500, b"No media port available".to_vec()));
}

#[test]
fn only_answers_succeed() {
    let sdp = br#"{"type":"answer","sdp":"v=0"}"#.to_vec();
    let r = answer_reply(SignalingProtocolMessage::Answer {
        session_id: 1,
        endpoint_id: 2,
        answer_sdp: sdp.clone(),
    })
    .unwrap();
    assert_eq!((r.status, r.json, r.body), (200, true, sdp));

    let r = answer_reply(SignalingProtocolMessage::Leave { session_id: 1, endpoint_id: 2 }).unwrap();
    assert_eq!((r.status, r.json, r.body), (500, false, b"Session left".to_vec()));

    let r = answer_reply(SignalingProtocolMessage::Ack { session_id: 1, endpoint_id: 2 }).unwrap();
    assert_eq!(r.status, 500);
    assert_eq!(r.body, b"Received Ok for session endpoint while expecting answer".to_vec());

    let r = answer_reply(SignalingProtocolMessage::Offer {
        session_id: 1,
        endpoint_id: 2,
        offer_sdp: b"v=0".to_vec(),
    })
    .unwrap();
    assert_eq!(r.status, 500);
    assert_eq!(r.body, b"Received offer for session endpoint while expecting answer".to_vec());
}

#[test]
fn worker_errors_are_reported() {
    let r = answer_reply(SignalingProtocolMessage::Error {
        session_id: 433774451,
        endpoint_id: 0,
        reason: "Invalid Request".as_bytes().to_vec(),
    })
    .unwrap();
    assert_eq!(r.status, 500);
    assert!(!r.json);
    assert_eq!(
        String::from_utf8(r.body).unwrap(),
        format!("Error for session {} endpoint {}: {}", 433774451u64, 0u64, "Invalid Request")
    );
    let r = answer_reply(SignalingProtocolMessage::Error {
        session_id: u64::MAX,
        endpoint_id: 5,
        reason: "déjà vu".as_bytes().to_vec(),
    })
    .unwrap();
    assert_eq!(String::from_utf8(r.body).unwrap(), format!("Error for session {} endpoint 5: déjà vu", u64::MAX));
}

#[test]
fn unprintable_answers_are_refused() {
    assert!(answer_reply(SignalingProtocolMessage::Error {
        session_id: 1,
        endpoint_id: 2,
        reason: vec![0xff, 0x41],
    })
    .is_none());
    assert!(answer_reply(SignalingProtocolMessage::Offer {
        session_id: 1,
        endpoint_id: 2,
        offer_sdp: vec![0xc0, 0x80],
    })
    .is_none());
    // an answer is passed through whatever its bytes
    assert!(answer_reply(SignalingProtocolMessage::Answer {
        session_id: 1,
        endpoint_id: 2,
        answer_sdp: vec![0xff],
    })
    .is_some());
}

#[test]
fn utf8_check_agrees_with_std() {
    let cases: Vec<Vec<u8>> = vec![
        vec![],
        b"hello".to_vec(),
        "déjà vu €𝄞".as_bytes().to_vec(),
        vec![0x80],
        vec![0xc0, 0x80],
        vec![0xc2, 0x80],
        vec![0xdf, 0xbf],
        vec![0xe0, 0x80, 0x80],
        vec![0xe0, 0xa0, 0x80],
        vec![0xed, 0xa0, 0x80],
        vec![0xed, 0x9f, 0xbf],
        vec![0xef, 0xbf, 0xbf],
        vec![0xf0, 0x8f, 0xbf, 0xbf],
        vec![0xf0, 0x90, 0x80, 0x80],
        vec![0xf4, 0x8f, 0xbf, 0xbf],
        vec![0xf4, 0x90, 0x80, 0x80],
        vec![0xf5, 0x80, 0x80, 0x80],
        vec![0xf8, 0x88, 0x80, 0x80, 0x80],
        vec![0xe2, 0x82],
        vec![0x41, 0xe2, 0x82, 0xac, 0x42],
        vec![0xff],
    ];
    for c in cases {
        assert_eq!(is_valid_utf8(&c), std::str::from_utf8(&c).is_ok(), "{c:?}");
    }
}

#[test]
fn services_keep_their_settings() {
    let s = DecodeService::new("G9e1d_eQQQpnbiEAeBa7uqYXwRgtecNL".to_string());
    assert_eq!(s.app_secret, "G9e1d_eQQQpnbiEAeBa7uqYXwRgtecNL");
    let c = Config::new("k".to_string(), 3478, 3479, 8080, IpEndpoint::V4([127, 0, 0, 1]));
    assert_eq!(c.app_secret, "k");
    assert_eq!((c.value_port_min, c.value_port_max, c.signal_port), (3478, 3479, 8080));
    assert_eq!(c.ip_endpoint, IpEndpoint::V4([127, 0, 0, 1]));
    assert_eq!(media_port_range(c.value_port_min, c.value_port_max), vec![3478, 3479]);
}
