use base64::Engine;
use rustshell::crypto::{password_response, IdPk, IdPkError};
use rustshell::session::{
    rendezvous_address, secure_tcp_reply, Action, Endpoint, Event, FirstMessage, LoginOutcome,
    Outgoing, Phase, PeerMessage, PunchHoleFailure, PunchHoleResponse, RefusalReason, RelayResponse,
    RelayTarget, RendezvousReply, Session, SessionError,
};
use sodiumoxide::crypto::{box_, sign};

const DEFAULT_KEY: &str = "OeVuKk5nlHiXp+APNn0Y3pC1Iwpwn44JGqrQCsWqmBw=";

struct Keys {
    rs: (sign::PublicKey, sign::SecretKey),
    peer_sign: (sign::PublicKey, sign::SecretKey),
    peer_box: (box_::PublicKey, box_::SecretKey),
}

fn keys() -> Keys {
    Keys { rs: sign::gen_keypair(), peer_sign: sign::gen_keypair(), peer_box: box_::gen_keypair() }
}

fn key_text(pk: &sign::PublicKey) -> String {
    base64::engine::general_purpose::STANDARD.encode(pk.0)
}

fn start(licence_key: &str) -> (Session, Action) {
    Session::new(
        "123456789".to_string(),
        licence_key.to_string(),
        "rs.example.com",
        21116,
        "secret".to_string(),
        DEFAULT_KEY,
    )
}

fn punch_hole(socket_addr: Vec<u8>, pk: Vec<u8>, relay_server: &str) -> Event {
    Event::Rendezvous(RendezvousReply::PunchHole(PunchHoleResponse {
        socket_addr,
        pk,
        relay_server: relay_server.to_string(),
        failure: PunchHoleFailure::Other,
        other_failure: String::new(),
    }))
}

/// Drives a session up to the point where the peer connection is up and the
/// vouched key is being checked.
fn to_peer(k: &Keys) -> (Session, Action) {
    let (mut s, a) = start(&key_text(&k.rs.0));
    assert!(matches!(a, Action::Connect(Endpoint::Rendezvous(_))));
    assert!(matches!(s.step(Event::Connected), Action::AwaitFirstMessage));
    assert!(matches!(
        s.step(Event::FirstMessage(FirstMessage::Timeout)),
        Action::Send(Outgoing::PunchHoleRequest { .. })
    ));
    assert!(matches!(s.step(Event::Sent), Action::Receive));
    let vouched = sign::sign(b"vouched record", &k.rs.1);
    let a = s.step(punch_hole(vec![1, 2, 3], vouched, ""));
    assert!(matches!(a, Action::Connect(Endpoint::Direct(ref d)) if *d == vec![1, 2, 3]));
    let a = s.step(Event::Connected);
    (s, a)
}

#[test]
fn rendezvous_address_is_host_colon_port() {
    assert_eq!(rendezvous_address("rs.example.com", 21116), "rs.example.com:21116");
    assert_eq!(rendezvous_address("10.0.0.1", 0), "10.0.0.1:0");
    assert_eq!(rendezvous_address("h", 65535), "h:65535");
    assert_eq!(rendezvous_address("h", 7), "h:7");
}

#[test]
fn new_session_connects_to_the_rendezvous_server() {
    let (s, a) = start("");
    match a {
        Action::Connect(Endpoint::Rendezvous(addr)) => assert_eq!(addr, "rs.example.com:21116"),
        other => panic!("unexpected {:?}", other),
    }
    assert_eq!(s.phase, Phase::ConnectingRendezvous);
    assert_eq!(s.config.key_str, DEFAULT_KEY);
    assert!(s.config.rs_pk.is_some());
    let (s2, _) = start("MyKey");
    assert_eq!(s2.config.key_str, "MyKey");
    assert!(s2.config.rs_pk.is_none());
}

#[test]
fn rendezvous_connect_failure_fails() {
    let (mut s, _) = start("");
    assert!(matches!(s.step(Event::ConnectFailed), Action::Fail(SessionError::ConnectRendezvousFailed)));
    assert_eq!(s.phase, Phase::Failed);
    assert!(matches!(s.step(Event::Connected), Action::Fail(SessionError::UnexpectedEvent)));
}

#[test]
fn invalid_key_skips_key_exchange() {
    let (mut s, _) = start("not a key");
    match s.step(Event::Connected) {
        Action::Send(Outgoing::PunchHoleRequest { id, licence_key }) => {
            assert_eq!(id, "123456789");
            assert_eq!(licence_key, "not a key");
        }
        other => panic!("unexpected {:?}", other),
    }
}

#[test]
fn closed_rendezvous_fails_key_exchange() {
    let (mut s, _) = start("");
    s.step(Event::Connected);
    assert!(matches!(
        s.step(Event::FirstMessage(FirstMessage::Closed)),
        Action::Fail(SessionError::RendezvousClosed)
    ));
}

#[test]
fn rendezvous_key_exchange_is_answered() {
    let k = keys();
    let (mut s, _) = start(&key_text(&k.rs.0));
    s.step(Event::Connected);
    let signed = sign::sign(&k.peer_box.0 .0, &k.rs.1);
    let a = s.step(Event::FirstMessage(FirstMessage::Message(RendezvousReply::KeyExchange {
        keys: vec![signed],
    })));
    match a {
        Action::Send(Outgoing::KeyExchange { asymmetric, symmetric, key }) => {
            let nonce = box_::Nonce([0u8; box_::NONCEBYTES]);
            let ours = box_::PublicKey(asymmetric.as_slice().try_into().unwrap());
            assert_eq!(box_::open(&symmetric, &nonce, &ours, &k.peer_box.1).unwrap(), key.to_vec());
        }
        other => panic!("unexpected {:?}", other),
    }
    assert!(matches!(s.step(Event::Sent), Action::Send(Outgoing::PunchHoleRequest { .. })));
}

#[test]
fn unusable_key_exchanges_are_skipped() {
    let k = keys();
    let rs = Some(k.rs.0 .0);
    let good = sign::sign(&k.peer_box.0 .0, &k.rs.1);
    assert!(secure_tcp_reply(&vec![good.clone()], &rs).is_some());
    assert!(secure_tcp_reply(&vec![good.clone(), good.clone()], &rs).is_none());
    assert!(secure_tcp_reply(&vec![], &rs).is_none());
    assert!(secure_tcp_reply(&vec![good.clone()], &None).is_none());
    let wrong_signer = sign::sign(&k.peer_box.0 .0, &k.peer_sign.1);
    assert!(secure_tcp_reply(&vec![wrong_signer], &rs).is_none());
    let short = sign::sign(&[1u8; 31], &k.rs.1);
    assert!(secure_tcp_reply(&vec![short], &rs).is_none());
}

#[test]
fn refused_punch_hole_reports_the_reason() {
    let cases = [
        (PunchHoleFailure::IdNotExist, "x"),
        (PunchHoleFailure::Offline, "x"),
        (PunchHoleFailure::LicenseMismatch, "x"),
        (PunchHoleFailure::LicenseOveruse, "x"),
        (PunchHoleFailure::Other, "custom reason"),
    ];
    for (failure, other) in cases {
        let (mut s, _) = start("MyKey");
        s.step(Event::Connected);
        s.step(Event::Sent);
        let a = s.step(Event::Rendezvous(RendezvousReply::PunchHole(PunchHoleResponse {
            socket_addr: Vec::new(),
            pk: Vec::new(),
            relay_server: String::new(),
            failure,
            other_failure: other.to_string(),
        })));
        match (failure, a) {
            (PunchHoleFailure::IdNotExist, Action::Fail(SessionError::ConnectionRefused(RefusalReason::IdNotExist))) => {}
            (PunchHoleFailure::Offline, Action::Fail(SessionError::ConnectionRefused(RefusalReason::Offline))) => {}
            (PunchHoleFailure::LicenseMismatch, Action::Fail(SessionError::ConnectionRefused(RefusalReason::KeyMismatch))) => {}
            (PunchHoleFailure::LicenseOveruse, Action::Fail(SessionError::ConnectionRefused(RefusalReason::KeyOveruse))) => {}
            (PunchHoleFailure::Other, Action::Fail(SessionError::ConnectionRefused(RefusalReason::Other(m)))) => {
                assert_eq!(m, "custom reason")
            }
            (f, a) => panic!("unexpected {:?} for {:?}", a, f),
        }
    }
}

#[test]
fn unexpected_rendezvous_reply_fails() {
    let (mut s, _) = start("MyKey");
    s.step(Event::Connected);
    s.step(Event::Sent);
    assert!(matches!(
        s.step(Event::Rendezvous(RendezvousReply::Other)),
        Action::Fail(SessionError::UnexpectedResponse { empty: false })
    ));
    let (mut s, _) = start("MyKey");
    s.step(Event::Connected);
    s.step(Event::Sent);
    assert!(matches!(
        s.step(Event::Rendezvous(RendezvousReply::Empty)),
        Action::Fail(SessionError::UnexpectedResponse { empty: true })
    ));
}

#[test]
fn direct_failure_falls_back_to_relay() {
    let (mut s, _) = start("MyKey");
    s.step(Event::Connected);
    s.step(Event::Sent);
    s.step(punch_hole(vec![9], Vec::new(), ""));
    match s.step(Event::ConnectFailed) {
        Action::Connect(Endpoint::Relay(RelayTarget::NextPort(h))) => {
            assert_eq!(h, "rs.example.com:21116")
        }
        other => panic!("unexpected {:?}", other),
    }
    match s.step(Event::Connected) {
        Action::Send(Outgoing::RequestRelay { id, uuid, licence_key }) => {
            assert_eq!(id, "123456789");
            assert_eq!(uuid, "");
            assert_eq!(licence_key, "MyKey");
        }
        other => panic!("unexpected {:?}", other),
    }
    // The licence key does not decode as a key: the peer cannot be verified.
    assert!(matches!(s.step(Event::Sent), Action::Fail(SessionError::InvalidServerKey)));
}

#[test]
fn named_relay_server_is_used() {
    let (mut s, _) = start("MyKey");
    s.step(Event::Connected);
    s.step(Event::Sent);
    let a = s.step(Event::Rendezvous(RendezvousReply::Relay(RelayResponse {
        relay_server: "relay.example.com".to_string(),
        uuid: "abc-uuid".to_string(),
        pk: None,
    })));
    match a {
        Action::Connect(Endpoint::Relay(RelayTarget::Server(h))) => assert_eq!(h, "relay.example.com"),
        other => panic!("unexpected {:?}", other),
    }
    match s.step(Event::Connected) {
        Action::Send(Outgoing::RequestRelay { uuid, .. }) => assert_eq!(uuid, "abc-uuid"),
        other => panic!("unexpected {:?}", other),
    }
    assert!(matches!(s.step(Event::ConnectFailed), Action::Fail(SessionError::UnexpectedEvent)));
}

#[test]
fn relay_connect_failure_fails() {
    let (mut s, _) = start("MyKey");
    s.step(Event::Connected);
    s.step(Event::Sent);
    s.step(Event::Rendezvous(RendezvousReply::Relay(RelayResponse {
        relay_server: String::new(),
        uuid: "u".to_string(),
        pk: Some(vec![1]),
    })));
    assert!(matches!(s.step(Event::ConnectFailed), Action::Fail(SessionError::ConnectRelayFailed)));
}

#[test]
fn full_handshake_reaches_the_terminal() {
    let k = keys();
    let (mut s, a) = to_peer(&k);
    match a {
        Action::DecodeIdPk(payload) => assert_eq!(payload, b"vouched record".to_vec()),
        other => panic!("unexpected {:?}", other),
    }
    let a = s.step(Event::IdPkDecoded(Ok(IdPk {
        id: "123456789".to_string(),
        pk: k.peer_sign.0 .0.to_vec(),
    })));
    assert!(matches!(a, Action::Receive));
    let signed_id = sign::sign(b"peer record", &k.peer_sign.1);
    match s.step(Event::Peer(PeerMessage::SignedId { id: signed_id })) {
        Action::DecodeIdPk(payload) => assert_eq!(payload, b"peer record".to_vec()),
        other => panic!("unexpected {:?}", other),
    }
    let a = s.step(Event::IdPkDecoded(Ok(IdPk {
        id: "123456789".to_string(),
        pk: k.peer_box.0 .0.to_vec(),
    })));
    let session_key = match a {
        Action::Send(Outgoing::PublicKey { asymmetric, symmetric, key }) => {
            let nonce = box_::Nonce([0u8; box_::NONCEBYTES]);
            let ours = box_::PublicKey(asymmetric.as_slice().try_into().unwrap());
            assert_eq!(box_::open(&symmetric, &nonce, &ours, &k.peer_box.1).unwrap(), key.to_vec());
            key
        }
        other => panic!("unexpected {:?}", other),
    };
    assert_eq!(s.session_key, Some(session_key));
    assert_eq!(s.peer_id.as_deref(), Some("123456789"));
    assert!(matches!(s.step(Event::Sent), Action::Receive));
    match s.step(Event::Peer(PeerMessage::Hash { salt: "NaCl".to_string(), challenge: "chall".to_string() })) {
        Action::Send(Outgoing::LoginRequest { username, password }) => {
            assert_eq!(username, "123456789");
            assert_eq!(password, password_response("secret", "NaCl", "chall"));
            assert_eq!(password.len(), 32);
        }
        other => panic!("unexpected {:?}", other),
    }
    assert!(matches!(s.step(Event::Sent), Action::Receive));
    match s.step(Event::LoginReply {
        message: Some(PeerMessage::LoginResponse(LoginOutcome::PeerInfo { platform: "Linux".to_string() })),
        login_response: None,
    }) {
        Action::StartTerminal { remote_platform } => assert_eq!(remote_platform, "Linux"),
        other => panic!("unexpected {:?}", other),
    }
    assert_eq!(s.phase, Phase::Done);
}

fn to_login(k: &Keys) -> Session {
    let (mut s, _) = to_peer(k);
    s.step(Event::IdPkDecoded(Ok(IdPk { id: "1".to_string(), pk: k.peer_sign.0 .0.to_vec() })));
    s.step(Event::Peer(PeerMessage::SignedId { id: sign::sign(b"r", &k.peer_sign.1) }));
    s.step(Event::IdPkDecoded(Ok(IdPk { id: "1".to_string(), pk: k.peer_box.0 .0.to_vec() })));
    s.step(Event::Sent);
    s.step(Event::Peer(PeerMessage::Hash { salt: "s".to_string(), challenge: "c".to_string() }));
    s.step(Event::Sent);
    assert_eq!(s.phase, Phase::AwaitingLoginResponse);
    s
}

#[test]
fn login_answers() {
    let k = keys();
    let mut s = to_login(&k);
    match s.step(Event::LoginReply {
        message: Some(PeerMessage::LoginResponse(LoginOutcome::Error("Wrong Password".to_string()))),
        login_response: None,
    }) {
        Action::Fail(SessionError::LoginFailed(m)) => assert_eq!(m, "Wrong Password"),
        other => panic!("unexpected {:?}", other),
    }
    // An empty error is no failure.
    let mut s = to_login(&k);
    match s.step(Event::LoginReply {
        message: Some(PeerMessage::LoginResponse(LoginOutcome::Error(String::new()))),
        login_response: None,
    }) {
        Action::StartTerminal { remote_platform } => assert_eq!(remote_platform, ""),
        other => panic!("unexpected {:?}", other),
    }
    // An early terminal response proceeds without peer info.
    let mut s = to_login(&k);
    match s.step(Event::LoginReply {
        message: Some(PeerMessage::TerminalResponse),
        login_response: Some(LoginOutcome::Error("ignored".to_string())),
    }) {
        Action::StartTerminal { remote_platform } => assert_eq!(remote_platform, ""),
        other => panic!("unexpected {:?}", other),
    }
    // A bare login response is read when the answer is no login message.
    let mut s = to_login(&k);
    match s.step(Event::LoginReply {
        message: None,
        login_response: Some(LoginOutcome::PeerInfo { platform: "Windows".to_string() }),
    }) {
        Action::StartTerminal { remote_platform } => assert_eq!(remote_platform, "Windows"),
        other => panic!("unexpected {:?}", other),
    }
    let mut s = to_login(&k);
    assert!(matches!(
        s.step(Event::LoginReply { message: Some(PeerMessage::Other), login_response: None }),
        Action::StartTerminal { .. }
    ));
}

#[test]
fn bad_vouch_fails() {
    let k = keys();
    let (mut s, _) = start(&key_text(&k.rs.0));
    s.step(Event::Connected);
    s.step(Event::FirstMessage(FirstMessage::Timeout));
    s.step(Event::Sent);
    let forged = sign::sign(b"vouched record", &k.peer_sign.1);
    s.step(punch_hole(vec![1], forged, ""));
    assert!(matches!(
        s.step(Event::Connected),
        Action::Fail(SessionError::PeerKeyUnverified(IdPkError::SignatureMismatch))
    ));
    let (mut s, _) = to_peer(&k);
    assert!(matches!(
        s.step(Event::IdPkDecoded(Err("truncated message".to_string()))),
        Action::Fail(SessionError::PeerKeyUnverified(IdPkError::Malformed(ref m))) if m == "truncated message"
    ));
    let (mut s, _) = to_peer(&k);
    assert!(matches!(
        s.step(Event::IdPkDecoded(Ok(IdPk { id: "1".to_string(), pk: vec![0; 5] }))),
        Action::Fail(SessionError::PeerKeyUnverified(IdPkError::WrongKeyLength))
    ));
}

#[test]
fn peer_identity_must_be_signed_with_the_vouched_key() {
    let k = keys();
    let (mut s, _) = to_peer(&k);
    s.step(Event::IdPkDecoded(Ok(IdPk { id: "1".to_string(), pk: k.peer_sign.0 .0.to_vec() })));
    let forged = sign::sign(b"peer record", &k.rs.1);
    assert!(matches!(
        s.step(Event::Peer(PeerMessage::SignedId { id: forged })),
        Action::Fail(SessionError::PeerIdUnverified(IdPkError::SignatureMismatch))
    ));
    assert!(s.session_key.is_none());
}

#[test]
fn no_vouched_key_means_no_session() {
    let k = keys();
    let (mut s, _) = start(&key_text(&k.rs.0));
    s.step(Event::Connected);
    s.step(Event::FirstMessage(FirstMessage::Unparsable));
    s.step(Event::Sent);
    s.step(punch_hole(vec![1], Vec::new(), "relay.example.com"));
    assert!(matches!(s.step(Event::Connected), Action::Receive));
    assert!(matches!(
        s.step(Event::Peer(PeerMessage::SignedId { id: sign::sign(b"r", &k.peer_sign.1) })),
        Action::Fail(SessionError::NoPeerKey)
    ));
}

#[test]
fn unexpected_peer_messages_fail() {
    let k = keys();
    let (mut s, _) = to_peer(&k);
    s.step(Event::IdPkDecoded(Ok(IdPk { id: "1".to_string(), pk: k.peer_sign.0 .0.to_vec() })));
    assert!(matches!(
        s.step(Event::Peer(PeerMessage::Hash { salt: String::new(), challenge: String::new() })),
        Action::Fail(SessionError::ExpectedSignedId { empty: false })
    ));
    let (mut s, _) = to_peer(&k);
    s.step(Event::IdPkDecoded(Ok(IdPk { id: "1".to_string(), pk: k.peer_sign.0 .0.to_vec() })));
    assert!(matches!(
        s.step(Event::Peer(PeerMessage::Empty)),
        Action::Fail(SessionError::ExpectedSignedId { empty: true })
    ));
    let (mut s, _) = to_peer(&k);
    s.step(Event::IdPkDecoded(Ok(IdPk { id: "1".to_string(), pk: k.peer_sign.0 .0.to_vec() })));
    s.step(Event::Peer(PeerMessage::SignedId { id: sign::sign(b"r", &k.peer_sign.1) }));
    s.step(Event::IdPkDecoded(Ok(IdPk { id: "1".to_string(), pk: k.peer_box.0 .0.to_vec() })));
    s.step(Event::Sent);
    assert!(matches!(
        s.step(Event::Peer(PeerMessage::Other)),
        Action::Fail(SessionError::ExpectedHash)
    ));
}

#[test]
fn server_text_with_a_port_is_dialled_as_given() {
    assert_eq!(rendezvous_address("rs.example.com:21200", 21116), "rs.example.com:21200");
    assert_eq!(rendezvous_address("10.0.0.1:5", 21116), "10.0.0.1:5");
    assert_eq!(rendezvous_address("[::1]:21116", 9), "[::1]:21116");
    assert_eq!(rendezvous_address("h:", 7), "h::7");
    assert_eq!(rendezvous_address("h:x1", 7), "h:x1:7");
    assert_eq!(rendezvous_address("::1", 7), "::1:7");
    let (s, _) = Session::new(
        "1".to_string(),
        String::new(),
        "rs.example.com:21200",
        21116,
        String::new(),
        DEFAULT_KEY,
    );
    assert_eq!(s.config.rendezvous_addr, "rs.example.com:21200");
}

#[test]
fn default_key_is_sent_when_no_licence_key_is_given() {
    let (mut s, _) = start("");
    assert!(matches!(s.step(Event::Connected), Action::AwaitFirstMessage));
    match s.step(Event::FirstMessage(FirstMessage::Timeout)) {
        Action::Send(Outgoing::PunchHoleRequest { licence_key, .. }) => {
            assert_eq!(licence_key, DEFAULT_KEY)
        }
        other => panic!("unexpected {:?}", other),
    }
    s.step(Event::Sent);
    s.step(Event::Rendezvous(RendezvousReply::Relay(RelayResponse {
        relay_server: String::new(),
        uuid: "u".to_string(),
        pk: None,
    })));
    match s.step(Event::Connected) {
        Action::Send(Outgoing::RequestRelay { licence_key, .. }) => assert_eq!(licence_key, DEFAULT_KEY),
        other => panic!("unexpected {:?}", other),
    }
}
