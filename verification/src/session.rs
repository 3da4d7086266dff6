//! The connection handshake with a remote device: from the rendezvous server,
//! through a direct or relayed connection, to a verified, encrypted and
//! authenticated session whose next step is the terminal.
//!
//! The handshake is a state machine: [`Session::step`] takes what the network
//! delivered and returns the next thing to do. The caller performs the action
//! (connecting, sending, receiving, decoding a record) and reports back.
use vstd::prelude::*;
use vstd::string::StringSliceAdditionalSpecFns;
use vstd::utf8::encode_utf8;

use crate::crypto::{
    create_symmetric_key_msg, decode_id_pk, ed25519_open, get_rs_pk, key_opt, seals_key_for, password_answer,
    password_response, rs_pk_of, sha256, verify_id_pk, IdPk, IdPkError,
};

verus! {

// ---------------------------------------------------------------------------
// Addresses
// ---------------------------------------------------------------------------

/// The decimal digit character of `d` (0 to 9).
pub open spec fn digit_char(d: nat) -> char {
    (('0' as u32) + d) as char
}

/// The decimal representation of a number, without leading zeros.
pub open spec fn decimal(n: nat) -> Seq<char>
    decreases n,
{
    if n < 10 {
        seq![digit_char(n)]
    } else {
        decimal(n / 10).push(digit_char(n % 10))
    }
}

/// The text of one decimal digit.
fn digit_str(d: u16) -> (r: &'static str)
    requires
        d < 10,
    ensures
        r@ == seq![digit_char(d as nat)],
{
    proof {
        reveal_strlit("0");
        reveal_strlit("1");
        reveal_strlit("2");
        reveal_strlit("3");
        reveal_strlit("4");
        reveal_strlit("5");
        reveal_strlit("6");
        reveal_strlit("7");
        reveal_strlit("8");
        reveal_strlit("9");
    }
    if d == 0 {
        "0"
    } else if d == 1 {
        "1"
    } else if d == 2 {
        "2"
    } else if d == 3 {
        "3"
    } else if d == 4 {
        "4"
    } else if d == 5 {
        "5"
    } else if d == 6 {
        "6"
    } else if d == 7 {
        "7"
    } else if d == 8 {
        "8"
    } else {
        "9"
    }
}

/// Appends the decimal representation of `n`.
fn append_decimal(s: &mut String, n: u16)
    ensures
        final(s)@ == old(s)@ + decimal(n as nat),
    decreases n,
{
    if n >= 10 {
        append_decimal(s, n / 10);
    }
    s.append(digit_str(n % 10));
    proof {
        if n < 10 {
            assert(decimal(n as nat) == seq![digit_char(n as nat)]);
        }
    }
    assert(final(s)@ =~= old(s)@ + decimal(n as nat));
}

/// The byte is an ASCII digit.
pub open spec fn is_digit(b: u8) -> bool {
    0x30 <= b <= 0x39
}

/// Position `i` of a server text is the colon that starts its port: one or
/// more digits follow it to the end, and the host before it has no colon of
/// its own or ends with `]` (a bracketed IPv6 address).
pub open spec fn port_colon_at(b: Seq<u8>, i: int) -> bool {
    &&& 0 <= i < b.len() - 1
    &&& b[i] == 0x3a
    &&& forall|j: int| i < j < b.len() ==> is_digit(#[trigger] b[j])
    &&& (forall|j: int| 0 <= j < i ==> #[trigger] b[j] != 0x3a) || (i > 0 && b[i - 1] == 0x5d)
}

/// The server text already carries a port (`host:port`).
pub open spec fn has_port(b: Seq<u8>) -> bool {
    exists|i: int| port_colon_at(b, i)
}

/// Whether the server text already carries a port.
pub fn server_has_port(server: &str) -> (r: bool)
    ensures
        r == has_port(server.spec_bytes()),
{
    let b = server.as_bytes();
    let n = b.len();
    let mut j = n;
    while j > 0 && 0x30 <= b[j - 1] && b[j - 1] <= 0x39
        invariant
            n == b@.len(),
            j <= n,
            forall|k: int| j <= k < n ==> is_digit(#[trigger] b@[k]),
        decreases j,
    {
        j = j - 1;
    }
    // b[j..n] are the trailing digits, and b[j - 1] (if any) is no digit.
    if j == n || j == 0 || b[j - 1] != 0x3a {
        assert forall|i: int| !port_colon_at(b@, i) by {
            if port_colon_at(b@, i) {
                if i >= j {
                    assert(is_digit(b@[i]));
                } else if i + 1 < j {
                    assert(is_digit(b@[j - 1]));
                }
            }
        }
        return false;
    }
    let i = j - 1;
    if i > 0 && b[i - 1] == 0x5d {
        assert(port_colon_at(b@, i as int));
        return true;
    }
    let mut k: usize = 0;
    while k < i
        invariant
            n == b@.len(),
            b@ == server.spec_bytes(),
            i < n,
            j == i + 1,
            b@[i as int] == 0x3a,
            !(i > 0 && b@[i - 1] == 0x5d),
            forall|q: int| j <= q < n ==> is_digit(#[trigger] b@[q]),
            forall|m: int| 0 <= m < k ==> #[trigger] b@[m] != 0x3a,
        decreases i - k,
    {
        if b[k] == 0x3a {
            assert forall|x: int| !port_colon_at(b@, x) by {
                if port_colon_at(b@, x) {
                    if x > i {
                        assert(is_digit(b@[x]));
                    } else if x < i {
                        assert(is_digit(b@[i as int]));
                    } else {
                        assert(b@[k as int] == 0x3a);
                    }
                }
            }
            return false;
        }
        k = k + 1;
    }
    assert(port_colon_at(b@, i as int));
    true
}

/// The address of the rendezvous server: the server text itself when it
/// carries a port, else the server text with `:port` appended.
pub fn rendezvous_address(server: &str, port: u16) -> (r: String)
    ensures
        r@ == if has_port(server.spec_bytes()) {
            server@
        } else {
            server@ + seq![':'] + decimal(port as nat)
        },
{
    if server_has_port(server) {
        return String::from_str(server);
    }
    proof {
        reveal_strlit(":");
    }
    let mut r = String::from_str(server);
    r.append(":");
    append_decimal(&mut r, port);
    r
}

/// Where the relay server is: the port after the rendezvous server's (same
/// host), or the address the server named, with the standard relay port when
/// it names none.
#[derive(Debug)]
pub enum RelayTarget {
    /// The rendezvous address with its port increased by one.
    NextPort(String),
    /// The relay server named by the rendezvous server.
    Server(String),
}

/// The relay for a named relay server, given the rendezvous address: the
/// next port of the rendezvous server when no relay server is named.
pub open spec fn relay_is(r: Option<RelayTarget>, relay_server: Seq<char>, rendezvous: Seq<char>) -> bool {
    if relay_server.len() == 0 {
        r matches Some(RelayTarget::NextPort(h)) && h@ == rendezvous
    } else {
        r matches Some(RelayTarget::Server(h)) && h@ == relay_server
    }
}

/// Picks the relay server.
fn choose_relay(relay_server: String, rendezvous: &String) -> (r: RelayTarget)
    ensures
        relay_is(Some(r), relay_server@, rendezvous@),
{
    if relay_server.as_str().is_empty() {
        RelayTarget::NextPort(rendezvous.clone())
    } else {
        RelayTarget::Server(relay_server)
    }
}

// ---------------------------------------------------------------------------
// What the network delivers
// ---------------------------------------------------------------------------

/// Why the rendezvous server refused to connect us to the device.
#[derive(Clone, Copy, Debug, PartialEq, Eq, Structural)]
pub enum PunchHoleFailure {
    IdNotExist,
    Offline,
    LicenseMismatch,
    LicenseOveruse,
    Other,
}

/// The rendezvous server's answer to a punch-hole request.
#[derive(Debug)]
pub struct PunchHoleResponse {
    /// The peer's encoded address; empty when the request was refused.
    pub socket_addr: Vec<u8>,
    /// The peer's identity and key, signed by the rendezvous server.
    pub pk: Vec<u8>,
    pub relay_server: String,
    pub failure: PunchHoleFailure,
    pub other_failure: String,
}

/// The rendezvous server's assignment of a relay.
#[derive(Debug)]
pub struct RelayResponse {
    pub relay_server: String,
    pub uuid: String,
    /// The peer's identity and key, signed by the rendezvous server, if sent.
    pub pk: Option<Vec<u8>>,
}

/// A message of the rendezvous server.
#[derive(Debug)]
pub enum RendezvousReply {
    KeyExchange { keys: Vec<Vec<u8>> },
    PunchHole(PunchHoleResponse),
    Relay(RelayResponse),
    /// Any other kind of message.
    Other,
    /// A message with no content.
    Empty,
}

/// What the rendezvous server sent first, within the key-exchange wait.
#[derive(Debug)]
pub enum FirstMessage {
    /// Nothing arrived in time.
    Timeout,
    /// The stream reported an error.
    StreamError,
    /// The server closed the connection.
    Closed,
    /// Bytes arrived that are not a rendezvous message.
    Unparsable,
    Message(RendezvousReply),
}

/// The outcome reported in a login response.
#[derive(Debug)]
pub enum LoginOutcome {
    Error(String),
    PeerInfo { platform: String },
    Other,
}

/// A message of the remote device.
#[derive(Debug)]
pub enum PeerMessage {
    /// The device's identity and key, signed with its own key.
    SignedId { id: Vec<u8> },
    /// The password challenge.
    Hash { salt: String, challenge: String },
    LoginResponse(LoginOutcome),
    TerminalResponse,
    /// Any other kind of message.
    Other,
    /// A message with no content.
    Empty,
}

/// What the network (or a decoding asked for) delivered.
#[derive(Debug)]
pub enum Event {
    /// The requested connection is up.
    Connected,
    /// The requested connection could not be made.
    ConnectFailed,
    /// The requested message was sent.
    Sent,
    /// The rendezvous server's first message (or its absence).
    FirstMessage(FirstMessage),
    /// The rendezvous server's answer to our request.
    Rendezvous(RendezvousReply),
    /// The decoded identity-and-key record, or the decoder's error.
    IdPkDecoded(Result<IdPk, String>),
    /// A message of the remote device.
    Peer(PeerMessage),
    /// The login answer, read as a message and, in case, as a bare login
    /// response (`None` where it does not read as one).
    LoginReply { message: Option<PeerMessage>, login_response: Option<LoginOutcome> },
}

// ---------------------------------------------------------------------------
// What to do next
// ---------------------------------------------------------------------------

/// Where to connect.
#[derive(Debug)]
pub enum Endpoint {
    Rendezvous(String),
    /// The peer's encoded address, as the rendezvous server sent it.
    Direct(Vec<u8>),
    Relay(RelayTarget),
}

/// A message to send.
#[derive(Debug)]
pub enum Outgoing {
    /// Answer to the rendezvous server's key exchange; once it is sent, the
    /// connection is encrypted with `key`.
    KeyExchange { asymmetric: Vec<u8>, symmetric: Vec<u8>, key: [u8; 32] },
    /// Ask the rendezvous server for a terminal connection to device `id`.
    PunchHoleRequest { id: String, licence_key: String },
    /// Ask the relay to bridge us to device `id`.
    RequestRelay { id: String, uuid: String, licence_key: String },
    /// Our key and the sealed session key; once it is sent, the connection is
    /// encrypted with `key`.
    PublicKey { asymmetric: Vec<u8>, symmetric: Vec<u8>, key: [u8; 32] },
    /// Log in to the terminal service as `username` with the password answer.
    LoginRequest { username: String, password: Vec<u8> },
}

/// Why the rendezvous server refused.
#[derive(Debug)]
pub enum RefusalReason {
    IdNotExist,
    Offline,
    KeyMismatch,
    KeyOveruse,
    Other(String),
}

/// Why the handshake failed.
#[derive(Debug)]
pub enum SessionError {
    ConnectRendezvousFailed,
    RendezvousClosed,
    ConnectionRefused(RefusalReason),
    /// The rendezvous server answered with something else; `empty` when the
    /// answer had no content.
    UnexpectedResponse { empty: bool },
    ConnectRelayFailed,
    InvalidServerKey,
    /// The peer key the rendezvous server vouched for did not check out.
    PeerKeyUnverified(IdPkError),
    /// The device sent something other than its signed identity; `empty` when
    /// the message had no content.
    ExpectedSignedId { empty: bool },
    NoPeerKey,
    /// The identity the device signed did not check out.
    PeerIdUnverified(IdPkError),
    ExpectedHash,
    LoginFailed(String),
    /// An event that the current step does not wait for.
    UnexpectedEvent,
}

/// The next thing to do.
#[derive(Debug)]
pub enum Action {
    Connect(Endpoint),
    /// Wait (a short while) for the rendezvous server's first message.
    AwaitFirstMessage,
    Send(Outgoing),
    Receive,
    /// Decode this signed payload as an identity-and-key record.
    DecodeIdPk(Vec<u8>),
    /// The handshake is done: run the terminal with a remote on this platform.
    StartTerminal { remote_platform: String },
    Fail(SessionError),
}

// ---------------------------------------------------------------------------
// The handshake state
// ---------------------------------------------------------------------------

/// Where the handshake stands.
#[derive(Clone, Copy, Debug, PartialEq, Eq, Structural)]
pub enum Phase {
    ConnectingRendezvous,
    AwaitingFirstMessage,
    SendingKeyExchange,
    SendingPunchHole,
    AwaitingRendezvousReply,
    ConnectingDirect,
    ConnectingRelay,
    SendingRelayRequest,
    DecodingVouchedKey,
    AwaitingSignedId,
    DecodingPeerId,
    SendingPublicKey,
    AwaitingHash,
    SendingLogin,
    AwaitingLoginResponse,
    Done,
    Failed,
}

/// What the handshake was started with; it does not change.
#[derive(Debug)]
pub struct SessionConfig {
    pub device_id: String,
    pub licence_key: String,
    pub password: String,
    /// The rendezvous server's key text: the licence key, else the default key.
    pub key_str: String,
    pub rendezvous_addr: String,
    /// The rendezvous server's signing key decoded from `key_str`.
    pub rs_pk: Option<[u8; 32]>,
}

/// The handshake state.
#[derive(Debug)]
pub struct Session {
    pub config: SessionConfig,
    pub phase: Phase,
    /// The peer's identity and key as signed by the rendezvous server (may be empty).
    pub peer_pk: Vec<u8>,
    pub relay: Option<RelayTarget>,
    pub relay_uuid: String,
    /// The peer's signing key, vouched for by the rendezvous server.
    pub peer_sign_pk: Option<[u8; 32]>,
    /// The identity record the peer signed.
    pub signed_id: Vec<u8>,
    /// The peer's verified device id.
    pub peer_id: Option<String>,
    /// The end-to-end session key.
    pub session_key: Option<[u8; 32]>,
}

/// The key text used for the rendezvous server: the licence key when given,
/// else the default key.
pub open spec fn key_text(licence_key: Seq<char>, default_key: Seq<char>) -> Seq<char> {
    if licence_key.len() == 0 {
        default_key
    } else {
        licence_key
    }
}

/// The peer box key that a rendezvous key exchange offers: the single key,
/// when its signature checks out under the server's key and it is 32 bytes long.
pub open spec fn offered_box_key(keys: Seq<Vec<u8>>, rs_pk: Option<[u8; 32]>) -> Option<Seq<u8>> {
    match rs_pk {
        Some(k) => if keys.len() == 1 {
            match ed25519_open(keys[0]@, k@) {
                Some(b) => if b.len() == 32 {
                    Some(b)
                } else {
                    None
                },
                None => None,
            }
        } else {
            None
        },
        None => None,
    }
}

/// The answer to a rendezvous key exchange: our key and the session key
/// sealed for the offered box key, or `None` when the exchange is not taken up.
pub fn secure_tcp_reply(keys: &Vec<Vec<u8>>, rs_pk: &Option<[u8; 32]>) -> (r: Option<(Vec<u8>, Vec<u8>, [u8; 32])>)
    ensures
        r is Some <==> offered_box_key(keys@, *rs_pk) is Some,
        r matches Some(m) ==> seals_key_for(m, offered_box_key(keys@, *rs_pk).unwrap()),
{
    match rs_pk {
        None => None,
        Some(k) => {
            if keys.len() != 1 {
                return None;
            }
            match crate::crypto::sign_verify(keys[0].as_slice(), k) {
                None => None,
                Some(their_pk_b) => match crate::crypto::get_pk(their_pk_b.as_slice()) {
                    None => None,
                    Some(their_pk) => {
                        let m = create_symmetric_key_msg(their_pk);
                        assert(offered_box_key(keys@, *rs_pk).unwrap() == their_pk@);
                        Some(m)
                    },
                },
            }
        },
    }
}

/// The reason shown for a refused punch-hole request.
pub open spec fn refusal_is(r: RefusalReason, failure: PunchHoleFailure, other: String) -> bool {
    match failure {
        PunchHoleFailure::IdNotExist => r is IdNotExist,
        PunchHoleFailure::Offline => r is Offline,
        PunchHoleFailure::LicenseMismatch => r is KeyMismatch,
        PunchHoleFailure::LicenseOveruse => r is KeyOveruse,
        PunchHoleFailure::Other => r == RefusalReason::Other(other),
    }
}

/// The login outcome that a login answer carries: the login response of the
/// message; none for an early terminal response; else the answer read as a
/// bare login response, if it reads as one.
pub open spec fn login_outcome(message: Option<PeerMessage>, login_response: Option<LoginOutcome>) -> LoginOutcome {
    match message {
        Some(PeerMessage::LoginResponse(lr)) => lr,
        Some(PeerMessage::TerminalResponse) => LoginOutcome::Other,
        _ => match login_response {
            Some(lr) => lr,
            None => LoginOutcome::Other,
        },
    }
}

// The pieces of the transition relation.

/// Only the phase changes.
pub open spec fn moves_to(s: Session, t: Session, p: Phase) -> bool {
    t == Session { phase: p, ..s }
}

/// The handshake fails with error `e`.
pub open spec fn fails(s: Session, t: Session, a: Action, e: SessionError) -> bool {
    moves_to(s, t, Phase::Failed) && a == Action::Fail(e)
}

/// An event that the phase does not wait for fails the handshake.
pub open spec fn unexpected(s: Session, t: Session, a: Action) -> bool {
    fails(s, t, a, SessionError::UnexpectedEvent)
}

/// The punch-hole request is sent next.
pub open spec fn requests_punch_hole(s: Session, t: Session, a: Action) -> bool {
    &&& moves_to(s, t, Phase::SendingPunchHole)
    &&& a matches Action::Send(Outgoing::PunchHoleRequest { id, licence_key })
    &&& id@ == s.config.device_id@
    &&& licence_key@ == s.config.key_str@
}

/// The relay is connected to next.
pub open spec fn connects_relay(s: Session, t: Session, a: Action) -> bool {
    &&& moves_to(s, t, Phase::ConnectingRelay)
    &&& a matches Action::Connect(Endpoint::Relay(r))
    &&& relay_is(Some(r), relay_name(s.relay), s.config.rendezvous_addr@)
}

/// The name a relay target was chosen by: empty for the next-port relay.
pub open spec fn relay_name(r: Option<RelayTarget>) -> Seq<char> {
    match r {
        Some(RelayTarget::Server(h)) => h@,
        _ => Seq::empty(),
    }
}

/// Once connected to the peer: check the key the rendezvous server vouched
/// for, if it sent one, then wait for the peer's signed identity.
pub open spec fn begins_verification(s: Session, t: Session, a: Action) -> bool {
    match s.config.rs_pk {
        None => fails(s, t, a, SessionError::InvalidServerKey),
        Some(k) => if s.peer_pk@.len() != 0 {
            match ed25519_open(s.peer_pk@, k@) {
                Some(payload) => moves_to(s, t, Phase::DecodingVouchedKey) && (a matches Action::DecodeIdPk(
                    p,
                ) && p@ == payload),
                None => fails(
                    s,
                    t,
                    a,
                    SessionError::PeerKeyUnverified(IdPkError::SignatureMismatch),
                ),
            }
        } else {
            t == Session { phase: Phase::AwaitingSignedId, peer_sign_pk: None, ..s } && a is Receive
        },
    }
}

/// The handshake's transition relation: in state `s`, event `e` leads to
/// state `t` and action `a`. (Fresh keys are random: where they are made,
/// the relation holds for some secret key.)
pub open spec fn transition(s: Session, e: Event, t: Session, a: Action) -> bool {
    match s.phase {
        Phase::ConnectingRendezvous => match e {
            Event::Connected => if s.config.rs_pk is Some {
                moves_to(s, t, Phase::AwaitingFirstMessage) && a is AwaitFirstMessage
            } else {
                requests_punch_hole(s, t, a)
            },
            Event::ConnectFailed => fails(s, t, a, SessionError::ConnectRendezvousFailed),
            _ => unexpected(s, t, a),
        },
        Phase::AwaitingFirstMessage => match e {
            Event::FirstMessage(FirstMessage::Closed) => fails(s, t, a, SessionError::RendezvousClosed),
            Event::FirstMessage(FirstMessage::Message(RendezvousReply::KeyExchange { keys })) => match offered_box_key(keys@, s.config.rs_pk) {
                Some(their) => {
                    &&& moves_to(s, t, Phase::SendingKeyExchange)
                    &&& a matches Action::Send(Outgoing::KeyExchange { asymmetric, symmetric, key })
                    &&& seals_key_for((asymmetric, symmetric, key), their)
                },
                None => requests_punch_hole(s, t, a),
            },
            Event::FirstMessage(_) => requests_punch_hole(s, t, a),
            _ => unexpected(s, t, a),
        },
        Phase::SendingKeyExchange => match e {
            Event::Sent => requests_punch_hole(s, t, a),
            _ => unexpected(s, t, a),
        },
        Phase::SendingPunchHole => match e {
            Event::Sent => moves_to(s, t, Phase::AwaitingRendezvousReply) && a is Receive,
            _ => unexpected(s, t, a),
        },
        Phase::AwaitingRendezvousReply => match e {
            Event::Rendezvous(RendezvousReply::PunchHole(ph)) => if ph.socket_addr@.len() != 0 {
                &&& t == Session {
                    phase: Phase::ConnectingDirect,
                    peer_pk: ph.pk,
                    relay: t.relay,
                    relay_uuid: t.relay_uuid,
                    ..s
                }
                &&& relay_is(t.relay, ph.relay_server@, s.config.rendezvous_addr@)
                &&& t.relay_uuid@.len() == 0
                &&& a == Action::Connect(Endpoint::Direct(ph.socket_addr))
            } else {
                &&& moves_to(s, t, Phase::Failed)
                &&& a matches Action::Fail(SessionError::ConnectionRefused(r))
                &&& refusal_is(r, ph.failure, ph.other_failure)
            },
            Event::Rendezvous(RendezvousReply::Relay(rr)) => {
                &&& t == Session {
                    phase: Phase::ConnectingRelay,
                    peer_pk: t.peer_pk,
                    relay: t.relay,
                    relay_uuid: rr.uuid,
                    ..s
                }
                &&& t.peer_pk@ == match rr.pk {
                    Some(pk) => pk@,
                    None => Seq::empty(),
                }
                &&& relay_is(t.relay, rr.relay_server@, s.config.rendezvous_addr@)
                &&& a matches Action::Connect(Endpoint::Relay(r))
                &&& relay_is(Some(r), rr.relay_server@, s.config.rendezvous_addr@)
            },
            Event::Rendezvous(r) => fails(
                s,
                t,
                a,
                SessionError::UnexpectedResponse { empty: r is Empty },
            ),
            _ => unexpected(s, t, a),
        },
        Phase::ConnectingDirect => match e {
            Event::Connected => begins_verification(s, t, a),
            Event::ConnectFailed => connects_relay(s, t, a),
            _ => unexpected(s, t, a),
        },
        Phase::ConnectingRelay => match e {
            Event::Connected => {
                &&& moves_to(s, t, Phase::SendingRelayRequest)
                &&& a matches Action::Send(Outgoing::RequestRelay { id, uuid, licence_key })
                &&& id@ == s.config.device_id@
                &&& uuid@ == s.relay_uuid@
                &&& licence_key@ == s.config.key_str@
            },
            Event::ConnectFailed => fails(s, t, a, SessionError::ConnectRelayFailed),
            _ => unexpected(s, t, a),
        },
        Phase::SendingRelayRequest => match e {
            Event::Sent => begins_verification(s, t, a),
            _ => unexpected(s, t, a),
        },
        Phase::DecodingVouchedKey => match e {
            Event::IdPkDecoded(record) => match record {
                Ok(r) => if r.pk@.len() == 32 {
                    &&& t == Session { phase: Phase::AwaitingSignedId, peer_sign_pk: t.peer_sign_pk, ..s }
                    &&& t.peer_sign_pk matches Some(k) && k@ == r.pk@
                    &&& a is Receive
                } else {
                    fails(s, t, a, SessionError::PeerKeyUnverified(IdPkError::WrongKeyLength))
                },
                Err(m) => fails(s, t, a, SessionError::PeerKeyUnverified(IdPkError::Malformed(m))),
            },
            _ => unexpected(s, t, a),
        },
        Phase::AwaitingSignedId => match e {
            Event::Peer(PeerMessage::SignedId { id }) => match s.peer_sign_pk {
                None => fails(s, t, a, SessionError::NoPeerKey),
                Some(k) => match ed25519_open(id@, k@) {
                    Some(payload) => {
                        &&& t == Session { phase: Phase::DecodingPeerId, signed_id: id, ..s }
                        &&& a matches Action::DecodeIdPk(p) && p@ == payload
                    },
                    None => fails(s, t, a, SessionError::PeerIdUnverified(IdPkError::SignatureMismatch)),
                },
            },
            Event::Peer(m) => fails(s, t, a, SessionError::ExpectedSignedId { empty: m is Empty }),
            _ => unexpected(s, t, a),
        },
        Phase::DecodingPeerId => match e {
            Event::IdPkDecoded(record) => match record {
                Ok(r) => if r.pk@.len() == 32 {
                    &&& t == Session {
                        phase: Phase::SendingPublicKey,
                        peer_id: t.peer_id,
                        session_key: t.session_key,
                        ..s
                    }
                    &&& t.peer_id matches Some(id) && id@ == r.id@
                    &&& a matches Action::Send(Outgoing::PublicKey { asymmetric, symmetric, key })
                    &&& t.session_key == Some(key)
                    &&& seals_key_for((asymmetric, symmetric, key), r.pk@)
                } else {
                    fails(s, t, a, SessionError::PeerIdUnverified(IdPkError::WrongKeyLength))
                },
                Err(m) => fails(s, t, a, SessionError::PeerIdUnverified(IdPkError::Malformed(m))),
            },
            _ => unexpected(s, t, a),
        },
        Phase::SendingPublicKey => match e {
            Event::Sent => moves_to(s, t, Phase::AwaitingHash) && a is Receive,
            _ => unexpected(s, t, a),
        },
        Phase::AwaitingHash => match e {
            Event::Peer(PeerMessage::Hash { salt, challenge }) => {
                &&& moves_to(s, t, Phase::SendingLogin)
                &&& a matches Action::Send(Outgoing::LoginRequest { username, password })
                &&& username@ == s.config.device_id@
                &&& password@ == password_answer(
                    encode_utf8(s.config.password@),
                    encode_utf8(salt@),
                    encode_utf8(challenge@),
                )
                &&& password@.len() == 32
            },
            Event::Peer(_) => fails(s, t, a, SessionError::ExpectedHash),
            _ => unexpected(s, t, a),
        },
        Phase::SendingLogin => match e {
            Event::Sent => moves_to(s, t, Phase::AwaitingLoginResponse) && a is Receive,
            _ => unexpected(s, t, a),
        },
        Phase::AwaitingLoginResponse => match e {
            Event::LoginReply { message, login_response } => match login_outcome(message, login_response) {
                LoginOutcome::Error(err) => if err@.len() != 0 {
                    fails(s, t, a, SessionError::LoginFailed(err))
                } else {
                    moves_to(s, t, Phase::Done) && (a matches Action::StartTerminal { remote_platform }
                        && remote_platform@.len() == 0)
                },
                LoginOutcome::PeerInfo { platform } => moves_to(s, t, Phase::Done) && a
                    == Action::StartTerminal { remote_platform: platform },
                LoginOutcome::Other => moves_to(s, t, Phase::Done) && (a matches Action::StartTerminal {
                    remote_platform,
                } && remote_platform@.len() == 0),
            },
            _ => unexpected(s, t, a),
        },
        Phase::Done | Phase::Failed => unexpected(s, t, a),
    }
}


/// The relay target that a stored choice stands for: the rendezvous server's
/// next port, or the named server.
fn relay_again(relay: &Option<RelayTarget>, rendezvous: &String) -> (r: RelayTarget)
    ensures
        relay_is(Some(r), relay_name(*relay), rendezvous@),
{
    match relay {
        Some(RelayTarget::Server(h)) => {
            if h.as_str().is_empty() {
                RelayTarget::NextPort(rendezvous.clone())
            } else {
                RelayTarget::Server(h.clone())
            }
        },
        _ => RelayTarget::NextPort(rendezvous.clone()),
    }
}

/// Reads the login outcome of a login answer.
fn read_login_outcome(message: Option<PeerMessage>, login_response: Option<LoginOutcome>) -> (r: LoginOutcome)
    ensures
        r == login_outcome(message, login_response),
{
    match message {
        Some(PeerMessage::LoginResponse(lr)) => lr,
        Some(PeerMessage::TerminalResponse) => LoginOutcome::Other,
        _ => match login_response {
            Some(lr) => lr,
            None => LoginOutcome::Other,
        },
    }
}

impl Session {
    /// Starts the handshake for device `device_id` through the rendezvous
    /// server at `server:port`. The server's key is the licence key when one is
    /// given, else `default_key`. Returns the state and the first action:
    /// connecting to the rendezvous server.
    pub fn new(
        device_id: String,
        licence_key: String,
        server: &str,
        port: u16,
        password: String,
        default_key: &str,
    ) -> (r: (Session, Action))
        ensures
            r.0.config.device_id == device_id,
            r.0.config.licence_key@ == licence_key@,
            r.0.config.password == password,
            r.0.config.key_str@ == key_text(licence_key@, default_key@),
            r.0.config.rendezvous_addr@ == if has_port(server.spec_bytes()) {
                server@
            } else {
                server@ + seq![':'] + decimal(port as nat)
            },
            key_opt(r.0.config.rs_pk) == rs_pk_of(key_text(licence_key@, default_key@)),
            r.0.phase == Phase::ConnectingRendezvous,
            r.0.peer_pk@.len() == 0,
            r.0.relay is None,
            r.0.relay_uuid@.len() == 0,
            r.0.peer_sign_pk is None,
            r.0.signed_id@.len() == 0,
            r.0.peer_id is None,
            r.0.session_key is None,
            verified_state(r.0),
            r.1 matches Action::Connect(Endpoint::Rendezvous(addr)) && addr@
                == r.0.config.rendezvous_addr@,
    {
        let key_str = if licence_key.as_str().is_empty() {
            String::from_str(default_key)
        } else {
            licence_key.clone()
        };
        let rendezvous_addr = rendezvous_address(server, port);
        let rs_pk = get_rs_pk(key_str.as_str());
        let addr = rendezvous_addr.clone();
        let s = Session {
            config: SessionConfig { device_id, licence_key, password, key_str, rendezvous_addr, rs_pk },
            phase: Phase::ConnectingRendezvous,
            peer_pk: Vec::new(),
            relay: None,
            relay_uuid: String::new(),
            peer_sign_pk: None,
            signed_id: Vec::new(),
            peer_id: None,
            session_key: None,
        };
        (s, Action::Connect(Endpoint::Rendezvous(addr)))
    }

    /// Takes the next event of the handshake and returns what to do next.
    pub fn step(&mut self, event: Event) -> (a: Action)
        ensures
            transition(*old(self), event, *final(self), a),
    {
        match self.phase {
            Phase::ConnectingRendezvous => self.on_rendezvous_connect(event),
            Phase::AwaitingFirstMessage => self.on_first_message(event),
            Phase::SendingKeyExchange => match event {
                Event::Sent => self.request_punch_hole(),
                _ => self.fail(SessionError::UnexpectedEvent),
            },
            Phase::SendingPunchHole => match event {
                Event::Sent => {
                    self.phase = Phase::AwaitingRendezvousReply;
                    Action::Receive
                },
                _ => self.fail(SessionError::UnexpectedEvent),
            },
            Phase::AwaitingRendezvousReply => self.on_rendezvous_reply(event),
            Phase::ConnectingDirect => match event {
                Event::Connected => self.begin_verification(),
                Event::ConnectFailed => self.connect_relay(),
                _ => self.fail(SessionError::UnexpectedEvent),
            },
            Phase::ConnectingRelay => match event {
                Event::Connected => {
                    self.phase = Phase::SendingRelayRequest;
                    Action::Send(
                        Outgoing::RequestRelay {
                            id: self.config.device_id.clone(),
                            uuid: self.relay_uuid.clone(),
                            licence_key: self.config.key_str.clone(),
                        },
                    )
                },
                Event::ConnectFailed => self.fail(SessionError::ConnectRelayFailed),
                _ => self.fail(SessionError::UnexpectedEvent),
            },
            Phase::SendingRelayRequest => match event {
                Event::Sent => self.begin_verification(),
                _ => self.fail(SessionError::UnexpectedEvent),
            },
            Phase::DecodingVouchedKey => self.on_vouched_key(event),
            Phase::AwaitingSignedId => self.on_signed_id(event),
            Phase::DecodingPeerId => self.on_peer_id(event),
            Phase::SendingPublicKey => match event {
                Event::Sent => {
                    self.phase = Phase::AwaitingHash;
                    Action::Receive
                },
                _ => self.fail(SessionError::UnexpectedEvent),
            },
            Phase::AwaitingHash => self.on_hash(event),
            Phase::SendingLogin => match event {
                Event::Sent => {
                    self.phase = Phase::AwaitingLoginResponse;
                    Action::Receive
                },
                _ => self.fail(SessionError::UnexpectedEvent),
            },
            Phase::AwaitingLoginResponse => self.on_login_reply(event),
            Phase::Done | Phase::Failed => self.fail(SessionError::UnexpectedEvent),
        }
    }

    fn fail(&mut self, e: SessionError) -> (a: Action)
        ensures
            fails(*old(self), *final(self), a, e),
    {
        self.phase = Phase::Failed;
        Action::Fail(e)
    }

    fn request_punch_hole(&mut self) -> (a: Action)
        ensures
            requests_punch_hole(*old(self), *final(self), a),
    {
        self.phase = Phase::SendingPunchHole;
        Action::Send(
            Outgoing::PunchHoleRequest {
                id: self.config.device_id.clone(),
                licence_key: self.config.key_str.clone(),
            },
        )
    }

    fn connect_relay(&mut self) -> (a: Action)
        ensures
            connects_relay(*old(self), *final(self), a),
    {
        let r = relay_again(&self.relay, &self.config.rendezvous_addr);
        self.phase = Phase::ConnectingRelay;
        Action::Connect(Endpoint::Relay(r))
    }

    fn on_rendezvous_connect(&mut self, event: Event) -> (a: Action)
        requires
            old(self).phase == Phase::ConnectingRendezvous,
        ensures
            transition(*old(self), event, *final(self), a),
    {
        match event {
            Event::Connected => {
                if self.config.rs_pk.is_some() {
                    self.phase = Phase::AwaitingFirstMessage;
                    Action::AwaitFirstMessage
                } else {
                    self.request_punch_hole()
                }
            },
            Event::ConnectFailed => self.fail(SessionError::ConnectRendezvousFailed),
            _ => self.fail(SessionError::UnexpectedEvent),
        }
    }

    fn on_first_message(&mut self, event: Event) -> (a: Action)
        requires
            old(self).phase == Phase::AwaitingFirstMessage,
        ensures
            transition(*old(self), event, *final(self), a),
    {
        match event {
            Event::FirstMessage(FirstMessage::Closed) => self.fail(SessionError::RendezvousClosed),
            Event::FirstMessage(FirstMessage::Message(RendezvousReply::KeyExchange { keys })) => {
                match secure_tcp_reply(&keys, &self.config.rs_pk) {
                    Some((asymmetric, symmetric, key)) => {
                        self.phase = Phase::SendingKeyExchange;
                        Action::Send(Outgoing::KeyExchange { asymmetric, symmetric, key })
                    },
                    None => self.request_punch_hole(),
                }
            },
            Event::FirstMessage(_) => self.request_punch_hole(),
            _ => self.fail(SessionError::UnexpectedEvent),
        }
    }

    fn on_rendezvous_reply(&mut self, event: Event) -> (a: Action)
        requires
            old(self).phase == Phase::AwaitingRendezvousReply,
        ensures
            transition(*old(self), event, *final(self), a),
    {
        match event {
            Event::Rendezvous(RendezvousReply::PunchHole(ph)) => {
                if ph.socket_addr.len() != 0 {
                    let relay = choose_relay(ph.relay_server, &self.config.rendezvous_addr);
                    self.peer_pk = ph.pk;
                    self.relay = Some(relay);
                    self.relay_uuid = String::new();
                    self.phase = Phase::ConnectingDirect;
                    Action::Connect(Endpoint::Direct(ph.socket_addr))
                } else {
                    let reason = match ph.failure {
                        PunchHoleFailure::IdNotExist => RefusalReason::IdNotExist,
                        PunchHoleFailure::Offline => RefusalReason::Offline,
                        PunchHoleFailure::LicenseMismatch => RefusalReason::KeyMismatch,
                        PunchHoleFailure::LicenseOveruse => RefusalReason::KeyOveruse,
                        PunchHoleFailure::Other => RefusalReason::Other(ph.other_failure),
                    };
                    self.phase = Phase::Failed;
                    Action::Fail(SessionError::ConnectionRefused(reason))
                }
            },
            Event::Rendezvous(RendezvousReply::Relay(rr)) => {
                let relay = choose_relay(rr.relay_server, &self.config.rendezvous_addr);
                self.peer_pk = match rr.pk {
                    Some(pk) => pk,
                    None => Vec::new(),
                };
                self.relay = Some(relay);
                self.relay_uuid = rr.uuid;
                self.connect_relay()
            },
            Event::Rendezvous(r) => {
                let empty = match r {
                    RendezvousReply::Empty => true,
                    _ => false,
                };
                self.fail(SessionError::UnexpectedResponse { empty })
            },
            _ => self.fail(SessionError::UnexpectedEvent),
        }
    }

    fn begin_verification(&mut self) -> (a: Action)
        ensures
            begins_verification(*old(self), *final(self), a),
    {
        match self.config.rs_pk {
            None => self.fail(SessionError::InvalidServerKey),
            Some(k) => {
                if self.peer_pk.len() != 0 {
                    match verify_id_pk(self.peer_pk.as_slice(), &k) {
                        Ok(payload) => {
                            self.phase = Phase::DecodingVouchedKey;
                            Action::DecodeIdPk(payload)
                        },
                        Err(_) => self.fail(
                            SessionError::PeerKeyUnverified(IdPkError::SignatureMismatch),
                        ),
                    }
                } else {
                    self.peer_sign_pk = None;
                    self.phase = Phase::AwaitingSignedId;
                    Action::Receive
                }
            },
        }
    }

    fn on_vouched_key(&mut self, event: Event) -> (a: Action)
        requires
            old(self).phase == Phase::DecodingVouchedKey,
        ensures
            transition(*old(self), event, *final(self), a),
    {
        match event {
            Event::IdPkDecoded(record) => match decode_id_pk(record) {
                Ok((_, pk)) => {
                    self.peer_sign_pk = Some(pk);
                    self.phase = Phase::AwaitingSignedId;
                    Action::Receive
                },
                Err(e) => self.fail(SessionError::PeerKeyUnverified(e)),
            },
            _ => self.fail(SessionError::UnexpectedEvent),
        }
    }

    fn on_signed_id(&mut self, event: Event) -> (a: Action)
        requires
            old(self).phase == Phase::AwaitingSignedId,
        ensures
            transition(*old(self), event, *final(self), a),
    {
        match event {
            Event::Peer(PeerMessage::SignedId { id }) => match self.peer_sign_pk {
                None => self.fail(SessionError::NoPeerKey),
                Some(k) => match verify_id_pk(id.as_slice(), &k) {
                    Ok(payload) => {
                        self.signed_id = id;
                        self.phase = Phase::DecodingPeerId;
                        Action::DecodeIdPk(payload)
                    },
                    Err(_) => self.fail(SessionError::PeerIdUnverified(IdPkError::SignatureMismatch)),
                },
            },
            Event::Peer(m) => {
                let empty = match m {
                    PeerMessage::Empty => true,
                    _ => false,
                };
                self.fail(SessionError::ExpectedSignedId { empty })
            },
            _ => self.fail(SessionError::UnexpectedEvent),
        }
    }

    fn on_peer_id(&mut self, event: Event) -> (a: Action)
        requires
            old(self).phase == Phase::DecodingPeerId,
        ensures
            transition(*old(self), event, *final(self), a),
    {
        match event {
            Event::IdPkDecoded(record) => match decode_id_pk(record) {
                Ok((id, their_pk)) => {
                    let (asymmetric, symmetric, key) = create_symmetric_key_msg(their_pk);
                    self.peer_id = Some(id);
                    self.session_key = Some(key);
                    self.phase = Phase::SendingPublicKey;
                    Action::Send(Outgoing::PublicKey { asymmetric, symmetric, key })
                },
                Err(e) => self.fail(SessionError::PeerIdUnverified(e)),
            },
            _ => self.fail(SessionError::UnexpectedEvent),
        }
    }

    fn on_hash(&mut self, event: Event) -> (a: Action)
        requires
            old(self).phase == Phase::AwaitingHash,
        ensures
            transition(*old(self), event, *final(self), a),
    {
        match event {
            Event::Peer(PeerMessage::Hash { salt, challenge }) => {
                let password = password_response(
                    self.config.password.as_str(),
                    salt.as_str(),
                    challenge.as_str(),
                );
                self.phase = Phase::SendingLogin;
                Action::Send(
                    Outgoing::LoginRequest { username: self.config.device_id.clone(), password },
                )
            },
            Event::Peer(_) => self.fail(SessionError::ExpectedHash),
            _ => self.fail(SessionError::UnexpectedEvent),
        }
    }

    fn on_login_reply(&mut self, event: Event) -> (a: Action)
        requires
            old(self).phase == Phase::AwaitingLoginResponse,
        ensures
            transition(*old(self), event, *final(self), a),
    {
        match event {
            Event::LoginReply { message, login_response } => {
                match read_login_outcome(message, login_response) {
                    LoginOutcome::Error(err) => {
                        if err.as_str().is_empty() {
                            self.phase = Phase::Done;
                            Action::StartTerminal { remote_platform: String::new() }
                        } else {
                            self.fail(SessionError::LoginFailed(err))
                        }
                    },
                    LoginOutcome::PeerInfo { platform } => {
                        self.phase = Phase::Done;
                        Action::StartTerminal { remote_platform: platform }
                    },
                    LoginOutcome::Other => {
                        self.phase = Phase::Done;
                        Action::StartTerminal { remote_platform: String::new() }
                    },
                }
            },
            _ => self.fail(SessionError::UnexpectedEvent),
        }
    }
}

// ---------------------------------------------------------------------------
// Laws of the handshake
// ---------------------------------------------------------------------------

/// The order of the phases.
pub open spec fn rank(p: Phase) -> nat {
    match p {
        Phase::ConnectingRendezvous => 0,
        Phase::AwaitingFirstMessage => 1,
        Phase::SendingKeyExchange => 2,
        Phase::SendingPunchHole => 3,
        Phase::AwaitingRendezvousReply => 4,
        Phase::ConnectingDirect => 5,
        Phase::ConnectingRelay => 6,
        Phase::SendingRelayRequest => 7,
        Phase::DecodingVouchedKey => 8,
        Phase::AwaitingSignedId => 9,
        Phase::DecodingPeerId => 10,
        Phase::SendingPublicKey => 11,
        Phase::AwaitingHash => 12,
        Phase::SendingLogin => 13,
        Phase::AwaitingLoginResponse => 14,
        Phase::Done => 15,
        Phase::Failed => 16,
    }
}

/// What the handshake state guarantees about the peer at every step:
/// - before the peer is reached, no peer key, identity or session key is held;
/// - a peer signing key is held only when the rendezvous server sent a
///   (non-empty) record carrying it and its signature over that record checked out;
/// - a peer identity is held only when the peer's own signature, under that
///   key, over the record that carried it checked out;
/// - from the moment our session key goes out until the terminal starts, the
///   peer's identity and the session key are held.
pub open spec fn verified_state(s: Session) -> bool {
    &&& rank(s.phase) <= rank(Phase::SendingRelayRequest) ==> (s.peer_sign_pk is None
        && s.peer_id is None && s.session_key is None)
    &&& s.phase == Phase::DecodingVouchedKey ==> s.peer_pk@.len() != 0
    &&& s.phase == Phase::DecodingVouchedKey ==> (s.config.rs_pk matches Some(k) && ed25519_open(
        s.peer_pk@,
        k@,
    ) is Some && s.peer_id is None && s.session_key is None)
    &&& (s.phase == Phase::AwaitingSignedId || s.phase == Phase::DecodingPeerId) ==> (s.peer_id is None
        && s.session_key is None)
    &&& s.phase == Phase::DecodingPeerId ==> (s.peer_sign_pk matches Some(k) && ed25519_open(
        s.signed_id@,
        k@,
    ) is Some)
    &&& s.peer_sign_pk is Some ==> s.peer_pk@.len() != 0
    &&& s.peer_sign_pk matches Some(k) ==> (s.config.rs_pk matches Some(r) && ed25519_open(
        s.peer_pk@,
        r@,
    ) is Some)
    &&& s.peer_id is Some ==> (s.peer_sign_pk matches Some(k) && ed25519_open(s.signed_id@, k@) is Some)
    &&& (rank(Phase::SendingPublicKey) <= rank(s.phase) <= rank(Phase::Done)) ==> (s.peer_id is Some
        && s.session_key is Some)
}

/// Every step moves the handshake strictly forward through its phases: it
/// never returns to an earlier step, so it ends (in the terminal or in a
/// failure) after at most sixteen steps; a failed handshake stays failed.
pub proof fn lemma_handshake_moves_forward(s: Session, e: Event, t: Session, a: Action)
    requires
        transition(s, e, t, a),
    ensures
        s.phase != Phase::Done && s.phase != Phase::Failed ==> rank(t.phase) > rank(s.phase),
        s.phase == Phase::Failed ==> t.phase == Phase::Failed,
        a is Fail <==> t.phase == Phase::Failed,
{
}

/// The guarantees of [`verified_state`] hold at the start and are kept by
/// every step. In particular, our session key is sent, and the password answer
/// is sent, only when the rendezvous server vouched for the peer's signing key
/// and the peer signed its identity with that key, and the password answer
/// only once the session key is in place.
pub proof fn lemma_peer_verified_before_secrets(s: Session, e: Event, t: Session, a: Action)
    requires
        verified_state(s),
        transition(s, e, t, a),
    ensures
        verified_state(t),
        (a matches Action::Send(Outgoing::PublicKey { .. })) ==> {
            &&& t.peer_sign_pk matches Some(k) && ed25519_open(t.signed_id@, k@) is Some
            &&& t.config.rs_pk matches Some(r) && ed25519_open(t.peer_pk@, r@) is Some
            &&& t.peer_id is Some
        },
        (a matches Action::Send(Outgoing::LoginRequest { .. })) ==> {
            &&& t.peer_sign_pk matches Some(k) && ed25519_open(t.signed_id@, k@) is Some
            &&& t.config.rs_pk matches Some(r) && ed25519_open(t.peer_pk@, r@) is Some
            &&& t.peer_id is Some
            &&& t.session_key is Some
        },
{
}

/// A fresh handshake holds the guarantees of [`verified_state`].
pub proof fn lemma_new_session_verified_state(s: Session)
    requires
        s.phase == Phase::ConnectingRendezvous,
        s.peer_sign_pk is None,
        s.peer_id is None,
        s.session_key is None,
    ensures
        verified_state(s),
{
}

/// A relay assignment that carries a record signed by the rendezvous server
/// keeps exactly that record: once the relay is connected and the relay
/// request is sent, the record is checked under the server's key and its
/// signed payload is decoded next, so the device's identity is then checked
/// against the key the server vouched for (and never fails for want of one).
pub proof fn lemma_relay_keeps_vouched_record(
    s: Session,
    rr: RelayResponse,
    pk: Vec<u8>,
    k: [u8; 32],
    payload: Seq<u8>,
    s1: Session,
    a1: Action,
    s2: Session,
    a2: Action,
    s3: Session,
    a3: Action,
)
    requires
        s.phase == Phase::AwaitingRendezvousReply,
        s.config.rs_pk == Some(k),
        rr.pk == Some(pk),
        pk@.len() != 0,
        ed25519_open(pk@, k@) == Some(payload),
        transition(s, Event::Rendezvous(RendezvousReply::Relay(rr)), s1, a1),
        transition(s1, Event::Connected, s2, a2),
        transition(s2, Event::Sent, s3, a3),
    ensures
        s1.peer_pk@ == pk@,
        s3.peer_pk@ == pk@,
        s3.phase == Phase::DecodingVouchedKey,
        a3 matches Action::DecodeIdPk(p) && p@ == payload,
{
}

/// A relay assignment is followed exactly: the relay connected to is the relay
/// server it names (the rendezvous server's next port when it names none), and
/// the relay request sent once connected carries the assignment's uuid for
/// our device.
pub proof fn lemma_relay_reply_route(
    s: Session,
    rr: RelayResponse,
    s1: Session,
    a1: Action,
    s2: Session,
    a2: Action,
)
    requires
        s.phase == Phase::AwaitingRendezvousReply,
        transition(s, Event::Rendezvous(RendezvousReply::Relay(rr)), s1, a1),
        transition(s1, Event::Connected, s2, a2),
    ensures
        rr.relay_server@.len() != 0 ==> (a1 matches Action::Connect(
            Endpoint::Relay(RelayTarget::Server(h)),
        ) && h@ == rr.relay_server@),
        rr.relay_server@.len() == 0 ==> (a1 matches Action::Connect(
            Endpoint::Relay(RelayTarget::NextPort(h)),
        ) && h@ == s.config.rendezvous_addr@),
        a2 matches Action::Send(Outgoing::RequestRelay { id, uuid, licence_key }) && id@
            == s.config.device_id@ && uuid@ == rr.uuid@ && licence_key@ == s.config.key_str@,
{
}

/// A punch-hole answer with the peer's address leads to a direct connection to
/// that address; when it fails, the relay connected to is the relay server the
/// answer named (the rendezvous server's next port when it named none), and
/// the record the server signed for the peer is kept throughout.
pub proof fn lemma_direct_failure_uses_named_relay(
    s: Session,
    ph: PunchHoleResponse,
    s1: Session,
    a1: Action,
    s2: Session,
    a2: Action,
)
    requires
        s.phase == Phase::AwaitingRendezvousReply,
        ph.socket_addr@.len() != 0,
        transition(s, Event::Rendezvous(RendezvousReply::PunchHole(ph)), s1, a1),
        transition(s1, Event::ConnectFailed, s2, a2),
    ensures
        a1 matches Action::Connect(Endpoint::Direct(addr)) && addr@ == ph.socket_addr@,
        ph.relay_server@.len() != 0 ==> (a2 matches Action::Connect(
            Endpoint::Relay(RelayTarget::Server(h)),
        ) && h@ == ph.relay_server@),
        ph.relay_server@.len() == 0 ==> (a2 matches Action::Connect(
            Endpoint::Relay(RelayTarget::NextPort(h)),
        ) && h@ == s.config.rendezvous_addr@),
        s1.peer_pk@ == ph.pk@,
        s2.peer_pk@ == ph.pk@,
{
}

/// A login answer that is neither a login-response nor a terminal-response
/// message, and that reads as a bare login response with a non-empty error,
/// fails the handshake with that error; so does a login-response message with
/// a non-empty error. A wrong password is never taken as a login.
pub proof fn lemma_login_error_fails(
    s: Session,
    message: Option<PeerMessage>,
    login_response: Option<LoginOutcome>,
    err: String,
    t: Session,
    a: Action,
)
    requires
        s.phase == Phase::AwaitingLoginResponse,
        err@.len() != 0,
        message == Some(PeerMessage::LoginResponse(LoginOutcome::Error(err))) || ({
            &&& !(message matches Some(PeerMessage::LoginResponse(_)))
            &&& !(message matches Some(PeerMessage::TerminalResponse))
            &&& login_response == Some(LoginOutcome::Error(err))
        }),
        transition(s, Event::LoginReply { message, login_response }, t, a),
    ensures
        a == Action::Fail(SessionError::LoginFailed(err)),
        t.phase == Phase::Failed,
{
}

/// A login answer that is not an error starts the terminal: a login response
/// carrying the peer's details starts it on the peer's platform, and an early
/// terminal response, an empty error or an answer that reads as nothing at
/// all starts it with no platform known.
pub proof fn lemma_login_accepted(
    s: Session,
    message: Option<PeerMessage>,
    login_response: Option<LoginOutcome>,
    t: Session,
    a: Action,
)
    requires
        s.phase == Phase::AwaitingLoginResponse,
        transition(s, Event::LoginReply { message, login_response }, t, a),
    ensures
        message matches Some(PeerMessage::LoginResponse(LoginOutcome::PeerInfo { platform })) ==> (
        a == Action::StartTerminal { remote_platform: platform } && t.phase == Phase::Done),
        message matches Some(PeerMessage::LoginResponse(LoginOutcome::Error(e))) ==> (e@.len() == 0
            ==> (a matches Action::StartTerminal { remote_platform } && remote_platform@.len() == 0)),
        message matches Some(PeerMessage::TerminalResponse) ==> (a matches Action::StartTerminal {
            remote_platform,
        } && remote_platform@.len() == 0 && t.phase == Phase::Done),
        !(message matches Some(PeerMessage::LoginResponse(_))) ==> (!(message matches Some(
            PeerMessage::TerminalResponse,
        )) ==> (login_response matches Some(LoginOutcome::PeerInfo { platform }) ==> a
            == Action::StartTerminal { remote_platform: platform })),
        message is None && login_response is None ==> (a matches Action::StartTerminal {
            remote_platform,
        } && remote_platform@.len() == 0 && t.phase == Phase::Done),
{
}

/// A punch-hole answer without an address is a refusal: the handshake fails
/// with the reason the rendezvous server gave.
pub proof fn lemma_refusal_reason(s: Session, ph: PunchHoleResponse, t: Session, a: Action)
    requires
        s.phase == Phase::AwaitingRendezvousReply,
        ph.socket_addr@.len() == 0,
        transition(s, Event::Rendezvous(RendezvousReply::PunchHole(ph)), t, a),
    ensures
        t.phase == Phase::Failed,
        ph.failure == PunchHoleFailure::IdNotExist ==> a matches Action::Fail(
            SessionError::ConnectionRefused(RefusalReason::IdNotExist),
        ),
        ph.failure == PunchHoleFailure::Offline ==> a matches Action::Fail(
            SessionError::ConnectionRefused(RefusalReason::Offline),
        ),
        ph.failure == PunchHoleFailure::LicenseMismatch ==> a matches Action::Fail(
            SessionError::ConnectionRefused(RefusalReason::KeyMismatch),
        ),
        ph.failure == PunchHoleFailure::LicenseOveruse ==> a matches Action::Fail(
            SessionError::ConnectionRefused(RefusalReason::KeyOveruse),
        ),
        ph.failure == PunchHoleFailure::Other ==> (a matches Action::Fail(
            SessionError::ConnectionRefused(RefusalReason::Other(m)),
        ) && m@ == ph.other_failure@),
{
}

/// The key the rendezvous server vouched for is the key the device's signed
/// identity is checked against: a record signed with it is decoded next, and
/// one that is not fails the handshake.
pub proof fn lemma_vouched_key_checks_identity(
    s: Session,
    r: IdPk,
    id: Vec<u8>,
    s1: Session,
    a1: Action,
    s2: Session,
    a2: Action,
)
    requires
        s.phase == Phase::DecodingVouchedKey,
        r.pk@.len() == 32,
        transition(s, Event::IdPkDecoded(Ok(r)), s1, a1),
        transition(s1, Event::Peer(PeerMessage::SignedId { id }), s2, a2),
    ensures
        a1 is Receive,
        s1.peer_sign_pk matches Some(k) && k@ == r.pk@,
        ed25519_open(id@, r.pk@) matches Some(p) ==> (a2 matches Action::DecodeIdPk(q) && q@ == p),
        ed25519_open(id@, r.pk@) is None ==> a2 == Action::Fail(
            SessionError::PeerIdUnverified(IdPkError::SignatureMismatch),
        ),
{
}

/// Once the device's signed identity decodes to a record with a 32-byte key,
/// our session key is sent sealed for exactly that key, it is the session key
/// held from then on, and the device's identity is the record's.
pub proof fn lemma_session_key_sealed_for_signed_key(s: Session, r: IdPk, t: Session, a: Action)
    requires
        s.phase == Phase::DecodingPeerId,
        r.pk@.len() == 32,
        transition(s, Event::IdPkDecoded(Ok(r)), t, a),
    ensures
        a matches Action::Send(Outgoing::PublicKey { asymmetric, symmetric, key }) && seals_key_for(
            (asymmetric, symmetric, key),
            r.pk@,
        ) && t.session_key == Some(key),
        t.peer_id matches Some(i) && i@ == r.id@,
{
}

/// The password challenge is answered with
/// `SHA-256(SHA-256(password ++ salt) ++ challenge)` over the UTF-8 bytes,
/// in a login request for our device id.
pub proof fn lemma_login_answers_challenge(
    s: Session,
    salt: String,
    challenge: String,
    t: Session,
    a: Action,
)
    requires
        s.phase == Phase::AwaitingHash,
        transition(s, Event::Peer(PeerMessage::Hash { salt, challenge }), t, a),
    ensures
        a matches Action::Send(Outgoing::LoginRequest { username, password }) && username@
            == s.config.device_id@ && password@ == sha256(
            sha256(encode_utf8(s.config.password@) + encode_utf8(salt@)) + encode_utf8(challenge@),
        ),
{
}

/// A rendezvous key exchange offering exactly one key, signed by the server's
/// key over a 32-byte box key, is answered with a session key sealed for that
/// box key; any other first message leads straight to the punch-hole request.
pub proof fn lemma_key_exchange_answered(
    s: Session,
    keys: Vec<Vec<u8>>,
    k: [u8; 32],
    t: Session,
    a: Action,
)
    requires
        s.phase == Phase::AwaitingFirstMessage,
        s.config.rs_pk == Some(k),
        transition(
            s,
            Event::FirstMessage(FirstMessage::Message(RendezvousReply::KeyExchange { keys })),
            t,
            a,
        ),
    ensures
        keys@.len() == 1 ==> (ed25519_open(keys@[0]@, k@) matches Some(b) ==> (b.len() == 32 ==> (
        a matches Action::Send(Outgoing::KeyExchange { asymmetric, symmetric, key })
            && seals_key_for((asymmetric, symmetric, key), b)))),
        keys@.len() != 1 ==> (a matches Action::Send(Outgoing::PunchHoleRequest { id, .. }) && id@
            == s.config.device_id@),
        (keys@.len() == 1 && ed25519_open(keys@[0]@, k@) is None) ==> (a matches Action::Send(
            Outgoing::PunchHoleRequest { id, .. },
        ) && id@ == s.config.device_id@),
{
}

/// The value of a string of decimal digits, read most significant first.
pub open spec fn digits_value(s: Seq<char>) -> int
    decreases s.len(),
{
    if s.len() == 0 {
        0
    } else {
        digits_value(s.drop_last()) * 10 + ((s.last() as u32) as int - ('0' as u32) as int)
    }
}

/// The port text is the decimal numeral of the port: it is made of digits
/// only, has no leading zero, and reads back as the number it was made from.
pub proof fn lemma_decimal_reads_back(n: nat)
    ensures
        decimal(n).len() >= 1,
        forall|i: int| 0 <= i < decimal(n).len() ==> '0' <= #[trigger] decimal(n)[i] <= '9',
        decimal(n).len() > 1 ==> decimal(n)[0] != '0',
        n > 0 ==> decimal(n)[0] != '0',
        digits_value(decimal(n)) == n,
    decreases n,
{
    let s = decimal(n);
    if n < 10 {
        assert(s.drop_last() =~= Seq::<char>::empty());
        assert((s.last() as u32) as int == ('0' as u32) as int + n);
        assert(digits_value(s) == digits_value(s.drop_last()) * 10 + ((s.last() as u32) as int - (
        '0' as u32) as int));
    } else {
        lemma_decimal_reads_back(n / 10);
        let d = decimal(n / 10);
        assert(s.drop_last() =~= d);
        assert(n == (n / 10) * 10 + n % 10);
        assert((s.last() as u32) as int == ('0' as u32) as int + n % 10);
        assert(digits_value(s) == digits_value(d) * 10 + ((s.last() as u32) as int - ('0' as u32) as int));
    }
}


} // verus!
