//! Keys, signatures and hashes of the handshake: decoding the rendezvous
//! server's key, checking keys vouched by signatures, sealing the session key
//! for the peer and answering the password challenge.
use base64::Engine;
use sha2::Digest;
use vstd::prelude::*;
use vstd::string::StringSliceAdditionalSpecFns;

verus! {

// ---------------------------------------------------------------------------
// Names for what the outside functions compute
// ---------------------------------------------------------------------------

/// The bytes that standard, padded base64 decoding yields for a text, or
/// `None` where the text is not valid base64.
pub uninterp spec fn base64_standard_decode(text: Seq<char>) -> Option<Seq<u8>>;

/// The message that an Ed25519 combined signed message carries when its
/// signature checks out under the public key, or `None` where it does not.
pub uninterp spec fn ed25519_open(signed: Seq<u8>, public_key: Seq<u8>) -> Option<Seq<u8>>;

/// The Curve25519-XSalsa20-Poly1305 box of a message under a nonce, the
/// receiver's public key and the sender's secret key.
pub uninterp spec fn curve25519_box_seal(
    message: Seq<u8>,
    nonce: Seq<u8>,
    public_key: Seq<u8>,
    secret_key: Seq<u8>,
) -> Seq<u8>;

/// The Curve25519 public key that belongs to a secret key (the base-point
/// multiple that libsodium's `crypto_scalarmult_curve25519_base` computes).
pub uninterp spec fn curve25519_base(secret_key: Seq<u8>) -> Seq<u8>;

/// The Curve25519 shared secret of a public and a secret key is not all zero,
/// so that libsodium's `crypto_scalarmult_curve25519` succeeds and a box can
/// be made with the two keys (it fails, for instance, for low-order public keys).
pub uninterp spec fn curve25519_agreement(public_key: Seq<u8>, secret_key: Seq<u8>) -> bool;

/// The SHA-256 digest of a byte string.
pub uninterp spec fn sha256(data: Seq<u8>) -> Seq<u8>;

/// An optional byte vector, seen as an optional byte sequence.
pub open spec fn bytes_opt(o: Option<Vec<u8>>) -> Option<Seq<u8>> {
    match o {
        Some(v) => Some(v@),
        None => None,
    }
}

/// An optional 32-byte key, seen as an optional byte sequence.
pub open spec fn key_opt(o: Option<[u8; 32]>) -> Option<Seq<u8>> {
    match o {
        Some(k) => Some(k@),
        None => None,
    }
}

// ---------------------------------------------------------------------------
// Trusted calls into base64, sodiumoxide and sha2
// ---------------------------------------------------------------------------

/// Calls `base64::engine::general_purpose::STANDARD.decode`; trusted to return
/// exactly the named decoding of the text, `None` where the crate reports an error.
#[verifier::external_body]
fn base64_decode(text: &str) -> (r: Option<Vec<u8>>)
    ensures
        bytes_opt(r) == base64_standard_decode(text@),
{
    base64::engine::general_purpose::STANDARD.decode(text).ok()
}

/// Calls `sodiumoxide::crypto::sign::verify`; trusted to return the named
/// result, and (as libsodium's `crypto_sign_ed25519_open` shows) to hand back,
/// on success, the bytes that follow the 64-byte signature.
#[verifier::external_body]
pub(crate) fn sign_verify(signed: &[u8], public_key: &[u8; 32]) -> (r: Option<Vec<u8>>)
    ensures
        bytes_opt(r) == ed25519_open(signed@, public_key@),
        r matches Some(m) ==> signed@.len() >= 64 && m@ == signed@.subrange(
            64,
            signed@.len() as int,
        ),
{
    sodiumoxide::crypto::sign::verify(signed, &sodiumoxide::crypto::sign::PublicKey(*public_key)).ok()
}

/// Calls `sodiumoxide::crypto::box_::gen_keypair`; returns the raw public and
/// secret key. The secret key is random; the public key is trusted to be the
/// one that belongs to it (libsodium's keypair computes it with
/// `crypto_scalarmult_curve25519_base` from the secret key).
#[verifier::external_body]
fn gen_box_keypair() -> (r: ([u8; 32], [u8; 32]))
    ensures
        r.0@ == curve25519_base(r.1@),
{
    let (pk, sk) = sodiumoxide::crypto::box_::gen_keypair();
    (pk.0, sk.0)
}

/// Calls `sodiumoxide::crypto::secretbox::gen_key`; returns the raw key. The key
/// is random: nothing is stated of it beyond its size.
#[verifier::external_body]
fn gen_secretbox_key() -> (r: [u8; 32]) {
    sodiumoxide::crypto::secretbox::gen_key().0
}

/// Calls `sodiumoxide::crypto::box_::seal`; trusted to return a result 16 bytes
/// longer than the message, which is the named box when the two keys agree on a
/// non-zero shared secret. Where they do not, libsodium leaves the output
/// unwritten (sodiumoxide ignores its error code), and nothing is stated of its
/// bytes.
#[verifier::external_body]
fn box_seal(message: &[u8], nonce: &[u8; 24], public_key: &[u8; 32], secret_key: &[u8; 32]) -> (r:
    Vec<u8>)
    requires
        message@.len() + 16 <= usize::MAX,
    ensures
        curve25519_agreement(public_key@, secret_key@) ==> r@ == curve25519_box_seal(
            message@,
            nonce@,
            public_key@,
            secret_key@,
        ),
        r@.len() == message@.len() + 16,
{
    sodiumoxide::crypto::box_::seal(
        message,
        &sodiumoxide::crypto::box_::Nonce(*nonce),
        &sodiumoxide::crypto::box_::PublicKey(*public_key),
        &sodiumoxide::crypto::box_::SecretKey(*secret_key),
    )
}

/// Calls `sha2::Sha256::digest`; trusted to return the named digest, which is
/// 32 bytes long.
#[verifier::external_body]
fn sha256_digest(data: &[u8]) -> (r: Vec<u8>)
    ensures
        r@ == sha256(data@),
        r@.len() == 32,
{
    sha2::Sha256::digest(data).to_vec()
}

// ---------------------------------------------------------------------------
// Keys
// ---------------------------------------------------------------------------

/// A key is exactly 32 bytes long; any other length is not a key.
pub open spec fn as_key(bytes: Seq<u8>) -> Option<Seq<u8>> {
    if bytes.len() == 32 {
        Some(bytes)
    } else {
        None
    }
}

/// Converts a byte slice into a 32-byte key when it has exactly 32 bytes.
pub fn get_pk(pk: &[u8]) -> (res: Option<[u8; 32]>)
    ensures
        key_opt(res) == as_key(pk@),
{
    if pk.len() == 32 {
        let mut tmp = [0u8; 32];
        let mut i: usize = 0;
        while i < 32
            invariant
                pk@.len() == 32,
                0 <= i <= 32,
                forall|j: int| 0 <= j < i ==> tmp@[j] == pk@[j],
            decreases 32 - i,
        {
            tmp[i] = pk[i];
            i = i + 1;
        }
        assert(tmp@ =~= pk@);
        Some(tmp)
    } else {
        None
    }
}

/// The rendezvous server's signing key encoded in a base64 text: the decoded
/// bytes when they decode and are 32 bytes long.
pub open spec fn rs_pk_of(text: Seq<char>) -> Option<Seq<u8>> {
    match base64_standard_decode(text) {
        Some(bytes) => as_key(bytes),
        None => None,
    }
}

/// Decodes the rendezvous server's public signing key from its base64 text.
pub fn get_rs_pk(str_base64: &str) -> (res: Option<[u8; 32]>)
    ensures
        key_opt(res) == rs_pk_of(str_base64@),
{
    match base64_decode(str_base64) {
        Some(bytes) => get_pk(bytes.as_slice()),
        None => None,
    }
}

/// Why a vouched identity and key was not accepted.
#[derive(Debug, PartialEq, Eq)]
pub enum IdPkError {
    /// The signature does not check out under the vouching key.
    SignatureMismatch,
    /// The signed payload is not an identity-and-key record; the decoder's error.
    Malformed(String),
    /// The key in the record is not 32 bytes long.
    WrongKeyLength,
}

/// An identity-and-key record (a device id and its public key), as decoded
/// from a signed payload.
#[derive(Debug)]
pub struct IdPk {
    pub id: String,
    pub pk: Vec<u8>,
}

/// Checks the signature of a signed identity-and-key record and returns the
/// signed payload.
pub fn verify_id_pk(signed: &[u8], key: &[u8; 32]) -> (res: Result<Vec<u8>, IdPkError>)
    ensures
        match res {
            Ok(payload) => ed25519_open(signed@, key@) == Some(payload@),
            Err(e) => e == IdPkError::SignatureMismatch && ed25519_open(signed@, key@) is None,
        },
{
    match sign_verify(signed, key) {
        Some(payload) => Ok(payload),
        None => Err(IdPkError::SignatureMismatch),
    }
}

/// Accepts a decoded identity-and-key record: its id and its key, which must be
/// 32 bytes long. An error stands for a payload that did not decode, with the
/// decoder's message.
pub fn decode_id_pk(record: Result<IdPk, String>) -> (res: Result<(String, [u8; 32]), IdPkError>)
    ensures
        match record {
            Err(m) => res == Err::<(String, [u8; 32]), IdPkError>(IdPkError::Malformed(m)),
            Ok(r) => match res {
                Ok((id, pk)) => id@ == r.id@ && pk@ == r.pk@,
                Err(e) => e == IdPkError::WrongKeyLength && r.pk@.len() != 32,
            },
        },
        res is Ok <==> (record matches Ok(r) && r.pk@.len() == 32),
{
    match record {
        Err(m) => Err(IdPkError::Malformed(m)),
        Ok(r) => match get_pk(r.pk.as_slice()) {
            Some(pk) => Ok((r.id, pk)),
            None => Err(IdPkError::WrongKeyLength),
        },
    }
}

// ---------------------------------------------------------------------------
// Session key exchange
// ---------------------------------------------------------------------------

/// The all-zero 24-byte nonce with which the session key is sealed.
pub open spec fn zero_nonce() -> Seq<u8> {
    Seq::new(24, |i: int| 0u8)
}

/// The key-exchange message: our public key, the session key sealed for the
/// peer (48 bytes; the box of the key whenever the peer's key and our secret
/// key agree on a shared secret), and the session key itself.
pub open spec fn is_key_msg(
    msg: (Vec<u8>, Vec<u8>, [u8; 32]),
    their_pk: Seq<u8>,
    our_pk: Seq<u8>,
    our_sk: Seq<u8>,
) -> bool {
    &&& msg.0@ == our_pk
    &&& curve25519_agreement(their_pk, our_sk) ==> msg.1@ == curve25519_box_seal(
        msg.2@,
        zero_nonce(),
        their_pk,
        our_sk,
    )
    &&& msg.1@.len() == 48
}

/// A key-exchange message carries our public key, which belongs to a secret
/// key, and the session key sealed for `their_pk` with that same secret key
/// (a fresh key pair: the secret key is not known outside).
pub open spec fn seals_key_for(msg: (Vec<u8>, Vec<u8>, [u8; 32]), their_pk: Seq<u8>) -> bool {
    &&& msg.0@.len() == 32
    &&& exists|our_sk: Seq<u8>|
        our_sk.len() == 32 && msg.0@ == curve25519_base(our_sk) && #[trigger] is_key_msg(
            msg,
            their_pk,
            msg.0@,
            our_sk,
        )
}

/// Seals the session key `key` for the peer's box key `their_pk`, from our key
/// pair, under the all-zero nonce.
pub fn seal_symmetric_key(their_pk: [u8; 32], our_pk: [u8; 32], our_sk: [u8; 32], key: [u8; 32]) -> (r: (
    Vec<u8>,
    Vec<u8>,
    [u8; 32],
))
    ensures
        is_key_msg(r, their_pk@, our_pk@, our_sk@),
        r.2 == key,
{
    let nonce = [0u8; 24];
    assert(nonce@ =~= zero_nonce());
    let sealed = box_seal(&key, &nonce, &their_pk, &our_sk);
    let mut ours: Vec<u8> = Vec::new();
    let mut i: usize = 0;
    while i < 32
        invariant
            0 <= i <= 32,
            ours@ =~= our_pk@.subrange(0, i as int),
        decreases 32 - i,
    {
        ours.push(our_pk[i]);
        i = i + 1;
    }
    assert(ours@ =~= our_pk@);
    (ours, sealed, key)
}

/// Creates a fresh key pair and a fresh session key, and returns our public
/// key, the session key sealed for the peer and the session key.
pub fn create_symmetric_key_msg(their_pk_b: [u8; 32]) -> (r: (Vec<u8>, Vec<u8>, [u8; 32]))
    ensures
        seals_key_for(r, their_pk_b@),
{
    let (our_pk, our_sk) = gen_box_keypair();
    let key = gen_secretbox_key();
    let r = seal_symmetric_key(their_pk_b, our_pk, our_sk, key);
    assert(r.0@ == curve25519_base(our_sk@) && is_key_msg(r, their_pk_b@, r.0@, our_sk@));
    r
}

// ---------------------------------------------------------------------------
// Password challenge
// ---------------------------------------------------------------------------

/// The answer to a password challenge:
/// `SHA-256(SHA-256(password ++ salt) ++ challenge)` over the UTF-8 bytes.
pub open spec fn password_answer(password: Seq<u8>, salt: Seq<u8>, challenge: Seq<u8>) -> Seq<u8> {
    sha256(sha256(password + salt) + challenge)
}

/// The concatenation of two byte strings.
fn concat_bytes(a: &[u8], b: &[u8]) -> (r: Vec<u8>)
    ensures
        r@ == a@ + b@,
{
    let mut r: Vec<u8> = Vec::new();
    let mut i: usize = 0;
    while i < a.len()
        invariant
            0 <= i <= a@.len(),
            r@ =~= a@.subrange(0, i as int),
        decreases a@.len() - i,
    {
        r.push(a[i]);
        i = i + 1;
    }
    let mut j: usize = 0;
    while j < b.len()
        invariant
            0 <= j <= b@.len(),
            r@ =~= a@ + b@.subrange(0, j as int),
        decreases b@.len() - j,
    {
        r.push(b[j]);
        j = j + 1;
    }
    assert(b@.subrange(0, b@.len() as int) =~= b@);
    r
}

/// Answers the password challenge of the remote device with its salt and its
/// challenge string.
pub fn password_response(password: &str, salt: &str, challenge: &str) -> (r: Vec<u8>)
    ensures
        r@ == password_answer(password.spec_bytes(), salt.spec_bytes(), challenge.spec_bytes()),
        r@.len() == 32,
{
    let first = concat_bytes(password.as_bytes(), salt.as_bytes());
    let h1 = sha256_digest(first.as_slice());
    let second = concat_bytes(h1.as_slice(), challenge.as_bytes());
    sha256_digest(second.as_slice())
}

} // verus!
