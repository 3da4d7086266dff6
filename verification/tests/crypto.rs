use base64::Engine;
use rustshell::crypto::{
    create_symmetric_key_msg, decode_id_pk, get_pk, get_rs_pk, password_response,
    seal_symmetric_key, verify_id_pk, IdPk, IdPkError,
};
use sodiumoxide::crypto::{box_, sign};

const RUSTDESK_KEY: &str = "OeVuKk5nlHiXp+APNn0Y3pC1Iwpwn44JGqrQCsWqmBw=";

#[test]
fn get_pk_accepts_exactly_32_bytes() {
    let bytes: Vec<u8> = (0..32).collect();
    let pk = get_pk(&bytes).unwrap();
    assert_eq!(pk.to_vec(), bytes);
    assert_eq!(get_pk(&bytes[..31]), None);
    assert_eq!(get_pk(&[0u8; 33]), None);
    assert_eq!(get_pk(&[]), None);
}

#[test]
fn rendezvous_key_decodes() {
    let expected: [u8; 32] = [
        57, 229, 110, 42, 78, 103, 148, 120, 151, 167, 224, 15, 54, 125, 24, 222, 144, 181, 35, 10,
        112, 159, 142, 9, 26, 170, 208, 10, 197, 170, 152, 28,
    ];
    assert_eq!(get_rs_pk(RUSTDESK_KEY), Some(expected));
}

#[test]
fn rendezvous_key_rejects_bad_text() {
    assert_eq!(get_rs_pk(""), None);
    assert_eq!(get_rs_pk("not base64!"), None);
    // Valid base64 of 16 bytes: not a key.
    assert_eq!(get_rs_pk("AAAAAAAAAAAAAAAAAAAAAA=="), None);
    // Unpadded text is refused by the padded standard engine.
    assert_eq!(get_rs_pk("OeVuKk5nlHiXp+APNn0Y3pC1Iwpwn44JGqrQCsWqmBw"), None);
}

#[test]
fn signed_record_verifies_and_yields_payload() {
    let (pk, sk) = sign::gen_keypair();
    let signed = sign::sign(b"identity record", &sk);
    assert_eq!(verify_id_pk(&signed, &pk.0), Ok(b"identity record".to_vec()));
    let (other, _) = sign::gen_keypair();
    assert_eq!(verify_id_pk(&signed, &other.0), Err(IdPkError::SignatureMismatch));
    let mut tampered = signed.clone();
    let last = tampered.len() - 1;
    tampered[last] ^= 1;
    assert_eq!(verify_id_pk(&tampered, &pk.0), Err(IdPkError::SignatureMismatch));
    assert_eq!(verify_id_pk(&[1, 2, 3], &pk.0), Err(IdPkError::SignatureMismatch));
}

#[test]
fn decoded_record_needs_a_32_byte_key() {
    let ok = decode_id_pk(Ok(IdPk { id: "123456789".to_string(), pk: vec![7u8; 32] }));
    assert_eq!(ok, Ok(("123456789".to_string(), [7u8; 32])));
    let short = decode_id_pk(Ok(IdPk { id: "1".to_string(), pk: vec![7u8; 31] }));
    assert_eq!(short, Err(IdPkError::WrongKeyLength));
    assert_eq!(
        decode_id_pk(Err("unexpected EOF".to_string())),
        Err(IdPkError::Malformed("unexpected EOF".to_string()))
    );
}

#[test]
fn sealed_session_key_opens_for_the_peer() {
    let (their_pk, their_sk) = box_::gen_keypair();
    let (our_pk, sealed, key) = create_symmetric_key_msg(their_pk.0);
    assert_eq!(our_pk.len(), 32);
    assert_eq!(sealed.len(), 48);
    let nonce = box_::Nonce([0u8; box_::NONCEBYTES]);
    let our = box_::PublicKey(our_pk.as_slice().try_into().unwrap());
    let opened = box_::open(&sealed, &nonce, &our, &their_sk).unwrap();
    assert_eq!(opened, key.to_vec());
}

#[test]
fn sealing_is_the_box_of_the_key() {
    let (their_pk, their_sk) = box_::gen_keypair();
    let (our_pk, our_sk) = box_::gen_keypair();
    let key = [9u8; 32];
    let (ours, sealed, k) = seal_symmetric_key(their_pk.0, our_pk.0, our_sk.0, key);
    assert_eq!(sodiumoxide::crypto::scalarmult::scalarmult_base(
        &sodiumoxide::crypto::scalarmult::Scalar(our_sk.0)).0, our_pk.0);
    assert_eq!(ours, our_pk.0.to_vec());
    assert_eq!(k, key);
    assert_ne!(sealed, key.to_vec());
    let nonce = box_::Nonce([0u8; box_::NONCEBYTES]);
    assert_eq!(sealed, box_::seal(&key, &nonce, &their_pk, &our_sk));
    assert_eq!(box_::open(&sealed, &nonce, &our_pk, &their_sk).unwrap(), key.to_vec());
}

#[test]
fn password_answer_is_double_sha256() {
    let expected: Vec<u8> = vec![
        19, 133, 148, 196, 196, 204, 73, 152, 207, 238, 190, 49, 75, 44, 228, 21, 28, 239, 142, 188,
        27, 212, 34, 227, 129, 226, 166, 26, 11, 133, 159, 158,
    ];
    assert_eq!(password_response("secret", "NaCl", "chall"), expected);
}

#[test]
fn password_answer_depends_on_every_input() {
    let base = password_response("pw", "salt", "challenge");
    assert_eq!(base.len(), 32);
    assert_ne!(base, password_response("pw2", "salt", "challenge"));
    assert_ne!(base, password_response("pw", "salt2", "challenge"));
    assert_ne!(base, password_response("pw", "salt", "challenge2"));
}

#[test]
fn base64_standard_engine_round_trip() {
    let key = [5u8; 32];
    let text = base64::engine::general_purpose::STANDARD.encode(key);
    assert_eq!(get_rs_pk(&text), Some(key));
}
