use loco_protocol::error::{ErrorClass, LocoError};
use loco_protocol::handshake::{key_exchange, load_public_key};
use loco_protocol::session::{Action, Connection, Phase, TransportMode};

/// A PEM document around an RSA public key with a modulus of 256 bits.
fn small_key_pem() -> String {
    let mut der = vec![
        0x30, 0x3c, // SubjectPublicKeyInfo
        0x30, 0x0d, 0x06, 0x09, 0x2a, 0x86, 0x48, 0x86, 0xf7, 0x0d, 0x01, 0x01, 0x01, 0x05,
        0x00, // rsaEncryption
        0x03, 0x2b, 0x00, // bit string
        0x30, 0x28, // RSAPublicKey
        0x02, 0x21, 0x00, // modulus
    ];
    der.extend_from_slice(&[0xd1; 32]);
    der.extend_from_slice(&[0x02, 0x03, 0x01, 0x00, 0x01]); // exponent 65537
    pem::encode(&pem::Pem { tag: "PUBLIC KEY".to_string(), contents: der })
}

#[test]
fn a_key_too_small_for_the_session_key_cannot_encrypt_it() {
    let pem = small_key_pem();
    assert!(load_public_key(&pem).is_ok());
    let e = key_exchange(&pem, &[7; 16]).unwrap_err();
    assert_eq!(e, LocoError::KeyEncryption);
    assert_eq!(e.class(), ErrorClass::Cryptographic);

    let (connection, action) = Connection::open(TransportMode::SecureSession).start(&pem);
    assert!(matches!(action, Action::Close(LocoError::KeyEncryption)));
    assert!(matches!(connection.phase(), Phase::Closed));
}

#[test]
fn a_failure_to_build_a_packet_is_passed_on() {
    for e in [LocoError::BodyTooLong, LocoError::PayloadTooLong, LocoError::DocumentEncode] {
        let (connection, action) = Connection::open(TransportMode::Tls).send_packet(Err(e));
        assert!(matches!(action, Action::Close(passed) if passed == e));
        assert!(matches!(connection.phase(), Phase::Closed));
    }
}
