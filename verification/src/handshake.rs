//! The key exchange that opens an encrypted session. The client draws a
//! session key, encrypts it under the service's public key and sends it
//! behind a preamble of twelve bytes:
//!
//! | bytes  | field                                          |
//! |--------|------------------------------------------------|
//! | 0..4   | length of the encrypted key, little-endian     |
//! | 4..8   | identifier of the asymmetric scheme, always 14 |
//! | 8..12  | identifier of the symmetric scheme, always 2   |

use crate::crypto::{
    is_public_key_der, pem_contents, pem_parse, rsa_oaep_sha1_encrypt, rsa_public_key_from_der,
};
use crate::endian::{
    from_le_u32, get_u32_le, le_u32, lemma_le_u32_decode_encode, put_bytes, put_u32_le,
};
use crate::error::{result_view, LocoError};
use vstd::prelude::*;

verus! {

/// Identifier of RSA with OAEP padding over SHA-1.
pub const RSA_ENCRYPT_TYPE: u32 = 14;

/// Identifier of AES-128 in CFB mode with 128-bit segments.
pub const AES_ENCRYPT_TYPE: u32 = 2;

/// Length in bytes of the preamble.
pub const PREAMBLE_LEN: usize = 12;

/// The public key of the service, as a PEM document.
pub const PUBLIC_KEY_PEM: &'static str =
    "-----BEGIN PUBLIC KEY-----\nMIIBIDANBgkqhkiG9w0BAQEFAAOCAQ0AMIIBCAKCAQEA52Y1NVBfNkzCmnggwVwScdUO7enyo/RtnSsr8io+8cQrhXlsi1Msn8yGQv+JW9AZKyetYeYl/BuCFS7liJixwJ1UFkH7J0m8GRGNH4VRuRMJa97WfvVpsMr1cIaFnoCeRwvvaaqw9/ikWFWw/Cq6ieAsO80pRCcAVh1mCytDUmeqykuz6TYwldTaYbpHO8u48d3jvUXveSv5J9t40GiaMdyVRZpx7LY2M0ZsjjbQXRe8ziXtGEq/8Gk0vkV2BnRk/v6uce8k5ERCWGyVHRaRo6FJljYNvaIoBBx2WGJVbb6fXCLlkPFlH/A9tGZ0fxNDuomZWwnF+EDIDsq5R/G8+wIBAw==\n-----END PUBLIC KEY-----";

/// The preamble of a key exchange.
#[derive(Debug, Clone, Copy, PartialEq, Eq, Structural)]
pub struct LocoHandshakeHeader {
    pub data_length: u32,
    pub rsa_encrypt_type: u32,
    pub aes_encrypt_type: u32,
}

/// The twelve bytes of a preamble.
pub open spec fn preamble_bytes(preamble: LocoHandshakeHeader) -> Seq<u8> {
    le_u32(preamble.data_length) + le_u32(preamble.rsa_encrypt_type) + le_u32(
        preamble.aes_encrypt_type,
    )
}

/// The preamble that the first twelve bytes of `bytes` hold.
pub open spec fn preamble_at(bytes: Seq<u8>) -> LocoHandshakeHeader
    recommends
        bytes.len() >= PREAMBLE_LEN,
{
    LocoHandshakeHeader {
        data_length: from_le_u32(bytes.subrange(0, 4)),
        rsa_encrypt_type: from_le_u32(bytes.subrange(4, 8)),
        aes_encrypt_type: from_le_u32(bytes.subrange(8, 12)),
    }
}

/// The preamble in front of an encrypted key of `data_length` bytes.
pub open spec fn preamble_for(data_length: u32) -> LocoHandshakeHeader {
    LocoHandshakeHeader {
        data_length,
        rsa_encrypt_type: RSA_ENCRYPT_TYPE,
        aes_encrypt_type: AES_ENCRYPT_TYPE,
    }
}

/// The message that opens a session: the preamble, then the encrypted key.
/// There is none for a key blob whose length does not fit the length field.
pub open spec fn handshake_bytes(encrypted_key: Seq<u8>) -> Result<Seq<u8>, LocoError> {
    if encrypted_key.len() > u32::MAX {
        Err(LocoError::PayloadTooLong)
    } else {
        Ok(preamble_bytes(preamble_for(encrypted_key.len() as u32)) + encrypted_key)
    }
}

/// Whether a public key can be read from a PEM text: the text holds a PEM
/// block, and the block holds an RSA public key.
pub open spec fn key_loads(pem: Seq<char>) -> bool {
    match pem_contents(pem) {
        Some(der) => is_public_key_der(der),
        None => false,
    }
}

/// A preamble takes twelve bytes, and reading them gives it back.
pub proof fn lemma_preamble_round_trip(preamble: LocoHandshakeHeader, rest: Seq<u8>)
    ensures
        preamble_bytes(preamble).len() == PREAMBLE_LEN,
        preamble_at(preamble_bytes(preamble) + rest) == preamble,
{
    let bytes = preamble_bytes(preamble) + rest;
    lemma_le_u32_decode_encode(preamble.data_length);
    lemma_le_u32_decode_encode(preamble.rsa_encrypt_type);
    lemma_le_u32_decode_encode(preamble.aes_encrypt_type);
    assert(bytes.subrange(0, 4) =~= le_u32(preamble.data_length));
    assert(bytes.subrange(4, 8) =~= le_u32(preamble.rsa_encrypt_type));
    assert(bytes.subrange(8, 12) =~= le_u32(preamble.aes_encrypt_type));
}

/// In every opening message the scheme identifiers are 14 and 2, the length
/// field is the length of the encrypted key, and the encrypted key follows
/// the preamble unchanged.
pub proof fn lemma_handshake_layout(encrypted_key: Seq<u8>)
    requires
        encrypted_key.len() <= u32::MAX,
    ensures
        handshake_bytes(encrypted_key) is Ok,
        handshake_bytes(encrypted_key).unwrap().len() == PREAMBLE_LEN + encrypted_key.len(),
        preamble_at(handshake_bytes(encrypted_key).unwrap()).rsa_encrypt_type == 14,
        preamble_at(handshake_bytes(encrypted_key).unwrap()).aes_encrypt_type == 2,
        preamble_at(handshake_bytes(encrypted_key).unwrap()).data_length == encrypted_key.len(),
        handshake_bytes(encrypted_key).unwrap().subrange(
            PREAMBLE_LEN as int,
            PREAMBLE_LEN + encrypted_key.len(),
        ) == encrypted_key,
{
    let preamble = preamble_for(encrypted_key.len() as u32);
    lemma_preamble_round_trip(preamble, encrypted_key);
    let bytes = handshake_bytes(encrypted_key).unwrap();
    assert(bytes.subrange(PREAMBLE_LEN as int, PREAMBLE_LEN + encrypted_key.len())
        =~= encrypted_key);
}

impl LocoHandshakeHeader {
    /// The preamble in front of an encrypted key of `data_length` bytes.
    pub fn new(data_length: u32) -> (preamble: LocoHandshakeHeader)
        ensures
            preamble == preamble_for(data_length),
    {
        LocoHandshakeHeader {
            data_length,
            rsa_encrypt_type: RSA_ENCRYPT_TYPE,
            aes_encrypt_type: AES_ENCRYPT_TYPE,
        }
    }

    /// The twelve bytes of this preamble.
    pub fn to_bytes(&self) -> (bytes: Vec<u8>)
        ensures
            bytes@ == preamble_bytes(*self),
            bytes@.len() == PREAMBLE_LEN,
    {
        let mut bytes: Vec<u8> = Vec::with_capacity(PREAMBLE_LEN);
        put_u32_le(&mut bytes, self.data_length);
        put_u32_le(&mut bytes, self.rsa_encrypt_type);
        put_u32_le(&mut bytes, self.aes_encrypt_type);
        bytes
    }

    /// Reads a preamble from the first twelve bytes of `buf`; what follows
    /// them is not looked at. Fewer bytes are refused.
    pub fn from_bytes(buf: &[u8]) -> (r: Result<LocoHandshakeHeader, LocoError>)
        ensures
            r == if buf@.len() < PREAMBLE_LEN {
                Err::<LocoHandshakeHeader, LocoError>(LocoError::PreambleTooShort)
            } else {
                Ok::<LocoHandshakeHeader, LocoError>(preamble_at(buf@))
            },
    {
        if buf.len() < PREAMBLE_LEN {
            return Err(LocoError::PreambleTooShort);
        }
        Ok(
            LocoHandshakeHeader {
                data_length: get_u32_le(buf, 0),
                rsa_encrypt_type: get_u32_le(buf, 4),
                aes_encrypt_type: get_u32_le(buf, 8),
            },
        )
    }
}

/// The opening message around an encrypted session key.
pub fn handshake_message(encrypted_key: &[u8]) -> (r: Result<Vec<u8>, LocoError>)
    ensures
        result_view(r) == handshake_bytes(encrypted_key@),
{
    if encrypted_key.len() > u32::MAX as usize {
        return Err(LocoError::PayloadTooLong);
    }
    let mut bytes = LocoHandshakeHeader::new(encrypted_key.len() as u32).to_bytes();
    put_bytes(&mut bytes, encrypted_key);
    Ok(bytes)
}

/// The key as the DER reader returned it, or the failure to load it.
pub fn public_key_of_reading(read: Result<rsa::RsaPublicKey, rsa::pkcs8::spki::Error>) -> (r:
    Result<rsa::RsaPublicKey, LocoError>)
    ensures
        match read {
            Ok(key) => r == Ok::<rsa::RsaPublicKey, LocoError>(key),
            Err(_) => r == Err::<rsa::RsaPublicKey, LocoError>(LocoError::KeyLoad),
        },
{
    match read {
        Ok(key) => Ok(key),
        Err(_) => Err(LocoError::KeyLoad),
    }
}

/// Reads the service's public key from a PEM text.
pub fn load_public_key(pem: &str) -> (r: Result<rsa::RsaPublicKey, LocoError>)
    ensures
        r is Ok <==> key_loads(pem@),
        r is Err ==> r == Err::<rsa::RsaPublicKey, LocoError>(LocoError::KeyLoad),
{
    match pem_parse(pem) {
        Ok(der) => public_key_of_reading(rsa_public_key_from_der(der.as_slice())),
        Err(_) => Err(LocoError::KeyLoad),
    }
}

/// The opening message for a session key as the asymmetric cipher returned
/// it.
pub fn handshake_of_encryption(encrypted: Result<Vec<u8>, rsa::errors::Error>) -> (r: Result<
    Vec<u8>,
    LocoError,
>)
    ensures
        result_view(r) == (match encrypted {
            Ok(blob) => handshake_bytes(blob@),
            Err(_) => Err(LocoError::KeyEncryption),
        }),
{
    match encrypted {
        Ok(blob) => handshake_message(blob.as_slice()),
        Err(_) => Err(LocoError::KeyEncryption),
    }
}

/// Whether `bytes` are an opening message: a preamble with the two scheme
/// identifiers and the length of what follows it.
pub open spec fn is_handshake(bytes: Seq<u8>) -> bool {
    bytes.len() >= PREAMBLE_LEN && handshake_bytes(
        bytes.subrange(PREAMBLE_LEN as int, bytes.len() as int),
    ) == Ok::<Seq<u8>, LocoError>(bytes)
}

/// Builds the message that opens a session under `session_key`: the key is
/// encrypted under the public key in `pem` with RSA-OAEP over SHA-1 and sent
/// behind its preamble. The padding is random, so two calls give different
/// messages; each is an opening message.
pub fn key_exchange(pem: &str, session_key: &[u8; 16]) -> (r: Result<Vec<u8>, LocoError>)
    ensures
        match r {
            Ok(bytes) => key_loads(pem@) && is_handshake(bytes@),
            Err(e) => if key_loads(pem@) {
                e == LocoError::KeyEncryption || e == LocoError::PayloadTooLong
            } else {
                e == LocoError::KeyLoad
            },
        },
{
    let key = match load_public_key(pem) {
        Ok(key) => key,
        Err(e) => { return Err(e); },
    };
    let encrypted = rsa_oaep_sha1_encrypt(&key, session_key.as_slice());
    let r = handshake_of_encryption(encrypted);
    proof {
        if r is Ok {
            lemma_handshake_layout(encrypted.unwrap()@);
            assert(r.unwrap()@.subrange(PREAMBLE_LEN as int, r.unwrap()@.len() as int)
                =~= encrypted.unwrap()@);
        }
    }
    r
}

} // verus!
