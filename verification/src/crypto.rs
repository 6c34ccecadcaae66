//! The cryptographic primitives the protocol rests on. Nothing in this file
//! is proved: each function hands its arguments to a library and states what
//! that library documents.

use rand::RngCore;
use rsa::pkcs8::DecodePublicKey;
use rsa::PublicKey;
use vstd::prelude::*;

verus! {

/// Length in bytes of a session key, of an initialization vector and of a
/// cipher block.
pub const BLOCK_LEN: usize = 16;

#[verifier::external_type_specification]
#[verifier::external_body]
pub struct ExRsaPublicKey(rsa::RsaPublicKey);

#[verifier::external_type_specification]
#[verifier::external_body]
pub struct ExRsaError(rsa::errors::Error);

#[verifier::external_type_specification]
#[verifier::external_body]
pub struct ExSpkiError(rsa::pkcs8::spki::Error);

#[verifier::external_type_specification]
#[verifier::external_body]
pub struct ExPemError(pem::PemError);

/// What `pem::parse` makes of a text: the binary contents of its first
/// PEM block, or nothing where the text holds no well-formed block.
pub uninterp spec fn pem_contents(text: Seq<char>) -> Option<Seq<u8>>;

/// Whether `RsaPublicKey::from_public_key_der` reads `der` as a public key.
pub uninterp spec fn is_public_key_der(der: Seq<u8>) -> bool;

/// What `libaes::Cipher::cfb128_encrypt` returns under a 128-bit key.
pub uninterp spec fn cfb128_encrypted(key: Seq<u8>, iv: Seq<u8>, data: Seq<u8>) -> Seq<u8>;

/// What `libaes::Cipher::cfb128_decrypt` returns under a 128-bit key.
pub uninterp spec fn cfb128_decrypted(key: Seq<u8>, iv: Seq<u8>, data: Seq<u8>) -> Seq<u8>;

/// Sixteen bytes from `rand::thread_rng`. Nothing is claimed of them: two
/// calls may return anything.
#[verifier::external_body]
pub(crate) fn random_block() -> (block: [u8; 16]) {
    let mut block = [0u8; 16];
    rand::thread_rng().fill_bytes(&mut block);
    block
}

/// `pem::parse`, keeping the contents of the block and dropping its tag.
/// The result is the one the text determines.
#[verifier::external_body]
pub(crate) fn pem_parse(text: &str) -> (r: Result<Vec<u8>, pem::PemError>)
    ensures
        match r {
            Ok(der) => pem_contents(text@) == Some(der@),
            Err(_) => pem_contents(text@) is None,
        },
{
    match pem::parse(text) {
        Ok(block) => Ok(block.contents),
        Err(e) => Err(e),
    }
}

/// `RsaPublicKey::from_public_key_der`: reads a DER-encoded
/// SubjectPublicKeyInfo. Whether it succeeds is for the bytes alone to
/// decide; nothing is claimed of the key it returns.
#[verifier::external_body]
pub(crate) fn rsa_public_key_from_der(der: &[u8]) -> (r: Result<
    rsa::RsaPublicKey,
    rsa::pkcs8::spki::Error,
>)
    ensures
        r is Ok <==> is_public_key_der(der@),
{
    rsa::RsaPublicKey::from_public_key_der(der)
}

/// `RsaPublicKey::encrypt` with OAEP padding over SHA-1 and randomness from
/// `rand::thread_rng`. The padding is random, so nothing is claimed of the
/// bytes it returns.
#[verifier::external_body]
pub(crate) fn rsa_oaep_sha1_encrypt(key: &rsa::RsaPublicKey, message: &[u8]) -> (r: Result<
    Vec<u8>,
    rsa::errors::Error,
>) {
    let padding = rsa::PaddingScheme::new_oaep::<sha1::Sha1>();
    key.encrypt(&mut rand::thread_rng(), padding, message)
}

/// `Cipher::new_128(key).cfb128_encrypt(iv, data)`: AES-128 in CFB mode with
/// 128-bit segments. The library adds no padding, so the ciphertext is as
/// long as the data, and its own `cfb128_decrypt` under the same key and
/// vector gives the data back.
#[verifier::external_body]
pub(crate) fn aes128_cfb128_encrypt(key: &[u8; 16], iv: &[u8; 16], data: &[u8]) -> (out: Vec<u8>)
    ensures
        out@ == cfb128_encrypted(key@, iv@, data@),
        out@.len() == data@.len(),
        cfb128_decrypted(key@, iv@, out@) == data@,
{
    libaes::Cipher::new_128(key).cfb128_encrypt(iv, data)
}

/// `Cipher::new_128(key).cfb128_decrypt(iv, data)`: the inverse of
/// `aes128_cfb128_encrypt`. The plaintext is as long as the data.
#[verifier::external_body]
pub(crate) fn aes128_cfb128_decrypt(key: &[u8; 16], iv: &[u8; 16], data: &[u8]) -> (out: Vec<u8>)
    ensures
        out@ == cfb128_decrypted(key@, iv@, data@),
        out@.len() == data@.len(),
{
    libaes::Cipher::new_128(key).cfb128_decrypt(iv, data)
}

} // verus!
