//! The secure channel: every packet of an encrypted session travels in an
//! envelope.
//!
//! | bytes  | field                                                 |
//! |--------|-------------------------------------------------------|
//! | 0..4   | length of what follows this field, little-endian      |
//! | 4..20  | initialization vector                                 |
//! | 20..   | the packet, under AES-128 in CFB mode with the vector |
//!
//! The cipher adds no padding, so the length field is the length of the
//! ciphertext plus the sixteen bytes of the vector.

use crate::crypto::{
    aes128_cfb128_decrypt, aes128_cfb128_encrypt, cfb128_decrypted, cfb128_encrypted,
    random_block, BLOCK_LEN,
};
use crate::endian::{
    from_le_u32, get_u32_le, le_u32, lemma_le_u32_decode_encode, put_bytes, put_u32_le,
};
use crate::error::{result_view, ErrorClass, LocoError};
use vstd::prelude::*;
use vstd::slice::slice_subrange;

verus! {

/// Length in bytes of an envelope header: the length field and the vector.
pub const ENVELOPE_HEADER_LEN: usize = 20;

/// The header of an envelope.
#[derive(Debug, Clone, Copy, PartialEq, Eq)]
pub struct LocoSecureHeader {
    pub data_length: u32,
    pub iv_key: [u8; 16],
}

/// What a `LocoSecureHeader` stands for.
pub struct SecureHeaderModel {
    pub data_length: u32,
    pub iv_key: Seq<u8>,
}

impl View for LocoSecureHeader {
    type V = SecureHeaderModel;

    open spec fn view(&self) -> SecureHeaderModel {
        SecureHeaderModel { data_length: self.data_length, iv_key: self.iv_key@ }
    }
}

/// The twenty bytes of an envelope header.
pub open spec fn secure_header_bytes(header: SecureHeaderModel) -> Seq<u8> {
    le_u32(header.data_length) + header.iv_key
}

/// The envelope header that the first twenty bytes of `bytes` hold.
pub open spec fn secure_header_at(bytes: Seq<u8>) -> SecureHeaderModel
    recommends
        bytes.len() >= ENVELOPE_HEADER_LEN,
{
    SecureHeaderModel {
        data_length: from_le_u32(bytes.subrange(0, 4)),
        iv_key: bytes.subrange(4, 20),
    }
}

/// How many bytes of ciphertext follow an envelope header that declares
/// `data_length`: all but the vector's sixteen. A smaller declared length
/// has no room for the vector.
pub open spec fn ciphertext_len_of(data_length: u32) -> Result<nat, LocoError> {
    if data_length < BLOCK_LEN {
        Err(LocoError::EnvelopeTooShort)
    } else {
        Ok((data_length - BLOCK_LEN) as nat)
    }
}

/// The envelope around `ciphertext` that was made with the vector `iv`.
pub open spec fn envelope_bytes(iv: Seq<u8>, ciphertext: Seq<u8>) -> Result<Seq<u8>, LocoError> {
    if ciphertext.len() + BLOCK_LEN > u32::MAX {
        Err(LocoError::PayloadTooLong)
    } else {
        Ok(
            secure_header_bytes(
                SecureHeaderModel {
                    data_length: (ciphertext.len() + BLOCK_LEN) as u32,
                    iv_key: iv,
                },
            ) + ciphertext,
        )
    }
}

/// The envelope that protects `plaintext` under `key` with the vector `iv`.
pub open spec fn sealed(key: Seq<u8>, iv: Seq<u8>, plaintext: Seq<u8>) -> Result<
    Seq<u8>,
    LocoError,
> {
    if plaintext.len() + BLOCK_LEN > u32::MAX {
        Err(LocoError::PayloadTooLong)
    } else {
        envelope_bytes(iv, cfb128_encrypted(key, iv, plaintext))
    }
}

/// The plaintext of the ciphertext that came behind an envelope header, or
/// why there is none: the ciphertext must have the length the header
/// declares.
pub open spec fn opened_parts(key: Seq<u8>, header: SecureHeaderModel, ciphertext: Seq<u8>)
    -> Result<Seq<u8>, LocoError> {
    match ciphertext_len_of(header.data_length) {
        Err(e) => Err(e),
        Ok(expected) => if ciphertext.len() != expected {
            Err(LocoError::EnvelopeLengthMismatch)
        } else {
            Ok(cfb128_decrypted(key, header.iv_key, ciphertext))
        },
    }
}

/// The plaintext that a whole envelope holds under `key`, or why it holds
/// none.
pub open spec fn opened(key: Seq<u8>, envelope: Seq<u8>) -> Result<Seq<u8>, LocoError> {
    if envelope.len() < ENVELOPE_HEADER_LEN {
        Err(LocoError::EnvelopeTooShort)
    } else {
        opened_parts(
            key,
            secure_header_at(envelope),
            envelope.subrange(ENVELOPE_HEADER_LEN as int, envelope.len() as int),
        )
    }
}

/// An envelope header with a vector of sixteen bytes takes twenty bytes, and
/// reading them gives the header back.
pub proof fn lemma_secure_header_round_trip(header: SecureHeaderModel, rest: Seq<u8>)
    requires
        header.iv_key.len() == BLOCK_LEN,
    ensures
        secure_header_bytes(header).len() == ENVELOPE_HEADER_LEN,
        secure_header_at(secure_header_bytes(header) + rest) == header,
{
    let bytes = secure_header_bytes(header) + rest;
    lemma_le_u32_decode_encode(header.data_length);
    assert(bytes.subrange(0, 4) =~= le_u32(header.data_length));
    assert(bytes.subrange(4, 20) =~= header.iv_key);
}

/// In every envelope the length field is the length of the ciphertext plus
/// sixteen, and the vector and the ciphertext stand behind it unchanged.
pub proof fn lemma_envelope_layout(iv: Seq<u8>, ciphertext: Seq<u8>)
    requires
        iv.len() == BLOCK_LEN,
        ciphertext.len() + BLOCK_LEN <= u32::MAX,
    ensures
        envelope_bytes(iv, ciphertext) is Ok,
        envelope_bytes(iv, ciphertext).unwrap().len() == ENVELOPE_HEADER_LEN + ciphertext.len(),
        secure_header_at(envelope_bytes(iv, ciphertext).unwrap()).data_length == ciphertext.len()
            + 16,
        secure_header_at(envelope_bytes(iv, ciphertext).unwrap()).iv_key == iv,
        envelope_bytes(iv, ciphertext).unwrap().subrange(
            ENVELOPE_HEADER_LEN as int,
            ENVELOPE_HEADER_LEN + ciphertext.len(),
        ) == ciphertext,
{
    let header = SecureHeaderModel {
        data_length: (ciphertext.len() + BLOCK_LEN) as u32,
        iv_key: iv,
    };
    lemma_secure_header_round_trip(header, ciphertext);
    let bytes = envelope_bytes(iv, ciphertext).unwrap();
    assert(bytes.subrange(ENVELOPE_HEADER_LEN as int, ENVELOPE_HEADER_LEN + ciphertext.len())
        =~= ciphertext);
}

/// An envelope is refused exactly when it is shorter than its header or its
/// length field is not the length of the ciphertext behind the header plus
/// sixteen, and every such refusal is a framing error.
pub proof fn lemma_length_mismatch_is_framing(key: Seq<u8>, envelope: Seq<u8>)
    ensures
        opened(key, envelope) is Err <==> envelope.len() < ENVELOPE_HEADER_LEN
            || secure_header_at(envelope).data_length != envelope.len() - ENVELOPE_HEADER_LEN
            + BLOCK_LEN,
        opened(key, envelope) matches Err(e) ==> e.class_of() == ErrorClass::Framing,
{
}

/// Envelopes of one plaintext under one key that were made with different
/// vectors differ: each carries its vector in the clear.
pub proof fn lemma_fresh_vector_fresh_envelope(
    key: Seq<u8>,
    iv: Seq<u8>,
    other_iv: Seq<u8>,
    plaintext: Seq<u8>,
)
    requires
        iv.len() == BLOCK_LEN,
        other_iv.len() == BLOCK_LEN,
        iv != other_iv,
        sealed(key, iv, plaintext) is Ok,
        sealed(key, other_iv, plaintext) is Ok,
    ensures
        sealed(key, iv, plaintext) != sealed(key, other_iv, plaintext),
{
    lemma_envelope_layout(iv, cfb128_encrypted(key, iv, plaintext));
    lemma_envelope_layout(other_iv, cfb128_encrypted(key, other_iv, plaintext));
}

impl LocoSecureHeader {
    /// The twenty bytes of this header.
    pub fn to_bytes(&self) -> (bytes: Vec<u8>)
        ensures
            bytes@ == secure_header_bytes(self@),
            bytes@.len() == ENVELOPE_HEADER_LEN,
    {
        let mut bytes: Vec<u8> = Vec::with_capacity(ENVELOPE_HEADER_LEN);
        put_u32_le(&mut bytes, self.data_length);
        put_bytes(&mut bytes, self.iv_key.as_slice());
        bytes
    }

    /// Reads an envelope header from the first twenty bytes of `buf`; what
    /// follows them is not looked at. Fewer bytes are refused.
    pub fn from_bytes(buf: &[u8]) -> (r: Result<LocoSecureHeader, LocoError>)
        ensures
            result_view(r) == if buf@.len() < ENVELOPE_HEADER_LEN {
                Err::<SecureHeaderModel, LocoError>(LocoError::EnvelopeTooShort)
            } else {
                Ok::<SecureHeaderModel, LocoError>(secure_header_at(buf@))
            },
    {
        if buf.len() < ENVELOPE_HEADER_LEN {
            return Err(LocoError::EnvelopeTooShort);
        }
        let mut iv_key: [u8; 16] = [0u8; 16];
        let mut i: usize = 0;
        while i < BLOCK_LEN
            invariant
                i <= BLOCK_LEN,
                buf@.len() >= ENVELOPE_HEADER_LEN,
                forall|j: int| 0 <= j < i ==> iv_key@[j] == buf@[4 + j],
            decreases BLOCK_LEN - i,
        {
            iv_key[i] = buf[4 + i];
            i += 1;
        }
        assert(iv_key@ =~= buf@.subrange(4, 20));
        Ok(LocoSecureHeader { data_length: get_u32_le(buf, 0), iv_key })
    }

    /// How many bytes of ciphertext follow this header.
    pub fn ciphertext_len(&self) -> (r: Result<usize, LocoError>)
        ensures
            match ciphertext_len_of(self.data_length) {
                Ok(n) => r == Ok::<usize, LocoError>(n as usize) && n <= usize::MAX,
                Err(e) => r == Err::<usize, LocoError>(e),
            },
    {
        if self.data_length < BLOCK_LEN as u32 {
            Err(LocoError::EnvelopeTooShort)
        } else {
            Ok((self.data_length - BLOCK_LEN as u32) as usize)
        }
    }
}

/// Protects `plaintext` under `key` with the vector `iv`. What `open` makes
/// of the envelope under the same key is the plaintext again.
pub fn seal(key: &[u8; 16], iv: &[u8; 16], plaintext: &[u8]) -> (r: Result<Vec<u8>, LocoError>)
    ensures
        result_view(r) == sealed(key@, iv@, plaintext@),
        r is Ok <==> plaintext@.len() + BLOCK_LEN <= u32::MAX,
        r matches Ok(envelope) ==> {
            &&& envelope@.len() == ENVELOPE_HEADER_LEN + plaintext@.len()
            &&& secure_header_at(envelope@).data_length == envelope@.len() - ENVELOPE_HEADER_LEN
                + BLOCK_LEN
            &&& secure_header_at(envelope@).iv_key == iv@
            &&& opened(key@, envelope@) == Ok::<Seq<u8>, LocoError>(plaintext@)
        },
{
    if plaintext.len() > (u32::MAX as usize) - BLOCK_LEN {
        return Err(LocoError::PayloadTooLong);
    }
    let ciphertext = aes128_cfb128_encrypt(key, iv, plaintext);
    let header = LocoSecureHeader {
        data_length: (ciphertext.len() + BLOCK_LEN) as u32,
        iv_key: *iv,
    };
    let mut envelope = header.to_bytes();
    put_bytes(&mut envelope, ciphertext.as_slice());
    proof {
        lemma_envelope_layout(iv@, ciphertext@);
    }
    Ok(envelope)
}

/// Protects `plaintext` under `key` with a vector drawn for this envelope.
/// Which vector is drawn is not known beforehand; whichever it is, the
/// envelope carries it, and `open` under the same key gives the plaintext
/// back.
pub fn encrypt(key: &[u8; 16], plaintext: &[u8]) -> (r: Result<Vec<u8>, LocoError>)
    ensures
        r is Ok <==> plaintext@.len() + BLOCK_LEN <= u32::MAX,
        r is Err ==> r == Err::<Vec<u8>, LocoError>(LocoError::PayloadTooLong),
        r matches Ok(envelope) ==> {
            &&& envelope@.len() == ENVELOPE_HEADER_LEN + plaintext@.len()
            &&& sealed(key@, secure_header_at(envelope@).iv_key, plaintext@) == Ok::<
                Seq<u8>,
                LocoError,
            >(envelope@)
            &&& secure_header_at(envelope@).data_length == envelope@.len() - ENVELOPE_HEADER_LEN
                + BLOCK_LEN
            &&& opened(key@, envelope@) == Ok::<Seq<u8>, LocoError>(plaintext@)
        },
{
    let iv = random_block();
    seal(key, &iv, plaintext)
}

/// Decrypts the ciphertext that came behind an envelope header. The
/// ciphertext must have the length the header declares.
pub fn open_parts(key: &[u8; 16], header: &LocoSecureHeader, ciphertext: &[u8]) -> (r: Result<
    Vec<u8>,
    LocoError,
>)
    ensures
        result_view(r) == opened_parts(key@, header@, ciphertext@),
{
    let expected: usize = match header.ciphertext_len() {
        Ok(expected) => expected,
        Err(e) => { return Err(e); },
    };
    if ciphertext.len() != expected {
        return Err(LocoError::EnvelopeLengthMismatch);
    }
    Ok(aes128_cfb128_decrypt(key, &header.iv_key, ciphertext))
}

/// Decrypts a whole envelope: its header of twenty bytes and the ciphertext
/// behind it.
pub fn decrypt(key: &[u8; 16], envelope: &[u8]) -> (r: Result<Vec<u8>, LocoError>)
    ensures
        result_view(r) == opened(key@, envelope@),
{
    let header = match LocoSecureHeader::from_bytes(envelope) {
        Ok(header) => header,
        Err(e) => { return Err(e); },
    };
    open_parts(key, &header, slice_subrange(envelope, ENVELOPE_HEADER_LEN, envelope.len()))
}

} // verus!
