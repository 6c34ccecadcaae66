//! The failures of the protocol layer.

use vstd::prelude::*;

verus! {

/// The family a failure belongs to. Every failure ends the connection it
/// happened on; the family says which layer noticed it.
#[derive(Debug, Clone, Copy, PartialEq, Eq, Structural)]
pub enum ErrorClass {
    /// Bytes that do not have the layout of the record they should hold.
    Framing,
    /// A body that the document codec refused.
    Codec,
    /// A key that could not be loaded or used.
    Cryptographic,
    /// The byte stream itself failed.
    Transport,
}

/// A failure of the protocol layer.
#[derive(Debug, Clone, Copy, PartialEq, Eq, Structural)]
pub enum LocoError {
    /// Fewer bytes than a packet header has.
    HeaderTooShort,
    /// Fewer bytes than the preamble of a key exchange has.
    PreambleTooShort,
    /// A method name of more than eleven bytes.
    MethodNameTooLong,
    /// A method-name field that is not UTF-8 text.
    MethodNameNotUtf8,
    /// A body whose length does not fit the header's length field.
    BodyTooLong,
    /// A body whose length is not the one its header announces.
    BodyLengthMismatch,
    /// Fewer bytes than an envelope header has, or a declared length that
    /// leaves no room for the initialization vector.
    EnvelopeTooShort,
    /// A plaintext or key blob whose length does not fit a length field.
    PayloadTooLong,
    /// Ciphertext whose length is not the one the envelope announces.
    EnvelopeLengthMismatch,
    /// An event that the connection's state does not allow.
    OutOfSequence,
    /// A document that could not be written as bytes.
    DocumentEncode,
    /// Bytes that are not a well-formed document.
    DocumentDecode,
    /// A public key that could not be read.
    KeyLoad,
    /// A session key that could not be encrypted.
    KeyEncryption,
    /// The byte stream failed under the connection.
    Transport,
}

/// A result seen through the view of its value.
pub open spec fn result_view<T: View, E>(r: Result<T, E>) -> Result<T::V, E> {
    match r {
        Ok(v) => Ok(v@),
        Err(e) => Err(e),
    }
}

impl LocoError {
    /// The family of this failure.
    pub open spec fn class_of(self) -> ErrorClass {
        match self {
            LocoError::HeaderTooShort
            | LocoError::PreambleTooShort
            | LocoError::MethodNameTooLong
            | LocoError::MethodNameNotUtf8
            | LocoError::BodyTooLong
            | LocoError::BodyLengthMismatch
            | LocoError::EnvelopeTooShort
            | LocoError::PayloadTooLong
            | LocoError::EnvelopeLengthMismatch
            | LocoError::OutOfSequence => ErrorClass::Framing,
            LocoError::DocumentEncode | LocoError::DocumentDecode => ErrorClass::Codec,
            LocoError::KeyLoad | LocoError::KeyEncryption => ErrorClass::Cryptographic,
            LocoError::Transport => ErrorClass::Transport,
        }
    }

    /// The family of this failure.
    pub fn class(&self) -> (c: ErrorClass)
        ensures
            c == self.class_of(),
    {
        match self {
            LocoError::HeaderTooShort
            | LocoError::PreambleTooShort
            | LocoError::MethodNameTooLong
            | LocoError::MethodNameNotUtf8
            | LocoError::BodyTooLong
            | LocoError::BodyLengthMismatch
            | LocoError::EnvelopeTooShort
            | LocoError::PayloadTooLong
            | LocoError::EnvelopeLengthMismatch
            | LocoError::OutOfSequence => ErrorClass::Framing,
            LocoError::DocumentEncode | LocoError::DocumentDecode => ErrorClass::Codec,
            LocoError::KeyLoad | LocoError::KeyEncryption => ErrorClass::Cryptographic,
            LocoError::Transport => ErrorClass::Transport,
        }
    }
}

} // verus!
