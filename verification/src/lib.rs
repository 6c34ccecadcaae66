//! Client side of the LOCO packet protocol: framing of packets, the key
//! exchange that opens an encrypted session, and the envelope that protects
//! each packet of such a session.
//!
//! Every function here is verified against a model of the wire format given
//! as sequences of bytes. Calls into cryptography and into the document codec
//! go through small trusted functions whose contracts are the only unproved
//! statements of the crate.

pub mod crypto;
pub mod document;
pub mod endian;
pub mod error;
pub mod handshake;
pub mod header;
pub mod packet;
pub mod secure;
pub mod session;
