//! A packet: a header of 22 bytes and, behind it, a body of as many bytes
//! as the header announces. The body is a document.

use crate::document::{bson_from_slice, bson_to_vec, encoded_document, is_document};
use crate::endian::put_bytes;
use crate::error::{result_view, LocoError};
use crate::header::{
    encode_header, encoded_header, lemma_header_round_trip, lemma_raw_header_round_trip,
    parse_loco_header, parsed_header, raw_header_at, raw_header_of, RequestHeaderModel,
    RequestLocoHeader, ResponseHeaderModel, ResponseLocoHeader, HEADER_LEN, METHOD_NAME_LEN,
};
use vstd::prelude::*;
use vstd::slice::slice_subrange;
use vstd::utf8::encode_utf8;

verus! {

/// A reply: its header, and its body as a value of the caller's choosing.
#[derive(Debug)]
pub struct ResponseLocoPacket<T> {
    pub header: ResponseLocoHeader,
    pub body: T,
}

/// The bytes of the packet that carries `body` under `header`. The header's
/// length field is the length of the body. There is no such packet where the
/// method name does not fit its field or the body's length does not fit the
/// length field.
pub open spec fn packet_bytes(header: RequestHeaderModel, body: Seq<u8>) -> Result<
    Seq<u8>,
    LocoError,
> {
    if encode_utf8(header.method_name).len() > METHOD_NAME_LEN {
        Err(LocoError::MethodNameTooLong)
    } else if body.len() > u32::MAX {
        Err(LocoError::BodyTooLong)
    } else {
        Ok(encoded_header(header, body.len() as u32).unwrap() + body)
    }
}

/// The bytes of the packet that carries a BSON value under `header`. A
/// method name that does not fit is reported before a value that cannot be
/// encoded.
pub open spec fn packet_of(header: RequestHeaderModel, body: bson::Bson) -> Result<
    Seq<u8>,
    LocoError,
> {
    if encode_utf8(header.method_name).len() > METHOD_NAME_LEN {
        Err(LocoError::MethodNameTooLong)
    } else {
        match encoded_document(body) {
            None => Err(LocoError::DocumentEncode),
            Some(bytes) => packet_bytes(header, bytes),
        }
    }
}

/// The header of the reply that a header buffer and a body buffer hold, or
/// why they hold none. The body must have the length that the header
/// announces, and must be a document.
pub open spec fn parsed_packet_header(header_buffer: Seq<u8>, data_buffer: Seq<u8>) -> Result<
    ResponseHeaderModel,
    LocoError,
> {
    match parsed_header(header_buffer) {
        Err(e) => Err(e),
        Ok(header) => if data_buffer.len() != header.body_length {
            Err(LocoError::BodyLengthMismatch)
        } else if !is_document(data_buffer) {
            Err(LocoError::DocumentDecode)
        } else {
            Ok(header)
        },
    }
}

/// The header of the reply that a whole packet in one buffer holds: the
/// first 22 bytes are its header, the rest is its body.
pub open spec fn parsed_whole_packet_header(bytes: Seq<u8>) -> Result<
    ResponseHeaderModel,
    LocoError,
> {
    if bytes.len() < HEADER_LEN {
        Err(LocoError::HeaderTooShort)
    } else {
        parsed_packet_header(
            bytes.subrange(0, HEADER_LEN as int),
            bytes.subrange(HEADER_LEN as int, bytes.len() as int),
        )
    }
}

/// The header of a reply, or the failure to read one.
pub open spec fn header_of<T>(r: Result<ResponseLocoPacket<T>, LocoError>) -> Result<
    ResponseHeaderModel,
    LocoError,
> {
    match r {
        Ok(packet) => Ok(packet.header@),
        Err(e) => Err(e),
    }
}

/// A packet is 22 bytes longer than its body, its header announces the
/// length of the body, and the body stands behind the header unchanged.
pub proof fn lemma_packet_layout(header: RequestHeaderModel, body: Seq<u8>)
    requires
        packet_bytes(header, body) is Ok,
    ensures
        packet_bytes(header, body).unwrap().len() == HEADER_LEN + body.len(),
        raw_header_at(packet_bytes(header, body).unwrap()).body_length == body.len(),
        packet_bytes(header, body).unwrap().subrange(
            HEADER_LEN as int,
            HEADER_LEN + body.len(),
        ) == body,
{
    let raw = raw_header_of(header, body.len() as u32).unwrap();
    lemma_raw_header_round_trip(raw, body);
    let bytes = packet_bytes(header, body).unwrap();
    assert(bytes.subrange(HEADER_LEN as int, HEADER_LEN + body.len()) =~= body);
}

/// A packet around a document is read back as a reply under the header it
/// was built with, and that header announces the length of the document.
/// The one exception is a method name that ends in NUL.
pub proof fn lemma_packet_round_trip(header: RequestHeaderModel, body: Seq<u8>)
    requires
        packet_bytes(header, body) is Ok,
        header.method_name.len() == 0 || header.method_name.last() != '\0',
        is_document(body),
    ensures
        parsed_whole_packet_header(packet_bytes(header, body).unwrap()) == Ok::<
            ResponseHeaderModel,
            LocoError,
        >(
            ResponseHeaderModel {
                packet_id: header.packet_id,
                status_code: header.status_code,
                method_name: header.method_name,
                body_type: header.body_type,
                body_length: body.len() as u32,
            },
        ),
{
    let bytes = packet_bytes(header, body).unwrap();
    let head = encoded_header(header, body.len() as u32).unwrap();
    lemma_header_round_trip(header, body.len() as u32, Seq::empty());
    assert(head + Seq::<u8>::empty() =~= head);
    assert(bytes.subrange(0, HEADER_LEN as int) =~= head);
    assert(bytes.subrange(HEADER_LEN as int, bytes.len() as int) =~= body);
}

/// Puts a header in front of an encoded body.
pub fn assemble_packet(header: RequestLocoHeader, body: &[u8]) -> (r: Result<Vec<u8>, LocoError>)
    ensures
        result_view(r) == packet_bytes(header@, body@),
{
    if header.method_name.as_str().as_bytes().len() > METHOD_NAME_LEN {
        return Err(LocoError::MethodNameTooLong);
    }
    if body.len() > u32::MAX as usize {
        return Err(LocoError::BodyTooLong);
    }
    match encode_header(header, body.len() as u32) {
        Ok(mut bytes) => {
            put_bytes(&mut bytes, body);
            Ok(bytes)
        },
        Err(e) => Err(e),
    }
}

/// The packet for a body as the document codec returned it. A method name
/// that does not fit is reported before a document that could not be
/// encoded.
pub fn packet_of_encoding(
    header: RequestLocoHeader,
    encoded: Result<Vec<u8>, bson::ser::Error>,
) -> (r: Result<Vec<u8>, LocoError>)
    ensures
        result_view(r) == (if encode_utf8(header@.method_name).len() > METHOD_NAME_LEN {
            Err(LocoError::MethodNameTooLong)
        } else {
            match encoded {
                Ok(body) => packet_bytes(header@, body@),
                Err(_) => Err(LocoError::DocumentEncode),
            }
        }),
{
    match encoded {
        Ok(body) => assemble_packet(header, body.as_slice()),
        Err(_) => if header.method_name.as_str().as_bytes().len() > METHOD_NAME_LEN {
            Err(LocoError::MethodNameTooLong)
        } else {
            Err(LocoError::DocumentEncode)
        },
    }
}

/// Encodes `body` as a document and puts `header` in front of it.
pub fn create_loco_packet(header: RequestLocoHeader, body: bson::Bson) -> (r: Result<
    Vec<u8>,
    LocoError,
>)
    ensures
        result_view(r) == packet_of(header@, body),
{
    let encoded = bson_to_vec(&body);
    packet_of_encoding(header, encoded)
}

/// The reply made of a header and of a body as the document codec returned
/// it: the document itself, or a value of the shape that the caller asked
/// the codec for.
pub fn packet_of_decoding<T>(header: ResponseLocoHeader, decoded: Result<T, bson::de::Error>) -> (r:
    Result<ResponseLocoPacket<T>, LocoError>)
    ensures
        match decoded {
            Ok(body) => r == Ok::<ResponseLocoPacket<T>, LocoError>(
                ResponseLocoPacket { header, body },
            ),
            Err(_) => r == Err::<ResponseLocoPacket<T>, LocoError>(LocoError::DocumentDecode),
        },
{
    match decoded {
        Ok(body) => Ok(ResponseLocoPacket { header, body }),
        Err(_) => Err(LocoError::DocumentDecode),
    }
}

/// Reads a reply from the bytes of its header and the bytes of its body.
/// The body of the reply is the document that the codec made of the body
/// bytes.
pub fn parse_loco_packet(header_buffer: &[u8], data_buffer: &[u8]) -> (r: Result<
    ResponseLocoPacket<bson::Document>,
    LocoError,
>)
    ensures
        header_of(r) == parsed_packet_header(header_buffer@, data_buffer@),
{
    let header = match parse_loco_header(header_buffer) {
        Ok(header) => header,
        Err(e) => { return Err(e); },
    };
    if data_buffer.len() != header.body_length as usize {
        return Err(LocoError::BodyLengthMismatch);
    }
    packet_of_decoding(header, bson_from_slice(data_buffer))
}

/// Reads a reply from one buffer: the first 22 bytes are its header, the
/// rest is its body.
pub fn parse_whole_packet(bytes: &[u8]) -> (r: Result<ResponseLocoPacket<bson::Document>, LocoError>)
    ensures
        header_of(r) == parsed_whole_packet_header(bytes@),
{
    if bytes.len() < HEADER_LEN {
        return Err(LocoError::HeaderTooShort);
    }
    parse_loco_packet(
        slice_subrange(bytes, 0, HEADER_LEN),
        slice_subrange(bytes, HEADER_LEN, bytes.len()),
    )
}

} // verus!
