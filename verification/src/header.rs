//! The packet header: a record of 22 bytes in front of every packet body.
//!
//! | bytes  | field                                   |
//! |--------|-----------------------------------------|
//! | 0..4   | packet id, little-endian                |
//! | 4..6   | status code, little-endian              |
//! | 6..17  | method name, padded with zero bytes     |
//! | 17     | body type                               |
//! | 18..22 | body length in bytes, little-endian     |

use crate::endian::{
    from_le_u16, from_le_u32, get_u16_le, get_u32_le, le_u16, le_u32,
    lemma_le_u16_decode_encode, lemma_le_u16_encode_decode, lemma_le_u32_decode_encode,
    lemma_le_u32_encode_decode, put_bytes, put_u16_le, put_u32_le,
};
use crate::error::{result_view, LocoError};
use vstd::prelude::*;
use vstd::slice::{slice_subrange, slice_to_vec};
use vstd::utf8::{
    char_is_scalar, char_u32_cast, decode_utf8, encode_scalar, encode_utf8,
    encode_utf8_decode_utf8, encode_utf8_valid_utf8, has_width_1_encoding, is_ascii_chars,
    is_ascii_chars_encode_utf8, is_scalar, valid_utf8,
};

verus! {

/// Length in bytes of a packet header on the wire.
pub const HEADER_LEN: usize = 22;

/// Length in bytes of the method-name field.
pub const METHOD_NAME_LEN: usize = 11;

/// The header of a request, before its body's length is known.
#[derive(Debug, Clone, PartialEq, Eq)]
pub struct RequestLocoHeader {
    pub packet_id: u32,
    pub status_code: u16,
    pub method_name: String,
    pub body_type: u8,
}

/// A header as it stands on the wire: the method name is a field of eleven
/// bytes.
#[derive(Debug, Clone, Copy, PartialEq, Eq)]
pub struct RawLocoHeader {
    pub packet_id: u32,
    pub status_code: u16,
    pub method_name: [u8; 11],
    pub body_type: u8,
    pub body_length: u32,
}

/// The header of a reply, with the method name as text.
#[derive(Debug, Clone, PartialEq, Eq)]
pub struct ResponseLocoHeader {
    pub packet_id: u32,
    pub status_code: u16,
    pub method_name: String,
    pub body_type: u8,
    pub body_length: u32,
}

/// What a `RequestLocoHeader` stands for.
pub struct RequestHeaderModel {
    pub packet_id: u32,
    pub status_code: u16,
    pub method_name: Seq<char>,
    pub body_type: u8,
}

/// What a `RawLocoHeader` stands for.
pub struct RawHeaderModel {
    pub packet_id: u32,
    pub status_code: u16,
    pub method_name: Seq<u8>,
    pub body_type: u8,
    pub body_length: u32,
}

/// What a `ResponseLocoHeader` stands for.
pub struct ResponseHeaderModel {
    pub packet_id: u32,
    pub status_code: u16,
    pub method_name: Seq<char>,
    pub body_type: u8,
    pub body_length: u32,
}

impl View for RequestLocoHeader {
    type V = RequestHeaderModel;

    open spec fn view(&self) -> RequestHeaderModel {
        RequestHeaderModel {
            packet_id: self.packet_id,
            status_code: self.status_code,
            method_name: self.method_name@,
            body_type: self.body_type,
        }
    }
}

impl View for RawLocoHeader {
    type V = RawHeaderModel;

    open spec fn view(&self) -> RawHeaderModel {
        RawHeaderModel {
            packet_id: self.packet_id,
            status_code: self.status_code,
            method_name: self.method_name@,
            body_type: self.body_type,
            body_length: self.body_length,
        }
    }
}

impl View for ResponseLocoHeader {
    type V = ResponseHeaderModel;

    open spec fn view(&self) -> ResponseHeaderModel {
        ResponseHeaderModel {
            packet_id: self.packet_id,
            status_code: self.status_code,
            method_name: self.method_name@,
            body_type: self.body_type,
            body_length: self.body_length,
        }
    }
}

/// `name` followed by the zero bytes that fill the method-name field.
pub open spec fn padded_name(name: Seq<u8>) -> Seq<u8>
    recommends
        name.len() <= METHOD_NAME_LEN,
{
    Seq::new(
        METHOD_NAME_LEN as nat,
        |i: int|
            if i < name.len() {
                name[i]
            } else {
                0u8
            },
    )
}

/// `field` without the zero bytes at its end.
pub open spec fn trimmed_name(field: Seq<u8>) -> Seq<u8>
    decreases field.len(),
{
    if field.len() > 0 && field.last() == 0 {
        trimmed_name(field.drop_last())
    } else {
        field
    }
}

/// The wire header of a request whose body has `body_length` bytes: the
/// name's UTF-8 bytes padded to the field, unless they are too many.
pub open spec fn raw_header_of(header: RequestHeaderModel, body_length: u32) -> Result<
    RawHeaderModel,
    LocoError,
> {
    if encode_utf8(header.method_name).len() > METHOD_NAME_LEN {
        Err(LocoError::MethodNameTooLong)
    } else {
        Ok(
            RawHeaderModel {
                packet_id: header.packet_id,
                status_code: header.status_code,
                method_name: padded_name(encode_utf8(header.method_name)),
                body_type: header.body_type,
                body_length,
            },
        )
    }
}

/// The bytes of a wire header.
pub open spec fn raw_header_bytes(raw: RawHeaderModel) -> Seq<u8> {
    le_u32(raw.packet_id) + le_u16(raw.status_code) + raw.method_name + seq![raw.body_type]
        + le_u32(raw.body_length)
}

/// The wire header that the first 22 bytes of `bytes` hold.
pub open spec fn raw_header_at(bytes: Seq<u8>) -> RawHeaderModel
    recommends
        bytes.len() >= HEADER_LEN,
{
    RawHeaderModel {
        packet_id: from_le_u32(bytes.subrange(0, 4)),
        status_code: from_le_u16(bytes.subrange(4, 6)),
        method_name: bytes.subrange(6, 17),
        body_type: bytes[17],
        body_length: from_le_u32(bytes.subrange(18, 22)),
    }
}

/// The reply header that a wire header stands for: the name field without
/// its trailing zero bytes, read as UTF-8.
pub open spec fn response_header_of(raw: RawHeaderModel) -> Result<ResponseHeaderModel, LocoError> {
    let name = trimmed_name(raw.method_name);
    if valid_utf8(name) {
        Ok(
            ResponseHeaderModel {
                packet_id: raw.packet_id,
                status_code: raw.status_code,
                method_name: decode_utf8(name),
                body_type: raw.body_type,
                body_length: raw.body_length,
            },
        )
    } else {
        Err(LocoError::MethodNameNotUtf8)
    }
}

/// The 22 bytes that encode a request header in front of a body of
/// `body_length` bytes.
pub open spec fn encoded_header(header: RequestHeaderModel, body_length: u32) -> Result<
    Seq<u8>,
    LocoError,
> {
    match raw_header_of(header, body_length) {
        Ok(raw) => Ok(raw_header_bytes(raw)),
        Err(e) => Err(e),
    }
}

/// The reply header that `bytes` begin with.
pub open spec fn parsed_header(bytes: Seq<u8>) -> Result<ResponseHeaderModel, LocoError> {
    if bytes.len() < HEADER_LEN {
        Err(LocoError::HeaderTooShort)
    } else {
        response_header_of(raw_header_at(bytes))
    }
}

/// A field that is zero from `keep` on, and not just before, is trimmed to
/// its first `keep` bytes.
pub proof fn lemma_trim_zero_tail(field: Seq<u8>, keep: int)
    requires
        0 <= keep <= field.len(),
        forall|i: int| keep <= i < field.len() ==> field[i] == 0,
        keep == 0 || field[keep - 1] != 0,
    ensures
        trimmed_name(field) == field.subrange(0, keep),
    decreases field.len() - keep,
{
    if keep < field.len() {
        assert(field.drop_last().subrange(0, keep) =~= field.subrange(0, keep));
        lemma_trim_zero_tail(field.drop_last(), keep);
    } else {
        assert(field.subrange(0, keep) =~= field);
    }
}

/// Padding a name that does not end in a zero byte, then trimming the field,
/// gives the name back.
pub proof fn lemma_trim_padded(name: Seq<u8>)
    requires
        name.len() <= METHOD_NAME_LEN,
        name.len() == 0 || name.last() != 0,
    ensures
        padded_name(name).len() == METHOD_NAME_LEN,
        trimmed_name(padded_name(name)) == name,
{
    lemma_trim_zero_tail(padded_name(name), name.len() as int);
    assert(padded_name(name).subrange(0, name.len() as int) =~= name);
}

/// A wire header with a name field of eleven bytes takes 22 bytes, and
/// reading them gives the header back.
pub proof fn lemma_raw_header_round_trip(raw: RawHeaderModel, rest: Seq<u8>)
    requires
        raw.method_name.len() == METHOD_NAME_LEN,
    ensures
        raw_header_bytes(raw).len() == HEADER_LEN,
        raw_header_at(raw_header_bytes(raw) + rest) == raw,
{
    let bytes = raw_header_bytes(raw) + rest;
    lemma_le_u32_decode_encode(raw.packet_id);
    lemma_le_u16_decode_encode(raw.status_code);
    lemma_le_u32_decode_encode(raw.body_length);
    assert(bytes.subrange(0, 4) =~= le_u32(raw.packet_id));
    assert(bytes.subrange(4, 6) =~= le_u16(raw.status_code));
    assert(bytes.subrange(6, 17) =~= raw.method_name);
    assert(bytes.subrange(18, 22) =~= le_u32(raw.body_length));
    assert(bytes[17] == raw.body_type);
}

/// The bytes read as a wire header are the bytes that header is written as.
pub proof fn lemma_raw_header_bytes_at(bytes: Seq<u8>)
    requires
        bytes.len() == HEADER_LEN,
    ensures
        raw_header_bytes(raw_header_at(bytes)) == bytes,
{
    lemma_le_u32_encode_decode(bytes.subrange(0, 4));
    lemma_le_u16_encode_decode(bytes.subrange(4, 6));
    lemma_le_u32_encode_decode(bytes.subrange(18, 22));
    assert(raw_header_bytes(raw_header_at(bytes)) =~= bytes);
}

/// The last byte of the UTF-8 encoding of a scalar other than zero is not
/// zero.
proof fn lemma_scalar_last_byte(c: u32)
    requires
        is_scalar(c),
        c != 0,
    ensures
        encode_scalar(c).len() >= 1,
        encode_scalar(c).last() != 0,
{
    if has_width_1_encoding(c) {
        assert((c & 0x7F) as u8 != 0) by (bit_vector)
            requires
                0 < c <= 0x7F,
        ;
    } else {
        assert(0x80u8 | (c & 0x3F) as u8 != 0) by (bit_vector);
    }
}

/// Text that does not end in NUL is encoded as bytes that do not end in
/// zero.
pub proof fn lemma_encoding_last_byte(text: Seq<char>)
    requires
        text.len() > 0,
        text.last() != '\0',
    ensures
        encode_utf8(text).len() > 0,
        encode_utf8(text).last() != 0,
    decreases text.len(),
{
    let rest = text.drop_first();
    char_is_scalar(text[0]);
    if rest.len() == 0 {
        assert(encode_utf8(rest) =~= Seq::<u8>::empty());
        assert(encode_utf8(text) =~= encode_scalar(text[0] as u32));
        if text[0] as u32 == 0 {
            char_u32_cast(text[0], 0u32);
        }
        lemma_scalar_last_byte(text[0] as u32);
    } else {
        assert(rest.last() == text.last());
        lemma_encoding_last_byte(rest);
    }
}

/// Decoding the encoding of a request header gives the header back, together
/// with the body length it was encoded with, whatever follows the 22 bytes.
/// This holds of every method name whose UTF-8 bytes fit the field, as long
/// as the name does not end in NUL: the decoder cannot tell such a NUL from
/// padding.
pub proof fn lemma_header_round_trip(header: RequestHeaderModel, body_length: u32, rest: Seq<u8>)
    requires
        encode_utf8(header.method_name).len() <= METHOD_NAME_LEN,
        header.method_name.len() == 0 || header.method_name.last() != '\0',
    ensures
        encoded_header(header, body_length) is Ok,
        encoded_header(header, body_length).unwrap().len() == HEADER_LEN,
        parsed_header(encoded_header(header, body_length).unwrap() + rest) == Ok::<
            ResponseHeaderModel,
            LocoError,
        >(
            ResponseHeaderModel {
                packet_id: header.packet_id,
                status_code: header.status_code,
                method_name: header.method_name,
                body_type: header.body_type,
                body_length,
            },
        ),
{
    let name = encode_utf8(header.method_name);
    if header.method_name.len() > 0 {
        lemma_encoding_last_byte(header.method_name);
    } else {
        assert(name =~= Seq::<u8>::empty());
    }
    lemma_trim_padded(name);
    let raw = raw_header_of(header, body_length).unwrap();
    lemma_raw_header_round_trip(raw, rest);
    encode_utf8_valid_utf8(header.method_name);
    encode_utf8_decode_utf8(header.method_name);
}

/// An ASCII name takes one byte for each character, so one of at most eleven
/// characters fits the method-name field.
pub proof fn lemma_ascii_name_fits(name: Seq<char>)
    requires
        is_ascii_chars(name),
        name.len() <= METHOD_NAME_LEN,
    ensures
        encode_utf8(name).len() == name.len(),
        encode_utf8(name).len() <= METHOD_NAME_LEN,
{
    is_ascii_chars_encode_utf8(name);
}

/// A header whose method name is ASCII text of at most eleven characters is
/// encoded as 22 bytes, and decoding them gives the header back, together
/// with the body length it was encoded with. The one exception is a name
/// that ends in NUL.
pub proof fn lemma_ascii_header_round_trip(header: RequestHeaderModel, body_length: u32)
    requires
        is_ascii_chars(header.method_name),
        header.method_name.len() <= METHOD_NAME_LEN,
        header.method_name.len() == 0 || header.method_name.last() != '\0',
    ensures
        encoded_header(header, body_length) is Ok,
        encoded_header(header, body_length).unwrap().len() == HEADER_LEN,
        parsed_header(encoded_header(header, body_length).unwrap()) == Ok::<
            ResponseHeaderModel,
            LocoError,
        >(
            ResponseHeaderModel {
                packet_id: header.packet_id,
                status_code: header.status_code,
                method_name: header.method_name,
                body_type: header.body_type,
                body_length,
            },
        ),
{
    lemma_ascii_name_fits(header.method_name);
    lemma_header_round_trip(header, body_length, Seq::empty());
    assert(encoded_header(header, body_length).unwrap() + Seq::<u8>::empty()
        =~= encoded_header(header, body_length).unwrap());
}

/// `String::from_utf8`: the text that `bytes` encode, where they are valid
/// UTF-8, and nothing where they are not.
#[verifier::external_body]
fn string_from_utf8(bytes: Vec<u8>) -> (r: Option<String>)
    ensures
        r is Some <==> valid_utf8(bytes@),
        r matches Some(text) ==> text@ == decode_utf8(bytes@),
{
    match String::from_utf8(bytes) {
        Ok(text) => Some(text),
        Err(_) => None,
    }
}

/// Lays a request header out for the wire. The method name is written as its
/// UTF-8 bytes and padded with zero bytes to eleven; a longer name is
/// refused.
pub fn create_loco_raw_header(header: RequestLocoHeader, body_length: u32) -> (r: Result<
    RawLocoHeader,
    LocoError,
>)
    ensures
        result_view(r) == raw_header_of(header@, body_length),
{
    let name = header.method_name.as_str().as_bytes();
    if name.len() > METHOD_NAME_LEN {
        return Err(LocoError::MethodNameTooLong);
    }
    let mut field: [u8; 11] = [0u8; 11];
    let mut i: usize = 0;
    while i < name.len()
        invariant
            i <= name@.len() <= METHOD_NAME_LEN,
            forall|j: int| 0 <= j < i ==> field@[j] == name@[j],
            forall|j: int| i <= j < METHOD_NAME_LEN ==> field@[j] == 0,
        decreases name@.len() - i,
    {
        field[i] = name[i];
        i += 1;
    }
    assert(field@ =~= padded_name(name@));
    Ok(
        RawLocoHeader {
            packet_id: header.packet_id,
            status_code: header.status_code,
            method_name: field,
            body_type: header.body_type,
            body_length,
        },
    )
}

impl RawLocoHeader {
    /// The 22 bytes of this header.
    pub fn to_bytes(&self) -> (bytes: Vec<u8>)
        ensures
            bytes@ == raw_header_bytes(self@),
            bytes@.len() == HEADER_LEN,
    {
        let mut bytes: Vec<u8> = Vec::with_capacity(HEADER_LEN);
        put_u32_le(&mut bytes, self.packet_id);
        put_u16_le(&mut bytes, self.status_code);
        put_bytes(&mut bytes, self.method_name.as_slice());
        bytes.push(self.body_type);
        put_u32_le(&mut bytes, self.body_length);
        assert(bytes@ =~= raw_header_bytes(self@));
        bytes
    }

    /// Reads a header from the first 22 bytes of `buf`; what follows them is
    /// not looked at. Fewer bytes are refused.
    pub fn from_bytes(buf: &[u8]) -> (r: Result<RawLocoHeader, LocoError>)
        ensures
            buf@.len() < HEADER_LEN ==> r == Err::<RawLocoHeader, LocoError>(
                LocoError::HeaderTooShort,
            ),
            buf@.len() >= HEADER_LEN ==> result_view(r) == Ok::<RawHeaderModel, LocoError>(
                raw_header_at(buf@),
            ),
    {
        if buf.len() < HEADER_LEN {
            return Err(LocoError::HeaderTooShort);
        }
        let mut field: [u8; 11] = [0u8; 11];
        let mut i: usize = 0;
        while i < METHOD_NAME_LEN
            invariant
                i <= METHOD_NAME_LEN,
                buf@.len() >= HEADER_LEN,
                forall|j: int| 0 <= j < i ==> field@[j] == buf@[6 + j],
            decreases METHOD_NAME_LEN - i,
        {
            field[i] = buf[6 + i];
            i += 1;
        }
        assert(field@ =~= buf@.subrange(6, 17));
        Ok(
            RawLocoHeader {
                packet_id: get_u32_le(buf, 0),
                status_code: get_u16_le(buf, 4),
                method_name: field,
                body_type: buf[17],
                body_length: get_u32_le(buf, 18),
            },
        )
    }

    /// The reply header this wire header stands for. The name field is cut
    /// before its trailing zero bytes and must then be UTF-8 text.
    pub fn to_response(&self) -> (r: Result<ResponseLocoHeader, LocoError>)
        ensures
            result_view(r) == response_header_of(self@),
    {
        let mut n: usize = METHOD_NAME_LEN;
        while n > 0 && self.method_name[n - 1] == 0
            invariant
                n <= METHOD_NAME_LEN,
                forall|i: int| n <= i < METHOD_NAME_LEN ==> self.method_name@[i] == 0,
            decreases n,
        {
            n -= 1;
        }
        proof {
            lemma_trim_zero_tail(self.method_name@, n as int);
        }
        let name = slice_to_vec(slice_subrange(self.method_name.as_slice(), 0, n));
        match string_from_utf8(name) {
            Some(method_name) => Ok(
                ResponseLocoHeader {
                    packet_id: self.packet_id,
                    status_code: self.status_code,
                    method_name,
                    body_type: self.body_type,
                    body_length: self.body_length,
                },
            ),
            None => Err(LocoError::MethodNameNotUtf8),
        }
    }
}

/// Encodes a request header in front of a body of `body_length` bytes.
pub fn encode_header(header: RequestLocoHeader, body_length: u32) -> (r: Result<Vec<u8>, LocoError>)
    ensures
        result_view(r) == encoded_header(header@, body_length),
{
    match create_loco_raw_header(header, body_length) {
        Ok(raw) => Ok(raw.to_bytes()),
        Err(e) => Err(e),
    }
}

/// Decodes the header that `header_buffer` begins with.
pub fn parse_loco_header(header_buffer: &[u8]) -> (r: Result<ResponseLocoHeader, LocoError>)
    ensures
        result_view(r) == parsed_header(header_buffer@),
{
    match RawLocoHeader::from_bytes(header_buffer) {
        Ok(raw) => raw.to_response(),
        Err(e) => Err(e),
    }
}

} // verus!
