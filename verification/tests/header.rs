use loco_protocol::error::{ErrorClass, LocoError};
use loco_protocol::header::{
    create_loco_raw_header, encode_header, parse_loco_header, RawLocoHeader, RequestLocoHeader,
    ResponseLocoHeader, HEADER_LEN, METHOD_NAME_LEN,
};

fn request(method_name: &str) -> RequestLocoHeader {
    RequestLocoHeader {
        packet_id: 1,
        status_code: 0,
        method_name: method_name.to_string(),
        body_type: 0,
    }
}

#[test]
fn checkin_is_padded_with_four_zero_bytes() {
    let raw = create_loco_raw_header(request("CHECKIN"), 0).unwrap();
    assert_eq!(&raw.method_name, b"CHECKIN\0\0\0\0");
    let bytes = raw.to_bytes();
    assert_eq!(&bytes[6..17], b"CHECKIN\0\0\0\0");
    let back = parse_loco_header(&bytes).unwrap();
    assert_eq!(back.method_name, "CHECKIN");
    assert_eq!(back.method_name.len(), 7);
}

#[test]
fn header_has_the_documented_layout() {
    let header = RequestLocoHeader {
        packet_id: 0x0102_0304,
        status_code: 0x0506,
        method_name: "GETCONF".to_string(),
        body_type: 7,
    };
    let bytes = encode_header(header, 0x0a0b_0c0d).unwrap();
    assert_eq!(bytes.len(), HEADER_LEN);
    assert_eq!(
        bytes,
        vec![
            0x04, 0x03, 0x02, 0x01, // packet id
            0x06, 0x05, // status code
            b'G', b'E', b'T', b'C', b'O', b'N', b'F', 0, 0, 0, 0, // method name
            7,    // body type
            0x0d, 0x0c, 0x0b, 0x0a, // body length
        ]
    );
}

#[test]
fn header_agrees_with_bincode() {
    let mut name = [0u8; 11];
    name[..7].copy_from_slice(b"CHECKIN");
    let expected = bincode::serialize(&(77u32, 3u16, name, 9u8, 123_456u32)).unwrap();
    let header = RequestLocoHeader {
        packet_id: 77,
        status_code: 3,
        method_name: "CHECKIN".to_string(),
        body_type: 9,
    };
    assert_eq!(encode_header(header, 123_456).unwrap(), expected);

    let decoded: (u32, u16, [u8; 11], u8, u32) = bincode::deserialize(&expected).unwrap();
    let raw = RawLocoHeader::from_bytes(&expected).unwrap();
    assert_eq!(
        (raw.packet_id, raw.status_code, raw.method_name, raw.body_type, raw.body_length),
        decoded
    );
}

#[test]
fn decoding_an_encoded_header_gives_it_back() {
    for (name, id, status, body_type, length) in [
        ("GETCONF", 1u32, 0u16, 0u8, 39u32),
        ("CHECKIN", 2, 0, 0, 0),
        ("", 3, 200, 1, 7),
        ("A", u32::MAX, u16::MAX, u8::MAX, u32::MAX),
        ("ELEVENBYTES", 5, 6, 7, 8),
    ] {
        let header = RequestLocoHeader {
            packet_id: id,
            status_code: status,
            method_name: name.to_string(),
            body_type,
        };
        let bytes = encode_header(header, length).unwrap();
        assert_eq!(
            parse_loco_header(&bytes).unwrap(),
            ResponseLocoHeader {
                packet_id: id,
                status_code: status,
                method_name: name.to_string(),
                body_type,
                body_length: length,
            }
        );
    }
}

#[test]
fn a_name_of_eleven_bytes_fills_the_field() {
    assert_eq!("ELEVENBYTES".len(), METHOD_NAME_LEN);
    let raw = create_loco_raw_header(request("ELEVENBYTES"), 5).unwrap();
    assert_eq!(&raw.method_name, b"ELEVENBYTES");
    assert_eq!(raw.body_length, 5);
}

#[test]
fn a_name_of_twelve_bytes_is_refused() {
    let e = create_loco_raw_header(request("TWELVE_BYTES"), 5).unwrap_err();
    assert_eq!(e, LocoError::MethodNameTooLong);
    assert_eq!(e.class(), ErrorClass::Framing);
    assert_eq!(encode_header(request("TWELVE_BYTES"), 5), Err(LocoError::MethodNameTooLong));
}

#[test]
fn a_name_is_measured_in_bytes_not_characters() {
    // six characters, twelve bytes
    assert_eq!(
        create_loco_raw_header(request("éééééé"), 0),
        Err(LocoError::MethodNameTooLong)
    );
    // five characters, six bytes
    let bytes = encode_header(request("héllo"), 0).unwrap();
    assert_eq!(&bytes[6..17], &[b'h', 0xc3, 0xa9, b'l', b'l', b'o', 0, 0, 0, 0, 0]);
    assert_eq!(parse_loco_header(&bytes).unwrap().method_name, "héllo");
}

#[test]
fn a_nul_at_the_end_of_a_name_is_taken_for_padding() {
    let bytes = encode_header(request("AB\0"), 0).unwrap();
    assert_eq!(parse_loco_header(&bytes).unwrap().method_name, "AB");
}

#[test]
fn a_nul_inside_a_name_is_kept() {
    let bytes = encode_header(request("A\0B"), 0).unwrap();
    assert_eq!(parse_loco_header(&bytes).unwrap().method_name, "A\0B");
}

#[test]
fn fewer_than_22_bytes_are_no_header() {
    let bytes = encode_header(request("GETCONF"), 0).unwrap();
    assert_eq!(parse_loco_header(&bytes[..21]), Err(LocoError::HeaderTooShort));
    assert_eq!(parse_loco_header(&[]), Err(LocoError::HeaderTooShort));
    assert_eq!(RawLocoHeader::from_bytes(&bytes[..21]), Err(LocoError::HeaderTooShort));
    assert_eq!(LocoError::HeaderTooShort.class(), ErrorClass::Framing);
}

#[test]
fn bytes_behind_the_header_are_not_looked_at() {
    let mut bytes = encode_header(request("GETCONF"), 3).unwrap();
    bytes.extend_from_slice(&[0xff, 0xfe, 0xfd]);
    let header = parse_loco_header(&bytes).unwrap();
    assert_eq!(header.method_name, "GETCONF");
    assert_eq!(header.body_length, 3);
}

#[test]
fn a_name_field_that_is_not_utf8_is_refused() {
    let mut bytes = encode_header(request("GETCONF"), 0).unwrap();
    bytes[6] = 0xff;
    assert_eq!(parse_loco_header(&bytes), Err(LocoError::MethodNameNotUtf8));
    // a lone continuation byte in front of the padding
    let mut bytes = encode_header(request("AB"), 0).unwrap();
    bytes[8] = 0x80;
    assert_eq!(parse_loco_header(&bytes), Err(LocoError::MethodNameNotUtf8));
    assert_eq!(LocoError::MethodNameNotUtf8.class(), ErrorClass::Framing);
}

#[test]
fn a_raw_header_survives_a_round_trip() {
    let raw = RawLocoHeader {
        packet_id: 0xdead_beef,
        status_code: 404,
        method_name: *b"LOGINLIST\0\0",
        body_type: 8,
        body_length: 1_000_000,
    };
    let bytes = raw.to_bytes();
    assert_eq!(bytes.len(), 22);
    assert_eq!(RawLocoHeader::from_bytes(&bytes), Ok(raw));
    let response = raw.to_response().unwrap();
    assert_eq!(response.method_name, "LOGINLIST");
    assert_eq!(response.packet_id, 0xdead_beef);
    assert_eq!(response.status_code, 404);
    assert_eq!(response.body_type, 8);
    assert_eq!(response.body_length, 1_000_000);
}

#[test]
fn a_name_field_of_zero_bytes_is_the_empty_name() {
    let raw = RawLocoHeader {
        packet_id: 0,
        status_code: 0,
        method_name: [0; 11],
        body_type: 0,
        body_length: 0,
    };
    assert_eq!(raw.to_response().unwrap().method_name, "");
}
