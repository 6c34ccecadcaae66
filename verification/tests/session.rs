use loco_protocol::error::{ErrorClass, LocoError};
use loco_protocol::handshake::{LocoHandshakeHeader, PUBLIC_KEY_PEM};
use loco_protocol::header::RequestLocoHeader;
use loco_protocol::packet::{create_loco_packet, parse_whole_packet};
use loco_protocol::secure::{decrypt, seal};
use loco_protocol::session::{Action, Connection, Event, Phase, Service, TransportMode};

fn header(method_name: &str) -> RequestLocoHeader {
    RequestLocoHeader {
        packet_id: 1,
        status_code: 0,
        method_name: method_name.to_string(),
        body_type: 0,
    }
}

fn booking_request() -> bson::Document {
    let mut request = bson::Document::new();
    request.insert("model", "");
    request.insert("os", "");
    request.insert("MCCMNC", "");
    request
}

fn checkin_request() -> bson::Document {
    let mut request = bson::Document::new();
    request.insert("userId", 1i64);
    request.insert("os", "android");
    request.insert("ntype", 0i32);
    request.insert("appVer", "9.7.2");
    request.insert("lang", "ko");
    request.insert("MCCMNC", "45005");
    request
}

fn sent(action: Action) -> Vec<u8> {
    match action {
        Action::Send(bytes) => bytes,
        other => panic!("expected bytes to send, got {:?}", other),
    }
}

fn closed_with(step: (Connection, Action)) -> LocoError {
    assert!(matches!(step.0.phase(), Phase::Closed));
    match step.1 {
        Action::Close(e) => e,
        other => panic!("expected a failure, got {:?}", other),
    }
}

#[test]
fn each_service_has_its_mode() {
    assert_eq!(Service::Booking.mode(), TransportMode::Tls);
    assert_eq!(Service::Checkin.mode(), TransportMode::SecureSession);
    assert_eq!(Service::Booking.host(), "booking-loco.kakao.com");
    assert_eq!(Service::Checkin.host(), "ticket-loco.kakao.com");
    assert_eq!(Service::Booking.port(), 443);
    assert_eq!(Service::Checkin.port(), 443);
}

#[test]
fn a_connection_under_tls_is_ready_at_once() {
    let connection = Connection::open(TransportMode::Tls);
    assert!(matches!(connection.phase(), Phase::Ready));
    assert_eq!(connection.awaited(), 0);
    let connection = Connection::open(TransportMode::SecureSession);
    assert!(matches!(connection.phase(), Phase::Unkeyed));
    assert_eq!(connection.awaited(), 0);
}

#[test]
fn a_plain_exchange_runs_from_request_to_reply() {
    let connection = Connection::open(Service::Booking.mode());
    let (connection, action) =
        connection.request(header("GETCONF"), bson::Bson::Document(booking_request()));
    let request = sent(action);
    assert_eq!(
        request,
        create_loco_packet(header("GETCONF"), bson::Bson::Document(booking_request())).unwrap()
    );
    assert_eq!(&request[..4], &[1, 0, 0, 0]);
    assert_eq!(&request[6..17], b"GETCONF\0\0\0\0");
    assert_eq!(request.len(), 22 + 39);
    assert!(matches!(connection.phase(), Phase::AwaitingHeader));
    assert_eq!(connection.awaited(), 22);

    // the peer answers with the same packet id and a document of its own
    let mut answer = bson::Document::new();
    answer.insert("revision", 5i32);
    let reply = create_loco_packet(
        RequestLocoHeader {
            packet_id: 1,
            status_code: 0,
            method_name: "GETCONF".to_string(),
            body_type: 0,
        },
        bson::Bson::Document(answer.clone()),
    )
    .unwrap();

    let (connection, action) = connection.received(&reply[..22]);
    assert!(matches!(action, Action::Receive(n) if n == reply.len() - 22));
    assert_eq!(connection.awaited(), reply.len() - 22);
    assert!(matches!(connection.phase(), Phase::AwaitingBody { .. }));

    let (connection, action) = connection.received(&reply[22..]);
    match action {
        Action::Deliver(packet) => {
            assert_eq!(packet.header.packet_id, 1);
            assert_eq!(packet.header.method_name, "GETCONF");
            assert_eq!(packet.header.body_length as usize, reply.len() - 22);
            assert_eq!(packet.body, answer);
        }
        other => panic!("expected a reply, got {:?}", other),
    }
    assert!(matches!(connection.phase(), Phase::Ready));
    assert_eq!(connection.awaited(), 0);
}

#[test]
fn a_secure_exchange_runs_from_key_exchange_to_reply() {
    let connection = Connection::open(Service::Checkin.mode());
    let (connection, action) = connection.start(PUBLIC_KEY_PEM);
    let opening = sent(action);
    assert_eq!(opening.len(), 12 + 256);
    assert_eq!(
        LocoHandshakeHeader::from_bytes(&opening),
        Ok(LocoHandshakeHeader { data_length: 256, rsa_encrypt_type: 14, aes_encrypt_type: 2 })
    );
    assert!(matches!(connection.phase(), Phase::Ready));
    assert_eq!(connection.awaited(), 0);
    assert_eq!(connection.mode(), TransportMode::SecureSession);

    let (connection, action) =
        connection.request(header("CHECKIN"), bson::Bson::Document(checkin_request()));
    let envelope = sent(action);
    let packet =
        create_loco_packet(header("CHECKIN"), bson::Bson::Document(checkin_request())).unwrap();
    assert_eq!(envelope.len(), 20 + packet.len());
    assert_eq!(&envelope[..4], &((packet.len() + 16) as u32).to_le_bytes());
    assert_ne!(&envelope[20..], &packet[..]);
    assert!(matches!(connection.phase(), Phase::AwaitingEnvelope));
    assert_eq!(connection.awaited(), 20);

    // the peer echoes the envelope back
    let (connection, action) = connection.received(&envelope[..20]);
    assert!(matches!(action, Action::Receive(n) if n == packet.len()));
    assert_eq!(connection.awaited(), packet.len());
    assert!(matches!(connection.phase(), Phase::AwaitingCiphertext { .. }));

    let (connection, action) = connection.received(&envelope[20..]);
    match action {
        Action::Deliver(reply) => {
            assert_eq!(reply.header.packet_id, 1);
            assert_eq!(reply.header.status_code, 0);
            assert_eq!(reply.header.method_name, "CHECKIN");
            assert_eq!(reply.header.body_length as usize, packet.len() - 22);
            assert_eq!(reply.body, checkin_request());
            assert_eq!(reply.body.get_str("appVer"), Ok("9.7.2"));
        }
        other => panic!("expected a reply, got {:?}", other),
    }
    assert!(matches!(connection.phase(), Phase::Ready));
}

#[test]
fn a_session_under_a_given_key_talks_to_a_peer_with_that_key() {
    let key = [0x3cu8; 16];
    let (connection, action) =
        Connection::open(TransportMode::SecureSession).keyed(key, Ok(vec![0xee; 268]));
    assert_eq!(sent(action), vec![0xee; 268]);

    let (connection, action) =
        connection.request(header("CHECKIN"), bson::Bson::Document(checkin_request()));
    let envelope = sent(action);
    // what the peer finds in the envelope is the packet
    let packet = decrypt(&key, &envelope).unwrap();
    assert_eq!(
        packet,
        create_loco_packet(header("CHECKIN"), bson::Bson::Document(checkin_request())).unwrap()
    );

    // the peer answers in an envelope of its own
    let mut answer = bson::Document::new();
    answer.insert("host", "example.invalid");
    answer.insert("port", 5223i32);
    let reply = create_loco_packet(
        RequestLocoHeader {
            packet_id: 1,
            status_code: 0,
            method_name: "CHECKIN".to_string(),
            body_type: 0,
        },
        bson::Bson::Document(answer.clone()),
    )
    .unwrap();
    let echo = seal(&key, &[0x33; 16], &reply).unwrap();
    let (connection, action) = connection.received(&echo[..20]);
    assert!(matches!(action, Action::Receive(n) if n == reply.len()));
    let (connection, action) = connection.received(&echo[20..]);
    match action {
        Action::Deliver(delivered) => {
            assert_eq!(delivered.header.method_name, "CHECKIN");
            assert_eq!(delivered.header.body_length as usize, reply.len() - 22);
            assert_eq!(delivered.body, answer);
        }
        other => panic!("expected a reply, got {:?}", other),
    }
    assert!(matches!(connection.phase(), Phase::Ready));
}

#[test]
fn each_session_has_an_opening_message_of_its_own() {
    let (_, first) = Connection::open(TransportMode::SecureSession).start(PUBLIC_KEY_PEM);
    let (_, second) = Connection::open(TransportMode::SecureSession).start(PUBLIC_KEY_PEM);
    assert_ne!(sent(first), sent(second));
}

#[test]
fn a_key_that_does_not_load_closes_the_connection() {
    let step = Connection::open(TransportMode::SecureSession).start("no key here");
    assert_eq!(closed_with(step), LocoError::KeyLoad);
}

#[test]
fn a_key_exchange_happens_once_and_on_a_bare_stream_only() {
    let step = Connection::open(TransportMode::Tls).start(PUBLIC_KEY_PEM);
    assert_eq!(closed_with(step), LocoError::OutOfSequence);

    let (connection, _) = Connection::open(TransportMode::SecureSession).start(PUBLIC_KEY_PEM);
    assert_eq!(closed_with(connection.start(PUBLIC_KEY_PEM)), LocoError::OutOfSequence);

    let step = Connection::open(TransportMode::Tls).keyed([1; 16], Ok(vec![1, 2, 3]));
    assert_eq!(closed_with(step), LocoError::OutOfSequence);
}

#[test]
fn a_given_key_and_opening_message_are_taken_as_they_are() {
    let (connection, action) =
        Connection::open(TransportMode::SecureSession).keyed([7; 16], Ok(vec![1, 2, 3]));
    assert_eq!(sent(action), vec![1, 2, 3]);
    assert!(matches!(connection.phase(), Phase::Ready));
    assert_eq!(connection.mode(), TransportMode::SecureSession);

    let step = Connection::open(TransportMode::SecureSession)
        .keyed([7; 16], Err(LocoError::KeyEncryption));
    assert_eq!(closed_with(step), LocoError::KeyEncryption);
}

#[test]
fn no_request_goes_out_before_the_key_exchange() {
    let step = Connection::open(TransportMode::SecureSession)
        .request(header("CHECKIN"), bson::Bson::Document(checkin_request()));
    assert_eq!(closed_with(step), LocoError::OutOfSequence);
}

#[test]
fn no_second_request_goes_out_before_the_reply() {
    let (connection, _) = Connection::open(TransportMode::Tls)
        .request(header("GETCONF"), bson::Bson::Document(booking_request()));
    let step = connection.request(header("GETCONF"), bson::Bson::Document(booking_request()));
    assert_eq!(closed_with(step), LocoError::OutOfSequence);
}

#[test]
fn a_request_that_cannot_be_built_closes_the_connection() {
    let step = Connection::open(TransportMode::Tls)
        .request(header("GETCONFIGURATION"), bson::Bson::Document(booking_request()));
    assert_eq!(closed_with(step), LocoError::MethodNameTooLong);
    let step = Connection::open(TransportMode::Tls).request(header("GETCONF"), bson::Bson::Null);
    assert_eq!(closed_with(step), LocoError::DocumentEncode);
    let step = Connection::open(TransportMode::Tls).send_packet(Err(LocoError::BodyTooLong));
    assert_eq!(closed_with(step), LocoError::BodyTooLong);
}

#[test]
fn bytes_that_nobody_asked_for_close_the_connection() {
    let step = Connection::open(TransportMode::Tls).received(&[0; 22]);
    assert_eq!(closed_with(step), LocoError::OutOfSequence);
    let step = Connection::open(TransportMode::SecureSession).received(&[0; 20]);
    assert_eq!(closed_with(step), LocoError::OutOfSequence);
}

#[test]
fn a_closed_connection_stays_closed() {
    let (connection, action) = Connection::open(TransportMode::Tls).transport_failed();
    assert!(matches!(action, Action::Close(LocoError::Transport)));
    assert_eq!(LocoError::Transport.class(), ErrorClass::Transport);
    assert_eq!(connection.awaited(), 0);
    let (connection, action) = connection.received(&[0; 22]);
    assert!(matches!(action, Action::Close(LocoError::OutOfSequence)));
    assert!(matches!(connection.phase(), Phase::Closed));
    let step = connection.request(header("GETCONF"), bson::Bson::Document(booking_request()));
    assert_eq!(closed_with(step), LocoError::OutOfSequence);
}

#[test]
fn a_reply_header_of_the_wrong_length_closes_the_connection() {
    let awaiting = || {
        Connection::open(TransportMode::Tls)
            .request(header("GETCONF"), bson::Bson::Document(booking_request()))
            .0
    };
    assert_eq!(closed_with(awaiting().received(&[0; 21])), LocoError::HeaderTooShort);
    assert_eq!(closed_with(awaiting().received(&[0; 23])), LocoError::OutOfSequence);
    let mut bad_name = [0u8; 22];
    bad_name[6] = 0xff;
    assert_eq!(closed_with(awaiting().received(&bad_name)), LocoError::MethodNameNotUtf8);
}

#[test]
fn a_reply_body_of_the_wrong_length_closes_the_connection() {
    let reply =
        create_loco_packet(header("GETCONF"), bson::Bson::Document(booking_request())).unwrap();
    let awaiting = || {
        Connection::open(TransportMode::Tls)
            .request(header("GETCONF"), bson::Bson::Document(booking_request()))
            .0
            .received(&reply[..22])
            .0
    };
    assert_eq!(
        closed_with(awaiting().received(&reply[22..reply.len() - 1])),
        LocoError::BodyLengthMismatch
    );
    assert_eq!(
        closed_with(awaiting().received(&vec![0xff; reply.len() - 22])),
        LocoError::DocumentDecode
    );
}

#[test]
fn a_reply_envelope_that_is_malformed_closes_the_connection() {
    let key = [5u8; 16];
    let awaiting = || {
        Connection::open(TransportMode::SecureSession)
            .keyed(key, Ok(vec![0; 12]))
            .0
            .request(header("CHECKIN"), bson::Bson::Document(checkin_request()))
            .0
    };
    assert_eq!(closed_with(awaiting().received(&[0; 19])), LocoError::EnvelopeTooShort);
    assert_eq!(closed_with(awaiting().received(&[0; 21])), LocoError::OutOfSequence);
    // a declared length of 15 leaves no room for the vector
    let mut short = [0u8; 20];
    short[0] = 15;
    assert_eq!(closed_with(awaiting().received(&short)), LocoError::EnvelopeTooShort);

    let packet =
        create_loco_packet(header("CHECKIN"), bson::Bson::Document(checkin_request())).unwrap();
    let echo = seal(&key, &[9; 16], &packet).unwrap();
    let (connection, _) = awaiting().received(&echo[..20]);
    assert_eq!(
        closed_with(connection.received(&echo[20..echo.len() - 1])),
        LocoError::EnvelopeLengthMismatch
    );
    // ciphertext from under another key does not hold a packet
    let other = seal(&[6u8; 16], &[9; 16], &packet).unwrap();
    let (connection, _) = awaiting().received(&other[..20]);
    let e = closed_with(connection.received(&other[20..]));
    assert!(e.class() == ErrorClass::Framing || e.class() == ErrorClass::Codec);
}

#[test]
fn a_decrypted_reply_has_the_body_length_it_announces() {
    let key = [8u8; 16];
    let packet =
        create_loco_packet(header("CHECKIN"), bson::Bson::Document(checkin_request())).unwrap();
    let echo = seal(&key, &[1; 16], &packet).unwrap();
    let plaintext = decrypt(&key, &echo).unwrap();
    let reply = parse_whole_packet(&plaintext).unwrap();
    assert_eq!(reply.header.body_length as usize, plaintext.len() - 22);
}

#[test]
fn every_failure_has_its_family() {
    for e in [
        LocoError::HeaderTooShort,
        LocoError::PreambleTooShort,
        LocoError::MethodNameTooLong,
        LocoError::MethodNameNotUtf8,
        LocoError::BodyTooLong,
        LocoError::BodyLengthMismatch,
        LocoError::EnvelopeTooShort,
        LocoError::PayloadTooLong,
        LocoError::EnvelopeLengthMismatch,
        LocoError::OutOfSequence,
    ] {
        assert_eq!(e.class(), ErrorClass::Framing);
    }
    assert_eq!(LocoError::DocumentEncode.class(), ErrorClass::Codec);
    assert_eq!(LocoError::DocumentDecode.class(), ErrorClass::Codec);
    assert_eq!(LocoError::KeyLoad.class(), ErrorClass::Cryptographic);
    assert_eq!(LocoError::KeyEncryption.class(), ErrorClass::Cryptographic);
    assert_eq!(LocoError::Transport.class(), ErrorClass::Transport);
}

#[test]
fn a_connection_can_be_given_up() {
    let (connection, action) =
        Connection::open(TransportMode::Tls).fail(LocoError::DocumentDecode);
    assert!(matches!(action, Action::Close(LocoError::DocumentDecode)));
    assert!(matches!(connection.phase(), Phase::Closed));
    assert_eq!(connection.mode(), TransportMode::Tls);
}

#[test]
fn events_drive_a_whole_exchange() {
    let connection = Connection::open(TransportMode::SecureSession);
    let (connection, action) = connection.step(Event::Start(PUBLIC_KEY_PEM.to_string()));
    assert_eq!(sent(action).len(), 268);
    let (connection, action) = connection.step(Event::Request {
        header: header("CHECKIN"),
        body: bson::Bson::Document(checkin_request()),
    });
    let envelope = sent(action);
    let (connection, action) = connection.step(Event::Received(envelope[..20].to_vec()));
    assert!(matches!(action, Action::Receive(n) if n == envelope.len() - 20));
    let (connection, action) = connection.step(Event::Received(envelope[20..].to_vec()));
    match action {
        Action::Deliver(reply) => {
            assert_eq!(reply.header.method_name, "CHECKIN");
            assert_eq!(reply.body, checkin_request());
        }
        other => panic!("expected a reply, got {:?}", other),
    }
    let (connection, action) = connection.step(Event::TransportFailed);
    assert!(matches!(action, Action::Close(LocoError::Transport)));
    let step = connection.step(Event::Received(vec![0; 20]));
    assert_eq!(closed_with(step), LocoError::OutOfSequence);
}
