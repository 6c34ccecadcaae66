//! One connection to a service, as a state machine. The machine never
//! touches the byte stream: each step takes what happened on the stream and
//! answers with what to do on it next.
//!
//! A connection to a service that speaks TLS carries plain packets. One to a
//! service that does not opens with a key exchange and carries every packet
//! in an envelope. A request is followed by exactly one reply, which is read
//! in two parts: a head of fixed length, then as many bytes as the head
//! announces. Any failure closes the connection for good.
//!
//! A reply is handed over as it came: the connection neither matches its
//! packet id against the request's nor reads its status code, it sets no
//! deadline, and it never repeats a request.

use crate::crypto::random_block;
use crate::document::{bson_from_slice, is_document};
use crate::error::{result_view, LocoError};
use crate::handshake::{is_handshake, key_exchange, key_loads};
use crate::header::{
    parse_loco_header, parsed_header, RequestLocoHeader, ResponseHeaderModel,
    ResponseLocoHeader, HEADER_LEN,
};
use crate::packet::{
    create_loco_packet, packet_of, packet_of_decoding, parse_whole_packet,
    parsed_whole_packet_header, ResponseLocoPacket,
};
use crate::secure::{
    ciphertext_len_of, encrypt, open_parts, opened, opened_parts, sealed, secure_header_at,
    LocoSecureHeader, SecureHeaderModel, ENVELOPE_HEADER_LEN,
};
use vstd::prelude::*;

verus! {

/// How the byte stream to a service is protected.
#[derive(Debug, Clone, Copy, PartialEq, Eq, Structural)]
pub enum TransportMode {
    /// The stream is wrapped in TLS and carries plain packets.
    Tls,
    /// The stream is bare; a key exchange opens it and every packet travels
    /// in an envelope.
    SecureSession,
}

/// The services a client talks to.
#[derive(Debug, Clone, Copy, PartialEq, Eq, Structural)]
pub enum Service {
    /// Hands out the connection parameters.
    Booking,
    /// Hands out the host to sign in to.
    Checkin,
}

impl Service {
    /// The protection that this service's stream has. It belongs to the
    /// service and is never negotiated.
    pub open spec fn mode_of(self) -> TransportMode {
        match self {
            Service::Booking => TransportMode::Tls,
            Service::Checkin => TransportMode::SecureSession,
        }
    }

    /// The protection that this service's stream has.
    pub fn mode(&self) -> (mode: TransportMode)
        ensures
            mode == self.mode_of(),
    {
        match self {
            Service::Booking => TransportMode::Tls,
            Service::Checkin => TransportMode::SecureSession,
        }
    }

    /// The name of the host that offers this service.
    pub fn host(&self) -> (host: &'static str)
        ensures
            host@ == (match self {
                Service::Booking => "booking-loco.kakao.com"@,
                Service::Checkin => "ticket-loco.kakao.com"@,
            }),
    {
        match self {
            Service::Booking => "booking-loco.kakao.com",
            Service::Checkin => "ticket-loco.kakao.com",
        }
    }

    /// The port that this service listens on.
    pub fn port(&self) -> (port: u16)
        ensures
            port == 443,
    {
        443
    }
}

/// Where a connection stands.
#[derive(Debug, Clone)]
pub enum Phase {
    /// A bare stream before its key exchange.
    Unkeyed,
    /// A request may be sent.
    Ready,
    /// A plain request is out; the 22 bytes of the reply's header are
    /// awaited.
    AwaitingHeader,
    /// The reply's header is in; its body is awaited.
    AwaitingBody { header: ResponseLocoHeader },
    /// A request in an envelope is out; the 20 bytes of the reply's envelope
    /// header are awaited.
    AwaitingEnvelope,
    /// The reply's envelope header is in; its ciphertext is awaited.
    AwaitingCiphertext { envelope: LocoSecureHeader },
    /// A failure has ended the connection.
    Closed,
}

/// What a `Phase` stands for.
pub enum PhaseModel {
    Unkeyed,
    Ready,
    AwaitingHeader,
    AwaitingBody { header: ResponseHeaderModel },
    AwaitingEnvelope,
    AwaitingCiphertext { envelope: SecureHeaderModel },
    Closed,
}

impl View for Phase {
    type V = PhaseModel;

    open spec fn view(&self) -> PhaseModel {
        match *self {
            Phase::Unkeyed => PhaseModel::Unkeyed,
            Phase::Ready => PhaseModel::Ready,
            Phase::AwaitingHeader => PhaseModel::AwaitingHeader,
            Phase::AwaitingBody { header } => PhaseModel::AwaitingBody { header: header@ },
            Phase::AwaitingEnvelope => PhaseModel::AwaitingEnvelope,
            Phase::AwaitingCiphertext { envelope } => PhaseModel::AwaitingCiphertext {
                envelope: envelope@,
            },
            Phase::Closed => PhaseModel::Closed,
        }
    }
}

/// One connection: how it is protected, where it stands, and the key of its
/// session. The key belongs to the connection alone and is all zero until a
/// key exchange sets it.
pub struct Connection {
    mode: TransportMode,
    phase: Phase,
    session_key: [u8; 16],
}

/// What a `Connection` stands for.
pub struct ConnectionModel {
    pub mode: TransportMode,
    pub phase: PhaseModel,
    pub session_key: Seq<u8>,
}

impl View for Connection {
    type V = ConnectionModel;

    closed spec fn view(&self) -> ConnectionModel {
        ConnectionModel {
            mode: self.mode,
            phase: self.phase@,
            session_key: self.session_key@,
        }
    }
}

/// What happened on the byte stream, or what the caller wants of it.
#[derive(Debug)]
pub enum Event {
    /// A bare stream stands: exchange keys under the public key in this PEM
    /// text.
    Start(String),
    /// The caller has a request to send.
    Request { header: RequestLocoHeader, body: bson::Bson },
    /// The bytes that the last action asked for have been read.
    Received(Vec<u8>),
    /// The stream could not be read or written.
    TransportFailed,
}

/// What is to be done on the byte stream after a step.
#[derive(Debug)]
pub enum Action {
    /// Write these bytes and flush; if a reply is then awaited, read as many
    /// bytes as `Connection::awaited` says and hand them to
    /// `Connection::received`.
    Send(Vec<u8>),
    /// Read exactly this many bytes and hand them to `Connection::received`.
    Receive(usize),
    /// The reply is complete.
    Deliver(ResponseLocoPacket<bson::Document>),
    /// The connection has failed: drop the stream.
    Close(LocoError),
}

/// What an `Action` stands for. Of a delivered reply it keeps the header;
/// the body is the document that the codec made of the body bytes.
pub enum ActionModel {
    Send(Seq<u8>),
    Receive(nat),
    Deliver(ResponseHeaderModel),
    Close(LocoError),
}

impl View for Action {
    type V = ActionModel;

    open spec fn view(&self) -> ActionModel {
        match *self {
            Action::Send(bytes) => ActionModel::Send(bytes@),
            Action::Receive(n) => ActionModel::Receive(n as nat),
            Action::Deliver(packet) => ActionModel::Deliver(packet.header@),
            Action::Close(e) => ActionModel::Close(e),
        }
    }
}

/// A step seen through the views of its two parts.
pub open spec fn step_view(step: (Connection, Action)) -> (ConnectionModel, ActionModel) {
    (step.0@, step.1@)
}

/// The connection in another phase.
pub open spec fn in_phase(c: ConnectionModel, phase: PhaseModel) -> ConnectionModel {
    ConnectionModel { mode: c.mode, phase, session_key: c.session_key }
}

/// The session key of a connection that has none: sixteen zero bytes.
pub open spec fn no_key() -> Seq<u8> {
    Seq::new(16, |i: int| 0u8)
}

/// The end of a connection on a failure. The session key goes with it.
pub open spec fn closed_on(c: ConnectionModel, e: LocoError) -> (ConnectionModel, ActionModel) {
    (
        ConnectionModel { mode: c.mode, phase: PhaseModel::Closed, session_key: no_key() },
        ActionModel::Close(e),
    )
}

/// A connection over a stream that was just opened: ready where TLS protects
/// it, in want of a key exchange where it is bare.
pub open spec fn opened_connection(mode: TransportMode) -> ConnectionModel {
    ConnectionModel {
        mode,
        phase: match mode {
            TransportMode::Tls => PhaseModel::Ready,
            TransportMode::SecureSession => PhaseModel::Unkeyed,
        },
        session_key: no_key(),
    }
}

/// How many bytes a connection awaits from the stream.
pub open spec fn awaited_by(c: ConnectionModel) -> nat {
    match c.phase {
        PhaseModel::AwaitingHeader => HEADER_LEN as nat,
        PhaseModel::AwaitingBody { header } => header.body_length as nat,
        PhaseModel::AwaitingEnvelope => ENVELOPE_HEADER_LEN as nat,
        PhaseModel::AwaitingCiphertext { envelope } => match ciphertext_len_of(
            envelope.data_length,
        ) {
            Ok(n) => n,
            Err(_) => 0,
        },
        _ => 0,
    }
}

/// The step that a key exchange makes: only a bare stream that has none
/// behind it takes one. `handshake` is the opening message, or the failure
/// to build it.
pub open spec fn after_key_exchange(
    c: ConnectionModel,
    session_key: Seq<u8>,
    handshake: Result<Seq<u8>, LocoError>,
) -> (ConnectionModel, ActionModel) {
    if !(c.phase is Unkeyed) {
        closed_on(c, LocoError::OutOfSequence)
    } else {
        match handshake {
            Err(e) => closed_on(c, e),
            Ok(bytes) => (
                ConnectionModel { mode: c.mode, phase: PhaseModel::Ready, session_key },
                ActionModel::Send(bytes),
            ),
        }
    }
}

/// What holds of the step that opens a session under the public key in
/// `pem`, whichever session key and padding were drawn: the opening message
/// goes out and the connection is ready, or the connection has closed on a
/// key that did not load or could not be used.
pub open spec fn key_exchange_admits(
    c: ConnectionModel,
    pem: Seq<char>,
    step: (ConnectionModel, ActionModel),
) -> bool {
    if !(c.phase is Unkeyed) {
        step == closed_on(c, LocoError::OutOfSequence)
    } else if !key_loads(pem) {
        step == closed_on(c, LocoError::KeyLoad)
    } else {
        match step.1 {
            ActionModel::Send(bytes) => {
                &&& is_handshake(bytes)
                &&& step.0.mode == c.mode
                &&& step.0.phase == PhaseModel::Ready
                &&& step.0.session_key.len() == 16
            },
            ActionModel::Close(e) => {
                &&& step == closed_on(c, e)
                &&& (e == LocoError::KeyEncryption || e == LocoError::PayloadTooLong)
            },
            _ => false,
        }
    }
}

/// What holds of the step that sends a packet, whichever vector was drawn
/// for its envelope. On a stream under TLS the packet goes out as it is. On
/// a bare stream it goes out in an envelope that opens to the packet under
/// the session key. A packet that could not be built closes the connection.
pub open spec fn send_admits(
    c: ConnectionModel,
    packet: Result<Seq<u8>, LocoError>,
    step: (ConnectionModel, ActionModel),
) -> bool {
    if !(c.phase is Ready) {
        step == closed_on(c, LocoError::OutOfSequence)
    } else {
        match packet {
            Err(e) => step == closed_on(c, e),
            Ok(bytes) => match c.mode {
                TransportMode::Tls => step == (
                    in_phase(c, PhaseModel::AwaitingHeader),
                    ActionModel::Send(bytes),
                ),
                TransportMode::SecureSession => if bytes.len() + 16 > u32::MAX {
                    step == closed_on(c, LocoError::PayloadTooLong)
                } else {
                    &&& step.0 == in_phase(c, PhaseModel::AwaitingEnvelope)
                    &&& step.1 matches ActionModel::Send(envelope)
                    &&& envelope.len() == ENVELOPE_HEADER_LEN + bytes.len()
                    &&& sealed(c.session_key, secure_header_at(envelope).iv_key, bytes) == Ok::<
                        Seq<u8>,
                        LocoError,
                    >(envelope)
                    &&& opened(c.session_key, envelope) == Ok::<Seq<u8>, LocoError>(bytes)
                },
            },
        }
    }
}

/// The step that the bytes of a reply make.
pub open spec fn after_receipt(c: ConnectionModel, bytes: Seq<u8>) -> (
    ConnectionModel,
    ActionModel,
) {
    match c.phase {
        PhaseModel::AwaitingHeader => if bytes.len() > HEADER_LEN {
            closed_on(c, LocoError::OutOfSequence)
        } else {
            match parsed_header(bytes) {
                Err(e) => closed_on(c, e),
                Ok(header) => (
                    in_phase(c, PhaseModel::AwaitingBody { header }),
                    ActionModel::Receive(header.body_length as nat),
                ),
            }
        },
        PhaseModel::AwaitingBody { header } => if bytes.len() != header.body_length {
            closed_on(c, LocoError::BodyLengthMismatch)
        } else if !is_document(bytes) {
            closed_on(c, LocoError::DocumentDecode)
        } else {
            (in_phase(c, PhaseModel::Ready), ActionModel::Deliver(header))
        },
        PhaseModel::AwaitingEnvelope => if bytes.len() < ENVELOPE_HEADER_LEN {
            closed_on(c, LocoError::EnvelopeTooShort)
        } else if bytes.len() > ENVELOPE_HEADER_LEN {
            closed_on(c, LocoError::OutOfSequence)
        } else {
            match ciphertext_len_of(secure_header_at(bytes).data_length) {
                Err(e) => closed_on(c, e),
                Ok(n) => (
                    in_phase(
                        c,
                        PhaseModel::AwaitingCiphertext { envelope: secure_header_at(bytes) },
                    ),
                    ActionModel::Receive(n),
                ),
            }
        },
        PhaseModel::AwaitingCiphertext { envelope } => match opened_parts(
            c.session_key,
            envelope,
            bytes,
        ) {
            Err(e) => closed_on(c, e),
            Ok(plaintext) => match parsed_whole_packet_header(plaintext) {
                Err(e) => closed_on(c, e),
                Ok(reply) => (in_phase(c, PhaseModel::Ready), ActionModel::Deliver(reply)),
            },
        },
        _ => closed_on(c, LocoError::OutOfSequence),
    }
}

/// What holds of the step that an event makes.
pub open spec fn step_admits(c: ConnectionModel, event: Event, step: (
    ConnectionModel,
    ActionModel,
)) -> bool {
    match event {
        Event::Start(pem) => key_exchange_admits(c, pem@, step),
        Event::Request { header, body } => send_admits(c, packet_of(header@, body), step),
        Event::Received(bytes) => step == after_receipt(c, bytes@),
        Event::TransportFailed => step == closed_on(c, LocoError::Transport),
    }
}

/// No event brings a closed connection back: whatever happens on it, it
/// stays closed, and the answer is a failure.
pub proof fn lemma_closed_is_final(c: ConnectionModel, event: Event, step: (
    ConnectionModel,
    ActionModel,
))
    requires
        c.phase is Closed,
        step_admits(c, event, step),
    ensures
        step.0.phase is Closed,
        step.1 is Close,
{
}

/// A step answers with a failure exactly when it leaves the connection
/// closed, and a closed connection has no key. The mode never changes. The
/// session key changes only where a key exchange sets it or a failure takes
/// it away.
pub proof fn lemma_failure_is_final(c: ConnectionModel, event: Event, step: (
    ConnectionModel,
    ActionModel,
))
    requires
        step_admits(c, event, step),
    ensures
        step.1 is Close <==> step.0.phase is Closed,
        step.1 is Close ==> step.0.session_key == no_key(),
        !(step.1 is Close) && !(event is Start) ==> step.0.session_key == c.session_key,
        step.0.mode == c.mode,
{
}

/// A step that asks for more bytes leaves the connection awaiting exactly
/// that many.
pub proof fn lemma_receive_is_awaited(c: ConnectionModel, bytes: Seq<u8>)
    ensures
        after_receipt(c, bytes).1 matches ActionModel::Receive(n) ==> awaited_by(
            after_receipt(c, bytes).0,
        ) == n,
{
}

/// An envelope that opens to a packet under the session key, read in its
/// two parts, is delivered as that packet: first the step asks for the
/// ciphertext, then it hands over a reply whose header announces the length
/// of what followed the header in the plaintext.
pub proof fn lemma_envelope_is_delivered(c: ConnectionModel, packet: Seq<u8>, envelope: Seq<u8>)
    requires
        c.phase is AwaitingEnvelope,
        opened(c.session_key, envelope) == Ok::<Seq<u8>, LocoError>(packet),
        parsed_whole_packet_header(packet) is Ok,
    ensures
        after_receipt(c, envelope.subrange(0, ENVELOPE_HEADER_LEN as int)).1
            == ActionModel::Receive((envelope.len() - ENVELOPE_HEADER_LEN) as nat),
        after_receipt(
            after_receipt(c, envelope.subrange(0, ENVELOPE_HEADER_LEN as int)).0,
            envelope.subrange(ENVELOPE_HEADER_LEN as int, envelope.len() as int),
        ) == (
            in_phase(c, PhaseModel::Ready),
            ActionModel::Deliver(parsed_whole_packet_header(packet).unwrap()),
        ),
        parsed_whole_packet_header(packet).unwrap().body_length == packet.len() - HEADER_LEN,
{
    let head = envelope.subrange(0, ENVELOPE_HEADER_LEN as int);
    assert(head.subrange(0, 4) =~= envelope.subrange(0, 4));
    assert(head.subrange(4, 20) =~= envelope.subrange(4, 20));
    assert(secure_header_at(head) == secure_header_at(envelope));
}

impl Connection {
    /// A connection over a stream that was just opened.
    pub fn open(mode: TransportMode) -> (c: Connection)
        ensures
            c@ == opened_connection(mode),
    {
        let phase = match mode {
            TransportMode::Tls => Phase::Ready,
            TransportMode::SecureSession => Phase::Unkeyed,
        };
        let c = Connection { mode, phase, session_key: [0u8; 16] };
        assert(c.session_key@ =~= no_key());
        c
    }

    /// How the stream of this connection is protected.
    pub fn mode(&self) -> (mode: TransportMode)
        ensures
            mode == self@.mode,
    {
        self.mode
    }

    /// Where this connection stands.
    pub fn phase(&self) -> (phase: &Phase)
        ensures
            phase@ == self@.phase,
    {
        &self.phase
    }

    /// How many bytes are to be read from the stream next.
    pub fn awaited(&self) -> (n: usize)
        ensures
            n == awaited_by(self@),
    {
        match &self.phase {
            Phase::AwaitingHeader => HEADER_LEN,
            Phase::AwaitingBody { header } => header.body_length as usize,
            Phase::AwaitingEnvelope => ENVELOPE_HEADER_LEN,
            Phase::AwaitingCiphertext { envelope } => match envelope.ciphertext_len() {
                Ok(n) => n,
                Err(_) => 0,
            },
            _ => 0,
        }
    }

    /// Ends the connection on a failure and forgets its session key.
    pub fn fail(self, e: LocoError) -> (step: (Connection, Action))
        ensures
            step_view(step) == closed_on(self@, e),
    {
        let c = Connection { mode: self.mode, phase: Phase::Closed, session_key: [0u8; 16] };
        assert(c.session_key@ =~= no_key());
        (c, Action::Close(e))
    }

    /// The stream has failed under the connection.
    pub fn transport_failed(self) -> (step: (Connection, Action))
        ensures
            step_view(step) == closed_on(self@, LocoError::Transport),
    {
        self.fail(LocoError::Transport)
    }

    /// Takes a session key and the opening message built for it.
    pub fn keyed(self, session_key: [u8; 16], handshake: Result<Vec<u8>, LocoError>) -> (step: (
        Connection,
        Action,
    ))
        ensures
            step_view(step) == after_key_exchange(
                self@,
                session_key@,
                result_view(handshake),
            ),
    {
        match self.phase {
            Phase::Unkeyed => match handshake {
                Ok(bytes) => (
                    Connection { mode: self.mode, phase: Phase::Ready, session_key },
                    Action::Send(bytes),
                ),
                Err(e) => self.fail(e),
            },
            _ => self.fail(LocoError::OutOfSequence),
        }
    }

    /// Opens the session of a bare stream: draws a session key and builds
    /// the opening message for it under the public key in `pem`.
    pub fn start(self, pem: &str) -> (step: (Connection, Action))
        ensures
            key_exchange_admits(self@, pem@, step_view(step)),
    {
        match self.phase {
            Phase::Unkeyed => {
                let session_key = random_block();
                let handshake = key_exchange(pem, &session_key);
                self.keyed(session_key, handshake)
            },
            _ => self.fail(LocoError::OutOfSequence),
        }
    }

    /// Sends a packet, or gives up on the failure to build one. On a bare
    /// stream the packet goes out in an envelope made with a vector drawn
    /// for it.
    pub fn send_packet(self, packet: Result<Vec<u8>, LocoError>) -> (step: (Connection, Action))
        ensures
            send_admits(self@, result_view(packet), step_view(step)),
    {
        match self.phase {
            Phase::Ready => match packet {
                Err(e) => self.fail(e),
                Ok(bytes) => match self.mode {
                    TransportMode::Tls => (
                        Connection {
                            mode: self.mode,
                            phase: Phase::AwaitingHeader,
                            session_key: self.session_key,
                        },
                        Action::Send(bytes),
                    ),
                    TransportMode::SecureSession => match encrypt(
                        &self.session_key,
                        bytes.as_slice(),
                    ) {
                        Ok(envelope) => (
                            Connection {
                                mode: self.mode,
                                phase: Phase::AwaitingEnvelope,
                                session_key: self.session_key,
                            },
                            Action::Send(envelope),
                        ),
                        Err(e) => self.fail(e),
                    },
                },
            },
            _ => self.fail(LocoError::OutOfSequence),
        }
    }

    /// Sends a request: `body` is encoded as a document, `header` is put in
    /// front of it, and the packet goes out as `send_packet` sends it.
    pub fn request(self, header: RequestLocoHeader, body: bson::Bson) -> (step: (
        Connection,
        Action,
    ))
        ensures
            send_admits(self@, packet_of(header@, body), step_view(step)),
    {
        match self.phase {
            Phase::Ready => {
                let packet = create_loco_packet(header, body);
                self.send_packet(packet)
            },
            _ => self.fail(LocoError::OutOfSequence),
        }
    }

    /// Takes an event and says what to do on the stream next.
    pub fn step(self, event: Event) -> (step: (Connection, Action))
        ensures
            step_admits(self@, event, step_view(step)),
    {
        match event {
            Event::Start(pem) => self.start(pem.as_str()),
            Event::Request { header, body } => self.request(header, body),
            Event::Received(bytes) => self.received(bytes.as_slice()),
            Event::TransportFailed => self.transport_failed(),
        }
    }

    /// Takes the bytes that were read from the stream and says what to do
    /// next: read the rest of the reply, hand the reply over, or give up.
    pub fn received(self, bytes: &[u8]) -> (step: (Connection, Action))
        ensures
            step_view(step) == after_receipt(self@, bytes@),
    {
        match self.phase {
            Phase::AwaitingHeader => {
                if bytes.len() > HEADER_LEN {
                    return self.fail(LocoError::OutOfSequence);
                }
                match parse_loco_header(bytes) {
                    Err(e) => self.fail(e),
                    Ok(header) => {
                        let n: usize = header.body_length as usize;
                        (
                            Connection {
                                mode: self.mode,
                                phase: Phase::AwaitingBody { header },
                                session_key: self.session_key,
                            },
                            Action::Receive(n),
                        )
                    },
                }
            },
            Phase::AwaitingBody { header } => {
                let closing = Connection {
                    mode: self.mode,
                    phase: Phase::Closed,
                    session_key: self.session_key,
                };
                if bytes.len() != header.body_length as usize {
                    return closing.fail(LocoError::BodyLengthMismatch);
                }
                match packet_of_decoding(header, bson_from_slice(bytes)) {
                    Ok(packet) => (
                        Connection {
                            mode: self.mode,
                            phase: Phase::Ready,
                            session_key: self.session_key,
                        },
                        Action::Deliver(packet),
                    ),
                    Err(e) => closing.fail(e),
                }
            },
            Phase::AwaitingEnvelope => {
                if bytes.len() > ENVELOPE_HEADER_LEN {
                    return self.fail(LocoError::OutOfSequence);
                }
                let envelope = match LocoSecureHeader::from_bytes(bytes) {
                    Ok(envelope) => envelope,
                    Err(e) => { return self.fail(e); },
                };
                match envelope.ciphertext_len() {
                    Err(e) => self.fail(e),
                    Ok(n) => (
                        Connection {
                            mode: self.mode,
                            phase: Phase::AwaitingCiphertext { envelope },
                            session_key: self.session_key,
                        },
                        Action::Receive(n),
                    ),
                }
            },
            Phase::AwaitingCiphertext { envelope } => {
                let plaintext = match open_parts(&self.session_key, &envelope, bytes) {
                    Ok(plaintext) => plaintext,
                    Err(e) => { return self.fail(e); },
                };
                match parse_whole_packet(plaintext.as_slice()) {
                    Ok(packet) => (
                        Connection {
                            mode: self.mode,
                            phase: Phase::Ready,
                            session_key: self.session_key,
                        },
                        Action::Deliver(packet),
                    ),
                    Err(e) => self.fail(e),
                }
            },
            _ => self.fail(LocoError::OutOfSequence),
        }
    }
}

} // verus!
