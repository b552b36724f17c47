//! The wire protocol between the server and xPalm clients: the authorization
//! handshake, the command stream of the control connection, the joystick
//! datagrams, the vibration commands and the discovery announcement.

use vstd::prelude::*;

use crate::x360::{
    ControllerButton, ControllerDpad, ControllerInput, ControllerJoystick, ControllerTrigger,
};

verus! {

// ---------------------------------------------------------------------------
// Big-endian integers

/// The value of the big-endian unsigned 16-bit integer `hi, lo`.
pub open spec fn be_u16_value(hi: u8, lo: u8) -> int {
    hi * 256 + lo
}

/// The value of the big-endian two's-complement 16-bit integer `hi, lo`.
pub open spec fn be_i16_value(hi: u8, lo: u8) -> int {
    if hi < 128 {
        hi * 256 + lo
    } else {
        hi * 256 + lo - 65536
    }
}

/// The big-endian bytes of an unsigned 16-bit integer.
pub open spec fn be_bytes_u16(v: u16) -> Seq<u8> {
    seq![(v / 256) as u8, (v % 256) as u8]
}

/// The big-endian two's-complement bytes of a signed 16-bit integer.
pub open spec fn be_bytes_i16(v: i16) -> Seq<u8> {
    let u: int = if v < 0 { v + 65536 } else { v as int };
    seq![(u / 256) as u8, (u % 256) as u8]
}

/// The unsigned 16-bit integer whose big-endian bytes are `hi, lo`.
pub fn u16_from_be_bytes(hi: u8, lo: u8) -> (r: u16)
    ensures
        r as int == be_u16_value(hi, lo),
{
    (hi as u16) * 256 + (lo as u16)
}

/// The signed 16-bit integer whose big-endian two's-complement bytes are
/// `hi, lo`.
pub fn i16_from_be_bytes(hi: u8, lo: u8) -> (r: i16)
    ensures
        r as int == be_i16_value(hi, lo),
{
    let v: i32 = (hi as i32) * 256 + (lo as i32);
    if v >= 32768 {
        (v - 65536) as i16
    } else {
        v as i16
    }
}

/// The big-endian bytes `(hi, lo)` of an unsigned 16-bit integer.
pub fn u16_to_be_bytes(v: u16) -> (r: (u8, u8))
    ensures
        seq![r.0, r.1] == be_bytes_u16(v),
{
    ((v / 256) as u8, (v % 256) as u8)
}

/// Reading back the big-endian bytes of an unsigned 16-bit integer gives the
/// integer.
pub proof fn lemma_be_u16_roundtrip(v: u16)
    ensures
        be_u16_value(be_bytes_u16(v)[0], be_bytes_u16(v)[1]) == v,
{
}

/// Reading back the big-endian bytes of a signed 16-bit integer gives the
/// integer.
pub proof fn lemma_be_i16_roundtrip(v: i16)
    ensures
        be_i16_value(be_bytes_i16(v)[0], be_bytes_i16(v)[1]) == v,
{
}

// ---------------------------------------------------------------------------
// Authorization

/// The protocol version that a client announces in its handshake.
pub const PROTOCOL_VERSION: u8 = 1;
/// The length of a client's handshake: version, then the code in big endian.
pub const HANDSHAKE_LEN: usize = 3;
/// The smallest authorization code.
pub const AUTH_CODE_MIN: u16 = 1454;
/// The largest authorization code.
pub const AUTH_CODE_MAX: u16 = 9999;
/// The byte sent to a client that is admitted.
pub const REPLY_ACCEPTED: u8 = 1;
/// The byte sent to a client that is turned away.
pub const REPLY_REJECTED: u8 = 0;

/// Why a client's handshake was refused.
#[derive(Debug, Clone, Copy, PartialEq, Eq, Structural)]
pub enum AuthError {
    /// The client disconnected, or sent a handshake of the wrong length.
    Disconnected,
    /// The client speaks another protocol version.
    VersionConflict,
    /// The client entered the wrong code.
    WrongCode,
    /// The client took too long to enter the code.
    TimedOut,
}

/// What the server answers to the bytes `received` of one read of a
/// client's handshake, when the code shown to the user is `code`.
pub open spec fn spec_check_handshake(received: Seq<u8>, code: u16) -> Result<(), AuthError> {
    if received.len() != HANDSHAKE_LEN {
        Err(AuthError::Disconnected)
    } else if received[0] != PROTOCOL_VERSION {
        Err(AuthError::VersionConflict)
    } else if be_u16_value(received[1], received[2]) != code {
        Err(AuthError::WrongCode)
    } else {
        Ok(())
    }
}

/// Checks the bytes that one read of a client's handshake delivered against
/// the authorization code.
pub fn check_handshake(received: &[u8], code: u16) -> (r: Result<(), AuthError>)
    ensures
        r == spec_check_handshake(received@, code),
{
    if received.len() != HANDSHAKE_LEN {
        return Err(AuthError::Disconnected);
    }
    if received[0] != PROTOCOL_VERSION {
        return Err(AuthError::VersionConflict);
    }
    let response = u16_from_be_bytes(received[1], received[2]);
    if response != code {
        return Err(AuthError::WrongCode);
    }
    Ok(())
}

/// A handshake is accepted exactly when it is the protocol version followed
/// by the code in big endian.
pub proof fn lemma_handshake_accepts_only_the_code(received: Seq<u8>, code: u16)
    ensures
        spec_check_handshake(received, code) is Ok <==> received == seq![PROTOCOL_VERSION]
            + be_bytes_u16(code),
{
    let expected = seq![PROTOCOL_VERSION] + be_bytes_u16(code);
    if received == expected {
        assert(received[0] == PROTOCOL_VERSION);
        assert(received[1] == be_bytes_u16(code)[0]);
        assert(received[2] == be_bytes_u16(code)[1]);
    }
    if spec_check_handshake(received, code) is Ok {
        assert(received.len() == 3);
        assert(received[1] as int == (code / 256) as u8) by (nonlinear_arith)
            requires
                received[1] * 256 + received[2] == code,
                received[2] < 256,
        ;
        assert(received[2] as int == (code % 256) as u8) by (nonlinear_arith)
            requires
                received[1] * 256 + received[2] == code,
                received[2] < 256,
        ;
        assert(received =~= expected);
    }
}

/// Draws a random value from `low..=high` (`rand::random_range`).
#[verifier::external_body]
fn random_u16_inclusive(low: u16, high: u16) -> (r: u16)
    requires
        low <= high,
    ensures
        low <= r <= high,
{
    rand::random_range(low..=high)
}

/// A fresh authorization code for a connecting client, to be shown to the
/// user and entered on the client.
pub fn authorization_code() -> (r: u16)
    ensures
        AUTH_CODE_MIN <= r <= AUTH_CODE_MAX,
{
    random_u16_inclusive(AUTH_CODE_MIN, AUTH_CODE_MAX)
}


// ---------------------------------------------------------------------------
// The command stream of the control connection

/// Flag of a button command: button id, state.
pub const FLAG_BUTTON: u8 = 2;
/// Flag of a trigger command: trigger id, power.
pub const FLAG_TRIGGER: u8 = 3;
/// Flag of a d-pad command: axis id, direction.
pub const FLAG_DPAD: u8 = 4;
/// Flag of a joystick command: joystick id, x and y in big endian.
pub const FLAG_JOYSTICK: u8 = 5;
/// Flag of a heartbeat, which the server echoes.
pub const FLAG_HEARTBEAT: u8 = 6;

/// How many bytes follow a flag on the control connection (0 for a heartbeat
/// and for an unknown flag).
pub open spec fn spec_payload_len(flag: u8) -> nat {
    if flag == FLAG_BUTTON || flag == FLAG_TRIGGER || flag == FLAG_DPAD {
        2
    } else if flag == FLAG_JOYSTICK {
        5
    } else {
        0
    }
}

/// The input that a command's payload asks for, or `None` where the id in it
/// names no control (or the flag is no command).
pub open spec fn spec_decode_payload(flag: u8, p: Seq<u8>) -> Option<ControllerInput> {
    if flag == FLAG_BUTTON {
        match ControllerButton::from_wire(p[0]) {
            Some(button) => Some(ControllerInput::Button { button, state: p[1] }),
            None => None,
        }
    } else if flag == FLAG_TRIGGER {
        match ControllerTrigger::from_wire(p[0]) {
            Some(trigger) => Some(ControllerInput::Trigger { trigger, power: p[1] }),
            None => None,
        }
    } else if flag == FLAG_DPAD {
        match ControllerDpad::from_wire(p[0]) {
            Some(dpad) => Some(ControllerInput::Dpad { dpad, direction: p[1] }),
            None => None,
        }
    } else if flag == FLAG_JOYSTICK {
        match ControllerJoystick::from_wire(p[0]) {
            Some(joystick) => Some(
                ControllerInput::Joystick {
                    joystick,
                    x: be_i16_value(p[1], p[2]) as i16,
                    y: be_i16_value(p[3], p[4]) as i16,
                },
            ),
            None => None,
        }
    } else {
        None
    }
}

/// The flag under which a client sends an input.
pub open spec fn spec_input_flag(input: ControllerInput) -> u8 {
    match input {
        ControllerInput::Button { .. } => FLAG_BUTTON,
        ControllerInput::Trigger { .. } => FLAG_TRIGGER,
        ControllerInput::Dpad { .. } => FLAG_DPAD,
        ControllerInput::Joystick { .. } => FLAG_JOYSTICK,
    }
}

/// The payload with which a client sends an input.
pub open spec fn spec_input_payload(input: ControllerInput) -> Seq<u8> {
    match input {
        ControllerInput::Button { button, state } => seq![button.wire_id(), state],
        ControllerInput::Trigger { trigger, power } => seq![trigger.wire_id(), power],
        ControllerInput::Dpad { dpad, direction } => seq![dpad.wire_id(), direction],
        ControllerInput::Joystick { joystick, x, y } => seq![joystick.wire_id()] + be_bytes_i16(x)
            + be_bytes_i16(y),
    }
}

/// The number of bytes that follow `flag` on the control connection.
pub fn payload_len(flag: u8) -> (r: usize)
    ensures
        r == spec_payload_len(flag),
{
    if flag == FLAG_BUTTON || flag == FLAG_TRIGGER || flag == FLAG_DPAD {
        2
    } else if flag == FLAG_JOYSTICK {
        5
    } else {
        0
    }
}

/// Decodes the payload of a command with flag `flag`.
pub fn decode_payload(flag: u8, payload: &[u8]) -> (r: Option<ControllerInput>)
    requires
        payload@.len() == spec_payload_len(flag),
    ensures
        r == spec_decode_payload(flag, payload@),
{
    if flag == FLAG_BUTTON {
        match ControllerButton::from_repr(payload[0]) {
            Some(button) => Some(ControllerInput::Button { button, state: payload[1] }),
            None => None,
        }
    } else if flag == FLAG_TRIGGER {
        match ControllerTrigger::from_repr(payload[0]) {
            Some(trigger) => Some(ControllerInput::Trigger { trigger, power: payload[1] }),
            None => None,
        }
    } else if flag == FLAG_DPAD {
        match ControllerDpad::from_repr(payload[0]) {
            Some(dpad) => Some(ControllerInput::Dpad { dpad, direction: payload[1] }),
            None => None,
        }
    } else if flag == FLAG_JOYSTICK {
        match ControllerJoystick::from_repr(payload[0]) {
            Some(joystick) => {
                let x = i16_from_be_bytes(payload[1], payload[2]);
                let y = i16_from_be_bytes(payload[3], payload[4]);
                Some(ControllerInput::Joystick { joystick, x, y })
            },
            None => None,
        }
    } else {
        None
    }
}

/// Where the reader of the control connection stands.
#[derive(Debug, Clone, Copy, PartialEq, Eq, Structural)]
pub enum ReaderState {
    /// The next read is a one-byte flag.
    AwaitingFlag,
    /// The next read is the payload of a command with this flag.
    AwaitingPayload { flag: u8 },
    /// The connection is done with; nothing more is read.
    Closed,
}

/// What the server does after one read of the control connection.
#[derive(Debug, Clone, Copy, PartialEq, Eq, Structural)]
pub enum StreamAction {
    /// Nothing; go on reading.
    Continue,
    /// Apply an input to the controller, then go on reading.
    Apply(ControllerInput),
    /// Feed the idle watchdog and echo the heartbeat, then go on reading.
    Heartbeat,
    /// Stop serving the connection.
    Stop,
}

/// The state after a read that delivered `received`, and what to do.
pub open spec fn spec_step(state: ReaderState, received: Seq<u8>) -> (ReaderState, StreamAction) {
    match state {
        ReaderState::Closed => (ReaderState::Closed, StreamAction::Stop),
        ReaderState::AwaitingFlag => {
            if received.len() != 1 {
                (ReaderState::Closed, StreamAction::Stop)
            } else {
                let flag = received[0];
                if flag == FLAG_HEARTBEAT {
                    (ReaderState::AwaitingFlag, StreamAction::Heartbeat)
                } else if spec_payload_len(flag) > 0 {
                    (ReaderState::AwaitingPayload { flag }, StreamAction::Continue)
                } else {
                    (ReaderState::AwaitingFlag, StreamAction::Continue)
                }
            }
        },
        ReaderState::AwaitingPayload { flag } => {
            if received.len() != spec_payload_len(flag) {
                (ReaderState::Closed, StreamAction::Stop)
            } else {
                match spec_decode_payload(flag, received) {
                    Some(input) => (ReaderState::AwaitingFlag, StreamAction::Apply(input)),
                    None => (ReaderState::AwaitingFlag, StreamAction::Continue),
                }
            }
        },
    }
}

/// How many bytes the next read asks for in a state (0 once closed).
pub open spec fn spec_request_len(state: ReaderState) -> nat {
    match state {
        ReaderState::AwaitingFlag => 1,
        ReaderState::AwaitingPayload { flag } => spec_payload_len(flag),
        ReaderState::Closed => 0,
    }
}

/// A state that the reader can reach: a payload is awaited only after a flag
/// that has one.
pub open spec fn reachable(state: ReaderState) -> bool {
    match state {
        ReaderState::AwaitingPayload { flag } => spec_payload_len(flag) > 0,
        _ => true,
    }
}

/// The decoder of the control connection, fed one read at a time.
#[derive(Debug, Clone, Copy, PartialEq, Eq, Structural)]
pub struct CommandReader {
    pub state: ReaderState,
}

impl CommandReader {
    /// A reader at the start of a connection, awaiting a flag.
    pub fn new() -> (r: Self)
        ensures
            r.state == ReaderState::AwaitingFlag,
    {
        CommandReader { state: ReaderState::AwaitingFlag }
    }

    /// How many bytes to read next: 1 for a flag, the payload's length after a
    /// flag, 0 once the connection is done with.
    pub fn request_len(&self) -> (r: usize)
        ensures
            r == spec_request_len(self.state),
            reachable(self.state) && self.state != ReaderState::Closed ==> r > 0,
    {
        match self.state {
            ReaderState::AwaitingFlag => 1,
            ReaderState::AwaitingPayload { flag } => payload_len(flag),
            ReaderState::Closed => 0,
        }
    }

    /// Takes the bytes that one read delivered (none where the read failed or
    /// the peer closed) and says what to do with them.
    pub fn on_read(&mut self, received: &[u8]) -> (r: StreamAction)
        ensures
            (final(self).state, r) == spec_step(old(self).state, received@),
    {
        match self.state {
            ReaderState::Closed => StreamAction::Stop,
            ReaderState::AwaitingFlag => {
                if received.len() != 1 {
                    self.state = ReaderState::Closed;
                    StreamAction::Stop
                } else {
                    let flag = received[0];
                    if flag == FLAG_HEARTBEAT {
                        StreamAction::Heartbeat
                    } else if payload_len(flag) > 0 {
                        self.state = ReaderState::AwaitingPayload { flag };
                        StreamAction::Continue
                    } else {
                        StreamAction::Continue
                    }
                }
            },
            ReaderState::AwaitingPayload { flag } => {
                if received.len() != payload_len(flag) {
                    self.state = ReaderState::Closed;
                    StreamAction::Stop
                } else {
                    self.state = ReaderState::AwaitingFlag;
                    match decode_payload(flag, received) {
                        Some(input) => StreamAction::Apply(input),
                        None => StreamAction::Continue,
                    }
                }
            },
        }
    }
}

/// Every step from a reachable state leads to a reachable state.
pub proof fn lemma_step_keeps_reachable(state: ReaderState, received: Seq<u8>)
    requires
        reachable(state),
    ensures
        reachable(spec_step(state, received).0),
{
}

/// Once the reader has stopped, every later read stops it again.
pub proof fn lemma_closed_is_final(received: Seq<u8>)
    ensures
        spec_step(ReaderState::Closed, received) == (ReaderState::Closed, StreamAction::Stop),
{
}

/// A read that delivers other than the number of bytes asked for stops the
/// connection.
pub proof fn lemma_short_read_stops(state: ReaderState, received: Seq<u8>)
    requires
        received.len() != spec_request_len(state),
        reachable(state),
    ensures
        spec_step(state, received) == (ReaderState::Closed, StreamAction::Stop),
{
}

/// A heartbeat flag is answered with a heartbeat, and the reader awaits the
/// next flag.
pub proof fn lemma_heartbeat_echoed()
    ensures
        spec_step(ReaderState::AwaitingFlag, seq![FLAG_HEARTBEAT]) == (
            ReaderState::AwaitingFlag,
            StreamAction::Heartbeat,
        ),
{
}

/// Every input that a client sends, flag then payload, is delivered as that
/// same input, and the reader then awaits the next flag.
pub proof fn lemma_command_delivered(input: ControllerInput)
    ensures
        ({
            let flag = spec_input_flag(input);
            let (mid, first) = spec_step(ReaderState::AwaitingFlag, seq![flag]);
            &&& first == StreamAction::Continue
            &&& mid == ReaderState::AwaitingPayload { flag }
            &&& spec_request_len(mid) == spec_input_payload(input).len()
            &&& spec_step(mid, spec_input_payload(input)) == (
                ReaderState::AwaitingFlag,
                StreamAction::Apply(input),
            )
        }),
{
    let p = spec_input_payload(input);
    match input {
        ControllerInput::Button { button, state } => {
            crate::x360::lemma_button_wire_id_roundtrip(button, p[0]);
        },
        ControllerInput::Trigger { trigger, power } => {
            crate::x360::lemma_trigger_wire_id_roundtrip(trigger, p[0]);
        },
        ControllerInput::Dpad { dpad, direction } => {
            crate::x360::lemma_dpad_wire_id_roundtrip(dpad, p[0]);
        },
        ControllerInput::Joystick { joystick, x, y } => {
            crate::x360::lemma_joystick_wire_id_roundtrip(joystick, p[0]);
            lemma_be_i16_roundtrip(x);
            lemma_be_i16_roundtrip(y);
            assert(p[1] == be_bytes_i16(x)[0] && p[2] == be_bytes_i16(x)[1]);
            assert(p[3] == be_bytes_i16(y)[0] && p[4] == be_bytes_i16(y)[1]);
        },
    }
}


/// The state after a series of reads, and what was done after each.
pub open spec fn spec_run(state: ReaderState, reads: Seq<Seq<u8>>) -> (ReaderState, Seq<StreamAction>)
    decreases reads.len(),
{
    if reads.len() == 0 {
        (state, Seq::empty())
    } else {
        let (next, action) = spec_step(state, reads[0]);
        let (last, rest) = spec_run(next, reads.drop_first());
        (last, seq![action] + rest)
    }
}

/// One message that a client sends on the control connection.
#[derive(Debug, Clone, Copy, PartialEq, Eq, Structural)]
pub enum ClientMessage {
    /// An input for the controller.
    Input(ControllerInput),
    /// A heartbeat.
    Heartbeat,
}

/// The reads in which a client's messages arrive: for an input its flag, then
/// its payload; for a heartbeat its flag.
pub open spec fn spec_wire_reads(messages: Seq<ClientMessage>) -> Seq<Seq<u8>>
    decreases messages.len(),
{
    if messages.len() == 0 {
        Seq::empty()
    } else {
        let first = match messages[0] {
            ClientMessage::Input(input) => seq![
                seq![spec_input_flag(input)],
                spec_input_payload(input),
            ],
            ClientMessage::Heartbeat => seq![seq![FLAG_HEARTBEAT]],
        };
        first + spec_wire_reads(messages.drop_first())
    }
}

/// What the server does for a client's messages: for an input nothing after
/// its flag, then the input applied after its payload; for a heartbeat, a
/// heartbeat.
pub open spec fn spec_applied(messages: Seq<ClientMessage>) -> Seq<StreamAction>
    decreases messages.len(),
{
    if messages.len() == 0 {
        Seq::empty()
    } else {
        let first = match messages[0] {
            ClientMessage::Input(input) => seq![
                StreamAction::Continue,
                StreamAction::Apply(input),
            ],
            ClientMessage::Heartbeat => seq![StreamAction::Heartbeat],
        };
        first + spec_applied(messages.drop_first())
    }
}

/// Running one read and then more is running the one, then the rest.
proof fn lemma_run_one_then_rest(state: ReaderState, a: Seq<u8>, rest: Seq<Seq<u8>>)
    ensures
        ({
            let (s1, x) = spec_step(state, a);
            let (s2, z) = spec_run(s1, rest);
            spec_run(state, seq![a] + rest) == (s2, seq![x] + z)
        }),
{
    let reads = seq![a] + rest;
    assert(reads[0] == a);
    assert(reads.drop_first() =~= rest);
}

/// Running two reads and then more is running the two, then the rest.
proof fn lemma_run_two_then_rest(state: ReaderState, a: Seq<u8>, b: Seq<u8>, rest: Seq<Seq<u8>>)
    ensures
        ({
            let (s1, x) = spec_step(state, a);
            let (s2, y) = spec_step(s1, b);
            let (s3, z) = spec_run(s2, rest);
            spec_run(state, seq![a, b] + rest) == (s3, seq![x, y] + z)
        }),
{
    let (s1, x) = spec_step(state, a);
    let (s2, y) = spec_step(s1, b);
    let (s3, z) = spec_run(s2, rest);
    lemma_run_one_then_rest(s1, b, rest);
    lemma_run_one_then_rest(state, a, seq![b] + rest);
    assert(seq![a, b] + rest =~= seq![a] + (seq![b] + rest));
    assert(seq![x] + (seq![y] + z) =~= seq![x, y] + z);
}

/// Whatever inputs and heartbeats a client sends on the control connection,
/// in whatever number and order, the server applies exactly those inputs and
/// answers exactly those heartbeats, one action each, in the order sent, and
/// then awaits the next flag.
pub proof fn lemma_stream_applies_what_was_sent(messages: Seq<ClientMessage>)
    ensures
        spec_run(ReaderState::AwaitingFlag, spec_wire_reads(messages)) == (
            ReaderState::AwaitingFlag,
            spec_applied(messages),
        ),
    decreases messages.len(),
{
    if messages.len() > 0 {
        lemma_stream_applies_what_was_sent(messages.drop_first());
        let rest = spec_wire_reads(messages.drop_first());
        match messages[0] {
            ClientMessage::Input(input) => {
                lemma_command_delivered(input);
                lemma_run_two_then_rest(
                    ReaderState::AwaitingFlag,
                    seq![spec_input_flag(input)],
                    spec_input_payload(input),
                    rest,
                );
            },
            ClientMessage::Heartbeat => {
                lemma_heartbeat_echoed();
                lemma_run_one_then_rest(ReaderState::AwaitingFlag, seq![FLAG_HEARTBEAT], rest);
            },
        }
    }
}

// ---------------------------------------------------------------------------
// Joystick datagrams

/// The length of a joystick datagram: the joystick flag, the joystick id, x
/// and y in big endian.
pub const DATAGRAM_LEN: usize = 6;

/// What the server does with one joystick datagram.
#[derive(Debug, Clone, Copy, PartialEq, Eq, Structural)]
pub enum DatagramAction {
    /// Stop serving joystick datagrams for the client.
    Stop,
    /// Ignore the datagram.
    Skip,
    /// Apply an input to the controller.
    Apply(ControllerInput),
}

/// What to do with a datagram of `size` bytes whose first bytes are `packet`.
pub open spec fn spec_decode_datagram(size: usize, packet: Seq<u8>) -> DatagramAction {
    if size != DATAGRAM_LEN {
        DatagramAction::Stop
    } else if packet[0] != FLAG_JOYSTICK {
        DatagramAction::Skip
    } else {
        match spec_decode_payload(FLAG_JOYSTICK, packet.skip(1)) {
            Some(input) => DatagramAction::Apply(input),
            None => DatagramAction::Skip,
        }
    }
}

/// Decodes a joystick datagram: `size` is the length that the socket reported,
/// `packet` the receive buffer.
pub fn decode_datagram(size: usize, packet: &[u8]) -> (r: DatagramAction)
    requires
        packet@.len() == DATAGRAM_LEN,
    ensures
        r == spec_decode_datagram(size, packet@),
{
    if size != DATAGRAM_LEN {
        return DatagramAction::Stop;
    }
    if packet[0] != FLAG_JOYSTICK {
        return DatagramAction::Skip;
    }
    match ControllerJoystick::from_repr(packet[1]) {
        Some(joystick) => {
            let x = i16_from_be_bytes(packet[2], packet[3]);
            let y = i16_from_be_bytes(packet[4], packet[5]);
            DatagramAction::Apply(ControllerInput::Joystick { joystick, x, y })
        },
        None => DatagramAction::Skip,
    }
}

/// A joystick datagram means the same as the joystick command with the same
/// bytes on the control connection.
pub proof fn lemma_datagram_agrees_with_stream(packet: Seq<u8>)
    requires
        packet.len() == DATAGRAM_LEN,
        packet[0] == FLAG_JOYSTICK,
    ensures
        spec_decode_datagram(DATAGRAM_LEN, packet) == match spec_step(
            ReaderState::AwaitingPayload { flag: FLAG_JOYSTICK },
            packet.skip(1),
        ).1 {
            StreamAction::Apply(input) => DatagramAction::Apply(input),
            _ => DatagramAction::Skip,
        },
{
}

/// Every joystick input sent as a datagram is delivered as that input.
pub proof fn lemma_datagram_delivered(joystick: ControllerJoystick, x: i16, y: i16)
    ensures
        ({
            let input = ControllerInput::Joystick { joystick, x, y };
            spec_decode_datagram(DATAGRAM_LEN, seq![FLAG_JOYSTICK] + spec_input_payload(input))
                == DatagramAction::Apply(input)
        }),
{
    let input = ControllerInput::Joystick { joystick, x, y };
    let packet = seq![FLAG_JOYSTICK] + spec_input_payload(input);
    lemma_command_delivered(input);
    assert(packet.skip(1) =~= spec_input_payload(input));
}

// ---------------------------------------------------------------------------
// Vibration

/// Flag of a vibration command: strength, then duration in big endian.
pub const FLAG_VIBRATION: u8 = 2;

/// The duration that a client is sent for a rumble effect of
/// `replay_length` (a fifth of it).
pub fn rumble_duration(replay_length: u16) -> (r: u16)
    ensures
        r == replay_length / 5,
{
    replay_length / 5
}

/// The vibration command for a client.
pub open spec fn spec_vibration_command(strength: u8, duration: u16) -> Seq<u8> {
    seq![FLAG_VIBRATION, strength] + be_bytes_u16(duration)
}

/// Encodes a vibration command for a client.
pub fn vibration_command(strength: u8, duration: u16) -> (r: Vec<u8>)
    ensures
        r@ == spec_vibration_command(strength, duration),
        r@.len() == 4,
{
    let (hi, lo) = u16_to_be_bytes(duration);
    let r = vec![FLAG_VIBRATION, strength, hi, lo];
    assert(r@ =~= spec_vibration_command(strength, duration));
    r
}

// ---------------------------------------------------------------------------
// Discovery

/// The multicast group on which the server is announced (224.3.29.115).
pub const DISCOVERY_GROUP: [u8; 4] = [224, 3, 29, 115];
/// The port on which clients ask for servers and servers answer.
pub const DISCOVERY_PORT: u16 = 45783;
/// Flag of an announcement: port in big endian, then the host name.
pub const FLAG_ANNOUNCEMENT: u8 = 1;
/// The one byte of a discovery request.
pub const DISCOVERY_REQUEST: u8 = 0;

/// The announcement of a server listening on `port` on host `hostname`.
pub open spec fn spec_announcement(port: u16, hostname: Seq<u8>) -> Seq<u8> {
    seq![FLAG_ANNOUNCEMENT] + be_bytes_u16(port) + hostname
}

/// Encodes the announcement of a server listening on `port` on host
/// `hostname` (its UTF-8 bytes).
pub fn announcement(port: u16, hostname: &[u8]) -> (r: Vec<u8>)
    ensures
        r@ == spec_announcement(port, hostname@),
{
    let (hi, lo) = u16_to_be_bytes(port);
    let mut r: Vec<u8> = vec![FLAG_ANNOUNCEMENT, hi, lo];
    let mut i: usize = 0;
    while i < hostname.len()
        invariant
            i <= hostname@.len(),
            r@ == seq![FLAG_ANNOUNCEMENT] + be_bytes_u16(port) + hostname@.take(i as int),
        decreases hostname@.len() - i,
    {
        r.push(hostname[i]);
        i = i + 1;
        assert(hostname@.take(i as int) =~= hostname@.take(i - 1) + seq![hostname@[i - 1]]);
    }
    assert(hostname@.take(hostname@.len() as int) =~= hostname@);
    r
}

/// Whether a datagram of `received` bytes from `client` asks this server, on
/// `host`, to announce itself: a one-byte discovery request from another host.
pub open spec fn spec_should_announce(received: Seq<u8>, client: u128, host: u128) -> bool {
    received.len() == 1 && received[0] == DISCOVERY_REQUEST && client != host
}

/// Decides whether to answer a datagram on the discovery port; `client` and
/// `host` are the addresses of the sender and of this server.
pub fn should_announce(received: &[u8], client: u128, host: u128) -> (r: bool)
    ensures
        r == spec_should_announce(received@, client, host),
{
    received.len() == 1 && received[0] == DISCOVERY_REQUEST && client != host
}

// ---------------------------------------------------------------------------
// Laws stated over the bytes themselves

/// The big-endian bytes of an unsigned 16-bit integer are its high byte, then
/// its low byte: reading them back as `hi * 256 + lo` gives the integer.
pub proof fn lemma_be_bytes_u16_arith(v: u16)
    ensures
        be_bytes_u16(v).len() == 2,
        be_bytes_u16(v)[0] * 256 + be_bytes_u16(v)[1] == v,
        be_u16_value(be_bytes_u16(v)[0], be_bytes_u16(v)[1]) == v,
{
}

/// The value read from two bytes, as a signed integer, is the unsigned
/// `hi * 256 + lo` taken modulo 65536 into the `i16` range.
pub proof fn lemma_be_i16_value_arith(hi: u8, lo: u8)
    ensures
        -32768 <= be_i16_value(hi, lo) <= 32767,
        (be_i16_value(hi, lo) - (hi * 256 + lo)) % 65536 == 0,
{
}

/// How a command's payload is read: the first byte is the id of the control,
/// which must name one, and the rest are its values: the state, power or
/// direction byte as is, a joystick's x and y as big-endian two's-complement
/// integers (congruent modulo 65536 to `hi * 256 + lo`). A flag that is no
/// command yields nothing.
pub proof fn lemma_payload_decoding(flag: u8, p: Seq<u8>)
    requires
        p.len() == spec_payload_len(flag),
    ensures
        flag == FLAG_BUTTON ==> match spec_decode_payload(flag, p) {
            Some(input) => input matches ControllerInput::Button { button, state } && button.wire_id()
                == p[0] && state == p[1],
            None => p[0] > 10,
        },
        flag == FLAG_TRIGGER ==> match spec_decode_payload(flag, p) {
            Some(input) => input matches ControllerInput::Trigger { trigger, power } && trigger.wire_id()
                == p[0] && power == p[1],
            None => p[0] > 1,
        },
        flag == FLAG_DPAD ==> match spec_decode_payload(flag, p) {
            Some(input) => input matches ControllerInput::Dpad { dpad, direction } && dpad.wire_id()
                == p[0] && direction == p[1],
            None => p[0] > 1,
        },
        flag == FLAG_JOYSTICK ==> match spec_decode_payload(flag, p) {
            Some(input) => input matches ControllerInput::Joystick { joystick, x, y }
                && joystick.wire_id() == p[0] && (x - (p[1] * 256 + p[2])) % 65536 == 0 && (y - (
            p[3] * 256 + p[4])) % 65536 == 0,
            None => p[0] > 1,
        },
        flag != FLAG_BUTTON && flag != FLAG_TRIGGER && flag != FLAG_DPAD && flag != FLAG_JOYSTICK
            ==> spec_decode_payload(flag, p) is None,
{
    if flag == FLAG_JOYSTICK {
        lemma_be_i16_value_arith(p[1], p[2]);
        lemma_be_i16_value_arith(p[3], p[4]);
    }
}

/// How a joystick datagram is read: of other than six bytes, the client's
/// datagrams stop being served; one that is not a joystick command, or names
/// no joystick, is ignored; otherwise the joystick named by its second byte is
/// set to the big-endian x and y that follow.
pub proof fn lemma_datagram_decoding(size: usize, packet: Seq<u8>)
    requires
        packet.len() == DATAGRAM_LEN,
    ensures
        size != 6 ==> spec_decode_datagram(size, packet) == DatagramAction::Stop,
        size == 6 && packet[0] != 5 ==> spec_decode_datagram(size, packet) == DatagramAction::Skip,
        size == 6 && packet[0] == 5 && packet[1] > 1 ==> spec_decode_datagram(size, packet)
            == DatagramAction::Skip,
        size == 6 && packet[0] == 5 && packet[1] <= 1 ==> (spec_decode_datagram(size, packet) matches DatagramAction::Apply(
            ControllerInput::Joystick { joystick, x, y },
        ) && joystick.wire_id() == packet[1] && (x - (packet[2] * 256 + packet[3])) % 65536 == 0
            && (y - (packet[4] * 256 + packet[5])) % 65536 == 0),
{
    let p = packet.skip(1);
    lemma_payload_decoding(FLAG_JOYSTICK, p);
    assert(p[0] == packet[1] && p[1] == packet[2] && p[2] == packet[3]);
    assert(p[3] == packet[4] && p[4] == packet[5]);
}

/// A handshake is accepted exactly when it is three bytes: the protocol
/// version 1, then the high and low byte of the code.
pub proof fn lemma_handshake_bytes(received: Seq<u8>, code: u16)
    ensures
        spec_check_handshake(received, code) is Ok <==> (received.len() == 3 && received[0] == 1
            && received[1] * 256 + received[2] == code),
        received.len() != 3 ==> spec_check_handshake(received, code) == Err::<(), AuthError>(
            AuthError::Disconnected,
        ),
        received.len() == 3 && received[0] != 1 ==> spec_check_handshake(received, code) == Err::<
            (),
            AuthError,
        >(AuthError::VersionConflict),
        received.len() == 3 && received[0] == 1 && received[1] * 256 + received[2] != code
            ==> spec_check_handshake(received, code) == Err::<(), AuthError>(AuthError::WrongCode),
{
}

/// A vibration command is four bytes: the vibration flag 2, the strength, then
/// the duration's high and low byte.
pub proof fn lemma_vibration_command_bytes(strength: u8, duration: u16)
    ensures
        spec_vibration_command(strength, duration).len() == 4,
        spec_vibration_command(strength, duration)[0] == 2,
        spec_vibration_command(strength, duration)[1] == strength,
        spec_vibration_command(strength, duration)[2] * 256 + spec_vibration_command(
            strength,
            duration,
        )[3] == duration,
{
    lemma_be_bytes_u16_arith(duration);
}

/// An announcement is the announcement flag 1, the port's high and low byte,
/// then the host name unchanged.
pub proof fn lemma_announcement_bytes(port: u16, hostname: Seq<u8>)
    ensures
        spec_announcement(port, hostname).len() == 3 + hostname.len(),
        spec_announcement(port, hostname)[0] == 1,
        spec_announcement(port, hostname)[1] * 256 + spec_announcement(port, hostname)[2] == port,
        spec_announcement(port, hostname).skip(3) == hostname,
{
    lemma_be_bytes_u16_arith(port);
    assert(spec_announcement(port, hostname).skip(3) =~= hostname);
}

/// A discovery request, the single byte 0, is answered exactly when it comes
/// from an address other than the server's; nothing else is answered.
pub proof fn lemma_discovery_answered(received: Seq<u8>, client: u128, host: u128)
    ensures
        client != host ==> spec_should_announce(seq![0u8], client, host),
        !spec_should_announce(received, host, host),
        spec_should_announce(received, client, host) ==> received == seq![0u8],
{
    if spec_should_announce(received, client, host) {
        assert(received =~= seq![0u8]);
    }
}

/// What one read of the control connection does, case by case: awaiting a
/// flag, a single byte 6 is a heartbeat, a single byte 2 to 5 awaits that many
/// payload bytes (2, 2, 2, 5), any other single byte is ignored; awaiting a
/// payload, the full payload applies the input it names or, naming no
/// control, is ignored; every other read stops the connection for good.
pub proof fn lemma_step_cases(state: ReaderState, received: Seq<u8>)
    ensures
        state == ReaderState::AwaitingFlag && received.len() == 1 && received[0] == 6
            ==> spec_step(state, received) == (ReaderState::AwaitingFlag, StreamAction::Heartbeat),
        state == ReaderState::AwaitingFlag && received.len() == 1 && 2 <= received[0] <= 5
            ==> spec_step(state, received) == (
            ReaderState::AwaitingPayload { flag: received[0] },
            StreamAction::Continue,
        ) && spec_request_len(ReaderState::AwaitingPayload { flag: received[0] }) == if received[0]
            == 5 {
            5nat
        } else {
            2nat
        },
        state == ReaderState::AwaitingFlag && received.len() == 1 && !(2 <= received[0] <= 6)
            ==> spec_step(state, received) == (ReaderState::AwaitingFlag, StreamAction::Continue),
        state == ReaderState::AwaitingFlag && received.len() != 1 ==> spec_step(state, received)
            == (ReaderState::Closed, StreamAction::Stop),
        state is AwaitingPayload && received.len() == spec_request_len(state) ==> spec_step(
            state,
            received,
        ).0 == ReaderState::AwaitingFlag && match spec_decode_payload(state->flag, received) {
            Some(input) => spec_step(state, received).1 == StreamAction::Apply(input),
            None => spec_step(state, received).1 == StreamAction::Continue,
        },
        state is AwaitingPayload && received.len() != spec_request_len(state) ==> spec_step(
            state,
            received,
        ) == (ReaderState::Closed, StreamAction::Stop),
        state == ReaderState::Closed ==> spec_step(state, received) == (
            ReaderState::Closed,
            StreamAction::Stop,
        ),
{
}

} // verus!
