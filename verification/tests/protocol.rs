use xpalm::protocol::{
    announcement, authorization_code, check_handshake, decode_datagram, decode_payload,
    i16_from_be_bytes, payload_len, rumble_duration, should_announce, u16_from_be_bytes,
    u16_to_be_bytes, vibration_command, AuthError, CommandReader, DatagramAction, ReaderState,
    StreamAction, ClientMessage, AUTH_CODE_MAX, AUTH_CODE_MIN,
};
use xpalm::x360::{
    ControllerButton, ControllerDpad, ControllerInput, ControllerJoystick, ControllerTrigger,
};

#[test]
fn big_endian_matches_std() {
    for v in [0u16, 1, 255, 256, 0x1234, 9999, u16::MAX] {
        let b = v.to_be_bytes();
        assert_eq!(u16_from_be_bytes(b[0], b[1]), v);
        assert_eq!(u16_to_be_bytes(v), (b[0], b[1]));
    }
    for v in [0i16, 1, -1, 127, -128, 0x7fff, i16::MIN, -300] {
        let b = v.to_be_bytes();
        assert_eq!(i16_from_be_bytes(b[0], b[1]), v);
    }
    assert_eq!(i16_from_be_bytes(0xff, 0xfe), -2);
}

#[test]
fn handshake_with_right_code_is_accepted() {
    assert_eq!(check_handshake(&[1, 0x1c, 0x0f], 7183), Ok(()));
}

#[test]
fn handshake_errors() {
    assert_eq!(check_handshake(&[], 2000), Err(AuthError::Disconnected));
    assert_eq!(check_handshake(&[1, 7], 2000), Err(AuthError::Disconnected));
    assert_eq!(check_handshake(&[1, 7, 208, 0], 2000), Err(AuthError::Disconnected));
    assert_eq!(check_handshake(&[2, 7, 208], 2000), Err(AuthError::VersionConflict));
    assert_eq!(check_handshake(&[1, 7, 209], 2000), Err(AuthError::WrongCode));
    assert_eq!(check_handshake(&[1, 7, 208], 2000), Ok(()));
}

#[test]
fn authorization_codes_in_range() {
    for _ in 0..1000 {
        let c = authorization_code();
        assert!((AUTH_CODE_MIN..=AUTH_CODE_MAX).contains(&c));
    }
}

#[test]
fn authorization_codes_vary() {
    let first = authorization_code();
    assert!((0..200).any(|_| authorization_code() != first));
}

#[test]
fn payload_lengths() {
    assert_eq!(payload_len(2), 2);
    assert_eq!(payload_len(3), 2);
    assert_eq!(payload_len(4), 2);
    assert_eq!(payload_len(5), 5);
    assert_eq!(payload_len(6), 0);
    assert_eq!(payload_len(0), 0);
    assert_eq!(payload_len(200), 0);
}

#[test]
fn payload_decoding() {
    assert_eq!(
        decode_payload(2, &[8, 1]),
        Some(ControllerInput::Button { button: ControllerButton::Start, state: 1 })
    );
    assert_eq!(decode_payload(2, &[11, 1]), None);
    assert_eq!(
        decode_payload(3, &[0, 128]),
        Some(ControllerInput::Trigger { trigger: ControllerTrigger::Left, power: 128 })
    );
    assert_eq!(
        decode_payload(4, &[1, 255]),
        Some(ControllerInput::Dpad { dpad: ControllerDpad::LeftRight, direction: 255 })
    );
    assert_eq!(
        decode_payload(5, &[1, 0x80, 0x00, 0x7f, 0xff]),
        Some(ControllerInput::Joystick { joystick: ControllerJoystick::Right, x: -32768, y: 32767 })
    );
    assert_eq!(decode_payload(5, &[2, 0, 0, 0, 0]), None);
    assert_eq!(decode_payload(9, &[]), None);
}

#[test]
fn stream_delivers_commands() {
    let mut r = CommandReader::new();
    assert_eq!(r.request_len(), 1);
    assert_eq!(r.on_read(&[2]), StreamAction::Continue);
    assert_eq!(r.state, ReaderState::AwaitingPayload { flag: 2 });
    assert_eq!(r.request_len(), 2);
    assert_eq!(
        r.on_read(&[0, 1]),
        StreamAction::Apply(ControllerInput::Button { button: ControllerButton::A, state: 1 })
    );
    assert_eq!(r.state, ReaderState::AwaitingFlag);
    assert_eq!(r.on_read(&[5]), StreamAction::Continue);
    assert_eq!(r.request_len(), 5);
    assert_eq!(
        r.on_read(&[0, 0xff, 0xff, 0x00, 0x10]),
        StreamAction::Apply(ControllerInput::Joystick {
            joystick: ControllerJoystick::Left,
            x: -1,
            y: 16
        })
    );
}

#[test]
fn stream_heartbeat_and_unknown_flags() {
    let mut r = CommandReader::new();
    assert_eq!(r.on_read(&[6]), StreamAction::Heartbeat);
    assert_eq!(r.state, ReaderState::AwaitingFlag);
    assert_eq!(r.on_read(&[0]), StreamAction::Continue);
    assert_eq!(r.on_read(&[42]), StreamAction::Continue);
    assert_eq!(r.state, ReaderState::AwaitingFlag);
    assert_eq!(r.on_read(&[3]), StreamAction::Continue);
    assert_eq!(r.on_read(&[9, 9]), StreamAction::Continue);
    assert_eq!(r.state, ReaderState::AwaitingFlag);
}

#[test]
fn stream_stops_on_short_reads_for_good() {
    let mut r = CommandReader::new();
    assert_eq!(r.on_read(&[]), StreamAction::Stop);
    assert_eq!(r.state, ReaderState::Closed);
    assert_eq!(r.request_len(), 0);
    assert_eq!(r.on_read(&[6]), StreamAction::Stop);

    let mut r = CommandReader::new();
    assert_eq!(r.on_read(&[4]), StreamAction::Continue);
    assert_eq!(r.on_read(&[1]), StreamAction::Stop);
    assert_eq!(r.on_read(&[4]), StreamAction::Stop);
}

#[test]
fn datagrams() {
    let packet = [5, 0, 0x01, 0x00, 0xff, 0x00];
    assert_eq!(
        decode_datagram(6, &packet),
        DatagramAction::Apply(ControllerInput::Joystick {
            joystick: ControllerJoystick::Left,
            x: 256,
            y: -256
        })
    );
    assert_eq!(decode_datagram(5, &packet), DatagramAction::Stop);
    assert_eq!(decode_datagram(7, &packet), DatagramAction::Stop);
    assert_eq!(decode_datagram(6, &[4, 0, 0, 0, 0, 0]), DatagramAction::Skip);
    assert_eq!(decode_datagram(6, &[5, 2, 0, 0, 0, 0]), DatagramAction::Skip);
}

#[test]
fn datagram_agrees_with_stream() {
    let payload = [1u8, 0x12, 0x34, 0xab, 0xcd];
    let mut r = CommandReader::new();
    r.on_read(&[5]);
    let from_stream = r.on_read(&payload);
    let mut packet = vec![5u8];
    packet.extend_from_slice(&payload);
    match (from_stream, decode_datagram(6, &packet)) {
        (StreamAction::Apply(a), DatagramAction::Apply(b)) => assert_eq!(a, b),
        other => panic!("{:?}", other),
    }
}

#[test]
fn vibration_commands() {
    assert_eq!(vibration_command(200, 0x0102), vec![2, 200, 1, 2]);
    assert_eq!(rumble_duration(1000), 200);
    assert_eq!(rumble_duration(4), 0);
    assert_eq!(rumble_duration(u16::MAX), 13107);
}

#[test]
fn announcements() {
    assert_eq!(announcement(45784, b"box"), vec![1, 0xb2, 0xd8, b'b', b'o', b'x']);
    assert_eq!(announcement(1, b""), vec![1, 0, 1]);
    assert!(should_announce(&[0], 1, 2));
    assert!(!should_announce(&[0], 2, 2));
    assert!(!should_announce(&[1], 1, 2));
    assert!(!should_announce(&[], 1, 2));
    assert!(!should_announce(&[0, 0], 1, 2));
}

fn wire(input: ControllerInput) -> (u8, Vec<u8>) {
    match input {
        ControllerInput::Button { button, state } => (2, vec![button as u8, state]),
        ControllerInput::Trigger { trigger, power } => (3, vec![trigger as u8, power]),
        ControllerInput::Dpad { dpad, direction } => (4, vec![dpad as u8, direction]),
        ControllerInput::Joystick { joystick, x, y } => {
            let mut p = vec![joystick as u8];
            p.extend_from_slice(&x.to_be_bytes());
            p.extend_from_slice(&y.to_be_bytes());
            (5, p)
        }
    }
}

#[test]
fn stream_applies_what_was_sent_in_order() {
    let messages = [
        ClientMessage::Heartbeat,
        ClientMessage::Input(ControllerInput::Button { button: ControllerButton::Back, state: 0 }),
        ClientMessage::Input(ControllerInput::Joystick {
            joystick: ControllerJoystick::Left,
            x: -1234,
            y: 4321,
        }),
        ClientMessage::Heartbeat,
        ClientMessage::Heartbeat,
        ClientMessage::Input(ControllerInput::Dpad { dpad: ControllerDpad::UpDown, direction: 1 }),
        ClientMessage::Input(ControllerInput::Trigger {
            trigger: ControllerTrigger::Right,
            power: 77,
        }),
        ClientMessage::Heartbeat,
        ClientMessage::Input(ControllerInput::Button { button: ControllerButton::Guide, state: 1 }),
    ];
    let mut r = CommandReader::new();
    let mut seen = Vec::new();
    for message in messages.iter() {
        match message {
            ClientMessage::Input(input) => {
                let (flag, payload) = wire(*input);
                assert_eq!(r.on_read(&[flag]), StreamAction::Continue);
                assert_eq!(r.request_len(), payload.len());
                match r.on_read(&payload) {
                    StreamAction::Apply(i) => seen.push(ClientMessage::Input(i)),
                    other => panic!("{:?}", other),
                }
            }
            ClientMessage::Heartbeat => {
                assert_eq!(r.on_read(&[6]), StreamAction::Heartbeat);
                seen.push(ClientMessage::Heartbeat);
            }
        }
    }
    assert_eq!(seen, messages.to_vec());
    assert_eq!(r.state, ReaderState::AwaitingFlag);
}
