use evdev::{AbsoluteAxisCode, BusType, FFEffectCode, KeyCode};
use xpalm::x360::{
    controller_axes, controller_ff_effects, controller_keys, ControllerButton, ControllerDpad,
    ControllerInput, ControllerJoystick, ControllerTrigger, DeviceEvent, EventKind,
    DEVICE_BUS_TYPE, DEVICE_FF_EFFECTS_MAX, DEVICE_NAME, DEVICE_PRODUCT, DEVICE_VENDOR,
    DEVICE_VERSION,
};

const BUTTONS: [ControllerButton; 11] = [
    ControllerButton::A,
    ControllerButton::B,
    ControllerButton::Y,
    ControllerButton::X,
    ControllerButton::LB,
    ControllerButton::RB,
    ControllerButton::BL,
    ControllerButton::BR,
    ControllerButton::Start,
    ControllerButton::Back,
    ControllerButton::Guide,
];

#[test]
fn button_ids_follow_declaration_order() {
    for (i, b) in BUTTONS.iter().enumerate() {
        assert_eq!(ControllerButton::from_repr(i as u8), Some(*b));
    }
    assert_eq!(ControllerButton::from_repr(11), None);
    assert_eq!(ControllerButton::from_repr(255), None);
}

#[test]
fn small_enum_ids() {
    assert_eq!(ControllerTrigger::from_repr(0), Some(ControllerTrigger::Left));
    assert_eq!(ControllerTrigger::from_repr(1), Some(ControllerTrigger::Right));
    assert_eq!(ControllerTrigger::from_repr(2), None);
    assert_eq!(ControllerDpad::from_repr(0), Some(ControllerDpad::UpDown));
    assert_eq!(ControllerDpad::from_repr(1), Some(ControllerDpad::LeftRight));
    assert_eq!(ControllerDpad::from_repr(2), None);
    assert_eq!(ControllerJoystick::from_repr(0), Some(ControllerJoystick::Left));
    assert_eq!(ControllerJoystick::from_repr(1), Some(ControllerJoystick::Right));
    assert_eq!(ControllerJoystick::from_repr(7), None);
}

#[test]
fn button_key_codes_match_evdev() {
    let expected = [
        KeyCode::BTN_SOUTH,
        KeyCode::BTN_EAST,
        KeyCode::BTN_WEST,
        KeyCode::BTN_NORTH,
        KeyCode::BTN_TL,
        KeyCode::BTN_TR,
        KeyCode::BTN_THUMBL,
        KeyCode::BTN_THUMBR,
        KeyCode::BTN_START,
        KeyCode::BTN_SELECT,
        KeyCode::BTN_MODE,
    ];
    for (b, k) in BUTTONS.iter().zip(expected.iter()) {
        assert_eq!(b.key_code(), k.code());
    }
}

#[test]
fn button_key_codes_are_distinct() {
    for a in BUTTONS.iter() {
        for b in BUTTONS.iter() {
            if a != b {
                assert_ne!(a.key_code(), b.key_code());
            }
        }
    }
}

#[test]
fn axis_codes_match_evdev() {
    assert_eq!(ControllerTrigger::Left.key_code(), AbsoluteAxisCode::ABS_Z.0);
    assert_eq!(ControllerTrigger::Right.key_code(), AbsoluteAxisCode::ABS_RZ.0);
    assert_eq!(ControllerDpad::UpDown.key_code(), AbsoluteAxisCode::ABS_HAT0Y.0);
    assert_eq!(ControllerDpad::LeftRight.key_code(), AbsoluteAxisCode::ABS_HAT0X.0);
    assert_eq!(
        ControllerJoystick::Left.key_code(),
        (AbsoluteAxisCode::ABS_X.0, AbsoluteAxisCode::ABS_Y.0)
    );
    assert_eq!(
        ControllerJoystick::Right.key_code(),
        (AbsoluteAxisCode::ABS_RX.0, AbsoluteAxisCode::ABS_RY.0)
    );
}

#[test]
fn button_input_is_one_key_event() {
    let input = ControllerInput::Button { button: ControllerButton::Guide, state: 1 };
    assert_eq!(
        input.events(),
        vec![DeviceEvent { kind: EventKind::Key, code: 0x13c, value: 1 }]
    );
}

#[test]
fn trigger_and_dpad_inputs_are_axis_events() {
    let input = ControllerInput::Trigger { trigger: ControllerTrigger::Right, power: 255 };
    assert_eq!(
        input.events(),
        vec![DeviceEvent { kind: EventKind::AbsoluteAxis, code: 0x05, value: 255 }]
    );
    let input = ControllerInput::Dpad { dpad: ControllerDpad::UpDown, direction: 255 };
    assert_eq!(
        input.events(),
        vec![DeviceEvent { kind: EventKind::AbsoluteAxis, code: 0x11, value: 255 }]
    );
}

#[test]
fn joystick_input_is_x_then_y() {
    let input =
        ControllerInput::Joystick { joystick: ControllerJoystick::Right, x: -32768, y: 32767 };
    assert_eq!(
        input.events(),
        vec![
            DeviceEvent { kind: EventKind::AbsoluteAxis, code: 0x03, value: -32768 },
            DeviceEvent { kind: EventKind::AbsoluteAxis, code: 0x04, value: 32767 },
        ]
    );
}

#[test]
fn device_declares_every_control() {
    let keys = controller_keys();
    assert_eq!(keys.len(), 11);
    for b in BUTTONS.iter() {
        assert!(keys.contains(&b.key_code()));
    }
    let axes = controller_axes();
    assert_eq!(axes.len(), 8);
    let codes: Vec<u16> = axes.iter().map(|a| a.code).collect();
    assert_eq!(codes, vec![0x00, 0x01, 0x03, 0x04, 0x02, 0x05, 0x10, 0x11]);
    assert_eq!((axes[0].minimum, axes[0].maximum, axes[0].fuzz, axes[0].flat), (-32768, 32767, 16, 128));
    assert_eq!((axes[4].minimum, axes[4].maximum), (0, 255));
    assert_eq!((axes[7].minimum, axes[7].maximum), (-1, 1));
}

#[test]
fn device_description() {
    assert_eq!(DEVICE_NAME, "XPalm Controller");
    assert_eq!(DEVICE_BUS_TYPE, BusType::BUS_USB.0);
    assert_eq!((DEVICE_VENDOR, DEVICE_PRODUCT, DEVICE_VERSION), (0x045e, 0x028e, 0x0114));
    assert_eq!(DEVICE_FF_EFFECTS_MAX, 16);
    assert_eq!(controller_ff_effects(), vec![FFEffectCode::FF_RUMBLE.0]);
}

#[test]
fn no_two_controls_share_an_axis() {
    let mut codes = vec![
        ControllerTrigger::Left.key_code(),
        ControllerTrigger::Right.key_code(),
        ControllerDpad::UpDown.key_code(),
        ControllerDpad::LeftRight.key_code(),
    ];
    for j in [ControllerJoystick::Left, ControllerJoystick::Right] {
        let (x, y) = j.key_code();
        codes.push(x);
        codes.push(y);
    }
    let mut sorted = codes.clone();
    sorted.sort();
    sorted.dedup();
    assert_eq!(sorted.len(), codes.len());
}
