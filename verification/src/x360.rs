//! The virtual XBox 360 controller: its buttons, triggers, d-pad axes and
//! joysticks, the ids by which clients name them, and the Linux input events
//! that each client input becomes.

use vstd::prelude::*;

verus! {

/// A button of the controller, by the id a client sends for it.
#[derive(Debug, Clone, Copy, PartialEq, Eq, Structural)]
pub enum ControllerButton {
    A,
    B,
    Y,
    X,
    LB,
    RB,
    BL,
    BR,
    Start,
    Back,
    Guide,
}

impl ControllerButton {
    /// The id of the button on the wire (its declaration index).
    pub open spec fn wire_id(self) -> u8 {
        match self {
            ControllerButton::A => 0,
            ControllerButton::B => 1,
            ControllerButton::Y => 2,
            ControllerButton::X => 3,
            ControllerButton::LB => 4,
            ControllerButton::RB => 5,
            ControllerButton::BL => 6,
            ControllerButton::BR => 7,
            ControllerButton::Start => 8,
            ControllerButton::Back => 9,
            ControllerButton::Guide => 10,
        }
    }

    /// The button that a wire id names, if any.
    pub open spec fn from_wire(id: u8) -> Option<Self> {
        if id == 0 { Some(ControllerButton::A) }
        else if id == 1 { Some(ControllerButton::B) }
        else if id == 2 { Some(ControllerButton::Y) }
        else if id == 3 { Some(ControllerButton::X) }
        else if id == 4 { Some(ControllerButton::LB) }
        else if id == 5 { Some(ControllerButton::RB) }
        else if id == 6 { Some(ControllerButton::BL) }
        else if id == 7 { Some(ControllerButton::BR) }
        else if id == 8 { Some(ControllerButton::Start) }
        else if id == 9 { Some(ControllerButton::Back) }
        else if id == 10 { Some(ControllerButton::Guide) }
        else { None }
    }

    /// The Linux key code of the button (`BTN_SOUTH` ... `BTN_MODE` of
    /// `input-event-codes.h`).
    pub open spec fn spec_key_code(self) -> u16 {
        match self {
            ControllerButton::A => 0x130,
            ControllerButton::B => 0x131,
            ControllerButton::Y => 0x134,
            ControllerButton::X => 0x133,
            ControllerButton::LB => 0x136,
            ControllerButton::RB => 0x137,
            ControllerButton::BL => 0x13d,
            ControllerButton::BR => 0x13e,
            ControllerButton::Start => 0x13b,
            ControllerButton::Back => 0x13a,
            ControllerButton::Guide => 0x13c,
        }
    }

    /// The button with wire id `id`; `None` for an id past the last button.
    pub fn from_repr(id: u8) -> (r: Option<Self>)
        ensures
            r == Self::from_wire(id),
            r is None <==> id > 10,
            r matches Some(b) ==> b.wire_id() == id,
    {
        match id {
            0 => Some(ControllerButton::A),
            1 => Some(ControllerButton::B),
            2 => Some(ControllerButton::Y),
            3 => Some(ControllerButton::X),
            4 => Some(ControllerButton::LB),
            5 => Some(ControllerButton::RB),
            6 => Some(ControllerButton::BL),
            7 => Some(ControllerButton::BR),
            8 => Some(ControllerButton::Start),
            9 => Some(ControllerButton::Back),
            10 => Some(ControllerButton::Guide),
            _ => None,
        }
    }

    /// The Linux key code that the virtual device reports for the button.
    pub fn key_code(self) -> (r: u16)
        ensures
            r == self.spec_key_code(),
    {
        match self {
            ControllerButton::A => 0x130,
            ControllerButton::B => 0x131,
            ControllerButton::Y => 0x134,
            ControllerButton::X => 0x133,
            ControllerButton::LB => 0x136,
            ControllerButton::RB => 0x137,
            ControllerButton::BL => 0x13d,
            ControllerButton::BR => 0x13e,
            ControllerButton::Start => 0x13b,
            ControllerButton::Back => 0x13a,
            ControllerButton::Guide => 0x13c,
        }
    }
}

/// An analog trigger of the controller.
#[derive(Debug, Clone, Copy, PartialEq, Eq, Structural)]
pub enum ControllerTrigger {
    Left,
    Right,
}

impl ControllerTrigger {
    /// The id of the trigger on the wire.
    pub open spec fn wire_id(self) -> u8 {
        match self {
            ControllerTrigger::Left => 0,
            ControllerTrigger::Right => 1,
        }
    }

    /// The trigger that a wire id names, if any.
    pub open spec fn from_wire(id: u8) -> Option<Self> {
        if id == 0 { Some(ControllerTrigger::Left) }
        else if id == 1 { Some(ControllerTrigger::Right) }
        else { None }
    }

    /// The absolute axis of the trigger (`ABS_Z`, `ABS_RZ`).
    pub open spec fn spec_key_code(self) -> u16 {
        match self {
            ControllerTrigger::Left => 0x02,
            ControllerTrigger::Right => 0x05,
        }
    }

    /// The trigger with wire id `id`, if any.
    pub fn from_repr(id: u8) -> (r: Option<Self>)
        ensures
            r == Self::from_wire(id),
            r is None <==> id > 1,
            r matches Some(t) ==> t.wire_id() == id,
    {
        match id {
            0 => Some(ControllerTrigger::Left),
            1 => Some(ControllerTrigger::Right),
            _ => None,
        }
    }

    /// The absolute axis code that the virtual device reports for the trigger.
    pub fn key_code(self) -> (r: u16)
        ensures
            r == self.spec_key_code(),
    {
        match self {
            ControllerTrigger::Left => 0x02,
            ControllerTrigger::Right => 0x05,
        }
    }
}

/// An axis of the directional pad.
#[derive(Debug, Clone, Copy, PartialEq, Eq, Structural)]
pub enum ControllerDpad {
    UpDown,
    LeftRight,
}

impl ControllerDpad {
    /// The id of the d-pad axis on the wire.
    pub open spec fn wire_id(self) -> u8 {
        match self {
            ControllerDpad::UpDown => 0,
            ControllerDpad::LeftRight => 1,
        }
    }

    /// The d-pad axis that a wire id names, if any.
    pub open spec fn from_wire(id: u8) -> Option<Self> {
        if id == 0 { Some(ControllerDpad::UpDown) }
        else if id == 1 { Some(ControllerDpad::LeftRight) }
        else { None }
    }

    /// The absolute axis of the d-pad axis (`ABS_HAT0Y`, `ABS_HAT0X`).
    pub open spec fn spec_key_code(self) -> u16 {
        match self {
            ControllerDpad::UpDown => 0x11,
            ControllerDpad::LeftRight => 0x10,
        }
    }

    /// The d-pad axis with wire id `id`, if any.
    pub fn from_repr(id: u8) -> (r: Option<Self>)
        ensures
            r == Self::from_wire(id),
            r is None <==> id > 1,
            r matches Some(d) ==> d.wire_id() == id,
    {
        match id {
            0 => Some(ControllerDpad::UpDown),
            1 => Some(ControllerDpad::LeftRight),
            _ => None,
        }
    }

    /// The absolute axis code that the virtual device reports for the d-pad axis.
    pub fn key_code(self) -> (r: u16)
        ensures
            r == self.spec_key_code(),
    {
        match self {
            ControllerDpad::UpDown => 0x11,
            ControllerDpad::LeftRight => 0x10,
        }
    }
}

/// A joystick of the controller.
#[derive(Debug, Clone, Copy, PartialEq, Eq, Structural)]
pub enum ControllerJoystick {
    Left,
    Right,
}

impl ControllerJoystick {
    /// The id of the joystick on the wire.
    pub open spec fn wire_id(self) -> u8 {
        match self {
            ControllerJoystick::Left => 0,
            ControllerJoystick::Right => 1,
        }
    }

    /// The joystick that a wire id names, if any.
    pub open spec fn from_wire(id: u8) -> Option<Self> {
        if id == 0 { Some(ControllerJoystick::Left) }
        else if id == 1 { Some(ControllerJoystick::Right) }
        else { None }
    }

    /// The horizontal and vertical axes of the joystick
    /// (`ABS_X`/`ABS_Y`, `ABS_RX`/`ABS_RY`).
    pub open spec fn spec_key_code(self) -> (u16, u16) {
        match self {
            ControllerJoystick::Left => (0x00, 0x01),
            ControllerJoystick::Right => (0x03, 0x04),
        }
    }

    /// The joystick with wire id `id`, if any.
    pub fn from_repr(id: u8) -> (r: Option<Self>)
        ensures
            r == Self::from_wire(id),
            r is None <==> id > 1,
            r matches Some(j) ==> j.wire_id() == id,
    {
        match id {
            0 => Some(ControllerJoystick::Left),
            1 => Some(ControllerJoystick::Right),
            _ => None,
        }
    }

    /// The absolute axis codes (horizontal, vertical) that the virtual device
    /// reports for the joystick.
    pub fn key_code(self) -> (r: (u16, u16))
        ensures
            r == self.spec_key_code(),
    {
        match self {
            ControllerJoystick::Left => (0x00, 0x01),
            ControllerJoystick::Right => (0x03, 0x04),
        }
    }
}


/// Each wire id names at most one button, and every button is named by its
/// own wire id.
pub proof fn lemma_button_wire_id_roundtrip(button: ControllerButton, id: u8)
    ensures
        ControllerButton::from_wire(button.wire_id()) == Some(button),
        ControllerButton::from_wire(id) == Some(button) <==> button.wire_id() == id,
{
}

/// Each wire id names at most one trigger, and every trigger is named by its
/// own wire id.
pub proof fn lemma_trigger_wire_id_roundtrip(trigger: ControllerTrigger, id: u8)
    ensures
        ControllerTrigger::from_wire(trigger.wire_id()) == Some(trigger),
        ControllerTrigger::from_wire(id) == Some(trigger) <==> trigger.wire_id() == id,
{
}

/// Each wire id names at most one d-pad axis, and every d-pad axis is named by
/// its own wire id.
pub proof fn lemma_dpad_wire_id_roundtrip(dpad: ControllerDpad, id: u8)
    ensures
        ControllerDpad::from_wire(dpad.wire_id()) == Some(dpad),
        ControllerDpad::from_wire(id) == Some(dpad) <==> dpad.wire_id() == id,
{
}

/// Each wire id names at most one joystick, and every joystick is named by
/// its own wire id.
pub proof fn lemma_joystick_wire_id_roundtrip(joystick: ControllerJoystick, id: u8)
    ensures
        ControllerJoystick::from_wire(joystick.wire_id()) == Some(joystick),
        ControllerJoystick::from_wire(id) == Some(joystick) <==> joystick.wire_id() == id,
{
}

/// Two different buttons are reported as two different keys.
pub proof fn lemma_button_key_codes_distinct(a: ControllerButton, b: ControllerButton)
    requires
        a != b,
    ensures
        a.spec_key_code() != b.spec_key_code(),
{
}

/// No two controls of the device share an absolute axis: the two triggers,
/// the two d-pad axes and the four joystick axes are all distinct, and no
/// trigger, d-pad axis or joystick axis shares one with another kind.
pub proof fn lemma_axes_distinct(
    t: ControllerTrigger,
    t2: ControllerTrigger,
    d: ControllerDpad,
    d2: ControllerDpad,
    j: ControllerJoystick,
    k: ControllerJoystick,
)
    ensures
        t != t2 ==> t.spec_key_code() != t2.spec_key_code(),
        d != d2 ==> d.spec_key_code() != d2.spec_key_code(),
        j != k ==> j.spec_key_code().0 != k.spec_key_code().0,
        j != k ==> j.spec_key_code().1 != k.spec_key_code().1,
        j.spec_key_code().0 != k.spec_key_code().1,
        t.spec_key_code() != d.spec_key_code(),
        t.spec_key_code() != j.spec_key_code().0,
        t.spec_key_code() != j.spec_key_code().1,
        d.spec_key_code() != j.spec_key_code().0,
        d.spec_key_code() != j.spec_key_code().1,
{
}

/// The kind of a Linux input event emitted by the virtual device.
#[derive(Debug, Clone, Copy, PartialEq, Eq, Structural)]
pub enum EventKind {
    /// A key (button) event, `EV_KEY`.
    Key,
    /// An absolute axis event, `EV_ABS`.
    AbsoluteAxis,
}

/// One input event for the virtual device: its kind, its code and its value.
#[derive(Debug, Clone, Copy, PartialEq, Eq, Structural)]
pub struct DeviceEvent {
    pub kind: EventKind,
    pub code: u16,
    pub value: i32,
}

/// One input that a client asks of the controller.
#[derive(Debug, Clone, Copy, PartialEq, Eq, Structural)]
pub enum ControllerInput {
    /// Set the state of a button.
    Button { button: ControllerButton, state: u8 },
    /// Set how far a trigger is pressed.
    Trigger { trigger: ControllerTrigger, power: u8 },
    /// Set the position of a d-pad axis.
    Dpad { dpad: ControllerDpad, direction: u8 },
    /// Set the position of a joystick.
    Joystick { joystick: ControllerJoystick, x: i16, y: i16 },
}

impl ControllerInput {
    /// The events that the input becomes on the virtual device, in order: one
    /// event for a button, a trigger or a d-pad axis, and for a joystick the
    /// horizontal axis then the vertical one.
    pub open spec fn spec_events(self) -> Seq<DeviceEvent> {
        match self {
            ControllerInput::Button { button, state } => seq![
                DeviceEvent { kind: EventKind::Key, code: button.spec_key_code(), value: state as i32 },
            ],
            ControllerInput::Trigger { trigger, power } => seq![
                DeviceEvent {
                    kind: EventKind::AbsoluteAxis,
                    code: trigger.spec_key_code(),
                    value: power as i32,
                },
            ],
            ControllerInput::Dpad { dpad, direction } => seq![
                DeviceEvent {
                    kind: EventKind::AbsoluteAxis,
                    code: dpad.spec_key_code(),
                    value: direction as i32,
                },
            ],
            ControllerInput::Joystick { joystick, x, y } => seq![
                DeviceEvent {
                    kind: EventKind::AbsoluteAxis,
                    code: joystick.spec_key_code().0,
                    value: x as i32,
                },
                DeviceEvent {
                    kind: EventKind::AbsoluteAxis,
                    code: joystick.spec_key_code().1,
                    value: y as i32,
                },
            ],
        }
    }

    /// The events to emit on the virtual device for this input.
    pub fn events(&self) -> (r: Vec<DeviceEvent>)
        ensures
            r@ == self.spec_events(),
    {
        match *self {
            ControllerInput::Button { button, state } => {
                let code = button.key_code();
                let value: i32 = state as i32;
                vec![DeviceEvent { kind: EventKind::Key, code, value }]
            },
            ControllerInput::Trigger { trigger, power } => {
                let code = trigger.key_code();
                let value: i32 = power as i32;
                vec![DeviceEvent { kind: EventKind::AbsoluteAxis, code, value }]
            },
            ControllerInput::Dpad { dpad, direction } => {
                let code = dpad.key_code();
                let value: i32 = direction as i32;
                vec![DeviceEvent { kind: EventKind::AbsoluteAxis, code, value }]
            },
            ControllerInput::Joystick { joystick, x, y } => {
                let (code_x, code_y) = joystick.key_code();
                let value_x: i32 = x as i32;
                let value_y: i32 = y as i32;
                vec![
                    DeviceEvent { kind: EventKind::AbsoluteAxis, code: code_x, value: value_x },
                    DeviceEvent { kind: EventKind::AbsoluteAxis, code: code_y, value: value_y },
                ]
            },
        }
    }
}

/// The range and filtering of one absolute axis of the virtual device.
#[derive(Debug, Clone, Copy, PartialEq, Eq, Structural)]
pub struct AxisSetup {
    pub code: u16,
    pub value: i32,
    pub minimum: i32,
    pub maximum: i32,
    pub fuzz: i32,
    pub flat: i32,
    pub resolution: i32,
}

/// The setup of a joystick axis: the full `i16` range, fuzz 16, flat 128.
pub open spec fn joystick_axis(code: u16) -> AxisSetup {
    AxisSetup { code, value: 0, minimum: -32768i32, maximum: 32767, fuzz: 16, flat: 128, resolution: 0 }
}

/// The setup of a trigger axis: from 0 to 255.
pub open spec fn trigger_axis(code: u16) -> AxisSetup {
    AxisSetup { code, value: 0, minimum: 0, maximum: 255, fuzz: 0, flat: 0, resolution: 0 }
}

/// The setup of a d-pad axis: from -1 to 1.
pub open spec fn hat_axis(code: u16) -> AxisSetup {
    AxisSetup { code, value: 0, minimum: -1i32, maximum: 1, fuzz: 0, flat: 0, resolution: 0 }
}

/// The absolute axes of the virtual device, in the order they are declared.
pub open spec fn spec_controller_axes() -> Seq<AxisSetup> {
    seq![
        joystick_axis(ControllerJoystick::Left.spec_key_code().0),
        joystick_axis(ControllerJoystick::Left.spec_key_code().1),
        joystick_axis(ControllerJoystick::Right.spec_key_code().0),
        joystick_axis(ControllerJoystick::Right.spec_key_code().1),
        trigger_axis(ControllerTrigger::Left.spec_key_code()),
        trigger_axis(ControllerTrigger::Right.spec_key_code()),
        hat_axis(ControllerDpad::LeftRight.spec_key_code()),
        hat_axis(ControllerDpad::UpDown.spec_key_code()),
    ]
}

/// The keys of the virtual device, in the order they are declared.
pub open spec fn spec_controller_keys() -> Seq<u16> {
    seq![
        ControllerButton::A.spec_key_code(),
        ControllerButton::B.spec_key_code(),
        ControllerButton::Y.spec_key_code(),
        ControllerButton::X.spec_key_code(),
        ControllerButton::LB.spec_key_code(),
        ControllerButton::RB.spec_key_code(),
        ControllerButton::BL.spec_key_code(),
        ControllerButton::BR.spec_key_code(),
        ControllerButton::Back.spec_key_code(),
        ControllerButton::Start.spec_key_code(),
        ControllerButton::Guide.spec_key_code(),
    ]
}

/// The name of the virtual device.
pub const DEVICE_NAME: &'static str = "XPalm Controller";
/// The bus type of the virtual device (`BUS_USB`).
pub const DEVICE_BUS_TYPE: u16 = 0x03;
/// The vendor id of the virtual device (Microsoft).
pub const DEVICE_VENDOR: u16 = 0x045e;
/// The product id of the virtual device (XBox 360 controller).
pub const DEVICE_PRODUCT: u16 = 0x028e;
/// The version of the virtual device.
pub const DEVICE_VERSION: u16 = 0x0114;
/// The most force-feedback effects the virtual device holds at once.
pub const DEVICE_FF_EFFECTS_MAX: u32 = 16;
/// The rumble force-feedback effect (`FF_RUMBLE`).
pub const FF_RUMBLE: u16 = 0x50;

/// The force-feedback effects of the virtual device: rumble alone.
pub open spec fn spec_controller_ff_effects() -> Seq<u16> {
    seq![FF_RUMBLE]
}

/// The force-feedback effects that the virtual device declares.
pub fn controller_ff_effects() -> (r: Vec<u16>)
    ensures
        r@ == spec_controller_ff_effects(),
{
    vec![FF_RUMBLE]
}


fn make_joystick_axis(code: u16) -> (r: AxisSetup)
    ensures
        r == joystick_axis(code),
{
    AxisSetup { code, value: 0, minimum: -32768i32, maximum: 32767, fuzz: 16, flat: 128, resolution: 0 }
}

fn make_trigger_axis(code: u16) -> (r: AxisSetup)
    ensures
        r == trigger_axis(code),
{
    AxisSetup { code, value: 0, minimum: 0, maximum: 255, fuzz: 0, flat: 0, resolution: 0 }
}

fn make_hat_axis(code: u16) -> (r: AxisSetup)
    ensures
        r == hat_axis(code),
{
    AxisSetup { code, value: 0, minimum: -1i32, maximum: 1, fuzz: 0, flat: 0, resolution: 0 }
}

/// The absolute axes that the virtual device declares.
pub fn controller_axes() -> (r: Vec<AxisSetup>)
    ensures
        r@ == spec_controller_axes(),
{
    let (left_x, left_y) = ControllerJoystick::Left.key_code();
    let (right_x, right_y) = ControllerJoystick::Right.key_code();
    vec![
        make_joystick_axis(left_x),
        make_joystick_axis(left_y),
        make_joystick_axis(right_x),
        make_joystick_axis(right_y),
        make_trigger_axis(ControllerTrigger::Left.key_code()),
        make_trigger_axis(ControllerTrigger::Right.key_code()),
        make_hat_axis(ControllerDpad::LeftRight.key_code()),
        make_hat_axis(ControllerDpad::UpDown.key_code()),
    ]
}

/// The keys that the virtual device declares.
pub fn controller_keys() -> (r: Vec<u16>)
    ensures
        r@ == spec_controller_keys(),
{
    vec![
        ControllerButton::A.key_code(),
        ControllerButton::B.key_code(),
        ControllerButton::Y.key_code(),
        ControllerButton::X.key_code(),
        ControllerButton::LB.key_code(),
        ControllerButton::RB.key_code(),
        ControllerButton::BL.key_code(),
        ControllerButton::BR.key_code(),
        ControllerButton::Back.key_code(),
        ControllerButton::Start.key_code(),
        ControllerButton::Guide.key_code(),
    ]
}

/// Every event that an input becomes names a key or an axis that the virtual
/// device declares.
pub proof fn lemma_events_are_declared(input: ControllerInput)
    ensures
        forall|i: int|
            0 <= i < input.spec_events().len() ==> {
                let e = #[trigger] input.spec_events()[i];
                &&& e.kind == EventKind::Key ==> spec_controller_keys().contains(e.code)
                &&& e.kind == EventKind::AbsoluteAxis ==> exists|k: int|
                    0 <= k < spec_controller_axes().len() && (#[trigger] spec_controller_axes()[k]).code
                        == e.code
            },
{
    let keys = spec_controller_keys();
    let axes = spec_controller_axes();
    assert forall|i: int| 0 <= i < input.spec_events().len() implies {
        let e = #[trigger] input.spec_events()[i];
        &&& e.kind == EventKind::Key ==> keys.contains(e.code)
        &&& e.kind == EventKind::AbsoluteAxis ==> exists|k: int|
            0 <= k < axes.len() && (#[trigger] axes[k]).code == e.code
    } by {
        let e = input.spec_events()[i];
        match input {
            ControllerInput::Button { button, state } => {
                match button {
                    ControllerButton::A => assert(keys[0] == e.code),
                    ControllerButton::B => assert(keys[1] == e.code),
                    ControllerButton::Y => assert(keys[2] == e.code),
                    ControllerButton::X => assert(keys[3] == e.code),
                    ControllerButton::LB => assert(keys[4] == e.code),
                    ControllerButton::RB => assert(keys[5] == e.code),
                    ControllerButton::BL => assert(keys[6] == e.code),
                    ControllerButton::BR => assert(keys[7] == e.code),
                    ControllerButton::Back => assert(keys[8] == e.code),
                    ControllerButton::Start => assert(keys[9] == e.code),
                    ControllerButton::Guide => assert(keys[10] == e.code),
                }
            },
            ControllerInput::Trigger { trigger, power } => {
                match trigger {
                    ControllerTrigger::Left => assert(axes[4].code == e.code),
                    ControllerTrigger::Right => assert(axes[5].code == e.code),
                }
            },
            ControllerInput::Dpad { dpad, direction } => {
                match dpad {
                    ControllerDpad::LeftRight => assert(axes[6].code == e.code),
                    ControllerDpad::UpDown => assert(axes[7].code == e.code),
                }
            },
            ControllerInput::Joystick { joystick, x, y } => {
                match joystick {
                    ControllerJoystick::Left => {
                        if i == 0 {
                            assert(axes[0].code == e.code);
                        } else {
                            assert(axes[1].code == e.code);
                        }
                    },
                    ControllerJoystick::Right => {
                        if i == 0 {
                            assert(axes[2].code == e.code);
                        } else {
                            assert(axes[3].code == e.code);
                        }
                    },
                }
            },
        }
    }
}

/// Each input becomes the events that carry its values on its own controls:
/// a button's state as one key event on the button's key; a trigger's power
/// and a d-pad axis's direction as one axis event on its axis; a joystick's x
/// on its horizontal axis, then its y on its vertical axis.
pub proof fn lemma_input_events(input: ControllerInput)
    ensures
        match input {
            ControllerInput::Button { button, state } => {
                &&& input.spec_events().len() == 1
                &&& input.spec_events()[0].kind == EventKind::Key
                &&& input.spec_events()[0].code == button.spec_key_code()
                &&& input.spec_events()[0].value == state
            },
            ControllerInput::Trigger { trigger, power } => {
                &&& input.spec_events().len() == 1
                &&& input.spec_events()[0].kind == EventKind::AbsoluteAxis
                &&& input.spec_events()[0].code == trigger.spec_key_code()
                &&& input.spec_events()[0].value == power
            },
            ControllerInput::Dpad { dpad, direction } => {
                &&& input.spec_events().len() == 1
                &&& input.spec_events()[0].kind == EventKind::AbsoluteAxis
                &&& input.spec_events()[0].code == dpad.spec_key_code()
                &&& input.spec_events()[0].value == direction
            },
            ControllerInput::Joystick { joystick, x, y } => {
                &&& input.spec_events().len() == 2
                &&& input.spec_events()[0].kind == EventKind::AbsoluteAxis
                &&& input.spec_events()[0].code == joystick.spec_key_code().0
                &&& input.spec_events()[0].value == x
                &&& input.spec_events()[1].kind == EventKind::AbsoluteAxis
                &&& input.spec_events()[1].code == joystick.spec_key_code().1
                &&& input.spec_events()[1].value == y
            },
        },
{
}

/// The axis declared for a trigger spans 0 to 255, unfiltered.
pub proof fn lemma_trigger_axis_range(trigger: ControllerTrigger, k: int)
    requires
        0 <= k < spec_controller_axes().len(),
        spec_controller_axes()[k].code == trigger.spec_key_code(),
    ensures
        spec_controller_axes()[k].value == 0,
        spec_controller_axes()[k].minimum == 0,
        spec_controller_axes()[k].maximum == 255,
        spec_controller_axes()[k].fuzz == 0,
        spec_controller_axes()[k].flat == 0,
        spec_controller_axes()[k].resolution == 0,
{
}

/// Each axis declared for a joystick spans the full `i16` range, with fuzz 16
/// and flat 128.
pub proof fn lemma_joystick_axis_range(joystick: ControllerJoystick, k: int)
    requires
        0 <= k < spec_controller_axes().len(),
        spec_controller_axes()[k].code == joystick.spec_key_code().0
            || spec_controller_axes()[k].code == joystick.spec_key_code().1,
    ensures
        spec_controller_axes()[k].value == 0,
        spec_controller_axes()[k].minimum == -32768,
        spec_controller_axes()[k].maximum == 32767,
        spec_controller_axes()[k].fuzz == 16,
        spec_controller_axes()[k].flat == 128,
        spec_controller_axes()[k].resolution == 0,
{
}

/// The axis declared for a d-pad axis spans -1 to 1, unfiltered.
pub proof fn lemma_dpad_axis_range(dpad: ControllerDpad, k: int)
    requires
        0 <= k < spec_controller_axes().len(),
        spec_controller_axes()[k].code == dpad.spec_key_code(),
    ensures
        spec_controller_axes()[k].value == 0,
        spec_controller_axes()[k].minimum == -1,
        spec_controller_axes()[k].maximum == 1,
        spec_controller_axes()[k].fuzz == 0,
        spec_controller_axes()[k].flat == 0,
        spec_controller_axes()[k].resolution == 0,
{
}

/// Every trigger, d-pad axis and joystick axis has exactly one axis declared
/// for it, and the device declares no axis beyond them.
pub proof fn lemma_every_control_axis_declared_once(
    trigger: ControllerTrigger,
    dpad: ControllerDpad,
    joystick: ControllerJoystick,
)
    ensures
        spec_controller_axes().len() == 8,
        exists|k: int|
            0 <= k < 8 && #[trigger] spec_controller_axes()[k].code == trigger.spec_key_code(),
        exists|k: int|
            0 <= k < 8 && #[trigger] spec_controller_axes()[k].code == dpad.spec_key_code(),
        exists|k: int|
            0 <= k < 8 && #[trigger] spec_controller_axes()[k].code == joystick.spec_key_code().0,
        exists|k: int|
            0 <= k < 8 && #[trigger] spec_controller_axes()[k].code == joystick.spec_key_code().1,
        forall|k: int, l: int|
            0 <= k < l < 8 ==> spec_controller_axes()[k].code != spec_controller_axes()[l].code,
{
    let axes = spec_controller_axes();
    match trigger {
        ControllerTrigger::Left => assert(axes[4].code == trigger.spec_key_code()),
        ControllerTrigger::Right => assert(axes[5].code == trigger.spec_key_code()),
    }
    match dpad {
        ControllerDpad::LeftRight => assert(axes[6].code == dpad.spec_key_code()),
        ControllerDpad::UpDown => assert(axes[7].code == dpad.spec_key_code()),
    }
    match joystick {
        ControllerJoystick::Left => {
            assert(axes[0].code == joystick.spec_key_code().0);
            assert(axes[1].code == joystick.spec_key_code().1);
        },
        ControllerJoystick::Right => {
            assert(axes[2].code == joystick.spec_key_code().0);
            assert(axes[3].code == joystick.spec_key_code().1);
        },
    }
}

/// The value that a trigger or joystick input puts on an axis lies within the
/// range declared for that axis.
pub proof fn lemma_values_within_declared_range(input: ControllerInput, i: int, k: int)
    requires
        !(input is Dpad),
        0 <= i < input.spec_events().len(),
        input.spec_events()[i].kind == EventKind::AbsoluteAxis,
        0 <= k < spec_controller_axes().len(),
        spec_controller_axes()[k].code == input.spec_events()[i].code,
    ensures
        spec_controller_axes()[k].minimum <= input.spec_events()[i].value
            <= spec_controller_axes()[k].maximum,
{
    lemma_input_events(input);
    match input {
        ControllerInput::Trigger { trigger, power } => lemma_trigger_axis_range(trigger, k),
        ControllerInput::Joystick { joystick, x, y } => lemma_joystick_axis_range(joystick, k),
        _ => {},
    }
}

/// The device declares a key for every button, and each key once.
pub proof fn lemma_every_button_key_declared_once(button: ControllerButton)
    ensures
        spec_controller_keys().len() == 11,
        spec_controller_keys().contains(button.spec_key_code()),
        forall|k: int, l: int|
            0 <= k < l < 11 ==> spec_controller_keys()[k] != spec_controller_keys()[l],
{
    let keys = spec_controller_keys();
    match button {
        ControllerButton::A => assert(keys[0] == button.spec_key_code()),
        ControllerButton::B => assert(keys[1] == button.spec_key_code()),
        ControllerButton::Y => assert(keys[2] == button.spec_key_code()),
        ControllerButton::X => assert(keys[3] == button.spec_key_code()),
        ControllerButton::LB => assert(keys[4] == button.spec_key_code()),
        ControllerButton::RB => assert(keys[5] == button.spec_key_code()),
        ControllerButton::BL => assert(keys[6] == button.spec_key_code()),
        ControllerButton::BR => assert(keys[7] == button.spec_key_code()),
        ControllerButton::Back => assert(keys[8] == button.spec_key_code()),
        ControllerButton::Start => assert(keys[9] == button.spec_key_code()),
        ControllerButton::Guide => assert(keys[10] == button.spec_key_code()),
    }
}

} // verus!
