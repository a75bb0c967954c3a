use crate::bus::Addressable;
use vstd::prelude::*;

verus! {

/// A button of a game pad, as far as the controller tells them apart.
#[derive(Copy, Clone, Debug, PartialEq, Eq, Structural)]
pub enum Button {
    South,
    East,
    Select,
    Start,
    DPadUp,
    DPadDown,
    DPadLeft,
    DPadRight,
    /// Any button that the controller has no line for.
    Other,
}

/// A key of the keyboard, as far as the controller tells them apart.
#[derive(Copy, Clone, Debug, PartialEq, Eq, Structural)]
pub enum Key {
    K,
    J,
    Comma,
    Period,
    W,
    S,
    A,
    D,
    /// Any key that the controller has no line for.
    Other,
}

/// Whether a key went down or up.
#[derive(Copy, Clone, Debug, PartialEq, Eq, Structural)]
pub enum KeyState {
    Pressed,
    Released,
}

/// A standard controller: eight button lines that a write latches and
/// reads shift out, lowest line first.
#[derive(Copy, Clone, Debug, PartialEq, Eq, Structural)]
pub struct Controller {
    /// The latched lines that are still to be read.
    pub buttons: u8,
    /// The lines as the buttons stand now.
    pub current_buttons: u8,
}

/// The line of a button: A, B, Select, Start, Up, Down, Left, Right are
/// lines 0 to 7.
pub open spec fn button_line(button: Button) -> Option<usize> {
    match button {
        Button::South => Some(0usize),
        Button::East => Some(1usize),
        Button::Select => Some(2usize),
        Button::Start => Some(3usize),
        Button::DPadUp => Some(4usize),
        Button::DPadDown => Some(5usize),
        Button::DPadLeft => Some(6usize),
        Button::DPadRight => Some(7usize),
        Button::Other => None,
    }
}

/// The line of a key: K, J, comma, period, W, S, A, D are lines 0 to 7.
pub open spec fn key_line(key: Key) -> Option<usize> {
    match key {
        Key::K => Some(0usize),
        Key::J => Some(1usize),
        Key::Comma => Some(2usize),
        Key::Period => Some(3usize),
        Key::W => Some(4usize),
        Key::S => Some(5usize),
        Key::A => Some(6usize),
        Key::D => Some(7usize),
        Key::Other => None,
    }
}

/// The lines with line `position` (below 8) raised or dropped.
pub open spec fn with_line(lines: u8, position: usize, down: bool) -> u8 {
    if down {
        lines | (1u8 << position)
    } else {
        lines & !(1u8 << position)
    }
}

/// Whether line `position` (below 8) is raised.
pub open spec fn line_down(lines: u8, position: usize) -> bool {
    lines & (1u8 << position) != 0
}

/// Raising or dropping a line changes that line and no other.
pub proof fn lemma_with_line(lines: u8, position: usize, down: bool, other: usize)
    requires
        position < 8,
        other < 8,
    ensures
        line_down(with_line(lines, position, down), other) == (if other == position {
            down
        } else {
            line_down(lines, other)
        }),
{
    assert(position < 8 && other < 8 ==> (((lines | (1u8 << position)) & (1u8 << other) != 0) == (
    other == position || lines & (1u8 << other) != 0)) && (((lines & !(1u8 << position)) & (1u8
        << other) != 0) == (other != position && lines & (1u8 << other) != 0))) by (bit_vector);
}

pub fn button_bit(button: Button) -> (line: Option<usize>)
    ensures
        line == button_line(button),
{
    match button {
        Button::South => Some(0),
        Button::East => Some(1),
        Button::Select => Some(2),
        Button::Start => Some(3),
        Button::DPadUp => Some(4),
        Button::DPadDown => Some(5),
        Button::DPadLeft => Some(6),
        Button::DPadRight => Some(7),
        Button::Other => None,
    }
}

fn key_bit(key: Key) -> (line: Option<usize>)
    ensures
        line == key_line(key),
{
    match key {
        Key::K => Some(0),
        Key::J => Some(1),
        Key::Comma => Some(2),
        Key::Period => Some(3),
        Key::W => Some(4),
        Key::S => Some(5),
        Key::A => Some(6),
        Key::D => Some(7),
        Key::Other => None,
    }
}

impl View for Controller {
    type V = Controller;

    open spec fn view(&self) -> Controller {
        *self
    }
}

impl Addressable for Controller {
    /// A read of either port answers with the lowest latched line; any
    /// other address leaves the bus floating.
    open spec fn read_value(state: Controller, address: u16) -> Option<u8> {
        if address == 0x4016 || address == 0x4017 {
            Some(state.buttons % 2)
        } else {
            None
        }
    }

    open spec fn after_read(state: Controller, address: u16) -> Controller {
        if address == 0x4016 || address == 0x4017 {
            Controller { buttons: state.buttons / 2, ..state }
        } else {
            state
        }
    }

    /// A write with bit 0 set to the first port latches the lines.
    open spec fn after_write(state: Controller, address: u16, data: u8) -> Controller {
        if address == 0x4016 && data % 2 == 1 {
            Controller { buttons: state.current_buttons, ..state }
        } else {
            state
        }
    }

    fn read_byte(&mut self, address: u16) -> (value: Option<u8>) {
        if address == 0x4016 || address == 0x4017 {
            let output = self.buttons % 2;
            self.buttons = self.buttons / 2;
            Some(output)
        } else {
            None
        }
    }

    fn write_byte(&mut self, address: u16, data: u8) {
        if address == 0x4016 && data % 2 == 1 {
            self.buttons = self.current_buttons;
        }
    }
}

impl Controller {
    /// A controller with no button down.
    pub fn new() -> (controller: Self)
        ensures
            controller == (Controller { buttons: 0, current_buttons: 0 }),
    {
        Controller { buttons: 0, current_buttons: 0 }
    }

    fn set_line(&mut self, position: usize, down: bool)
        requires
            position < 8,
        ensures
            *final(self) == (Controller {
                current_buttons: with_line(old(self).current_buttons, position, down),
                ..*old(self)
            }),
    {
        if down {
            self.current_buttons = self.current_buttons | (1u8 << position);
        } else {
            self.current_buttons = self.current_buttons & !(1u8 << position);
        }
    }

    /// Takes a key event: a key with a line raises it when pressed and
    /// drops it when released.
    pub fn input_keyboard(&mut self, keycode: &Key, state: &KeyState)
        ensures
            *final(self) == (match key_line(*keycode) {
                Some(position) => Controller {
                    current_buttons: with_line(
                        old(self).current_buttons,
                        position,
                        *state is Pressed,
                    ),
                    ..*old(self)
                },
                None => *old(self),
            }),
    {
        if let Some(position) = key_bit(*keycode) {
            match state {
                KeyState::Pressed => self.set_line(position, true),
                KeyState::Released => self.set_line(position, false),
            }
        }
    }

    pub fn gamepad_press(&mut self, button: Button)
        ensures
            *final(self) == (match button_line(button) {
                Some(position) => Controller {
                    current_buttons: with_line(old(self).current_buttons, position, true),
                    ..*old(self)
                },
                None => *old(self),
            }),
    {
        if let Some(position) = button_bit(button) {
            self.set_line(position, true);
        }
    }

    pub fn gamepad_release(&mut self, button: Button)
        ensures
            *final(self) == (match button_line(button) {
                Some(position) => Controller {
                    current_buttons: with_line(old(self).current_buttons, position, false),
                    ..*old(self)
                },
                None => *old(self),
            }),
    {
        if let Some(position) = button_bit(button) {
            self.set_line(position, false);
        }
    }
}

impl Default for Controller {
    fn default() -> (controller: Self)
        ensures
            controller == (Controller { buttons: 0, current_buttons: 0 }),
    {
        Controller { buttons: 0, current_buttons: 0 }
    }
}

} // verus!
