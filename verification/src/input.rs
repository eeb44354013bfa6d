//! What the host's input means to the machine: the eight keys of the
//! joypad, and the host's own switches.

use vstd::prelude::*;
use crate::joypad::Joypad;

verus! {

/// The keys of the joypad.
#[derive(Copy, Clone, Debug, PartialEq, Eq)]
pub enum Button {
    Right,
    Left,
    Up,
    Down,
    A,
    B,
    Select,
    Start,
}

/// What the host reports.
#[derive(Copy, Clone, Debug, PartialEq, Eq)]
pub enum HostEvent {
    Pressed(Button),
    Released(Button),
    TogglePause,
    ToggleTurbo,
    ToggleMute,
    Quit,
}

/// The host's switches.
#[derive(Copy, Clone, Debug)]
pub struct Input {
    pub quit: bool,
    pub pause: bool,
    pub mute: bool,
    pub run_2x: bool,
}

/// The bit of a key in its row: right and A are bit 0, left and B bit 1, up
/// and select bit 2, down and start bit 3.
pub open spec fn key_mask(button: Button) -> u8 {
    match button {
        Button::Right | Button::A => 0x01,
        Button::Left | Button::B => 0x02,
        Button::Up | Button::Select => 0x04,
        Button::Down | Button::Start => 0x08,
    }
}

/// Whether a key belongs to the row of directions.
pub open spec fn is_direction(button: Button) -> bool {
    match button {
        Button::Right | Button::Left | Button::Up | Button::Down => true,
        _ => false,
    }
}

/// The joypad after a key goes down or up: its bit is set or cleared in
/// its row.
pub open spec fn with_key(pad: Joypad, button: Button, pressed: bool) -> Joypad {
    if is_direction(button) {
        Joypad {
            directions_state: if pressed {
                pad.directions_state | key_mask(button)
            } else {
                pad.directions_state & !key_mask(button)
            },
            ..pad
        }
    } else {
        Joypad {
            buttons_state: if pressed {
                pad.buttons_state | key_mask(button)
            } else {
                pad.buttons_state & !key_mask(button)
            },
            ..pad
        }
    }
}

fn mask_of(button: Button) -> (r: (u8, bool))
    ensures
        r.0 == key_mask(button),
        r.1 == is_direction(button),
{
    match button {
        Button::Right => (0x01, true),
        Button::Left => (0x02, true),
        Button::Up => (0x04, true),
        Button::Down => (0x08, true),
        Button::A => (0x01, false),
        Button::B => (0x02, false),
        Button::Select => (0x04, false),
        Button::Start => (0x08, false),
    }
}

fn press(joypad: &mut Joypad, button: Button, pressed: bool)
    ensures
        *final(joypad) == with_key(*old(joypad), button, pressed),
{
    let (mut buttons_state, mut directions_state) = joypad.get_values();
    let (mask, direction) = mask_of(button);
    if direction {
        if pressed {
            directions_state = directions_state | mask;
        } else {
            directions_state = directions_state & !mask;
        }
    } else {
        if pressed {
            buttons_state = buttons_state | mask;
        } else {
            buttons_state = buttons_state & !mask;
        }
    }
    joypad.set_values(buttons_state, directions_state);
}

impl Input {
    pub open spec fn initial() -> Input {
        Input { quit: false, pause: false, mute: false, run_2x: false }
    }

    /// The switches after an event: a toggle flips its switch, and a quit
    /// is remembered.
    pub open spec fn after(self, event: HostEvent) -> Input {
        match event {
            HostEvent::TogglePause => Input { pause: !self.pause, ..self },
            HostEvent::ToggleTurbo => Input { run_2x: !self.run_2x, ..self },
            HostEvent::ToggleMute => Input { mute: !self.mute, ..self },
            HostEvent::Quit => Input { quit: true, ..self },
            _ => self,
        }
    }

    pub fn new() -> (r: Input)
        ensures
            r == Input::initial(),
    {
        Input { quit: false, pause: false, mute: false, run_2x: false }
    }

    /// Takes in one event of the host: a key changes the joypad, anything
    /// else a switch.
    pub fn handle(&mut self, joypad: &mut Joypad, event: HostEvent)
        ensures
            *final(self) == old(self).after(event),
            *final(joypad) == (match event {
                HostEvent::Pressed(button) => with_key(*old(joypad), button, true),
                HostEvent::Released(button) => with_key(*old(joypad), button, false),
                _ => *old(joypad),
            }),
    {
        match event {
            HostEvent::Pressed(button) => press(joypad, button, true),
            HostEvent::Released(button) => press(joypad, button, false),
            HostEvent::TogglePause => self.pause = !self.pause,
            HostEvent::ToggleTurbo => self.run_2x = !self.run_2x,
            HostEvent::ToggleMute => self.mute = !self.mute,
            HostEvent::Quit => self.quit = true,
        }
    }
}

} // verus!
