//! The joypad register: two rows of four keys behind two select lines.

use vstd::prelude::*;

verus! {

#[derive(Copy, Clone, Debug)]
pub struct Joypad {
    pub select_buttons: bool,
    pub select_directions: bool,
    pub buttons_state: u8,
    pub directions_state: u8,
}

impl Joypad {
    pub open spec fn initial() -> Joypad {
        Joypad {
            select_buttons: true,
            select_directions: true,
            buttons_state: 0,
            directions_state: 0,
        }
    }

    /// The select lines are active low: bit 5 clear selects the buttons, bit
    /// 4 clear the directions.
    pub open spec fn with_select(self, value: u8) -> Joypad {
        Joypad { select_buttons: value & 0x20 == 0, select_directions: value & 0x10 == 0, ..self }
    }

    /// The byte the register reads as: all ones, the bit of each selected
    /// row cleared, and the bits of the pressed keys of the chosen row
    /// cleared. The button row wins when both rows are selected.
    pub open spec fn read_value(self) -> u8 {
        let rows: u8 = (if self.select_buttons {
            0xdfu8
        } else {
            0xffu8
        }) & (if self.select_directions {
            0xefu8
        } else {
            0xffu8
        });
        if self.select_buttons {
            rows & !self.buttons_state
        } else if self.select_directions {
            rows & !self.directions_state
        } else {
            rows
        }
    }

    pub fn new() -> (r: Joypad)
        ensures
            r == Joypad::initial(),
    {
        Joypad {
            select_buttons: true,
            select_directions: true,
            buttons_state: 0x00,
            directions_state: 0x00,
        }
    }

    pub fn write(&mut self, value: u8)
        ensures
            *final(self) == old(self).with_select(value),
    {
        self.select_buttons = value & 0x20 == 0;
        self.select_directions = value & 0x10 == 0;
    }

    pub fn read(&self) -> (r: u8)
        ensures
            r == self.read_value(),
    {
        let b: u8 = if self.select_buttons { 0xdf } else { 0xff };
        let d: u8 = if self.select_directions { 0xef } else { 0xff };
        let rows: u8 = b & d;
        if self.select_buttons {
            rows & !self.buttons_state
        } else if self.select_directions {
            rows & !self.directions_state
        } else {
            rows
        }
    }

    pub fn set_values(&mut self, buttons: u8, directions: u8)
        ensures
            *final(self) == (Joypad {
                buttons_state: buttons,
                directions_state: directions,
                ..*old(self)
            }),
    {
        self.buttons_state = buttons;
        self.directions_state = directions;
    }

    pub fn get_values(&self) -> (r: (u8, u8))
        ensures
            r == (self.buttons_state, self.directions_state),
    {
        (self.buttons_state, self.directions_state)
    }
}

/// With no row selected the register reads all ones; a pressed key of the
/// selected row reads as zero and a released one as one.
pub proof fn lemma_joypad_read(pad: Joypad, key: u8)
    requires
        key == 0x01 || key == 0x02 || key == 0x04 || key == 0x08,
    ensures
        !pad.select_buttons && !pad.select_directions ==> pad.read_value() == 0xff,
        pad.select_buttons ==> (pad.read_value() & key == 0 <==> pad.buttons_state & key == key),
        !pad.select_buttons && pad.select_directions ==> (pad.read_value() & key == 0
            <==> pad.directions_state & key == key),
{
    let b = pad.buttons_state;
    let d = pad.directions_state;
    assert(((0xdfu8 & 0xefu8 & !b) & key == 0 <==> b & key == key) && ((0xdfu8 & 0xffu8 & !b)
        & key == 0 <==> b & key == key) && ((0xffu8 & 0xefu8 & !d) & key == 0 <==> d & key == key)
        && 0xffu8 & 0xffu8 == 0xffu8) by (bit_vector)
        requires
            key == 0x01 || key == 0x02 || key == 0x04 || key == 0x08,
    ;
}

} // verus!
