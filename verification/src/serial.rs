//! The serial port registers. No peer is ever attached: the two registers
//! only store what is written to them.

use vstd::prelude::*;

verus! {

#[derive(Copy, Clone, Debug)]
pub struct SerialLink {
    pub byte_to_transfer: u8,
    pub shift_clock: u8,
}

impl SerialLink {
    pub open spec fn initial() -> SerialLink {
        SerialLink { byte_to_transfer: 0, shift_clock: 0 }
    }

    pub open spec fn read_value(self, address: usize) -> u8 {
        if address == 0xff01 {
            self.byte_to_transfer
        } else if address == 0xff02 {
            0x7e | self.shift_clock
        } else {
            0xff
        }
    }

    pub open spec fn with_write(self, address: usize, value: u8) -> SerialLink {
        if address == 0xff01 {
            SerialLink { byte_to_transfer: value, ..self }
        } else if address == 0xff02 {
            SerialLink { shift_clock: value & 0x01, ..self }
        } else {
            self
        }
    }

    pub fn new() -> (r: SerialLink)
        ensures
            r == SerialLink::initial(),
    {
        SerialLink { byte_to_transfer: 0, shift_clock: 0 }
    }

    pub fn read(&self, address: usize) -> (r: u8)
        ensures
            r == self.read_value(address),
    {
        if address == 0xff01 {
            self.byte_to_transfer
        } else if address == 0xff02 {
            0x7e | self.shift_clock
        } else {
            0xff
        }
    }

    pub fn write(&mut self, address: usize, value: u8)
        ensures
            *final(self) == old(self).with_write(address, value),
    {
        if address == 0xff01 {
            self.byte_to_transfer = value;
        } else if address == 0xff02 {
            self.shift_clock = value & 0x01;
        }
    }
}

} // verus!
