//! The interrupt controller: the enable and request registers, the master
//! enable state, and the choice of the interrupt to serve.

use vstd::prelude::*;

verus! {

/// Master interrupt enable. `Scheduled` is the one-instruction delay between
/// the enabling instruction and interrupts being served.
#[derive(Copy, Clone, Debug, PartialEq, Eq, Structural)]
pub enum InterruptState {
    Disabled,
    Scheduled,
    Enabled,
}

#[derive(Copy, Clone, Debug)]
pub struct InterruptController {
    pub state: InterruptState,
    pub interrupt_enable: u8,
    pub interrupt_flag: u8,
}

/// The request bit that is served first among `pending`: the lowest of bits
/// 0 to 4 that is set (V-blank, LCD status, timer, serial, joypad).
pub open spec fn first_request(pending: u8) -> Option<u8> {
    if pending & 0x01 != 0 {
        Some(0x01u8)
    } else if pending & 0x02 != 0 {
        Some(0x02u8)
    } else if pending & 0x04 != 0 {
        Some(0x04u8)
    } else if pending & 0x08 != 0 {
        Some(0x08u8)
    } else if pending & 0x10 != 0 {
        Some(0x10u8)
    } else {
        None
    }
}

/// The address that execution continues at when the request `bit` is served.
pub open spec fn vector_of(bit: u8) -> usize {
    match bit {
        0x01 => 0x0040,
        0x02 => 0x0048,
        0x04 => 0x0050,
        0x08 => 0x0058,
        _ => 0x0060,
    }
}

impl InterruptController {
    pub open spec fn initial() -> InterruptController {
        InterruptController {
            state: InterruptState::Disabled,
            interrupt_enable: 0,
            interrupt_flag: 0,
        }
    }

    /// The requests that are both raised and enabled.
    pub open spec fn pending(self) -> u8 {
        self.interrupt_enable & self.interrupt_flag
    }

    /// The request that `pending_interrupts` serves in this state, if any.
    pub open spec fn served(self) -> Option<u8> {
        if self.state == InterruptState::Enabled {
            first_request(self.pending())
        } else {
            None
        }
    }

    /// The controller after one call of `pending_interrupts`: a served
    /// request is acknowledged and the master enable drops; a scheduled
    /// enable takes effect.
    pub open spec fn after_poll(self) -> InterruptController {
        match self.state {
            InterruptState::Enabled => match first_request(self.pending()) {
                Some(bit) => InterruptController {
                    state: InterruptState::Disabled,
                    interrupt_flag: self.interrupt_flag & !bit,
                    ..self
                },
                None => self,
            },
            InterruptState::Scheduled => InterruptController {
                state: InterruptState::Enabled,
                ..self
            },
            InterruptState::Disabled => self,
        }
    }

    pub open spec fn with_write(self, address: usize, value: u8) -> InterruptController {
        if address == 0xffff {
            InterruptController { interrupt_enable: value, ..self }
        } else {
            InterruptController { interrupt_flag: value, ..self }
        }
    }

    pub open spec fn read_value(self, address: usize) -> u8 {
        if address == 0xffff {
            self.interrupt_enable | 0xe0
        } else {
            self.interrupt_flag | 0xe0
        }
    }

    /// The controller with the request bits of `mask` raised.
    pub open spec fn with_request(self, mask: u8) -> InterruptController {
        InterruptController { interrupt_flag: self.interrupt_flag | mask, ..self }
    }

    pub fn new() -> (r: InterruptController)
        ensures
            r == InterruptController::initial(),
    {
        InterruptController {
            state: InterruptState::Disabled,
            interrupt_enable: 0,
            interrupt_flag: 0,
        }
    }

    pub fn write(&mut self, address: usize, value: u8)
        requires
            address == 0xffff || address == 0xff0f,
        ensures
            *final(self) == old(self).with_write(address, value),
    {
        if address == 0xffff {
            self.interrupt_enable = value;
        } else {
            self.interrupt_flag = value;
        }
    }

    pub fn read(&self, address: usize) -> (r: u8)
        requires
            address == 0xffff || address == 0xff0f,
        ensures
            r == self.read_value(address),
    {
        if address == 0xffff {
            self.interrupt_enable | 0xe0
        } else {
            self.interrupt_flag | 0xe0
        }
    }

    pub fn poll_interrupts(&self) -> (r: bool)
        ensures
            r == (self.pending() != 0),
    {
        self.interrupt_enable & self.interrupt_flag != 0
    }

    /// Raises the request bits of `mask`.
    pub fn request(&mut self, mask: u8)
        ensures
            *final(self) == old(self).with_request(mask),
    {
        self.interrupt_flag = self.interrupt_flag | mask;
    }

    pub fn pending_interrupts(&mut self) -> (r: Option<usize>)
        ensures
            *final(self) == old(self).after_poll(),
            match old(self).served() {
                Some(bit) => r == Some(vector_of(bit)),
                None => r is None,
            },
    {
        match self.state {
            InterruptState::Enabled => {
                let pending = self.interrupt_enable & self.interrupt_flag;
                if pending & 0x01 != 0 {
                    self.state = InterruptState::Disabled;
                    self.interrupt_flag = self.interrupt_flag & !0x01u8;
                    Some(0x0040)
                } else if pending & 0x02 != 0 {
                    self.state = InterruptState::Disabled;
                    self.interrupt_flag = self.interrupt_flag & !0x02u8;
                    Some(0x0048)
                } else if pending & 0x04 != 0 {
                    self.state = InterruptState::Disabled;
                    self.interrupt_flag = self.interrupt_flag & !0x04u8;
                    Some(0x0050)
                } else if pending & 0x08 != 0 {
                    self.state = InterruptState::Disabled;
                    self.interrupt_flag = self.interrupt_flag & !0x08u8;
                    Some(0x0058)
                } else if pending & 0x10 != 0 {
                    self.state = InterruptState::Disabled;
                    self.interrupt_flag = self.interrupt_flag & !0x10u8;
                    Some(0x0060)
                } else {
                    None
                }
            },
            InterruptState::Scheduled => {
                self.state = InterruptState::Enabled;
                None
            },
            InterruptState::Disabled => None,
        }
    }
}

/// Serving a request clears exactly that request: it was pending, no request
/// of a lower number was, and afterwards it is no longer raised while every
/// other request bit is as before.
pub proof fn lemma_served_is_lowest(ic: InterruptController)
    requires
        ic.served() is Some,
    ensures
        ({
            let bit = ic.served()->0;
            &&& ic.pending() & bit == bit
            &&& ic.pending() & ((bit - 1) as u8) == 0
            &&& ic.after_poll().interrupt_flag & bit == 0
            &&& ic.after_poll().interrupt_flag | bit == ic.interrupt_flag
            &&& ic.after_poll().state == InterruptState::Disabled
        }),
{
    let p = ic.pending();
    let f = ic.interrupt_flag;
    let e = ic.interrupt_enable;
    let bit = ic.served()->0;
    assert(p == e & f);
    assert(p & bit == bit && p & ((bit - 1) as u8) == 0 && (f & !bit) & bit == 0 && (f & !bit)
        | bit == f) by (bit_vector)
        requires
            p == e & f,
            (p & 0x01 != 0 && bit == 0x01) || (p & 0x01 == 0 && p & 0x02 != 0 && bit == 0x02) || (p
                & 0x01 == 0 && p & 0x02 == 0 && p & 0x04 != 0 && bit == 0x04) || (p & 0x01 == 0 && p
                & 0x02 == 0 && p & 0x04 == 0 && p & 0x08 != 0 && bit == 0x08) || (p & 0x01 == 0 && p
                & 0x02 == 0 && p & 0x04 == 0 && p & 0x08 == 0 && p & 0x10 != 0 && bit == 0x10),
    ;
}

} // verus!
