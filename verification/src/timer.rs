//! The divider and the programmable timer.

use vstd::prelude::*;
use crate::interrupts::InterruptController;
use crate::sound::SoundController;

verus! {

#[derive(Copy, Clone, Debug)]
pub struct Timer {
    pub timer_counter: u8,
    pub timer_modulo: u8,
    pub timer_enable: bool,
    pub clock_div: u16,
    pub divider_tick: u16,
}

/// The number of master ticks per timer increment that the two low bits of
/// the timer control register select.
pub open spec fn rate_of(select: u8) -> u16 {
    match select {
        0 => 1024,
        1 => 16,
        2 => 64,
        _ => 256,
    }
}

impl Timer {
    pub open spec fn initial() -> Timer {
        Timer {
            timer_counter: 0,
            timer_modulo: 0,
            timer_enable: false,
            clock_div: 1024,
            divider_tick: 0,
        }
    }

    /// The rate is one of the four that the control register can select.
    pub open spec fn wf(self) -> bool {
        self.clock_div == 1024 || self.clock_div == 16 || self.clock_div == 64 || self.clock_div
            == 256
    }

    /// The 16-bit divider after one more tick.
    pub open spec fn next_divider(self) -> u16 {
        if self.divider_tick == 0xffff {
            0
        } else {
            (self.divider_tick + 1) as u16
        }
    }

    /// Whether this tick clocks the audio frame sequencer: the low 13 bits
    /// of the divider are about to wrap.
    pub open spec fn frame_tick(self) -> bool {
        self.divider_tick & 0x1fff == 0x1fff
    }

    /// Whether this tick increments the timer counter.
    pub open spec fn counts(self) -> bool {
        self.timer_enable && self.next_divider() % self.clock_div == 0
    }

    /// Whether this tick wraps the timer counter, which reloads it from the
    /// modulo and requests the timer interrupt.
    pub open spec fn overflows(self) -> bool {
        self.counts() && self.timer_counter == 0xff
    }

    pub open spec fn after_cycle(self) -> Timer {
        Timer {
            divider_tick: self.next_divider(),
            timer_counter: if self.overflows() {
                self.timer_modulo
            } else if self.counts() {
                (self.timer_counter + 1) as u8
            } else {
                self.timer_counter
            },
            ..self
        }
    }

    /// Whether a write to the divider increments the counter: clearing the
    /// divider makes its selected bit fall, which counts as a tick of an
    /// enabled timer.
    pub open spec fn divider_write_counts(self) -> bool {
        self.timer_enable && self.divider_tick & (self.clock_div / 2) != 0
    }

    /// Whether a write to the divider wraps the counter, which reloads it
    /// from the modulo and requests the timer interrupt.
    pub open spec fn divider_write_overflows(self) -> bool {
        self.divider_write_counts() && self.timer_counter == 0xff
    }

    /// The timer after a register write. A write to the divider clears it;
    /// if that makes the selected divider bit of an enabled timer fall, the
    /// counter is incremented once, and reloaded from the modulo if it
    /// wraps.
    pub open spec fn with_write(self, address: usize, value: u8) -> Timer {
        match address {
            0xff04 => Timer {
                divider_tick: 0,
                timer_counter: if self.divider_write_overflows() {
                    self.timer_modulo
                } else if self.divider_write_counts() {
                    (self.timer_counter + 1) as u8
                } else {
                    self.timer_counter
                },
                ..self
            },
            0xff05 => Timer { timer_counter: value, ..self },
            0xff06 => Timer { timer_modulo: value, ..self },
            _ => Timer {
                timer_enable: value & 0x04 != 0,
                clock_div: rate_of(value & 0x03),
                ..self
            },
        }
    }

    pub open spec fn control(self) -> u8 {
        let select: u8 = match self.clock_div {
            1024 => 0,
            16 => 1,
            64 => 2,
            _ => 3,
        };
        if self.timer_enable {
            select | 0x04
        } else {
            select
        }
    }

    pub open spec fn read_value(self, address: usize) -> u8 {
        match address {
            0xff04 => (self.divider_tick >> 8) as u8,
            0xff05 => self.timer_counter,
            0xff06 => self.timer_modulo,
            _ => self.control(),
        }
    }

    pub fn new() -> (r: Timer)
        ensures
            r == Timer::initial(),
            r.wf(),
    {
        Timer {
            timer_counter: 0,
            timer_modulo: 0,
            timer_enable: false,
            clock_div: 1024,
            divider_tick: 0,
        }
    }

    /// One master tick.
    pub fn execute_cycle(
        &mut self,
        interrupt_controller: &mut InterruptController,
        sound_controller: &mut SoundController,
    )
        requires
            old(self).wf(),
            old(sound_controller).wf(),
        ensures
            *final(self) == old(self).after_cycle(),
            final(self).wf(),
            *final(interrupt_controller) == (if old(self).overflows() {
                old(interrupt_controller).with_request(0x04)
            } else {
                *old(interrupt_controller)
            }),
            *final(sound_controller) == (if old(self).frame_tick() {
                old(sound_controller).after_frame_tick()
            } else {
                *old(sound_controller)
            }),
            final(sound_controller).wf(),
    {
        if self.divider_tick & 0x1fff == 0x1fff {
            sound_controller.tick_frame_sequencer();
        }
        self.divider_tick = self.divider_tick.wrapping_add(1);

        if self.timer_enable && self.divider_tick % self.clock_div == 0 {
            self.timer_counter = self.timer_counter.wrapping_add(1);
            if self.timer_counter == 0 {
                self.timer_counter = self.timer_modulo;
                interrupt_controller.request(0x04);
            }
        }
    }

    pub fn write(&mut self, address: usize, value: u8)
        requires
            old(self).wf(),
            0xff04 <= address <= 0xff07,
        ensures
            *final(self) == old(self).with_write(address, value),
            final(self).wf(),
    {
        match address {
            0xff04 => {
                let mask = self.clock_div / 2;
                if self.timer_enable && self.divider_tick & mask != 0 {
                    self.timer_counter = self.timer_counter.wrapping_add(1);
                    if self.timer_counter == 0 {
                        self.timer_counter = self.timer_modulo;
                    }
                }
                self.divider_tick = 0;
            },
            0xff05 => self.timer_counter = value,
            0xff06 => self.timer_modulo = value,
            _ => {
                self.timer_enable = value & 0x04 != 0;
                self.clock_div =
                match value & 0x03 {
                    0 => 1024,
                    1 => 16,
                    2 => 64,
                    _ => 256,
                }
            },
        }
    }

    /// Whether a write to the divider now would wrap the counter; the
    /// memory map then requests the timer interrupt.
    pub fn divider_write_wraps(&self) -> (r: bool)
        ensures
            r == self.divider_write_overflows(),
    {
        self.timer_enable && self.divider_tick & (self.clock_div / 2) != 0 && self.timer_counter
            == 0xff
    }

    pub fn read(&self, address: usize) -> (r: u8)
        requires
            0xff04 <= address <= 0xff07,
        ensures
            r == self.read_value(address),
    {
        match address {
            0xff04 => (self.divider_tick >> 8) as u8,
            0xff05 => self.timer_counter,
            0xff06 => self.timer_modulo,
            _ => {
                let value: u8 = match self.clock_div {
                    1024 => 0,
                    16 => 1,
                    64 => 2,
                    _ => 3,
                };
                if self.timer_enable {
                    value | 0x04
                } else {
                    value
                }
            },
        }
    }
}

} // verus!
