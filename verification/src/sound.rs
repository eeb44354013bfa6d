//! The audio unit: two tone voices (one with a frequency sweep), a wave
//! voice, a noise voice, the frame sequencer that clocks their length,
//! envelope and sweep units, and the mixer.

use vstd::prelude::*;
use crate::bits::lemma_field_bounds;

verus! {

/// A sweep that would take the frequency above this value silences the voice.
pub const SWEEP_OVERFLOW: u16 = 2047;

/// Number of entries of the mixer's ring of samples (left and right
/// interleaved).
pub const OUTPUT_BUFFER_LEN: usize = 4096;

/// Number of entries handed to the host's audio queue at a time.
pub const QUEUE_INSERT_LEN: usize = 512;

/// The eight steps of the square wave of each duty setting.
pub open spec fn duty_waveform(duty: u8) -> [u8; 8] {
    match duty {
        0 => [0u8, 0, 0, 0, 0, 0, 0, 1],
        1 => [1u8, 0, 0, 0, 0, 0, 0, 1],
        2 => [1u8, 0, 0, 0, 0, 1, 1, 1],
        _ => [0u8, 1, 1, 1, 1, 1, 1, 0],
    }
}

/// Every step of a square wave is low (0) or high (1).
pub proof fn lemma_duty_levels(duty: u8, i: int)
    requires
        0 <= i < 8,
    ensures
        duty_waveform(duty)[i] <= 1,
{
}

/// Facts on 16-bit frequency and shift-register arithmetic.
pub proof fn lemma_frequency_bits(f: u16, v: u8, s: u8)
    ensures
        f <= 2047 ==> (f & 0xff00) | (v as u16) <= 2047,
        (f & 0x00ff) | ((v as u16 & 0x07) << 8) <= 2047,
        s <= 15 ==> f >> s <= f,
        (!f) & 0x0001 <= 1,
        s <= 7 ==> v >> s <= v,
{
    assert((f <= 2047 ==> (f & 0xff00) | (v as u16) <= 2047) && (f & 0x00ff) | ((v as u16 & 0x07)
        << 8) <= 2047 && (s <= 15 ==> f >> s <= f) && (!f) & 0x0001 <= 1 && (s <= 7 ==> v >> s
        <= v)) by (bit_vector);
}

/// The level of a square or noise voice: its waveform bit times its volume.
fn scaled(level: u8, volume: u8) -> (r: u8)
    requires
        level <= 1,
        volume <= 15,
    ensures
        r == level * volume,
        r <= 15,
{
    assert(level * volume <= 15) by (nonlinear_arith)
        requires
            level <= 1,
            volume <= 15,
    ;
    level * volume
}

/// A tone voice. Voice 1 uses the sweep unit; voice 2 has none and never
/// clocks it.
#[derive(Copy, Clone, Debug)]
pub struct ToneSweepChannel {
    pub dac_enabled: bool,
    pub enabled: bool,
    pub waveform: [u8; 8],
    pub wave_pattern_duty: u8,
    pub waveform_index: usize,
    pub sweep_enabled: bool,
    pub sweep_period: u8,
    pub sweep_decrease: bool,
    pub sweep_shift: u8,
    pub sweep_frequency_shadow: u16,
    pub sweep_counter: u8,
    pub envelope_initial_volume: u8,
    pub envelope_up: bool,
    pub envelope_period: u8,
    pub envelope_counter: u8,
    pub volume: u8,
    pub frequency: u16,
    pub timer: u16,
    pub timer_tick: u16,
    pub counter_mode: bool,
    pub length_counter: u8,
    pub output: u8,
}

impl ToneSweepChannel {
    /// The voice at power-on and after the audio unit is switched off.
    pub open spec fn initial() -> ToneSweepChannel {
        ToneSweepChannel {
            dac_enabled: false,
            enabled: false,
            waveform: duty_waveform(0),
            wave_pattern_duty: 0,
            waveform_index: 0,
            sweep_enabled: false,
            sweep_period: 0,
            sweep_decrease: false,
            sweep_shift: 0,
            sweep_frequency_shadow: 0,
            sweep_counter: 0,
            envelope_initial_volume: 0,
            envelope_up: false,
            envelope_period: 0,
            envelope_counter: 0,
            volume: 0,
            frequency: 0,
            timer: 8192,
            timer_tick: 0,
            counter_mode: false,
            length_counter: 64,
            output: 0,
        }
    }

    /// Register fields stay inside their widths, the period follows the
    /// 11-bit frequency as (2048 - f) * 4, and the output is a 4-bit level.
    pub open spec fn wf(self) -> bool {
        &&& self.waveform == duty_waveform(self.wave_pattern_duty)
        &&& self.wave_pattern_duty <= 3
        &&& self.waveform_index < 8
        &&& self.sweep_period <= 7
        &&& self.sweep_shift <= 7
        &&& self.sweep_frequency_shadow <= 2047
        &&& self.envelope_initial_volume <= 15
        &&& self.envelope_period <= 7
        &&& self.volume <= 15
        &&& self.frequency <= 2047
        &&& self.timer == (2048 - self.frequency) * 4
        &&& self.timer_tick < 8192
        &&& self.length_counter <= 64
        &&& self.output <= 15
    }

    pub open spec fn nrx0(self) -> u8 {
        ((self.sweep_period << 4) | (if self.sweep_decrease {
            0x08u8
        } else {
            0x00u8
        }) | self.sweep_shift) | 0x80
    }

    pub open spec fn nrx1(self) -> u8 {
        (self.wave_pattern_duty << 6) | 0x3f
    }

    pub open spec fn nrx2(self) -> u8 {
        ((self.envelope_initial_volume << 4) | (if self.envelope_up {
            0x08u8
        } else {
            0x00u8
        })) | self.envelope_period
    }

    pub open spec fn nrx4(self) -> u8 {
        if self.counter_mode {
            0xff
        } else {
            0xbf
        }
    }

    pub open spec fn with_nrx0(self, value: u8) -> ToneSweepChannel {
        ToneSweepChannel {
            sweep_period: (value & 0x70) >> 4,
            sweep_decrease: value & 0x08 != 0,
            sweep_shift: value & 0x07,
            ..self
        }
    }

    pub open spec fn with_nrx1(self, value: u8) -> ToneSweepChannel {
        ToneSweepChannel {
            wave_pattern_duty: (value & 0xc0) >> 6,
            waveform: duty_waveform((value & 0xc0) >> 6),
            length_counter: (64 - (value & 0x3f)) as u8,
            ..self
        }
    }

    pub open spec fn with_nrx2(self, value: u8) -> ToneSweepChannel {
        let dac = (value & 0xf0) >> 4 != 0 || value & 0x08 != 0;
        ToneSweepChannel {
            envelope_initial_volume: (value & 0xf0) >> 4,
            envelope_up: value & 0x08 != 0,
            envelope_period: value & 0x07,
            dac_enabled: dac,
            enabled: self.enabled && dac,
            ..self
        }
    }

    /// The voice with its 11-bit frequency replaced and its period
    /// recomputed.
    pub open spec fn with_frequency(self, frequency: u16) -> ToneSweepChannel {
        ToneSweepChannel { frequency, timer: ((2048 - frequency) * 4) as u16, ..self }
    }

    pub open spec fn with_nrx3(self, value: u8) -> ToneSweepChannel {
        self.with_frequency((self.frequency & 0xff00) | value as u16)
    }

    /// The frequency that the next sweep step moves to.
    pub open spec fn sweep_target(self) -> int {
        if self.sweep_decrease {
            self.sweep_frequency_shadow - (self.sweep_frequency_shadow >> self.sweep_shift)
        } else {
            self.sweep_frequency_shadow + (self.sweep_frequency_shadow >> self.sweep_shift)
        }
    }

    /// The voice restarted by a write with the trigger bit: the length
    /// counter is reloaded if it ran out, the envelope and the sweep unit are
    /// reloaded, and the voice is silenced at once if the first sweep step
    /// would overflow.
    pub open spec fn triggered(self) -> ToneSweepChannel {
        let armed = ToneSweepChannel {
            length_counter: if self.length_counter == 0 {
                64
            } else {
                self.length_counter
            },
            enabled: self.enabled || self.dac_enabled,
            timer_tick: 0,
            sweep_frequency_shadow: self.frequency,
            sweep_counter: self.sweep_period,
            sweep_enabled: self.sweep_period != 0 || self.sweep_shift != 0,
            envelope_counter: self.envelope_period,
            volume: self.envelope_initial_volume,
            ..self
        };
        ToneSweepChannel {
            enabled: armed.enabled && !(armed.sweep_shift != 0 && armed.sweep_target()
                > SWEEP_OVERFLOW),
            output: (self.waveform[self.waveform_index as int] * self.envelope_initial_volume) as u8,
            ..armed
        }
    }

    pub open spec fn with_nrx4(self, value: u8) -> ToneSweepChannel {
        let tuned = ToneSweepChannel { counter_mode: value & 0x40 != 0, ..self }.with_frequency(
            (self.frequency & 0x00ff) | ((value as u16 & 0x07) << 8),
        );
        if value & 0x80 != 0 {
            tuned.triggered()
        } else {
            tuned
        }
    }

    /// One tick of the 4 MHz clock: a silent voice outputs zero; a sounding
    /// one advances its waveform by one step each time its period elapses.
    pub open spec fn after_cycle(self) -> ToneSweepChannel {
        if !self.enabled {
            ToneSweepChannel { output: 0, ..self }
        } else if self.timer_tick + 1 >= self.timer {
            let index = ((self.waveform_index + 1) % 8) as usize;
            ToneSweepChannel {
                timer_tick: 0,
                waveform_index: index,
                output: (self.waveform[index as int] * self.volume) as u8,
                ..self
            }
        } else {
            ToneSweepChannel { timer_tick: (self.timer_tick + 1) as u16, ..self }
        }
    }

    /// One clock of the length counter: in counter mode it runs down and
    /// silences the voice when it reaches zero.
    pub open spec fn after_length_tick(self) -> ToneSweepChannel {
        if self.counter_mode {
            let left: u8 = if self.length_counter == 0 {
                0
            } else {
                (self.length_counter - 1) as u8
            };
            ToneSweepChannel { length_counter: left, enabled: self.enabled && left != 0, ..self }
        } else {
            self
        }
    }

    /// One clock of the envelope: every `envelope_period` clocks the volume
    /// moves one step in its direction and stops at 0 and at 15.
    pub open spec fn after_envelope_tick(self) -> ToneSweepChannel {
        if self.envelope_period == 0 {
            self
        } else if self.envelope_counter <= 1 {
            ToneSweepChannel {
                envelope_counter: self.envelope_period,
                volume: if self.envelope_up && self.volume != 15 {
                    (self.volume + 1) as u8
                } else if !self.envelope_up && self.volume != 0 {
                    (self.volume - 1) as u8
                } else {
                    self.volume
                },
                ..self
            }
        } else {
            ToneSweepChannel { envelope_counter: (self.envelope_counter - 1) as u8, ..self }
        }
    }

    /// One clock of the sweep unit. When its counter runs out, a target
    /// above 2047 silences the voice; otherwise, with a non-zero shift, the
    /// target becomes the frequency and the voice is silenced if the step
    /// after it would overflow.
    pub open spec fn after_sweep_tick(self) -> ToneSweepChannel {
        let counter: u8 = if self.sweep_counter == 0 {
            0
        } else {
            (self.sweep_counter - 1) as u8
        };
        if self.sweep_enabled && self.sweep_period != 0 && counter == 0 {
            let reloaded = ToneSweepChannel { sweep_counter: self.sweep_period, ..self };
            let target = self.sweep_target();
            if target > SWEEP_OVERFLOW {
                ToneSweepChannel { enabled: false, ..reloaded }
            } else if self.sweep_shift != 0 {
                let moved = ToneSweepChannel {
                    sweep_frequency_shadow: target as u16,
                    ..reloaded
                }.with_frequency(target as u16);
                ToneSweepChannel {
                    enabled: moved.enabled && !(moved.sweep_target() > SWEEP_OVERFLOW),
                    ..moved
                }
            } else {
                reloaded
            }
        } else {
            ToneSweepChannel { sweep_counter: counter, ..self }
        }
    }

    pub fn new() -> (r: ToneSweepChannel)
        ensures
            r == ToneSweepChannel::initial(),
            r.wf(),
    {
        ToneSweepChannel {
            dac_enabled: false,
            enabled: false,
            waveform: [0, 0, 0, 0, 0, 0, 0, 1],
            wave_pattern_duty: 0,
            waveform_index: 0,
            sweep_enabled: false,
            sweep_period: 0,
            sweep_decrease: false,
            sweep_shift: 0,
            sweep_frequency_shadow: 0,
            sweep_counter: 0,
            envelope_initial_volume: 0,
            envelope_up: false,
            envelope_period: 0,
            envelope_counter: 0,
            volume: 0,
            frequency: 0,
            timer: 8192,
            timer_tick: 0,
            counter_mode: false,
            length_counter: 64,
            output: 0,
        }
    }

    pub fn read_nrx0(&self) -> (r: u8)
        ensures
            r == self.nrx0(),
    {
        let dir: u8 = if self.sweep_decrease { 0x08 } else { 0x00 };
        ((self.sweep_period << 4) | dir | self.sweep_shift) | 0x80
    }

    pub fn read_nrx1(&self) -> (r: u8)
        ensures
            r == self.nrx1(),
    {
        (self.wave_pattern_duty << 6) | 0x3f
    }

    pub fn read_nrx2(&self) -> (r: u8)
        ensures
            r == self.nrx2(),
    {
        let dir: u8 = if self.envelope_up { 0x08 } else { 0x00 };
        ((self.envelope_initial_volume << 4) | dir) | self.envelope_period
    }

    pub fn read_nrx3(&self) -> (r: u8)
        ensures
            r == 0xff,
    {
        0xff
    }

    pub fn read_nrx4(&self) -> (r: u8)
        ensures
            r == self.nrx4(),
    {
        if self.counter_mode {
            0xff
        } else {
            0xbf
        }
    }

    pub fn write_nrx0(&mut self, value: u8)
        requires
            old(self).wf(),
        ensures
            *final(self) == old(self).with_nrx0(value),
            final(self).wf(),
    {
        proof {
            lemma_field_bounds(value);
        }
        self.sweep_period = (value & 0x70) >> 4;
        self.sweep_decrease = value & 0x08 != 0;
        self.sweep_shift = value & 0x07;
    }

    pub fn write_nrx1(&mut self, value: u8)
        requires
            old(self).wf(),
        ensures
            *final(self) == old(self).with_nrx1(value),
            final(self).wf(),
    {
        proof {
            lemma_field_bounds(value);
        }
        self.wave_pattern_duty = (value & 0xc0) >> 6;
        self.waveform =
        match self.wave_pattern_duty {
            0 => [0, 0, 0, 0, 0, 0, 0, 1],
            1 => [1, 0, 0, 0, 0, 0, 0, 1],
            2 => [1, 0, 0, 0, 0, 1, 1, 1],
            _ => [0, 1, 1, 1, 1, 1, 1, 0],
        };
        self.length_counter = 64 - (value & 0x3f);
    }

    pub fn write_nrx2(&mut self, value: u8)
        requires
            old(self).wf(),
        ensures
            *final(self) == old(self).with_nrx2(value),
            final(self).wf(),
    {
        proof {
            lemma_field_bounds(value);
        }
        self.envelope_initial_volume = (value & 0xf0) >> 4;
        self.envelope_up = value & 0x08 != 0;
        self.envelope_period = value & 0x07;
        self.dac_enabled = self.envelope_initial_volume != 0 || self.envelope_up;
        if !self.dac_enabled {
            self.enabled = false;
        }
    }

    pub fn write_nrx3(&mut self, value: u8)
        requires
            old(self).wf(),
        ensures
            *final(self) == old(self).with_nrx3(value),
            final(self).wf(),
    {
        proof {
            lemma_frequency_bits(self.frequency, value, 0);
        }
        self.frequency = (self.frequency & 0xff00) | value as u16;
        self.timer = (2048 - self.frequency) * 4;
    }

    pub fn write_nrx4(&mut self, value: u8)
        requires
            old(self).wf(),
        ensures
            *final(self) == old(self).with_nrx4(value),
            final(self).wf(),
    {
        proof {
            lemma_frequency_bits(self.frequency, value, 0);
        }
        self.counter_mode = value & 0x40 != 0;
        self.frequency = (self.frequency & 0x00ff) | ((value as u16 & 0x07) << 8);
        self.timer = (2048 - self.frequency) * 4;

        if value & 0x80 != 0 {
            let wave_level = self.waveform[self.waveform_index];
            let first_volume = self.envelope_initial_volume;
            proof {
                lemma_duty_levels(self.wave_pattern_duty, self.waveform_index as int);
            }
            if self.length_counter == 0 {
                self.length_counter = 64;
            }
            if self.dac_enabled {
                self.enabled = true;
            }
            self.timer_tick = 0;

            self.sweep_frequency_shadow = self.frequency;
            self.sweep_counter = self.sweep_period;
            self.sweep_enabled = self.sweep_period != 0 || self.sweep_shift != 0;
            if self.sweep_shift != 0 && self.next_sweep_frequency() > SWEEP_OVERFLOW {
                self.enabled = false;
            }
            self.envelope_counter = self.envelope_period;
            self.volume = self.envelope_initial_volume;
            self.output = scaled(wave_level, first_volume);
        }
    }

    pub fn next_sweep_frequency(&mut self) -> (r: u16)
        requires
            old(self).sweep_frequency_shadow <= 2047,
            old(self).sweep_shift <= 7,
        ensures
            *final(self) == *old(self),
            r == old(self).sweep_target(),
    {
        proof {
            lemma_frequency_bits(self.sweep_frequency_shadow, 0, self.sweep_shift);
        }
        if self.sweep_decrease {
            self.sweep_frequency_shadow - (self.sweep_frequency_shadow >> self.sweep_shift)
        } else {
            self.sweep_frequency_shadow + (self.sweep_frequency_shadow >> self.sweep_shift)
        }
    }

    pub fn execute_cycle(&mut self)
        requires
            old(self).wf(),
        ensures
            *final(self) == old(self).after_cycle(),
            final(self).wf(),
    {
        if !self.enabled {
            self.output = 0;
        } else {
            self.timer_tick += 1;
            if self.timer_tick >= self.timer {
                self.timer_tick = 0;
                self.waveform_index = (self.waveform_index + 1) % 8;
                proof {
                    lemma_duty_levels(self.wave_pattern_duty, self.waveform_index as int);
                }
                self.output = scaled(self.waveform[self.waveform_index], self.volume);
            }
        }
    }

    pub fn tick_length_counter(&mut self)
        requires
            old(self).wf(),
        ensures
            *final(self) == old(self).after_length_tick(),
            final(self).wf(),
    {
        if self.counter_mode {
            self.length_counter = self.length_counter.saturating_sub(1);
            if self.length_counter == 0 {
                self.enabled = false;
            }
        }
    }

    pub fn tick_envelope_counter(&mut self)
        requires
            old(self).wf(),
        ensures
            *final(self) == old(self).after_envelope_tick(),
            final(self).wf(),
    {
        if self.envelope_period == 0 {
            return ;
        }
        self.envelope_counter = self.envelope_counter.saturating_sub(1);
        if self.envelope_counter == 0 {
            self.envelope_counter = self.envelope_period;
            if self.envelope_up && self.volume != 15 {
                self.volume += 1;
            } else if !self.envelope_up && self.volume != 0 {
                self.volume -= 1;
            }
        }
    }

    pub fn tick_sweep_counter(&mut self)
        requires
            old(self).wf(),
        ensures
            *final(self) == old(self).after_sweep_tick(),
            final(self).wf(),
    {
        self.sweep_counter = self.sweep_counter.saturating_sub(1);
        if self.sweep_enabled && self.sweep_period != 0 && self.sweep_counter == 0 {
            self.sweep_counter = self.sweep_period;
            let next_sweep_frequency = self.next_sweep_frequency();
            if next_sweep_frequency > SWEEP_OVERFLOW {
                self.enabled = false;
            } else if self.sweep_shift != 0 {
                self.sweep_frequency_shadow = next_sweep_frequency;
                self.frequency = next_sweep_frequency;
                self.timer = (2048 - self.frequency) * 4;
                if self.next_sweep_frequency() > SWEEP_OVERFLOW {
                    self.enabled = false;
                }
            }
        }
    }

    pub fn reset(&mut self)
        ensures
            *final(self) == ToneSweepChannel::initial(),
            final(self).wf(),
    {
        *self = ToneSweepChannel::new();
    }
}

/// The wave voice: it plays the 32 four-bit samples of wave memory.
#[derive(Copy, Clone, Debug)]
pub struct WaveChannel {
    pub enabled: bool,
    pub dac_enabled: bool,
    pub output_level: u8,
    pub frequency: u16,
    pub timer: u16,
    pub timer_tick: u16,
    pub counter_mode: bool,
    pub length_counter: u16,
    pub wave_ram: [u8; 32],
    pub wave_ram_index: usize,
    pub output: u8,
}

impl WaveChannel {
    /// The control state at power-on and after the audio unit is switched
    /// off; wave memory is not part of it.
    pub open spec fn with_controls_reset(self) -> WaveChannel {
        WaveChannel {
            enabled: false,
            dac_enabled: false,
            output_level: 0,
            frequency: 0,
            timer: 4096,
            timer_tick: 0,
            counter_mode: false,
            length_counter: 256,
            wave_ram: self.wave_ram,
            wave_ram_index: 0,
            output: 0,
        }
    }

    /// Register fields stay inside their widths, the period follows the
    /// frequency as (2048 - f) * 2, and every sample and the output are
    /// 4-bit levels.
    pub open spec fn wf(self) -> bool {
        &&& self.output_level <= 3
        &&& self.frequency <= 2047
        &&& self.timer == (2048 - self.frequency) * 2
        &&& self.length_counter <= 256
        &&& self.wave_ram_index < 32
        &&& self.output <= 15
        &&& forall|i: int| 0 <= i < 32 ==> #[trigger] self.wave_ram[i] <= 15
    }

    pub open spec fn nr30(self) -> u8 {
        if self.dac_enabled {
            0xff
        } else {
            0x7f
        }
    }

    pub open spec fn nr32(self) -> u8 {
        (self.output_level << 5) | 0x9f
    }

    pub open spec fn nr34(self) -> u8 {
        if self.counter_mode {
            0xff
        } else {
            0xbf
        }
    }

    /// Byte `index` of wave memory: two samples, the earlier one in the high
    /// nibble.
    pub open spec fn wave_byte(self, index: usize) -> u8 {
        (self.wave_ram[2 * index] << 4) | self.wave_ram[2 * index + 1]
    }

    pub open spec fn with_nr30(self, value: u8) -> WaveChannel {
        WaveChannel {
            dac_enabled: value & 0x80 != 0,
            enabled: self.enabled && value & 0x80 != 0,
            ..self
        }
    }

    pub open spec fn with_nr31(self, value: u8) -> WaveChannel {
        WaveChannel { length_counter: (256 - value) as u16, ..self }
    }

    pub open spec fn with_nr32(self, value: u8) -> WaveChannel {
        WaveChannel { output_level: (value & 0x60) >> 5, ..self }
    }

    pub open spec fn with_frequency(self, frequency: u16) -> WaveChannel {
        WaveChannel { frequency, timer: ((2048 - frequency) * 2) as u16, ..self }
    }

    pub open spec fn with_nr33(self, value: u8) -> WaveChannel {
        self.with_frequency((self.frequency & 0xff00) | value as u16)
    }

    /// The voice restarted by a write with the trigger bit.
    pub open spec fn triggered(self) -> WaveChannel {
        WaveChannel {
            length_counter: if self.length_counter == 0 {
                256
            } else {
                self.length_counter
            },
            enabled: self.enabled || self.dac_enabled,
            timer_tick: 0,
            wave_ram_index: 0,
            output: self.wave_ram[0],
            ..self
        }
    }

    pub open spec fn with_nr34(self, value: u8) -> WaveChannel {
        let tuned = self.with_frequency((self.frequency & 0x00ff) | ((value as u16 & 0x07) << 8));
        let run = if value & 0x80 != 0 {
            tuned.triggered()
        } else {
            tuned
        };
        WaveChannel { counter_mode: value & 0x40 != 0, ..run }
    }

    pub open spec fn with_wave_byte(self, index: usize, value: u8) -> WaveChannel {
        WaveChannel {
            wave_ram: vstd::array::spec_array_update(
                vstd::array::spec_array_update(self.wave_ram, 2 * index, value >> 4),
                2 * index + 1,
                value & 0x0f,
            ),
            ..self
        }
    }

    /// One tick of the 4 MHz clock: a silent or muted voice outputs zero; a
    /// sounding one moves to the next sample when its period has elapsed and
    /// outputs it shifted right by the output level less one.
    pub open spec fn after_cycle(self) -> WaveChannel {
        if !self.enabled || self.output_level == 0 {
            WaveChannel { output: 0, ..self }
        } else {
            let tick = if self.timer_tick == 0xffff {
                0u16
            } else {
                (self.timer_tick + 1) as u16
            };
            if tick == self.timer {
                let index = ((self.wave_ram_index + 1) % 32) as usize;
                WaveChannel {
                    timer_tick: 0,
                    wave_ram_index: index,
                    output: self.wave_ram[index as int] >> ((self.output_level - 1) as u8),
                    ..self
                }
            } else {
                WaveChannel { timer_tick: tick, ..self }
            }
        }
    }

    pub open spec fn after_length_tick(self) -> WaveChannel {
        if self.counter_mode {
            let left: u16 = if self.length_counter == 0 {
                0
            } else {
                (self.length_counter - 1) as u16
            };
            WaveChannel { length_counter: left, enabled: self.enabled && left != 0, ..self }
        } else {
            self
        }
    }

    pub fn new() -> (r: WaveChannel)
        ensures
            r.wf(),
            r.with_controls_reset() == r,
            forall|i: int| 0 <= i < 32 ==> r.wave_ram[i] == 0,
    {
        WaveChannel {
            enabled: false,
            dac_enabled: false,
            output_level: 0,
            frequency: 0,
            timer: 4096,
            timer_tick: 0,
            counter_mode: false,
            length_counter: 256,
            wave_ram: [0;32],
            wave_ram_index: 0,
            output: 0,
        }
    }

    pub fn read_nr30(&self) -> (r: u8)
        ensures
            r == self.nr30(),
    {
        if self.dac_enabled {
            0xff
        } else {
            0x7f
        }
    }

    pub fn read_nr31(&self) -> (r: u8)
        ensures
            r == 0xff,
    {
        0xff
    }

    pub fn read_nr32(&self) -> (r: u8)
        ensures
            r == self.nr32(),
    {
        (self.output_level << 5) | 0x9f
    }

    pub fn read_nr33(&self) -> (r: u8)
        ensures
            r == 0xff,
    {
        0xff
    }

    pub fn read_nr34(&self) -> (r: u8)
        ensures
            r == self.nr34(),
    {
        if self.counter_mode {
            0xff
        } else {
            0xbf
        }
    }

    pub fn read_wave_ram(&self, index: usize) -> (r: u8)
        requires
            index < 16,
        ensures
            r == self.wave_byte(index),
    {
        let ram_index = 2 * index;
        let high_nibble = self.wave_ram[ram_index];
        let low_nibble = self.wave_ram[ram_index + 1];
        (high_nibble << 4) | low_nibble
    }

    pub fn write_nr30(&mut self, value: u8)
        requires
            old(self).wf(),
        ensures
            *final(self) == old(self).with_nr30(value),
            final(self).wf(),
    {
        self.dac_enabled = value & 0x80 != 0;
        if !self.dac_enabled {
            self.enabled = false;
        }
    }

    pub fn write_nr31(&mut self, value: u8)
        requires
            old(self).wf(),
        ensures
            *final(self) == old(self).with_nr31(value),
            final(self).wf(),
    {
        self.length_counter = 256 - value as u16;
    }

    pub fn write_nr32(&mut self, value: u8)
        requires
            old(self).wf(),
        ensures
            *final(self) == old(self).with_nr32(value),
            final(self).wf(),
    {
        proof {
            lemma_field_bounds(value);
        }
        self.output_level = (value & 0x60) >> 5
    }

    pub fn write_nr33(&mut self, value: u8)
        requires
            old(self).wf(),
        ensures
            *final(self) == old(self).with_nr33(value),
            final(self).wf(),
    {
        proof {
            lemma_frequency_bits(self.frequency, value, 0);
        }
        self.frequency = (self.frequency & 0xff00) | value as u16;
        self.timer = (2048 - self.frequency) * 2;
    }

    pub fn write_nr34(&mut self, value: u8)
        requires
            old(self).wf(),
        ensures
            *final(self) == old(self).with_nr34(value),
            final(self).wf(),
    {
        proof {
            lemma_frequency_bits(self.frequency, value, 0);
        }
        self.frequency = (self.frequency & 0x00ff) | ((value as u16 & 0x07) << 8);
        self.timer = (2048 - self.frequency) * 2;

        if value & 0x80 != 0 {
            if self.length_counter == 0 {
                self.length_counter = 256;
            }
            if self.dac_enabled {
                self.enabled = true;
            }
            self.timer_tick = 0;
            self.wave_ram_index = 0;
            self.output = self.wave_ram[0];
        }
        self.counter_mode = value & 0x40 != 0;
    }

    pub fn write_wave_ram(&mut self, index: usize, value: u8)
        requires
            old(self).wf(),
            index < 16,
        ensures
            *final(self) == old(self).with_wave_byte(index, value),
            final(self).wf(),
    {
        proof {
            lemma_field_bounds(value);
        }
        let ram_index = 2 * index;
        self.wave_ram[ram_index] = value >> 4;
        self.wave_ram[ram_index + 1] = value & 0x0f;
    }

    pub fn execute_cycle(&mut self)
        requires
            old(self).wf(),
        ensures
            *final(self) == old(self).after_cycle(),
            final(self).wf(),
    {
        if !self.enabled || self.output_level == 0 {
            self.output = 0;
        } else {
            self.timer_tick = self.timer_tick.wrapping_add(1);
            if self.timer_tick == self.timer {
                self.timer_tick = 0;
                self.wave_ram_index = (self.wave_ram_index + 1) % 32;
                let sample = self.wave_ram[self.wave_ram_index];
                proof {
                    lemma_frequency_bits(0, sample, (self.output_level - 1) as u8);
                }
                self.output = sample >> (self.output_level - 1);
            }
        }
    }

    pub fn tick_length_counter(&mut self)
        requires
            old(self).wf(),
        ensures
            *final(self) == old(self).after_length_tick(),
            final(self).wf(),
    {
        if self.counter_mode {
            self.length_counter = self.length_counter.saturating_sub(1);
            if self.length_counter == 0 {
                self.enabled = false;
            }
        }
    }

    pub fn reset(&mut self)
        requires
            old(self).wf(),
        ensures
            *final(self) == old(self).with_controls_reset(),
            final(self).wf(),
    {
        self.enabled = false;
        self.dac_enabled = false;
        self.output_level = 0;
        self.frequency = 0;
        self.timer = 4096;
        self.timer_tick = 0;
        self.counter_mode = false;
        self.length_counter = 256;
        self.wave_ram_index = 0;
        self.output = 0;
    }
}

/// One step of the noise generator's shift register: the exclusive or of its
/// two lowest bits is shifted in at bit 14 and, in 7-bit mode, copied to bit
/// 6 as well.
pub open spec fn lfsr_step(lfsr: u16, short: bool) -> u16 {
    let fed = ((lfsr & 0x0002) >> 1) ^ (lfsr & 0x0001);
    let wide = (lfsr >> 1) | (fed << 14);
    if short {
        (wide & !0x0040u16) | (fed << 6)
    } else {
        wide
    }
}

/// The noise voice.
#[derive(Copy, Clone, Debug)]
pub struct NoiseChannel {
    pub dac_enabled: bool,
    pub enabled: bool,
    pub lfsr: u16,
    pub lfsr_7_bits: bool,
    pub shift_clock_frequency: u8,
    pub frequency_divider_ratio: u8,
    pub envelope_initial_volume: u8,
    pub envelope_up: bool,
    pub envelope_period: u8,
    pub envelope_counter: u8,
    pub volume: u8,
    pub timer: u16,
    pub timer_tick: u16,
    pub counter_mode: bool,
    pub length_counter: u8,
    pub output: u8,
}

impl NoiseChannel {
    pub open spec fn initial() -> NoiseChannel {
        NoiseChannel {
            dac_enabled: false,
            enabled: false,
            lfsr: 0xffff,
            lfsr_7_bits: false,
            shift_clock_frequency: 0,
            frequency_divider_ratio: 0,
            envelope_initial_volume: 0,
            envelope_up: false,
            envelope_period: 0,
            envelope_counter: 0,
            volume: 0,
            timer: 8,
            timer_tick: 0,
            counter_mode: false,
            length_counter: 64,
            output: 0,
        }
    }

    pub open spec fn wf(self) -> bool {
        &&& self.shift_clock_frequency <= 15
        &&& self.frequency_divider_ratio <= 7
        &&& self.envelope_initial_volume <= 15
        &&& self.envelope_period <= 7
        &&& self.volume <= 15
        &&& self.timer_tick < 0xffff
        &&& self.length_counter <= 64
        &&& self.output <= 15
    }

    pub open spec fn nr42(self) -> u8 {
        ((self.envelope_initial_volume << 4) | (if self.envelope_up {
            0x08u8
        } else {
            0x00u8
        })) | self.envelope_period
    }

    pub open spec fn nr43(self) -> u8 {
        ((self.shift_clock_frequency << 4) | (if self.lfsr_7_bits {
            0x08u8
        } else {
            0x00u8
        })) | self.frequency_divider_ratio
    }

    pub open spec fn nr44(self) -> u8 {
        if self.counter_mode {
            0xff
        } else {
            0xbf
        }
    }

    pub open spec fn with_nr41(self, value: u8) -> NoiseChannel {
        NoiseChannel { length_counter: (64 - (value & 0x3f)) as u8, ..self }
    }

    pub open spec fn with_nr42(self, value: u8) -> NoiseChannel {
        let dac = (value & 0xf0) >> 4 != 0 || value & 0x08 != 0;
        NoiseChannel {
            envelope_initial_volume: (value & 0xf0) >> 4,
            envelope_up: value & 0x08 != 0,
            envelope_period: value & 0x07,
            dac_enabled: dac,
            enabled: self.enabled && dac,
            ..self
        }
    }

    /// The divisor that a divider ratio selects: 8 for ratio 0, else 16
    /// times the ratio.
    pub open spec fn divisor_of(ratio: u8) -> u16 {
        if ratio == 0 {
            8
        } else {
            (ratio * 16) as u16
        }
    }

    /// The period is the divisor shifted left by the clock shift.
    pub open spec fn with_nr43(self, value: u8) -> NoiseChannel {
        NoiseChannel {
            shift_clock_frequency: (value & 0xf0) >> 4,
            lfsr_7_bits: value & 0x08 != 0,
            frequency_divider_ratio: value & 0x07,
            timer: NoiseChannel::divisor_of(value & 0x07) << (((value & 0xf0) >> 4) as u16),
            ..self
        }
    }

    pub open spec fn triggered(self) -> NoiseChannel {
        NoiseChannel {
            length_counter: if self.length_counter == 0 {
                64
            } else {
                self.length_counter
            },
            enabled: self.enabled || self.dac_enabled,
            timer_tick: 0,
            envelope_counter: self.envelope_period,
            volume: self.envelope_initial_volume,
            lfsr: 0xffff,
            output: 0,
            ..self
        }
    }

    pub open spec fn with_nr44(self, value: u8) -> NoiseChannel {
        let run = if value & 0x80 != 0 {
            self.triggered()
        } else {
            self
        };
        NoiseChannel { counter_mode: value & 0x40 != 0, ..run }
    }

    /// One tick of the 4 MHz clock: a silent voice outputs zero; a sounding
    /// one steps its shift register each time its period elapses and outputs
    /// the volume while the register's lowest bit is clear.
    pub open spec fn after_cycle(self) -> NoiseChannel {
        if !self.enabled {
            NoiseChannel { output: 0, ..self }
        } else if self.timer_tick + 1 >= self.timer {
            let lfsr = lfsr_step(self.lfsr, self.lfsr_7_bits);
            NoiseChannel {
                timer_tick: 0,
                lfsr,
                output: ((((!lfsr) & 0x0001u16) as u8) * self.volume) as u8,
                ..self
            }
        } else {
            NoiseChannel { timer_tick: (self.timer_tick + 1) as u16, ..self }
        }
    }

    pub open spec fn after_length_tick(self) -> NoiseChannel {
        if self.counter_mode {
            let left: u8 = if self.length_counter == 0 {
                0
            } else {
                (self.length_counter - 1) as u8
            };
            NoiseChannel { length_counter: left, enabled: self.enabled && left != 0, ..self }
        } else {
            self
        }
    }

    pub open spec fn after_envelope_tick(self) -> NoiseChannel {
        if self.envelope_period == 0 {
            self
        } else if self.envelope_counter <= 1 {
            NoiseChannel {
                envelope_counter: self.envelope_period,
                volume: if self.envelope_up && self.volume != 15 {
                    (self.volume + 1) as u8
                } else if !self.envelope_up && self.volume != 0 {
                    (self.volume - 1) as u8
                } else {
                    self.volume
                },
                ..self
            }
        } else {
            NoiseChannel { envelope_counter: (self.envelope_counter - 1) as u8, ..self }
        }
    }

    pub fn new() -> (r: NoiseChannel)
        ensures
            r == NoiseChannel::initial(),
            r.wf(),
    {
        NoiseChannel {
            dac_enabled: false,
            enabled: false,
            lfsr: 0xffff,
            lfsr_7_bits: false,
            shift_clock_frequency: 0,
            frequency_divider_ratio: 0,
            envelope_initial_volume: 0,
            envelope_up: false,
            envelope_period: 0,
            envelope_counter: 0,
            volume: 0,
            timer: 8,
            timer_tick: 0,
            counter_mode: false,
            length_counter: 64,
            output: 0,
        }
    }

    pub fn read_nr41(&self) -> (r: u8)
        ensures
            r == 0xff,
    {
        0xff
    }

    pub fn read_nr42(&self) -> (r: u8)
        ensures
            r == self.nr42(),
    {
        let dir: u8 = if self.envelope_up { 0x08 } else { 0x00 };
        ((self.envelope_initial_volume << 4) | dir) | self.envelope_period
    }

    pub fn read_nr43(&self) -> (r: u8)
        ensures
            r == self.nr43(),
    {
        let width: u8 = if self.lfsr_7_bits { 0x08 } else { 0x00 };
        ((self.shift_clock_frequency << 4) | width) | self.frequency_divider_ratio
    }

    pub fn read_nr44(&self) -> (r: u8)
        ensures
            r == self.nr44(),
    {
        if self.counter_mode {
            0xff
        } else {
            0xbf
        }
    }

    pub fn write_nr41(&mut self, value: u8)
        requires
            old(self).wf(),
        ensures
            *final(self) == old(self).with_nr41(value),
            final(self).wf(),
    {
        proof {
            lemma_field_bounds(value);
        }
        self.length_counter = 64 - (value & 0x3f);
    }

    pub fn write_nr42(&mut self, value: u8)
        requires
            old(self).wf(),
        ensures
            *final(self) == old(self).with_nr42(value),
            final(self).wf(),
    {
        proof {
            lemma_field_bounds(value);
        }
        self.envelope_initial_volume = (value & 0xf0) >> 4;
        self.envelope_up = value & 0x08 != 0;
        self.envelope_period = value & 0x07;
        self.dac_enabled = self.envelope_initial_volume != 0 || self.envelope_up;
        if !self.dac_enabled {
            self.enabled = false;
        }
    }

    pub fn write_nr43(&mut self, value: u8)
        requires
            old(self).wf(),
        ensures
            *final(self) == old(self).with_nr43(value),
            final(self).wf(),
    {
        proof {
            lemma_field_bounds(value);
        }
        self.shift_clock_frequency = (value & 0xf0) >> 4;
        self.lfsr_7_bits = value & 0x08 != 0;
        self.frequency_divider_ratio = value & 0x07;
        let divisor: u8 = if self.frequency_divider_ratio == 0 {
            8
        } else {
            self.frequency_divider_ratio * 16
        };
        self.timer = (divisor as u16) << (self.shift_clock_frequency as u16);
    }

    pub fn write_nr44(&mut self, value: u8)
        requires
            old(self).wf(),
        ensures
            *final(self) == old(self).with_nr44(value),
            final(self).wf(),
    {
        if value & 0x80 != 0 {
            if self.length_counter == 0 {
                self.length_counter = 64;
            }
            if self.dac_enabled {
                self.enabled = true;
            }
            self.timer_tick = 0;
            self.envelope_counter = self.envelope_period;
            self.volume = self.envelope_initial_volume;
            self.lfsr = 0xffff;
            self.output = 0;
        }
        self.counter_mode = value & 0x40 != 0;
    }

    pub fn execute_cycle(&mut self)
        requires
            old(self).wf(),
        ensures
            *final(self) == old(self).after_cycle(),
            final(self).wf(),
    {
        if !self.enabled {
            self.output = 0;
        } else {
            self.timer_tick += 1;
            if self.timer_tick >= self.timer {
                self.timer_tick = 0;
                let xor_output = ((self.lfsr & 0x0002) >> 1) ^ (self.lfsr & 0x0001);
                self.lfsr = (self.lfsr >> 1) | (xor_output << 14);
                if self.lfsr_7_bits {
                    self.lfsr = (self.lfsr & !0x0040u16) | (xor_output << 6);
                }
                let lfsr_bit = (!self.lfsr) & 0x0001;
                proof {
                    lemma_frequency_bits(self.lfsr, 0, 0);
                }
                self.output = scaled(lfsr_bit as u8, self.volume);
            }
        }
    }

    pub fn tick_length_counter(&mut self)
        requires
            old(self).wf(),
        ensures
            *final(self) == old(self).after_length_tick(),
            final(self).wf(),
    {
        if self.counter_mode {
            self.length_counter = self.length_counter.saturating_sub(1);
            if self.length_counter == 0 {
                self.enabled = false;
            }
        }
    }

    pub fn tick_envelope_counter(&mut self)
        requires
            old(self).wf(),
        ensures
            *final(self) == old(self).after_envelope_tick(),
            final(self).wf(),
    {
        if self.envelope_period == 0 {
            return ;
        }
        self.envelope_counter = self.envelope_counter.saturating_sub(1);
        if self.envelope_counter == 0 {
            self.envelope_counter = self.envelope_period;
            if self.envelope_up && self.volume != 15 {
                self.volume += 1;
            } else if !self.envelope_up && self.volume != 0 {
                self.volume -= 1;
            }
        }
    }

    pub fn reset(&mut self)
        ensures
            *final(self) == NoiseChannel::initial(),
            final(self).wf(),
    {
        *self = NoiseChannel::new();
    }
}

/// The audio unit as the memory map sees it, with the mixer's output ring.
///
/// A sample in the ring is the sum of the levels of the voices routed to
/// that side times the side's master volume: an integer in units of 1/800 of
/// full scale (a level counts 1/100, a volume step 1/8).
#[derive(Copy, Clone, Debug)]
pub struct SoundController {
    pub master_enable: bool,
    pub output_terminal_settings: u8,
    pub tone_sweep_channel: ToneSweepChannel,
    pub tone_channel: ToneSweepChannel,
    pub wave_channel: WaveChannel,
    pub noise_channel: NoiseChannel,
    pub output_buffer: [u16; 4096],
    pub left_vin: bool,
    pub right_vin: bool,
    pub left_volume: u8,
    pub right_volume: u8,
    pub buffer_insert_index: usize,
    pub buffer_remove_index: usize,
    pub buffer_size: usize,
    pub frame_sequence_count: u8,
    pub tick: u8,
}

impl SoundController {
    pub open spec fn wf(self) -> bool {
        &&& self.tone_sweep_channel.wf()
        &&& self.tone_channel.wf()
        &&& self.wave_channel.wf()
        &&& self.noise_channel.wf()
        &&& self.left_volume <= 7
        &&& self.right_volume <= 7
        &&& self.buffer_insert_index < OUTPUT_BUFFER_LEN
        &&& self.buffer_insert_index % 2 == 0
        &&& self.buffer_remove_index < OUTPUT_BUFFER_LEN
        &&& self.buffer_remove_index % QUEUE_INSERT_LEN == 0
        &&& self.frame_sequence_count < 8
        &&& self.tick < 45
    }

    /// The sum of the current levels of the voices that are routed to one
    /// side.
    pub open spec fn level(self, noise: bool, wave: bool, tone: bool, sweep: bool) -> int {
        (if noise {
            self.noise_channel.output as int
        } else {
            0
        }) + (if wave {
            self.wave_channel.output as int
        } else {
            0
        }) + (if tone {
            self.tone_channel.output as int
        } else {
            0
        }) + (if sweep {
            self.tone_sweep_channel.output as int
        } else {
            0
        })
    }

    /// The left sample: bits 7 to 4 of the routing byte select noise, wave,
    /// tone and tone-with-sweep.
    pub open spec fn left_sample(self) -> int {
        let t = self.output_terminal_settings;
        self.level(t & 0x80 != 0, t & 0x40 != 0, t & 0x20 != 0, t & 0x10 != 0) * self.left_volume
    }

    /// The right sample: bits 3 to 0 of the routing byte select noise, wave,
    /// tone and tone-with-sweep.
    pub open spec fn right_sample(self) -> int {
        let t = self.output_terminal_settings;
        self.level(t & 0x08 != 0, t & 0x04 != 0, t & 0x02 != 0, t & 0x01 != 0) * self.right_volume
    }

    pub open spec fn nr50(self) -> u8 {
        (((if self.left_vin {
            0x80u8
        } else {
            0x00u8
        }) | (self.left_volume << 4)) | (if self.right_vin {
            0x08u8
        } else {
            0x00u8
        })) | self.right_volume
    }

    pub open spec fn nr52(self) -> u8 {
        (((((if self.master_enable {
            0x80u8
        } else {
            0x00u8
        }) | (if self.noise_channel.enabled {
            0x08u8
        } else {
            0x00u8
        })) | (if self.wave_channel.enabled {
            0x04u8
        } else {
            0x00u8
        })) | (if self.tone_channel.enabled {
            0x02u8
        } else {
            0x00u8
        })) | (if self.tone_sweep_channel.enabled {
            0x01u8
        } else {
            0x00u8
        })) | 0x70
    }

    /// What a read of an audio register returns. Write-only registers and
    /// unused addresses read as 0xff.
    pub open spec fn read_value(self, address: usize) -> u8 {
        match address {
            0xff10 => self.tone_sweep_channel.nrx0(),
            0xff11 => self.tone_sweep_channel.nrx1(),
            0xff12 => self.tone_sweep_channel.nrx2(),
            0xff14 => self.tone_sweep_channel.nrx4(),
            0xff16 => self.tone_channel.nrx1(),
            0xff17 => self.tone_channel.nrx2(),
            0xff19 => self.tone_channel.nrx4(),
            0xff1a => self.wave_channel.nr30(),
            0xff1c => self.wave_channel.nr32(),
            0xff1e => self.wave_channel.nr34(),
            0xff21 => self.noise_channel.nr42(),
            0xff22 => self.noise_channel.nr43(),
            0xff23 => self.noise_channel.nr44(),
            0xff24 => self.nr50(),
            0xff25 => self.output_terminal_settings,
            0xff26 => self.nr52(),
            _ => if 0xff30 <= address <= 0xff3f {
                self.wave_channel.wave_byte((address - 0xff30) as usize)
            } else {
                0xff
            },
        }
    }

    /// The unit with every voice and every control register but the master
    /// enable cleared; wave memory is kept.
    pub open spec fn with_registers_cleared(self) -> SoundController {
        SoundController {
            left_vin: false,
            right_vin: false,
            left_volume: 0,
            right_volume: 0,
            output_terminal_settings: 0,
            tone_sweep_channel: ToneSweepChannel::initial(),
            tone_channel: ToneSweepChannel::initial(),
            wave_channel: self.wave_channel.with_controls_reset(),
            noise_channel: NoiseChannel::initial(),
            ..self
        }
    }

    /// The unit after a register write. While the master enable is off,
    /// only the master control register and wave memory take writes.
    pub open spec fn with_write(self, address: usize, value: u8) -> SoundController {
        if address == 0xff26 {
            let switched = SoundController { master_enable: value & 0x80 != 0, ..self };
            if value & 0x80 != 0 {
                switched
            } else {
                switched.with_registers_cleared()
            }
        } else if 0xff30 <= address <= 0xff3f {
            SoundController {
                wave_channel: self.wave_channel.with_wave_byte((address - 0xff30) as usize, value),
                ..self
            }
        } else if !self.master_enable {
            self
        } else {
            match address {
                0xff10 => SoundController {
                    tone_sweep_channel: self.tone_sweep_channel.with_nrx0(value),
                    ..self
                },
                0xff11 => SoundController {
                    tone_sweep_channel: self.tone_sweep_channel.with_nrx1(value),
                    ..self
                },
                0xff12 => SoundController {
                    tone_sweep_channel: self.tone_sweep_channel.with_nrx2(value),
                    ..self
                },
                0xff13 => SoundController {
                    tone_sweep_channel: self.tone_sweep_channel.with_nrx3(value),
                    ..self
                },
                0xff14 => SoundController {
                    tone_sweep_channel: self.tone_sweep_channel.with_nrx4(value),
                    ..self
                },
                0xff16 => SoundController {
                    tone_channel: self.tone_channel.with_nrx1(value),
                    ..self
                },
                0xff17 => SoundController {
                    tone_channel: self.tone_channel.with_nrx2(value),
                    ..self
                },
                0xff18 => SoundController {
                    tone_channel: self.tone_channel.with_nrx3(value),
                    ..self
                },
                0xff19 => SoundController {
                    tone_channel: self.tone_channel.with_nrx4(value),
                    ..self
                },
                0xff1a => SoundController {
                    wave_channel: self.wave_channel.with_nr30(value),
                    ..self
                },
                0xff1b => SoundController {
                    wave_channel: self.wave_channel.with_nr31(value),
                    ..self
                },
                0xff1c => SoundController {
                    wave_channel: self.wave_channel.with_nr32(value),
                    ..self
                },
                0xff1d => SoundController {
                    wave_channel: self.wave_channel.with_nr33(value),
                    ..self
                },
                0xff1e => SoundController {
                    wave_channel: self.wave_channel.with_nr34(value),
                    ..self
                },
                0xff20 => SoundController {
                    noise_channel: self.noise_channel.with_nr41(value),
                    ..self
                },
                0xff21 => SoundController {
                    noise_channel: self.noise_channel.with_nr42(value),
                    ..self
                },
                0xff22 => SoundController {
                    noise_channel: self.noise_channel.with_nr43(value),
                    ..self
                },
                0xff23 => SoundController {
                    noise_channel: self.noise_channel.with_nr44(value),
                    ..self
                },
                0xff24 => SoundController {
                    left_vin: value & 0x80 != 0x00,
                    right_vin: value & 0x08 != 0x00,
                    left_volume: (value & 0x70) >> 4,
                    right_volume: value & 0x07,
                    ..self
                },
                0xff25 => SoundController { output_terminal_settings: value, ..self },
                _ => self,
            }
        }
    }

    /// The unit with one stereo sample of its current state appended to the
    /// ring.
    pub open spec fn with_sample(self) -> SoundController {
        SoundController {
            output_buffer: vstd::array::spec_array_update(
                vstd::array::spec_array_update(
                    self.output_buffer,
                    self.buffer_insert_index as int,
                    self.left_sample() as u16,
                ),
                self.buffer_insert_index + 1,
                self.right_sample() as u16,
            ),
            buffer_insert_index: ((self.buffer_insert_index + 2) % 4096) as usize,
            buffer_size: if self.buffer_size + 2 > usize::MAX {
                usize::MAX
            } else {
                (self.buffer_size + 2) as usize
            },
            ..self
        }
    }

    /// One tick of the 4 MHz clock: the voices advance while the master
    /// enable is on, and every 45th tick adds a sample to the ring.
    pub open spec fn after_cycle(self) -> SoundController {
        let voiced = if self.master_enable {
            SoundController {
                tone_sweep_channel: self.tone_sweep_channel.after_cycle(),
                tone_channel: self.tone_channel.after_cycle(),
                wave_channel: self.wave_channel.after_cycle(),
                noise_channel: self.noise_channel.after_cycle(),
                ..self
            }
        } else {
            self
        };
        let sampled = if self.tick == 0 {
            voiced.with_sample()
        } else {
            voiced
        };
        SoundController { tick: ((self.tick + 1) % 45) as u8, ..sampled }
    }

    /// One step of the 512 Hz frame sequencer. Of its eight steps the even
    /// ones clock the length counters, steps 2 and 6 the sweep unit, and
    /// step 7 the envelopes.
    pub open spec fn after_frame_tick(self) -> SoundController {
        let step = ((self.frame_sequence_count + 1) % 8) as u8;
        let counted = if step % 2 == 0 {
            SoundController {
                tone_sweep_channel: self.tone_sweep_channel.after_length_tick(),
                tone_channel: self.tone_channel.after_length_tick(),
                wave_channel: self.wave_channel.after_length_tick(),
                noise_channel: self.noise_channel.after_length_tick(),
                ..self
            }
        } else {
            self
        };
        let swept = if step % 4 == 2 {
            SoundController {
                tone_sweep_channel: counted.tone_sweep_channel.after_sweep_tick(),
                ..counted
            }
        } else {
            counted
        };
        let shaped = if step == 7 {
            SoundController {
                tone_sweep_channel: swept.tone_sweep_channel.after_envelope_tick(),
                tone_channel: swept.tone_channel.after_envelope_tick(),
                noise_channel: swept.noise_channel.after_envelope_tick(),
                ..swept
            }
        } else {
            swept
        };
        SoundController { frame_sequence_count: step, ..shaped }
    }

    /// Whether `queue_audio` hands samples out: the host's queue holds fewer
    /// than 3 * 4096 frames of 8 bytes and the ring holds a full batch.
    pub open spec fn can_queue(self, queued_bytes: u32) -> bool {
        queued_bytes / 8 < 4096 * 3 && self.buffer_size >= QUEUE_INSERT_LEN
    }

    pub open spec fn after_queue(self) -> SoundController {
        SoundController {
            buffer_remove_index: ((self.buffer_remove_index + QUEUE_INSERT_LEN)
                % 4096) as usize,
            buffer_size: (self.buffer_size - QUEUE_INSERT_LEN) as usize,
            ..self
        }
    }

    pub fn new() -> (r: SoundController)
        ensures
            r.wf(),
            !r.master_enable,
            r.with_registers_cleared() == r,
            r.buffer_size == 0,
            r.buffer_insert_index == 0,
            r.buffer_remove_index == 0,
            r.frame_sequence_count == 0,
            r.tick == 0,
            forall|i: int| 0 <= i < 32 ==> r.wave_channel.wave_ram[i] == 0,
            forall|i: int| 0 <= i < 4096 ==> r.output_buffer[i] == 0,
    {
        SoundController {
            master_enable: false,
            output_terminal_settings: 0,
            tone_sweep_channel: ToneSweepChannel::new(),
            tone_channel: ToneSweepChannel::new(),
            wave_channel: WaveChannel::new(),
            noise_channel: NoiseChannel::new(),
            output_buffer: [0;4096],
            left_vin: false,
            right_vin: false,
            left_volume: 0,
            right_volume: 0,
            buffer_insert_index: 0,
            buffer_remove_index: 0,
            buffer_size: 0,
            frame_sequence_count: 0,
            tick: 0,
        }
    }

    pub fn read(&self, address: usize) -> (r: u8)
        ensures
            r == self.read_value(address),
    {
        match address {
            0xff10 => self.tone_sweep_channel.read_nrx0(),
            0xff11 => self.tone_sweep_channel.read_nrx1(),
            0xff12 => self.tone_sweep_channel.read_nrx2(),
            0xff13 => self.tone_sweep_channel.read_nrx3(),
            0xff14 => self.tone_sweep_channel.read_nrx4(),
            0xff16 => self.tone_channel.read_nrx1(),
            0xff17 => self.tone_channel.read_nrx2(),
            0xff18 => self.tone_channel.read_nrx3(),
            0xff19 => self.tone_channel.read_nrx4(),
            0xff1a => self.wave_channel.read_nr30(),
            0xff1b => self.wave_channel.read_nr31(),
            0xff1c => self.wave_channel.read_nr32(),
            0xff1d => self.wave_channel.read_nr33(),
            0xff1e => self.wave_channel.read_nr34(),
            0xff20 => self.noise_channel.read_nr41(),
            0xff21 => self.noise_channel.read_nr42(),
            0xff22 => self.noise_channel.read_nr43(),
            0xff23 => self.noise_channel.read_nr44(),
            0xff24 => {
                let lv: u8 = if self.left_vin { 0x80 } else { 0x00 };
                let rv: u8 = if self.right_vin { 0x08 } else { 0x00 };
                ((lv | (self.left_volume << 4)) | rv) | self.right_volume
            },
            0xff25 => self.output_terminal_settings,
            0xff26 => {
                let m: u8 = if self.master_enable { 0x80 } else { 0x00 };
                let n: u8 = if self.noise_channel.enabled { 0x08 } else { 0x00 };
                let w: u8 = if self.wave_channel.enabled { 0x04 } else { 0x00 };
                let t: u8 = if self.tone_channel.enabled { 0x02 } else { 0x00 };
                let s: u8 = if self.tone_sweep_channel.enabled { 0x01 } else { 0x00 };
                ((((m | n) | w) | t) | s) | 0x70
            },
            _ => {
                if 0xff30 <= address && address <= 0xff3f {
                    self.wave_channel.read_wave_ram(address - 0xff30)
                } else {
                    0xff
                }
            },
        }
    }

    pub fn write(&mut self, address: usize, value: u8)
        requires
            old(self).wf(),
        ensures
            *final(self) == old(self).with_write(address, value),
            final(self).wf(),
    {
        if address == 0xff26 {
            self.master_enable = value & 0x80 != 0;
            if !self.master_enable {
                self.reset();
            }
        } else if 0xff30 <= address && address <= 0xff3f {
            self.wave_channel.write_wave_ram(address - 0xff30, value);
        } else if self.master_enable {
            match address {
                0xff10 => self.tone_sweep_channel.write_nrx0(value),
                0xff11 => self.tone_sweep_channel.write_nrx1(value),
                0xff12 => self.tone_sweep_channel.write_nrx2(value),
                0xff13 => self.tone_sweep_channel.write_nrx3(value),
                0xff14 => self.tone_sweep_channel.write_nrx4(value),
                0xff16 => self.tone_channel.write_nrx1(value),
                0xff17 => self.tone_channel.write_nrx2(value),
                0xff18 => self.tone_channel.write_nrx3(value),
                0xff19 => self.tone_channel.write_nrx4(value),
                0xff1a => self.wave_channel.write_nr30(value),
                0xff1b => self.wave_channel.write_nr31(value),
                0xff1c => self.wave_channel.write_nr32(value),
                0xff1d => self.wave_channel.write_nr33(value),
                0xff1e => self.wave_channel.write_nr34(value),
                0xff20 => self.noise_channel.write_nr41(value),
                0xff21 => self.noise_channel.write_nr42(value),
                0xff22 => self.noise_channel.write_nr43(value),
                0xff23 => self.noise_channel.write_nr44(value),
                0xff24 => {
                    proof {
                        lemma_field_bounds(value);
                    }
                    self.left_vin = value & 0x80 != 0x00;
                    self.right_vin = value & 0x08 != 0x00;
                    self.left_volume = (value & 0x70) >> 4;
                    self.right_volume = value & 0x07;
                },
                0xff25 => self.output_terminal_settings = value,
                _ => {},
            }
        }
    }

    /// The sum of the levels of the voices selected by the four flags.
    fn mix(&self, noise: bool, wave: bool, tone: bool, sweep: bool) -> (r: u16)
        requires
            self.wf(),
        ensures
            r == self.level(noise, wave, tone, sweep),
            r <= 60,
    {
        let n: u16 = if noise { self.noise_channel.output as u16 } else { 0 };
        let w: u16 = if wave { self.wave_channel.output as u16 } else { 0 };
        let t: u16 = if tone { self.tone_channel.output as u16 } else { 0 };
        let s: u16 = if sweep { self.tone_sweep_channel.output as u16 } else { 0 };
        n + w + t + s
    }

    pub fn execute_cycle(&mut self)
        requires
            old(self).wf(),
        ensures
            *final(self) == old(self).after_cycle(),
            final(self).wf(),
    {
        if self.master_enable {
            self.tone_sweep_channel.execute_cycle();
            self.tone_channel.execute_cycle();
            self.wave_channel.execute_cycle();
            self.noise_channel.execute_cycle();
        }
        if self.tick == 0 {
            let t = self.output_terminal_settings;
            let left = self.mix(t & 0x80 != 0, t & 0x40 != 0, t & 0x20 != 0, t & 0x10 != 0);
            let right = self.mix(t & 0x08 != 0, t & 0x04 != 0, t & 0x02 != 0, t & 0x01 != 0);
            let lv = self.left_volume as u16;
            let rv = self.right_volume as u16;
            assert(left * lv <= 420 && right * rv <= 420) by (nonlinear_arith)
                requires
                    left <= 60,
                    right <= 60,
                    lv <= 7,
                    rv <= 7,
            ;
            self.output_buffer[self.buffer_insert_index] = left * lv;
            self.output_buffer[self.buffer_insert_index + 1] = right * rv;
            self.buffer_insert_index = (self.buffer_insert_index + 2) % OUTPUT_BUFFER_LEN;
            self.buffer_size = self.buffer_size.saturating_add(2);
        }
        self.tick = (self.tick + 1) % 45;
    }

    pub fn tick_frame_sequencer(&mut self)
        requires
            old(self).wf(),
        ensures
            *final(self) == old(self).after_frame_tick(),
            final(self).wf(),
    {
        self.frame_sequence_count = (self.frame_sequence_count + 1) % 8;
        if self.frame_sequence_count % 2 == 0 {
            self.tone_sweep_channel.tick_length_counter();
            self.tone_channel.tick_length_counter();
            self.wave_channel.tick_length_counter();
            self.noise_channel.tick_length_counter();
        }
        if self.frame_sequence_count % 4 == 2 {
            self.tone_sweep_channel.tick_sweep_counter();
        }
        if self.frame_sequence_count == 7 {
            self.tone_sweep_channel.tick_envelope_counter();
            self.tone_channel.tick_envelope_counter();
            self.noise_channel.tick_envelope_counter();
        }
    }

    /// Takes the next batch of samples out of the ring for the host's audio
    /// queue, which currently holds `queued_bytes` bytes. Returns nothing
    /// when the host's queue is long enough or the ring holds less than a
    /// batch.
    pub fn queue_audio(&mut self, queued_bytes: u32) -> (r: Option<Vec<u16>>)
        requires
            old(self).wf(),
        ensures
            final(self).wf(),
            match r {
                Some(batch) => {
                    &&& old(self).can_queue(queued_bytes)
                    &&& batch@ == old(self).output_buffer@.subrange(
                        old(self).buffer_remove_index as int,
                        old(self).buffer_remove_index + QUEUE_INSERT_LEN,
                    )
                    &&& *final(self) == old(self).after_queue()
                },
                None => !old(self).can_queue(queued_bytes) && *final(self) == *old(self),
            },
    {
        if queued_bytes / 8 < 4096 * 3 && self.buffer_size >= QUEUE_INSERT_LEN {
            let start = self.buffer_remove_index;
            let mut batch: Vec<u16> = Vec::with_capacity(QUEUE_INSERT_LEN);
            let mut i: usize = 0;
            while i < QUEUE_INSERT_LEN
                invariant
                    i <= QUEUE_INSERT_LEN,
                    start == self.buffer_remove_index,
                    start + QUEUE_INSERT_LEN <= OUTPUT_BUFFER_LEN,
                    *self == *old(self),
                    batch@ == self.output_buffer@.subrange(start as int, start + i),
                decreases QUEUE_INSERT_LEN - i,
            {
                batch.push(self.output_buffer[start + i]);
                i += 1;
            }
            self.buffer_remove_index = (self.buffer_remove_index + QUEUE_INSERT_LEN)
                % OUTPUT_BUFFER_LEN;
            self.buffer_size -= QUEUE_INSERT_LEN;
            Some(batch)
        } else {
            None
        }
    }

    pub fn buffer_full(&self) -> (r: bool)
        ensures
            r == (self.buffer_size == OUTPUT_BUFFER_LEN),
    {
        self.buffer_size == OUTPUT_BUFFER_LEN
    }

    fn reset(&mut self)
        requires
            old(self).wf(),
        ensures
            *final(self) == old(self).with_registers_cleared(),
            final(self).wf(),
    {
        self.left_vin = false;
        self.right_vin = false;
        self.left_volume = 0;
        self.right_volume = 0;
        self.output_terminal_settings = 0;
        self.tone_sweep_channel.reset();
        self.tone_channel.reset();
        self.wave_channel.reset();
        self.noise_channel.reset();
    }
}

} // verus!
