//! The third bank controller: a 7-bit ROM bank register, four RAM banks, and
//! a real-time clock that is read through the RAM window and kept running
//! across sessions by the save file.

use vstd::prelude::*;
use vstd::bytes::{spec_u16_to_le_bytes, spec_u16_from_le_bytes, spec_u32_to_le_bytes,
    spec_u32_from_le_bytes, spec_u64_to_le_bytes, spec_u64_from_le_bytes,
    lemma_auto_spec_u16_to_from_le_bytes, lemma_auto_spec_u32_to_from_le_bytes,
    lemma_auto_spec_u64_to_from_le_bytes};
use vstd::slice::slice_subrange;
use crate::mbc::{Mbc, overlay, image_of, zero_extended, extend_with_zeros, bytes_of, bank_count,
    reduce_bank};

verus! {

/// Number of bytes that the clock adds to the save file: the snapshot and
/// the wall-clock time of the save.
pub const RTC_SAVE_LEN: usize = 30;

#[verifier::external_type_specification]
#[verifier::external_body]
pub struct ExDeBinErr(nanoserde::DeBinErr);

/// Why a saved clock could not be read back.
#[derive(Copy, Clone, Debug, PartialEq, Eq)]
pub enum SaveError {
    /// The save data ends before the clock image does.
    Truncated,
}

/// `nanoserde`'s `SerBin::ser_bin` for `u8`: appends the byte itself.
#[verifier::external_body]
fn put_u8(value: u8, out: &mut Vec<u8>)
    ensures
        final(out)@ == old(out)@.push(value),
{
    nanoserde::SerBin::ser_bin(&value, out)
}

/// `nanoserde`'s `SerBin::ser_bin` for `bool`: appends 1 for true and 0 for
/// false.
#[verifier::external_body]
fn put_bool(value: bool, out: &mut Vec<u8>)
    ensures
        final(out)@ == old(out)@.push(
            if value {
                1u8
            } else {
                0u8
            },
        ),
{
    nanoserde::SerBin::ser_bin(&value, out)
}

/// `nanoserde`'s `SerBin::ser_bin` for `u16`: appends the two bytes of the
/// value, lowest first.
#[verifier::external_body]
fn put_u16(value: u16, out: &mut Vec<u8>)
    ensures
        final(out)@ == old(out)@ + spec_u16_to_le_bytes(value),
{
    nanoserde::SerBin::ser_bin(&value, out)
}

/// `nanoserde`'s `SerBin::ser_bin` for `u32`: appends the four bytes of the
/// value, lowest first.
#[verifier::external_body]
fn put_u32(value: u32, out: &mut Vec<u8>)
    ensures
        final(out)@ == old(out)@ + spec_u32_to_le_bytes(value),
{
    nanoserde::SerBin::ser_bin(&value, out)
}

/// `nanoserde`'s `SerBin::ser_bin` for `u64`: appends the eight bytes of the
/// value, lowest first.
#[verifier::external_body]
fn put_u64(value: u64, out: &mut Vec<u8>)
    ensures
        final(out)@ == old(out)@ + spec_u64_to_le_bytes(value),
{
    nanoserde::SerBin::ser_bin(&value, out)
}

/// `nanoserde`'s `DeBin::de_bin` for `u8`: reads the byte at `offset` and
/// moves the offset past it, or fails and leaves the offset alone when no
/// byte is left.
#[verifier::external_body]
fn take_u8(offset: &mut usize, bytes: &[u8]) -> (r: Result<u8, nanoserde::DeBinErr>)
    requires
        *old(offset) + 1 <= usize::MAX,
    ensures
        r is Ok <==> *old(offset) + 1 <= bytes@.len(),
        r is Ok ==> *final(offset) == *old(offset) + 1 && r->Ok_0 == bytes@[*old(offset) as int],
        r is Err ==> *final(offset) == *old(offset),
{
    nanoserde::DeBin::de_bin(offset, bytes)
}

/// `nanoserde`'s `DeBin::de_bin` for `bool`: reads the byte at `offset`,
/// false for zero and true for anything else, and moves the offset past it,
/// or fails and leaves the offset alone when no byte is left.
#[verifier::external_body]
fn take_bool(offset: &mut usize, bytes: &[u8]) -> (r: Result<bool, nanoserde::DeBinErr>)
    requires
        *old(offset) + 1 <= usize::MAX,
    ensures
        r is Ok <==> *old(offset) + 1 <= bytes@.len(),
        r is Ok ==> *final(offset) == *old(offset) + 1 && r->Ok_0 == (bytes@[*old(offset) as int]
            != 0),
        r is Err ==> *final(offset) == *old(offset),
{
    nanoserde::DeBin::de_bin(offset, bytes)
}

/// `nanoserde`'s `DeBin::de_bin` for `u16`: reads two bytes at `offset`,
/// lowest first, and moves the offset past them, or fails and leaves the
/// offset alone when fewer are left.
#[verifier::external_body]
fn take_u16(offset: &mut usize, bytes: &[u8]) -> (r: Result<u16, nanoserde::DeBinErr>)
    requires
        *old(offset) + 2 <= usize::MAX,
    ensures
        r is Ok <==> *old(offset) + 2 <= bytes@.len(),
        r is Ok ==> *final(offset) == *old(offset) + 2 && r->Ok_0 == spec_u16_from_le_bytes(
            bytes@.subrange(*old(offset) as int, *old(offset) + 2),
        ),
        r is Err ==> *final(offset) == *old(offset),
{
    nanoserde::DeBin::de_bin(offset, bytes)
}

/// `nanoserde`'s `DeBin::de_bin` for `u32`: reads four bytes at `offset`,
/// lowest first, and moves the offset past them, or fails and leaves the
/// offset alone when fewer are left.
#[verifier::external_body]
fn take_u32(offset: &mut usize, bytes: &[u8]) -> (r: Result<u32, nanoserde::DeBinErr>)
    requires
        *old(offset) + 4 <= usize::MAX,
    ensures
        r is Ok <==> *old(offset) + 4 <= bytes@.len(),
        r is Ok ==> *final(offset) == *old(offset) + 4 && r->Ok_0 == spec_u32_from_le_bytes(
            bytes@.subrange(*old(offset) as int, *old(offset) + 4),
        ),
        r is Err ==> *final(offset) == *old(offset),
{
    nanoserde::DeBin::de_bin(offset, bytes)
}

/// `nanoserde`'s `DeBin::de_bin` for `u64`: reads eight bytes at `offset`,
/// lowest first, and moves the offset past them, or fails and leaves the
/// offset alone when fewer are left.
#[verifier::external_body]
fn take_u64(offset: &mut usize, bytes: &[u8]) -> (r: Result<u64, nanoserde::DeBinErr>)
    requires
        *old(offset) + 8 <= usize::MAX,
    ensures
        r is Ok <==> *old(offset) + 8 <= bytes@.len(),
        r is Ok ==> *final(offset) == *old(offset) + 8 && r->Ok_0 == spec_u64_from_le_bytes(
            bytes@.subrange(*old(offset) as int, *old(offset) + 8),
        ),
        r is Err ==> *final(offset) == *old(offset),
{
    nanoserde::DeBin::de_bin(offset, bytes)
}

#[verifier::external_type_specification]
#[verifier::external_body]
pub struct ExSystemTime(std::time::SystemTime);

#[verifier::external_type_specification]
#[verifier::external_body]
pub struct ExSystemTimeError(std::time::SystemTimeError);

/// `SystemTime::now`: the wall clock. Nothing is known of the value.
#[verifier::external_body]
fn system_now() -> std::time::SystemTime {
    std::time::SystemTime::now()
}

/// `SystemTime::duration_since`, measured from `UNIX_EPOCH`: the time since
/// the Unix epoch, or an error for a moment before it. Nothing is known of
/// the value.
#[verifier::external_body]
fn since_epoch(moment: &std::time::SystemTime) -> Result<
    std::time::Duration,
    std::time::SystemTimeError,
> {
    moment.duration_since(std::time::UNIX_EPOCH)
}

/// `Duration::as_micros`: the whole microseconds of a duration. Nothing is
/// known of the value.
#[verifier::external_body]
fn whole_micros(duration: &std::time::Duration) -> u128 {
    duration.as_micros()
}

/// The wall clock in microseconds since the Unix epoch, cut to 64 bits;
/// zero if the clock stands before the epoch.
fn wall_clock_micros() -> u64 {
    let now = system_now();
    match since_epoch(&now) {
        Ok(since) => {
            let micros = whole_micros(&since);
            #[verifier::truncate]
            (micros as u64)
        },
        Err(_) => 0,
    }
}

/// The value of a clock field after `carry_in` units are carried into it. A
/// field that holds more than its largest value `limit - 1` counts as that
/// value. Without a carry the field is left alone.
pub open spec fn stage_value(field: int, limit: int, carry_in: int) -> int {
    if carry_in > 0 {
        ((if field > limit - 1 {
            limit - 1
        } else {
            field
        }) + carry_in) % limit
    } else {
        field
    }
}

/// The carry out of a clock field into the next one.
pub open spec fn stage_carry(field: int, limit: int, carry_in: int) -> int {
    if carry_in > 0 {
        ((if field > limit - 1 {
            limit - 1
        } else {
            field
        }) + carry_in) / limit
    } else {
        0
    }
}

/// One reading of the clock.
#[derive(Copy, Clone, Debug)]
pub struct RtcTime {
    pub micros: u32,
    pub seconds: u8,
    pub minutes: u8,
    pub hours: u8,
    pub days: u16,
    pub day_carry: bool,
}

impl RtcTime {
    pub open spec fn epoch() -> RtcTime {
        RtcTime { micros: 0, seconds: 0, minutes: 0, hours: 0, days: 0, day_carry: false }
    }

    /// The carry into the seconds after `micros` more microseconds.
    pub open spec fn seconds_in(self, micros: nat) -> int {
        (self.micros + micros) / 1_000_000
    }

    pub open spec fn minutes_in(self, micros: nat) -> int {
        stage_carry(self.seconds as int, 60, self.seconds_in(micros))
    }

    pub open spec fn hours_in(self, micros: nat) -> int {
        stage_carry(self.minutes as int, 60, self.minutes_in(micros))
    }

    pub open spec fn days_in(self, micros: nat) -> int {
        stage_carry(self.hours as int, 24, self.hours_in(micros))
    }

    /// The reading `micros` microseconds later: the microseconds carry into
    /// the seconds, those into the minutes, the hours and the days. The day
    /// counter has nine bits; when it wraps, the day-carry flag is set and
    /// stays set.
    pub open spec fn advanced(self, micros: nat) -> RtcTime {
        RtcTime {
            micros: ((self.micros + micros) % 1_000_000) as u32,
            seconds: stage_value(self.seconds as int, 60, self.seconds_in(micros)) as u8,
            minutes: stage_value(self.minutes as int, 60, self.minutes_in(micros)) as u8,
            hours: stage_value(self.hours as int, 24, self.hours_in(micros)) as u8,
            days: if self.days_in(micros) > 0 {
                ((self.days + self.days_in(micros)) % 512) as u16
            } else {
                self.days
            },
            day_carry: self.day_carry || (self.days_in(micros) > 0 && self.days + self.days_in(
                micros,
            ) > 511),
        }
    }

    /// The ten bytes of a reading in the save file: the microseconds as four
    /// bytes, lowest first; seconds, minutes and hours; the days as two
    /// bytes, lowest first; the day-carry flag as 0 or 1.
    pub open spec fn encoded(self) -> Seq<u8> {
        spec_u32_to_le_bytes(self.micros) + seq![self.seconds, self.minutes, self.hours]
            + spec_u16_to_le_bytes(self.days) + seq![
            if self.day_carry {
                1u8
            } else {
                0u8
            },
        ]
    }

    /// The reading that the ten bytes at `at` stand for.
    pub open spec fn decoded_at(bytes: Seq<u8>, at: int) -> RtcTime {
        RtcTime {
            micros: spec_u32_from_le_bytes(bytes.subrange(at, at + 4)),
            seconds: bytes[at + 4],
            minutes: bytes[at + 5],
            hours: bytes[at + 6],
            days: spec_u16_from_le_bytes(bytes.subrange(at + 7, at + 9)),
            day_carry: bytes[at + 9] != 0,
        }
    }

    fn advance(&mut self, micros: u64)
        ensures
            *final(self) == old(self).advanced(micros as nat),
    {
        let new_micros: u128 = self.micros as u128 + micros as u128;
        self.micros = (new_micros % 1_000_000) as u32;
        let seconds_cin: u64 = (new_micros / 1_000_000) as u64;

        let minutes_cin: u64 = if seconds_cin > 0 {
            let new_seconds: u64 = (if self.seconds > 59 {
                59
            } else {
                self.seconds
            }) as u64 + seconds_cin;
            self.seconds = (new_seconds % 60) as u8;
            new_seconds / 60
        } else {
            0
        };

        let hours_cin: u64 = if minutes_cin > 0 {
            let new_minutes: u64 = (if self.minutes > 59 {
                59
            } else {
                self.minutes
            }) as u64 + minutes_cin;
            self.minutes = (new_minutes % 60) as u8;
            new_minutes / 60
        } else {
            0
        };

        let days_cin: u64 = if hours_cin > 0 {
            let new_hours: u64 = (if self.hours > 23 {
                23
            } else {
                self.hours
            }) as u64 + hours_cin;
            self.hours = (new_hours % 24) as u8;
            new_hours / 24
        } else {
            0
        };

        if days_cin > 0 {
            let new_days: u64 = self.days as u64 + days_cin;
            self.days = (new_days % 512) as u16;
            if new_days > 511 {
                self.day_carry = true;
            }
        }
    }

    fn write_to(&self, out: &mut Vec<u8>)
        ensures
            final(out)@ == old(out)@ + self.encoded(),
    {
        put_u32(self.micros, out);
        put_u8(self.seconds, out);
        put_u8(self.minutes, out);
        put_u8(self.hours, out);
        put_u16(self.days, out);
        put_bool(self.day_carry, out);
        assert(out@ =~= old(out)@ + self.encoded());
    }

    fn read_from(offset: &mut usize, bytes: &[u8]) -> (r: Result<RtcTime, nanoserde::DeBinErr>)
        requires
            *old(offset) + 10 <= usize::MAX,
        ensures
            r is Ok <==> *old(offset) + 10 <= bytes@.len(),
            r is Ok ==> *final(offset) == *old(offset) + 10 && r->Ok_0 == RtcTime::decoded_at(
                bytes@,
                *old(offset) as int,
            ),
    {
        let micros = match take_u32(offset, bytes) {
            Ok(v) => v,
            Err(e) => {
                return Err(e);
            },
        };
        let seconds = match take_u8(offset, bytes) {
            Ok(v) => v,
            Err(e) => {
                return Err(e);
            },
        };
        let minutes = match take_u8(offset, bytes) {
            Ok(v) => v,
            Err(e) => {
                return Err(e);
            },
        };
        let hours = match take_u8(offset, bytes) {
            Ok(v) => v,
            Err(e) => {
                return Err(e);
            },
        };
        let days = match take_u16(offset, bytes) {
            Ok(v) => v,
            Err(e) => {
                return Err(e);
            },
        };
        let day_carry = match take_bool(offset, bytes) {
            Ok(v) => v,
            Err(e) => {
                return Err(e);
            },
        };
        Ok(RtcTime { micros, seconds, minutes, hours, days, day_carry })
    }
}

/// The clock: the running time, the snapshot that the game latched, and the
/// latch and halt flags.
#[derive(Copy, Clone, Debug)]
pub struct Rtc {
    pub live_time: RtcTime,
    pub latched_time: RtcTime,
    pub latched: bool,
    pub halt: bool,
}

impl Rtc {
    pub open spec fn epoch() -> Rtc {
        Rtc {
            live_time: RtcTime::epoch(),
            latched_time: RtcTime::epoch(),
            latched: false,
            halt: false,
        }
    }

    /// The clock `micros` microseconds later. A halted clock stands still.
    pub open spec fn after(self, micros: u64) -> Rtc {
        if self.halt {
            self
        } else {
            Rtc { live_time: self.live_time.advanced(micros as nat), ..self }
        }
    }

    /// The 22 bytes of the clock in the save file: the running time, the
    /// latched time, and the latch and halt flags as 0 or 1.
    pub open spec fn encoded(self) -> Seq<u8> {
        self.live_time.encoded() + self.latched_time.encoded() + seq![
            if self.latched {
                1u8
            } else {
                0u8
            },
            if self.halt {
                1u8
            } else {
                0u8
            },
        ]
    }

    /// The clock that the 22 bytes at `at` stand for.
    pub open spec fn decoded_at(bytes: Seq<u8>, at: int) -> Rtc {
        Rtc {
            live_time: RtcTime::decoded_at(bytes, at),
            latched_time: RtcTime::decoded_at(bytes, at + 10),
            latched: bytes[at + 20] != 0,
            halt: bytes[at + 21] != 0,
        }
    }

    pub fn new() -> (r: Rtc)
        ensures
            r == Rtc::epoch(),
    {
        let zero = RtcTime { micros: 0, seconds: 0, minutes: 0, hours: 0, days: 0, day_carry: false };
        Rtc { live_time: zero, latched_time: zero, latched: false, halt: false }
    }

    /// Appends the clock's 22 bytes to `out`.
    pub fn write_to(&self, out: &mut Vec<u8>)
        ensures
            final(out)@ == old(out)@ + self.encoded(),
    {
        self.live_time.write_to(out);
        self.latched_time.write_to(out);
        put_bool(self.latched, out);
        put_bool(self.halt, out);
        assert(out@ =~= old(out)@ + self.encoded());
    }

    /// Reads a clock from the 22 bytes at `offset` and moves the offset past
    /// them. Fails exactly when fewer than 22 bytes are left.
    pub fn read_from(offset: &mut usize, bytes: &[u8]) -> (r: Result<Rtc, SaveError>)
        requires
            *old(offset) + 22 <= usize::MAX,
        ensures
            r is Ok <==> *old(offset) + 22 <= bytes@.len(),
            r is Ok ==> *final(offset) == *old(offset) + 22 && r->Ok_0 == Rtc::decoded_at(
                bytes@,
                *old(offset) as int,
            ),
    {
        let live_time = match RtcTime::read_from(offset, bytes) {
            Ok(v) => v,
            Err(_) => {
                return Err(SaveError::Truncated);
            },
        };
        let latched_time = match RtcTime::read_from(offset, bytes) {
            Ok(v) => v,
            Err(_) => {
                return Err(SaveError::Truncated);
            },
        };
        let latched = match take_bool(offset, bytes) {
            Ok(v) => v,
            Err(_) => {
                return Err(SaveError::Truncated);
            },
        };
        let halt = match take_bool(offset, bytes) {
            Ok(v) => v,
            Err(_) => {
                return Err(SaveError::Truncated);
            },
        };
        Ok(Rtc { live_time, latched_time, latched, halt })
    }
}

pub struct MBC3 {
    pub rom: Vec<u8>,
    pub ram: [u8; 0x8000],
    pub rom_bank: usize,
    pub ram_timer_enabled: bool,
    pub ram_timer_select: u8,
    pub rom_size: u8,
    pub rtc: Rtc,
    pub has_battery: bool,
    pub has_rtc: bool,
}

/// The number of bytes that a cartridge with these features saves.
pub open spec fn save_len(battery: bool, rtc: bool) -> int {
    (if battery {
        0x8000int
    } else {
        0
    }) + (if rtc {
        RTC_SAVE_LEN as int
    } else {
        0
    })
}

/// Whether save data can be restored: there is some, and it is not shorter
/// than what the cartridge saves. Anything else is discarded.
pub open spec fn save_usable(load_data: Seq<u8>, battery: bool, rtc: bool) -> bool {
    load_data.len() > 0 && load_data.len() >= save_len(battery, rtc)
}

/// Where the clock image starts in the save data.
pub open spec fn rtc_offset(battery: bool) -> int {
    if battery {
        0x8000
    } else {
        0
    }
}

/// The RAM that a cartridge starts with.
pub open spec fn restored_ram(load_data: Seq<u8>, battery: bool, rtc: bool) -> Seq<u8> {
    if battery && save_usable(load_data, battery, rtc) {
        load_data.subrange(0, 0x8000)
    } else {
        zero_extended(Seq::empty(), 0x8000)
    }
}

/// The microseconds between a save at `saved_millis` milliseconds and now;
/// zero if the save lies in the future.
pub open spec fn elapsed_micros(now_micros: u64, saved_millis: u64) -> u64 {
    if saved_millis <= now_micros / 1000 {
        (now_micros - saved_millis * 1000) as u64
    } else {
        0
    }
}

/// The clock that a cartridge starts with: the saved one, moved forward by
/// the time since the save, or the epoch without usable save data.
pub open spec fn restored_rtc(load_data: Seq<u8>, battery: bool, rtc: bool, now_micros: u64) -> Rtc {
    if rtc && save_usable(load_data, battery, rtc) {
        let at = rtc_offset(battery);
        Rtc::decoded_at(load_data, at).after(
            elapsed_micros(
                now_micros,
                spec_u64_from_le_bytes(load_data.subrange(at + 22, at + 30)),
            ),
        )
    } else {
        Rtc::epoch()
    }
}

impl MBC3 {
    /// The ROM bank mapped at 0x4000.
    pub open spec fn bank(&self) -> int {
        (self.rom_bank as u64 % bank_count(self.rom_size)) as int
    }

    /// The clock reading that the clock registers show: the latched one
    /// while the latch is set, else the running one.
    pub open spec fn shown_time(&self) -> RtcTime {
        if self.rtc.latched {
            self.rtc.latched_time
        } else {
            self.rtc.live_time
        }
    }

    /// What the clock register chosen by the selector reads as.
    pub open spec fn clock_register(&self) -> u8 {
        let t = self.shown_time();
        match self.ram_timer_select {
            0x8 => t.seconds,
            0x9 => t.minutes,
            0xa => t.hours,
            0xb => t.days as u8,
            0xc => ((if t.day_carry {
                0x80u8
            } else {
                0x00u8
            }) | (if self.rtc.halt {
                0x40u8
            } else {
                0x00u8
            })) | (if t.days & 0x0100 != 0 {
                0x01u8
            } else {
                0x00u8
            }),
            _ => 0xff,
        }
    }

    /// The clock after `value` is written to the clock register chosen by
    /// the selector. Writes go to the running time.
    pub open spec fn with_clock_write(&self, value: u8) -> Rtc {
        let live = self.rtc.live_time;
        match self.ram_timer_select {
            0x8 => Rtc { live_time: RtcTime { seconds: value % 0x40, ..live }, ..self.rtc },
            0x9 => Rtc { live_time: RtcTime { minutes: value % 0x40, ..live }, ..self.rtc },
            0xa => Rtc { live_time: RtcTime { hours: value % 0x20, ..live }, ..self.rtc },
            0xb => Rtc {
                live_time: RtcTime { days: (live.days & 0xff00) | value as u16, ..live },
                ..self.rtc
            },
            0xc => Rtc {
                live_time: RtcTime {
                    days: (live.days & 0x00ff) | ((value as u16 & 0x01) << 8),
                    day_carry: value & 0x80 != 0,
                    ..live
                },
                halt: value & 0x40 != 0,
                ..self.rtc
            },
            _ => self.rtc,
        }
    }

    /// The bytes of the save file written at `now_millis`: the RAM if there
    /// is a battery, then, if there is a clock, its image and the time of
    /// the save as eight bytes, lowest first.
    pub open spec fn save_bytes(&self, now_millis: u64) -> Seq<u8> {
        (if self.has_battery {
            self.ram@
        } else {
            Seq::empty()
        }) + (if self.has_rtc {
            self.rtc.encoded() + spec_u64_to_le_bytes(now_millis)
        } else {
            Seq::empty()
        })
    }

    /// Takes the ROM image, of which byte 0x148 is the ROM size code, and
    /// the save data, and reads the wall clock to move a saved clock
    /// forward. Whatever the wall clock says, the cartridge is the one that
    /// `restored` builds for some time.
    pub fn new(rom: Vec<u8>, load_data: &[u8], battery: bool, rtc: bool) -> (r: MBC3)
        requires
            0x149 <= rom@.len() <= 0x20_0000,
            rom@[0x148] <= 62,
        ensures
            r.wf(),
            r.rom@ == zero_extended(rom@, 0x20_0000),
            r.ram@ == restored_ram(load_data@, battery, rtc),
            exists|now_micros: u64|
                r.rtc == #[trigger] restored_rtc(load_data@, battery, rtc, now_micros),
            r.rom_bank == 1,
            !r.ram_timer_enabled,
            r.ram_timer_select == 0,
            r.rom_size == rom@[0x148],
            r.has_battery == battery,
            r.has_rtc == rtc,
    {
        let now_micros = wall_clock_micros();
        MBC3::restored(rom, load_data, battery, rtc, now_micros)
    }

    /// Builds the cartridge at `now_micros` microseconds of wall-clock time.
    pub fn restored(rom: Vec<u8>, load_data: &[u8], battery: bool, rtc: bool, now_micros: u64) -> (r:
        MBC3)
        requires
            0x149 <= rom@.len() <= 0x20_0000,
            rom@[0x148] <= 62,
        ensures
            r.wf(),
            r.rom@ == zero_extended(rom@, 0x20_0000),
            r.ram@ == restored_ram(load_data@, battery, rtc),
            r.rtc == restored_rtc(load_data@, battery, rtc, now_micros),
            r.rom_bank == 1,
            !r.ram_timer_enabled,
            r.ram_timer_select == 0,
            r.rom_size == rom@[0x148],
            r.has_battery == battery,
            r.has_rtc == rtc,
    {
        let rom_size = rom[0x148];
        let needed: usize = (if battery {
            0x8000
        } else {
            0
        }) + (if rtc {
            RTC_SAVE_LEN
        } else {
            0
        });
        let usable = load_data.len() > 0 && load_data.len() >= needed;
        let mut ram = [0u8;0x8000];
        let mut clock = Rtc::new();
        let mut load_index: usize = 0;
        assert(ram@ =~= zero_extended(Seq::empty(), 0x8000));
        if usable && battery {
            ram = overlay(ram, slice_subrange(load_data, 0, 0x8000));
            load_index = 0x8000;
            assert(ram@ =~= load_data@.subrange(0, 0x8000));
        }
        if usable && rtc {
            let ghost at = load_index as int;
            match Rtc::read_from(&mut load_index, load_data) {
                Ok(saved) => {
                    clock = saved;
                    match take_u64(&mut load_index, load_data) {
                        Ok(last_save_millis) => {
                            let micros_since_last_save = if last_save_millis <= now_micros / 1000 {
                                now_micros - last_save_millis * 1000
                            } else {
                                0
                            };
                            if !clock.halt {
                                clock.live_time.advance(micros_since_last_save);
                            }
                        },
                        Err(_) => {},
                    }
                },
                Err(_) => {},
            }
        }
        MBC3 {
            rom: extend_with_zeros(rom, 0x20_0000),
            ram,
            rom_bank: 1,
            ram_timer_enabled: false,
            ram_timer_select: 0,
            rom_size,
            rtc: clock,
            has_battery: battery,
            has_rtc: rtc,
        }
    }

    /// The bytes to persist at `now_millis` milliseconds of wall-clock time,
    /// or nothing for a cartridge with neither battery nor clock.
    pub fn save_at(&self, now_millis: u64) -> (r: Option<Vec<u8>>)
        ensures
            image_of(r) == self.save_image(now_millis),
    {
        if !self.has_battery && !self.has_rtc {
            return None;
        }
        let mut buffer: Vec<u8> = if self.has_battery {
            bytes_of(&self.ram)
        } else {
            Vec::new()
        };
        if self.has_rtc {
            self.rtc.write_to(&mut buffer);
            put_u64(now_millis, &mut buffer);
        }
        assert(buffer@ =~= self.save_bytes(now_millis));
        Some(buffer)
    }
}

impl Mbc for MBC3 {
    open spec fn wf(&self) -> bool {
        &&& self.rom@.len() == 0x20_0000
        &&& 1 <= self.rom_bank <= 127
        &&& self.ram_timer_select <= 15
        &&& self.rom_size <= 62
    }

    /// With the selector below 4 the RAM window shows that RAM bank; with
    /// any other selector it shows a clock register.
    open spec fn read_value(&self, address: usize) -> u8 {
        if address < 0x4000 {
            self.rom@[address as int]
        } else if address < 0x8000 {
            self.rom@[self.bank() * 0x4000 + (address - 0x4000)]
        } else if !self.ram_timer_enabled {
            0xff
        } else if self.ram_timer_select < 4 {
            self.ram[self.ram_timer_select * 0x2000 + (address - 0xa000)]
        } else {
            self.clock_register()
        }
    }

    /// A write of a value with bit 0 set to 0x6000..0x7fff while the latch
    /// is clear copies the running time into the latched time.
    open spec fn with_write(&self, address: usize, value: u8) -> MBC3 {
        if address < 0x2000 {
            MBC3 { ram_timer_enabled: value & 0x0f == 0x0a, ..*self }
        } else if address < 0x4000 {
            MBC3 {
                rom_bank: if value & 0x7f == 0 {
                    1
                } else {
                    (value & 0x7f) as usize
                },
                ..*self
            }
        } else if address < 0x6000 {
            MBC3 { ram_timer_select: value & 0x0f, ..*self }
        } else if address < 0x8000 {
            MBC3 {
                rtc: Rtc {
                    latched_time: if !self.rtc.latched && value & 0x01 != 0 {
                        self.rtc.live_time
                    } else {
                        self.rtc.latched_time
                    },
                    latched: value & 0x01 != 0,
                    ..self.rtc
                },
                ..*self
            }
        } else if !self.ram_timer_enabled {
            *self
        } else if self.ram_timer_select < 4 {
            MBC3 {
                ram: vstd::array::spec_array_update(
                    self.ram,
                    self.ram_timer_select * 0x2000 + (address - 0xa000),
                    value,
                ),
                ..*self
            }
        } else {
            MBC3 { rtc: self.with_clock_write(value), ..*self }
        }
    }

    open spec fn with_elapsed(&self, micros: u64) -> MBC3 {
        MBC3 { rtc: self.rtc.after(micros), ..*self }
    }

    open spec fn save_image(&self, now_millis: u64) -> Option<Seq<u8>> {
        if self.has_battery || self.has_rtc {
            Some(self.save_bytes(now_millis))
        } else {
            None
        }
    }

    fn read(&self, address: usize) -> (r: u8) {
        if address < 0x4000 {
            self.rom[address]
        } else if address < 0x8000 {
            let rom_bank = reduce_bank(self.rom_bank as u64, self.rom_size) as usize;
            let rom_address = rom_bank * 0x4000 + (address - 0x4000);
            self.rom[rom_address]
        } else if !self.ram_timer_enabled {
            0xff
        } else if self.ram_timer_select < 4 {
            let ram_address = self.ram_timer_select as usize * 0x2000 + (address - 0xa000);
            self.ram[ram_address]
        } else {
            let read_time = if self.rtc.latched {
                &self.rtc.latched_time
            } else {
                &self.rtc.live_time
            };
            match self.ram_timer_select {
                0x8 => read_time.seconds,
                0x9 => read_time.minutes,
                0xa => read_time.hours,
                0xb => read_time.days as u8,
                0xc => {
                    let carry: u8 = if read_time.day_carry { 0x80 } else { 0x00 };
                    let halt: u8 = if self.rtc.halt { 0x40 } else { 0x00 };
                    let high: u8 = if read_time.days & 0x0100 != 0 { 0x01 } else { 0x00 };
                    (carry | halt) | high
                },
                _ => 0xff,
            }
        }
    }

    fn write(&mut self, address: usize, value: u8) {
        proof {
            crate::bits::lemma_field_bounds(value);
        }
        if address < 0x2000 {
            self.ram_timer_enabled = value & 0x0f == 0x0a;
        } else if address < 0x4000 {
            self.rom_bank = if value & 0x7f == 0 {
                1
            } else {
                (value & 0x7f) as usize
            };
        } else if address < 0x6000 {
            self.ram_timer_select = value & 0x0f;
        } else if address < 0x8000 {
            let new_rtc_latched = value & 0x01 != 0x00;
            if !self.rtc.latched && new_rtc_latched {
                self.rtc.latched_time = self.rtc.live_time;
            }
            self.rtc.latched = new_rtc_latched;
        } else if !self.ram_timer_enabled {
        } else if self.ram_timer_select < 4 {
            let ram_address = self.ram_timer_select as usize * 0x2000 + (address - 0xa000);
            self.ram[ram_address] = value;
        } else {
            match self.ram_timer_select {
                0x08 => self.rtc.live_time.seconds = value % 0x40,
                0x09 => self.rtc.live_time.minutes = value % 0x40,
                0x0a => self.rtc.live_time.hours = value % 0x20,
                0x0b => self.rtc.live_time.days = (self.rtc.live_time.days & 0xff00)
                    | value as u16,
                0x0c => {
                    let day_high = (value as u16 & 0x01) << 8;
                    self.rtc.live_time.days = (self.rtc.live_time.days & 0x00ff) | day_high;
                    self.rtc.halt = value & 0x40 != 0;
                    self.rtc.live_time.day_carry = value & 0x80 != 0;
                },
                _ => {},
            }
        }
    }

    fn update_rtc(&mut self, micros: u64) {
        if !self.rtc.halt {
            self.rtc.live_time.advance(micros);
        }
    }

    fn save(&self) -> (r: Option<Vec<u8>>) {
        let now_millis = wall_clock_micros() / 1000;
        self.save_at(now_millis)
    }
}

/// Carrying into a 60-unit field in two steps is carrying the sum at once.
proof fn lemma_stage_60(field: int, x: int, y: int)
    requires
        0 <= field <= 255,
        x >= 0,
        y >= 0,
    ensures
        0 <= stage_value(field, 60, x) <= 255,
        stage_value(stage_value(field, 60, x), 60, y) == stage_value(field, 60, x + y),
        stage_carry(field, 60, x) + stage_carry(stage_value(field, 60, x), 60, y) == stage_carry(
            field,
            60,
            x + y,
        ),
        stage_carry(field, 60, x) >= 0,
{
}

/// Carrying into the hours in two steps is carrying the sum at once.
proof fn lemma_stage_24(field: int, x: int, y: int)
    requires
        0 <= field <= 255,
        x >= 0,
        y >= 0,
    ensures
        0 <= stage_value(field, 24, x) <= 255,
        stage_value(stage_value(field, 24, x), 24, y) == stage_value(field, 24, x + y),
        stage_carry(field, 24, x) + stage_carry(stage_value(field, 24, x), 24, y) == stage_carry(
            field,
            24,
            x + y,
        ),
        stage_carry(field, 24, x) >= 0,
{
}

/// Letting the clock run for `a` and then for `b` microseconds leaves it
/// where letting it run for `a + b` microseconds does, day counter modulo
/// 512 and day-carry flag included.
pub proof fn lemma_clock_additive(t: RtcTime, a: nat, b: nat)
    ensures
        t.advanced(a).advanced(b) == t.advanced(a + b),
{
    let t1 = t.advanced(a);
    let s1 = t.seconds_in(a);
    let s2 = t1.seconds_in(b);
    assert(t1.micros == (t.micros + a) % 1_000_000);
    assert(s1 + s2 == t.seconds_in(a + b));
    lemma_stage_60(t.seconds as int, s1, s2);
    let m1 = t.minutes_in(a);
    let m2 = t1.minutes_in(b);
    assert(t1.seconds == stage_value(t.seconds as int, 60, s1));
    assert(m1 + m2 == t.minutes_in(a + b));
    lemma_stage_60(t.minutes as int, m1, m2);
    let h1 = t.hours_in(a);
    let h2 = t1.hours_in(b);
    assert(t1.minutes == stage_value(t.minutes as int, 60, m1));
    assert(h1 + h2 == t.hours_in(a + b));
    lemma_stage_24(t.hours as int, h1, h2);
    let d1 = t.days_in(a);
    let d2 = t1.days_in(b);
    assert(t1.hours == stage_value(t.hours as int, 24, h1));
    assert(d1 + d2 == t.days_in(a + b));
    assert(d1 >= 0 && d2 >= 0);
}

/// The reading after the clock has run for each of `steps` in turn.
pub open spec fn advanced_all(t: RtcTime, steps: Seq<nat>) -> RtcTime
    decreases steps.len(),
{
    if steps.len() == 0 {
        t
    } else {
        advanced_all(t, steps.drop_last()).advanced(steps.last())
    }
}

/// The sum of `steps`.
pub open spec fn total_of(steps: Seq<nat>) -> nat
    decreases steps.len(),
{
    if steps.len() == 0 {
        0
    } else {
        total_of(steps.drop_last()) + steps.last()
    }
}

/// Any number of updates of a running clock, one at least, amount to a
/// single update by the sum of their durations.
pub proof fn lemma_clock_updates_sum(t: RtcTime, steps: Seq<nat>)
    requires
        steps.len() >= 1,
    ensures
        advanced_all(t, steps) == t.advanced(total_of(steps)),
    decreases steps.len(),
{
    let head = steps.drop_last();
    if head.len() == 0 {
        assert(advanced_all(t, head) == t);
        assert(total_of(head) == 0);
    } else {
        lemma_clock_updates_sum(t, head);
        lemma_clock_additive(t, total_of(head), steps.last());
    }
}

/// Two updates of a cartridge's clock amount to one update by the sum,
/// whether the clock is halted (then none of them moves it) or running.
pub proof fn lemma_update_rtc_additive(mbc: MBC3, a: u64, b: u64)
    requires
        a + b <= u64::MAX,
    ensures
        mbc.with_elapsed(a).with_elapsed(b) == mbc.with_elapsed((a + b) as u64),
{
    lemma_clock_additive(mbc.rtc.live_time, a as nat, b as nat);
}

/// A reading is ten bytes in the save file, and decoding them gives the
/// reading back, wherever they stand.
pub proof fn lemma_time_round_trip(prefix: Seq<u8>, t: RtcTime, suffix: Seq<u8>)
    ensures
        t.encoded().len() == 10,
        RtcTime::decoded_at(prefix + t.encoded() + suffix, prefix.len() as int) == t,
{
    lemma_auto_spec_u32_to_from_le_bytes();
    lemma_auto_spec_u16_to_from_le_bytes();
    let whole = prefix + t.encoded() + suffix;
    let at = prefix.len() as int;
    assert(spec_u32_to_le_bytes(t.micros).len() == 4);
    assert(spec_u16_to_le_bytes(t.days).len() == 2);
    assert(whole.subrange(at, at + 4) =~= spec_u32_to_le_bytes(t.micros));
    assert(whole.subrange(at + 7, at + 9) =~= spec_u16_to_le_bytes(t.days));
}

/// A clock is 22 bytes in the save file, and decoding them gives the clock
/// back, wherever they stand.
pub proof fn lemma_rtc_round_trip(prefix: Seq<u8>, rtc: Rtc, suffix: Seq<u8>)
    ensures
        rtc.encoded().len() == 22,
        Rtc::decoded_at(prefix + rtc.encoded() + suffix, prefix.len() as int) == rtc,
{
    let flags = seq![
        if rtc.latched {
            1u8
        } else {
            0u8
        },
        if rtc.halt {
            1u8
        } else {
            0u8
        },
    ];
    let whole = prefix + rtc.encoded() + suffix;
    lemma_time_round_trip(prefix, rtc.live_time, rtc.latched_time.encoded() + flags + suffix);
    lemma_time_round_trip(prefix + rtc.live_time.encoded(), rtc.latched_time, flags + suffix);
    assert(whole =~= prefix + rtc.live_time.encoded() + (rtc.latched_time.encoded() + flags
        + suffix));
    assert(whole =~= (prefix + rtc.live_time.encoded()) + rtc.latched_time.encoded() + (flags
        + suffix));
}

/// A save file that is loaded again at the moment it was written restores
/// the RAM and the clock that were saved. The clock must be halted or hold
/// less than a second in its microseconds: a running clock is normalised
/// when it is loaded.
pub proof fn lemma_save_round_trip(mbc: MBC3, now_millis: u64)
    requires
        mbc.has_battery || mbc.has_rtc,
        now_millis * 1000 <= u64::MAX,
        mbc.rtc.halt || mbc.rtc.live_time.micros < 1_000_000,
    ensures
        mbc.save_image(now_millis) == Some(mbc.save_bytes(now_millis)),
        save_usable(mbc.save_bytes(now_millis), mbc.has_battery, mbc.has_rtc),
        mbc.has_battery ==> restored_ram(
            mbc.save_bytes(now_millis),
            mbc.has_battery,
            mbc.has_rtc,
        ) == mbc.ram@,
        mbc.has_rtc ==> restored_rtc(
            mbc.save_bytes(now_millis),
            mbc.has_battery,
            mbc.has_rtc,
            (now_millis * 1000) as u64,
        ) == mbc.rtc,
{
    let image = mbc.save_bytes(now_millis);
    let ram_part = if mbc.has_battery {
        mbc.ram@
    } else {
        Seq::<u8>::empty()
    };
    lemma_auto_spec_u64_to_from_le_bytes();
    let stamp = spec_u64_to_le_bytes(now_millis);
    assert(stamp.len() == 8);
    lemma_rtc_round_trip(ram_part, mbc.rtc, stamp);
    if mbc.has_battery {
        assert(image.subrange(0, 0x8000) =~= mbc.ram@);
    }
    if mbc.has_rtc {
        let at = rtc_offset(mbc.has_battery);
        assert(image =~= ram_part + mbc.rtc.encoded() + stamp);
        assert(image.subrange(at + 22, at + 30) =~= stamp);
        let now = (now_millis * 1000) as u64;
        assert(now / 1000 == now_millis);
        assert(elapsed_micros(now, now_millis) == 0);
        let live = mbc.rtc.live_time;
        if !mbc.rtc.halt {
            assert(live.advanced(0) == live);
        }
    }
}

} // verus!
