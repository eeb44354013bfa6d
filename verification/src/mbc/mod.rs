//! The memory bank controllers: the part of a cartridge that maps the
//! console's 16-bit window onto banked ROM and RAM.

use vstd::prelude::*;

pub mod no_mbc;
pub mod mbc1;
pub mod mbc2;
pub mod mbc3;
pub mod mbc5;

pub use no_mbc::NoMbc;
pub use mbc1::Mbc1;
pub use mbc2::Mbc2;
pub use mbc3::MBC3;
pub use mbc5::MBC5;

verus! {

/// The addresses that the memory map sends to the cartridge: ROM below
/// 0x8000 and external RAM at 0xa000 to 0xbfff.
pub open spec fn in_cartridge_window(address: usize) -> bool {
    address < 0x8000 || 0xa000 <= address < 0xc000
}

/// `data` followed by as many zero bytes as it takes to reach `len` bytes.
pub open spec fn zero_extended(data: Seq<u8>, len: nat) -> Seq<u8> {
    Seq::new(
        len,
        |i: int|
            if i < data.len() {
                data[i]
            } else {
                0u8
            },
    )
}

/// The RAM that a cartridge of `size` bytes of RAM starts with: the saved
/// bytes, zero-extended; all zero when the saved data is larger than the RAM
/// and is therefore discarded.
pub open spec fn loaded_ram(saved: Seq<u8>, size: nat) -> Seq<u8> {
    if saved.len() <= size {
        zero_extended(saved, size)
    } else {
        zero_extended(Seq::empty(), size)
    }
}

/// Saved RAM that is loaded again is the RAM that was saved.
pub proof fn lemma_ram_round_trip(ram: Seq<u8>)
    ensures
        loaded_ram(ram, ram.len()) == ram,
{
    assert(loaded_ram(ram, ram.len()) =~= ram);
}

/// The RAM array of a cartridge that is saved whole and loaded again is
/// the array that was saved.
pub proof fn lemma_array_round_trip<const N: usize>(ram: [u8; N])
    ensures
        loaded_ram(ram@, N as nat) == ram@,
{
    lemma_ram_round_trip(ram@);
}

/// What a controller persists: `None` for a cartridge without a battery, else
/// the bytes of the save file.
pub open spec fn image_of(saved: Option<Vec<u8>>) -> Option<Seq<u8>> {
    match saved {
        Some(bytes) => Some(bytes@),
        None => None,
    }
}

/// What every bank controller offers to the memory map.
pub trait Mbc: Sized {
    /// The controller's buffers have their fixed sizes and its bank
    /// registers stay inside them.
    spec fn wf(&self) -> bool;

    /// The byte read at `address`.
    spec fn read_value(&self, address: usize) -> u8;

    /// The controller after `value` is written to `address`.
    spec fn with_write(&self, address: usize, value: u8) -> Self;

    /// The controller after `micros` microseconds have passed on its clock,
    /// if it has one.
    spec fn with_elapsed(&self, micros: u64) -> Self;

    /// The save file written at `now_millis` milliseconds of wall-clock
    /// time, if the cartridge keeps one.
    spec fn save_image(&self, now_millis: u64) -> Option<Seq<u8>>;

    fn write(&mut self, address: usize, value: u8)
        requires
            old(self).wf(),
            in_cartridge_window(address),
        ensures
            *final(self) == old(self).with_write(address, value),
            final(self).wf(),
    ;

    fn read(&self, address: usize) -> (r: u8)
        requires
            self.wf(),
            in_cartridge_window(address),
        ensures
            r == self.read_value(address),
    ;

    fn update_rtc(&mut self, micros: u64)
        requires
            old(self).wf(),
        ensures
            *final(self) == old(self).with_elapsed(micros),
            final(self).wf(),
    ;

    /// The bytes to persist now. Whatever the wall clock says, they are the
    /// save image of some moment.
    fn save(&self) -> (r: Option<Vec<u8>>)
        requires
            self.wf(),
        ensures
            exists|now_millis: u64| image_of(r) == #[trigger] self.save_image(now_millis),
    ;
}

/// Extends `data` with zero bytes to `len` bytes.
pub fn extend_with_zeros(data: Vec<u8>, len: usize) -> (r: Vec<u8>)
    requires
        data@.len() <= len,
    ensures
        r@ == zero_extended(data@, len as nat),
{
    let ghost orig = data@;
    let mut full = data;
    while full.len() < len
        invariant
            orig.len() <= full@.len() <= len,
            forall|i: int|
                0 <= i < full@.len() ==> full@[i] == (if i < orig.len() {
                    orig[i]
                } else {
                    0u8
                }),
        decreases len - full@.len(),
    {
        full.push(0);
    }
    assert(full@ =~= zero_extended(orig, len as nat));
    full
}

/// The RAM array that a cartridge starts with.
pub fn load_ram<const N: usize>(blank: [u8; N], saved: &[u8]) -> (r: [u8; N])
    requires
        forall|i: int| 0 <= i < N ==> blank[i] == 0,
    ensures
        r@ == loaded_ram(saved@, N as nat),
{
    let out = if saved.len() <= N {
        overlay(blank, saved)
    } else {
        blank
    };
    assert(out@ =~= loaded_ram(saved@, N as nat));
    out
}

/// Lays `data` over the start of `base`.
pub fn overlay<const N: usize>(base: [u8; N], data: &[u8]) -> (r: [u8; N])
    requires
        data@.len() <= N,
    ensures
        forall|i: int|
            0 <= i < N ==> r[i] == (if i < data@.len() {
                data@[i]
            } else {
                base[i]
            }),
{
    let mut out = base;
    let mut i: usize = 0;
    while i < data.len()
        invariant
            i <= data@.len() <= N,
            forall|k: int|
                0 <= k < N ==> out[k] == (if k < i {
                    data@[k]
                } else {
                    base[k]
                }),
        decreases data@.len() - i,
    {
        out[i] = data[i];
        i += 1;
    }
    out
}

/// Copies an array into a vector.
pub fn bytes_of<const N: usize>(data: &[u8; N]) -> (r: Vec<u8>)
    ensures
        r@ == data@,
{
    let mut out: Vec<u8> = Vec::with_capacity(N);
    let mut i: usize = 0;
    while i < N
        invariant
            i <= N,
            out@ == data@.subrange(0, i as int),
        decreases N - i,
    {
        out.push(data[i]);
        i += 1;
    }
    assert(out@ =~= data@);
    out
}

/// The number of 16 KiB ROM banks that the size code of the cartridge
/// header stands for: 2 shifted left by the code.
pub open spec fn bank_count(rom_size: u8) -> u64 {
    2u64 << rom_size
}

/// For every size code below 63 the bank count is a power of two from 2 up.
pub proof fn lemma_bank_count(rom_size: u8)
    requires
        rom_size <= 62,
    ensures
        bank_count(rom_size) >= 2,
        rom_size <= 8 ==> bank_count(rom_size) <= 512,
        bank_count(0) == 2,
        bank_count(1) == 4,
        bank_count(2) == 8,
        bank_count(3) == 16,
        bank_count(4) == 32,
        bank_count(5) == 64,
        bank_count(6) == 128,
{
    assert(rom_size <= 62 ==> (2u64 << rom_size) >= 2 && (rom_size <= 8 ==> (2u64 << rom_size)
        <= 512)) by (bit_vector);
    assert(2u64 << 0u8 == 2 && 2u64 << 1u8 == 4 && 2u64 << 2u8 == 8 && 2u64 << 3u8 == 16 && 2u64
        << 4u8 == 32 && 2u64 << 5u8 == 64 && 2u64 << 6u8 == 128) by (bit_vector);
}

/// The bank that a bank register selects once it is reduced to the banks
/// the cartridge has.
pub fn reduce_bank(selected: u64, rom_size: u8) -> (r: u64)
    requires
        rom_size <= 62,
    ensures
        r == selected % bank_count(rom_size),
        r <= selected,
        r < bank_count(rom_size),
{
    proof {
        lemma_bank_count(rom_size);
    }
    let banks: u64 = 2u64 << rom_size;
    assert(selected % banks <= selected && selected % banks < banks) by (nonlinear_arith)
        requires
            banks >= 2,
    ;
    selected % banks
}

} // verus!
