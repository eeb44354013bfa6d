//! Core of an emulator for an 8-bit handheld console and its colour variant:
//! CPU, memory map, picture and audio units, timer, cartridge controllers and
//! the master schedule that interleaves them.

pub mod bits;
pub mod registers;
pub mod interrupts;
pub mod joypad;
pub mod serial;
pub mod sound;
pub mod timer;
pub mod mbc;
pub mod cartridge;
pub mod ppu;
pub mod mmu;
pub mod instructions;
pub mod cpu;
pub mod cycle;
pub mod gameboy;
pub mod input;
pub mod transfer;
