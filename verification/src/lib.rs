//! Core of a cycle-aware emulator for an 8-bit home console: a 6502-derived
//! central processor, a scanline-driven picture processor, the address bus
//! that couples them, cartridge mappers, and the cartridge image decoder.
//!
//! Every state change is described by a specification-level model, and the
//! executable code is verified against it.  The presentation layer (windowing,
//! input, audio) is outside this crate; it drives the processor loop through
//! [`cpu::CPU::step`] and observes frames through the bus.

pub mod bus;
pub mod bytes;
pub mod cpu;
pub mod errors;
pub mod frame;
pub mod joypad;
pub mod mapper;
pub mod mapping;
pub mod opcodes;
pub mod palette;
pub mod ppu;
pub mod registers;
pub mod render;
pub mod rom;
pub mod tiles;
