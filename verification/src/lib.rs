//! A cycle-aware NES (Nintendo Entertainment System) emulator core.
//!
//! The library models the 2A03 CPU, the 2C02 PPU, the APU channels,
//! the CPU memory bus, the iNES cartridge format and the supported
//! cartridge mappers, the loop that keeps them in step, and the
//! frontend's logic (input mapping, the audio ring buffer, a test-
//! pattern emulator), each with contracts that Verus proves.

pub mod apu;
pub mod audio_ring;
pub mod bits;
pub mod bus;
pub mod region;
pub mod rewind;
pub mod cartridge;
pub mod controller;
pub mod cpu;
pub mod framebuffer;
pub mod input;
pub mod mapper;
pub mod nes;
pub mod ppu;
pub mod session;
pub mod stub;
