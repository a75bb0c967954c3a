//! A cycle-counted model of an 8-bit console: the address bus, the
//! 6502-family processor and the tile/sprite video unit, with the
//! cartridge, controller and audio-register components that sit on the bus.

pub mod apu;
pub mod bus;
pub mod component;
pub mod controller;
pub mod cpu;
pub mod error;
pub mod nes;
pub mod ppu;
pub mod rom;
pub mod screen;
