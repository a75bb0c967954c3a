use crate::bus::Addressable;
use crate::ppu::vram::{VRam, VRamState};
use crate::rom::mmc1::{Mmc1Chr, Mmc1ChrState};
use crate::rom::nrom::NromChr;
use vstd::prelude::*;

verus! {

/// What can be bound to the video unit's bus.
pub enum VideoComponent {
    /// Nametables and palette.
    Memory(VRam),
    /// Unbanked pattern memory.
    Pattern(NromChr),
    /// Pattern memory behind the serial bank-switching mapper.
    Banked(Mmc1Chr),
}

/// The content of a `VideoComponent`.
pub enum VideoState {
    Memory(VRamState),
    Pattern(Seq<u8>),
    Banked(Mmc1ChrState),
}

impl View for VideoComponent {
    type V = VideoState;

    open spec fn view(&self) -> VideoState {
        match self {
            VideoComponent::Memory(m) => VideoState::Memory(m@),
            VideoComponent::Pattern(p) => VideoState::Pattern(p@),
            VideoComponent::Banked(b) => VideoState::Banked(b@),
        }
    }
}

impl Addressable for VideoComponent {
    open spec fn read_value(state: VideoState, address: u16) -> Option<u8> {
        match state {
            VideoState::Memory(m) => VRam::read_value(m, address),
            VideoState::Pattern(p) => NromChr::read_value(p, address),
            VideoState::Banked(b) => Mmc1Chr::read_value(b, address),
        }
    }

    open spec fn after_read(state: VideoState, address: u16) -> VideoState {
        match state {
            VideoState::Memory(m) => VideoState::Memory(VRam::after_read(m, address)),
            VideoState::Pattern(p) => VideoState::Pattern(NromChr::after_read(p, address)),
            VideoState::Banked(b) => VideoState::Banked(Mmc1Chr::after_read(b, address)),
        }
    }

    open spec fn after_write(state: VideoState, address: u16, data: u8) -> VideoState {
        match state {
            VideoState::Memory(m) => VideoState::Memory(VRam::after_write(m, address, data)),
            VideoState::Pattern(p) => VideoState::Pattern(NromChr::after_write(p, address, data)),
            VideoState::Banked(b) => VideoState::Banked(Mmc1Chr::after_write(b, address, data)),
        }
    }

    fn read_byte(&mut self, address: u16) -> (value: Option<u8>) {
        match self {
            VideoComponent::Memory(m) => m.read_byte(address),
            VideoComponent::Pattern(p) => p.read_byte(address),
            VideoComponent::Banked(b) => b.read_byte(address),
        }
    }

    fn write_byte(&mut self, address: u16, data: u8) {
        match self {
            VideoComponent::Memory(m) => m.write_byte(address, data),
            VideoComponent::Pattern(p) => p.write_byte(address, data),
            VideoComponent::Banked(b) => b.write_byte(address, data),
        }
    }
}

} // verus!
