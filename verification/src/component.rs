use crate::apu::unit::APU;
use crate::bus::Addressable;
use crate::controller::Controller;
use crate::cpu::dma::OamDmaRequest;
use crate::cpu::memory::InternalRam;
use crate::ppu::unit::{PpuState, PPU};
use crate::rom::mmc1::{Mmc1, Mmc1State};
use crate::rom::nrom::{Nrom, NromState};
use vstd::prelude::*;

verus! {

/// What can be bound to the processor's bus.
pub enum Component {
    /// The processor's work memory.
    Ram(InternalRam),
    /// The latch of the object-table transfer.
    Dma(OamDmaRequest),
    /// The register ports of the video unit.
    Video(PPU),
    /// A controller port.
    Pad(Controller),
    /// The registers of the audio unit.
    Audio(APU),
    /// A cartridge without bank switching.
    Nrom(Nrom),
    /// A cartridge with the serial bank-switching mapper.
    Mmc1(Mmc1),
}

/// The content of a `Component`.
pub enum ComponentState {
    Ram(Seq<u8>),
    Dma(OamDmaRequest),
    Video(PpuState),
    Pad(Controller),
    Audio(APU),
    Nrom(NromState),
    Mmc1(Mmc1State),
}

impl View for Component {
    type V = ComponentState;

    open spec fn view(&self) -> ComponentState {
        match self {
            Component::Ram(c) => ComponentState::Ram(c@),
            Component::Dma(c) => ComponentState::Dma(c@),
            Component::Video(c) => ComponentState::Video(c@),
            Component::Pad(c) => ComponentState::Pad(c@),
            Component::Audio(c) => ComponentState::Audio(c@),
            Component::Nrom(c) => ComponentState::Nrom(c@),
            Component::Mmc1(c) => ComponentState::Mmc1(c@),
        }
    }
}

impl Addressable for Component {
    open spec fn read_value(state: ComponentState, address: u16) -> Option<u8> {
        match state {
            ComponentState::Ram(c) => InternalRam::read_value(c, address),
            ComponentState::Dma(c) => OamDmaRequest::read_value(c, address),
            ComponentState::Video(c) => PPU::read_value(c, address),
            ComponentState::Pad(c) => Controller::read_value(c, address),
            ComponentState::Audio(c) => APU::read_value(c, address),
            ComponentState::Nrom(c) => Nrom::read_value(c, address),
            ComponentState::Mmc1(c) => Mmc1::read_value(c, address),
        }
    }

    open spec fn after_read(state: ComponentState, address: u16) -> ComponentState {
        match state {
            ComponentState::Ram(c) => ComponentState::Ram(InternalRam::after_read(c, address)),
            ComponentState::Dma(c) => ComponentState::Dma(OamDmaRequest::after_read(c, address)),
            ComponentState::Video(c) => ComponentState::Video(PPU::after_read(c, address)),
            ComponentState::Pad(c) => ComponentState::Pad(Controller::after_read(c, address)),
            ComponentState::Audio(c) => ComponentState::Audio(APU::after_read(c, address)),
            ComponentState::Nrom(c) => ComponentState::Nrom(Nrom::after_read(c, address)),
            ComponentState::Mmc1(c) => ComponentState::Mmc1(Mmc1::after_read(c, address)),
        }
    }

    open spec fn after_write(state: ComponentState, address: u16, data: u8) -> ComponentState {
        match state {
            ComponentState::Ram(c) => ComponentState::Ram(
                InternalRam::after_write(c, address, data),
            ),
            ComponentState::Dma(c) => ComponentState::Dma(
                OamDmaRequest::after_write(c, address, data),
            ),
            ComponentState::Video(c) => ComponentState::Video(PPU::after_write(c, address, data)),
            ComponentState::Pad(c) => ComponentState::Pad(
                Controller::after_write(c, address, data),
            ),
            ComponentState::Audio(c) => ComponentState::Audio(APU::after_write(c, address, data)),
            ComponentState::Nrom(c) => ComponentState::Nrom(Nrom::after_write(c, address, data)),
            ComponentState::Mmc1(c) => ComponentState::Mmc1(Mmc1::after_write(c, address, data)),
        }
    }

    fn read_byte(&mut self, address: u16) -> (value: Option<u8>) {
        match self {
            Component::Ram(c) => c.read_byte(address),
            Component::Dma(c) => c.read_byte(address),
            Component::Video(c) => c.read_byte(address),
            Component::Pad(c) => c.read_byte(address),
            Component::Audio(c) => c.read_byte(address),
            Component::Nrom(c) => c.read_byte(address),
            Component::Mmc1(c) => c.read_byte(address),
        }
    }

    fn write_byte(&mut self, address: u16, data: u8) {
        match self {
            Component::Ram(c) => c.write_byte(address, data),
            Component::Dma(c) => c.write_byte(address, data),
            Component::Video(c) => c.write_byte(address, data),
            Component::Pad(c) => c.write_byte(address, data),
            Component::Audio(c) => c.write_byte(address, data),
            Component::Nrom(c) => c.write_byte(address, data),
            Component::Mmc1(c) => c.write_byte(address, data),
        }
    }
}

} // verus!
