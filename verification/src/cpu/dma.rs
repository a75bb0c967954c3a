use crate::bus::Addressable;
use vstd::prelude::*;

verus! {

pub const OAM_DMA_SIZE: usize = 256;

/// The address of the port that triggers a transfer to the object table.
pub const OAM_DMA_PORT: u16 = 0x4014;

/// The latch of the object-table transfer: where it reads from and how many
/// bytes are still to be copied. A transfer is pending while `length` is
/// not 0.
#[derive(Copy, Clone, Debug, PartialEq, Eq, Structural)]
pub struct OamDmaRequest {
    pub address: u16,
    pub length: usize,
}

impl View for OamDmaRequest {
    type V = OamDmaRequest;

    open spec fn view(&self) -> OamDmaRequest {
        *self
    }
}

impl Addressable for OamDmaRequest {
    /// The port cannot be read: the bus floats.
    open spec fn read_value(state: OamDmaRequest, address: u16) -> Option<u8> {
        None
    }

    open spec fn after_read(state: OamDmaRequest, address: u16) -> OamDmaRequest {
        state
    }

    /// A write to the port latches the page `data` as the source and arms
    /// the transfer of 256 bytes.
    open spec fn after_write(state: OamDmaRequest, address: u16, data: u8) -> OamDmaRequest {
        if address == OAM_DMA_PORT {
            OamDmaRequest { address: (data * 256) as u16, length: OAM_DMA_SIZE }
        } else {
            state
        }
    }

    fn read_byte(&mut self, address: u16) -> (value: Option<u8>) {
        None
    }

    fn write_byte(&mut self, address: u16, data: u8) {
        if address == OAM_DMA_PORT {
            self.address = data as u16 * 256;
            self.length = OAM_DMA_SIZE;
        }
    }
}

impl OamDmaRequest {
    /// A latch with no transfer pending.
    pub fn new() -> (request: Self)
        ensures
            request == (OamDmaRequest { address: 0, length: 0 }),
    {
        OamDmaRequest { address: 0, length: 0 }
    }
}

impl Default for OamDmaRequest {
    fn default() -> (request: Self)
        ensures
            request == (OamDmaRequest { address: 0, length: 0 }),
    {
        OamDmaRequest { address: 0, length: 0 }
    }
}

} // verus!
