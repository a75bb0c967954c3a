use crate::bus::Addressable;
use vstd::prelude::*;

verus! {

pub const CPU_INTERNAL_RAM_SIZE: usize = 0x800;

/// The 2 KiB of work memory of the processor. It repeats every 0x800
/// addresses.
pub struct InternalRam {
    pub data: [u8; 0x800],
}

impl View for InternalRam {
    type V = Seq<u8>;

    open spec fn view(&self) -> Seq<u8> {
        self.data@
    }
}

impl Addressable for InternalRam {
    open spec fn read_value(state: Seq<u8>, address: u16) -> Option<u8> {
        Some(state[address as int % 0x800])
    }

    open spec fn after_read(state: Seq<u8>, address: u16) -> Seq<u8> {
        state
    }

    open spec fn after_write(state: Seq<u8>, address: u16, data: u8) -> Seq<u8> {
        state.update(address as int % 0x800, data)
    }

    fn read_byte(&mut self, address: u16) -> (value: Option<u8>) {
        Some(self.data[(address % 0x800) as usize])
    }

    fn write_byte(&mut self, address: u16, data: u8) {
        self.data[(address % 0x800) as usize] = data;
        assert(self@ =~= old(self)@.update(address as int % 0x800, data));
    }
}

impl InternalRam {
    /// Zeroed work memory.
    pub fn new() -> (ram: Self)
        ensures
            ram@.len() == 0x800,
            forall|i: int| 0 <= i < 0x800 ==> ram@[i] == 0,
    {
        InternalRam { data: [0; 0x800] }
    }
}

/// A byte written to work memory is read back from the same address and
/// from each of its mirrors, and from no other place.
pub proof fn lemma_ram_round_trip(state: Seq<u8>, written: u16, data: u8, read: u16)
    requires
        state.len() == 0x800,
    ensures
        InternalRam::read_value(InternalRam::after_write(state, written, data), read) == (if read
            % 0x800 == written % 0x800 {
            Some(data)
        } else {
            InternalRam::read_value(state, read)
        }),
{
}

} // verus!
