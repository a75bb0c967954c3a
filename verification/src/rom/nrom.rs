use crate::bus::{Addressable, Bus};
use crate::component::{Component, ComponentState};
use crate::ppu::video::{VideoComponent, VideoState};
use vstd::prelude::*;

verus! {

/// The 8 KiB of pattern memory of a cartridge without bank switching.
pub struct NromChr {
    chr_rom: [u8; 0x2000],
}

impl View for NromChr {
    type V = Seq<u8>;

    closed spec fn view(&self) -> Seq<u8> {
        self.chr_rom@
    }
}

impl Addressable for NromChr {
    open spec fn read_value(state: Seq<u8>, address: u16) -> Option<u8> {
        if address < 0x2000 {
            Some(state[address as int])
        } else {
            None
        }
    }

    open spec fn after_read(state: Seq<u8>, address: u16) -> Seq<u8> {
        state
    }

    open spec fn after_write(state: Seq<u8>, address: u16, data: u8) -> Seq<u8> {
        if address < 0x2000 {
            state.update(address as int, data)
        } else {
            state
        }
    }

    fn read_byte(&mut self, address: u16) -> (value: Option<u8>) {
        if address < 0x2000 {
            Some(self.chr_rom[address as usize])
        } else {
            None
        }
    }

    fn write_byte(&mut self, address: u16, data: u8) {
        if address < 0x2000 {
            self.chr_rom[address as usize] = data;
            assert(self@ =~= old(self)@.update(address as int, data));
        }
    }
}

impl NromChr {
    /// Pattern memory filled with zeroes.
    pub fn blank() -> (chr: Self)
        ensures
            chr@.len() == 0x2000,
            forall|i: int| 0 <= i < 0x2000 ==> chr@[i] == 0,
    {
        NromChr { chr_rom: [0; 0x2000] }
    }

    /// Pattern memory holding the 8 KiB of `data` that start at `offset`.
    pub fn from_slice(data: &[u8], offset: usize) -> (chr: Self)
        requires
            offset + 0x2000 <= data@.len(),
        ensures
            chr@ == data@.subrange(offset as int, offset + 0x2000),
    {
        let mut chr_rom: [u8; 0x2000] = [0; 0x2000];
        let length: usize = data.len();
        let mut i: usize = 0;
        while i < 0x2000
            invariant
                0 <= i <= 0x2000,
                offset + 0x2000 <= data@.len() == length,
                forall|j: int| 0 <= j < i ==> chr_rom@[j] == data@[offset + j],
            decreases 0x2000 - i,
        {
            chr_rom[i] = data[offset + i];
            i += 1;
        }
        assert(chr_rom@ =~= data@.subrange(offset as int, offset + 0x2000));
        NromChr { chr_rom }
    }
}

/// The processor side of a cartridge without bank switching: 2 KiB of work
/// memory and one or two 16 KiB banks of program memory.
pub struct Nrom {
    prg_ram: [u8; 0x800],
    prg_rom: Vec<u8>,
    rom_banks: u8,
}

/// The content of an `Nrom`.
pub struct NromState {
    pub prg_ram: Seq<u8>,
    pub prg_rom: Seq<u8>,
    pub rom_banks: u8,
}

impl View for Nrom {
    type V = NromState;

    closed spec fn view(&self) -> NromState {
        NromState { prg_ram: self.prg_ram@, prg_rom: self.prg_rom@, rom_banks: self.rom_banks }
    }
}

impl NromState {
    /// The index into program memory that `address` (0x8000..=0xFFFF) reads:
    /// with a single bank the upper half repeats the lower one.
    pub open spec fn rom_index(self, address: u16) -> int {
        if address >= 0xC000 && self.rom_banks <= 1 {
            address - 0xC000
        } else {
            address - 0x8000
        }
    }
}

impl Addressable for Nrom {
    open spec fn read_value(state: NromState, address: u16) -> Option<u8> {
        if 0x6000 <= address <= 0x7FFF {
            Some(state.prg_ram[(address - 0x6000) % 0x800])
        } else if address >= 0x8000 && state.rom_index(address) < state.prg_rom.len() {
            Some(state.prg_rom[state.rom_index(address)])
        } else {
            None
        }
    }

    open spec fn after_read(state: NromState, address: u16) -> NromState {
        state
    }

    open spec fn after_write(state: NromState, address: u16, data: u8) -> NromState {
        if 0x6000 <= address <= 0x7FFF {
            NromState { prg_ram: state.prg_ram.update((address - 0x6000) % 0x800, data), ..state }
        } else {
            state
        }
    }

    fn read_byte(&mut self, address: u16) -> (value: Option<u8>) {
        if 0x6000 <= address && address <= 0x7FFF {
            Some(self.prg_ram[((address - 0x6000) % 0x800) as usize])
        } else if address >= 0x8000 {
            let index: usize = if address >= 0xC000 && self.rom_banks <= 1 {
                (address - 0xC000) as usize
            } else {
                (address - 0x8000) as usize
            };
            if index < self.prg_rom.len() {
                Some(self.prg_rom[index])
            } else {
                None
            }
        } else {
            None
        }
    }

    fn write_byte(&mut self, address: u16, data: u8) {
        if 0x6000 <= address && address <= 0x7FFF {
            self.prg_ram[((address - 0x6000) % 0x800) as usize] = data;
            assert(self@.prg_ram =~= old(self)@.prg_ram.update((address - 0x6000) % 0x800, data));
        }
    }
}

/// The bytes that a cartridge without bank switching takes from its image:
/// the banks of program memory and, if it has pattern memory, 8 KiB of it.
pub open spec fn nrom_image_size(rom_banks: u8, chr_banks: u8) -> int {
    0x4000 * rom_banks + if chr_banks > 0 {
        0x2000int
    } else {
        0int
    }
}

impl Nrom {
    /// Builds the cartridge from its image `data` and binds its processor
    /// side to 0x6000..=0xFFFF of `bus` and its pattern memory to
    /// 0x0000..=0x1FFF of `vram_bus`. A cartridge without pattern memory gets
    /// zeroed pattern memory that can be written.
    pub fn register(
        data: &[u8],
        rom_banks: u8,
        chr_banks: u8,
        bus: &mut Bus<Component>,
        vram_bus: &mut Bus<VideoComponent>,
    ) -> (slots: (usize, usize))
        requires
            nrom_image_size(rom_banks, chr_banks) <= data@.len(),
        ensures
            slots.0 == old(bus)@.components.len(),
            slots.1 == old(vram_bus)@.components.len(),
            final(bus)@ == old(bus)@.registered(
                0x6000,
                0xFFFF,
                ComponentState::Nrom(
                    NromState {
                        prg_ram: Seq::new(0x800, |i: int| 0u8),
                        prg_rom: data@.subrange(0, 0x4000 * rom_banks),
                        rom_banks,
                    },
                ),
            ),
            final(vram_bus)@ == old(vram_bus)@.registered(
                0x0000,
                0x1FFF,
                VideoState::Pattern(
                    if chr_banks > 0 {
                        data@.subrange(0x4000 * rom_banks, 0x4000 * rom_banks + 0x2000)
                    } else {
                        Seq::new(0x2000, |i: int| 0u8)
                    },
                ),
            ),
    {
        let rom = Nrom::new(data, rom_banks);
        assert(rom@.prg_ram =~= Seq::new(0x800, |i: int| 0u8));
        let prg_slot = bus.register_region(0x6000, 0xFFFF, Component::Nrom(rom));
        let chr = if chr_banks > 0 {
            NromChr::from_slice(data, 0x4000 * rom_banks as usize)
        } else {
            NromChr::blank()
        };
        assert(chr_banks == 0 ==> chr@ =~= Seq::new(0x2000, |i: int| 0u8));
        let chr_slot = vram_bus.register_region(0x0000, 0x1FFF, VideoComponent::Pattern(chr));
        (prg_slot, chr_slot)
    }

    /// A cartridge whose program memory is the first `rom_banks` banks of
    /// `data` and whose work memory is zeroed.
    pub fn new(data: &[u8], rom_banks: u8) -> (rom: Self)
        requires
            0x4000 * rom_banks <= data@.len(),
        ensures
            rom@.rom_banks == rom_banks,
            rom@.prg_rom == data@.subrange(0, 0x4000 * rom_banks),
            rom@.prg_ram.len() == 0x800,
            forall|i: int| 0 <= i < 0x800 ==> rom@.prg_ram[i] == 0,
    {
        let size: usize = 0x4000 * (rom_banks as usize);
        let mut prg_rom: Vec<u8> = Vec::new();
        let mut i: usize = 0;
        while i < size
            invariant
                0 <= i <= size,
                size <= data@.len(),
                prg_rom@ == data@.subrange(0, i as int),
            decreases size - i,
        {
            prg_rom.push(data[i]);
            assert(prg_rom@ =~= data@.subrange(0, i + 1));
            i += 1;
        }
        Nrom { prg_ram: [0; 0x800], prg_rom, rom_banks }
    }
}

} // verus!
