pub mod mmc1;
pub mod nrom;

use crate::bus::Bus;
use crate::component::{Component, ComponentState};
use crate::ppu::video::{VideoComponent, VideoState};
use crate::ppu::vram::{VRam, VRamState};
use crate::rom::mmc1::{mmc1_halves, Mmc1};
use crate::rom::nrom::{nrom_image_size, Nrom, NromState};
use vstd::prelude::*;

verus! {

/// How the two physical nametables are laid out over the four logical ones.
#[derive(Copy, Clone, Debug, PartialEq, Eq, Structural)]
pub enum MirrorArrangement {
    OneScreenLower,
    OneScreenUpper,
    Horizontal,
    Vertical,
}

/// The bank-switching hardware of a cartridge.
#[derive(Copy, Clone, Debug, PartialEq, Eq, Structural)]
pub enum Mapper {
    Nrom,
    Mmc1,
    Unsupported,
}

impl Mapper {
    /// The mapper with number `id`.
    pub open spec fn of(id: u8) -> Mapper {
        if id == 0 {
            Mapper::Nrom
        } else if id == 1 {
            Mapper::Mmc1
        } else {
            Mapper::Unsupported
        }
    }

    pub fn from_id(id: u8) -> (mapper: Self)
        ensures
            mapper == Self::of(id),
    {
        match id {
            0 => Mapper::Nrom,
            1 => Mapper::Mmc1,
            _ => Mapper::Unsupported,
        }
    }
}

/// The first bytes of a ROM image.
#[derive(Copy, Clone, Debug, PartialEq, Eq, Structural)]
pub struct RomHeader {
    /// The number of 16 KiB banks of program memory.
    pub prg: u8,
    /// The number of banks of pattern memory.
    pub chr: u8,
    pub mirroring: MirrorArrangement,
    pub mapper: Mapper,
}

/// The size of the header of a ROM image.
pub const HEADER_SIZE: usize = 16;

impl RomHeader {
    /// Whether the header is turned down: none of its first four bytes is the
    /// one that the format's signature has at that place.
    pub open spec fn rejects(header: Seq<u8>) -> bool {
        header[0] != 0x4E && header[1] != 0x45 && header[2] != 0x53 && header[3] != 0x1A
    }

    /// The fields of an accepted header: the bank counts are bytes 4 and 5,
    /// bit 0 of byte 6 selects vertical mirroring, and the mapper number is
    /// made of the high halves of bytes 6 and 7.
    pub open spec fn parsed(header: Seq<u8>) -> RomHeader {
        RomHeader {
            prg: header[4],
            chr: header[5],
            mirroring: if header[6] % 2 == 1 {
                MirrorArrangement::Vertical
            } else {
                MirrorArrangement::Horizontal
            },
            mapper: Mapper::of((header[6] / 16 + (header[7] / 16) * 16) as u8),
        }
    }

    /// Reads the header of a ROM image from its first bytes, of which there
    /// must be at least 8.
    pub fn from_slice(header: &[u8]) -> (parsed: Result<Self, String>)
        requires
            header@.len() >= 8,
        ensures
            match parsed {
                Ok(fields) => !Self::rejects(header@) && fields == Self::parsed(header@),
                Err(message) => Self::rejects(header@) && message@
                    == "The ROM does not contain a valid iNES header."@,
            },
    {
        if header[0] != 0x4E && header[1] != 0x45 && header[2] != 0x53 && header[3] != 0x1A {
            return Err("The ROM does not contain a valid iNES header.".to_owned());
        }
        Ok(
            RomHeader {
                prg: header[4],
                chr: header[5],
                mirroring: if header[6] % 2 == 1 {
                    MirrorArrangement::Vertical
                } else {
                    MirrorArrangement::Horizontal
                },
                mapper: Mapper::from_id(header[6] / 16 + (header[7] / 16) * 16),
            },
        )
    }
}

/// A cartridge as it sits on the two buses.
#[derive(Copy, Clone, Debug, PartialEq, Eq, Structural)]
pub struct Cartridge {
    pub header: RomHeader,
    /// The slot of the processor side on the processor's bus.
    pub prg_slot: usize,
    /// The slot of the pattern memory on the video bus.
    pub chr_slot: usize,
}

/// Why a ROM image cannot be loaded, if it cannot.
pub open spec fn load_failure(rom: Seq<u8>) -> Option<Seq<char>> {
    if rom.len() < HEADER_SIZE {
        Some("The ROM is shorter than an iNES header."@)
    } else if RomHeader::rejects(rom.subrange(0, 16)) {
        Some("The ROM does not contain a valid iNES header."@)
    } else {
        let header = RomHeader::parsed(rom.subrange(0, 16));
        if header.mapper is Unsupported {
            Some("Unsupported mapper"@)
        } else if (header.mapper is Nrom && rom.len() - 16 < nrom_image_size(
            header.prg,
            header.chr,
        )) || (header.mapper is Mmc1 && rom.len() - 16 < 0x4000 * header.prg + 0x1000
            * header.chr) {
            Some("The ROM is shorter than its header declares."@)
        } else {
            None
        }
    }
}

/// The two sides of the cartridge that a loadable ROM image holds, built
/// from the bytes behind its header.
pub open spec fn cartridge_sides(rom: Seq<u8>) -> (ComponentState, VideoState) {
    let header = RomHeader::parsed(rom.subrange(0, 16));
    let data = rom.subrange(16, rom.len() as int);
    if header.mapper is Mmc1 {
        (
            ComponentState::Mmc1(mmc1_halves(data, header.prg, header.chr).0),
            VideoState::Banked(mmc1_halves(data, header.prg, header.chr).1),
        )
    } else {
        (
            ComponentState::Nrom(
                NromState {
                    prg_ram: Seq::new(0x800, |i: int| 0u8),
                    prg_rom: data.subrange(0, 0x4000 * header.prg),
                    rom_banks: header.prg,
                },
            ),
            VideoState::Pattern(
                if header.chr > 0 {
                    data.subrange(0x4000 * header.prg, 0x4000 * header.prg + 0x2000)
                } else {
                    Seq::new(0x2000, |i: int| 0u8)
                },
            ),
        )
    }
}

/// Loads the ROM image `rom`: the mirroring that its header declares is set
/// on `vram`, and the cartridge is built from the bytes behind the header
/// and bound to 0x6000..=0xFFFF of `bus` and to 0x0000..=0x1FFF of
/// `vram_bus`. An image that cannot be loaded leaves all three as they are.
pub fn load_rom(
    rom: &[u8],
    bus: &mut Bus<Component>,
    vram_bus: &mut Bus<VideoComponent>,
    vram: &mut VRam,
) -> (loaded: Result<Cartridge, String>)
    ensures
        match loaded {
            Err(message) => load_failure(rom@) == Some(message@) && final(bus)@ == old(bus)@
                && final(vram_bus)@ == old(vram_bus)@ && final(vram)@ == old(vram)@,
            Ok(cartridge) => {
                &&& load_failure(rom@).is_none()
                &&& cartridge.header == RomHeader::parsed(rom@.subrange(0, 16))
                &&& cartridge.prg_slot == old(bus)@.components.len()
                &&& cartridge.chr_slot == old(vram_bus)@.components.len()
                &&& final(vram)@ == (VRamState {
                    mirroring: cartridge.header.mirroring,
                    ..old(vram)@
                })
                &&& final(bus)@ == old(bus)@.registered(0x6000, 0xFFFF, cartridge_sides(rom@).0)
                &&& final(vram_bus)@ == old(vram_bus)@.registered(
                    0x0000,
                    0x1FFF,
                    cartridge_sides(rom@).1,
                )
            },
        },
{
    if rom.len() < HEADER_SIZE {
        return Err("The ROM is shorter than an iNES header.".to_owned());
    }
    let header = match RomHeader::from_slice(&rom[0..16]) {
        Ok(h) => h,
        Err(e) => {
            return Err(e);
        },
    };
    let data = &rom[16..rom.len()];
    let available: usize = rom.len() - 16;
    let slots = match header.mapper {
        Mapper::Nrom => {
            let needed: usize = 0x4000 * header.prg as usize + if header.chr > 0 {
                0x2000
            } else {
                0
            };
            if available < needed {
                return Err("The ROM is shorter than its header declares.".to_owned());
            }
            vram.set_mirroring(header.mirroring);
            Nrom::register(data, header.prg, header.chr, bus, vram_bus)
        },
        Mapper::Mmc1 => {
            let needed: usize = 0x4000 * header.prg as usize + 0x1000 * header.chr as usize;
            if available < needed {
                return Err("The ROM is shorter than its header declares.".to_owned());
            }
            vram.set_mirroring(header.mirroring);
            Mmc1::register(data, header.prg, header.chr, bus, vram_bus)
        },
        Mapper::Unsupported => {
            return Err("Unsupported mapper".to_owned());
        },
    };
    Ok(Cartridge { header, prg_slot: slots.0, chr_slot: slots.1 })
}

} // verus!
