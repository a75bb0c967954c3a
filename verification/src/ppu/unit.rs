use crate::bus::{Bus, BusState};
use crate::ppu::oam::OamEntry;
use crate::ppu::registers::{PPUAddress, PPUMask};
use crate::ppu::shift::PPUShift;
use crate::ppu::sprite::SpriteShift;
use crate::ppu::video::{VideoComponent, VideoState};
use vstd::prelude::*;

verus! {

pub const MAX_CYCLE: u32 = 340;

pub const MAX_SCANLINE: u32 = 261;

/// The width of the picture in pixels.
pub const SCREEN_WIDTH: usize = 256;

/// The height of the picture in pixels.
pub const SCREEN_HEIGHT: usize = 240;

/// The scalar registers and latches of the video unit.
#[derive(Copy, Clone, Debug, PartialEq, Eq, Structural)]
pub struct PpuRegisters {
    /// The temporary address register.
    pub t: PPUAddress,
    /// The current address register.
    pub v: PPUAddress,
    /// The write toggle of the two-part ports.
    pub w: bool,
    /// The dot within the scanline, 0 to 340.
    pub cycle: u32,
    /// The scanline within the frame, 0 to 261.
    pub scanline: u32,
    pub increment_size: u16,
    pub nmi_enabled: bool,
    pub vblank: bool,
    pub sprite0_hit: bool,
    pub sprite_overflow: bool,
    /// Whether sprites are 16 rows tall instead of 8.
    pub sprite_size: bool,
    /// Whether the lockout after power-on still holds.
    pub reset: bool,
    pub fine_x: u8,
    pub frame_count: u32,
    pub internal_data_buffer: u8,
    /// The last byte driven onto the register ports.
    pub open_bus: u8,
    pub odd_frame: bool,
    pub mask: PPUMask,
    pub shifter: PPUShift,
    pub background_table: u16,
    pub sprite_table: u16,
    pub name_table_selector: u8,
    pub pattern_low: u8,
    pub pattern_high: u8,
    pub attribute: u8,
    pub oam_address: u8,
}

/// A slot of the per-scanline sprite tables: the selected entry and its
/// index in the primary table.
pub type SpriteSlot = Option<(OamEntry, usize)>;

/// The tile/sprite video unit. It is advanced one dot at a time and owns the
/// bus of the video address space.
pub struct PPU {
    pub regs: PpuRegisters,
    pub primary_oam: [OamEntry; 64],
    pub secondary_oam: [SpriteSlot; 8],
    pub current_oam: [SpriteSlot; 8],
    pub secondary_shifters: [SpriteShift; 8],
    pub vram_bus: Bus<VideoComponent>,
}

/// The content of a `PPU`.
pub struct PpuState {
    pub regs: PpuRegisters,
    pub primary_oam: Seq<OamEntry>,
    pub secondary_oam: Seq<SpriteSlot>,
    pub current_oam: Seq<SpriteSlot>,
    pub sprite_shifters: Seq<SpriteShift>,
    pub memory: BusState<VideoState>,
}

impl View for PPU {
    type V = PpuState;

    open spec fn view(&self) -> PpuState {
        PpuState {
            regs: self.regs,
            primary_oam: self.primary_oam@,
            secondary_oam: self.secondary_oam@,
            current_oam: self.current_oam@,
            sprite_shifters: self.secondary_shifters@,
            memory: self.vram_bus@,
        }
    }
}

/// The byte a read of the video bus at `address` yields. The video unit
/// cannot fail: an address that its bus refuses floats, and answers with the
/// last byte seen on that bus.
pub open spec fn video_value(memory: BusState<VideoState>, address: u16) -> u8 {
    match Bus::<VideoComponent>::read_result(memory, address) {
        Ok(value) => value,
        Err(_) => memory.last_read,
    }
}

/// The video bus after a read at `address`.
pub open spec fn video_after_read(memory: BusState<VideoState>, address: u16) -> BusState<
    VideoState,
> {
    Bus::<VideoComponent>::after_read(memory, address)
}

/// The sum of a pattern table base and an offset as a video address: the
/// video address space has 14 bits.
pub open spec fn video_address(base: u16, offset: int) -> u16 {
    ((base + offset) % 0x4000) as u16
}

impl PpuRegisters {
    /// The registers at power-on: on scanline 241, in vertical blank, with
    /// the reset lockout in force.
    pub open spec fn power_on() -> Self {
        PpuRegisters {
            t: PPUAddress(0),
            v: PPUAddress(0),
            w: false,
            cycle: 0,
            scanline: 241,
            increment_size: 1,
            nmi_enabled: false,
            vblank: true,
            sprite0_hit: false,
            sprite_overflow: true,
            sprite_size: false,
            reset: true,
            fine_x: 0,
            frame_count: 0,
            internal_data_buffer: 0,
            open_bus: 0,
            odd_frame: false,
            mask: PPUMask(0),
            shifter: PPUShift { pattern_low: 0, pattern_high: 0, attribute: 0 },
            background_table: 0,
            sprite_table: 0,
            name_table_selector: 0,
            pattern_low: 0,
            pattern_high: 0,
            attribute: 0,
            oam_address: 0,
        }
    }

    /// Whether the dot lies within the 341 x 262 grid.
    pub open spec fn on_grid(self) -> bool {
        self.cycle <= MAX_CYCLE && self.scanline <= MAX_SCANLINE
    }

    /// Whether the scanline is one of the 240 visible ones.
    pub open spec fn visible_scanline(self) -> bool {
        self.scanline <= 239
    }

    /// Whether the scanline is the pre-render line.
    pub open spec fn prerender_scanline(self) -> bool {
        self.scanline == MAX_SCANLINE
    }

    /// Whether the dot lies in one of the two fetching windows.
    pub open spec fn fetching_cycle(self) -> bool {
        (1 <= self.cycle <= 257) || (321 <= self.cycle <= 336)
    }

    /// The height of a sprite in rows.
    pub open spec fn sprite_height(self) -> u32 {
        if self.sprite_size {
            16
        } else {
            8
        }
    }

    /// The registers one dot on: the dot counter wraps after 340 into the
    /// next scanline, the scanline counter after 261 into the next frame.
    pub open spec fn advanced(self) -> Self {
        if self.cycle < MAX_CYCLE {
            PpuRegisters { cycle: (self.cycle + 1) as u32, ..self }
        } else if self.scanline < MAX_SCANLINE {
            PpuRegisters { cycle: 0, scanline: (self.scanline + 1) as u32, ..self }
        } else {
            PpuRegisters {
                cycle: 0,
                scanline: 0,
                frame_count: self.frame_count.wrapping_add(1),
                odd_frame: !self.odd_frame,
                ..self
            }
        }
    }

    /// The current address register with coarse x one further; past the
    /// last column it wraps and the horizontal nametable bit flips.
    #[verifier::opaque]
    pub open spec fn with_x_incremented(self) -> Self {
        let v = self.v;
        let flipped = if v.spec_coarse_x() == 31 {
            v.with_nametable_select(flip_bit(v.spec_nametable_select(), 1))
        } else {
            v
        };
        PpuRegisters { v: flipped.with_coarse_x((v.spec_coarse_x() + 1) as u16), ..self }
    }

    /// The current address register one row down: fine y counts to 8; on its
    /// wrap coarse y goes one further, and a coarse y that reaches 30 wraps
    /// to 0 and flips the vertical nametable bit.
    #[verifier::opaque]
    pub open spec fn with_y_incremented(self) -> Self {
        let v = self.v;
        let stepped = if v.spec_fine_y() == 7 {
            let next = v.with_coarse_y((v.spec_coarse_y() + 1) as u16);
            if next.spec_coarse_y() >= 30 {
                next.with_nametable_select(
                    flip_bit(next.spec_nametable_select(), 2),
                ).with_coarse_y(0)
            } else {
                next
            }
        } else {
            v
        };
        PpuRegisters { v: stepped.with_fine_y((v.spec_fine_y() + 1) as u16), ..self }
    }

    /// The current address register with the horizontal position of the
    /// temporary one: coarse x and the low nametable bit.
    #[verifier::opaque]
    pub open spec fn with_horizontal_copied(self) -> Self {
        let v = self.v.with_coarse_x(self.t.spec_coarse_x());
        PpuRegisters {
            v: v.with_nametable_select(
                ((v.spec_nametable_select() / 2) * 2 + self.t.spec_nametable_select() % 2) as u16,
            ),
            ..self
        }
    }

    /// The current address register with the vertical position of the
    /// temporary one: fine y, coarse y and the high nametable bit.
    #[verifier::opaque]
    pub open spec fn with_vertical_copied(self) -> Self {
        let v = self.v.with_fine_y(self.t.spec_fine_y()).with_coarse_y(self.t.spec_coarse_y());
        PpuRegisters {
            v: v.with_nametable_select(
                (v.spec_nametable_select() % 2 + (self.t.spec_nametable_select() / 2) * 2) as u16,
            ),
            ..self
        }
    }

    /// The registers after the address update of the current dot.
    #[verifier::opaque]
    pub open spec fn with_address_updated(self) -> Self {
        if self.cycle % 8 == 0 && ((1 <= self.cycle <= 255) || self.cycle == 328 || self.cycle
            == 336) {
            self.with_x_incremented()
        } else if self.cycle == 256 {
            self.with_x_incremented().with_y_incremented()
        } else if self.cycle == 257 {
            self.with_horizontal_copied()
        } else if 280 <= self.cycle <= 304 && self.scanline == MAX_SCANLINE {
            self.with_vertical_copied()
        } else {
            self
        }
    }
}

/// A two-bit value with the bit of weight `weight` (1 or 2) flipped.
pub open spec fn flip_bit(value: u16, weight: u16) -> u16 {
    if (value / weight) % 2 == 0 {
        (value + weight) as u16
    } else {
        (value - weight) as u16
    }
}

fn flipped(value: u16, weight: u16) -> (out: u16)
    requires
        value < 4,
        weight == 1 || weight == 2,
    ensures
        out == flip_bit(value, weight),
{
    if (value / weight) % 2 == 0 {
        value + weight
    } else {
        value - weight
    }
}

impl PPU {
    /// A video unit at power-on over `bus`, with an object table of entries
    /// below the picture.
    pub fn new(bus: Bus<VideoComponent>) -> (ppu: Self)
        ensures
            ppu@.regs == PpuRegisters::power_on(),
            ppu@.memory == bus@,
            ppu@.primary_oam == Seq::new(
                64,
                |i: int| OamEntry { y: 0xFF, tile_index: 0, attributes: 0, x: 0 },
            ),
            ppu@.secondary_oam == Seq::new(8, |i: int| None::<(OamEntry, usize)>),
            ppu@.current_oam == Seq::new(8, |i: int| None::<(OamEntry, usize)>),
            ppu@.sprite_shifters == Seq::new(
                8,
                |i: int| SpriteShift { pattern_low: 0, pattern_high: 0, attribute: 0 },
            ),
    {
        let regs = PpuRegisters {
            t: PPUAddress(0),
            v: PPUAddress(0),
            w: false,
            cycle: 0,
            scanline: 241,
            increment_size: 1,
            nmi_enabled: false,
            vblank: true,
            sprite0_hit: false,
            sprite_overflow: true,
            sprite_size: false,
            reset: true,
            fine_x: 0,
            frame_count: 0,
            internal_data_buffer: 0,
            open_bus: 0,
            odd_frame: false,
            mask: PPUMask(0),
            shifter: PPUShift::new(),
            background_table: 0,
            sprite_table: 0,
            name_table_selector: 0,
            pattern_low: 0,
            pattern_high: 0,
            attribute: 0,
            oam_address: 0,
        };
        let empty: SpriteSlot = None;
        let ppu = PPU {
            regs,
            primary_oam: [OamEntry { y: 0xFF, tile_index: 0, attributes: 0, x: 0 };64],
            secondary_oam: [empty;8],
            current_oam: [empty;8],
            secondary_shifters: [SpriteShift { pattern_low: 0, pattern_high: 0, attribute: 0 };8],
            vram_bus: bus,
        };
        proof {
            assert(ppu@.primary_oam =~= Seq::new(
                64,
                |i: int| OamEntry { y: 0xFF, tile_index: 0, attributes: 0, x: 0 },
            ));
            assert(ppu@.secondary_oam =~= Seq::new(8, |i: int| None::<(OamEntry, usize)>));
            assert(ppu@.current_oam =~= Seq::new(8, |i: int| None::<(OamEntry, usize)>));
            assert(ppu@.sprite_shifters =~= Seq::new(
                8,
                |i: int| SpriteShift { pattern_low: 0, pattern_high: 0, attribute: 0 },
            ));
        }
        ppu
    }

    /// The frames completed since the count was last reset.
    pub fn frame_count(&self) -> (count: u32)
        ensures
            count == self@.regs.frame_count,
    {
        self.regs.frame_count
    }

    pub fn reset_frame_count(&mut self)
        ensures
            final(self)@ == (PpuState {
                regs: PpuRegisters { frame_count: 0, ..old(self)@.regs },
                ..old(self)@
            }),
    {
        self.regs.frame_count = 0;
    }

    /// The scalar registers.
    pub fn registers(&self) -> (regs: PpuRegisters)
        ensures
            regs == self@.regs,
    {
        self.regs
    }

    /// Entry `index` of the primary object table.
    pub fn oam_entry(&self, index: usize) -> (entry: OamEntry)
        requires
            index < 64,
        ensures
            entry == self@.primary_oam[index as int],
            self@.primary_oam.len() == 64,
    {
        self.primary_oam[index]
    }

    /// Slot `index` of the secondary object table.
    pub fn secondary_entry(&self, index: usize) -> (slot: SpriteSlot)
        requires
            index < 8,
        ensures
            slot == self@.secondary_oam[index as int],
            self@.secondary_oam.len() == 8,
    {
        self.secondary_oam[index]
    }

    /// The bus of the video address space.
    pub fn video_bus(&self) -> (bus: &Bus<VideoComponent>)
        ensures
            bus@ == self@.memory,
    {
        &self.vram_bus
    }

    /// Reads the video bus at `address`.
    pub(crate) fn fetch(&mut self, address: u16) -> (value: u8)
        ensures
            value == video_value(old(self)@.memory, address),
            final(self)@ == (PpuState {
                memory: video_after_read(old(self)@.memory, address),
                ..old(self)@
            }),
    {
        let before = self.vram_bus.last_read();
        match self.vram_bus.read_byte(address) {
            Ok(value) => value,
            Err(_) => before,
        }
    }

    /// Moves to the next dot.
    pub fn increment_cycle(&mut self)
        ensures
            final(self)@ == (PpuState { regs: old(self)@.regs.advanced(), ..old(self)@ }),
    {
        if self.regs.cycle < MAX_CYCLE {
            self.regs.cycle = self.regs.cycle + 1;
        } else if self.regs.scanline < MAX_SCANLINE {
            self.regs.cycle = 0;
            self.regs.scanline = self.regs.scanline + 1;
        } else {
            self.regs.cycle = 0;
            self.regs.scanline = 0;
            self.regs.frame_count = self.regs.frame_count.wrapping_add(1);
            self.regs.odd_frame = !self.regs.odd_frame;
        }
    }

    pub fn increment_x(&mut self)
        ensures
            final(self)@ == (PpuState {
                regs: old(self)@.regs.with_x_incremented(),
                ..old(self)@
            }),
    {
        proof {
            reveal(PpuRegisters::with_x_incremented);
        }
        let coarse_x = self.regs.v.coarse_x();
        if coarse_x == 31 {
            let select = self.regs.v.nametable_select();
            self.regs.v.set_nametable_select(flipped(select, 1));
        }
        self.regs.v.set_coarse_x(coarse_x + 1);
    }

    pub fn increment_y(&mut self)
        ensures
            final(self)@ == (PpuState {
                regs: old(self)@.regs.with_y_incremented(),
                ..old(self)@
            }),
    {
        proof {
            reveal(PpuRegisters::with_y_incremented);
        }
        let fine_y = self.regs.v.fine_y();
        if fine_y == 7 {
            let coarse_y = self.regs.v.coarse_y();
            self.regs.v.set_coarse_y(coarse_y + 1);
            if self.regs.v.coarse_y() >= 30 {
                let select = self.regs.v.nametable_select();
                self.regs.v.set_nametable_select(flipped(select, 2));
                self.regs.v.set_coarse_y(0);
            }
        }
        self.regs.v.set_fine_y(fine_y + 1);
    }

    /// Copies the horizontal position from the temporary address register.
    pub fn copy_horizontal(&mut self)
        ensures
            final(self)@ == (PpuState {
                regs: old(self)@.regs.with_horizontal_copied(),
                ..old(self)@
            }),
    {
        proof {
            reveal(PpuRegisters::with_horizontal_copied);
        }
        let t = self.regs.t;
        self.regs.v.set_coarse_x(t.coarse_x());
        let select = (self.regs.v.nametable_select() / 2) * 2 + t.nametable_select() % 2;
        self.regs.v.set_nametable_select(select);
    }

    /// Copies the vertical position from the temporary address register.
    pub fn copy_vertical(&mut self)
        ensures
            final(self)@ == (PpuState {
                regs: old(self)@.regs.with_vertical_copied(),
                ..old(self)@
            }),
    {
        proof {
            reveal(PpuRegisters::with_vertical_copied);
        }
        let t = self.regs.t;
        self.regs.v.set_fine_y(t.fine_y());
        self.regs.v.set_coarse_y(t.coarse_y());
        let select = self.regs.v.nametable_select() % 2 + (t.nametable_select() / 2) * 2;
        self.regs.v.set_nametable_select(select);
    }

    /// Applies the scroll bookkeeping of the current dot to the current
    /// address register.
    pub fn update_address(&mut self)
        ensures
            final(self)@ == (PpuState {
                regs: old(self)@.regs.with_address_updated(),
                ..old(self)@
            }),
    {
        proof {
            reveal(PpuRegisters::with_address_updated);
        }
        let cycle = self.regs.cycle;
        if cycle % 8 == 0 && ((1 <= cycle && cycle <= 255) || cycle == 328 || cycle == 336) {
            self.increment_x();
        } else if cycle == 256 {
            self.increment_x();
            self.increment_y();
        } else if cycle == 257 {
            self.copy_horizontal();
        } else if 280 <= cycle && cycle <= 304 && self.regs.scanline == MAX_SCANLINE {
            self.copy_vertical();
        }
    }
}

} // verus!
