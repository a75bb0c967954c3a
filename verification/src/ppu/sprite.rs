use crate::ppu::oam::OamEntry;
use crate::ppu::unit::{video_address, video_after_read, video_value, PpuRegisters, PpuState, SpriteSlot, PPU};
use vstd::prelude::*;

verus! {

/// The two pattern bytes and the attribute byte of one selected sprite.
#[derive(Copy, Clone, Debug, PartialEq, Eq, Structural)]
pub struct SpriteShift {
    pub pattern_low: u8,
    pub pattern_high: u8,
    pub attribute: u8,
}

impl SpriteShift {
    /// A sprite row with nothing in it.
    pub fn new() -> (shift: Self)
        ensures
            shift == (SpriteShift { pattern_low: 0, pattern_high: 0, attribute: 0 }),
    {
        SpriteShift { pattern_low: 0, pattern_high: 0, attribute: 0 }
    }

    /// The mask of the pattern bit of column `fine_x`: counted from the top
    /// bit, or from the bottom bit when the sprite is flipped horizontally
    /// (attribute bit 6).
    pub open spec fn column_mask(self, fine_x: u8) -> u8 {
        if self.attribute & 0x40 != 0 {
            1u8 << fine_x
        } else {
            0x80u8 >> fine_x
        }
    }

    /// The four-bit colour index of column `fine_x`: the sprite palette
    /// (attribute bits 0 and 1) in bits 2 and 3, the high plane in bit 1,
    /// the low plane in bit 0.
    pub open spec fn pixel(self, fine_x: u8) -> u8 {
        ((self.attribute & 3) << 2) | ((if self.pattern_high & self.column_mask(fine_x) != 0 {
            2u8
        } else {
            0u8
        }) | (if self.pattern_low & self.column_mask(fine_x) != 0 {
            1u8
        } else {
            0u8
        }))
    }

    pub fn get_pixel_color_index(&self, fine_x: u8) -> (index: u8)
        requires
            fine_x < 8,
        ensures
            index == self.pixel(fine_x),
    {
        let select: u8 = if self.attribute & 0x40 != 0 {
            1u8 << fine_x
        } else {
            0x80u8 >> fine_x
        };
        let low_bit: u8 = if self.pattern_low & select != 0 {
            1
        } else {
            0
        };
        let high_bit: u8 = if self.pattern_high & select != 0 {
            2
        } else {
            0
        };
        ((self.attribute & 3) << 2) | (high_bit | low_bit)
    }
}


/// The first empty slot at or after `from`.
pub open spec fn first_free(slots: Seq<SpriteSlot>, from: int) -> Option<int>
    decreases slots.len() - from,
{
    if from < 0 || from >= slots.len() {
        None
    } else if slots[from].is_none() {
        Some(from)
    } else {
        first_free(slots, from + 1)
    }
}

/// Sprite evaluation of primary entry `i`: an entry that covers the current
/// scanline goes into the first empty secondary slot; when there is none
/// left, sprite overflow is set.
pub open spec fn evaluate_entry(s: PpuState, i: int) -> PpuState {
    let entry = s.primary_oam[i];
    if entry.spec_covers(s.regs.scanline, s.regs.sprite_height()) {
        match first_free(s.secondary_oam, 0) {
            Some(k) => PpuState {
                secondary_oam: s.secondary_oam.update(k, Some((entry, i as usize))),
                ..s
            },
            None => PpuState { regs: PpuRegisters { sprite_overflow: true, ..s.regs }, ..s },
        }
    } else {
        s
    }
}

/// Sprite evaluation of the primary entries from `i` on, in table order.
pub open spec fn evaluate_from(s: PpuState, i: int) -> PpuState
    decreases 64 - i,
{
    if i < 0 || i >= 64 {
        s
    } else {
        evaluate_from(evaluate_entry(s, i), i + 1)
    }
}

/// The row of the sprite that the current scanline shows, counted from the
/// bottom when the sprite is flipped vertically (attribute bit 7). The
/// subtraction wraps at 16 bits for an entry that does not cover the
/// scanline.
pub open spec fn sprite_row(regs: PpuRegisters, entry: OamEntry) -> u16 {
    let row = ((regs.scanline % 0x10000) as u16).wrapping_sub(entry.y as u16);
    if entry.attributes >= 0x80 {
        ((regs.sprite_height() - 1) as u16).wrapping_sub(row)
    } else {
        row
    }
}

/// The video address of the low pattern byte of the sprite row: in 8 x 16
/// mode the tile's low bit selects the pattern table and rows 8 and up come
/// from the following tile.
pub open spec fn sprite_pattern_address(regs: PpuRegisters, entry: OamEntry) -> u16 {
    let row = sprite_row(regs, entry);
    let even = (entry.tile_index - entry.tile_index % 2) as int;
    let tile: int = if row < 8 {
        if regs.sprite_size {
            even
        } else {
            entry.tile_index as int
        }
    } else {
        even + 1
    };
    let table: u16 = if regs.sprite_size {
        ((entry.tile_index % 2) * 0x1000) as u16
    } else {
        regs.sprite_table
    };
    video_address(table, tile * 16 + row % 8)
}

/// Loading the shifter of secondary slot `i`: two pattern bytes are read
/// from the video bus, the low one first.
pub open spec fn load_slot(s: PpuState, i: int) -> PpuState {
    match s.secondary_oam[i] {
        Some((entry, _)) => {
            let low_address = sprite_pattern_address(s.regs, entry);
            let high_address = video_address(low_address, 8);
            let after_low = video_after_read(s.memory, low_address);
            PpuState {
                sprite_shifters: s.sprite_shifters.update(
                    i,
                    SpriteShift {
                        pattern_low: video_value(s.memory, low_address),
                        pattern_high: video_value(after_low, high_address),
                        attribute: entry.attributes,
                    },
                ),
                memory: video_after_read(after_low, high_address),
                ..s
            }
        },
        None => s,
    }
}

/// Loading the shifters of the secondary slots from `i` on.
pub open spec fn load_from(s: PpuState, i: int) -> PpuState
    decreases 8 - i,
{
    if i < 0 || i >= 8 {
        s
    } else {
        load_from(load_slot(s, i), i + 1)
    }
}

/// Whether the sprite in `entry` is drawn at column `x`: the eight columns
/// from its own x on, unless they would run past column 255.
pub open spec fn sprite_column_hit(entry: OamEntry, x: u8) -> bool {
    x >= entry.x && x <= entry.x.wrapping_add(7)
}

/// The sprite pixel at column `x` among the current slots from `i` on: the
/// colour index, primary index and behind-background flag (attribute bit 5)
/// of the first slot with an opaque pixel there, and `(0, 0, false)` when
/// there is none.
pub open spec fn sprite_pixel_from(s: PpuState, x: u8, i: int) -> (u8, usize, bool)
    decreases 8 - i,
{
    if i < 0 || i >= 8 {
        (0u8, 0usize, false)
    } else {
        match s.current_oam[i] {
            Some((entry, index)) => {
                if sprite_column_hit(entry, x) && s.sprite_shifters[i].pixel(
                    (x - entry.x) as u8,
                ) % 4 > 0 {
                    (
                        s.sprite_shifters[i].pixel((x - entry.x) as u8),
                        index,
                        (entry.attributes / 32) % 2 == 1,
                    )
                } else {
                    sprite_pixel_from(s, x, i + 1)
                }
            },
            None => sprite_pixel_from(s, x, i + 1),
        }
    }
}

/// The sprite pixel of the current dot. Nothing is drawn in the eight
/// leftmost columns while sprites are hidden there.
pub open spec fn sprite_pixel(s: PpuState) -> (u8, usize, bool) {
    if !s.regs.mask.spec_show_sprite_left() && s.regs.cycle <= 8 {
        (0u8, 0usize, false)
    } else {
        sprite_pixel_from(s, (s.regs.cycle - 1) as u8, 0)
    }
}

impl PPU {
    /// The first empty secondary slot.
    fn first_free_slot(&self) -> (found: Option<usize>)
        ensures
            found == (match first_free(self@.secondary_oam, 0) {
                Some(k) => Some(k as usize),
                None => None,
            }),
            found matches Some(k) ==> k < 8 && first_free(self@.secondary_oam, 0) == Some(
                k as int,
            ),
            found is None ==> first_free(self@.secondary_oam, 0) is None,
    {
        let mut k: usize = 0;
        while k < 8
            invariant
                0 <= k <= 8,
                first_free(self@.secondary_oam, 0) == first_free(self@.secondary_oam, k as int),
            decreases 8 - k,
        {
            if self.secondary_oam[k].is_none() {
                return Some(k);
            }
            k += 1;
        }
        None
    }

    /// Scans the primary object table for the sprites on the current
    /// scanline and copies them, in table order, into the empty slots of the
    /// secondary table. Sets sprite overflow when a sprite finds no slot.
    pub fn evaluate_sprites(&mut self)
        ensures
            final(self)@ == evaluate_from(old(self)@, 0),
    {
        let height: u32 = if self.regs.sprite_size {
            16
        } else {
            8
        };
        let mut i: usize = 0;
        while i < 64
            invariant
                0 <= i <= 64,
                height == self@.regs.sprite_height(),
                evaluate_from(self@, i as int) == evaluate_from(old(self)@, 0),
            decreases 64 - i,
        {
            let ghost before = self@;
            let entry = self.primary_oam[i];
            if entry.covers(self.regs.scanline, height) {
                match self.first_free_slot() {
                    Some(k) => {
                        self.secondary_oam[k] = Some((entry, i));
                        assert(self@.secondary_oam =~= before.secondary_oam.update(
                            k as int,
                            Some((entry, i)),
                        ));
                    },
                    None => {
                        self.regs.sprite_overflow = true;
                    },
                }
            }
            assert(self@ == evaluate_entry(before, i as int));
            i += 1;
        }
    }

    /// Loads the shifter of one secondary slot.
    fn load_sprite_slot(&mut self, i: usize)
        requires
            i < 8,
        ensures
            final(self)@ == load_slot(old(self)@, i as int),
    {
        if let Some((entry, _)) = self.secondary_oam[i] {
            let height: u16 = if self.regs.sprite_size {
                16
            } else {
                8
            };
            let distance: u16 = ((self.regs.scanline % 0x10000) as u16).wrapping_sub(
                entry.y as u16,
            );
            let row: u16 = if entry.attributes >= 0x80 {
                (height - 1).wrapping_sub(distance)
            } else {
                distance
            };
            let even: u32 = (entry.tile_index - entry.tile_index % 2) as u32;
            let tile: u32 = if row < 8 {
                if self.regs.sprite_size {
                    even
                } else {
                    entry.tile_index as u32
                }
            } else {
                even + 1
            };
            let table: u32 = if self.regs.sprite_size {
                (entry.tile_index % 2) as u32 * 0x1000
            } else {
                self.regs.sprite_table as u32
            };
            let low_address: u16 = ((table + tile * 16 + (row % 8) as u32) % 0x4000) as u16;
            let high_address: u16 = ((low_address as u32 + 8) % 0x4000) as u16;
            let pattern_low = self.fetch(low_address);
            let pattern_high = self.fetch(high_address);
            let ghost before = self@;
            self.secondary_shifters[i] = SpriteShift {
                pattern_low,
                pattern_high,
                attribute: entry.attributes,
            };
            assert(self@.sprite_shifters =~= before.sprite_shifters.update(
                i as int,
                SpriteShift { pattern_low, pattern_high, attribute: entry.attributes },
            ));
        }
    }

    /// Fetches, for every selected sprite, the two pattern bytes of the row
    /// that the current scanline shows.
    pub fn load_sprite_shifts(&mut self)
        ensures
            final(self)@ == load_from(old(self)@, 0),
    {
        let mut i: usize = 0;
        while i < 8
            invariant
                0 <= i <= 8,
                load_from(self@, i as int) == load_from(old(self)@, 0),
            decreases 8 - i,
        {
            self.load_sprite_slot(i);
            i += 1;
        }
    }

    /// The sprite pixel of the current dot, which must be one of the 256
    /// dots that draw a pixel.
    pub fn get_sprite_pixel(&self) -> (pixel: (u8, usize, bool))
        requires
            1 <= self@.regs.cycle <= 256,
        ensures
            pixel == sprite_pixel(self@),
    {
        if !self.regs.mask.show_sprite_left() && self.regs.cycle <= 8 {
            return (0, 0, false);
        }
        let x: u8 = (self.regs.cycle - 1) as u8;
        let mut i: usize = 0;
        while i < 8
            invariant
                0 <= i <= 8,
                sprite_pixel_from(self@, x, i as int) == sprite_pixel(self@),
            decreases 8 - i,
        {
            if let Some((entry, index)) = self.current_oam[i] {
                if x >= entry.x && x <= entry.x.wrapping_add(7) {
                    let colour = self.secondary_shifters[i].get_pixel_color_index(x - entry.x);
                    if colour % 4 > 0 {
                        return (colour, index, (entry.attributes / 32) % 2 == 1);
                    }
                }
            }
            i += 1;
        }
        (0, 0, false)
    }
}

} // verus!
