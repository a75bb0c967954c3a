use vstd::prelude::*;

verus! {

/// One sprite descriptor of the object table.
#[derive(Copy, Clone, Debug, PartialEq, Eq, Structural)]
pub struct OamEntry {
    pub y: u8,
    pub tile_index: u8,
    pub attributes: u8,
    pub x: u8,
}

impl OamEntry {
    /// The byte at offset `field` (0 to 3) of the entry: y, tile, attributes,
    /// x.
    pub open spec fn spec_byte(&self, field: u8) -> u8 {
        if field % 4 == 0 {
            self.y
        } else if field % 4 == 1 {
            self.tile_index
        } else if field % 4 == 2 {
            self.attributes
        } else {
            self.x
        }
    }

    /// The entry with the byte at offset `field` replaced.
    pub open spec fn with_byte(self, field: u8, data: u8) -> Self {
        if field % 4 == 0 {
            OamEntry { y: data, ..self }
        } else if field % 4 == 1 {
            OamEntry { tile_index: data, ..self }
        } else if field % 4 == 2 {
            OamEntry { attributes: data, ..self }
        } else {
            OamEntry { x: data, ..self }
        }
    }

    #[verifier::when_used_as_spec(spec_byte)]
    pub fn byte(&self, field: u8) -> (value: u8)
        ensures
            value == self.spec_byte(field),
    {
        match field % 4 {
            0 => self.y,
            1 => self.tile_index,
            2 => self.attributes,
            _ => self.x,
        }
    }

    pub fn set_byte(&mut self, field: u8, data: u8)
        ensures
            *final(self) == old(self).with_byte(field, data),
    {
        match field % 4 {
            0 => self.y = data,
            1 => self.tile_index = data,
            2 => self.attributes = data,
            _ => self.x = data,
        }
    }

    /// Whether the sprite, `height` rows tall, covers `scanline`.
    pub open spec fn spec_covers(&self, scanline: u32, height: u32) -> bool {
        self.y <= scanline && scanline <= self.y + height - 1
    }

    #[verifier::when_used_as_spec(spec_covers)]
    pub fn covers(&self, scanline: u32, height: u32) -> (covered: bool)
        requires
            1 <= height <= 16,
        ensures
            covered == self.spec_covers(scanline, height),
    {
        self.y as u32 <= scanline && scanline <= self.y as u32 + height - 1
    }
}

impl Default for OamEntry {
    /// An entry below the visible picture.
    fn default() -> (entry: Self)
        ensures
            entry == (OamEntry { y: 0xFF, tile_index: 0, attributes: 0, x: 0 }),
    {
        OamEntry { y: 0xFF, tile_index: 0, attributes: 0, x: 0 }
    }
}

} // verus!
