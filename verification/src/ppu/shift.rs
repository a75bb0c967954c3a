use vstd::prelude::*;

verus! {

/// The background shifters: two 16-bit pattern planes and a 32-bit register
/// of sixteen two-bit attribute entries. The top bit (the top entry) is the
/// pixel at fine x 0.
#[derive(Copy, Clone, Debug, PartialEq, Eq, Structural)]
pub struct PPUShift {
    pub pattern_low: u16,
    pub pattern_high: u16,
    pub attribute: u32,
}

/// `data` repeated in the eight two-bit entries of the low half of an
/// attribute register.
pub open spec fn spread(data: u8) -> u32 {
    let d = data as u32;
    d | (d << 2) | (d << 4) | (d << 6) | (d << 8) | (d << 10) | (d << 12) | (d << 14)
}

/// The two-bit pixel of a pair of pattern planes under `select`, a mask with
/// one bit set.
pub open spec fn plane_bits(low: u16, high: u16, select: u16) -> u8 {
    (if high & select != 0 { 2u8 } else { 0u8 }) | (if low & select != 0 { 1u8 } else { 0u8 })
}

impl PPUShift {
    /// Shifters with nothing in them.
    pub fn new() -> (shift: Self)
        ensures
            shift == (PPUShift { pattern_low: 0, pattern_high: 0, attribute: 0 }),
    {
        PPUShift { pattern_low: 0, pattern_high: 0, attribute: 0 }
    }

    /// The shifters with the low byte of the low plane replaced.
    pub open spec fn with_pattern_low(self, data: u8) -> Self {
        PPUShift { pattern_low: (self.pattern_low - self.pattern_low % 256 + data) as u16, ..self }
    }

    /// The shifters with the low byte of the high plane replaced.
    pub open spec fn with_pattern_high(self, data: u8) -> Self {
        PPUShift {
            pattern_high: (self.pattern_high - self.pattern_high % 256 + data) as u16,
            ..self
        }
    }

    /// The shifters with `data` or-ed into each of the eight low attribute
    /// entries.
    pub open spec fn with_attribute(self, data: u8) -> Self {
        PPUShift { attribute: self.attribute | spread(data), ..self }
    }

    /// The shifters one pixel on: the planes lose their top bit, the
    /// attribute register its top entry.
    pub open spec fn shifted(self) -> Self {
        PPUShift {
            pattern_low: ((self.pattern_low % 0x8000) * 2) as u16,
            pattern_high: ((self.pattern_high % 0x8000) * 2) as u16,
            attribute: ((self.attribute % 0x4000_0000) * 4) as u32,
        }
    }

    /// The four-bit colour index of the pixel at `fine_x`: the attribute
    /// entry in bits 2 and 3, the high plane in bit 1, the low plane in bit
    /// 0.
    pub open spec fn pixel(self, fine_x: u8) -> u8 {
        ((((self.attribute >> ((30 - fine_x * 2) as u32)) & 3) as u8) << 2) | plane_bits(
            self.pattern_low,
            self.pattern_high,
            0x8000u16 >> (fine_x as u16),
        )
    }

    pub fn load_pattern_low(&mut self, data: u8)
        ensures
            *final(self) == old(self).with_pattern_low(data),
    {
        self.pattern_low = self.pattern_low - self.pattern_low % 256 + data as u16;
    }

    pub fn load_pattern_high(&mut self, data: u8)
        ensures
            *final(self) == old(self).with_pattern_high(data),
    {
        self.pattern_high = self.pattern_high - self.pattern_high % 256 + data as u16;
    }

    pub fn load_attribute(&mut self, data: u8)
        ensures
            *final(self) == old(self).with_attribute(data),
    {
        let d: u32 = data as u32;
        self.attribute = self.attribute | (d | (d << 2) | (d << 4) | (d << 6) | (d << 8) | (d
            << 10) | (d << 12) | (d << 14));
    }

    pub fn get_pixel_color_index(&self, fine_x: u8) -> (index: u8)
        requires
            fine_x < 8,
        ensures
            index == self.pixel(fine_x),
    {
        let select: u16 = 0x8000u16 >> (fine_x as u16);
        let low_bit: u8 = if self.pattern_low & select != 0 {
            1
        } else {
            0
        };
        let high_bit: u8 = if self.pattern_high & select != 0 {
            2
        } else {
            0
        };
        let attribute: u8 = ((self.attribute >> ((30 - fine_x * 2) as u32)) & 3) as u8;
        (attribute << 2) | (high_bit | low_bit)
    }

    pub fn shift(&mut self)
        ensures
            *final(self) == old(self).shifted(),
    {
        self.pattern_low = (self.pattern_low % 0x8000) * 2;
        self.pattern_high = (self.pattern_high % 0x8000) * 2;
        self.attribute = (self.attribute % 0x4000_0000) * 4;
    }
}

/// The shifters in bit terms: loading replaces the low byte of a plane,
/// shifting moves every bit one pixel up, and a pixel's colour index is below
/// 16.
pub proof fn lemma_shift_bits(shift: PPUShift, data: u8, fine_x: u8)
    requires
        fine_x < 8,
    ensures
        shift.with_pattern_low(data).pattern_low == (shift.pattern_low & 0xFF00) | (data as u16),
        shift.with_pattern_high(data).pattern_high == (shift.pattern_high & 0xFF00) | (
        data as u16),
        shift.shifted().pattern_low == shift.pattern_low << 1,
        shift.shifted().pattern_high == shift.pattern_high << 1,
        shift.shifted().attribute == shift.attribute << 2,
        shift.pixel(fine_x) < 16,
{
    let l = shift.pattern_low;
    let h = shift.pattern_high;
    let a = shift.attribute;
    assert(((l & 0xFF00) | (data as u16)) == l - l % 256 + data as u16 && ((h & 0xFF00) | (
    data as u16)) == h - h % 256 + data as u16) by (bit_vector);
    assert(l << 1 == (l % 0x8000) * 2 && h << 1 == (h % 0x8000) * 2 && a << 2 == (a % 0x4000_0000)
        * 4) by (bit_vector);
    let e = ((a >> ((30 - fine_x * 2) as u32)) & 3) as u8;
    let p = plane_bits(l, h, 0x8000u16 >> (fine_x as u16));
    assert(e <= 3 ==> (p == 0 || p == 1 || p == 2 || p == 3) ==> (e << 2) | p < 16)
        by (bit_vector);
    assert((a >> ((30 - fine_x * 2) as u32)) & 3 <= 3) by (bit_vector);
    assert(2u8 | 1u8 == 3 && 2u8 | 0u8 == 2 && 0u8 | 1u8 == 1 && 0u8 | 0u8 == 0) by (bit_vector);
}

} // verus!
