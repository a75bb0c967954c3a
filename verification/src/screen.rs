use vstd::prelude::*;

verus! {

/// The number of pixels of a frame.
pub const BUFFER_SIZE: usize = 61440;

/// One pixel of the frame buffer.
#[derive(Copy, Clone, Debug, PartialEq, Eq, Structural)]
pub struct Pixel {
    pub r: u8,
    pub g: u8,
    pub b: u8,
    pub a: u8,
}

impl Pixel {
    /// The pixel of a packed colour: alpha, red, green, blue from the most
    /// significant byte down.
    pub open spec fn unpacked(pixel: u32) -> Pixel {
        Pixel {
            a: (pixel / 0x100_0000) as u8,
            r: ((pixel / 0x1_0000) % 256) as u8,
            g: ((pixel / 0x100) % 256) as u8,
            b: (pixel % 256) as u8,
        }
    }

    /// The packed colour of a pixel.
    pub open spec fn packed(self) -> u32 {
        (self.a * 0x100_0000 + self.r * 0x1_0000 + self.g * 0x100 + self.b) as u32
    }

    pub fn from_u32(pixel: u32) -> (unpacked: Self)
        ensures
            unpacked == Self::unpacked(pixel),
    {
        Pixel {
            a: (pixel / 0x100_0000) as u8,
            r: ((pixel / 0x1_0000) % 256) as u8,
            g: ((pixel / 0x100) % 256) as u8,
            b: (pixel % 256) as u8,
        }
    }
}

impl Default for Pixel {
    /// Opaque black.
    fn default() -> (pixel: Self)
        ensures
            pixel == (Pixel { r: 0, g: 0, b: 0, a: 0xFF }),
    {
        Pixel { r: 0, g: 0, b: 0, a: 0xFF }
    }
}

/// Packing and unpacking a colour undo each other.
pub proof fn lemma_pixel_round_trip(pixel: u32, unpacked: Pixel)
    ensures
        Pixel::unpacked(pixel).packed() == pixel,
        Pixel::unpacked(unpacked.packed()) == unpacked,
{
}

/// A frame of pixels, row by row.
#[derive(Copy, Clone)]
pub struct ScreenBuffer {
    pub buffer: [Pixel; 61440],
}

impl Default for ScreenBuffer {
    /// A frame of opaque black.
    fn default() -> (screen: Self)
        ensures
            forall|i: int|
                0 <= i < BUFFER_SIZE ==> screen.buffer@[i] == (Pixel { r: 0, g: 0, b: 0, a: 0xFF }),
    {
        ScreenBuffer { buffer: [Pixel { r: 0, g: 0, b: 0, a: 0xFF };61440] }
    }
}

} // verus!
