//! Display colors as plain red/green/blue triples, and the 32-bit packing
//! used by the guest ABI: `0x00RRGGBB`.

use vstd::prelude::*;

verus! {

/// An RGB color with 8 bits per channel.
#[derive(Debug, Clone, Copy, PartialEq, Eq, Structural)]
pub struct Rgb {
    pub r: u8,
    pub g: u8,
    pub b: u8,
}

pub open spec fn spec_black() -> Rgb {
    Rgb { r: 0, g: 0, b: 0 }
}

pub open spec fn spec_white() -> Rgb {
    Rgb { r: 255, g: 255, b: 255 }
}

/// Background color of the program header bar.
pub open spec fn spec_header_bg() -> Rgb {
    Rgb { r: 0x00, g: 0x99, b: 0xCC }
}

pub fn black() -> (r: Rgb)
    ensures
        r == spec_black(),
{
    Rgb { r: 0, g: 0, b: 0 }
}

pub fn white() -> (r: Rgb)
    ensures
        r == spec_white(),
{
    Rgb { r: 255, g: 255, b: 255 }
}

pub fn header_bg() -> (r: Rgb)
    ensures
        r == spec_header_bg(),
{
    Rgb { r: 0x00, g: 0x99, b: 0xCC }
}

/// The color encoded in a 32-bit word: red in bits 16..24, green in
/// bits 8..16, blue in bits 0..8. The top byte is ignored.
pub open spec fn spec_unpack_color(c: u32) -> Rgb {
    Rgb { r: ((c >> 16) & 0xff) as u8, g: ((c >> 8) & 0xff) as u8, b: (c & 0xff) as u8 }
}

/// The 32-bit word a color packs to.
pub open spec fn spec_pack_color(c: Rgb) -> u32 {
    (((c.r as u32) << 16) | ((c.g as u32) << 8) | (c.b as u32)) as u32
}

impl Rgb {
    /// Decompose a 32-bit color word into its channels.
    pub fn unpack(c: u32) -> (r: Rgb)
        ensures
            r == spec_unpack_color(c),
    {
        proof {
            assert(((c >> 16) & 0xff) < 256 && ((c >> 8) & 0xff) < 256 && (c & 0xff) < 256)
                by (bit_vector);
        }
        Rgb { r: ((c >> 16) & 0xff) as u8, g: ((c >> 8) & 0xff) as u8, b: (c & 0xff) as u8 }
    }

    /// Pack the channels back into a 32-bit color word.
    pub fn pack(self) -> (r: u32)
        ensures
            r == spec_pack_color(self),
    {
        ((self.r as u32) << 16) | ((self.g as u32) << 8) | (self.b as u32)
    }
}

/// Packing the channels of a color word restores the word's low 24 bits:
/// the query a guest makes after setting a color returns the same color,
/// stripped of its ignored top byte.
pub proof fn lemma_color_pack_symmetry(c: u32)
    ensures
        spec_pack_color(spec_unpack_color(c)) == c & 0x00ff_ffff,
{
    assert(((((c >> 16) & 0xff) as u8 as u32) << 16) | ((((c >> 8) & 0xff) as u8 as u32) << 8) | (
    (c & 0xff) as u8 as u32) == c & 0x00ff_ffff) by (bit_vector);
}

} // verus!
