use vstd::prelude::*;

verus! {

/// A plain RGB color. Its packed 24-bit form (red in bits 16-23, green in
/// bits 8-15, blue in bits 0-7, top byte zero) is the sole interchange format
/// between the drawing routines and the presentation surface.
#[derive(Clone, Copy, PartialEq, Eq, Structural, Debug)]
pub struct Rgb {
    pub r: u8,
    pub g: u8,
    pub b: u8,
}

/// The packed form of a color: red in bits 16-23, green in 8-15, blue in 0-7.
pub open spec fn spec_pack(c: Rgb) -> u32 {
    ((c.r as u32) << 16) | ((c.g as u32) << 8) | (c.b as u32)
}

/// Packs a color into its 24-bit cell encoding.
pub fn pack(c: Rgb) -> (p: u32)
    ensures
        p == spec_pack(c),
{
    ((c.r as u32) << 16) | ((c.g as u32) << 8) | (c.b as u32)
}

/// The color a packed cell value encodes; the unused top byte is ignored.
pub open spec fn spec_unpack(p: u32) -> Rgb {
    Rgb { r: ((p >> 16) & 0xff) as u8, g: ((p >> 8) & 0xff) as u8, b: (p & 0xff) as u8 }
}

/// Unpacks a cell value back into its color channels.
pub fn unpack(p: u32) -> (c: Rgb)
    ensures
        c == spec_unpack(p),
{
    Rgb { r: ((p >> 16) & 0xff) as u8, g: ((p >> 8) & 0xff) as u8, b: (p & 0xff) as u8 }
}

/// The bit layout is faithful: unpacking a packed color gives the color
/// back, channel for channel.
pub proof fn lemma_pack_unpack(c: Rgb)
    ensures
        spec_unpack(spec_pack(c)) == c,
{
    let r = c.r;
    let g = c.g;
    let b = c.b;
    assert(((((r as u32) << 16) | ((g as u32) << 8) | (b as u32)) >> 16) & 0xff == r as u32)
        by (bit_vector);
    assert(((((r as u32) << 16) | ((g as u32) << 8) | (b as u32)) >> 8) & 0xff == g as u32)
        by (bit_vector);
    assert((((r as u32) << 16) | ((g as u32) << 8) | (b as u32)) & 0xff == b as u32)
        by (bit_vector);
}

} // verus!
