use vstd::prelude::*;

verus! {

/// A pixel as the window surface stores it: blue, green, red, alpha.
#[derive(Clone, Copy, Debug, PartialEq, Eq, Hash, Structural)]
pub struct Bgra {
    pub b: u8,
    pub g: u8,
    pub r: u8,
    pub a: u8,
}

/// The surface pixel for a packed 32-bit pixel of the rasterizer, whose
/// bytes, least significant first, are blue, green, red and alpha.
pub open spec fn bgra_of(p: u32) -> Bgra {
    Bgra {
        b: (p % 0x100) as u8,
        g: (p / 0x100 % 0x100) as u8,
        r: (p / 0x10000 % 0x100) as u8,
        a: (p / 0x1000000) as u8,
    }
}

/// Unpacks one rasterizer pixel into the surface's channel order. Only the
/// layout changes; the channel values are kept.
pub fn convert_pixel(p: u32) -> (r: Bgra)
    ensures
        r == bgra_of(p),
{
    assert(p & 0xff == p % 0x100) by (bit_vector);
    assert((p >> 8) & 0xff == p / 0x100 % 0x100) by (bit_vector);
    assert((p >> 16) & 0xff == p / 0x10000 % 0x100) by (bit_vector);
    assert(p >> 24 == p / 0x1000000) by (bit_vector);
    Bgra {
        b: (p & 0xff) as u8,
        g: ((p >> 8) & 0xff) as u8,
        r: ((p >> 16) & 0xff) as u8,
        a: (p >> 24) as u8,
    }
}

/// Converts a whole frame of rasterizer pixels, pixel by pixel, in order.
pub fn convert_pixels(src: &Vec<u32>) -> (r: Vec<Bgra>)
    ensures
        r@.len() == src@.len(),
        forall|i: int| 0 <= i < src@.len() ==> r@[i] == bgra_of(#[trigger] src@[i]),
{
    let mut out: Vec<Bgra> = Vec::with_capacity(src.len());
    let mut i: usize = 0;
    while i < src.len()
        invariant
            i <= src@.len(),
            out@.len() == i,
            forall|j: int| 0 <= j < i ==> out@[j] == bgra_of(#[trigger] src@[j]),
        decreases src@.len() - i,
    {
        out.push(convert_pixel(src[i]));
        i = i + 1;
    }
    out
}

} // verus!
