use vstd::prelude::*;
use crate::color::{Rgb, spec_pack, pack};
use crate::indexing::lemma_flat_unique;

verus! {

/// Width of the raster buffer in cells.
pub const WIDTH: usize = 1500;

/// Height of the raster buffer in cells.
pub const HEIGHT: usize = 800;

/// Whether a coordinate pair lands inside the raster buffer.
pub open spec fn in_bounds(x: int, y: int) -> bool {
    0 <= x < WIDTH && 0 <= y < HEIGHT
}

/// The flat index of buffer cell (x, y) in row-major order.
pub open spec fn cell(x: int, y: int) -> int {
    x + y * (WIDTH as int)
}

/// Overwrites cell (x, y) with the packed color; writes outside the buffer
/// are silently dropped, never an error.
pub fn set_pixel(buffer: &mut Vec<u32>, x: usize, y: usize, pixel: Rgb)
    requires
        old(buffer)@.len() == WIDTH * HEIGHT,
    ensures
        final(buffer)@.len() == WIDTH * HEIGHT,
        in_bounds(x as int, y as int) ==> final(buffer)@ == old(buffer)@.update(
            cell(x as int, y as int),
            spec_pack(pixel),
        ),
        !in_bounds(x as int, y as int) ==> final(buffer)@ == old(buffer)@,
        forall|x2: int, y2: int|
            in_bounds(x2, y2) ==> final(buffer)@[cell(x2, y2)] == (if x2 == x as int && y2
                == y as int {
                spec_pack(pixel)
            } else {
                old(buffer)@[cell(x2, y2)]
            }),
{
    if x < WIDTH && y < HEIGHT {
        let idx: usize = x + y * WIDTH;
        buffer[idx] = pack(pixel);
        proof {
            assert forall|x2: int, y2: int|
                in_bounds(x2, y2) && !(x2 == x as int && y2 == y as int) implies cell(x2, y2)
                != cell(x as int, y as int) by {
                if cell(x2, y2) == cell(x as int, y as int) {
                    lemma_flat_unique(x2, y2, x as int, y as int, WIDTH as int);
                }
            }
        }
    }
}

/// Composites the packed color into cell (x, y) by bitwise OR, so that
/// overlapping layers combine instead of overwriting; writes outside the
/// buffer are silently dropped.
pub fn add_pixel(buffer: &mut Vec<u32>, x: usize, y: usize, pixel: Rgb)
    requires
        old(buffer)@.len() == WIDTH * HEIGHT,
    ensures
        final(buffer)@.len() == WIDTH * HEIGHT,
        in_bounds(x as int, y as int) ==> final(buffer)@ == old(buffer)@.update(
            cell(x as int, y as int),
            old(buffer)@[cell(x as int, y as int)] | spec_pack(pixel),
        ),
        !in_bounds(x as int, y as int) ==> final(buffer)@ == old(buffer)@,
        forall|x2: int, y2: int|
            in_bounds(x2, y2) ==> final(buffer)@[cell(x2, y2)] == (if x2 == x as int && y2
                == y as int {
                old(buffer)@[cell(x2, y2)] | spec_pack(pixel)
            } else {
                old(buffer)@[cell(x2, y2)]
            }),
{
    if x < WIDTH && y < HEIGHT {
        let idx: usize = x + y * WIDTH;
        let merged: u32 = buffer[idx] | pack(pixel);
        buffer[idx] = merged;
        proof {
            assert forall|x2: int, y2: int|
                in_bounds(x2, y2) && !(x2 == x as int && y2 == y as int) implies cell(x2, y2)
                != cell(x as int, y as int) by {
                if cell(x2, y2) == cell(x as int, y as int) {
                    lemma_flat_unique(x2, y2, x as int, y as int, WIDTH as int);
                }
            }
        }
    }
}

/// Reads cell (x, y); coordinates outside the buffer read as zero.
pub fn get_pixel(buffer: &mut Vec<u32>, x: usize, y: usize) -> (p: u32)
    requires
        old(buffer)@.len() == WIDTH * HEIGHT,
    ensures
        final(buffer)@ == old(buffer)@,
        p == (if in_bounds(x as int, y as int) {
            old(buffer)@[cell(x as int, y as int)]
        } else {
            0u32
        }),
{
    if x < WIDTH && y < HEIGHT {
        let idx: usize = x + y * WIDTH;
        buffer[idx]
    } else {
        0
    }
}

/// Clears the whole buffer: afterwards every cell reads zero, whatever it
/// held before.
pub fn clear_buf(buffer: &mut Vec<u32>)
    ensures
        final(buffer)@.len() == old(buffer)@.len(),
        forall|i: int| 0 <= i < final(buffer)@.len() ==> final(buffer)@[i] == 0u32,
{
    let n: usize = buffer.len();
    for i in 0..n
        invariant
            buffer@.len() == n,
            forall|j: int| 0 <= j < i ==> buffer@[j] == 0u32,
    {
        buffer[i] = 0;
    }
}

/// Additive compositing law: writing color `a` and then color `b` into the
/// same cell with additive-OR leaves the cell holding the bitwise OR of both
/// packed values over its prior contents — never a plain overwrite of one
/// color by the other.
pub proof fn lemma_additive_compositing(s: Seq<u32>, x: int, y: int, a: Rgb, b: Rgb)
    requires
        s.len() == WIDTH * HEIGHT,
        in_bounds(x, y),
    ensures
        ({
            let s1 = s.update(cell(x, y), s[cell(x, y)] | spec_pack(a));
            let s2 = s1.update(cell(x, y), s1[cell(x, y)] | spec_pack(b));
            s2[cell(x, y)] == s[cell(x, y)] | (spec_pack(a) | spec_pack(b))
        }),
{
    let v = s[cell(x, y)];
    let pa = spec_pack(a);
    let pb = spec_pack(b);
    assert((v | pa) | pb == v | (pa | pb)) by (bit_vector);
}

} // verus!
