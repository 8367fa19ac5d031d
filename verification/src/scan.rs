use vstd::prelude::*;
use crate::grid::{ImageGrid, Sample};

verus! {

/// The grayscale sample written back for a reconstructed intensity: all three
/// channels carry the intensity, and the sample is fully opaque.
pub open spec fn gray(v: u8) -> Sample {
    Sample { r: v, g: v, b: v, a: 255 }
}

/// Signal extractor: the scan-line signal of row `row` is the green channel
/// of each of its samples, in column order. The extracted values are the
/// real parts of the transform input; every imaginary part is zero.
pub fn extract_row(img: &ImageGrid, row: usize) -> (signal: Vec<u8>)
    requires
        img.wf(),
        row < img.spec_height(),
    ensures
        signal@.len() == img.spec_width(),
        forall|i: int|
            0 <= i < img.spec_width() ==> signal@[i] == img.spec_at(i, row as int).g,
{
    let w: usize = img.width();
    let mut signal: Vec<u8> = Vec::new();
    let mut i: usize = 0;
    while i < w
        invariant
            img.wf(),
            row < img.spec_height(),
            w == img.spec_width(),
            i <= w,
            signal@.len() == i,
            forall|j: int| 0 <= j < i ==> signal@[j] == img.spec_at(j, row as int).g,
        decreases w - i,
    {
        let p = img.get(i, row).unwrap();
        signal.push(p.g);
        i = i + 1;
    }
    signal
}

/// Row reconstructor: overwrites row `row` with opaque grayscale samples,
/// one intensity per column; positions outside the grid are silently
/// skipped, and every other cell of the grid keeps its sample.
pub fn write_row(img: &mut ImageGrid, row: usize, intensities: &Vec<u8>)
    requires
        old(img).wf(),
    ensures
        final(img).wf(),
        final(img).spec_width() == old(img).spec_width(),
        final(img).spec_height() == old(img).spec_height(),
        forall|x: int, y: int|
            old(img).contains(x, y) ==> final(img).spec_at(x, y) == (if y == row as int && x
                < intensities@.len() {
                gray(intensities@[x])
            } else {
                old(img).spec_at(x, y)
            }),
{
    let n: usize = intensities.len();
    let mut k: usize = 0;
    while k < n
        invariant
            img.wf(),
            img.spec_width() == old(img).spec_width(),
            img.spec_height() == old(img).spec_height(),
            k <= n,
            n == intensities@.len(),
            forall|x: int, y: int|
                old(img).contains(x, y) ==> img.spec_at(x, y) == (if y == row as int && x
                    < k {
                    gray(intensities@[x])
                } else {
                    old(img).spec_at(x, y)
                }),
        decreases n - k,
    {
        let v: u8 = intensities[k];
        img.set(k, row, Sample { r: v, g: v, b: v, a: 255 });
        k = k + 1;
    }
}

} // verus!
