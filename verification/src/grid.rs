use vstd::prelude::*;
use crate::indexing::{lemma_flat_unique, lemma_flat_in_range};

verus! {

/// One RGBA sample of the source image.
#[derive(Clone, Copy, PartialEq, Eq, Structural, Debug)]
pub struct Sample {
    pub r: u8,
    pub g: u8,
    pub b: u8,
    pub a: u8,
}

/// The source image: a row-major grid of RGBA samples, width by height.
/// It is mutated only one row at a time, by the row reconstructor.
pub struct ImageGrid {
    width: usize,
    height: usize,
    pixels: Vec<Sample>,
}

impl ImageGrid {
    /// Well-formedness: the flat sample vector covers exactly width x height
    /// cells.
    pub closed spec fn wf(&self) -> bool {
        self.pixels@.len() == self.width * self.height
    }

    /// The grid's width in samples.
    pub closed spec fn spec_width(&self) -> usize {
        self.width
    }

    /// The grid's height in samples.
    pub closed spec fn spec_height(&self) -> usize {
        self.height
    }

    /// The sample at column x, row y.
    pub closed spec fn spec_at(&self, x: int, y: int) -> Sample {
        self.pixels@[x + y * self.width]
    }

    /// Whether (x, y) lies inside this grid.
    pub open spec fn contains(&self, x: int, y: int) -> bool {
        0 <= x < self.spec_width() && 0 <= y < self.spec_height()
    }

    pub fn width(&self) -> (w: usize)
        ensures
            w == self.spec_width(),
    {
        self.width
    }

    pub fn height(&self) -> (h: usize)
        ensures
            h == self.spec_height(),
    {
        self.height
    }

    /// Builds an all-zero grid of the given dimensions. Fails exactly when
    /// the flat sample count width * height does not fit in a machine word.
    pub fn new(width: usize, height: usize) -> (r: Option<ImageGrid>)
        ensures
            (r is Some) <==> width * height <= usize::MAX,
            r is Some ==> {
                let g = r->0;
                &&& g.wf()
                &&& g.spec_width() == width
                &&& g.spec_height() == height
                &&& forall|x: int, y: int|
                    g.contains(x, y) ==> g.spec_at(x, y) == (Sample { r: 0, g: 0, b: 0, a: 0 })
            },
    {
        match width.checked_mul(height) {
            Some(n) => {
                let mut pixels: Vec<Sample> = Vec::new();
                let mut k: usize = 0;
                while k < n
                    invariant
                        k <= n,
                        pixels@.len() == k,
                        forall|i: int|
                            0 <= i < k ==> pixels@[i] == (Sample { r: 0, g: 0, b: 0, a: 0 }),
                    decreases n - k,
                {
                    pixels.push(Sample { r: 0, g: 0, b: 0, a: 0 });
                    k = k + 1;
                }
                let g = ImageGrid { width, height, pixels };
                proof {
                    assert forall|x: int, y: int| g.contains(x, y) implies g.spec_at(x, y) == (
                    Sample { r: 0, g: 0, b: 0, a: 0 }) by {
                        lemma_flat_in_range(x, y, width as int, height as int);
                    }
                }
                Some(g)
            },
            None => None,
        }
    }

    /// Overwrites the sample at (x, y); writes outside the grid are silently
    /// dropped, never an error.
    pub fn set(&mut self, x: usize, y: usize, p: Sample)
        requires
            old(self).wf(),
        ensures
            final(self).wf(),
            final(self).spec_width() == old(self).spec_width(),
            final(self).spec_height() == old(self).spec_height(),
            forall|x2: int, y2: int|
                old(self).contains(x2, y2) ==> final(self).spec_at(x2, y2) == (if x2 == x as int
                    && y2 == y as int {
                    p
                } else {
                    old(self).spec_at(x2, y2)
                }),
    {
        if x < self.width && y < self.height {
            proof {
                vstd::std_specs::vec::axiom_spec_len(&self.pixels);
                lemma_flat_in_range(x as int, y as int, self.width as int, self.height as int);
            }
            let idx: usize = x + y * self.width;
            self.pixels[idx] = p;
            proof {
                let w = old(self).spec_width() as int;
                let h = old(self).spec_height() as int;
                assert forall|x2: int, y2: int| old(self).contains(x2, y2) implies self.spec_at(
                    x2,
                    y2,
                ) == (if x2 == x as int && y2 == y as int {
                    p
                } else {
                    old(self).spec_at(x2, y2)
                }) by {
                    lemma_flat_in_range(x2, y2, w, h);
                    if !(x2 == x as int && y2 == y as int) {
                        if x2 + y2 * w == x as int + y as int * w {
                            lemma_flat_unique(x2, y2, x as int, y as int, w);
                        }
                    }
                }
            }
        }
    }

    /// Reads the sample at (x, y); coordinates outside the grid read as
    /// nothing.
    pub fn get(&self, x: usize, y: usize) -> (r: Option<Sample>)
        requires
            self.wf(),
        ensures
            self.contains(x as int, y as int) ==> r == Some(self.spec_at(x as int, y as int)),
            !self.contains(x as int, y as int) ==> r is None,
    {
        if x < self.width && y < self.height {
            proof {
                vstd::std_specs::vec::axiom_spec_len(&self.pixels);
                lemma_flat_in_range(x as int, y as int, self.width as int, self.height as int);
            }
            let idx: usize = x + y * self.width;
            Some(self.pixels[idx])
        } else {
            None
        }
    }
}

} // verus!
