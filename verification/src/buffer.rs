//! A plane of 8-bit samples: one channel of an image, row by row.

use vstd::prelude::*;
use crate::error::Error;

verus! {

/// A plane as a mathematical value: the samples in row-major order and the
/// length of a row.
pub struct Plane {
    pub samples: Seq<u8>,
    pub width: nat,
}

impl Plane {
    /// The rows are not empty and the samples fill a whole number of them.
    pub open spec fn wf(self) -> bool {
        self.width > 0 && self.samples.len() % self.width == 0
    }

    /// The number of rows.
    pub open spec fn height(self) -> nat {
        self.samples.len() / self.width
    }

    /// The sample in column `x` of row `y`.
    pub open spec fn at(self, x: int, y: int) -> u8 {
        self.samples[y * self.width + x]
    }
}

/// A grid of 8-bit samples, stored row by row. Its rows have at least one
/// sample each, and it holds a whole number of rows (possibly none).
#[derive(Debug)]
pub struct PixelBuffer {
    samples: Vec<u8>,
    width: u32,
}

impl View for PixelBuffer {
    type V = Plane;

    closed spec fn view(&self) -> Plane {
        Plane { samples: self.samples@, width: self.width as nat }
    }
}

impl PixelBuffer {
    #[verifier::type_invariant]
    spec fn whole_rows(self) -> bool {
        self@.wf()
    }

    /// Makes a buffer of rows of `width` samples. There must be at least
    /// one column, and the samples must fill a whole number of rows.
    pub fn new(samples: Vec<u8>, width: u32) -> (r: Result<PixelBuffer, Error>)
        ensures
            (Plane { samples: samples@, width: width as nat }).wf() ==> r.is_ok() && r.unwrap()@
                == (Plane { samples: samples@, width: width as nat }),
            !(Plane { samples: samples@, width: width as nat }).wf() ==> r.is_err()
                && r.unwrap_err() == Error::DimensionMismatch,
    {
        if width == 0 || samples.len() % (width as usize) != 0 {
            Err(Error::DimensionMismatch)
        } else {
            Ok(PixelBuffer { samples, width })
        }
    }

    /// The number of samples in a row.
    pub fn width(&self) -> (w: u32)
        ensures
            w == self@.width,
            w > 0,
    {
        proof {
            use_type_invariant(self);
        }
        self.width
    }

    /// The number of rows.
    pub fn height(&self) -> (h: usize)
        ensures
            h == self@.height(),
            h * self@.width == self@.samples.len(),
    {
        proof {
            use_type_invariant(self);
            lemma_whole_rows(self@.samples.len() as int, self@.width as int);
        }
        self.samples.len() / (self.width as usize)
    }

    /// The number of samples.
    pub fn len(&self) -> (n: usize)
        ensures
            n == self@.samples.len(),
            self@.wf(),
    {
        proof {
            use_type_invariant(self);
        }
        self.samples.len()
    }

    /// The sample in column `x` of row `y`, if the buffer has one there.
    pub fn get(&self, x: u32, y: usize) -> (s: Option<u8>)
        ensures
            x < self@.width && y < self@.height() ==> s == Some(self@.at(x as int, y as int)),
            !(x < self@.width && y < self@.height()) ==> s.is_none(),
    {
        proof {
            use_type_invariant(self);
            lemma_whole_rows(self@.samples.len() as int, self@.width as int);
        }
        let width = self.width as usize;
        let height = self.samples.len() / width;
        if x < self.width && y < height {
            proof {
                lemma_cell_in_plane(x as int, y as int, width as int, height as int);
            }
            Some(self.samples[y * width + x as usize])
        } else {
            None
        }
    }

    /// The samples, row by row.
    pub fn samples(&self) -> (s: &Vec<u8>)
        ensures
            s@ == self@.samples,
    {
        &self.samples
    }

    /// Gives up the buffer for its samples, row by row.
    pub fn into_vec(self) -> (s: Vec<u8>)
        ensures
            s@ == self@.samples,
    {
        self.samples
    }
}

/// A length that is a multiple of the width is the width times the number
/// of rows.
proof fn lemma_whole_rows(len: int, width: int)
    requires
        width > 0,
        len >= 0,
        len % width == 0,
    ensures
        (len / width) * width == len,
        len / width >= 0,
{
    assert(len == width * (len / width) + len % width) by (nonlinear_arith)
        requires
            width > 0,
    ;
    assert((len / width) * width == width * (len / width)) by (nonlinear_arith);
    assert(len / width >= 0) by (nonlinear_arith)
        requires
            width > 0,
            len >= 0,
    ;
}

/// A cell inside a grid has its index inside the grid's buffer.
proof fn lemma_cell_in_plane(x: int, y: int, width: int, height: int)
    requires
        0 <= x < width,
        0 <= y < height,
    ensures
        0 <= y * width + x < height * width,
        0 <= y * width <= height * width,
{
    assert(y * width + x < height * width) by (nonlinear_arith)
        requires
            0 <= x < width,
            0 <= y < height,
    ;
    assert(0 <= y * width) by (nonlinear_arith)
        requires
            0 <= y,
            0 < width,
    ;
    assert(y * width <= height * width) by (nonlinear_arith)
        requires
            0 <= y < height,
            0 < width,
    ;
}

} // verus!
