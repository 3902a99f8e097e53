//! Error-diffusion dithering of one plane of samples.
//!
//! The plane is walked row by row, left to right: each sample is rounded
//! to a level that the bit depth offers, and the error made is handed on
//! to the pixels that the kernel's taps name. That walk, in floating
//! point, is the work of the `dither` crate. This module decides when it
//! runs and on what, and says what is known of the outcome: the shape of
//! the plane, and what one bit makes of it.
//!
//! Two habits of that walk show in its results.
//!
//! The depth counts steps, not bits. The levels lie 255/depth apart: a
//! depth of 1 gives the two levels 0 and 255, a depth of 2 the three
//! levels 0, 128 and 255, a depth of 3 the four levels 0, 85, 170 and 255,
//! and so on up to the eight levels of depth 7. A value halfway between
//! two levels goes to the upper one.
//!
//! A tap is dropped only where it leaves the buffer. A tap is found by its
//! distance in the buffer, `row * width + col` samples further on, so one
//! that points past the end of a row reaches the first samples of the row
//! after it, and one that points before the start of a row reaches the
//! last samples of the row above it.

use vstd::prelude::*;
use dither::ditherer::Dither;
use crate::algorithm::{DiffusionKernel, DitherAlgorithm, law_kernel_forward};
use crate::buffer::{PixelBuffer, Plane};
use crate::error::Error;

verus! {

/// What `dither::ditherer::Ditherer::dither` makes of a plane of samples
/// with rows of `width`, for a kernel with the given divisor and taps
/// (each `(row, col, weight)`) and the quantizer that
/// `dither::create_quantize_n_bits_func` builds for `depth`, each result
/// brought back to 8 bits by `dither::clamp_f64_to_u8`.
pub uninterp spec fn diffused(
    divisor: int,
    taps: Seq<(int, int, int)>,
    samples: Seq<u8>,
    width: int,
    depth: int,
) -> Seq<u8>;

/// What one bit makes of a sample that no error has reached: black below
/// the middle of the range, white from 128 on.
pub open spec fn one_bit(sample: u8) -> u8 {
    if sample < 128 {
        0
    } else {
        255
    }
}

/// Every sample is black (0) or white (255).
pub open spec fn is_binary(samples: Seq<u8>) -> bool {
    forall|i: int| 0 <= i < samples.len() ==> #[trigger] samples[i] == 0 || samples[i] == 255
}

/// Runs `dither::ditherer::Ditherer::dither` on the samples: they become
/// an `Img` of floating-point samples with rows of `width`, the ditherer
/// is `Ditherer::new` of the kernel's divisor and taps, the quantizer is
/// `create_quantize_n_bits_func(depth)`, and `clamp_f64_to_u8` brings each
/// result back to 8 bits. The contract claims that the result is a
/// function of these arguments alone and has one sample for each sample
/// given. Of the depth of one bit, where the quantizer's only step is
/// 255, it claims three things more. Every result is 0 or 255, the two
/// multiples of the step that are left after clamping. A plane of one
/// sample, which no error reaches, comes out as 0 below 127.5 and as 255
/// above. And on a plane of 0 and 255 alone every error is zero, so that
/// the plane comes back as it went in. The depths 0 and above 7, a width
/// of 0 and a length that is no multiple of the width make the crate fail
/// and are left out.
#[verifier::external_body]
fn diffuse(kernel: &DiffusionKernel, samples: Vec<u8>, width: u32, depth: u8) -> (out: Vec<u8>)
    requires
        kernel@.wf(),
        1 <= depth <= 7,
        (Plane { samples: samples@, width: width as nat }).wf(),
    ensures
        out@ == diffused(kernel@.divisor, kernel@.taps, samples@, width as int, depth as int),
        out@.len() == samples@.len(),
        depth == 1 ==> is_binary(out@),
        depth == 1 && samples@.len() == 1 ==> out@[0] == one_bit(samples@[0]),
        depth == 1 && is_binary(samples@) ==> out@ == samples@,
{
    let mut offsets = Vec::new();
    for tap in kernel.taps.iter() {
        offsets.push((tap.col.into(), tap.row.into(), tap.weight.into()));
    }
    let ditherer = dither::ditherer::Ditherer::new(kernel.divisor.into(), offsets.as_slice());
    let quantize = dither::create_quantize_n_bits_func(depth).unwrap();
    let img = dither::prelude::Img::new(samples, width).unwrap().convert_with(Into::into);
    ditherer.dither(img, quantize).convert_with(dither::clamp_f64_to_u8).into_vec()
}

/// A depth is a number from 1 to 8.
pub open spec fn depth_valid(depth: int) -> bool {
    1 <= depth <= 8
}

/// The samples of a plane after dithering. At a depth of 8 every 8-bit
/// sample is a level of its own: nothing is rounded, no error arises, and
/// the plane stays as it is. At the depths from 1 to 7 the samples are
/// what the `dither` crate makes of them, with levels 255/depth apart.
pub open spec fn dithered(
    algorithm: DitherAlgorithm,
    samples: Seq<u8>,
    width: int,
    depth: int,
) -> Seq<u8> {
    if depth == 8 {
        samples
    } else {
        diffused(algorithm.spec_divisor(), algorithm.spec_taps(), samples, width, depth)
    }
}

/// Accepts the depths from 1 to 8.
pub fn check_depth(depth: u8) -> (r: Result<(), Error>)
    ensures
        depth_valid(depth as int) ==> r == Ok::<(), Error>(()),
        !depth_valid(depth as int) ==> r == Err::<(), Error>(Error::InvalidDepth),
{
    if depth == 0 || depth > 8 {
        Err(Error::InvalidDepth)
    } else {
        Ok(())
    }
}

/// Dithers a plane at `depth` with the kernel of `algorithm`. The result
/// has the rows and columns of the buffer given. The depth is looked at
/// first, then the size: a buffer without samples is refused.
///
/// At a depth of 1 every sample of the result is 0 or 255, a plane that
/// holds nothing else comes back unchanged, and a plane of a single
/// sample turns black below 128 and white from there on. At the depths
/// from 2 to 7 the levels lie 255/depth apart, so there are depth + 1 of
/// them. In a plane with narrow rows, error that a tap sends past the end
/// of a row arrives in the next row.
pub fn dither(buffer: PixelBuffer, algorithm: DitherAlgorithm, depth: u8) -> (r: Result<
    PixelBuffer,
    Error,
>)
    ensures
        !depth_valid(depth as int) ==> r.is_err() && r.unwrap_err() == Error::InvalidDepth,
        depth_valid(depth as int) && buffer@.samples.len() == 0 ==> r.is_err() && r.unwrap_err()
            == Error::InvalidBufferDimensions,
        depth_valid(depth as int) && buffer@.samples.len() > 0 ==> r.is_ok() && r.unwrap()@ == (
        Plane {
            samples: dithered(algorithm, buffer@.samples, buffer@.width as int, depth as int),
            width: buffer@.width,
        }),
        r.is_ok() ==> r.unwrap()@.width == buffer@.width && r.unwrap()@.height()
            == buffer@.height() && r.unwrap()@.samples.len() == buffer@.samples.len(),
        r.is_ok() && depth == 1 ==> is_binary(r.unwrap()@.samples),
        r.is_ok() && depth == 1 && buffer@.samples.len() == 1 ==> r.unwrap()@.samples == seq![
            one_bit(buffer@.samples[0]),
        ],
        r.is_ok() && depth == 1 && is_binary(buffer@.samples) ==> r.unwrap()@.samples
            == buffer@.samples,
{
    if check_depth(depth).is_err() {
        return Err(Error::InvalidDepth);
    }
    if buffer.len() == 0 {
        return Err(Error::InvalidBufferDimensions);
    }
    let width = buffer.width();
    if depth == 8 {
        return Ok(buffer);
    }
    let kernel = algorithm.kernel();
    proof {
        law_kernel_forward(algorithm);
    }
    let out = diffuse(&kernel, buffer.into_vec(), width, depth);
    PixelBuffer::new(out, width)
}

} // verus!
