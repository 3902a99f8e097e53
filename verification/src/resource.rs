//! An image in memory: 8-bit RGB or 8-bit grayscale samples with their
//! width and height, and the operations that change it in place.
//!
//! Each operation either succeeds, and the image is the new one, or
//! fails, and the image is what it was.

use vstd::prelude::*;
use crate::algorithm::DitherAlgorithm;
use crate::buffer::PixelBuffer;
use crate::engine::{check_depth, depth_valid, dither, dithered, is_binary, one_bit};
use crate::error::Error;

verus! {

/// How the samples of an image make up its pixels.
#[derive(Clone, Copy, Debug, PartialEq, Eq, Structural)]
pub enum PixelFormat {
    /// Three samples per pixel: red, green, blue.
    Rgb8,
    /// One sample per pixel: its luminance.
    Luma8,
}

impl PixelFormat {
    /// The number of samples per pixel.
    pub open spec fn spec_channels(self) -> nat {
        match self {
            PixelFormat::Rgb8 => 3,
            PixelFormat::Luma8 => 1,
        }
    }

    /// The number of samples per pixel.
    pub fn channels(&self) -> (n: u8)
        ensures
            n == self.spec_channels(),
    {
        match self {
            PixelFormat::Rgb8 => 3,
            PixelFormat::Luma8 => 1,
        }
    }

    /// The format with `channels` samples per pixel: one is grayscale,
    /// three are RGB, and no other layout is supported.
    pub fn from_channels(channels: u8) -> (r: Result<PixelFormat, Error>)
        ensures
            channels == 1 ==> r == Ok::<PixelFormat, Error>(PixelFormat::Luma8),
            channels == 3 ==> r == Ok::<PixelFormat, Error>(PixelFormat::Rgb8),
            channels != 1 && channels != 3 ==> r == Err::<PixelFormat, Error>(
                Error::UnsupportedFormat,
            ),
    {
        if channels == 1 {
            Ok(PixelFormat::Luma8)
        } else if channels == 3 {
            Ok(PixelFormat::Rgb8)
        } else {
            Err(Error::UnsupportedFormat)
        }
    }
}

/// The luminance of an RGB pixel, in ten-thousandths: 2126 parts red,
/// 7152 parts green, 722 parts blue, rounded down.
pub open spec fn luma_of(r: u8, g: u8, b: u8) -> u8 {
    ((2126 * (r as int) + 7152 * (g as int) + 722 * (b as int)) / 10000) as u8
}

/// The luminance of each pixel of interleaved RGB samples.
pub open spec fn rgb_to_luma(samples: Seq<u8>) -> Seq<u8> {
    Seq::new(
        (samples.len() / 3) as nat,
        |i: int| luma_of(samples[3 * i], samples[3 * i + 1], samples[3 * i + 2]),
    )
}

/// Interleaved RGB samples in which each pixel has its luminance in all
/// three channels.
pub open spec fn luma_to_rgb(samples: Seq<u8>) -> Seq<u8> {
    Seq::new(samples.len() * 3, |i: int| samples[i / 3])
}

/// Channel `c` (0, 1 or 2) of interleaved RGB samples.
pub open spec fn channel(samples: Seq<u8>, c: int) -> Seq<u8> {
    Seq::new((samples.len() / 3) as nat, |i: int| samples[3 * i + c])
}

/// Three planes of one length as interleaved RGB samples.
pub open spec fn interleaved(red: Seq<u8>, green: Seq<u8>, blue: Seq<u8>) -> Seq<u8> {
    Seq::new(
        red.len() * 3,
        |i: int|
            if i % 3 == 0 {
                red[i / 3]
            } else if i % 3 == 1 {
                green[i / 3]
            } else {
                blue[i / 3]
            },
    )
}

/// An image as a mathematical value.
pub struct Raster {
    pub format: PixelFormat,
    pub width: nat,
    pub height: nat,
    pub samples: Seq<u8>,
}

impl Raster {
    /// There is one run of samples for each pixel, and nothing more.
    pub open spec fn wf(self) -> bool {
        self.samples.len() == self.width * self.height * self.format.spec_channels()
    }

    /// The image has no pixels.
    pub open spec fn is_empty(self) -> bool {
        self.width == 0 || self.height == 0
    }

    /// The luminance of each pixel, row by row.
    pub open spec fn luma(self) -> Seq<u8> {
        match self.format {
            PixelFormat::Luma8 => self.samples,
            PixelFormat::Rgb8 => rgb_to_luma(self.samples),
        }
    }

    /// The pixels as interleaved RGB samples, row by row.
    pub open spec fn rgb(self) -> Seq<u8> {
        match self.format {
            PixelFormat::Rgb8 => self.samples,
            PixelFormat::Luma8 => luma_to_rgb(self.samples),
        }
    }

    /// The image after resizing to `nwidth` by `nheight` pixels, in the
    /// format it had.
    pub open spec fn resized_to_fill(self, nwidth: int, nheight: int) -> Raster {
        Raster {
            format: self.format,
            width: nwidth as nat,
            height: nheight as nat,
            samples: resized(
                self.format.spec_channels() as int,
                self.width as int,
                self.height as int,
                self.samples,
                nwidth,
                nheight,
            ),
        }
    }

    /// The image after grayscale dithering: its luminance, dithered as
    /// one plane, in an image of the same size.
    pub open spec fn dithered_grayscale(self, algorithm: DitherAlgorithm, depth: int) -> Raster {
        Raster {
            format: PixelFormat::Luma8,
            width: self.width,
            height: self.height,
            samples: dithered(algorithm, self.luma(), self.width as int, depth),
        }
    }

    /// The image after colour dithering: red, green and blue are each
    /// dithered as a plane of their own, to one bit, and woven together
    /// again in an image of the same size.
    pub open spec fn dithered_rgb(self, algorithm: DitherAlgorithm) -> Raster {
        Raster {
            format: PixelFormat::Rgb8,
            width: self.width,
            height: self.height,
            samples: interleaved(
                dithered(algorithm, channel(self.rgb(), 0), self.width as int, 1),
                dithered(algorithm, channel(self.rgb(), 1), self.width as int, 1),
                dithered(algorithm, channel(self.rgb(), 2), self.width as int, 1),
            ),
        }
    }
}

/// An image held in memory.
#[derive(Debug)]
pub struct ImageResource {
    format: PixelFormat,
    width: u32,
    height: u32,
    samples: Vec<u8>,
}

impl View for ImageResource {
    type V = Raster;

    closed spec fn view(&self) -> Raster {
        Raster {
            format: self.format,
            width: self.width as nat,
            height: self.height as nat,
            samples: self.samples@,
        }
    }
}

/// Runs `image::DynamicImage::to_luma8` on an 8-bit RGB image made of the
/// samples by `image::RgbImage::from_raw`. The contract claims what
/// `image`'s conversion from `Rgb<u8>` to `Luma<u8>` computes for each
/// pixel: 2126 parts red, 7152 parts green and 722 parts blue of ten
/// thousand, in integers, rounded down. Fewer samples than the size asks
/// for make `from_raw` fail and are left out.
#[verifier::external_body]
fn rgb8_to_luma8(width: u32, height: u32, samples: Vec<u8>) -> (out: Vec<u8>)
    requires
        samples@.len() == width * height * 3,
    ensures
        out@ == rgb_to_luma(samples@),
{
    let rgb = image::RgbImage::from_raw(width, height, samples).unwrap();
    image::DynamicImage::ImageRgb8(rgb).to_luma8().into_raw()
}

/// Runs `image::DynamicImage::to_rgb8` on an 8-bit grayscale image made of
/// the samples by `image::GrayImage::from_raw`. The contract claims what
/// `image`'s conversion from `Luma<u8>` to `Rgb<u8>` does: it copies the
/// luminance into each of the three channels. Fewer samples than the size
/// asks for make `from_raw` fail and are left out.
#[verifier::external_body]
fn luma8_to_rgb8(width: u32, height: u32, samples: Vec<u8>) -> (out: Vec<u8>)
    requires
        samples@.len() == width * height,
    ensures
        out@ == luma_to_rgb(samples@),
{
    let gray = image::GrayImage::from_raw(width, height, samples).unwrap();
    image::DynamicImage::ImageLuma8(gray).to_rgb8().into_raw()
}

/// What `image::DynamicImage::resize_to_fill` with the triangle filter
/// makes of an 8-bit image of `width` by `height` pixels with `channels`
/// samples each (3 for RGB, 1 for grayscale), asked for `nwidth` by
/// `nheight` pixels: the samples of the new image, row by row.
pub uninterp spec fn resized(
    channels: int,
    width: int,
    height: int,
    samples: Seq<u8>,
    nwidth: int,
    nheight: int,
) -> Seq<u8>;

/// The longest side of an image that can be resized. The resampler finds
/// the pixels under each new sample with single-precision coordinates;
/// up to this length they are off by less than half a pixel, beyond it
/// they can miss every pixel, and the resampler fails.
pub const MAX_SOURCE_SIDE: u32 = 1048576;

/// `side` scaled by the ratio of `nother` to `other`, rounded up.
pub open spec fn scaled_side(side: int, other: int, nother: int) -> int {
    (side * nother + other - 1) / other
}

/// An upper bound on one side of the scaled image from which the result
/// is cut. The image is scaled by the larger of the two ratios, so its
/// side is the side asked for or `side` scaled by the ratio of the other
/// side, and at least one pixel.
pub open spec fn fill_side(side: int, other: int, nside: int, nother: int) -> int {
    if nside >= scaled_side(side, other, nother) && nside >= 1 {
        nside
    } else if scaled_side(side, other, nother) >= 1 {
        scaled_side(side, other, nother)
    } else {
        1
    }
}

/// An image of `width` by `height` pixels can be resized to `nwidth` by
/// `nheight`: it has pixels and no side longer than `MAX_SOURCE_SIDE`,
/// the sides of the scaled image from which the result is cut fit in 32
/// bits, and its buffers fit in memory that can be addressed. The buffers
/// are the image scaled in height only, with four samples of four bytes
/// for each pixel, and the image scaled in both directions.
pub open spec fn resize_supported(width: int, height: int, nwidth: int, nheight: int) -> bool {
    &&& 0 < width <= MAX_SOURCE_SIDE
    &&& 0 < height <= MAX_SOURCE_SIDE
    &&& 0 <= nwidth
    &&& 0 <= nheight
    &&& fill_side(width, height, nwidth, nheight) <= u32::MAX
    &&& fill_side(height, width, nheight, nwidth) <= u32::MAX
    &&& 16 * (width * fill_side(height, width, nheight, nwidth)) <= isize::MAX
    &&& 4 * (fill_side(width, height, nwidth, nheight) * fill_side(
        height,
        width,
        nheight,
        nwidth,
    )) <= isize::MAX
}

/// Runs `image::DynamicImage::resize_to_fill` with `FilterType::Triangle`
/// on an 8-bit RGB image made of the samples by `image::RgbImage::from_raw`
/// and takes the result's bytes. The contract claims that the result is a
/// function of these arguments alone and has exactly the size asked for:
/// the image is scaled by the larger of the two ratios, so that neither
/// side falls short, and cut to size around its middle. Left out are the
/// inputs on which the crate fails or cuts short: fewer samples than the
/// size asks for; an image without pixels; an image with a side above
/// `MAX_SOURCE_SIDE`, where a window of the resampler can have a weight
/// sum of zero, which it divides by and then fails to store; a scaled
/// image with a side beyond 32 bits, which the crate trims; and buffers
/// of more bytes than can be addressed.
#[verifier::external_body]
fn resize_rgb8_to_fill(
    width: u32,
    height: u32,
    samples: Vec<u8>,
    nwidth: u32,
    nheight: u32,
) -> (out: Vec<u8>)
    requires
        samples@.len() == width * height * 3,
        resize_supported(width as int, height as int, nwidth as int, nheight as int),
    ensures
        out@ == resized(3, width as int, height as int, samples@, nwidth as int, nheight as int),
        out@.len() == nwidth * nheight * 3,
{
    let rgb = image::RgbImage::from_raw(width, height, samples).unwrap();
    let filter = image::imageops::FilterType::Triangle;
    image::DynamicImage::ImageRgb8(rgb).resize_to_fill(nwidth, nheight, filter).into_bytes()
}

/// Runs `image::DynamicImage::resize_to_fill` with `FilterType::Triangle`
/// on an 8-bit grayscale image made of the samples by
/// `image::GrayImage::from_raw` and takes the result's bytes. The contract
/// claims and leaves out what that of `resize_rgb8_to_fill` does, for one
/// sample per pixel.
#[verifier::external_body]
fn resize_luma8_to_fill(
    width: u32,
    height: u32,
    samples: Vec<u8>,
    nwidth: u32,
    nheight: u32,
) -> (out: Vec<u8>)
    requires
        samples@.len() == width * height,
        resize_supported(width as int, height as int, nwidth as int, nheight as int),
    ensures
        out@ == resized(1, width as int, height as int, samples@, nwidth as int, nheight as int),
        out@.len() == nwidth * nheight,
{
    let gray = image::GrayImage::from_raw(width, height, samples).unwrap();
    let filter = image::imageops::FilterType::Triangle;
    image::DynamicImage::ImageLuma8(gray).resize_to_fill(nwidth, nheight, filter).into_bytes()
}

/// An upper bound on one side of the scaled image from which a resized
/// image is cut.
fn fill_side_of(side: u32, other: u32, nside: u32, nother: u32) -> (bound: u64)
    requires
        other > 0,
    ensures
        bound == fill_side(side as int, other as int, nside as int, nother as int),
{
    assert(side * nother <= 0xFFFF_FFFF * 0xFFFF_FFFF) by (nonlinear_arith)
        requires
            0 <= side <= 0xFFFF_FFFF,
            0 <= nother <= 0xFFFF_FFFF,
    ;
    let scaled: u64 = ((side as u64) * (nother as u64) + (other as u64 - 1)) / (other as u64);
    if nside as u64 >= scaled && nside >= 1 {
        nside as u64
    } else if scaled >= 1 {
        scaled
    } else {
        1
    }
}

/// Whether an image of `width` by `height` pixels can be resized to
/// `nwidth` by `nheight`.
pub fn can_resize(width: u32, height: u32, nwidth: u32, nheight: u32) -> (r: bool)
    ensures
        r == resize_supported(width as int, height as int, nwidth as int, nheight as int),
{
    if width == 0 || height == 0 || width > MAX_SOURCE_SIDE || height > MAX_SOURCE_SIDE {
        return false;
    }
    let across = fill_side_of(width, height, nwidth, nheight);
    let down = fill_side_of(height, width, nheight, nwidth);
    if across > u32::MAX as u64 || down > u32::MAX as u64 {
        return false;
    }
    assert(width * down <= 1048576 * 0xFFFF_FFFF) by (nonlinear_arith)
        requires
            0 <= width <= 1048576,
            0 <= down <= 0xFFFF_FFFF,
    ;
    assert(across * down <= 0xFFFF_FFFF * 0xFFFF_FFFF) by (nonlinear_arith)
        requires
            0 <= across <= 0xFFFF_FFFF,
            0 <= down <= 0xFFFF_FFFF,
    ;
    let working: u128 = 16 * ((width as u128) * (down as u128));
    let scaled: u128 = 4 * ((across as u128) * (down as u128));
    working <= isize::MAX as u128 && scaled <= isize::MAX as u128
}

/// Copies channel `c` (0, 1 or 2) out of interleaved RGB samples.
pub fn channel_plane(samples: &Vec<u8>, c: usize) -> (plane: Vec<u8>)
    requires
        c < 3,
        samples@.len() % 3 == 0,
    ensures
        plane@ == channel(samples@, c as int),
{
    let count = samples.len() / 3;
    let mut plane: Vec<u8> = Vec::new();
    let mut i: usize = 0;
    while i < count
        invariant
            i <= count,
            c < 3,
            3 * count == samples.len(),
            plane@.len() == i,
            forall|k: int| 0 <= k < i ==> plane@[k] == samples@[3 * k + c],
        decreases count - i,
    {
        plane.push(samples[3 * i + c]);
        i = i + 1;
    }
    assert(plane@ =~= channel(samples@, c as int));
    plane
}

/// Weaves three planes of one length into interleaved RGB samples.
pub fn interleave(red: &Vec<u8>, green: &Vec<u8>, blue: &Vec<u8>) -> (samples: Vec<u8>)
    requires
        red@.len() == green@.len(),
        red@.len() == blue@.len(),
    ensures
        samples@ == interleaved(red@, green@, blue@),
{
    let count = red.len();
    let mut samples: Vec<u8> = Vec::new();
    let mut i: usize = 0;
    while i < count
        invariant
            i <= count,
            count == red@.len(),
            count == green@.len(),
            count == blue@.len(),
            samples@.len() == 3 * i,
            forall|k: int| 0 <= k < i ==> samples@[3 * k] == red@[k] && samples@[3 * k + 1]
                == green@[k] && samples@[3 * k + 2] == blue@[k],
        decreases count - i,
    {
        samples.push(red[i]);
        samples.push(green[i]);
        samples.push(blue[i]);
        i = i + 1;
    }
    assert(samples@ =~= interleaved(red@, green@, blue@)) by {
        assert forall|j: int| 0 <= j < samples@.len() implies samples@[j] == interleaved(
            red@,
            green@,
            blue@,
        )[j] by {
            let k = j / 3;
            assert(0 <= k < count);
            assert(j == 3 * k + j % 3);
        }
    }
    samples
}

/// An image of one column and one row has one pixel.
proof fn lemma_single_pixel(width: int, height: int)
    ensures
        width == 1 && height == 1 ==> width * height == 1,
{
    if width == 1 && height == 1 {
        assert(width * height == 1) by (nonlinear_arith)
            requires
                width == 1,
                height == 1,
        ;
    }
}

/// The number of samples of an image in either format, from its number of
/// pixels.
proof fn lemma_sample_count(width: int, height: int)
    requires
        0 <= width,
        0 <= height,
    ensures
        width * height >= 0,
        width * height * 1 == width * height,
        (width * height * 3) / 3 == width * height,
        (width * height * 3) % 3 == 0,
        width * height * 3 == (width * height) * 3,
        (width * height) % width == 0 || width == 0,
{
    assert(width * height >= 0) by (nonlinear_arith)
        requires
            0 <= width,
            0 <= height,
    ;
    if width > 0 {
        assert((width * height) % width == 0) by {
            vstd::arithmetic::div_mod::lemma_mod_multiples_basic(height, width);
            assert(height * width == width * height) by (nonlinear_arith);
        }
    }
}

impl ImageResource {
    #[verifier::type_invariant]
    spec fn sized(self) -> bool {
        self@.wf()
    }

    /// Makes an image of `width` by `height` pixels from its samples, row
    /// by row. The number of samples must be exactly what the size and
    /// the format ask for.
    pub fn from_raw(format: PixelFormat, width: u32, height: u32, samples: Vec<u8>) -> (r: Result<
        ImageResource,
        Error,
    >)
        ensures
            samples@.len() == width * height * format.spec_channels() ==> r.is_ok() && r.unwrap()@
                == (Raster {
                format,
                width: width as nat,
                height: height as nat,
                samples: samples@,
            }),
            samples@.len() != width * height * format.spec_channels() ==> r.is_err()
                && r.unwrap_err() == Error::BufferSizeMismatch,
    {
        assert(width * height <= 0xFFFF_FFFF * 0xFFFF_FFFF) by (nonlinear_arith)
            requires
                0 <= width <= 0xFFFF_FFFF,
                0 <= height <= 0xFFFF_FFFF,
        ;
        let pixels: u128 = (width as u128) * (height as u128);
        let expected: u128 = pixels * (format.channels() as u128);
        if samples.len() as u128 == expected {
            Ok(ImageResource { format, width, height, samples })
        } else {
            Err(Error::BufferSizeMismatch)
        }
    }

    /// The format of the pixels.
    pub fn format(&self) -> (f: PixelFormat)
        ensures
            f == self@.format,
    {
        self.format
    }

    /// The number of pixels in a row.
    pub fn width(&self) -> (w: u32)
        ensures
            w == self@.width,
    {
        self.width
    }

    /// The number of rows.
    pub fn height(&self) -> (h: u32)
        ensures
            h == self@.height,
    {
        self.height
    }

    /// The samples, row by row, in the image's own format.
    pub fn samples(&self) -> (s: &Vec<u8>)
        ensures
            s@ == self@.samples,
            self@.wf(),
    {
        proof {
            use_type_invariant(self);
        }
        &self.samples
    }

    /// The raw samples of the image as bytes of their own: row by row,
    /// interleaved, in the image's format, with no header.
    pub fn to_binary(&self) -> (bytes: Vec<u8>)
        ensures
            bytes@ == self@.samples,
    {
        self.samples.clone()
    }

    /// The luminance of each pixel, row by row.
    pub fn to_luma8(&self) -> (luma: Vec<u8>)
        ensures
            luma@ == self@.luma(),
            luma@.len() == self@.width * self@.height,
    {
        proof {
            use_type_invariant(self);
            lemma_sample_count(self@.width as int, self@.height as int);
        }
        match self.format {
            PixelFormat::Luma8 => self.samples.clone(),
            PixelFormat::Rgb8 => rgb8_to_luma8(self.width, self.height, self.samples.clone()),
        }
    }

    /// The pixels as interleaved RGB samples, row by row.
    pub fn to_rgb8(&self) -> (rgb: Vec<u8>)
        ensures
            rgb@ == self@.rgb(),
            rgb@.len() == self@.width * self@.height * 3,
    {
        proof {
            use_type_invariant(self);
            lemma_sample_count(self@.width as int, self@.height as int);
        }
        match self.format {
            PixelFormat::Rgb8 => self.samples.clone(),
            PixelFormat::Luma8 => luma8_to_rgb8(self.width, self.height, self.samples.clone()),
        }
    }

    /// Resizes the image to exactly `width` by `height` pixels: it is
    /// scaled, with a triangle filter, until it covers that size, and what
    /// stands over is cut off evenly on both sides. The format stays. An
    /// image that cannot be resized so is refused.
    pub fn resize(&mut self, width: u32, height: u32) -> (r: Result<(), Error>)
        ensures
            resize_supported(
                old(self)@.width as int,
                old(self)@.height as int,
                width as int,
                height as int,
            ) ==> r == Ok::<(), Error>(()) && final(self)@ == old(self)@.resized_to_fill(
                width as int,
                height as int,
            ),
            !resize_supported(
                old(self)@.width as int,
                old(self)@.height as int,
                width as int,
                height as int,
            ) ==> r == Err::<(), Error>(Error::InvalidBufferDimensions),
            r.is_err() ==> *final(self) == *old(self),
            final(self)@.wf(),
    {
        proof {
            use_type_invariant(&*self);
            lemma_sample_count(self@.width as int, self@.height as int);
            lemma_sample_count(width as int, height as int);
        }
        if !can_resize(self.width, self.height, width, height) {
            return Err(Error::InvalidBufferDimensions);
        }
        let samples = match self.format {
            PixelFormat::Rgb8 => resize_rgb8_to_fill(
                self.width,
                self.height,
                self.samples.clone(),
                width,
                height,
            ),
            PixelFormat::Luma8 => resize_luma8_to_fill(
                self.width,
                self.height,
                self.samples.clone(),
                width,
                height,
            ),
        };
        let next = ImageResource { format: self.format, width, height, samples };
        *self = next;
        Ok(())
    }

    /// Turns the image into a grayscale image dithered down to `depth`
    /// bits. The depth is looked at before anything else; an image
    /// without pixels is refused next.
    pub fn dither_grayscale(&mut self, algorithm: DitherAlgorithm, depth: u8) -> (r: Result<
        (),
        Error,
    >)
        ensures
            !depth_valid(depth as int) ==> r == Err::<(), Error>(Error::InvalidDepth),
            depth_valid(depth as int) && old(self)@.is_empty() ==> r == Err::<(), Error>(
                Error::InvalidBufferDimensions,
            ),
            depth_valid(depth as int) && !old(self)@.is_empty() ==> r == Ok::<(), Error>(())
                && final(self)@ == old(self)@.dithered_grayscale(algorithm, depth as int),
            r.is_ok() ==> final(self)@.width == old(self)@.width && final(self)@.height == old(
                self,
            )@.height,
            r.is_ok() && depth == 1 ==> is_binary(final(self)@.samples),
            r.is_ok() && depth == 1 && is_binary(old(self)@.luma()) ==> final(self)@.samples
                == old(self)@.luma(),
            r.is_ok() && depth == 1 && old(self)@.width == 1 && old(self)@.height == 1
                ==> final(self)@.samples == seq![one_bit(old(self)@.luma()[0])],
            r.is_err() ==> *final(self) == *old(self),
            final(self)@.wf(),
    {
        proof {
            use_type_invariant(&*self);
        }
        if check_depth(depth).is_err() {
            return Err(Error::InvalidDepth);
        }
        if self.width == 0 || self.height == 0 {
            return Err(Error::InvalidBufferDimensions);
        }
        let luma = self.to_luma8();
        proof {
            lemma_single_pixel(self@.width as int, self@.height as int);
        }
        let done = dither_plane(luma, self.width, self.height, algorithm, depth);
        let next = ImageResource {
            format: PixelFormat::Luma8,
            width: self.width,
            height: self.height,
            samples: done,
        };
        *self = next;
        Ok(())
    }

    /// Dithers the image in colour, each channel down to one bit. An
    /// image without pixels is refused.
    pub fn dither_rgb(&mut self, algorithm: DitherAlgorithm) -> (r: Result<(), Error>)
        ensures
            old(self)@.is_empty() ==> r == Err::<(), Error>(Error::InvalidBufferDimensions),
            !old(self)@.is_empty() ==> r == Ok::<(), Error>(()) && final(self)@ == old(
                self,
            )@.dithered_rgb(algorithm),
            r.is_ok() ==> final(self)@.width == old(self)@.width && final(self)@.height == old(
                self,
            )@.height,
            r.is_ok() ==> is_binary(final(self)@.samples),
            r.is_ok() && is_binary(old(self)@.rgb()) ==> final(self)@.samples == old(self)@.rgb(),
            r.is_ok() && old(self)@.width == 1 && old(self)@.height == 1 ==> final(self)@.samples
                == seq![
                one_bit(old(self)@.rgb()[0]),
                one_bit(old(self)@.rgb()[1]),
                one_bit(old(self)@.rgb()[2]),
            ],
            r.is_err() ==> *final(self) == *old(self),
            final(self)@.wf(),
    {
        proof {
            use_type_invariant(&*self);
        }
        if self.width == 0 || self.height == 0 {
            return Err(Error::InvalidBufferDimensions);
        }
        let rgb = self.to_rgb8();
        proof {
            lemma_sample_count(self@.width as int, self@.height as int);
            lemma_single_pixel(self@.width as int, self@.height as int);
            law_channels_round_trip(rgb@);
        }
        let red = dither_plane(channel_plane(&rgb, 0), self.width, self.height, algorithm, 1);
        let green = dither_plane(channel_plane(&rgb, 1), self.width, self.height, algorithm, 1);
        let blue = dither_plane(channel_plane(&rgb, 2), self.width, self.height, algorithm, 1);
        let samples = interleave(&red, &green, &blue);
        proof {
            if self.width == 1 && self.height == 1 {
                assert(samples@ =~= seq![one_bit(rgb@[0]), one_bit(rgb@[1]), one_bit(rgb@[2])]);
            }
        }
        let next = ImageResource {
            format: PixelFormat::Rgb8,
            width: self.width,
            height: self.height,
            samples,
        };
        *self = next;
        Ok(())
    }
}

/// Taking interleaved RGB samples apart into their three channels and
/// weaving the channels together again gives the samples back.
pub proof fn law_channels_round_trip(samples: Seq<u8>)
    requires
        samples.len() % 3 == 0,
    ensures
        interleaved(channel(samples, 0), channel(samples, 1), channel(samples, 2)) == samples,
{
    let woven = interleaved(channel(samples, 0), channel(samples, 1), channel(samples, 2));
    assert(woven.len() == samples.len());
    assert forall|i: int| 0 <= i < samples.len() implies woven[i] == samples[i] by {
        assert(i == 3 * (i / 3) + i % 3);
    }
    assert(woven =~= samples);
}

/// Each channel of woven planes is the plane that was woven in.
pub proof fn law_channel_of_interleaved(red: Seq<u8>, green: Seq<u8>, blue: Seq<u8>)
    requires
        red.len() == green.len(),
        red.len() == blue.len(),
    ensures
        channel(interleaved(red, green, blue), 0) == red,
        channel(interleaved(red, green, blue), 1) == green,
        channel(interleaved(red, green, blue), 2) == blue,
{
    let woven = interleaved(red, green, blue);
    assert(woven.len() / 3 == red.len());
    assert forall|i: int| 0 <= i < red.len() implies woven[3 * i] == red[i] && woven[3 * i + 1]
        == green[i] && woven[3 * i + 2] == blue[i] by {
        assert((3 * i) % 3 == 0 && (3 * i) / 3 == i);
        assert((3 * i + 1) % 3 == 1 && (3 * i + 1) / 3 == i);
        assert((3 * i + 2) % 3 == 2 && (3 * i + 2) / 3 == i);
    }
    assert(channel(woven, 0) =~= red);
    assert(channel(woven, 1) =~= green);
    assert(channel(woven, 2) =~= blue);
}

/// Dithering a grayscale image in colour gives a gray image: each of its
/// three channels is the image's luminance dithered to one bit.
pub proof fn law_gray_in_colour(image: Raster, algorithm: DitherAlgorithm)
    requires
        image.format == PixelFormat::Luma8,
    ensures
        image.dithered_rgb(algorithm).samples == luma_to_rgb(
            image.dithered_grayscale(algorithm, 1).samples,
        ),
{
    let rgb = luma_to_rgb(image.samples);
    assert(rgb.len() / 3 == image.samples.len());
    assert forall|i: int| 0 <= i < image.samples.len() implies rgb[3 * i] == image.samples[i]
        && rgb[3 * i + 1] == image.samples[i] && rgb[3 * i + 2] == image.samples[i] by {
        assert((3 * i) / 3 == i && (3 * i + 1) / 3 == i && (3 * i + 2) / 3 == i);
    }
    assert(channel(rgb, 0) =~= image.samples);
    assert(channel(rgb, 1) =~= image.samples);
    assert(channel(rgb, 2) =~= image.samples);
    let plane = dithered(algorithm, image.samples, image.width as int, 1);
    assert(interleaved(plane, plane, plane) =~= luma_to_rgb(plane));
}

/// Resizing and then dithering gives an image of the size asked for. An
/// image resized to a size with pixels has pixels itself, which is all
/// that dithering at a depth from 1 to 8 asks of it.
pub proof fn law_resize_then_dither(
    image: Raster,
    width: int,
    height: int,
    algorithm: DitherAlgorithm,
    depth: int,
)
    requires
        image.wf(),
        resize_supported(image.width as int, image.height as int, width, height),
        width > 0,
        height > 0,
        depth_valid(depth),
    ensures
        !image.resized_to_fill(width, height).is_empty(),
        image.resized_to_fill(width, height).dithered_grayscale(algorithm, depth).width == width,
        image.resized_to_fill(width, height).dithered_grayscale(algorithm, depth).height
            == height,
        image.resized_to_fill(width, height).dithered_rgb(algorithm).width == width,
        image.resized_to_fill(width, height).dithered_rgb(algorithm).height == height,
{
}

/// Dithers one channel of an image that has pixels.
fn dither_plane(
    samples: Vec<u8>,
    width: u32,
    height: u32,
    algorithm: DitherAlgorithm,
    depth: u8,
) -> (done: Vec<u8>)
    requires
        depth_valid(depth as int),
        width > 0,
        height > 0,
        samples@.len() == width * height,
    ensures
        done@ == dithered(algorithm, samples@, width as int, depth as int),
        done@.len() == width * height,
        depth == 1 ==> is_binary(done@),
        depth == 1 && samples@.len() == 1 ==> done@ == seq![one_bit(samples@[0])],
        depth == 1 && is_binary(samples@) ==> done@ == samples@,
{
    proof {
        lemma_sample_count(width as int, height as int);
        assert(width * height > 0) by (nonlinear_arith)
            requires
                width > 0,
                height > 0,
        ;
    }
    let buffer = PixelBuffer::new(samples, width).unwrap();
    dither(buffer, algorithm, depth).unwrap().into_vec()
}

} // verus!
