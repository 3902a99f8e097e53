//! The failures that an operation on an image can report.

use vstd::prelude::*;

verus! {

/// Every failure is returned to the caller as one of these values; no
/// operation retries, recovers silently or leaves an image half changed.
#[derive(Clone, Copy, Debug, PartialEq, Eq, Structural)]
pub enum Error {
    /// The path to load from names no file.
    FileNotFound,
    /// The file could not be read.
    IoError,
    /// The file was read but holds no image that could be decoded.
    DecodeFailed,
    /// The image could not be written out.
    EncodeFailed,
    /// The pixels are neither 8-bit RGB nor 8-bit grayscale.
    UnsupportedFormat,
    /// The bit depth is 0 or more than 8.
    InvalidDepth,
    /// The image has no pixels, or a side that cannot be worked on.
    InvalidBufferDimensions,
    /// The number of samples is not a whole number of rows.
    DimensionMismatch,
    /// The number of samples is not what width, height and format ask for.
    BufferSizeMismatch,
    /// The lock that guards a shared image could not be taken.
    LockFailure,
    /// The name given for a dithering algorithm is not one of the six.
    UnknownAlgorithm,
    /// Anything else.
    Unknown,
}

/// What went wrong when an image file was opened: the kinds of failure
/// that the decoder tells apart.
#[derive(Clone, Copy, Debug, PartialEq, Eq, Structural)]
pub enum LoadFailure {
    /// The bytes are not a valid image of their format.
    Decoding,
    /// The image could not be encoded.
    Encoding,
    /// An argument of an operation on the image was wrong.
    Parameter,
    /// The image needs more memory or larger sides than are allowed.
    Limits,
    /// The format, or a feature of it, is not supported.
    Unsupported,
    /// Reading the file failed.
    Io,
}

impl Error {
    /// The short name under which the error is reported.
    pub open spec fn spec_name(self) -> Seq<char> {
        match self {
            Error::FileNotFound => "file_not_found"@,
            Error::IoError => "io_error"@,
            Error::DecodeFailed => "image_decode_failed"@,
            Error::EncodeFailed => "image_encode_failed"@,
            Error::UnsupportedFormat => "unsupported_format"@,
            Error::InvalidDepth => "invalid_depth"@,
            Error::InvalidBufferDimensions => "invalid_buffer_dimensions"@,
            Error::DimensionMismatch => "dimension_mismatch"@,
            Error::BufferSizeMismatch => "buffer_size_mismatch"@,
            Error::LockFailure => "lock_failure"@,
            Error::UnknownAlgorithm => "unknown_algorithm"@,
            Error::Unknown => "unknown"@,
        }
    }

    /// The short name under which the error is reported.
    pub fn name(&self) -> (r: &'static str)
        ensures
            r@ == self.spec_name(),
    {
        match self {
            Error::FileNotFound => "file_not_found",
            Error::IoError => "io_error",
            Error::DecodeFailed => "image_decode_failed",
            Error::EncodeFailed => "image_encode_failed",
            Error::UnsupportedFormat => "unsupported_format",
            Error::InvalidDepth => "invalid_depth",
            Error::InvalidBufferDimensions => "invalid_buffer_dimensions",
            Error::DimensionMismatch => "dimension_mismatch",
            Error::BufferSizeMismatch => "buffer_size_mismatch",
            Error::LockFailure => "lock_failure",
            Error::UnknownAlgorithm => "unknown_algorithm",
            Error::Unknown => "unknown",
        }
    }

    /// The error that a failed load is reported as.
    pub open spec fn spec_from_load_failure(failure: LoadFailure) -> Error {
        match failure {
            LoadFailure::Decoding => Error::DecodeFailed,
            LoadFailure::Io => Error::IoError,
            LoadFailure::Encoding => Error::Unknown,
            LoadFailure::Parameter => Error::Unknown,
            LoadFailure::Limits => Error::Unknown,
            LoadFailure::Unsupported => Error::Unknown,
        }
    }

    /// The error that a failed load is reported as: a decoding failure and
    /// a read failure each have their own, everything else is `Unknown`.
    pub fn from_load_failure(failure: LoadFailure) -> (r: Error)
        ensures
            r == Error::spec_from_load_failure(failure),
    {
        match failure {
            LoadFailure::Decoding => Error::DecodeFailed,
            LoadFailure::Io => Error::IoError,
            LoadFailure::Encoding => Error::Unknown,
            LoadFailure::Parameter => Error::Unknown,
            LoadFailure::Limits => Error::Unknown,
            LoadFailure::Unsupported => Error::Unknown,
        }
    }
}

} // verus!
