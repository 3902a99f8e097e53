//! The decisions made when an image is loaded from a file. Reading and
//! decoding the file is the caller's part; when to give up, and under
//! which error, is decided here. The decoded samples become an image by
//! `ImageResource::from_raw`.

use vstd::prelude::*;
use crate::error::{Error, LoadFailure};

verus! {

/// `image::ImageError`, handed through as it comes.
#[verifier::external_type_specification]
#[verifier::external_body]
pub struct ExImageError(image::ImageError);

/// The variant of an `image::ImageError`, as one kind of failure for each
/// of the six.
pub uninterp spec fn failure_kind(error: image::ImageError) -> LoadFailure;

/// Tells the variants of `image::ImageError` apart, one kind of failure
/// for each. The contract claims that the kind is a function of the error
/// alone.
#[verifier::external_body]
fn failure_of(error: &image::ImageError) -> (kind: LoadFailure)
    ensures
        kind == failure_kind(*error),
{
    match error {
        image::ImageError::Decoding(_) => LoadFailure::Decoding,
        image::ImageError::Encoding(_) => LoadFailure::Encoding,
        image::ImageError::Parameter(_) => LoadFailure::Parameter,
        image::ImageError::Limits(_) => LoadFailure::Limits,
        image::ImageError::Unsupported(_) => LoadFailure::Unsupported,
        image::ImageError::IoError(_) => LoadFailure::Io,
    }
}

/// The error under which a failure of the decoder is reported: a decoding
/// failure as `DecodeFailed`, a read failure as `IoError`, and every other
/// kind as `Unknown`.
pub fn load_error(error: &image::ImageError) -> (r: Error)
    ensures
        r == Error::spec_from_load_failure(failure_kind(*error)),
{
    Error::from_load_failure(failure_of(error))
}

/// The first step of loading: a path that names no file ends the load
/// before anything is opened.
pub fn begin_load(path_exists: bool) -> (r: Result<(), Error>)
    ensures
        path_exists ==> r == Ok::<(), Error>(()),
        !path_exists ==> r == Err::<(), Error>(Error::FileNotFound),
{
    if path_exists {
        Ok(())
    } else {
        Err(Error::FileNotFound)
    }
}

} // verus!
