use eink_utils::{begin_load, load_error, Error, LoadFailure};
use image::error::{
    DecodingError, EncodingError, ImageFormatHint, LimitError, LimitErrorKind, ParameterError,
    ParameterErrorKind, UnsupportedError, UnsupportedErrorKind,
};
use image::ImageError;

#[test]
fn missing_file_ends_the_load() {
    assert_eq!(begin_load(false), Err(Error::FileNotFound));
    assert_eq!(begin_load(true), Ok(()));
}

#[test]
fn failed_load_is_reported_under_its_error() {
    assert_eq!(Error::from_load_failure(LoadFailure::Decoding), Error::DecodeFailed);
    assert_eq!(Error::from_load_failure(LoadFailure::Io), Error::IoError);
    assert_eq!(Error::from_load_failure(LoadFailure::Encoding), Error::Unknown);
    assert_eq!(Error::from_load_failure(LoadFailure::Parameter), Error::Unknown);
    assert_eq!(Error::from_load_failure(LoadFailure::Limits), Error::Unknown);
    assert_eq!(Error::from_load_failure(LoadFailure::Unsupported), Error::Unknown);
}

#[test]
fn decoder_errors_by_variant() {
    let decoding = ImageError::Decoding(DecodingError::from_format_hint(ImageFormatHint::Unknown));
    assert_eq!(load_error(&decoding), Error::DecodeFailed);
    let io = ImageError::IoError(std::io::Error::new(std::io::ErrorKind::Other, "gone"));
    assert_eq!(load_error(&io), Error::IoError);
    let encoding = ImageError::Encoding(EncodingError::from_format_hint(ImageFormatHint::Unknown));
    assert_eq!(load_error(&encoding), Error::Unknown);
    let parameter =
        ImageError::Parameter(ParameterError::from_kind(ParameterErrorKind::DimensionMismatch));
    assert_eq!(load_error(&parameter), Error::Unknown);
    let limits = ImageError::Limits(LimitError::from_kind(LimitErrorKind::DimensionError));
    assert_eq!(load_error(&limits), Error::Unknown);
    let unsupported = ImageError::Unsupported(UnsupportedError::from_format_and_kind(
        ImageFormatHint::Unknown,
        UnsupportedErrorKind::Format(ImageFormatHint::Unknown),
    ));
    assert_eq!(load_error(&unsupported), Error::Unknown);
}

#[test]
fn decoder_errors_of_a_real_decode() {
    let garbage = image::load_from_memory(&[1, 2, 3, 4]).unwrap_err();
    assert_ne!(load_error(&garbage), Error::IoError);
    let cut_short = image::load_from_memory_with_format(&[0x89, b'P', b'N', b'G'], image::ImageFormat::Png)
        .unwrap_err();
    assert!(matches!(load_error(&cut_short), Error::DecodeFailed | Error::IoError));
}

#[test]
fn error_names() {
    assert_eq!(Error::FileNotFound.name(), "file_not_found");
    assert_eq!(Error::IoError.name(), "io_error");
    assert_eq!(Error::DecodeFailed.name(), "image_decode_failed");
    assert_eq!(Error::EncodeFailed.name(), "image_encode_failed");
    assert_eq!(Error::UnsupportedFormat.name(), "unsupported_format");
    assert_eq!(Error::InvalidDepth.name(), "invalid_depth");
    assert_eq!(Error::InvalidBufferDimensions.name(), "invalid_buffer_dimensions");
    assert_eq!(Error::DimensionMismatch.name(), "dimension_mismatch");
    assert_eq!(Error::BufferSizeMismatch.name(), "buffer_size_mismatch");
    assert_eq!(Error::LockFailure.name(), "lock_failure");
    assert_eq!(Error::UnknownAlgorithm.name(), "unknown_algorithm");
    assert_eq!(Error::Unknown.name(), "unknown");
}
