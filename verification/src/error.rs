//! The error taxonomy of the loading pipeline.

use vstd::prelude::*;

verus! {

#[verifier::external_type_specification]
#[verifier::external_body]
pub struct ExExifError(exif::Error);

#[verifier::external_type_specification]
#[verifier::external_body]
pub struct ExImageError(image::ImageError);

#[verifier::external_type_specification]
#[verifier::external_body]
pub struct ExIoError(std::io::Error);

/// Everything that can go wrong while loading and normalizing an image. No
/// error is recovered from internally; each is surfaced to the caller.
#[derive(Debug)]
pub enum LoadError {
    /// An EXIF metadata segment is present but malformed; absence of metadata
    /// is not an error.
    Exif(exif::Error),
    /// The external pixel decoder rejected the bytes.
    Image(image::ImageError),
    /// The underlying byte source failed to open, read or seek.
    Io(std::io::Error),
    /// The orientation tag is present and well formed, but its value lies
    /// outside 1..=8; the value is carried verbatim.
    UnknownExifOrientationTag(u32),
    /// Neither sniffing the bytes nor the path's extension named a known
    /// container format.
    FormatUnrecognized,
}

} // verus!
