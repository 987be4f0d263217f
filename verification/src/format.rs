//! Container formats and their EXIF-capability classification.

use vstd::prelude::*;

verus! {

/// A container format for compressed image data, one variant per encoding the
/// external decoder understands.
#[derive(Clone, Copy, PartialEq, Eq, Structural, Debug)]
pub enum ContainerFormat {
    Png,
    Jpeg,
    Gif,
    WebP,
    Pnm,
    Tiff,
    Tga,
    Dds,
    Bmp,
    Ico,
    Hdr,
    OpenExr,
    Farbfeld,
    Avif,
    Qoi,
    Pcx,
}

impl ContainerFormat {
    /// The fixed classification of which container formats carry EXIF metadata:
    /// exactly AVIF, JPEG, PNG, TIFF and WebP.
    pub open spec fn spec_supports_exif(self) -> bool {
        ||| self == ContainerFormat::Avif
        ||| self == ContainerFormat::Jpeg
        ||| self == ContainerFormat::Png
        ||| self == ContainerFormat::Tiff
        ||| self == ContainerFormat::WebP
    }

    /// Whether this container format is one known to carry EXIF metadata.
    pub fn supports_exif(&self) -> (r: bool)
        ensures
            r == self.spec_supports_exif(),
    {
        match self {
            ContainerFormat::Avif => true,
            ContainerFormat::Jpeg => true,
            ContainerFormat::Png => true,
            ContainerFormat::Tiff => true,
            ContainerFormat::WebP => true,
            _ => false,
        }
    }
}

} // verus!
