//! The loading pipeline: decode the pixels, classify the format, scan for the
//! orientation tag, resolve it, and apply the resulting transform.

use crate::buffer::grid_of;
use crate::buffer::lemma_grid_of_prefix;
use crate::buffer::GridView;
use crate::buffer::PixelBuffer;
use crate::error::LoadError;
use crate::format::ContainerFormat;
use crate::transform::resolve;
use crate::transform::spec_apply;
use crate::transform::spec_resolve;
use image::ImageFormat;
use vstd::prelude::*;

verus! {

#[verifier::external_type_specification]
#[verifier::external_body]
pub struct ExImageFormat(ImageFormat);

/// What the external decoder yields for these bytes in this container format:
/// width, height, bytes per pixel, and the row-major sample bytes; `None` when
/// the decoder rejects the bytes. Decoding depends on the bytes and the format
/// alone.
pub uninterp spec fn decoded(bytes: Seq<u8>, format: ContainerFormat) -> Option<
    (nat, nat, nat, Seq<u8>),
>;

/// The outcome of scanning a byte stream for the EXIF orientation value of the
/// primary image file directory.
#[derive(Clone, Copy, PartialEq, Eq, Structural, Debug)]
pub enum ExifScan {
    /// The orientation tag is present in the primary image file directory,
    /// with this raw value.
    Value(u32),
    /// No EXIF segment, no orientation tag in the primary directory, or a tag
    /// whose value is not an unsigned integer: not an error.
    Absent,
    /// An EXIF segment is present but malformed.
    Malformed,
}

/// What scanning these bytes for the primary-directory EXIF orientation
/// yields; the scan depends on the bytes alone.
pub uninterp spec fn exif_scan(bytes: Seq<u8>) -> ExifScan;

/// What sniffing the leading magic bytes yields; the guess depends on the
/// bytes alone.
pub uninterp spec fn sniffed_format(bytes: Seq<u8>) -> Option<ContainerFormat>;

/// Hands the library's container-format tag to the decoder in its own
/// vocabulary; a one-for-one renaming of variants.
#[verifier::external_body]
fn to_image_format(format: ContainerFormat) -> ImageFormat {
    match format {
        ContainerFormat::Png => ImageFormat::Png, ContainerFormat::Jpeg => ImageFormat::Jpeg,
        ContainerFormat::Gif => ImageFormat::Gif, ContainerFormat::WebP => ImageFormat::WebP,
        ContainerFormat::Pnm => ImageFormat::Pnm, ContainerFormat::Tiff => ImageFormat::Tiff,
        ContainerFormat::Tga => ImageFormat::Tga, ContainerFormat::Dds => ImageFormat::Dds,
        ContainerFormat::Bmp => ImageFormat::Bmp, ContainerFormat::Ico => ImageFormat::Ico,
        ContainerFormat::Hdr => ImageFormat::Hdr, ContainerFormat::Avif => ImageFormat::Avif,
        ContainerFormat::Qoi => ImageFormat::Qoi, ContainerFormat::Pcx => ImageFormat::Pcx,
        ContainerFormat::OpenExr => ImageFormat::OpenExr,
        ContainerFormat::Farbfeld => ImageFormat::Farbfeld,
    }
}

/// Reads the sniffer's format tag back into the library's vocabulary; one arm
/// per format the sniffer's magic-byte table can name, `None` for any other.
#[verifier::external_body]
fn from_image_format(format: ImageFormat) -> Option<ContainerFormat> {
    match format {
        ImageFormat::Png => Some(ContainerFormat::Png),
        ImageFormat::Jpeg => Some(ContainerFormat::Jpeg),
        ImageFormat::Gif => Some(ContainerFormat::Gif),
        ImageFormat::WebP => Some(ContainerFormat::WebP),
        ImageFormat::Pnm => Some(ContainerFormat::Pnm),
        ImageFormat::Tiff => Some(ContainerFormat::Tiff),
        ImageFormat::Dds => Some(ContainerFormat::Dds),
        ImageFormat::Bmp => Some(ContainerFormat::Bmp),
        ImageFormat::Ico => Some(ContainerFormat::Ico),
        ImageFormat::Hdr => Some(ContainerFormat::Hdr),
        ImageFormat::OpenExr => Some(ContainerFormat::OpenExr), ImageFormat::Farbfeld => Some(ContainerFormat::Farbfeld),
        ImageFormat::Avif => Some(ContainerFormat::Avif), ImageFormat::Qoi => Some(ContainerFormat::Qoi),
        _ => None,
    }
}

/// Relies on image::guess_format: the guess reads the leading magic bytes
/// alone, so it is a function of the bytes; it names no format this library
/// lacks a tag for.
#[verifier::external_body]
fn sniff_format(bytes: &[u8]) -> (r: Option<ContainerFormat>)
    ensures
        r == sniffed_format(bytes@),
{
    match image::guess_format(bytes) {
        Ok(format) => from_image_format(format),
        Err(_) => None,
    }
}

/// Relies on image::load (over an in-memory cursor): decoding is a function of
/// the bytes and the format alone. DynamicImage::width, height and color give
/// the decoded dimensions and pixel layout, ColorType::bytes_per_pixel is at
/// least 1, and DynamicImage::into_bytes hands out the row-major sample
/// buffer, which holds at least width * height * bytes_per_pixel bytes.
#[verifier::external_body]
fn decode_image(bytes: &[u8], format: ContainerFormat) -> (r: Result<
    (usize, usize, usize, Vec<u8>),
    image::ImageError,
>)
    ensures
        r matches Ok(t) ==> decoded(bytes@, format) == Some(
            (t.0 as nat, t.1 as nat, t.2 as nat, t.3@),
        ) && t.0 * t.1 * t.2 <= t.3@.len() && 1 <= t.2,
        r is Err ==> decoded(bytes@, format) is None,
{
    let img = match image::load(std::io::Cursor::new(bytes), to_image_format(format)) {
        Ok(img) => img,
        Err(e) => return Err(e),
    };
    let width = img.width() as usize;
    let height = img.height() as usize;
    let bytes_per_pixel = img.color().bytes_per_pixel() as usize;
    Ok((width, height, bytes_per_pixel, img.into_bytes()))
}

/// Relies on exif::Reader::read_from_container (parsing is a function of the
/// bytes alone, and Error::NotFound means no EXIF segment, which is not a
/// failure), on Exif::get_field with Tag::Orientation and In::PRIMARY (the
/// primary image file directory, never a thumbnail's), and on Value::get_uint
/// (Some exactly for the unsigned-integer value types).
#[verifier::external_body]
fn scan_orientation(bytes: &[u8]) -> (r: Result<Option<u32>, exif::Error>)
    ensures
        r matches Ok(Some(v)) ==> exif_scan(bytes@) == ExifScan::Value(v),
        r matches Ok(None) ==> exif_scan(bytes@) == ExifScan::Absent,
        r is Err ==> exif_scan(bytes@) == ExifScan::Malformed,
{
    let mut cursor = std::io::Cursor::new(bytes);
    match exif::Reader::new().read_from_container(&mut cursor) {
        Ok(meta) => match meta.get_field(exif::Tag::Orientation, exif::In::PRIMARY) {
            Some(field) => Ok(field.value.get_uint(0)),
            None => Ok(None),
        },
        Err(exif::Error::NotFound(_)) => Ok(None),
        Err(e) => Err(e),
    }
}

/// What `load` must yield: `None` where it must fail, otherwise the decoded
/// grid with the orientation's transform composition applied. Metadata is
/// consulted only for EXIF-capable formats; a missing segment, a missing tag
/// or a tag value of 1 leaves the decoder's output unchanged.
pub open spec fn spec_load(bytes: Seq<u8>, format: ContainerFormat) -> Option<GridView> {
    match decoded(bytes, format) {
        None => None,
        Some(t) => {
            let base = grid_of(t.0, t.1, t.2, t.3);
            if !format.spec_supports_exif() {
                Some(base)
            } else {
                match exif_scan(bytes) {
                    ExifScan::Malformed => None,
                    ExifScan::Absent => Some(base),
                    ExifScan::Value(v) => match spec_resolve(v) {
                        Some(tr) => Some(spec_apply(tr, base)),
                        None => None,
                    },
                }
            }
        },
    }
}

/// Decodes pixels from the bytes and normalizes their orientation: for an
/// EXIF-capable container format the same bytes are rescanned from the start
/// for metadata, the orientation value resolved, and the transform applied;
/// for any other format the decoder's output is returned unchanged and
/// metadata is never consulted. A malformed EXIF segment or an orientation
/// value outside 1..=8 fails the whole load, the successful decode
/// notwithstanding.
pub fn load(bytes: &[u8], format: ContainerFormat) -> (r: Result<PixelBuffer, LoadError>)
    ensures
        r is Ok <==> spec_load(bytes@, format) is Some,
        r matches Ok(b) ==> b.wf() && spec_load(bytes@, format) == Some(b@),
        r matches Err(e) ==> (match e {
            LoadError::Image(_) => decoded(bytes@, format) is None,
            LoadError::Exif(_) => decoded(bytes@, format) is Some && format.spec_supports_exif()
                && exif_scan(bytes@) == ExifScan::Malformed,
            LoadError::UnknownExifOrientationTag(v) => decoded(bytes@, format) is Some
                && format.spec_supports_exif() && exif_scan(bytes@) == ExifScan::Value(v)
                && spec_resolve(v) is None,
            _ => false,
        }),
{
    let (w, h, b, mut data) = match decode_image(bytes, format) {
        Ok(t) => t,
        Err(e) => return Err(LoadError::Image(e)),
    };
    let ghost full = data@;
    let _dlen = data.len();
    proof {
        assert(w * h <= w * h * b) by (nonlinear_arith)
            requires
                0 <= w,
                0 <= h,
                1 <= b,
        ;
        assert((w * h) * b == w * h * b) by (nonlinear_arith);
    }
    let n = w * h * b;
    data.truncate(n);
    proof {
        lemma_grid_of_prefix(w as nat, h as nat, b as nat, full, n as nat);
    }
    let buf = match PixelBuffer::new(w, h, b, data) {
        Some(buf) => buf,
        None => vstd::pervasive::unreached(),
    };
    if !format.supports_exif() {
        return Ok(buf);
    }
    let orientation = match scan_orientation(bytes) {
        Ok(v) => v,
        Err(e) => return Err(LoadError::Exif(e)),
    };
    match orientation {
        None => Ok(buf),
        Some(v) => match resolve(v) {
            Ok(t) => Ok(t.apply(buf)),
            Err(e) => Err(e),
        },
    }
}

/// Wraps an in-memory byte slice and delegates to `load` with the caller's
/// format.
pub fn load_from_memory_with_format(buf: &[u8], format: ContainerFormat) -> (r: Result<
    PixelBuffer,
    LoadError,
>)
    ensures
        r is Ok <==> spec_load(buf@, format) is Some,
        r matches Ok(b) ==> b.wf() && spec_load(buf@, format) == Some(b@),
        r matches Err(e) ==> (match e {
            LoadError::Image(_) => decoded(buf@, format) is None,
            LoadError::Exif(_) => decoded(buf@, format) is Some && format.spec_supports_exif()
                && exif_scan(buf@) == ExifScan::Malformed,
            LoadError::UnknownExifOrientationTag(v) => decoded(buf@, format) is Some
                && format.spec_supports_exif() && exif_scan(buf@) == ExifScan::Value(v)
                && spec_resolve(v) is None,
            _ => false,
        }),
{
    load(buf, format)
}

/// Sniffs the container format from the byte content itself, then delegates;
/// bytes matching no known signature are rejected without decoding.
pub fn load_from_memory(buffer: &[u8]) -> (r: Result<PixelBuffer, LoadError>)
    ensures
        r is Ok <==> (sniffed_format(buffer@) matches Some(f) && spec_load(buffer@, f) is Some),
        r matches Ok(b) ==> b.wf() && (sniffed_format(buffer@) matches Some(f) && spec_load(
            buffer@,
            f,
        ) == Some(b@)),
        sniffed_format(buffer@) is None <==> r matches Err(LoadError::FormatUnrecognized),
        r matches Err(e) ==> (match e {
            LoadError::FormatUnrecognized => sniffed_format(buffer@) is None,
            LoadError::Image(_) => (sniffed_format(buffer@) matches Some(f) && decoded(buffer@, f)
                is None),
            LoadError::Exif(_) => (sniffed_format(buffer@) matches Some(f) && decoded(buffer@, f)
                is Some && f.spec_supports_exif() && exif_scan(buffer@) == ExifScan::Malformed),
            LoadError::UnknownExifOrientationTag(v) => (sniffed_format(buffer@) matches Some(f)
                && decoded(buffer@, f) is Some && f.spec_supports_exif() && exif_scan(buffer@)
                == ExifScan::Value(v) && spec_resolve(v) is None),
            _ => false,
        }),
{
    match sniff_format(buffer) {
        Some(format) => load_from_memory_with_format(buffer, format),
        None => Err(LoadError::FormatUnrecognized),
    }
}

} // verus!
