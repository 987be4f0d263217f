//! End-to-end tests of the loading pipeline against the real decoder and EXIF
//! parser.

use upright::load_from_memory;
use upright::load_from_memory_with_format;
use upright::ContainerFormat;
use upright::LoadError;
use upright::PixelBuffer;

/// Encodes a small image with distinct pixels into the given format.
fn encoded(width: u32, height: u32, format: image::ImageFormat) -> Vec<u8> {
    let img = image::RgbImage::from_fn(width, height, |x, y| {
        image::Rgb([(x * 40) as u8, (y * 40) as u8, ((x + y) * 20) as u8])
    });
    let mut bytes: Vec<u8> = Vec::new();
    image::DynamicImage::ImageRgb8(img)
        .write_to(&mut std::io::Cursor::new(&mut bytes), format)
        .unwrap();
    bytes
}

/// An APP1 segment holding a minimal EXIF block whose primary image file
/// directory carries one orientation tag with the given value.
fn exif_app1(orientation: u16) -> Vec<u8> {
    let mut tiff: Vec<u8> = Vec::new();
    tiff.extend_from_slice(b"II\x2a\x00\x08\x00\x00\x00"); // little-endian header, IFD at 8
    tiff.extend_from_slice(&[0x01, 0x00]); // one entry
    tiff.extend_from_slice(&[0x12, 0x01]); // tag 0x0112, orientation
    tiff.extend_from_slice(&[0x03, 0x00]); // type SHORT
    tiff.extend_from_slice(&[0x01, 0x00, 0x00, 0x00]); // count 1
    tiff.extend_from_slice(&orientation.to_le_bytes());
    tiff.extend_from_slice(&[0x00, 0x00]); // value padding
    tiff.extend_from_slice(&[0x00, 0x00, 0x00, 0x00]); // no next directory
    let mut segment: Vec<u8> = vec![0xFF, 0xE1];
    let length = (2 + 6 + tiff.len()) as u16;
    segment.extend_from_slice(&length.to_be_bytes());
    segment.extend_from_slice(b"Exif\x00\x00");
    segment.extend_from_slice(&tiff);
    segment
}

/// The JPEG bytes of a small image with the given EXIF APP1 payload spliced in
/// right after the start-of-image marker.
fn jpeg_with_segment(width: u32, height: u32, segment: &[u8]) -> Vec<u8> {
    let plain = encoded(width, height, image::ImageFormat::Jpeg);
    assert_eq!(&plain[..2], &[0xFF, 0xD8]);
    let mut bytes = plain[..2].to_vec();
    bytes.extend_from_slice(segment);
    bytes.extend_from_slice(&plain[2..]);
    bytes
}

/// The decoder's own output for these bytes, untouched by any orientation
/// handling.
fn reference(bytes: &[u8]) -> (usize, usize, usize, Vec<u8>) {
    let img = image::load_from_memory(bytes).unwrap();
    (
        img.width() as usize,
        img.height() as usize,
        img.color().bytes_per_pixel() as usize,
        img.as_bytes().to_vec(),
    )
}

fn out_pixel<'a>(buf: &'a PixelBuffer, x: usize, y: usize) -> &'a [u8] {
    let start = (y * buf.width() + x) * buf.bytes_per_pixel();
    &buf.as_bytes()[start..start + buf.bytes_per_pixel()]
}

fn ref_pixel<'a>(w: usize, b: usize, data: &'a [u8], x: usize, y: usize) -> &'a [u8] {
    &data[(y * w + x) * b..(y * w + x) * b + b]
}

#[test]
fn non_exif_format_returns_decoder_output_unchanged() {
    let bytes = encoded(3, 2, image::ImageFormat::Bmp);
    let out = load_from_memory_with_format(&bytes, ContainerFormat::Bmp).unwrap();
    let (w, h, b, data) = reference(&bytes);
    assert_eq!(out.width(), w);
    assert_eq!(out.height(), h);
    assert_eq!(out.bytes_per_pixel(), b);
    assert_eq!(out.as_bytes(), &data[..]);
}

#[test]
fn non_exif_format_never_consults_exif_like_bytes() {
    // The trailing bytes hold a well-formed EXIF block with orientation 3; a
    // BMP is not an EXIF-capable format, so it must be ignored outright. (Had
    // metadata been consulted, the scan of a BMP stream would have failed the
    // load, since BMP is no EXIF container at all.)
    let mut bytes = encoded(3, 2, image::ImageFormat::Bmp);
    bytes.extend_from_slice(&exif_app1(3));
    let out = load_from_memory_with_format(&bytes, ContainerFormat::Bmp).unwrap();
    let (w, h, _, data) = reference(&bytes);
    assert_eq!((w, h), (3, 2));
    assert_eq!(out.as_bytes(), &data[..]);
}

#[test]
fn orientation_seven_antitransposes() {
    let bytes = jpeg_with_segment(4, 2, &exif_app1(7));
    let (w, h, b, data) = reference(&bytes);
    let out = load_from_memory_with_format(&bytes, ContainerFormat::Jpeg).unwrap();
    assert_eq!((out.width(), out.height()), (2, 4));
    // Flip-horizontal then rotate-90: output (x, y) is input (w-1-y, h-1-x).
    for y in 0..4 {
        for x in 0..2 {
            assert_eq!(out_pixel(&out, x, y), ref_pixel(w, b, &data, w - 1 - y, h - 1 - x));
        }
    }
}

#[test]
fn exif_capable_format_without_exif_segment_loads_unchanged() {
    let bytes = encoded(3, 2, image::ImageFormat::Png);
    let out = load_from_memory_with_format(&bytes, ContainerFormat::Png).unwrap();
    let (w, h, b, data) = reference(&bytes);
    assert_eq!((out.width(), out.height(), out.bytes_per_pixel()), (w, h, b));
    assert_eq!(out.as_bytes(), &data[..]);
}

#[test]
fn jpeg_without_orientation_tag_loads_unchanged() {
    let bytes = encoded(4, 2, image::ImageFormat::Jpeg);
    let out = load_from_memory_with_format(&bytes, ContainerFormat::Jpeg).unwrap();
    let (w, h, b, data) = reference(&bytes);
    assert_eq!((out.width(), out.height(), out.bytes_per_pixel()), (w, h, b));
    assert_eq!(out.as_bytes(), &data[..]);
}

#[test]
fn malformed_exif_block_fails_the_load() {
    // A present-but-truncated EXIF block is a hard stop even though the pixels
    // decode: a TIFF header cut short inside the APP1 segment.
    let mut segment: Vec<u8> = vec![0xFF, 0xE1, 0x00, 0x0C];
    segment.extend_from_slice(b"Exif\x00\x00");
    segment.extend_from_slice(b"II\x2a\x00");
    let bytes = jpeg_with_segment(4, 2, &segment);
    assert!(image::load_from_memory(&bytes).is_ok(), "pixels must still decode");
    match load_from_memory_with_format(&bytes, ContainerFormat::Jpeg) {
        Err(LoadError::Exif(_)) => {},
        other => panic!("expected an EXIF parse failure, got {:?}", other.map(|b| b.width())),
    }
}

#[test]
fn orientation_six_rotates_clockwise_and_swaps_dimensions() {
    let bytes = jpeg_with_segment(4, 2, &exif_app1(6));
    let (w, h, b, data) = reference(&bytes);
    assert_eq!((w, h), (4, 2));
    let out = load_from_memory_with_format(&bytes, ContainerFormat::Jpeg).unwrap();
    assert_eq!(out.width(), 2);
    assert_eq!(out.height(), 4);
    assert_eq!(out.bytes_per_pixel(), b);
    // Standard clockwise quarter-turn: output (0, 0) is input (0, height - 1).
    assert_eq!(out_pixel(&out, 0, 0), ref_pixel(w, b, &data, 0, h - 1));
    for y in 0..4 {
        for x in 0..2 {
            assert_eq!(out_pixel(&out, x, y), ref_pixel(w, b, &data, y, 1 - x));
        }
    }
}

#[test]
fn orientation_five_transposes_flip_before_rotation() {
    let bytes = jpeg_with_segment(4, 2, &exif_app1(5));
    let (w, h, b, data) = reference(&bytes);
    assert_eq!((w, h), (4, 2));
    let out = load_from_memory_with_format(&bytes, ContainerFormat::Jpeg).unwrap();
    assert_eq!((out.width(), out.height()), (2, 4));
    // Flip-horizontal then rotate-270 is the transpose: output (x, y) is input
    // (y, x). Rotate-then-flip would give the anti-transpose instead.
    for y in 0..4 {
        for x in 0..2 {
            assert_eq!(out_pixel(&out, x, y), ref_pixel(w, b, &data, y, x));
        }
    }
}

#[test]
fn out_of_range_orientation_fails_with_its_value() {
    let bytes = jpeg_with_segment(4, 2, &exif_app1(9));
    match load_from_memory_with_format(&bytes, ContainerFormat::Jpeg) {
        Err(LoadError::UnknownExifOrientationTag(v)) => assert_eq!(v, 9),
        other => panic!("expected the tag value back, got {:?}", other.map(|b| b.width())),
    }
}

#[test]
fn corrupt_pixel_data_fails_with_decode_error() {
    let bytes = [0xFF, 0xD8, 0xFF, 0x00, 0x01, 0x02];
    match load_from_memory_with_format(&bytes, ContainerFormat::Jpeg) {
        Err(LoadError::Image(_)) => {},
        other => panic!("expected a decode failure, got {:?}", other.map(|b| b.width())),
    }
}

#[test]
fn sniffing_recognizes_png_and_rejects_garbage() {
    let bytes = encoded(3, 2, image::ImageFormat::Png);
    let out = load_from_memory(&bytes).unwrap();
    assert_eq!((out.width(), out.height()), (3, 2));
    match load_from_memory(b"no known signature here") {
        Err(LoadError::FormatUnrecognized) => {},
        other => panic!("expected an unrecognized format, got {:?}", other.map(|b| b.width())),
    }
}

#[test]
fn orientation_one_loads_unchanged() {
    let bytes = jpeg_with_segment(4, 2, &exif_app1(1));
    let out = load_from_memory_with_format(&bytes, ContainerFormat::Jpeg).unwrap();
    let (w, h, b, data) = reference(&bytes);
    assert_eq!((out.width(), out.height(), out.bytes_per_pixel()), (w, h, b));
    assert_eq!(out.as_bytes(), &data[..]);
}
