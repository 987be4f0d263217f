//! Decode a raster image and normalize its pixel orientation according to the
//! EXIF orientation tag, so that callers receive pixel data already rotated
//! and flipped to match the intended viewing orientation.

pub mod buffer;
pub mod error;
pub mod format;
pub mod pipeline;
pub mod transform;

pub use buffer::Operation;
pub use buffer::PixelBuffer;
pub use error::LoadError;
pub use format::ContainerFormat;
pub use pipeline::load;
pub use pipeline::load_from_memory;
pub use pipeline::load_from_memory_with_format;
pub use transform::resolve;
pub use transform::Transform;
