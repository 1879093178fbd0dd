//! Pixel-buffer operations on image data, colour management, opening image
//! files and the export pipeline's settings.

pub mod adjust;
pub mod color;
pub mod loading;
pub mod pipeline;
pub mod transform;
