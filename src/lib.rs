//! Image viewer core: the pan/zoom/rotate/flip viewport transform, the
//! checkerboard backdrop, the color analyzer state and a few formatting helpers.
//!
//! All geometry is done in integer fixed point, see [`geometry`].
pub mod checkerboard_pattern;
pub mod color;
pub mod color_analyzer;
pub mod color_name;
pub mod geometry;
pub mod image_directory;
pub mod orientation;
pub mod painter;
pub mod pan_zoom_image;
pub mod settings;
pub mod theme;
pub mod utilities;

pub use utilities::{format_bytes, format_path, num_length};
