//! Rendering of raster images as grids of colored terminal cells.
//!
//! A bitmap is scaled to the terminal, then every two stacked pixel rows
//! become one text line of lower-half-block glyphs: the upper pixel is the
//! cell's background, the lower pixel its foreground. Colors are written
//! either as 24-bit escape sequences or as indices into the 6x6x6 color cube
//! of the 256-color palette.

pub mod bitmap;
pub mod color;
pub mod error;
pub mod loader;
pub mod pipeline;
pub mod planner;
pub mod render;
pub mod resample;
pub mod source;
