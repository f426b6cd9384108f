//! Turns a raster image into a low-poly mosaic of alternating up and down
//! triangles, each coloured by the nearest source pixel.

pub mod color;
pub mod grid;
pub mod geometry;
pub mod walker;
pub mod decode;
pub mod mosaic;
