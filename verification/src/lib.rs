//! Rendering engine for a 4-bit grayscale electrophoretic display panel.
//!
//! Drawing happens in portrait ("logical") coordinates, 540 columns by 960
//! rows, while the panel scans out a landscape framebuffer of 960 columns by
//! 540 rows, two pixels packed per byte.  The [`codec`] module holds the
//! coordinate rotation and the nibble packing, [`raster`] the geometric
//! primitives (lines, rectangles, circles, triangles), [`shapes`] the
//! parametric weather shapes, [`icons`] the composed weather icons,
//! [`weather`] the weather-condition codes with their icon selection and
//! the wind-direction labels, and [`glyph`] the placement of rasterized
//! glyph coverage data.

pub mod codec;
pub mod raster;
pub mod shapes;
pub mod icons;
pub mod weather;
pub mod glyph;
pub mod page;
