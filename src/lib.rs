//! Sub-pixel precision light spot rendering: the integer core.
//!
//! The library keeps the rendered pixel buffer, clips spot bounding boxes
//! to the canvas, composes spot images by saturating addition, registers
//! spots under stable identifiers and exports the image as RAW samples or
//! PNG files.
use vstd::prelude::*;

pub mod bbox;
pub mod container;
pub mod export;
pub mod gamma;
pub mod raster;
pub mod registry;
pub mod window;

pub use crate::bbox::BoundingBox;
pub use crate::export::{EncoderError, ImageFormat};
pub use crate::gamma::GammaCurve8;
pub use crate::raster::{Raster, SpotImage};
pub use crate::registry::{SpotId, SpotRegistry};
pub use crate::window::Window;

verus! {

/// Image pixel value type: 16-bit pixels.
pub type Pixel = u16;

} // verus!
