//! The rules of a map tile engine, verified: pixel windows and their
//! intersection, XYZ tile addressing, the planning of a boundless read of a
//! raster, the assembly and styling of the pixels of a tile, hex colours, the
//! checks made when a map is registered, and the decisions of the tile
//! endpoint.
//!
//! Pixel values, colours and geotransforms are type parameters: no rule
//! here computes with one. Reading datasets, projecting coordinates and
//! interpolating colours are left to the program that uses the library.
use vstd::prelude::*;

pub mod affine;
pub mod assemble;
pub mod colour;
pub mod dispatch;
pub mod errors;
pub mod mercator;
pub mod pixels;
pub mod raster;
pub mod registry;
pub mod tiles;
pub mod vector;
pub mod windows;

verus! {

/// Maximum zoom level supported.
pub const MAXZOOMLEVEL: u32 = 32;

/// Side of a tile in pixels.
pub const TILE_SIZE: usize = 256;

/// True iff `ext` names a tile format that can be requested (only PNG is).
pub open spec fn is_supported_format(ext: Seq<char>) -> bool {
    ext == "png"@
}

} // verus!
