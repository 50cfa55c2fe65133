//! Global map tiles in the spherical mercator projection.
use vstd::prelude::*;

verus! {

/// The tile pyramid of the spherical mercator projection.
pub struct GlobalMercator {
    /// Side of a tile in pixels.
    pub tile_size: usize,
}

impl GlobalMercator {
    /// The pyramid with tiles of `tile_size` pixels a side.
    pub fn new(tile_size: usize) -> (m: Self)
        ensures
            m.tile_size == tile_size,
    {
        GlobalMercator { tile_size }
    }
}

impl Default for GlobalMercator {
    /// The pyramid with tiles of 256 pixels a side.
    fn default() -> (m: Self)
        ensures
            m.tile_size == 256,
    {
        Self::new(256)
    }
}

} // verus!
