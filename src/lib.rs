//! Discovery and download of a tile pyramid served without a manifest.
//!
//! The extents of the pyramid (highest zoom, grid width and height) are found
//! by probing; every decision is made here by verified state machines, while
//! the caller performs the requests they ask for and hands back the outcomes.
use vstd::prelude::*;

pub mod extents;
pub mod fetch;
pub mod gate;
pub mod naming;
pub mod probe;
pub mod stitch;

verus! {

/// Side of a tile in pixels, as handed to the image composer.
pub const TILE_SIDE: u32 = 256;

} // verus!
