//! The 2D camera: world-space origin plus visible screen extent, in pixels.

use vstd::prelude::*;

verus! {

/// World-space camera rectangle. Coordinates are whole pixels; `x`/`y` is
/// the bottom-left corner of the visible region.
#[derive(Debug, Copy, Clone, PartialEq, Eq, Structural)]
pub struct Camera {
    pub x: i64,
    pub y: i64,
    pub screen_width: i64,
    pub screen_height: i64,
}

} // verus!
