//! Render data for one frame: everything that should be drawn.

use vstd::prelude::*;

use crate::font::{FontInstanceId, Text};
use crate::texture::TextureInstanceId;

verus! {

/// All data that is needed to draw one frame. The texture system is
/// keyed by texture ids. Recreated on every frame.
pub struct FrameRenderData<'a> {
    pub fonts: Vec<(FontInstanceId, Text<'a>)>,
    pub textures: Vec<TextureInstanceId>,
    /// Which screen to draw to (currently unused, for compositing screen
    /// effects).
    pub target_screen_texture: &'static str,
}

} // verus!
