//! Logical asset identities and the hand-authored source-pixel-region
//! table. The asset bytes themselves are bundled by the program around
//! the library and handed in as plain byte buffers.

use vstd::prelude::*;

use crate::texture::{SourcePixelRegion, SourceTextureRegion, TextureId};

verus! {

// -- fonts

pub const FONT_BIG_SIZE: u32 = 48;

pub const FONT_MEDIUM_SIZE: u32 = 18;

pub const FONT_SMALL_SIZE: u32 = 14;

pub const FONT_ID: &'static str = "FredokaOne-Regular";

pub const GAME_TITLE: &'static str = "StackBoxes!";

// -- audio track messages

pub const AUDIO_MSG_PLAY_TITLE_SCREEN_SONG: &'static str = "../assets/sounds/music/title_screen.ogg";

pub const AUDIO_MSG_PLAY_GAME_SONG: &'static str = "../assets/sounds/music/level_1.ogg";

pub const AUDIO_MSG_PLAY_ENDING_SONG: &'static str = "../assets/sounds/music/ending.ogg";

// -- textures

pub const START_SCREEN_BUTTON_00_ID: &'static str = "../assets/images/ui/PNG/yellow_button04.png";

pub const HERO_TEXTURE_ID: &'static str = "../assets/images/hero.png";

pub const CRATE_TEXTURE_ID: &'static str = "../assets/images/crate.png";

pub const BACKGROUND_3_TEXTURE_ID: &'static str = "../assets/images/background/3.png";

/// The start button's sub-rectangle within its texture.
pub fn start_screen_button_00_tx_str() -> (r: SourceTextureRegion)
    ensures
        r.texture_id.texture_id@ == START_SCREEN_BUTTON_00_ID@,
        r.region == (SourcePixelRegion { bottom_x: 0, bottom_y: 0, width: 190, height: 49 }),
{
    SourceTextureRegion {
        texture_id: TextureId { texture_id: START_SCREEN_BUTTON_00_ID.to_owned() },
        region: SourcePixelRegion { bottom_x: 0, bottom_y: 0, width: 190, height: 49 },
    }
}

/// The hero's normal pose within the hero texture.
pub fn hero_tx_normal_str() -> (r: SourceTextureRegion)
    ensures
        r.texture_id.texture_id@ == HERO_TEXTURE_ID@,
        r.region == (SourcePixelRegion { bottom_x: 0, bottom_y: 64, width: 16, height: 16 }),
{
    SourceTextureRegion {
        texture_id: TextureId { texture_id: HERO_TEXTURE_ID.to_owned() },
        region: SourcePixelRegion { bottom_x: 0, bottom_y: 64, width: 16, height: 16 },
    }
}

/// The crate sprite within the crate texture.
pub fn crate_texture_tx_str() -> (r: SourceTextureRegion)
    ensures
        r.texture_id.texture_id@ == CRATE_TEXTURE_ID@,
        r.region == (SourcePixelRegion { bottom_x: 0, bottom_y: 0, width: 32, height: 32 }),
{
    SourceTextureRegion {
        texture_id: TextureId { texture_id: CRATE_TEXTURE_ID.to_owned() },
        region: SourcePixelRegion { bottom_x: 0, bottom_y: 0, width: 32, height: 32 },
    }
}

/// The full background image.
pub fn background_3_texture_tx_str() -> (r: SourceTextureRegion)
    ensures
        r.texture_id.texture_id@ == BACKGROUND_3_TEXTURE_ID@,
        r.region == (SourcePixelRegion { bottom_x: 0, bottom_y: 0, width: 256, height: 182 }),
{
    SourceTextureRegion {
        texture_id: TextureId { texture_id: BACKGROUND_3_TEXTURE_ID.to_owned() },
        region: SourcePixelRegion { bottom_x: 0, bottom_y: 0, width: 256, height: 182 },
    }
}

} // verus!
