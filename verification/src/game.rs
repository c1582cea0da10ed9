//! Top-level game state: which screen is active, the UI it presents, and
//! the music track it asks for.

use vstd::prelude::*;

use crate::assets::{
    AUDIO_MSG_PLAY_GAME_SONG, AUDIO_MSG_PLAY_TITLE_SCREEN_SONG, START_SCREEN_BUTTON_00_ID,
};
use crate::player_state::PlayerState;
use crate::texture::{TargetPixelRegion, TextureInstanceId};
use crate::ui::{first_tag_index, Ui, UiActions, UiCallback, UiRect, UiRendererData};

verus! {

pub const FONT_BIG_ID: &'static str = "font_fredoka_big";

pub const FONT_MEDIUM_ID: &'static str = "font_fredoka_medium";

pub const FONT_SMALL_ID: &'static str = "font_fredoka_small";

pub const TEXTURE_START_GAME_ID: &'static str = "texture_start_game";

pub const TEXTURE_HERO_CHARACTER_ID: &'static str = "texture_hero_character";

pub const TEXTURE_CRATE_ID: &'static str = "texture_crate";

pub const TEXTURE_BACKGROUND_ID: &'static str = "texture_background";

/// Width of the start button, in pixels.
pub const START_BUTTON_WIDTH: i64 = 190;

/// Height of the start button, in pixels.
pub const START_BUTTON_HEIGHT: i64 = 49;

/// What the state of the game currently is: what should be drawn on the
/// screen.
#[derive(Debug, Clone)]
pub enum GameState {
    /// The start menu should be rendered.
    StartMenu,
    /// The in-game state for the player: all the items of the world.
    Game(Box<PlayerState>),
}

impl GameState {
    /// Builds the UI for the current state. The start menu holds exactly
    /// one rectangle, the tagged start button with its three actions; the
    /// in-game screen has no interactive overlay.
    pub fn get_ui(&self) -> (ui: Ui)
        ensures
            match self {
                GameState::StartMenu => {
                    &&& ui.rectangles@.len() == 1
                    &&& ui.rectangles@[0].x@ =~= seq![0i64, 0i64, 0i64, 0i64]
                    &&& ui.rectangles@[0].y@ =~= seq![0i64, 0i64, 0i64, 0i64]
                    &&& ui.rectangles@[0].data.tag matches Some(t) && t@ == START_SCREEN_BUTTON_00_ID@
                    &&& ui.rectangles@[0].data.color is None
                    &&& ui.rectangles@[0].data.image is None
                    &&& ui.rectangles@[0].data.text is None
                    &&& ui.rectangles@[0].data.actions == (UiActions {
                        onmouseup: Some(UiCallback::StartGame),
                        onmouseenter: Some(UiCallback::StartGameEnter),
                        onmouseleave: Some(UiCallback::StartGameLeave),
                    })
                },
                GameState::Game(_) => ui.rectangles@.len() == 0,
            },
    {
        match self {
            GameState::StartMenu => {
                let data = UiRendererData {
                    // important: the start button has a tag, its id
                    tag: Some(START_SCREEN_BUTTON_00_ID.to_owned()),
                    color: None,
                    image: None,
                    text: None,
                    actions: UiActions {
                        onmouseup: Some(UiCallback::StartGame),
                        onmouseenter: Some(UiCallback::StartGameEnter),
                        onmouseleave: Some(UiCallback::StartGameLeave),
                    },
                };
                let rect = UiRect { x: [0i64, 0i64, 0i64, 0i64], y: [0i64, 0i64, 0i64, 0i64], data: Box::new(data) };
                let mut rectangles: Vec<UiRect<UiRendererData>> = Vec::new();
                rectangles.push(rect);
                Ui { rectangles }
            },
            GameState::Game(_) => Ui::empty(),
        }
    }

    /// Which music track the current state asks for.
    pub fn get_song(&self) -> (r: &'static str)
        ensures
            match self {
                GameState::StartMenu => r@ == AUDIO_MSG_PLAY_TITLE_SCREEN_SONG@,
                GameState::Game(_) => r@ == AUDIO_MSG_PLAY_GAME_SONG@,
            },
    {
        match self {
            GameState::StartMenu => AUDIO_MSG_PLAY_TITLE_SCREEN_SONG,
            GameState::Game(_) => AUDIO_MSG_PLAY_GAME_SONG,
        }
    }
}

/// The start button's corners for a window of the given size: the button
/// is centered, up to the one-pixel rounding of integer halving.
pub open spec fn start_button_left(width: u32) -> int {
    width as int / 2 - START_BUTTON_WIDTH / 2
}

pub open spec fn start_button_right(width: u32) -> int {
    start_button_left(width) + START_BUTTON_WIDTH
}

pub open spec fn start_button_bottom(height: u32) -> int {
    height as int / 2 - START_BUTTON_HEIGHT / 2
}

pub open spec fn start_button_top(height: u32) -> int {
    start_button_bottom(height) + START_BUTTON_HEIGHT
}

/// Writes the start button's screen geometry and image into the tagged
/// rectangle of a start-menu UI, leaving everything else as it was.
/// Returns whether the tagged rectangle was found.
pub fn layout_start_menu_ui(ui: &mut Ui, width: u32, height: u32) -> (found: bool)
    requires
        width >= 190,
        height >= 49,
    ensures
        found == (first_tag_index(old(ui).rectangles@, START_SCREEN_BUTTON_00_ID@) is Some),
        !found ==> final(ui).rectangles@ == old(ui).rectangles@,
        found ==> ({
            let i = first_tag_index(old(ui).rectangles@, START_SCREEN_BUTTON_00_ID@).unwrap();
            let old_r = old(ui).rectangles@[i];
            let new_r = final(ui).rectangles@[i];
            &&& final(ui).rectangles@.len() == old(ui).rectangles@.len()
            &&& (forall|j: int|
                0 <= j < old(ui).rectangles@.len() && j != i ==> final(ui).rectangles@[j] == old(
                    ui,
                ).rectangles@[j])
            &&& new_r.x@ =~= seq![
                start_button_left(width) as i64,
                start_button_right(width) as i64,
                start_button_left(width) as i64,
                start_button_right(width) as i64,
            ]
            &&& new_r.y@ =~= seq![
                start_button_top(height) as i64,
                start_button_top(height) as i64,
                start_button_bottom(height) as i64,
                start_button_bottom(height) as i64,
            ]
            &&& new_r.data.tag == old_r.data.tag
            &&& new_r.data.actions == old_r.data.actions
            &&& new_r.data.color == old_r.data.color
            &&& new_r.data.text == old_r.data.text
            &&& (new_r.data.image matches Some(img) && {
                &&& img.source_texture_region.texture_id.texture_id@ == START_SCREEN_BUTTON_00_ID@
                &&& img.source_texture_region.region == (crate::texture::SourcePixelRegion {
                    bottom_x: 0,
                    bottom_y: 0,
                    width: 190,
                    height: 49,
                })
                &&& img.target_texture_region == (TargetPixelRegion {
                    screen_bottom_x: start_button_left(width) as u32,
                    screen_bottom_y: start_button_bottom(height) as u32,
                    screen_width: 190u32,
                    screen_height: 49u32,
                })
            })
        }),
{
    let idx_opt = ui.find_rect_by_tag(START_SCREEN_BUTTON_00_ID);
    match idx_opt {
        Some(i) => {
            let half_w: u32 = width / 2;
            let half_h: u32 = height / 2;
            let left: i64 = half_w as i64 - START_BUTTON_WIDTH / 2;
            let right: i64 = left + START_BUTTON_WIDTH;
            let bottom: i64 = half_h as i64 - START_BUTTON_HEIGHT / 2;
            let top: i64 = bottom + START_BUTTON_HEIGHT;
            let target = TargetPixelRegion {
                screen_bottom_x: left as u32,
                screen_bottom_y: bottom as u32,
                screen_width: 190,
                screen_height: 49,
            };
            let image = TextureInstanceId {
                source_texture_region: crate::assets::start_screen_button_00_tx_str(),
                target_texture_region: target,
            };
            let rect = &mut ui.rectangles[i];
            rect.x = [left, right, left, right];
            rect.y = [top, top, bottom, bottom];
            rect.data.image = Some(image);
            true
        },
        None => false,
    }
}

} // verus!
