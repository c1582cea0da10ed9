//! UI actions, invoked from the input / UI module. The closed set of
//! callbacks a rectangle can carry is dispatched here.

use vstd::prelude::*;

use crate::game::GameState;
use crate::input::{CursorIcon, MouseState, WindowState};
use crate::player_state::PlayerState;
use crate::ui::{Ui, UiCallback};

verus! {

/// The window state with only the cursor icon replaced.
pub open spec fn window_state_with_cursor(ws: WindowState, icon: CursorIcon) -> WindowState {
    WindowState {
        mouse_state: MouseState { mouse_cursor_type: icon, ..ws.mouse_state },
        ..ws
    }
}

/// The cursor icon after a callback ran: entering the start button shows
/// the hand, leaving it restores the default, and starting the game
/// restores the default.
pub open spec fn dispatch_cursor_after(cb: UiCallback, gs: GameState, icon: CursorIcon) -> CursorIcon {
    match cb {
        UiCallback::StartGame => match gs {
            GameState::StartMenu => CursorIcon::Default,
            _ => icon,
        },
        UiCallback::StartGameEnter => CursorIcon::Hand,
        UiCallback::StartGameLeave => CursorIcon::Default,
    }
}

/// How a callback transforms the game state: only activating the start
/// button from the menu changes it, into a freshly-defaulted game.
pub open spec fn dispatch_gs_post(cb: UiCallback, gs0: GameState, gs1: GameState, now: u64) -> bool {
    match cb {
        UiCallback::StartGame => match gs0 {
            GameState::StartMenu => gs1 matches GameState::Game(p) && p.initial_spec(now) && p.wf(),
            _ => gs1 == gs0,
        },
        _ => gs1 == gs0,
    }
}

/// Activate the start button: from the menu, starts a fresh game and
/// restores the default cursor; in-game, does nothing.
pub fn start_game(window_state: &mut WindowState, ui: &Ui, game_state: &mut GameState, now: u64) -> (r:
    bool)
    ensures
        r == true,
        dispatch_gs_post(UiCallback::StartGame, *old(game_state), *final(game_state), now),
        *final(window_state) == window_state_with_cursor(
            *old(window_state),
            dispatch_cursor_after(
                UiCallback::StartGame,
                *old(game_state),
                old(window_state).mouse_state.mouse_cursor_type,
            ),
        ),
{
    match game_state {
        GameState::StartMenu => {
            *game_state = GameState::Game(Box::new(PlayerState::new(now)));
            window_state.mouse_state.mouse_cursor_type = CursorIcon::Default;
        },
        _ => {},
    }
    true
}

/// Called when the mouse enters the start button: shows the hand cursor.
pub fn start_game_enter(window_state: &mut WindowState, ui: &Ui, game_state: &mut GameState, now: u64) -> (r:
    bool)
    ensures
        r == true,
        *final(game_state) == *old(game_state),
        *final(window_state) == window_state_with_cursor(*old(window_state), CursorIcon::Hand),
{
    window_state.mouse_state.mouse_cursor_type = CursorIcon::Hand;
    true
}

/// Called when the mouse leaves the start button: restores the default
/// cursor.
pub fn start_game_leave(window_state: &mut WindowState, ui: &Ui, game_state: &mut GameState, now: u64) -> (r:
    bool)
    ensures
        r == true,
        *final(game_state) == *old(game_state),
        *final(window_state) == window_state_with_cursor(*old(window_state), CursorIcon::Default),
{
    window_state.mouse_state.mouse_cursor_type = CursorIcon::Default;
    true
}

/// Runs one UI callback against the window and game state.
pub fn dispatch_ui_callback(
    cb: UiCallback,
    window_state: &mut WindowState,
    ui: &Ui,
    game_state: &mut GameState,
    now: u64,
) -> (r: bool)
    ensures
        r == true,
        dispatch_gs_post(cb, *old(game_state), *final(game_state), now),
        *final(window_state) == window_state_with_cursor(
            *old(window_state),
            dispatch_cursor_after(
                cb,
                *old(game_state),
                old(window_state).mouse_state.mouse_cursor_type,
            ),
        ),
{
    match cb {
        UiCallback::StartGame => start_game(window_state, ui, game_state, now),
        UiCallback::StartGameEnter => start_game_enter(window_state, ui, game_state, now),
        UiCallback::StartGameLeave => start_game_leave(window_state, ui, game_state, now),
    }
}

} // verus!
