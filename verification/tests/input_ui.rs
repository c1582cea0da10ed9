//! Tests of hit-testing, UI actions, and the event reducer.

use stackboxes::actions::dispatch_ui_callback;
use stackboxes::game::{layout_start_menu_ui, GameState};
use stackboxes::input::{
    check_point_in_rect, mouse_click_action, mouse_move_action, CursorIcon, ElementState, Event,
    GameInputEvent, Key, MouseButton, WindowState,
};
use stackboxes::ui::{Ui, UiActions, UiCallback, UiRect, UiRendererData};

fn plain_rect(x: [i64; 4], y: [i64; 4], actions: UiActions) -> UiRect<UiRendererData> {
    UiRect {
        x,
        y,
        data: Box::new(UiRendererData {
            tag: None,
            color: None,
            image: None,
            text: None,
            actions,
        }),
    }
}

// corners in order: top-left, top-right, bottom-left, bottom-right
fn button_rect(actions: UiActions) -> UiRect<UiRendererData> {
    plain_rect([100, 200, 100, 200], [150, 150, 50, 50], actions)
}

#[test]
fn point_strictly_inside_is_hit() {
    let rect = button_rect(UiActions::empty());
    assert!(check_point_in_rect(150, 100, &rect));
}

#[test]
fn points_on_edges_are_not_hit() {
    let rect = button_rect(UiActions::empty());
    // exactly on the left, right, bottom, and top edge
    assert!(!check_point_in_rect(100, 100, &rect));
    assert!(!check_point_in_rect(200, 100, &rect));
    assert!(!check_point_in_rect(150, 50, &rect));
    assert!(!check_point_in_rect(150, 150, &rect));
    // corner
    assert!(!check_point_in_rect(100, 150, &rect));
}

#[test]
fn point_outside_is_not_hit() {
    let rect = button_rect(UiActions::empty());
    assert!(!check_point_in_rect(99, 100, &rect));
    assert!(!check_point_in_rect(150, 151, &rect));
}

#[test]
fn moving_into_rect_fires_enter_only_once() {
    let actions = UiActions {
        onmouseup: None,
        onmouseenter: Some(UiCallback::StartGameEnter),
        onmouseleave: Some(UiCallback::StartGameLeave),
    };
    let ui = Ui { rectangles: vec![button_rect(actions)] };
    // outside -> inside: exactly the enter callback fires
    let action = mouse_move_action(&ui, 150, 100, 0, 0);
    assert_eq!(action, Some((0, UiCallback::StartGameEnter)));
    // inside -> outside: exactly the leave callback fires
    let action = mouse_move_action(&ui, 0, 0, 150, 100);
    assert_eq!(action, Some((0, UiCallback::StartGameLeave)));
    // no crossing: nothing fires
    assert_eq!(mouse_move_action(&ui, 120, 100, 150, 100), None);
    assert_eq!(mouse_move_action(&ui, 0, 0, 5, 5), None);
}

#[test]
fn click_hits_first_rect_with_handler() {
    let silent = button_rect(UiActions::empty());
    let with_up = button_rect(UiActions {
        onmouseup: Some(UiCallback::StartGame),
        onmouseenter: None,
        onmouseleave: None,
    });
    let ui = Ui { rectangles: vec![silent, with_up] };
    // the first containing rect without a handler does not swallow the click
    assert_eq!(mouse_click_action(&ui, 150, 100), Some((1, UiCallback::StartGame)));
    assert_eq!(mouse_click_action(&ui, 0, 0), None);
}

#[test]
fn start_menu_ui_has_tagged_button() {
    let gs = GameState::StartMenu;
    let ui = gs.get_ui();
    assert_eq!(ui.rectangles.len(), 1);
    let data = &ui.rectangles[0].data;
    assert_eq!(
        data.tag.as_deref(),
        Some(stackboxes::assets::START_SCREEN_BUTTON_00_ID)
    );
    assert_eq!(data.actions.onmouseup, Some(UiCallback::StartGame));
    assert_eq!(data.actions.onmouseenter, Some(UiCallback::StartGameEnter));
    assert_eq!(data.actions.onmouseleave, Some(UiCallback::StartGameLeave));
}

#[test]
fn game_ui_is_empty() {
    let gs = GameState::Game(Box::new(stackboxes::player_state::PlayerState::new(0)));
    assert_eq!(gs.get_ui().rectangles.len(), 0);
}

#[test]
fn layout_centers_start_button() {
    let gs = GameState::StartMenu;
    let mut ui = gs.get_ui();
    let found = layout_start_menu_ui(&mut ui, 800, 600);
    assert!(found);
    let rect = &ui.rectangles[0];
    assert_eq!(rect.x, [305, 495, 305, 495]);
    assert_eq!(rect.y, [325, 325, 276, 276]);
    let image = rect.data.image.as_ref().unwrap();
    assert_eq!(image.target_texture_region.screen_bottom_x, 305);
    assert_eq!(image.target_texture_region.screen_bottom_y, 276);
    assert_eq!(image.target_texture_region.screen_width, 190);
    assert_eq!(image.target_texture_region.screen_height, 49);
}

#[test]
fn layout_without_tag_reports_missing() {
    let mut ui = Ui { rectangles: vec![] };
    assert!(!layout_start_menu_ui(&mut ui, 800, 600));
}

#[test]
fn get_mut_rect_by_tag_finds_tagged_rect() {
    let gs = GameState::StartMenu;
    let mut ui = gs.get_ui();
    let rect = ui.get_mut_rect_by_tag(stackboxes::assets::START_SCREEN_BUTTON_00_ID);
    rect.x = [1, 2, 1, 2];
    assert_eq!(ui.rectangles[0].x, [1, 2, 1, 2]);
}

#[test]
fn click_on_start_button_starts_game() {
    // Scenario: the menu is shown, the button has its on-screen geometry,
    // and a pointer-up at the button's exact center starts a fresh game.
    let mut gs = GameState::StartMenu;
    let mut ui = gs.get_ui();
    assert!(layout_start_menu_ui(&mut ui, 800, 600));
    let mut ws = WindowState::new(800, 600, 0);

    // move the pointer to the window center; (400, 300) is stored as
    // (400, 600 - 300) and crosses into the button, firing its enter
    // action, which shows the hand cursor
    let now = 20_000_000;
    let (open, events) = ws.handle_event(&Event::MouseMoved(400, 300), &ui, &mut gs, now);
    assert!(open);
    assert!(events.is_empty());
    assert_eq!(ws.mouse_state.mouse_cursor_type, CursorIcon::Hand);
    assert_eq!(ws.mouse_state.mouse_cursor, Some((400, 300)));

    // release the left button: the stored position hits the button and
    // the game starts with a freshly-defaulted player
    let (open, _) = ws.handle_event(
        &Event::MouseInput(ElementState::Released, MouseButton::Left),
        &ui,
        &mut gs,
        now + 1_000_000,
    );
    assert!(open);
    match gs {
        GameState::Game(player) => {
            assert_eq!(player.highscore, 0);
            assert!(player.player_carrying_crate.is_none());
            assert!(!player.player_wants_box);
        },
        GameState::StartMenu => panic!("expected the game to start"),
    }
    assert_eq!(ws.mouse_state.mouse_cursor_type, CursorIcon::Default);
}

#[test]
fn close_event_reports_window_closed() {
    let mut gs = GameState::StartMenu;
    let ui = Ui { rectangles: vec![] };
    let mut ws = WindowState::new(800, 600, 0);
    let (open, events) = ws.handle_event(&Event::Closed, &ui, &mut gs, 1_000_000);
    assert!(!open);
    assert!(events.is_empty());
}

#[test]
fn held_keys_translate_to_events_in_game_only() {
    let ui = Ui { rectangles: vec![] };
    let mut ws = WindowState::new(800, 600, 0);

    // in the menu, key presses produce no semantic events
    let mut gs = GameState::StartMenu;
    let (_, events) = ws.handle_event(
        &Event::KeyboardInput(ElementState::Pressed, Some(Key::W)),
        &ui,
        &mut gs,
        1_000_000,
    );
    assert!(events.is_empty());

    // in the game, each mapped key yields its event
    let mut gs = GameState::Game(Box::new(stackboxes::player_state::PlayerState::new(0)));
    let (_, events) = ws.handle_event(
        &Event::KeyboardInput(ElementState::Pressed, Some(Key::D)),
        &ui,
        &mut gs,
        2_000_000,
    );
    assert_eq!(events, vec![GameInputEvent::PlayerGoRight]);

    let (_, events) = ws.handle_event(
        &Event::KeyboardInput(ElementState::Pressed, Some(Key::Space)),
        &ui,
        &mut gs,
        3_000_000,
    );
    assert_eq!(events, vec![GameInputEvent::PlayerJump]);

    let (_, events) = ws.handle_event(
        &Event::KeyboardInput(ElementState::Pressed, Some(Key::S)),
        &ui,
        &mut gs,
        4_000_000,
    );
    assert_eq!(events, vec![GameInputEvent::PlayerTakeBox]);

    // an unmapped key yields nothing
    let (_, events) = ws.handle_event(
        &Event::KeyboardInput(ElementState::Pressed, Some(Key::Other)),
        &ui,
        &mut gs,
        5_000_000,
    );
    assert!(events.is_empty());
}

#[test]
fn duplicate_press_is_not_double_counted() {
    let ui = Ui { rectangles: vec![] };
    let mut ws = WindowState::new(800, 600, 0);
    let mut gs = GameState::Game(Box::new(stackboxes::player_state::PlayerState::new(0)));

    // two presses of the same key in one frame: the held set is
    // idempotent, so only one event comes out of the second handle call
    ws.keyboard_state.modifiers.push(Key::A);
    let (_, events) = ws.handle_event(
        &Event::KeyboardInput(ElementState::Pressed, Some(Key::A)),
        &ui,
        &mut gs,
        1_000_000,
    );
    assert_eq!(events, vec![GameInputEvent::PlayerGoLeft]);
}

#[test]
fn release_removes_exact_key() {
    let ui = Ui { rectangles: vec![] };
    let mut ws = WindowState::new(800, 600, 0);
    let mut gs = GameState::Game(Box::new(stackboxes::player_state::PlayerState::new(0)));

    ws.keyboard_state.modifiers.push(Key::A);
    ws.keyboard_state.modifiers.push(Key::D);
    let (_, events) = ws.handle_event(
        &Event::KeyboardInput(ElementState::Released, Some(Key::A)),
        &ui,
        &mut gs,
        1_000_000,
    );
    assert_eq!(events, vec![GameInputEvent::PlayerGoRight]);
}

#[test]
fn pointer_move_within_frame_interval_is_ignored() {
    let ui = Ui { rectangles: vec![] };
    let mut ws = WindowState::new(800, 600, 0);
    let mut gs = GameState::StartMenu;
    // 10 ms after the last update: below the 16 ms debounce interval
    let (open, _) = ws.handle_event(&Event::MouseMoved(123, 45), &ui, &mut gs, 10_000_000);
    assert!(open);
    assert_eq!(ws.mouse_state.mouse_cursor, Some((0, 0)));
    // 20 ms after: accepted and stored flipped to y-up
    let (_, _) = ws.handle_event(&Event::MouseMoved(123, 45), &ui, &mut gs, 20_000_000);
    assert_eq!(ws.mouse_state.mouse_cursor, Some((123, 600 - 45)));
}

#[test]
fn focus_loss_clears_cursor_position() {
    let ui = Ui { rectangles: vec![] };
    let mut ws = WindowState::new(800, 600, 0);
    let mut gs = GameState::StartMenu;
    ws.handle_event(&Event::Focused(false), &ui, &mut gs, 1_000_000);
    assert_eq!(ws.mouse_state.mouse_cursor, None);
    ws.handle_event(&Event::Focused(true), &ui, &mut gs, 2_000_000);
    assert_eq!(ws.mouse_state.mouse_cursor, None);
}

#[test]
fn resize_updates_window_dimensions() {
    let ui = Ui { rectangles: vec![] };
    let mut ws = WindowState::new(800, 600, 0);
    let mut gs = GameState::StartMenu;
    ws.handle_event(&Event::Resized(1024, 768), &ui, &mut gs, 1_000_000);
    assert_eq!(ws.width, 1024);
    assert_eq!(ws.height, 768);
}

#[test]
fn mouse_buttons_track_press_state() {
    let ui = Ui { rectangles: vec![] };
    let mut ws = WindowState::new(800, 600, 0);
    let mut gs = GameState::StartMenu;
    ws.handle_event(
        &Event::MouseInput(ElementState::Pressed, MouseButton::Left),
        &ui,
        &mut gs,
        1_000_000,
    );
    assert!(ws.mouse_state.left_down);
    ws.handle_event(
        &Event::MouseInput(ElementState::Released, MouseButton::Left),
        &ui,
        &mut gs,
        2_000_000,
    );
    assert!(!ws.mouse_state.left_down);
}

#[test]
fn dispatch_enter_and_leave_toggle_cursor() {
    let ui = Ui { rectangles: vec![] };
    let mut ws = WindowState::new(800, 600, 0);
    let mut gs = GameState::StartMenu;
    dispatch_ui_callback(UiCallback::StartGameEnter, &mut ws, &ui, &mut gs, 0);
    assert_eq!(ws.mouse_state.mouse_cursor_type, CursorIcon::Hand);
    dispatch_ui_callback(UiCallback::StartGameLeave, &mut ws, &ui, &mut gs, 0);
    assert_eq!(ws.mouse_state.mouse_cursor_type, CursorIcon::Default);
    assert!(matches!(gs, GameState::StartMenu));
}

#[test]
fn start_game_in_game_mode_changes_nothing() {
    let ui = Ui { rectangles: vec![] };
    let mut ws = WindowState::new(800, 600, 0);
    let mut gs = GameState::Game(Box::new(stackboxes::player_state::PlayerState::new(7)));
    stackboxes::actions::start_game(&mut ws, &ui, &mut gs, 99);
    match gs {
        GameState::Game(player) => assert_eq!(player.last_tick_update, 7),
        GameState::StartMenu => panic!("must stay in game"),
    }
}

#[test]
fn get_song_follows_game_state() {
    let menu = GameState::StartMenu;
    assert_eq!(menu.get_song(), stackboxes::assets::AUDIO_MSG_PLAY_TITLE_SCREEN_SONG);
    let game = GameState::Game(Box::new(stackboxes::player_state::PlayerState::new(0)));
    assert_eq!(game.get_song(), stackboxes::assets::AUDIO_MSG_PLAY_GAME_SONG);
}
