//! Input handling: raw window events, persistent keyboard and mouse state,
//! UI hit-testing, and the translation of held keys into semantic game
//! input events.

use vstd::prelude::*;

use crate::actions::{
    dispatch_cursor_after, dispatch_gs_post, dispatch_ui_callback, window_state_with_cursor,
};
use crate::game::GameState;
use crate::ui::{Ui, UiCallback, UiRect, UiRendererData};

verus! {

/// A semantic game action derived from raw platform input, decoupled from
/// specific key bindings.
#[derive(Debug, Copy, Clone, PartialEq, Eq, Structural)]
pub enum GameInputEvent {
    PlayerJump,
    PlayerGoLeft,
    PlayerGoRight,
    PlayerTakeBox,
}

/// The keys the game reads, plus a catch-all for every other key.
#[derive(Debug, Copy, Clone, PartialEq, Eq, Structural)]
pub enum Key {
    W,
    A,
    S,
    D,
    Space,
    Up,
    Down,
    Left,
    Right,
    Other,
}

/// The two cursor icons the game uses.
#[derive(Debug, Copy, Clone, PartialEq, Eq, Structural)]
pub enum CursorIcon {
    Default,
    Hand,
}

/// Whether a key or button went down or up.
#[derive(Debug, Copy, Clone, PartialEq, Eq, Structural)]
pub enum ElementState {
    Pressed,
    Released,
}

/// Which mouse button an input event concerns.
#[derive(Debug, Copy, Clone, PartialEq, Eq, Structural)]
pub enum MouseButton {
    Left,
    Right,
    Middle,
    Other,
}

/// A raw platform event, already mapped to plain values by the window
/// layer around the library.
#[derive(Debug, Copy, Clone, PartialEq, Eq, Structural)]
pub enum Event {
    /// The window was closed.
    Closed,
    /// The pointer moved to (x, y), in window coordinates with y growing
    /// downward.
    MouseMoved(i32, i32),
    /// A key went down or up.
    KeyboardInput(ElementState, Option<Key>),
    /// A mouse button went down or up.
    MouseInput(ElementState, MouseButton),
    /// The window was resized.
    Resized(u32, u32),
    /// The window gained or lost focus.
    Focused(bool),
    /// Any other platform event; ignored.
    Other,
}

/// Determines which keys are pressed currently (modifiers, etc.).
#[derive(Debug, Clone)]
pub struct KeyboardState {
    /// Keys that are actively held during this cycle.
    pub modifiers: Vec<Key>,
    /// Hidden keys, such as the "n" in CTRL + n. Always lowercase.
    pub hidden_keys: Vec<char>,
    /// Actual keys pressed during this cycle (regular text input).
    pub keys: Vec<char>,
}

impl KeyboardState {
    pub fn new() -> (r: Self)
        ensures
            r.modifiers@ =~= Seq::<Key>::empty(),
            r.hidden_keys@ =~= Seq::<char>::empty(),
            r.keys@ =~= Seq::<char>::empty(),
    {
        Self { modifiers: Vec::new(), hidden_keys: Vec::new(), keys: Vec::new() }
    }
}

/// Mouse state on the screen.
#[derive(Debug, Copy, Clone, PartialEq, Eq)]
pub struct MouseState {
    /// Current mouse cursor icon.
    pub mouse_cursor_type: CursorIcon,
    /// Where the mouse cursor is; `None` when the window is not focused.
    pub mouse_cursor: Option<(i64, i64)>,
    /// Is the left mouse button down?
    pub left_down: bool,
    /// Is the right mouse button down?
    pub right_down: bool,
    /// Is the middle mouse button down?
    pub middle_down: bool,
    /// How far the mouse has scrolled in x direction.
    pub mouse_scroll_x: i64,
    /// How far the mouse has scrolled in y direction.
    pub mouse_scroll_y: i64,
}

impl MouseState {
    /// Creates a new mouse state.
    pub fn new() -> (r: Self)
        ensures
            r == (MouseState {
                mouse_cursor_type: CursorIcon::Default,
                mouse_cursor: Some((0i64, 0i64)),
                left_down: false,
                right_down: false,
                middle_down: false,
                mouse_scroll_x: 0 as i64,
                mouse_scroll_y: 0 as i64,
            }),
    {
        MouseState {
            mouse_cursor_type: CursorIcon::Default,
            mouse_cursor: Some((0, 0)),
            left_down: false,
            right_down: false,
            middle_down: false,
            mouse_scroll_x: 0,
            mouse_scroll_y: 0,
        }
    }
}

/// State and size of the window, persistent across frames.
#[derive(Debug, Clone)]
pub struct WindowState {
    /// The state of the keyboard.
    pub keyboard_state: KeyboardState,
    /// The state of the mouse.
    pub mouse_state: MouseState,
    /// Width of the window.
    pub width: u32,
    /// Height of the window.
    pub height: u32,
    /// Timestamp, in nanoseconds, of the last accepted update.
    pub time_of_last_update: u64,
    /// Minimum frame time, in nanoseconds.
    pub min_frame_time: u64,
}

/// Nanoseconds of one nominal 60 Hz frame, the pointer-move debounce
/// interval.
pub const MIN_FRAME_TIME_NANOS: u64 = 16_000_000;

impl WindowState {
    /// Creates a new window state; `now` seeds the debounce timer.
    pub fn new(width: u32, height: u32, now: u64) -> (r: Self)
        ensures
            r.keyboard_state.modifiers@ =~= Seq::<Key>::empty(),
            r.keyboard_state.hidden_keys@ =~= Seq::<char>::empty(),
            r.keyboard_state.keys@ =~= Seq::<char>::empty(),
            r.mouse_state == MouseState::new_spec(),
            r.width == width,
            r.height == height,
            r.time_of_last_update == now,
            r.min_frame_time == MIN_FRAME_TIME_NANOS,
    {
        Self {
            keyboard_state: KeyboardState::new(),
            mouse_state: MouseState::new(),
            width,
            height,
            time_of_last_update: now,
            min_frame_time: MIN_FRAME_TIME_NANOS,
        }
    }
}

impl MouseState {
    /// The value `MouseState::new` returns.
    pub open spec fn new_spec() -> MouseState {
        MouseState {
            mouse_cursor_type: CursorIcon::Default,
            mouse_cursor: Some((0i64, 0i64)),
            left_down: false,
            right_down: false,
            middle_down: false,
            mouse_scroll_x: 0 as i64,
            mouse_scroll_y: 0 as i64,
        }
    }
}

/// A point lies in a rectangle iff it lies strictly between the stored
/// top-left and bottom-right corners on both axes; boundary points are
/// never inside.
pub open spec fn point_in_rect(x: int, y: int, rect: UiRect<UiRendererData>) -> bool {
    let left = rect.x[0];
    let top = rect.y[0];
    let right = rect.x[3];
    let bottom = rect.y[3];
    x > left && x < right && y > bottom && y < top
}

/// Executes the strict point-in-rectangle test.
pub fn check_point_in_rect(x: i64, y: i64, rect: &UiRect<UiRendererData>) -> (r: bool)
    ensures
        r == point_in_rect(x as int, y as int, *rect),
{
    // top left, top right, bottom left, bottom right
    let left = rect.x[0];
    let top = rect.y[0];
    let right = rect.x[3];
    let bottom = rect.y[3];
    (x > left) && (x < right) && (y > bottom) && (y < top)
}

/// A point exactly on any edge of the rectangle is not inside it.
pub proof fn lemma_boundary_point_not_inside(x: int, y: int, rect: UiRect<UiRendererData>)
    requires
        x == rect.x[0] || x == rect.x[3] || y == rect.y[0] || y == rect.y[3],
    ensures
        !point_in_rect(x, y, rect),
{
}

/// The pointer-move action of a rectangle list: the index and callback of
/// the first rectangle whose containment status changed between the old
/// and new pointer position and which carries the matching handler —
/// `onmouseenter` when the pointer is now inside, `onmouseleave` when it
/// left.
pub open spec fn move_action(
    rects: Seq<UiRect<UiRendererData>>,
    x: int,
    y: int,
    old_x: int,
    old_y: int,
) -> Option<(int, UiCallback)>
    decreases rects.len(),
{
    if rects.len() == 0 {
        None
    } else {
        let was_in = point_in_rect(old_x, old_y, rects[0]);
        let is_in = point_in_rect(x, y, rects[0]);
        if is_in != was_in && is_in && rects[0].data.actions.onmouseenter is Some {
            Some((0int, rects[0].data.actions.onmouseenter.unwrap()))
        } else if is_in != was_in && !is_in && rects[0].data.actions.onmouseleave is Some {
            Some((0int, rects[0].data.actions.onmouseleave.unwrap()))
        } else {
            match move_action(rects.drop_first(), x, y, old_x, old_y) {
                Some((i, cb)) => Some((i + 1, cb)),
                None => None,
            }
        }
    }
}

/// Whether a rectangle reacts to a move from the old to the new position.
pub open spec fn rect_fires_on_move(
    rect: UiRect<UiRendererData>,
    x: int,
    y: int,
    old_x: int,
    old_y: int,
) -> bool {
    let was_in = point_in_rect(old_x, old_y, rect);
    let is_in = point_in_rect(x, y, rect);
    ||| (is_in != was_in && is_in && rect.data.actions.onmouseenter is Some)
    ||| (is_in != was_in && !is_in && rect.data.actions.onmouseleave is Some)
}

pub proof fn lemma_move_action_some(
    rects: Seq<UiRect<UiRendererData>>,
    x: int,
    y: int,
    old_x: int,
    old_y: int,
    i: int,
    cb: UiCallback,
)
    requires
        0 <= i < rects.len(),
        rect_fires_on_move(rects[i], x, y, old_x, old_y),
        ({
            let was_in = point_in_rect(old_x, old_y, rects[i]);
            let is_in = point_in_rect(x, y, rects[i]);
            if is_in {
                rects[i].data.actions.onmouseenter == Some(cb)
            } else {
                rects[i].data.actions.onmouseleave == Some(cb)
            }
        }),
        forall|j: int| 0 <= j < i ==> !rect_fires_on_move(#[trigger] rects[j], x, y, old_x, old_y),
    ensures
        move_action(rects, x, y, old_x, old_y) == Some((i, cb)),
    decreases rects.len(),
{
    if i > 0 {
        lemma_move_action_some(rects.drop_first(), x, y, old_x, old_y, i - 1, cb);
    }
}

pub proof fn lemma_move_action_none(
    rects: Seq<UiRect<UiRendererData>>,
    x: int,
    y: int,
    old_x: int,
    old_y: int,
)
    requires
        forall|j: int|
            0 <= j < rects.len() ==> !rect_fires_on_move(#[trigger] rects[j], x, y, old_x, old_y),
    ensures
        move_action(rects, x, y, old_x, old_y) is None,
    decreases rects.len(),
{
    if rects.len() > 0 {
        lemma_move_action_none(rects.drop_first(), x, y, old_x, old_y);
    }
}

/// Moving from a point outside a rectangle to a point inside it fires the
/// rectangle's `onmouseenter` handler, and only that one; reversing the
/// two positions fires `onmouseleave`, and only that one.
pub proof fn lemma_enter_leave_edge_trigger(
    rect: UiRect<UiRendererData>,
    outside_x: int,
    outside_y: int,
    inside_x: int,
    inside_y: int,
)
    requires
        !point_in_rect(outside_x, outside_y, rect),
        point_in_rect(inside_x, inside_y, rect),
        rect.data.actions.onmouseenter is Some,
        rect.data.actions.onmouseleave is Some,
    ensures
        move_action(seq![rect], inside_x, inside_y, outside_x, outside_y) == Some(
            (0int, rect.data.actions.onmouseenter.unwrap()),
        ),
        move_action(seq![rect], outside_x, outside_y, inside_x, inside_y) == Some(
            (0int, rect.data.actions.onmouseleave.unwrap()),
        ),
{
    assert(seq![rect][0] == rect);
}

/// Finds the pointer-move action of a UI, scanning the rectangles in
/// order; the first rectangle that reacts wins.
pub fn mouse_move_action(ui: &Ui, x: i64, y: i64, old_x: i64, old_y: i64) -> (r: Option<
    (usize, UiCallback),
>)
    ensures
        match r {
            Some((i, cb)) => i < ui.rectangles@.len() && move_action(
                ui.rectangles@,
                x as int,
                y as int,
                old_x as int,
                old_y as int,
            ) == Some((i as int, cb)),
            None => move_action(ui.rectangles@, x as int, y as int, old_x as int, old_y as int)
                is None,
        },
{
    let mut i: usize = 0;
    while i < ui.rectangles.len()
        invariant
            0 <= i <= ui.rectangles.len(),
            forall|j: int|
                0 <= j < i ==> !rect_fires_on_move(
                    #[trigger] ui.rectangles@[j],
                    x as int,
                    y as int,
                    old_x as int,
                    old_y as int,
                ),
        decreases ui.rectangles.len() - i,
    {
        let rect = &ui.rectangles[i];
        let was_in = check_point_in_rect(old_x, old_y, rect);
        let is_in = check_point_in_rect(x, y, rect);
        if is_in != was_in {
            if is_in {
                match rect.data.actions.onmouseenter {
                    Some(cb) => {
                        proof {
                            lemma_move_action_some(
                                ui.rectangles@,
                                x as int,
                                y as int,
                                old_x as int,
                                old_y as int,
                                i as int,
                                cb,
                            );
                        }
                        return Some((i, cb));
                    },
                    None => {},
                }
            } else {
                match rect.data.actions.onmouseleave {
                    Some(cb) => {
                        proof {
                            lemma_move_action_some(
                                ui.rectangles@,
                                x as int,
                                y as int,
                                old_x as int,
                                old_y as int,
                                i as int,
                                cb,
                            );
                        }
                        return Some((i, cb));
                    },
                    None => {},
                }
            }
        }
        proof {
            assert(!rect_fires_on_move(
                ui.rectangles@[i as int],
                x as int,
                y as int,
                old_x as int,
                old_y as int,
            ));
        }
        i = i + 1;
    }
    proof {
        lemma_move_action_none(ui.rectangles@, x as int, y as int, old_x as int, old_y as int);
    }
    None
}

/// The mouse-up action of a rectangle list: the index and callback of the
/// first rectangle containing the point that carries an `onmouseup`
/// handler.
pub open spec fn click_action(rects: Seq<UiRect<UiRendererData>>, x: int, y: int) -> Option<
    (int, UiCallback),
>
    decreases rects.len(),
{
    if rects.len() == 0 {
        None
    } else if point_in_rect(x, y, rects[0]) && rects[0].data.actions.onmouseup is Some {
        Some((0int, rects[0].data.actions.onmouseup.unwrap()))
    } else {
        match click_action(rects.drop_first(), x, y) {
            Some((i, cb)) => Some((i + 1, cb)),
            None => None,
        }
    }
}

/// Whether a rectangle reacts to a mouse-up at the given point.
pub open spec fn rect_fires_on_click(rect: UiRect<UiRendererData>, x: int, y: int) -> bool {
    point_in_rect(x, y, rect) && rect.data.actions.onmouseup is Some
}

pub proof fn lemma_click_action_some(
    rects: Seq<UiRect<UiRendererData>>,
    x: int,
    y: int,
    i: int,
)
    requires
        0 <= i < rects.len(),
        rect_fires_on_click(rects[i], x, y),
        forall|j: int| 0 <= j < i ==> !rect_fires_on_click(#[trigger] rects[j], x, y),
    ensures
        click_action(rects, x, y) == Some((i, rects[i].data.actions.onmouseup.unwrap())),
    decreases rects.len(),
{
    if i > 0 {
        lemma_click_action_some(rects.drop_first(), x, y, i - 1);
    }
}

pub proof fn lemma_click_action_none(rects: Seq<UiRect<UiRendererData>>, x: int, y: int)
    requires
        forall|j: int| 0 <= j < rects.len() ==> !rect_fires_on_click(#[trigger] rects[j], x, y),
    ensures
        click_action(rects, x, y) is None,
    decreases rects.len(),
{
    if rects.len() > 0 {
        lemma_click_action_none(rects.drop_first(), x, y);
    }
}

/// Finds the mouse-up action of a UI at the given point, scanning the
/// rectangles in order; the first rectangle that reacts wins.
pub fn mouse_click_action(ui: &Ui, x: i64, y: i64) -> (r: Option<(usize, UiCallback)>)
    ensures
        match r {
            Some((i, cb)) => i < ui.rectangles@.len() && click_action(
                ui.rectangles@,
                x as int,
                y as int,
            ) == Some((i as int, cb)),
            None => click_action(ui.rectangles@, x as int, y as int) is None,
        },
{
    let mut i: usize = 0;
    while i < ui.rectangles.len()
        invariant
            0 <= i <= ui.rectangles.len(),
            forall|j: int|
                0 <= j < i ==> !rect_fires_on_click(#[trigger] ui.rectangles@[j], x as int, y as int),
        decreases ui.rectangles.len() - i,
    {
        let rect = &ui.rectangles[i];
        if check_point_in_rect(x, y, rect) {
            match rect.data.actions.onmouseup {
                Some(cb) => {
                    proof {
                        lemma_click_action_some(ui.rectangles@, x as int, y as int, i as int);
                    }
                    return Some((i, cb));
                },
                None => {},
            }
        }
        proof {
            assert(!rect_fires_on_click(ui.rectangles@[i as int], x as int, y as int));
        }
        i = i + 1;
    }
    proof {
        lemma_click_action_none(ui.rectangles@, x as int, y as int);
    }
    None
}

/// The semantic event one held key produces, if any.
pub open spec fn key_event(k: Key) -> Option<GameInputEvent> {
    match k {
        Key::W => Some(GameInputEvent::PlayerJump),
        Key::Space => Some(GameInputEvent::PlayerJump),
        Key::Up => Some(GameInputEvent::PlayerJump),
        Key::A => Some(GameInputEvent::PlayerGoLeft),
        Key::Left => Some(GameInputEvent::PlayerGoLeft),
        Key::D => Some(GameInputEvent::PlayerGoRight),
        Key::Right => Some(GameInputEvent::PlayerGoRight),
        Key::S => Some(GameInputEvent::PlayerTakeBox),
        Key::Down => Some(GameInputEvent::PlayerTakeBox),
        Key::Other => None,
    }
}

/// The ordered semantic events that a held-key list produces.
pub open spec fn events_for_keys(keys: Seq<Key>) -> Seq<GameInputEvent>
    decreases keys.len(),
{
    if keys.len() == 0 {
        Seq::empty()
    } else {
        events_for_keys(keys.drop_last()) + match key_event(keys.last()) {
            Some(e) => seq![e],
            None => Seq::empty(),
        }
    }
}

/// The held-key list after one key went down or up: a press adds the key
/// only when it is not yet held, a release removes the first held copy.
pub open spec fn modifiers_after_vk(s: Seq<Key>, state: ElementState, vk: Option<Key>) -> Seq<
    Key,
> {
    match vk {
        None => s,
        Some(k) => match state {
            ElementState::Pressed => if s.contains(k) {
                s
            } else {
                s.push(k)
            },
            ElementState::Released => remove_first_key(s, k),
        },
    }
}

/// The list with the first occurrence of `k` removed.
pub open spec fn remove_first_key(s: Seq<Key>, k: Key) -> Seq<Key>
    decreases s.len(),
{
    if s.len() == 0 {
        s
    } else if s[0] == k {
        s.drop_first()
    } else {
        seq![s[0]] + remove_first_key(s.drop_first(), k)
    }
}

pub proof fn lemma_remove_first_key_at(s: Seq<Key>, k: Key, i: int)
    requires
        0 <= i < s.len(),
        s[i] == k,
        forall|j: int| 0 <= j < i ==> s[j] != k,
    ensures
        remove_first_key(s, k) =~= s.remove(i),
    decreases s.len(),
{
    if i == 0 {
    } else {
        lemma_remove_first_key_at(s.drop_first(), k, i - 1);
        assert(seq![s[0]] + s.drop_first().remove(i - 1) =~= s.remove(i));
    }
}

pub proof fn lemma_remove_first_key_absent(s: Seq<Key>, k: Key)
    requires
        forall|j: int| 0 <= j < s.len() ==> s[j] != k,
    ensures
        remove_first_key(s, k) =~= s,
    decreases s.len(),
{
    if s.len() > 0 {
        lemma_remove_first_key_absent(s.drop_first(), k);
        assert(seq![s[0]] + s.drop_first() =~= s);
    }
}

/// The mouse state after a button event: the matching button flag
/// follows the press state, everything else stays.
pub open spec fn mouse_after_click(ms: MouseState, state: ElementState, button: MouseButton) -> MouseState {
    let down = state is Pressed;
    match button {
        MouseButton::Left => MouseState { left_down: down, ..ms },
        MouseButton::Right => MouseState { right_down: down, ..ms },
        MouseButton::Middle => MouseState { middle_down: down, ..ms },
        MouseButton::Other => ms,
    }
}

/// The stored cursor position, or (-1, -1) when none is stored.
pub open spec fn cursor_or_default(c: Option<(i64, i64)>) -> (i64, i64) {
    match c {
        Some(p) => p,
        None => (-1i64, -1i64),
    }
}

/// The semantic events a frame hands to the simulation: the held keys
/// translated, but only while the game screen is active.
pub open spec fn kb_translated(gs: GameState, mods: Seq<Key>) -> Seq<GameInputEvent> {
    match gs {
        GameState::Game(_) => events_for_keys(mods),
        GameState::StartMenu => Seq::empty(),
    }
}

/// The per-frame keyboard fields were consumed: held and hidden keys
/// cleared, text input kept.
pub open spec fn kb_cleared(ws0: WindowState, ws1: WindowState) -> bool {
    &&& ws1.keyboard_state.modifiers@ =~= Seq::<Key>::empty()
    &&& ws1.keyboard_state.hidden_keys@ =~= Seq::<char>::empty()
    &&& ws1.keyboard_state.keys == ws0.keyboard_state.keys
}

/// The window fields no event handler touches.
pub open spec fn frame_fields_kept(ws0: WindowState, ws1: WindowState) -> bool {
    &&& ws1.width == ws0.width
    &&& ws1.height == ws0.height
    &&& ws1.time_of_last_update == ws0.time_of_last_update
    &&& ws1.min_frame_time == ws0.min_frame_time
}

impl WindowState {
    /// Handles the focus of the window: on focus loss the tracked cursor
    /// position is cleared, so stale coordinates never leak into the next
    /// frame's hit-testing.
    pub fn handle_focus(&mut self, game_state: &mut GameState, focused: bool)
        ensures
            *final(game_state) == *old(game_state),
            *final(self) == (WindowState {
                mouse_state: MouseState {
                    mouse_cursor: if focused {
                        old(self).mouse_state.mouse_cursor
                    } else {
                        None
                    },
                    ..old(self).mouse_state
                },
                ..*old(self)
            }),
    {
        if !focused {
            self.mouse_state.mouse_cursor = None;
        }
    }

    /// Handles the "resize window" event.
    fn handle_resize(&mut self, game_state: &mut GameState, width: u32, height: u32)
        ensures
            *final(game_state) == *old(game_state),
            *final(self) == (WindowState { width, height, ..*old(self) }),
    {
        self.width = width;
        self.height = height;
    }

    /// Stores the pointer position, flipped to y-up window coordinates.
    fn handle_mouse_move(&mut self, game_state: &mut GameState, x: i32, y: i32)
        ensures
            *final(game_state) == *old(game_state),
            *final(self) == (WindowState {
                mouse_state: MouseState {
                    mouse_cursor: Some(
                        ((x as i64) as i64, (old(self).height as i64 - y as i64) as i64),
                    ),
                    ..old(self).mouse_state
                },
                ..*old(self)
            }),
    {
        self.mouse_state.mouse_cursor = Some(((x as i64), (self.height as i64) - (y as i64)));
    }

    /// Updates the mouse button flags on a click.
    fn handle_mouse_click(
        &mut self,
        game_state: &mut GameState,
        state: ElementState,
        button: MouseButton,
    )
        ensures
            *final(game_state) == *old(game_state),
            *final(self) == (WindowState {
                mouse_state: mouse_after_click(old(self).mouse_state, state, button),
                ..*old(self)
            }),
    {
        let down = match state {
            ElementState::Pressed => true,
            ElementState::Released => false,
        };
        match button {
            MouseButton::Left => {
                self.mouse_state.left_down = down;
            },
            MouseButton::Right => {
                self.mouse_state.right_down = down;
            },
            MouseButton::Middle => {
                self.mouse_state.middle_down = down;
            },
            MouseButton::Other => {},
        }
    }

    /// Adds or removes a key from the held set: a press is idempotent, a
    /// release removes the first held copy.
    fn handle_vk_code(
        &mut self,
        game_state: &mut GameState,
        state: ElementState,
        vk_code: Option<Key>,
    )
        ensures
            *final(game_state) == *old(game_state),
            final(self).keyboard_state.modifiers@ =~= modifiers_after_vk(
                old(self).keyboard_state.modifiers@,
                state,
                vk_code,
            ),
            final(self).keyboard_state.hidden_keys == old(self).keyboard_state.hidden_keys,
            final(self).keyboard_state.keys == old(self).keyboard_state.keys,
            final(self).mouse_state == old(self).mouse_state,
            frame_fields_kept(*old(self), *final(self)),
    {
        let vk = match vk_code {
            None => {
                return ;
            },
            Some(k) => k,
        };
        if state == ElementState::Pressed {
            if !modifiers_contain(&self.keyboard_state.modifiers, vk) {
                self.keyboard_state.modifiers.push(vk);
            }
        } else {
            let mut i: usize = 0;
            let n = self.keyboard_state.modifiers.len();
            while i < n
                invariant
                    *self == *old(self),
                    vk_code == Some(vk),
                    state is Released,
                    0 <= i <= n,
                    n == self.keyboard_state.modifiers@.len(),
                    forall|j: int| 0 <= j < i ==> self.keyboard_state.modifiers@[j] != vk,
                decreases n - i,
            {
                if self.keyboard_state.modifiers[i] == vk {
                    proof {
                        lemma_remove_first_key_at(self.keyboard_state.modifiers@, vk, i as int);
                    }
                    self.keyboard_state.modifiers.remove(i);
                    return ;
                }
                i = i + 1;
            }
            proof {
                lemma_remove_first_key_absent(self.keyboard_state.modifiers@, vk);
            }
        }
    }

    /// Translates the held keys into the frame's semantic game events
    /// while the game screen is active, then clears the per-frame
    /// keyboard state: events are edge-triggered per frame.
    pub fn update_game_state_from_kbinput(&mut self, game_state: &mut GameState) -> (r: Vec<
        GameInputEvent,
    >)
        ensures
            *final(game_state) == *old(game_state),
            r@ == kb_translated(*old(game_state), old(self).keyboard_state.modifiers@),
            kb_cleared(*old(self), *final(self)),
            final(self).mouse_state == old(self).mouse_state,
            frame_fields_kept(*old(self), *final(self)),
    {
        let mut relevant_inputs: Vec<GameInputEvent> = Vec::new();

        let is_game = match game_state {
            GameState::Game(_) => true,
            GameState::StartMenu => false,
        };
        if is_game {
            let mut i: usize = 0;
            let n = self.keyboard_state.modifiers.len();
            while i < n
                invariant
                    0 <= i <= n,
                    n == self.keyboard_state.modifiers@.len(),
                    relevant_inputs@ == events_for_keys(
                        self.keyboard_state.modifiers@.subrange(0, i as int),
                    ),
                decreases n - i,
            {
                proof {
                    assert(self.keyboard_state.modifiers@.subrange(0, (i + 1) as int).drop_last()
                        =~= self.keyboard_state.modifiers@.subrange(0, i as int));
                    assert(self.keyboard_state.modifiers@.subrange(0, (i + 1) as int).last()
                        == self.keyboard_state.modifiers@[i as int]);
                }
                match key_event_exec(self.keyboard_state.modifiers[i]) {
                    Some(e) => {
                        relevant_inputs.push(e);
                    },
                    None => {},
                }
                i = i + 1;
            }
            proof {
                assert(self.keyboard_state.modifiers@.subrange(
                    0,
                    self.keyboard_state.modifiers@.len() as int,
                ) =~= self.keyboard_state.modifiers@);
            }
        }

        self.keyboard_state.modifiers.clear();
        self.keyboard_state.hidden_keys.clear();

        relevant_inputs
    }

    /// Delegates an incoming event to the UI hit-testing handlers.
    /// Returns whether the UI handled the event.
    pub fn ui_handle_event(
        &mut self,
        ui: &Ui,
        game_state: &mut GameState,
        event: &Event,
        now: u64,
    ) -> (r: bool)
        ensures
            match *event {
                Event::MouseMoved(mx, my) => {
                    let p = cursor_or_default(old(self).mouse_state.mouse_cursor);
                    ui_move_post(
                        *old(self),
                        *final(self),
                        *old(game_state),
                        *final(game_state),
                        ui.rectangles@,
                        mx as int,
                        my as int,
                        p.0 as int,
                        p.1 as int,
                        now,
                        r,
                    )
                },
                Event::MouseInput(state, _) => ui_click_post(
                    *old(self),
                    *final(self),
                    *old(game_state),
                    *final(game_state),
                    ui.rectangles@,
                    state,
                    now,
                    r,
                ),
                _ => r == false && *final(self) == *old(self) && *final(game_state) == *old(
                    game_state,
                ),
            },
    {
        match *event {
            // MouseMoved is for hover events: focus-in and focus-out
            Event::MouseMoved(x, y) => {
                let (old_x, old_y) = match self.mouse_state.mouse_cursor {
                    Some(p) => p,
                    None => (-1i64, -1i64),
                };
                self.ui_handle_mouse_move(ui, game_state, x as i64, y as i64, old_x, old_y, now)
            },
            // MouseInput is for onclick events
            Event::MouseInput(state, button) => {
                self.ui_handle_mouse_click(ui, game_state, state, button, now)
            },
            _ => false,
        }
    }

    /// Checks whether the pointer crossed a rectangle's border between
    /// the two positions and runs the first matching enter or leave
    /// handler; at most one callback fires.
    pub fn ui_handle_mouse_move(
        &mut self,
        ui: &Ui,
        game_state: &mut GameState,
        x: i64,
        y: i64,
        old_x: i64,
        old_y: i64,
        now: u64,
    ) -> (r: bool)
        ensures
            ui_move_post(
                *old(self),
                *final(self),
                *old(game_state),
                *final(game_state),
                ui.rectangles@,
                x as int,
                y as int,
                old_x as int,
                old_y as int,
                now,
                r,
            ),
    {
        match mouse_move_action(ui, x, y, old_x, old_y) {
            Some((_i, cb)) => dispatch_ui_callback(cb, self, ui, game_state, now),
            None => false,
        }
    }

    /// On a button release, runs the `onmouseup` handler of the first
    /// rectangle containing the stored pointer position.
    pub fn ui_handle_mouse_click(
        &mut self,
        ui: &Ui,
        game_state: &mut GameState,
        state: ElementState,
        button: MouseButton,
        now: u64,
    ) -> (r: bool)
        ensures
            ui_click_post(
                *old(self),
                *final(self),
                *old(game_state),
                *final(game_state),
                ui.rectangles@,
                state,
                now,
                r,
            ),
    {
        let (x, y) = match self.mouse_state.mouse_cursor {
            Some(p) => p,
            None => (-1i64, -1i64),
        };
        if state == ElementState::Released {
            match mouse_click_action(ui, x, y) {
                Some((_i, cb)) => dispatch_ui_callback(cb, self, ui, game_state, now),
                None => false,
            }
        } else {
            false
        }
    }

    /// Handles one platform event: updates the window's input state, lets
    /// the previous frame's UI react, and translates the held keys into
    /// this frame's semantic game events. Returns `false` as its first
    /// component exactly when the window was closed.
    pub fn handle_event(
        &mut self,
        event: &Event,
        ui: &Ui,
        game_state: &mut GameState,
        now: u64,
    ) -> (r: (bool, Vec<GameInputEvent>))
        requires
            now >= old(self).time_of_last_update,
        ensures
            handle_event_post(
                *old(self),
                *final(self),
                *old(game_state),
                *final(game_state),
                ui.rectangles@,
                *event,
                now,
                r.0,
                r.1@,
            ),
    {
        match *event {
            Event::Closed => {
                return (false, Vec::new());
            },
            Event::MouseMoved(x, y) => {
                // a move arriving within the frame interval is coalesced:
                // neither hit-testing nor the stored position sees it
                if now - self.time_of_last_update >= self.min_frame_time {
                    let _ui_handled = self.ui_handle_event(ui, game_state, event, now);
                    self.handle_mouse_move(game_state, x, y);
                }
            },
            Event::KeyboardInput(state, vk_code) => {
                self.handle_vk_code(game_state, state, vk_code);
            },
            Event::MouseInput(state, button) => {
                let _ui_handled = self.ui_handle_event(ui, game_state, event, now);
                self.handle_mouse_click(game_state, state, button);
            },
            Event::Resized(width, height) => {
                self.handle_resize(game_state, width, height);
            },
            Event::Focused(focused) => {
                self.handle_focus(game_state, focused);
            },
            Event::Other => {},
        }

        let evs = self.update_game_state_from_kbinput(game_state);
        (true, evs)
    }
}

/// What a pointer-move hit-test leaves behind: if a rectangle fired, the
/// dispatched callback's effect on the cursor icon and the game state;
/// otherwise nothing changed.
pub open spec fn ui_move_post(
    ws0: WindowState,
    ws1: WindowState,
    gs0: GameState,
    gs1: GameState,
    rects: Seq<UiRect<UiRendererData>>,
    x: int,
    y: int,
    old_x: int,
    old_y: int,
    now: u64,
    r: bool,
) -> bool {
    match move_action(rects, x, y, old_x, old_y) {
        Some((_i, cb)) => {
            &&& r == true
            &&& dispatch_gs_post(cb, gs0, gs1, now)
            &&& ws1 == window_state_with_cursor(
                ws0,
                dispatch_cursor_after(cb, gs0, ws0.mouse_state.mouse_cursor_type),
            )
        },
        None => r == false && ws1 == ws0 && gs1 == gs0,
    }
}

/// What a pointer-button hit-test leaves behind: on a release whose
/// stored position hits a rectangle with an `onmouseup` handler, that
/// callback's effect; otherwise nothing changed.
pub open spec fn ui_click_post(
    ws0: WindowState,
    ws1: WindowState,
    gs0: GameState,
    gs1: GameState,
    rects: Seq<UiRect<UiRendererData>>,
    state: ElementState,
    now: u64,
    r: bool,
) -> bool {
    let p = cursor_or_default(ws0.mouse_state.mouse_cursor);
    if state is Released {
        match click_action(rects, p.0 as int, p.1 as int) {
            Some((_i, cb)) => {
                &&& r == true
                &&& dispatch_gs_post(cb, gs0, gs1, now)
                &&& ws1 == window_state_with_cursor(
                    ws0,
                    dispatch_cursor_after(cb, gs0, ws0.mouse_state.mouse_cursor_type),
                )
            },
            None => r == false && ws1 == ws0 && gs1 == gs0,
        }
    } else {
        r == false && ws1 == ws0 && gs1 == gs0
    }
}

/// The full per-event contract of `WindowState::handle_event`.
pub open spec fn handle_event_post(
    ws0: WindowState,
    ws1: WindowState,
    gs0: GameState,
    gs1: GameState,
    rects: Seq<UiRect<UiRendererData>>,
    event: Event,
    now: u64,
    open_r: bool,
    events_r: Seq<GameInputEvent>,
) -> bool {
    match event {
        Event::Closed => {
            // terminal: nothing changes and no events are produced
            &&& open_r == false
            &&& events_r =~= Seq::<GameInputEvent>::empty()
            &&& ws1 == ws0
            &&& gs1 == gs0
        },
        Event::MouseMoved(mx, my) => {
            &&& open_r == true
            &&& kb_cleared(ws0, ws1)
            &&& frame_fields_kept(ws0, ws1)
            &&& events_r == kb_translated(gs1, ws0.keyboard_state.modifiers@)
            &&& if now - ws0.time_of_last_update < ws0.min_frame_time {
                // debounced: the move is ignored entirely
                &&& gs1 == gs0
                &&& ws1.mouse_state == ws0.mouse_state
            } else {
                let p = cursor_or_default(ws0.mouse_state.mouse_cursor);
                let stored = Some(
                    ((mx as i64) as i64, (ws0.height as i64 - my as i64) as i64),
                );
                match move_action(rects, mx as int, my as int, p.0 as int, p.1 as int) {
                    Some((_i, cb)) => {
                        &&& dispatch_gs_post(cb, gs0, gs1, now)
                        &&& ws1.mouse_state == (MouseState {
                            mouse_cursor_type: dispatch_cursor_after(
                                cb,
                                gs0,
                                ws0.mouse_state.mouse_cursor_type,
                            ),
                            mouse_cursor: stored,
                            ..ws0.mouse_state
                        })
                    },
                    None => {
                        &&& gs1 == gs0
                        &&& ws1.mouse_state == (MouseState {
                            mouse_cursor: stored,
                            ..ws0.mouse_state
                        })
                    },
                }
            }
        },
        Event::KeyboardInput(state, vk) => {
            &&& open_r == true
            &&& gs1 == gs0
            &&& events_r == kb_translated(
                gs1,
                modifiers_after_vk(ws0.keyboard_state.modifiers@, state, vk),
            )
            &&& kb_cleared(ws0, ws1)
            &&& frame_fields_kept(ws0, ws1)
            &&& ws1.mouse_state == ws0.mouse_state
        },
        Event::MouseInput(state, button) => {
            let p = cursor_or_default(ws0.mouse_state.mouse_cursor);
            let fired = state is Released && click_action(rects, p.0 as int, p.1 as int) is Some;
            &&& open_r == true
            &&& kb_cleared(ws0, ws1)
            &&& frame_fields_kept(ws0, ws1)
            &&& events_r == kb_translated(gs1, ws0.keyboard_state.modifiers@)
            &&& if fired {
                let cb = click_action(rects, p.0 as int, p.1 as int).unwrap().1;
                &&& dispatch_gs_post(cb, gs0, gs1, now)
                &&& ws1.mouse_state == mouse_after_click(
                    MouseState {
                        mouse_cursor_type: dispatch_cursor_after(
                            cb,
                            gs0,
                            ws0.mouse_state.mouse_cursor_type,
                        ),
                        ..ws0.mouse_state
                    },
                    state,
                    button,
                )
            } else {
                &&& gs1 == gs0
                &&& ws1.mouse_state == mouse_after_click(ws0.mouse_state, state, button)
            }
        },
        Event::Resized(width, height) => {
            &&& open_r == true
            &&& gs1 == gs0
            &&& events_r == kb_translated(gs1, ws0.keyboard_state.modifiers@)
            &&& kb_cleared(ws0, ws1)
            &&& ws1.mouse_state == ws0.mouse_state
            &&& ws1.width == width
            &&& ws1.height == height
            &&& ws1.time_of_last_update == ws0.time_of_last_update
            &&& ws1.min_frame_time == ws0.min_frame_time
        },
        Event::Focused(focused) => {
            &&& open_r == true
            &&& gs1 == gs0
            &&& events_r == kb_translated(gs1, ws0.keyboard_state.modifiers@)
            &&& kb_cleared(ws0, ws1)
            &&& frame_fields_kept(ws0, ws1)
            &&& ws1.mouse_state == (MouseState {
                mouse_cursor: if focused {
                    ws0.mouse_state.mouse_cursor
                } else {
                    None
                },
                ..ws0.mouse_state
            })
        },
        Event::Other => {
            &&& open_r == true
            &&& gs1 == gs0
            &&& events_r == kb_translated(gs1, ws0.keyboard_state.modifiers@)
            &&& kb_cleared(ws0, ws1)
            &&& frame_fields_kept(ws0, ws1)
            &&& ws1.mouse_state == ws0.mouse_state
        },
    }
}

/// Executes `key_event`: the semantic event one key maps to.
fn key_event_exec(k: Key) -> (r: Option<GameInputEvent>)
    ensures
        r == key_event(k),
{
    match k {
        Key::W => Some(GameInputEvent::PlayerJump),
        Key::Space => Some(GameInputEvent::PlayerJump),
        Key::Up => Some(GameInputEvent::PlayerJump),
        Key::A => Some(GameInputEvent::PlayerGoLeft),
        Key::Left => Some(GameInputEvent::PlayerGoLeft),
        Key::D => Some(GameInputEvent::PlayerGoRight),
        Key::Right => Some(GameInputEvent::PlayerGoRight),
        Key::S => Some(GameInputEvent::PlayerTakeBox),
        Key::Down => Some(GameInputEvent::PlayerTakeBox),
        Key::Other => None,
    }
}

/// Whether a key list holds the given key.
fn modifiers_contain(keys: &Vec<Key>, k: Key) -> (r: bool)
    ensures
        r == keys@.contains(k),
{
    let mut i: usize = 0;
    while i < keys.len()
        invariant
            0 <= i <= keys.len(),
            forall|j: int| 0 <= j < i ==> keys@[j] != k,
        decreases keys.len() - i,
    {
        if keys[i] == k {
            proof {
                assert(keys@[i as int] == k);
            }
            return true;
        }
        i = i + 1;
    }
    proof {
        if keys@.contains(k) {
            let w = choose|j: int| 0 <= j < keys@.len() && keys@[j] == k;
            assert(keys@[w] == k);
            assert(false);
        }
    }
    false
}

} // verus!
