//! Frame-synchronous simulation core of a small 2D crate-stacking game.
//!
//! The library holds the per-tick physics and input-resolution state machine,
//! the UI hit-testing and action-dispatch layer, and the resource-identity
//! caches that bind logical asset names to renderer handles. Windowing,
//! OpenGL, and audio playback live outside the library and talk to it
//! through plain values.

pub mod actions;
pub mod assets;
pub mod audio;
pub mod camera;
pub mod color;
pub mod errors;
pub mod font;
pub mod game;
pub mod input;
pub mod physics;
pub mod player_state;
pub mod registry;
pub mod render_data;
pub mod texture;
pub mod ui;

pub use color::Color;
