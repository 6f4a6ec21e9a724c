use vstd::prelude::*;
use crate::geometry::{Dim, Vec2};

verus! {

/// Key code of the `P` key.
pub const KEY_P: u32 = 80;
/// Key code of the space bar.
pub const KEY_SPACE: u32 = 32;

/// The phases of the frame loop.
#[derive(Clone, Copy, Debug, PartialEq, Eq, Structural)]
pub enum GameState {
    Starting,
    Paused,
    Running,
}

/// What the input devices report for one frame.
#[derive(Clone, Copy, Debug, PartialEq, Eq, Structural)]
pub struct FrameInput {
    /// Time since the previous frame, in milliseconds.
    pub dt: u32,
    /// The pointer, in sub-pixel units.
    pub mouse: Vec2,
    /// The primary button is held.
    pub mouse_down: bool,
    /// The primary button went down in this frame.
    pub mouse_pressed: bool,
    /// The key pressed in this frame, if any.
    pub key: Option<u32>,
}

pub open spec fn pause_key(key: Option<u32>) -> bool {
    key == Some(KEY_P) || key == Some(KEY_SPACE)
}

/// Whether `key` toggles the pause.
pub fn is_pause_key(key: &Option<u32>) -> (r: bool)
    ensures
        r == pause_key(*key),
{
    match key {
        Some(k) => *k == KEY_P || *k == KEY_SPACE,
        None => false,
    }
}

/// A text centred on a screen, and the box drawn behind it.
#[derive(Clone, Copy, Debug, PartialEq, Eq, Structural)]
pub struct CenteredText {
    pub text_x: i32,
    pub text_y: i32,
    pub backdrop: Dim,
}

/// Places a text `text_width` pixels wide and `font_size` pixels high in the
/// middle of a screen, with a backdrop 10 pixels larger on each side.
pub fn center_text(screen_width: i32, screen_height: i32, text_width: i32, font_size: i32) -> (r:
    CenteredText)
    requires
        0 <= screen_width,
        0 <= screen_height,
        0 <= text_width <= i32::MAX - 20,
        0 <= font_size <= i32::MAX - 20,
    ensures
        r.text_x == screen_width / 2 - text_width / 2,
        r.text_y == screen_height / 2 - font_size,
        r.backdrop == (Dim {
            x: (r.text_x - 10) as i32,
            y: (r.text_y - 10) as i32,
            width: (text_width + 20) as i32,
            height: (font_size + 20) as i32,
        }),
{
    let text_x = screen_width / 2 - text_width / 2;
    let text_y = screen_height / 2 - font_size;
    CenteredText {
        text_x,
        text_y,
        backdrop: Dim { x: text_x - 10, y: text_y - 10, width: text_width + 20, height: font_size + 20 },
    }
}

} // verus!
