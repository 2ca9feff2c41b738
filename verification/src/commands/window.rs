//! Window management commands: where the settings window is put.

use crate::window::centered_start;
use vstd::prelude::*;

verus! {

/// The width of the settings window, in pixels.
pub const SETTINGS_WINDOW_WIDTH: i32 = 1400;

/// The height of the settings window, in pixels.
pub const SETTINGS_WINDOW_HEIGHT: i32 = 900;

/// Whether a position on an axis can be held in an `i32`.
pub open spec fn fits_i32(position: int) -> bool {
    i32::MIN <= position <= i32::MAX
}

/// The position of the settings window: centred on the main window, which
/// stands at (`main_x`, `main_y`) and is `main_width` by `main_height`
/// pixels large.
///
/// The sizes and the resulting position must be such as a screen has:
/// within the range of `i32`.
pub fn settings_window_position(main_x: i32, main_y: i32, main_width: u32, main_height: u32) -> (position: (
    i32,
    i32,
))
    requires
        main_width <= i32::MAX,
        main_height <= i32::MAX,
        fits_i32(centered_start(main_x as int, main_width as int, SETTINGS_WINDOW_WIDTH as int)),
        fits_i32(centered_start(main_y as int, main_height as int, SETTINGS_WINDOW_HEIGHT as int)),
    ensures
        position.0 == centered_start(
            main_x as int,
            main_width as int,
            SETTINGS_WINDOW_WIDTH as int,
        ),
        position.1 == centered_start(
            main_y as int,
            main_height as int,
            SETTINGS_WINDOW_HEIGHT as int,
        ),
{
    let x = main_x + (main_width as i32 - SETTINGS_WINDOW_WIDTH) / 2;
    let y = main_y + (main_height as i32 - SETTINGS_WINDOW_HEIGHT) / 2;
    (x, y)
}

} // verus!
