//! The main window: its errors and its place on the screen.

use crate::utils::text::join;
use vstd::prelude::*;

verus! {

/// Error types for window management operations.
#[derive(Debug, PartialEq, Eq)]
pub enum WindowError {
    /// The windowing system refused an operation.
    Operation(String),
    /// There is no window of the name that was asked for.
    NotFound,
    /// The window is in a state in which the operation makes no sense.
    InvalidState,
    /// The screen on which the window is to be placed is not known.
    MonitorNotFound,
}

/// What a [`WindowError`] says.
pub enum WindowErrorView {
    Operation(Seq<char>),
    NotFound,
    InvalidState,
    MonitorNotFound,
}

impl WindowErrorView {
    /// The error as one line of text.
    pub open spec fn display(self) -> Seq<char> {
        match self {
            WindowErrorView::Operation(m) => "Window operation failed: "@ + m,
            WindowErrorView::NotFound => "Window not found"@,
            WindowErrorView::InvalidState => "Invalid window state"@,
            WindowErrorView::MonitorNotFound => "Monitor not found"@,
        }
    }
}

impl View for WindowError {
    type V = WindowErrorView;

    open spec fn view(&self) -> WindowErrorView {
        match self {
            WindowError::Operation(m) => WindowErrorView::Operation(m@),
            WindowError::NotFound => WindowErrorView::NotFound,
            WindowError::InvalidState => WindowErrorView::InvalidState,
            WindowError::MonitorNotFound => WindowErrorView::MonitorNotFound,
        }
    }
}

impl WindowError {
    /// The error as the user sees it.
    pub fn to_string(&self) -> (s: String)
        ensures
            s@ == self@.display(),
    {
        match self {
            WindowError::Operation(msg) => join("Window operation failed: ", msg.as_str()),
            WindowError::NotFound => "Window not found".to_owned(),
            WindowError::InvalidState => "Invalid window state".to_owned(),
            WindowError::MonitorNotFound => "Monitor not found".to_owned(),
        }
    }
}

/// Half of `distance`, rounded towards zero.
pub open spec fn half(distance: int) -> int {
    if distance >= 0 {
        distance / 2
    } else {
        -((-distance) / 2)
    }
}

/// Where a window of size `inner` begins on an axis so that its middle is
/// the middle of a window that begins at `origin` and has size `outer`.
pub open spec fn centered_start(origin: int, outer: int, inner: int) -> int {
    origin + half(outer - inner)
}

/// The horizontal position at which a window of width `window_width`
/// stands in the middle of a screen of width `screen_width`. It is
/// negative for a window wider than the screen.
///
/// Both widths must be such as a screen has: within the range of `i32`.
pub fn centered_x(screen_width: u32, window_width: u32) -> (x: i32)
    requires
        screen_width <= i32::MAX,
        window_width <= i32::MAX,
    ensures
        x == centered_start(0, screen_width as int, window_width as int),
{
    (screen_width as i32 - window_width as i32) / 2
}

} // verus!
