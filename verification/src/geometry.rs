//! Where a window stands on its root window.
//!
//! The display server reports the position of a window in the coordinates of
//! its parent, which for a managed window is mostly a frame of the window
//! manager. The position on the root window is found by asking the server to
//! translate a point of the window into the coordinates of the root: a point
//! `(x, y)` of a window whose origin lies at `(X, Y)` of the root translates
//! to `(X + x, Y + y)`, so the origin is the translated point less the point
//! itself.

use vstd::prelude::*;
use crate::window::WindowPosition;

verus! {

/// The position of a window of the given size whose point `(x, y)` lies at
/// `(translated_x, translated_y)` of its root window.
pub open spec fn placed(
    x: i16,
    y: i16,
    translated_x: i16,
    translated_y: i16,
    width: u16,
    height: u16,
) -> WindowPosition {
    WindowPosition {
        x: (translated_x - x) as i32,
        y: (translated_y - y) as i32,
        width: width as i32,
        height: height as i32,
        is_full_screen: false,
    }
}

/// The position of a window of the given size whose point `(x, y)` lies at
/// `(translated_x, translated_y)` of its root window.
pub fn place(x: i16, y: i16, translated_x: i16, translated_y: i16, width: u16, height: u16) -> (position:
    WindowPosition)
    ensures
        position == placed(x, y, translated_x, translated_y, width, height),
{
    let origin_x: i32 = translated_x as i32 - x as i32;
    let origin_y: i32 = translated_y as i32 - y as i32;
    WindowPosition::new(origin_x, origin_y, width as i32, height as i32, false)
}

/// The position of a window is found again exactly: for a window of width
/// `width` and height `height` whose origin lies at `(origin_x, origin_y)` of
/// its root window, whichever of its points `(x, y)` the server translates,
/// the position that is computed is that origin with that size.
pub proof fn lemma_position_round_trip(
    origin_x: int,
    origin_y: int,
    x: i16,
    y: i16,
    width: u16,
    height: u16,
)
    requires
        i16::MIN <= origin_x + x <= i16::MAX,
        i16::MIN <= origin_y + y <= i16::MAX,
    ensures
        ({
            let position = placed(
                x,
                y,
                (origin_x + x) as i16,
                (origin_y + y) as i16,
                width,
                height,
            );
            &&& position.x == origin_x
            &&& position.y == origin_y
            &&& position.width == width
            &&& position.height == height
        }),
{
}

} // verus!
