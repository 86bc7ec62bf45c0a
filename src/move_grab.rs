use vstd::prelude::*;
use crate::geometry::{clamp_i32, fixed_round, round_fixed, saturate_i32, Point, PointerPos, FIXED_ONE};
use crate::grab_control::{primary_pressed, GrabStartData, BTN_LEFT};

verus! {

/// Where a window dragged from `origin` stands once the pointer has gone
/// from `start` to `now` (both in 1/256 pixel): the sum, rounded to the
/// nearest pixel.
pub open spec fn moved(origin: i32, start: i32, now: i32) -> int {
    clamp_i32(round_fixed(origin * 256 + (now - start)))
}

/// A move in progress: where it started and where the window stood then.
pub struct MoveSurfaceGrab {
    pub start_data: GrabStartData,
    pub initial_window_location: Point,
}

impl MoveSurfaceGrab {
    /// The window's new location when the pointer stands at `location`.
    pub fn motion(&self, location: PointerPos) -> (r: Point)
        ensures
            r.x == moved(self.initial_window_location.x, self.start_data.location.x, location.x),
            r.y == moved(self.initial_window_location.y, self.start_data.location.y, location.y),
    {
        let x = fixed_round(
            self.initial_window_location.x as i64 * FIXED_ONE + (location.x as i64
                - self.start_data.location.x as i64),
        );
        let y = fixed_round(
            self.initial_window_location.y as i64 * FIXED_ONE + (location.y as i64
                - self.start_data.location.y as i64),
        );
        Point { x: saturate_i32(x), y: saturate_i32(y) }
    }

    /// A button changed and `pressed` holds the buttons now down: whether the
    /// grab ends, which it does once the primary button is up.
    pub fn button(&self, pressed: &Vec<u32>) -> (r: bool)
        ensures
            r == !pressed@.contains(BTN_LEFT),
    {
        !primary_pressed(pressed)
    }
}

} // verus!
