use vstd::prelude::*;
use crate::geometry::{Point, Rect};

verus! {

/// The region a popup must fit in, in the coordinates of the popup's
/// parent: the output's geometry shifted back by the popup's offset from
/// its toplevel and by the root window's location on screen.
pub fn popup_target(output_geometry: Rect, popup_offset: Point, window_location: Point) -> (r: Rect)
    requires
        i32::MIN <= output_geometry.loc.x - popup_offset.x - window_location.x <= i32::MAX,
        i32::MIN <= output_geometry.loc.y - popup_offset.y - window_location.y <= i32::MAX,
        i32::MIN <= output_geometry.loc.x - popup_offset.x <= i32::MAX,
        i32::MIN <= output_geometry.loc.y - popup_offset.y <= i32::MAX,
    ensures
        r.size == output_geometry.size,
        r.loc.x == output_geometry.loc.x - popup_offset.x - window_location.x,
        r.loc.y == output_geometry.loc.y - popup_offset.y - window_location.y,
{
    let mut target = output_geometry;
    target.loc.x = target.loc.x - popup_offset.x;
    target.loc.y = target.loc.y - popup_offset.y;
    target.loc.x = target.loc.x - window_location.x;
    target.loc.y = target.loc.y - window_location.y;
    target
}

} // verus!
