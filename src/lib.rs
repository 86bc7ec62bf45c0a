//! Interactive move and resize of windows: the pointer grabs, the
//! per-surface resize handshake, scroll normalisation and popup placement.
//!
//! Pointer coordinates and scroll amounts are held in the wire protocol's
//! fixed-point unit (1/256 of a logical pixel); window geometry is in whole
//! logical pixels.

mod edges;
mod geometry;
mod grab_control;
mod input;
mod move_grab;
mod popup;
mod resize_grab;

pub use edges::ResizeEdge;
pub use geometry::{Point, PointerPos, Rect, Size, SizeConstraints, FIXED_ONE};
pub use grab_control::{check_grab, GrabStartData, BTN_LEFT};
pub use input::{axis_frame, press_focus, AxisAmount, AxisFrameData, AxisOutput, AxisSource, FocusAction};
pub use move_grab::MoveSurfaceGrab;
pub use popup::popup_target;
pub use resize_grab::{handle_commit, ResizeSurfaceGrab, ResizeSurfaceState};
