use vstd::prelude::*;
use crate::edges::ResizeEdge;
use crate::geometry::{
    clamp_i32, fixed_trunc, saturate_i32, trunc_div, Point, PointerPos, Rect, Size,
    SizeConstraints, FIXED_ONE,
};
use crate::grab_control::{primary_pressed, GrabStartData, BTN_LEFT};

verus! {

/// Where a surface stands in the resize handshake.
#[derive(Clone, Copy, Debug, PartialEq, Eq, Structural)]
pub enum ResizeSurfaceState {
    Idle,
    /// A resize grab is active; commits may still arrive during the drag.
    Resizing { edges: ResizeEdge, initial_rect: Rect },
    /// The grab has ended; the client's next commit is the last one.
    WaitingForLastCommit { edges: ResizeEdge, initial_rect: Rect },
}

impl Default for ResizeSurfaceState {
    fn default() -> (r: Self)
        ensures
            r == ResizeSurfaceState::Idle,
    {
        ResizeSurfaceState::Idle
    }
}

/// The steps the handshake may take: stay, or move one step along
/// idle, resizing, waiting for the last commit, idle.
pub open spec fn legal_step(a: ResizeSurfaceState, b: ResizeSurfaceState) -> bool {
    a == b || (a is Idle && b is Resizing) || (a is Resizing && b is WaitingForLastCommit) || (
    a is WaitingForLastCommit && b is Idle)
}

impl ResizeSurfaceState {
    /// The state after a commit, and the edges and rectangle that the commit
    /// must honour (`None` when no resize is under way).
    pub open spec fn spec_commit(self) -> (ResizeSurfaceState, Option<(ResizeEdge, Rect)>) {
        match self {
            ResizeSurfaceState::Idle => (self, None),
            ResizeSurfaceState::Resizing { edges, initial_rect } => (self, Some((edges, initial_rect))),
            ResizeSurfaceState::WaitingForLastCommit { edges, initial_rect } => (
                ResizeSurfaceState::Idle,
                Some((edges, initial_rect)),
            ),
        }
    }

    /// Records that the client committed: a commit while waiting for the last
    /// one ends the resize.
    pub fn commit(&mut self) -> (r: Option<(ResizeEdge, Rect)>)
        ensures
            (*final(self), r) == old(self).spec_commit(),
    {
        match *self {
            ResizeSurfaceState::Resizing { edges, initial_rect } => Some((edges, initial_rect)),
            ResizeSurfaceState::WaitingForLastCommit { edges, initial_rect } => {
                *self = ResizeSurfaceState::Idle;
                Some((edges, initial_rect))
            },
            ResizeSurfaceState::Idle => None,
        }
    }
}

/// A length after dragging by `delta` (in 1/256 pixel): the edge that
/// `shrink` names moves against the axis, the one `grow` names with it.
pub open spec fn candidate_len(initial: int, delta: int, shrink: bool, grow: bool) -> int {
    if shrink {
        trunc_div(initial * 256 - delta, 256)
    } else if grow {
        trunc_div(initial * 256 + delta, 256)
    } else {
        initial
    }
}

/// The smallest length allowed by a minimum of `m`.
pub open spec fn min_bound(m: int) -> int {
    if m >= 1 {
        m
    } else {
        1
    }
}

/// The largest length allowed by a maximum of `m`; 0 sets no bound.
pub open spec fn max_bound(m: int) -> int {
    if m != 0 {
        m
    } else {
        i32::MAX as int
    }
}

/// `v` raised to the minimum, then lowered to the maximum.
pub open spec fn clamp_len(v: int, min: int, max: int) -> int {
    let lo = if v >= min_bound(min) {
        v
    } else {
        min_bound(min)
    };
    if lo <= max_bound(max) {
        lo
    } else {
        max_bound(max)
    }
}

/// The size a resize asks for when the pointer stands at `location`.
pub open spec fn resize_size(
    edges: ResizeEdge,
    initial: Rect,
    start: PointerPos,
    location: PointerPos,
    c: SizeConstraints,
) -> Size {
    let w = candidate_len(
        initial.size.w as int,
        location.x - start.x,
        edges.has_left(),
        edges.has_right(),
    );
    let h = candidate_len(
        initial.size.h as int,
        location.y - start.y,
        edges.has_top(),
        edges.has_bottom(),
    );
    Size { w: clamp_len(w, c.min.w as int, c.max.w as int) as i32, h: clamp_len(h, c.min.h as int, c.max.h as int) as i32 }
}

/// The coordinate that keeps the far edge of a span at `start + len`
/// when the span's length becomes `actual`.
pub open spec fn anchored(start: i32, len: i32, actual: i32) -> int {
    clamp_i32(start + len - actual)
}

/// Where a commit puts the window: `None` when nothing moves, else the
/// window's location with the dragged axes recomputed from the committed size.
pub open spec fn commit_location(c: Option<(ResizeEdge, Rect)>, location: Point, actual: Size) -> Option<
    Point,
> {
    match c {
        None => None,
        Some((edges, r)) => if !edges.has_left() && !edges.has_top() {
            None
        } else {
            Some(
                Point {
                    x: if edges.has_left() {
                        anchored(r.loc.x, r.size.w, actual.w) as i32
                    } else {
                        location.x
                    },
                    y: if edges.has_top() {
                        anchored(r.loc.y, r.size.h, actual.h) as i32
                    } else {
                        location.y
                    },
                },
            )
        },
    }
}

/// Every size a resize asks for lies between the surface's minimum (at
/// least 1) and its maximum (unbounded where 0), provided the maximum set
/// is not below the minimum.
pub proof fn lemma_resize_clamped(
    edges: ResizeEdge,
    initial: Rect,
    start: PointerPos,
    location: PointerPos,
    c: SizeConstraints,
)
    requires
        c.max.w == 0 || c.max.w >= min_bound(c.min.w as int),
        c.max.h == 0 || c.max.h >= min_bound(c.min.h as int),
    ensures
        min_bound(c.min.w as int) <= resize_size(edges, initial, start, location, c).w <= max_bound(
            c.max.w as int,
        ),
        min_bound(c.min.h as int) <= resize_size(edges, initial, start, location, c).h <= max_bound(
            c.max.h as int,
        ),
{
}

/// One axis of a resize: the new length, clamped.
fn resize_len(initial: i32, delta: i64, shrink: bool, grow: bool, min: i32, max: i32) -> (r: i32)
    requires
        -0x1_0000_0000 <= delta <= 0x1_0000_0000,
    ensures
        r as int == clamp_len(candidate_len(initial as int, delta as int, shrink, grow), min as int, max as int),
{
    let base = initial as i64 * FIXED_ONE;
    let len: i64 = if shrink {
        fixed_trunc(base - delta)
    } else if grow {
        fixed_trunc(base + delta)
    } else {
        initial as i64
    };
    let lo: i64 = if min >= 1 {
        min as i64
    } else {
        1
    };
    let hi: i64 = if max != 0 {
        max as i64
    } else {
        i32::MAX as i64
    };
    let raised = if len >= lo {
        len
    } else {
        lo
    };
    let v = if raised <= hi {
        raised
    } else {
        hi
    };
    saturate_i32(v)
}

/// A resize in progress: what it started from and the last size it asked for.
pub struct ResizeSurfaceGrab {
    pub start_data: GrabStartData,
    pub edges: ResizeEdge,
    pub initial_rect: Rect,
    pub last_window_size: Size,
}

impl ResizeSurfaceGrab {
    /// Starts a resize of the surface whose handshake state is `state`,
    /// which becomes `Resizing`.
    pub fn start(
        start_data: GrabStartData,
        edges: ResizeEdge,
        initial_window_rect: Rect,
        state: &mut ResizeSurfaceState,
    ) -> (r: Self)
        ensures
            r.start_data == start_data,
            r.edges == edges,
            r.initial_rect == initial_window_rect,
            r.last_window_size == initial_window_rect.size,
            *final(state) == (ResizeSurfaceState::Resizing { edges, initial_rect: initial_window_rect }),
    {
        let initial_rect = initial_window_rect;
        *state = ResizeSurfaceState::Resizing { edges, initial_rect };
        ResizeSurfaceGrab { start_data, edges, initial_rect, last_window_size: initial_rect.size }
    }

    /// The pointer moved to `location`: computes the size to ask the client
    /// for, under the surface's `constraints`, and remembers it. The window
    /// itself does not move here.
    pub fn motion(&mut self, location: PointerPos, constraints: SizeConstraints) -> (r: Size)
        ensures
            r == resize_size(
                old(self).edges,
                old(self).initial_rect,
                old(self).start_data.location,
                location,
                constraints,
            ),
            final(self).last_window_size == r,
            final(self).start_data == old(self).start_data,
            final(self).edges == old(self).edges,
            final(self).initial_rect == old(self).initial_rect,
    {
        let dx = location.x as i64 - self.start_data.location.x as i64;
        let dy = location.y as i64 - self.start_data.location.y as i64;
        let w = resize_len(
            self.initial_rect.size.w,
            dx,
            self.edges.intersects(ResizeEdge::left()),
            self.edges.intersects(ResizeEdge::right()),
            constraints.min.w,
            constraints.max.w,
        );
        let h = resize_len(
            self.initial_rect.size.h,
            dy,
            self.edges.intersects(ResizeEdge::top()),
            self.edges.intersects(ResizeEdge::bottom()),
            constraints.min.h,
            constraints.max.h,
        );
        self.last_window_size = Size { w, h };
        self.last_window_size
    }

    /// A button changed, and `pressed` holds the buttons now down. Once the
    /// primary button is up the grab ends: the result is the size for the
    /// final request, and `state` waits for the client's last commit.
    /// While it is down nothing changes and the result is `None`.
    pub fn button(&self, pressed: &Vec<u32>, state: &mut ResizeSurfaceState) -> (r: Option<Size>)
        ensures
            r.is_none() <==> pressed@.contains(BTN_LEFT),
            r.is_none() ==> *final(state) == *old(state),
            r.is_some() ==> r == Some(self.last_window_size) && *final(state) == (
            ResizeSurfaceState::WaitingForLastCommit {
                edges: self.edges,
                initial_rect: self.initial_rect,
            }),
    {
        if primary_pressed(pressed) {
            return None;
        }
        *state = ResizeSurfaceState::WaitingForLastCommit {
            edges: self.edges,
            initial_rect: self.initial_rect,
        };
        Some(self.last_window_size)
    }
}

/// Every commit made while a resize is under way keeps the corner opposite
/// the dragged one in place: with the left edge dragged, the window's right
/// edge stays at the initial rectangle's right edge whatever width the
/// client chose, and likewise for the top edge and the bottom.
pub proof fn lemma_anchor_fixed(s: ResizeSurfaceState, location: Point, actual: Size)
    requires
        !(s is Idle),
    ensures
        ({
            let (edges, r) = s.spec_commit().1.unwrap();
            let p = commit_location(s.spec_commit().1, location, actual);
            &&& edges.has_left() && i32::MIN <= r.loc.x + r.size.w - actual.w <= i32::MAX ==> p
                is Some && p.unwrap().x + actual.w == r.loc.x + r.size.w
            &&& edges.has_top() && i32::MIN <= r.loc.y + r.size.h - actual.h <= i32::MAX ==> p
                is Some && p.unwrap().y + actual.h == r.loc.y + r.size.h
            &&& !edges.has_left() && !edges.has_top() ==> p is None
        }),
{
}

/// A commit takes the handshake at most one step along idle, resizing,
/// waiting for the last commit, idle. The commit that ends a wait leaves
/// the surface idle, and the commit after it finds it idle and moves nothing.
pub proof fn lemma_commit_steps(s: ResizeSurfaceState, location: Point, actual: Size)
    ensures
        legal_step(s, s.spec_commit().0),
        s is Resizing ==> s.spec_commit().0 == s,
        s is WaitingForLastCommit ==> s.spec_commit().0 is Idle && s.spec_commit().0.spec_commit().0
            is Idle && commit_location(s.spec_commit().0.spec_commit().1, location, actual) is None,
        s is Idle ==> s.spec_commit().0 is Idle && commit_location(s.spec_commit().1, location, actual) is None,
{
}

/// The steps a grab takes are legal ones: starting a resize of an idle
/// surface makes it resizing, and releasing the button takes it, with the
/// same edges and rectangle, to waiting for the last commit.
pub proof fn lemma_grab_steps(edges: ResizeEdge, initial_rect: Rect)
    ensures
        legal_step(ResizeSurfaceState::Idle, ResizeSurfaceState::Resizing { edges, initial_rect }),
        legal_step(
            ResizeSurfaceState::Resizing { edges, initial_rect },
            ResizeSurfaceState::WaitingForLastCommit { edges, initial_rect },
        ),
{
}

fn anchor(start: i32, len: i32, actual: i32) -> (r: i32)
    ensures
        r as int == anchored(start, len, actual),
{
    saturate_i32(start as i64 + len as i64 - actual as i64)
}

/// The client committed a buffer of size `actual` while its window stands
/// at `window_location`. Advances the surface's handshake `state` and returns
/// the window's new location where a dragged top or left edge makes it move,
/// so that the corner opposite the dragged one keeps its place.
pub fn handle_commit(state: &mut ResizeSurfaceState, window_location: Point, actual: Size) -> (r:
    Option<Point>)
    ensures
        *final(state) == old(state).spec_commit().0,
        r == commit_location(old(state).spec_commit().1, window_location, actual),
{
    let c = state.commit();
    match c {
        None => None,
        Some((edges, initial_rect)) => {
            let b = edges.bits();
            assert((b & 5u32 != 0) == (b & 1u32 != 0 || b & 4u32 != 0)) by (bit_vector);
            if !edges.intersects(ResizeEdge::top_left()) {
                return None;
            }
            let mut location = window_location;
            if edges.intersects(ResizeEdge::left()) {
                location.x = anchor(initial_rect.loc.x, initial_rect.size.w, actual.w);
            }
            if edges.intersects(ResizeEdge::top()) {
                location.y = anchor(initial_rect.loc.y, initial_rect.size.h, actual.h);
            }
            Some(location)
        },
    }
}

} // verus!
