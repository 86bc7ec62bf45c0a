use lynwm::{
    axis_frame, check_grab, handle_commit, popup_target, press_focus, AxisAmount, AxisSource,
    FocusAction, GrabStartData, MoveSurfaceGrab, Point, PointerPos, Rect, ResizeEdge,
    ResizeSurfaceGrab, ResizeSurfaceState, Size, SizeConstraints, BTN_LEFT, FIXED_ONE,
};

fn px(x: i32, y: i32) -> PointerPos {
    PointerPos { x: x * FIXED_ONE as i32, y: y * FIXED_ONE as i32 }
}

fn start_at(x: i32, y: i32) -> GrabStartData {
    GrabStartData { serial: 7, location: px(x, y), focus_client: Some(1) }
}

fn rect(x: i32, y: i32, w: i32, h: i32) -> Rect {
    Rect { loc: Point { x, y }, size: Size { w, h } }
}

fn unbounded() -> SizeConstraints {
    SizeConstraints { min: Size { w: 0, h: 0 }, max: Size { w: 0, h: 0 } }
}

#[test]
fn move_scenario_a() {
    let grab = MoveSurfaceGrab { start_data: start_at(120, 120), initial_window_location: Point { x: 100, y: 100 } };
    assert_eq!(grab.motion(px(170, 150)), Point { x: 150, y: 130 });
}

#[test]
fn move_rounds_to_nearest_pixel() {
    let grab = MoveSurfaceGrab { start_data: start_at(0, 0), initial_window_location: Point { x: 10, y: 10 } };
    // 10.5 rounds up to 11 and 10.25 down to 10; 8.5 and 7.5 round up too.
    let p = grab.motion(PointerPos { x: 128, y: 64 });
    assert_eq!(p, Point { x: 11, y: 10 });
    let q = grab.motion(PointerPos { x: -384, y: -640 });
    assert_eq!(q, Point { x: 9, y: 8 });
    let n = MoveSurfaceGrab { start_data: start_at(0, 0), initial_window_location: Point { x: 0, y: 0 } };
    // Below zero, halves round away from zero: -0.5 to -1.
    assert_eq!(n.motion(PointerPos { x: -128, y: -127 }), Point { x: -1, y: 0 });
}

#[test]
fn move_law_on_many_points() {
    let grab = MoveSurfaceGrab { start_data: start_at(5, -3), initial_window_location: Point { x: -40, y: 25 } };
    for dx in -20..20 {
        let p = grab.motion(px(5 + dx, -3 - dx));
        assert_eq!(p, Point { x: -40 + dx, y: 25 - dx });
    }
}

#[test]
fn move_grab_releases_without_primary_button() {
    let grab = MoveSurfaceGrab { start_data: start_at(0, 0), initial_window_location: Point { x: 0, y: 0 } };
    assert!(!grab.button(&vec![BTN_LEFT]));
    assert!(!grab.button(&vec![0x111, BTN_LEFT]));
    assert!(grab.button(&vec![]));
    assert!(grab.button(&vec![0x111]));
}

#[test]
fn resize_scenario_b() {
    let mut state = ResizeSurfaceState::default();
    let initial = rect(100, 100, 300, 200);
    let mut grab = ResizeSurfaceGrab::start(start_at(400, 300), ResizeEdge::top_left(), initial, &mut state);
    assert_eq!(state, ResizeSurfaceState::Resizing { edges: ResizeEdge::top_left(), initial_rect: initial });
    assert_eq!(grab.motion(px(380, 290), unbounded()), Size { w: 320, h: 210 });
    assert_eq!(grab.last_window_size, Size { w: 320, h: 210 });
    let moved = handle_commit(&mut state, Point { x: 100, y: 100 }, Size { w: 310, h: 205 });
    assert_eq!(moved, Some(Point { x: 90, y: 95 }));
    assert!(matches!(state, ResizeSurfaceState::Resizing { .. }));
}

#[test]
fn resize_scenario_c() {
    let mut state = ResizeSurfaceState::Idle;
    let initial = rect(50, 100, 300, 200);
    let mut grab = ResizeSurfaceGrab::start(start_at(200, 100), ResizeEdge::top(), initial, &mut state);
    assert_eq!(grab.motion(px(230, 90), unbounded()), Size { w: 300, h: 210 });
    assert_eq!(grab.button(&vec![BTN_LEFT], &mut state), None);
    assert_eq!(grab.button(&vec![], &mut state), Some(Size { w: 300, h: 210 }));
    assert_eq!(state, ResizeSurfaceState::WaitingForLastCommit { edges: ResizeEdge::top(), initial_rect: initial });
    let moved = handle_commit(&mut state, Point { x: 50, y: 100 }, Size { w: 300, h: 210 });
    assert_eq!(moved, Some(Point { x: 50, y: 90 }));
    assert_eq!(state, ResizeSurfaceState::Idle);
    assert_eq!(handle_commit(&mut state, Point { x: 50, y: 90 }, Size { w: 300, h: 250 }), None);
    assert_eq!(state, ResizeSurfaceState::Idle);
}

#[test]
fn resize_anchor_left_every_commit() {
    let mut state = ResizeSurfaceState::Idle;
    let initial = rect(100, 40, 300, 200);
    let grab = ResizeSurfaceGrab::start(start_at(100, 40), ResizeEdge::left(), initial, &mut state);
    for w in [1, 250, 300, 333, 900] {
        let p = handle_commit(&mut state, Point { x: 7, y: 40 }, Size { w, h: 200 });
        assert_eq!(p, Some(Point { x: 100 + 300 - w, y: 40 }));
    }
    assert!(grab.button(&vec![], &mut state).is_some());
    let p = handle_commit(&mut state, Point { x: 7, y: 40 }, Size { w: 280, h: 200 });
    assert_eq!(p, Some(Point { x: 120, y: 40 }));
}

#[test]
fn resize_bottom_right_does_not_move() {
    let mut state = ResizeSurfaceState::Idle;
    let grab = ResizeSurfaceGrab::start(start_at(0, 0), ResizeEdge::bottom_right(), rect(10, 20, 30, 40), &mut state);
    assert_eq!(handle_commit(&mut state, Point { x: 10, y: 20 }, Size { w: 99, h: 99 }), None);
    assert!(grab.button(&vec![], &mut state).is_some());
    assert_eq!(handle_commit(&mut state, Point { x: 10, y: 20 }, Size { w: 99, h: 99 }), None);
    assert_eq!(state, ResizeSurfaceState::Idle);
}

#[test]
fn resize_clamps_to_constraints() {
    let mut state = ResizeSurfaceState::Idle;
    let mut grab = ResizeSurfaceGrab::start(start_at(0, 0), ResizeEdge::bottom_right(), rect(0, 0, 100, 100), &mut state);
    let c = SizeConstraints { min: Size { w: 50, h: 0 }, max: Size { w: 150, h: 0 } };
    assert_eq!(grab.motion(px(-500, -500), c), Size { w: 50, h: 1 });
    assert_eq!(grab.motion(px(500, 500), c), Size { w: 150, h: 600 });
    assert_eq!(grab.motion(px(10, -20), c), Size { w: 110, h: 80 });
}

#[test]
fn resize_truncates_fractions_toward_zero() {
    let mut state = ResizeSurfaceState::Idle;
    let mut grab = ResizeSurfaceGrab::start(start_at(0, 0), ResizeEdge::bottom_right(), rect(0, 0, 100, 100), &mut state);
    // +0.75 px and -0.75 px: both keep 100.
    assert_eq!(grab.motion(PointerPos { x: 192, y: -192 }, unbounded()), Size { w: 100, h: 99 });
}

#[test]
fn resize_edges_from_wire_bits() {
    assert_eq!(ResizeEdge::from_bits(5), Some(ResizeEdge::top_left()));
    assert_eq!(ResizeEdge::from_bits(10).map(|e| e.bits()), Some(10));
    assert_eq!(ResizeEdge::from_bits(0).map(|e| e.bits()), Some(0));
    assert_eq!(ResizeEdge::from_bits(16), None);
    assert!(ResizeEdge::top_right().intersects(ResizeEdge::right()));
    assert!(!ResizeEdge::top_right().intersects(ResizeEdge::left()));
    assert!(ResizeEdge::bottom_left().contains(ResizeEdge::left()));
    assert_eq!(ResizeEdge::top().union(ResizeEdge::right()), ResizeEdge::top_right());
}

#[test]
fn axis_scenario_d() {
    let f = axis_frame(
        AxisSource::Finger,
        AxisAmount { continuous: Some(0), v120: None },
        AxisAmount { continuous: Some(3 * 256), v120: None },
    );
    assert!(f.horizontal.stop);
    assert_eq!(f.horizontal.value, None);
    assert!(!f.vertical.stop);
    assert_eq!(f.vertical.value, Some(3 * 256));
}

#[test]
fn axis_discrete_fallback() {
    let f = axis_frame(
        AxisSource::Wheel,
        AxisAmount { continuous: None, v120: None },
        AxisAmount { continuous: None, v120: Some(-120) },
    );
    assert_eq!(f.source, AxisSource::Wheel);
    assert_eq!(f.horizontal.value, None);
    assert_eq!(f.horizontal.v120, None);
    // One click is 15 pixels.
    assert_eq!(f.vertical.value, Some(-15 * 256));
    assert_eq!(f.vertical.v120, Some(-120));
    assert!(!f.vertical.stop);
}

#[test]
fn axis_zero_wheel_does_not_stop() {
    let f = axis_frame(
        AxisSource::Wheel,
        AxisAmount { continuous: Some(0), v120: None },
        AxisAmount { continuous: Some(0), v120: Some(0) },
    );
    assert!(!f.horizontal.stop && !f.vertical.stop);
    assert_eq!(f.vertical.v120, None);
}

#[test]
fn grab_rejects_other_client() {
    let data = start_at(1, 1);
    assert_eq!(check_grab(true, Some(data), 1), Some(data));
    assert_eq!(check_grab(true, Some(data), 2), None);
    assert_eq!(check_grab(false, Some(data), 1), None);
    assert_eq!(check_grab(true, None, 1), None);
    let unfocused = GrabStartData { serial: 7, location: px(1, 1), focus_client: None };
    assert_eq!(check_grab(true, Some(unfocused), 1), None);
}

#[test]
fn press_focus_decisions() {
    assert_eq!(press_focus(true, false, Some(4u32)), FocusAction::Raise(4));
    assert_eq!(press_focus::<u32>(true, false, None), FocusAction::Clear);
    assert_eq!(press_focus(true, true, Some(4u32)), FocusAction::Keep);
    assert_eq!(press_focus(false, false, Some(4u32)), FocusAction::Keep);
}

#[test]
fn popup_target_shifts_output() {
    let r = popup_target(rect(0, 0, 1920, 1080), Point { x: 10, y: 20 }, Point { x: 100, y: 200 });
    assert_eq!(r, rect(-110, -220, 1920, 1080));
}
