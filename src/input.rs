use vstd::prelude::*;

verus! {

/// The device that produced a scroll.
#[derive(Clone, Copy, Debug, PartialEq, Eq, Structural)]
pub enum AxisSource {
    Wheel,
    Finger,
    Continuous,
    WheelTilt,
}

/// What a device reported for one scroll axis: a continuous amount (in
/// 1/256 pixel) and a discrete one in 1/120 of a wheel click.
#[derive(Clone, Copy, Debug, PartialEq, Eq, Structural)]
pub struct AxisAmount {
    pub continuous: Option<i32>,
    pub v120: Option<i32>,
}

/// What a scroll frame carries for one axis: the amount (in 1/256 pixel),
/// the discrete amount, and whether the scroll stopped on this axis.
#[derive(Clone, Copy, Debug, PartialEq, Eq, Structural)]
pub struct AxisOutput {
    pub value: Option<i64>,
    pub v120: Option<i32>,
    pub stop: bool,
}

/// A scroll frame for both axes.
#[derive(Clone, Copy, Debug, PartialEq, Eq, Structural)]
pub struct AxisFrameData {
    pub source: AxisSource,
    pub horizontal: AxisOutput,
    pub vertical: AxisOutput,
}

/// The scroll amount of an axis: the continuous one where the device gave
/// it, else 15 pixels per wheel click.
pub open spec fn axis_value(a: AxisAmount) -> int {
    match a.continuous {
        Some(c) => c as int,
        None => match a.v120 {
            Some(d) => d * 32,
            None => 0,
        },
    }
}

pub open spec fn axis_output(source: AxisSource, a: AxisAmount) -> AxisOutput {
    let v = axis_value(a);
    AxisOutput {
        value: if v != 0 {
            Some(v as i64)
        } else {
            None
        },
        v120: if v != 0 {
            a.v120
        } else {
            None
        },
        stop: source == AxisSource::Finger && a.continuous == Some(0i32),
    }
}

fn axis_one(source: AxisSource, a: AxisAmount) -> (r: AxisOutput)
    ensures
        r == axis_output(source, a),
{
    let v: i64 = match a.continuous {
        Some(c) => c as i64,
        None => match a.v120 {
            Some(d) => d as i64 * 32,
            None => 0,
        },
    };
    let finger = match source {
        AxisSource::Finger => true,
        _ => false,
    };
    let stopped = match a.continuous {
        Some(c) => c == 0,
        None => false,
    };
    AxisOutput {
        value: if v != 0 {
            Some(v)
        } else {
            None
        },
        v120: if v != 0 {
            a.v120
        } else {
            None
        },
        stop: finger && stopped,
    }
}

/// The frame to send for a scroll event. An axis carries a value only where
/// its amount is not zero, and its discrete amount alongside. A finger
/// scroll whose continuous amount is exactly zero marks that axis stopped.
pub fn axis_frame(source: AxisSource, horizontal: AxisAmount, vertical: AxisAmount) -> (r:
    AxisFrameData)
    ensures
        r.source == source,
        r.horizontal == axis_output(source, horizontal),
        r.vertical == axis_output(source, vertical),
{
    AxisFrameData {
        source,
        horizontal: axis_one(source, horizontal),
        vertical: axis_one(source, vertical),
    }
}

/// What a button event does to focus before it is delivered.
#[derive(Clone, Copy, Debug, PartialEq, Eq)]
pub enum FocusAction<W> {
    /// Nothing: deliver the button as it is.
    Keep,
    /// Raise this window, resend every window's configuration and give the
    /// keyboard to this window's surface.
    Raise(W),
    /// Deactivate every window, resend every configuration and take the
    /// keyboard focus away.
    Clear,
}

/// Decides the focus change for a button event: only a press that arrives
/// while no grab is active changes focus, towards the window `hit` under
/// the pointer, or away from every window if there is none.
pub fn press_focus<W>(pressed: bool, grabbed: bool, hit: Option<W>) -> (r: FocusAction<W>)
    ensures
        !pressed || grabbed ==> r is Keep,
        pressed && !grabbed && hit.is_none() ==> r is Clear,
        pressed && !grabbed && hit.is_some() ==> r == FocusAction::Raise(hit.unwrap()),
{
    if !pressed || grabbed {
        return FocusAction::Keep;
    }
    match hit {
        Some(w) => FocusAction::Raise(w),
        None => FocusAction::Clear,
    }
}

} // verus!
