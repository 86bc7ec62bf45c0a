use vstd::prelude::*;
use crate::geometry::PointerPos;

verus! {

/// The primary pointer button, as the input layer numbers it.
pub const BTN_LEFT: u32 = 0x110;

/// What a grab records when it starts: the serial of the input event that
/// authorised it, where the pointer was, and the client that owned the
/// surface under the pointer then (if any surface was there).
#[derive(Clone, Copy, Debug, PartialEq, Eq, Structural)]
pub struct GrabStartData {
    pub serial: u32,
    pub location: PointerPos,
    pub focus_client: Option<u64>,
}

/// Whether the primary button is among the buttons held down.
pub fn primary_pressed(pressed: &Vec<u32>) -> (r: bool)
    ensures
        r == pressed@.contains(BTN_LEFT),
{
    let mut i: usize = 0;
    while i < pressed.len()
        invariant
            i <= pressed@.len(),
            forall|j: int| 0 <= j < i ==> pressed@[j] != BTN_LEFT,
        decreases pressed@.len() - i,
    {
        if pressed[i] == BTN_LEFT {
            assert(pressed@[i as int] == BTN_LEFT);
            return true;
        }
        i += 1;
    }
    false
}

/// Decides whether a client's move or resize request may start a grab.
/// `holds_grab` says whether the request's serial still belongs to the
/// pointer's implicit grab; `start_data` is that grab's start record, if the
/// pointer has one; `surface_client` is the client of the requesting surface.
/// The grab is granted, with the pointer's start record, only when the serial
/// holds, a surface had the focus, and that surface belongs to the same client.
pub fn check_grab(holds_grab: bool, start_data: Option<GrabStartData>, surface_client: u64) -> (r:
    Option<GrabStartData>)
    ensures
        r.is_some() <==> (holds_grab && start_data.is_some() && start_data.unwrap().focus_client
            == Some(surface_client)),
        r.is_some() ==> r == start_data,
{
    if !holds_grab {
        return None;
    }
    match start_data {
        None => None,
        Some(data) => match data.focus_client {
            None => None,
            Some(client) => {
                if client == surface_client {
                    Some(data)
                } else {
                    None
                }
            },
        },
    }
}

} // verus!
