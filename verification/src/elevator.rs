use vstd::prelude::*;

use crate::handle::Handle;

verus! {

/// An elevator that travels between floors; the floors' positions are kept by the caller,
/// which also reports when a trip has ended.
#[derive(Clone, Debug)]
pub struct Elevator {
    pub current_floor: u32,
    pub dest_floor: u32,
    pub floor_count: u32,
    pub call_buttons: Vec<Handle>,
}

impl Elevator {
    /// A new elevator on floor 0 with `floor_count` floors and no call buttons.
    pub fn new(floor_count: u32) -> (r: Self)
        ensures
            r.current_floor == 0,
            r.dest_floor == 0,
            r.floor_count == floor_count,
            r.call_buttons@.len() == 0,
    {
        Elevator { current_floor: 0, dest_floor: 0, floor_count, call_buttons: Vec::new() }
    }

    /// Sends the elevator to a floor; a floor it does not have is ignored.
    pub fn call_to(&mut self, floor: u32)
        ensures
            final(self).dest_floor == (if floor < old(self).floor_count {
                floor
            } else {
                old(self).dest_floor
            }),
            final(self).current_floor == old(self).current_floor,
            final(self).floor_count == old(self).floor_count,
            final(self).call_buttons@ == old(self).call_buttons@,
    {
        if floor < self.floor_count {
            self.dest_floor = floor;
        }
    }

    /// Whether the elevator is on its way to another floor.
    pub fn is_travelling(&self) -> (r: bool)
        ensures
            r == (self.current_floor != self.dest_floor),
    {
        self.current_floor != self.dest_floor
    }

    /// The trip is over: the elevator is at its destination.
    pub fn arrive(&mut self)
        ensures
            final(self).current_floor == old(self).dest_floor,
            final(self).dest_floor == old(self).dest_floor,
            final(self).floor_count == old(self).floor_count,
            final(self).call_buttons@ == old(self).call_buttons@,
    {
        self.current_floor = self.dest_floor;
    }

    /// The floor the elevator is sent to when an actor uses it from inside: from the top
    /// floor it goes to the ground floor, from the ground floor to the top floor.
    pub fn toggle_destination(&self) -> (r: Option<u32>)
        ensures
            ({
                let last = if self.floor_count == 0 { 0 } else { self.floor_count - 1 };
                r == (if self.current_floor == last {
                    Some(0u32)
                } else if self.current_floor == 0 {
                    Some(last as u32)
                } else {
                    None
                })
            }),
    {
        let last_index = self.floor_count.saturating_sub(1);
        if self.current_floor == last_index {
            Some(0)
        } else if self.current_floor == 0 {
            Some(last_index)
        } else {
            None
        }
    }
}

/// The kinds of elevator call buttons.
#[derive(Copy, Clone, PartialEq, Eq, Structural, Debug)]
pub enum CallButtonKind {
    FloorSelector,
    EndPoint,
}

impl Default for CallButtonKind {
    fn default() -> (r: Self)
        ensures
            r == CallButtonKind::EndPoint,
    {
        CallButtonKind::EndPoint
    }
}

/// A button that calls an elevator to a floor.
#[derive(Copy, Clone, PartialEq, Eq, Structural, Debug)]
pub struct CallButton {
    pub floor: u32,
    pub kind: CallButtonKind,
    pub elevator: Handle,
}

/// The text on a call button's screen.
pub open spec fn spec_call_button_text(button_floor: u32, elevator_floor: u32, moving: bool) -> Seq<char> {
    if button_floor == elevator_floor {
        "Ready"@
    } else if moving {
        "Called"@
    } else {
        "Call?"@
    }
}

/// The floor a button shows after the cursor keys were read.
pub open spec fn spec_selected_floor(b: CallButton, floor_count: u32, cursor_up: bool, cursor_down: bool) -> u32 {
    let f = b.floor;
    let top: u32 = if floor_count == 0 { 0 } else { (floor_count - 1) as u32 };
    let up: u32 = if f == u32::MAX { u32::MAX } else { (f + 1) as u32 };
    if b.kind != CallButtonKind::FloorSelector {
        f
    } else if cursor_down {
        if f == 0 { 0 } else { (f - 1) as u32 }
    } else if cursor_up {
        if up < top { up } else { top }
    } else {
        f
    }
}

/// The floor a player asks for at an elevator: the floor of the last call button within
/// reach when the action key is held; else, standing at the elevator with the action key
/// held, the other end of the shaft.
pub open spec fn spec_requested_floor(
    elevator: Elevator,
    near_elevator: bool,
    action: bool,
    buttons_after: Seq<CallButton>,
    near_buttons: Seq<bool>,
) -> Option<u32> {
    let last = if elevator.floor_count == 0 { 0 } else { elevator.floor_count - 1 };
    let toggle = if near_elevator && action {
        if elevator.current_floor == last {
            Some(0u32)
        } else if elevator.current_floor == 0 {
            Some(last as u32)
        } else {
            None
        }
    } else {
        None
    };
    if action && exists|i: int| 0 <= i < near_buttons.len() && near_buttons[i] {
        let i = choose|i: int|
            0 <= i < near_buttons.len() && near_buttons[i] && forall|j: int|
                i < j < near_buttons.len() ==> !near_buttons[j];
        Some(buttons_after[i].floor)
    } else {
        toggle
    }
}

impl CallButton {
    pub fn new(elevator: Handle, floor: u32, kind: CallButtonKind) -> (r: Self)
        ensures
            r == (CallButton { floor, kind, elevator }),
    {
        CallButton { floor, kind, elevator }
    }

    /// The text on the button's screen: ready when the elevator is at the button's floor,
    /// called while the elevator moves, an invitation otherwise.
    pub fn screen_text(&self, elevator_floor: u32, elevator_moving: bool) -> (r: &'static str)
        ensures
            r@ == spec_call_button_text(self.floor, elevator_floor, elevator_moving),
    {
        if self.floor == elevator_floor {
            "Ready"
        } else if elevator_moving {
            "Called"
        } else {
            "Call?"
        }
    }

    /// A floor selector changes its floor with the cursor keys: down goes one floor lower
    /// (not below 0), up one floor higher (not above the elevator's top floor).
    pub fn select_floor(&mut self, floor_count: u32, cursor_up: bool, cursor_down: bool)
        ensures
            final(self).floor == spec_selected_floor(*old(self), floor_count, cursor_up, cursor_down),
            final(self).kind == old(self).kind,
            final(self).elevator == old(self).elevator,
    {
        if self.kind == CallButtonKind::FloorSelector {
            if cursor_down {
                self.floor = self.floor.saturating_sub(1);
            } else if cursor_up {
                let up = self.floor.saturating_add(1);
                let top = floor_count.saturating_sub(1);
                self.floor = if up < top {
                    up
                } else {
                    top
                };
            }
        }
    }
}

impl Elevator {
    /// The player uses the elevator and its call buttons: every floor selector within reach
    /// follows the cursor keys, and the elevator is sent to the floor the player asks for.
    /// `near_buttons` tells, for each button, whether the player is within reach of it.
    pub fn use_by_player(
        &mut self,
        near_elevator: bool,
        action: bool,
        cursor_up: bool,
        cursor_down: bool,
        buttons: &mut Vec<CallButton>,
        near_buttons: &[bool],
    ) -> (r: Option<u32>)
        requires
            old(buttons)@.len() == near_buttons@.len(),
        ensures
            final(buttons)@.len() == old(buttons)@.len(),
            forall|i: int| 0 <= i < near_buttons@.len() ==> final(buttons)@[i] == (if near_buttons@[i] {
                CallButton {
                    floor: spec_selected_floor(old(buttons)@[i], old(self).floor_count, cursor_up, cursor_down),
                    ..old(buttons)@[i]
                }
            } else {
                old(buttons)@[i]
            }),
            r == spec_requested_floor(*old(self), near_elevator, action, final(buttons)@, near_buttons@),
            final(self).dest_floor == (match r {
                Some(f) => if f < old(self).floor_count { f } else { old(self).dest_floor },
                None => old(self).dest_floor,
            }),
            final(self).current_floor == old(self).current_floor,
            final(self).floor_count == old(self).floor_count,
            final(self).call_buttons@ == old(self).call_buttons@,
    {
        let mut requested: Option<u32> = if near_elevator && action {
            self.toggle_destination()
        } else {
            None
        };
        let ghost toggle = requested;
        let ghost start = buttons@;
        let mut last_near: Option<usize> = None;
        let mut i: usize = 0;
        while i < buttons.len()
            invariant
                i <= buttons@.len(),
                buttons@.len() == near_buttons@.len(),
                buttons@.len() == start.len(),
                forall|k: int| i <= k < buttons@.len() ==> buttons@[k] == start[k],
                forall|k: int| 0 <= k < i ==> buttons@[k] == (if near_buttons@[k] {
                    CallButton {
                        floor: spec_selected_floor(start[k], self.floor_count, cursor_up, cursor_down),
                        ..start[k]
                    }
                } else {
                    start[k]
                }),
                match last_near {
                    Some(n) => n < i && near_buttons@[n as int] && forall|j: int| n < j < i ==> !near_buttons@[j],
                    None => forall|j: int| 0 <= j < i ==> !near_buttons@[j],
                },
                action && last_near is Some ==> requested == Some(buttons@[last_near.unwrap() as int].floor),
                !(action && last_near is Some) ==> requested == toggle,
            decreases buttons@.len() - i,
        {
            if near_buttons[i] {
                let mut b = buttons[i];
                b.select_floor(self.floor_count, cursor_up, cursor_down);
                buttons.set(i, b);
                last_near = Some(i);
                if action {
                    requested = Some(b.floor);
                }
            }
            i = i + 1;
        }
        proof {
            if action && exists|k: int| 0 <= k < near_buttons@.len() && near_buttons@[k] {
                let c = choose|k: int|
                    0 <= k < near_buttons@.len() && near_buttons@[k] && forall|j: int|
                        k < j < near_buttons@.len() ==> !near_buttons@[j];
                let n = last_near.unwrap() as int;
                if c < n {
                    assert(!near_buttons@[n]);
                } else if c > n {
                    assert(!near_buttons@[c]);
                }
            }
        }
        match requested {
            Some(f) => self.call_to(f),
            None => {},
        }
        requested
    }
}

} // verus!
