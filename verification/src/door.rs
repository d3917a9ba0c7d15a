use vstd::prelude::*;

use crate::inventory::{count_of, Inventory};
use crate::item::ItemKind;
use crate::text::{decimal, message_with_number};

verus! {

/// State of the simple sliding door of the first levels.
#[derive(Copy, Clone, PartialEq, Eq, Structural, Debug)]
pub enum State {
    Open,
    Opening,
    Close,
    Closing,
}

impl Default for State {
    fn default() -> (r: Self)
        ensures
            r == State::Close,
    {
        State::Close
    }
}

/// The number a door state is saved as.
pub open spec fn state_id(s: State) -> u32 {
    match s {
        State::Open => 0,
        State::Opening => 1,
        State::Close => 2,
        State::Closing => 3,
    }
}

impl State {
    pub fn id(self) -> (r: u32)
        ensures
            r == state_id(self),
    {
        match self {
            State::Open => 0,
            State::Opening => 1,
            State::Close => 2,
            State::Closing => 3,
        }
    }

    /// The state saved as `id`; any number but 0 to 3 is an error.
    pub fn from_id(id: u32) -> (r: Result<Self, String>)
        ensures
            id < 4 <==> r is Ok,
            r matches Ok(s) ==> state_id(s) == id,
            r matches Err(e) ==> e@ == "Invalid door state id "@ + decimal(id as nat) + "!"@,
    {
        match id {
            0 => Ok(State::Open),
            1 => Ok(State::Opening),
            2 => Ok(State::Close),
            3 => Ok(State::Closing),
            _ => Err(message_with_number("Invalid door state id ", id as u64, "!")),
        }
    }

    /// The state after the door looked for actors: a closed door starts opening when
    /// someone is near, an open one starts closing when nobody is.
    pub fn after_presence_check(self, need_to_open: bool) -> (r: State)
        ensures
            r == (if need_to_open {
                if self == State::Close { State::Opening } else { self }
            } else {
                if self == State::Open { State::Closing } else { self }
            }),
    {
        if need_to_open {
            if self == State::Close {
                return State::Opening;
            }
        } else {
            if self == State::Open {
                return State::Closing;
            }
        }
        self
    }

    /// The state once the door panel reached the end of its travel.
    pub fn after_travel_end(self) -> (r: State)
        ensures
            r == (match self {
                State::Opening => State::Open,
                State::Closing => State::Close,
                _ => self,
            }),
    {
        match self {
            State::Opening => State::Open,
            State::Closing => State::Close,
            _ => self,
        }
    }
}

/// A saved door state leads back to the same state.
pub proof fn lemma_state_id_round_trip(s: State)
    ensures
        state_id(s) < 4,
        forall|t: State| state_id(t) == state_id(s) ==> t == s,
{
}

/// State of a door of the station.
#[derive(Copy, Clone, PartialEq, Eq, Structural, Debug)]
pub enum DoorState {
    Opened,
    Opening,
    Closed,
    Closing,
    Locked,
    Broken,
}

impl Default for DoorState {
    fn default() -> (r: Self)
        ensures
            r == DoorState::Closed,
    {
        DoorState::Closed
    }
}

/// Which way a door panel moves when it opens.
#[derive(Copy, Clone, PartialEq, Eq, Structural, Debug)]
pub enum DoorDirection {
    Side,
    Up,
}

impl Default for DoorDirection {
    fn default() -> (r: Self)
        ensures
            r == DoorDirection::Side,
    {
        DoorDirection::Side
    }
}

/// The sounds a door asks to be played.
#[derive(Copy, Clone, PartialEq, Eq, Structural, Debug)]
pub enum DoorSound {
    Open,
    Close,
    AccessGranted,
    Deny,
}

/// What the lights of a door show.
#[derive(Copy, Clone, PartialEq, Eq, Structural, Debug)]
pub enum DoorLights {
    Off,
    Green,
    Red,
}

/// The door's state machine; the panel's position is kept by the caller.
#[derive(Copy, Clone, PartialEq, Eq, Structural, Debug)]
pub struct Door {
    pub state: DoorState,
    pub open_direction: DoorDirection,
}

impl Default for Door {
    fn default() -> (r: Self)
        ensures
            r == (Door { state: DoorState::Closed, open_direction: DoorDirection::Side }),
    {
        Door { state: DoorState::Closed, open_direction: DoorDirection::Side }
    }
}

/// Whether an optional inventory holds the master key.
pub open spec fn has_master_key(inventory: Option<Seq<crate::inventory::ItemEntry>>) -> bool {
    match inventory {
        Some(s) => count_of(s, ItemKind::MasterKey) > 0,
        None => false,
    }
}

/// The door after an actor tried to open it, and the sounds that follow.
pub open spec fn spec_try_open(state: DoorState, has_key: bool) -> (DoorState, Seq<DoorSound>) {
    match state {
        DoorState::Closed => (DoorState::Opening, seq![DoorSound::Open]),
        DoorState::Locked => if has_key {
            (DoorState::Opening, seq![DoorSound::Open, DoorSound::AccessGranted])
        } else {
            (DoorState::Locked, seq![DoorSound::Deny])
        },
        _ => (state, Seq::empty()),
    }
}

/// The text on the door's screen.
pub open spec fn spec_door_text(state: DoorState, someone_nearby: bool) -> Seq<char> {
    match state {
        DoorState::Opened => "Opened"@,
        DoorState::Opening => "Opening..."@,
        DoorState::Closed => if someone_nearby { "Open?"@ } else { "Closed"@ },
        DoorState::Closing => "Closing.."@,
        DoorState::Locked => "Locked"@,
        DoorState::Broken => "Broken"@,
    }
}

impl Door {
    pub fn new(state: DoorState, open_direction: DoorDirection) -> (r: Self)
        ensures
            r.state == state,
            r.open_direction == open_direction,
    {
        Door { state, open_direction }
    }

    /// An actor tries to open the door: a closed door opens, a locked one opens only
    /// for an actor whose inventory holds the master key. Returns the sounds to play.
    pub fn try_open(&mut self, inventory: Option<&Inventory>) -> (sounds: Vec<DoorSound>)
        ensures
            (final(self).state, sounds@) == spec_try_open(
                old(self).state,
                has_master_key(
                    match inventory {
                        Some(i) => Some(i@),
                        None => None,
                    },
                ),
            ),
            final(self).open_direction == old(self).open_direction,
    {
        let mut sounds = Vec::new();
        if self.state == DoorState::Closed {
            self.state = DoorState::Opening;
            sounds.push(DoorSound::Open);
        } else if self.state == DoorState::Locked {
            let should_be_unlocked = match inventory {
                Some(i) => i.item_count(ItemKind::MasterKey) > 0,
                None => false,
            };
            if should_be_unlocked {
                self.state = DoorState::Opening;
                sounds.push(DoorSound::Open);
                sounds.push(DoorSound::AccessGranted);
            } else {
                sounds.push(DoorSound::Deny);
            }
        }
        proof {
            assert(sounds@ =~= spec_try_open(
                old(self).state,
                has_master_key(
                    match inventory {
                        Some(i) => Some(i@),
                        None => None,
                    },
                ),
            ).1);
        }
        sounds
    }

    /// The door looked for actors near it: an opened door that nobody stands at starts
    /// closing and asks for the closing sound.
    pub fn check_presence(&mut self, someone_nearby: bool) -> (sound: Option<DoorSound>)
        ensures
            !someone_nearby && old(self).state == DoorState::Opened ==> final(self).state
                == DoorState::Closing && sound == Some(DoorSound::Close),
            !(!someone_nearby && old(self).state == DoorState::Opened) ==> *final(self) == *old(
                self,
            ) && sound.is_none(),
            final(self).open_direction == old(self).open_direction,
    {
        if !someone_nearby && self.state == DoorState::Opened {
            self.state = DoorState::Closing;
            Some(DoorSound::Close)
        } else {
            None
        }
    }

    /// The panel reached the end of its travel: an opening door is now opened and a
    /// closing door is now closed.
    pub fn finish_travel(&mut self)
        ensures
            final(self).state == (match old(self).state {
                DoorState::Opening => DoorState::Opened,
                DoorState::Closing => DoorState::Closed,
                s => s,
            }),
            final(self).open_direction == old(self).open_direction,
    {
        match self.state {
            DoorState::Opening => self.state = DoorState::Opened,
            DoorState::Closing => self.state = DoorState::Closed,
            _ => {},
        }
    }

    /// Whether the panel is moving in this state.
    pub fn is_moving(&self) -> (r: bool)
        ensures
            r == (self.state == DoorState::Opening || self.state == DoorState::Closing),
    {
        self.state == DoorState::Opening || self.state == DoorState::Closing
    }

    /// The text the door's screen shows.
    pub fn ui_text(&self, someone_nearby: bool) -> (r: &'static str)
        ensures
            r@ == spec_door_text(self.state, someone_nearby),
    {
        match self.state {
            DoorState::Opened => "Opened",
            DoorState::Opening => "Opening...",
            DoorState::Closed => if someone_nearby {
                "Open?"
            } else {
                "Closed"
            },
            DoorState::Closing => "Closing..",
            DoorState::Locked => "Locked",
            DoorState::Broken => "Broken",
        }
    }

    /// What the door's lights show: green when closed, red when locked, off otherwise.
    pub fn lights(&self) -> (r: DoorLights)
        ensures
            r == (match self.state {
                DoorState::Closed => DoorLights::Green,
                DoorState::Locked => DoorLights::Red,
                _ => DoorLights::Off,
            }),
    {
        match self.state {
            DoorState::Closed => DoorLights::Green,
            DoorState::Locked => DoorLights::Red,
            _ => DoorLights::Off,
        }
    }
}

} // verus!
