use vstd::prelude::*;

verus! {

/// A reference to an object kept in a pool: its slot and the generation of that slot.
/// The handle with index and generation 0 refers to nothing.
#[derive(Copy, Clone, PartialEq, Eq, Structural, Debug, Hash)]
pub struct Handle {
    pub index: u32,
    pub generation: u32,
}

impl Handle {
    /// The handle that refers to nothing.
    pub fn none() -> (r: Handle)
        ensures
            r == (Handle { index: 0, generation: 0 }),
    {
        Handle { index: 0, generation: 0 }
    }

    pub fn is_none(self) -> (r: bool)
        ensures
            r == (self == Handle { index: 0, generation: 0 }),
    {
        self.index == 0 && self.generation == 0
    }

    pub fn is_some(self) -> (r: bool)
        ensures
            r == (self != Handle { index: 0, generation: 0 }),
    {
        !self.is_none()
    }
}

impl Default for Handle {
    fn default() -> (r: Self)
        ensures
            r == (Handle { index: 0, generation: 0 }),
    {
        Handle::none()
    }
}

} // verus!
