use vstd::prelude::*;

use crate::gui::ammo_text;
use crate::handle::Handle;
use crate::text::decimal;

verus! {

/// A message for the user interface: set the text of a widget, or show or hide it.
#[derive(Clone, PartialEq, Eq, Debug)]
pub enum HudMessage {
    Text { target: Handle, text: String },
    Visibility { target: Handle, visible: bool },
}

/// The heads-up display: its root widget, the health, armor and ammo counters and the
/// "You Died" caption.
#[derive(Copy, Clone, PartialEq, Eq, Structural, Debug)]
pub struct Hud {
    pub root: Handle,
    pub health: Handle,
    pub armor: Handle,
    pub ammo: Handle,
    pub died: Handle,
}

impl Hud {
    /// A display made of the given widgets.
    pub fn new(root: Handle, health: Handle, armor: Handle, ammo: Handle, died: Handle) -> (r: Hud)
        ensures
            r == (Hud { root, health, armor, ammo, died }),
    {
        Hud { root, health, armor, ammo, died }
    }

    /// The message that shows `ammo` in the ammo counter.
    pub fn set_ammo(&self, ammo: u32) -> (r: HudMessage)
        ensures
            r matches HudMessage::Text { target, text } && target == self.ammo && text@ == decimal(
                ammo as nat,
            ),
    {
        HudMessage::Text { target: self.ammo, text: ammo_text(ammo) }
    }

    /// The message that shows or hides the whole display.
    pub fn set_visible(&self, visible: bool) -> (r: HudMessage)
        ensures
            r == (HudMessage::Visibility { target: self.root, visible }),
    {
        HudMessage::Visibility { target: self.root, visible }
    }

    /// The message that shows or hides the "You Died" caption.
    pub fn set_is_died(&self, is_died: bool) -> (r: HudMessage)
        ensures
            r == (HudMessage::Visibility { target: self.died, visible: is_died }),
    {
        HudMessage::Visibility { target: self.died, visible: is_died }
    }
}

} // verus!
