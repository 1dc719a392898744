//! The on-screen menu's open/closed state, with the latch that keeps a
//! held key from toggling it every frame.

use vstd::prelude::*;

verus! {

/// Whether the menu is visible, and whether the toggle key is still held
/// down from the press that last changed it.
#[derive(Clone, Copy, Debug, PartialEq, Eq, Structural)]
pub struct MenuState {
    pub open: bool,
    pub held: bool,
}

impl MenuState {
    /// Menu closed, key released.
    pub fn new() -> (s: MenuState)
        ensures
            s == (MenuState { open: false, held: false }),
    {
        MenuState { open: false, held: false }
    }

    /// Flip the menu on a fresh key press; a held key changes nothing.
    pub fn toggle_menu(&mut self)
        ensures
            !old(self).held ==> *final(self) == (MenuState { open: !old(self).open, held: true }),
            old(self).held ==> *final(self) == *old(self),
    {
        if !self.held {
            self.open = !self.open;
            self.held = true;
        }
    }

    /// Release the toggle latch when the key goes up.
    pub fn release_menu_toggle(&mut self)
        ensures
            *final(self) == (MenuState { held: false, ..*old(self) }),
    {
        self.held = false;
    }
}

} // verus!
