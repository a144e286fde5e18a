//! The two movement keys and whether each is held down.
use vstd::prelude::*;

verus! {

/// A key as the game tells keys apart.
#[derive(Clone, Copy, Debug, PartialEq, Eq, Structural)]
pub enum Key {
    /// Moves the player's paddle up while held.
    Up,
    /// Moves the player's paddle down while held.
    Down,
    /// Any other key; the game ignores it.
    Other,
}

/// A key going down or coming up.
#[derive(Clone, Copy, Debug, PartialEq, Eq, Structural)]
pub enum KeyEvent {
    /// The key went down.
    Pressed(Key),
    /// The key came up.
    Released(Key),
}

/// Which movement keys are held down.
#[derive(Clone, Copy, Debug, PartialEq, Eq, Structural)]
pub struct Held {
    /// The up key is held.
    pub up: bool,
    /// The down key is held.
    pub down: bool,
}

impl Held {
    /// What is held after `e`: a press of a movement key sets its flag, a
    /// release clears it, and any other key changes nothing.
    pub open spec fn after_event(self, e: KeyEvent) -> Held {
        match e {
            KeyEvent::Pressed(Key::Up) => Held { up: true, ..self },
            KeyEvent::Pressed(Key::Down) => Held { down: true, ..self },
            KeyEvent::Released(Key::Up) => Held { up: false, ..self },
            KeyEvent::Released(Key::Down) => Held { down: false, ..self },
            _ => self,
        }
    }

    /// Nothing held.
    pub fn new() -> (h: Held)
        ensures
            !h.up,
            !h.down,
    {
        Held { up: false, down: false }
    }

    /// Records a key going down or coming up.
    pub fn handle(&mut self, e: KeyEvent)
        ensures
            *final(self) == old(self).after_event(e),
    {
        match e {
            KeyEvent::Pressed(key) => match key {
                Key::Up => self.up = true,
                Key::Down => self.down = true,
                Key::Other => {},
            },
            KeyEvent::Released(key) => match key {
                Key::Up => self.up = false,
                Key::Down => self.down = false,
                Key::Other => {},
            },
        }
    }
}

} // verus!
