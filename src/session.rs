//! One round of the game loop: a key event, the player's move, a tick.
use vstd::prelude::*;
use crate::court::{clamp, clamp_paddle, PADDLE_MAX_Y, PADDLE_SPEED};
use crate::game::{lemma_next_wf, paddle_ok, Game};
use crate::input::{Held, Key, KeyEvent};

verus! {

/// Where the player's paddle goes in one round: a step up while up is held, a
/// step down while down is held, then limited to the court.
pub open spec fn player_step(player_y: int, held: Held) -> int {
    let up = if held.up {
        player_y - PADDLE_SPEED
    } else {
        player_y
    };
    let down = if held.down {
        up + PADDLE_SPEED
    } else {
        up
    };
    clamp(down, 0, PADDLE_MAX_Y as int)
}

impl Game {
    /// Moves the player's paddle as the held keys ask.
    pub fn move_player(&mut self, held: &Held)
        requires
            old(self).wf(),
        ensures
            final(self).wf(),
            *final(self) == (Game { player_y: player_step(old(self).player_y as int, *held) as i64, ..*old(self) }),
    {
        if held.up {
            self.player_y = self.player_y - PADDLE_SPEED;
        }
        if held.down {
            self.player_y = self.player_y + PADDLE_SPEED;
        }
        self.player_y = clamp_paddle(self.player_y);
    }
}

/// A game together with the keys held by its player.
#[derive(Clone, Copy, Debug, PartialEq, Eq, Structural)]
pub struct Session {
    pub game: Game,
    pub held: Held,
}

impl Session {
    /// The game is well-formed; any keys may be held.
    pub open spec fn wf(self) -> bool {
        self.game.wf()
    }

    /// The session after one round: the event, if any, updates the held keys;
    /// the player's paddle moves; the game ticks.
    pub open spec fn next(self, event: Option<KeyEvent>) -> Session {
        let held = match event {
            Some(e) => self.held.after_event(e),
            None => self.held,
        };
        let moved = Game { player_y: player_step(self.game.player_y as int, held) as i64, ..self.game };
        Session { game: moved.next(), held }
    }

    /// The session after one round for each event of `events`, in order.
    pub open spec fn replay(self, events: Seq<Option<KeyEvent>>) -> Session
        decreases events.len(),
    {
        if events.len() == 0 {
            self
        } else {
            self.next(events[0]).replay(events.drop_first())
        }
    }

    /// A new game with no key held.
    pub fn new() -> (s: Session)
        ensures
            s.wf(),
            s.game == Game::start(),
            !s.held.up,
            !s.held.down,
    {
        Session { game: Game::new(), held: Held::new() }
    }

    /// Runs one round of the game loop. `event` is the key that went down or
    /// came up since the last round, if any.
    pub fn step(&mut self, event: Option<KeyEvent>)
        requires
            old(self).wf(),
        ensures
            final(self).wf(),
            *final(self) == old(self).next(event),
    {
        if let Some(e) = event {
            self.held.handle(e);
        }
        self.game.move_player(&self.held);
        self.game.update();
    }
}


/// Whatever keys go down and come up, and in whatever order, both paddles stay
/// inside the court after every round.
pub proof fn lemma_paddles_stay_in_court(s: Session, events: Seq<Option<KeyEvent>>)
    requires
        s.wf(),
    ensures
        s.replay(events).wf(),
        paddle_ok(s.replay(events).game.player_y as int),
        paddle_ok(s.replay(events).game.ai_y as int),
    decreases events.len(),
{
    if events.len() > 0 {
        let held = match events[0] {
            Some(e) => s.held.after_event(e),
            None => s.held,
        };
        let moved = Game {
            player_y: player_step(s.game.player_y as int, held) as i64,
            ..s.game
        };
        lemma_next_wf(moved);
        lemma_paddles_stay_in_court(s.next(events[0]), events.drop_first());
    }
}

/// A key other than the two movement keys, going down or coming up, changes
/// neither held flag, and a round with it is a round without an event; with no
/// movement key held, such a round leaves the player's paddle where it was.
pub proof fn lemma_other_key_ignored(s: Session, pressed: bool)
    ensures
        ({
            let e = if pressed {
                KeyEvent::Pressed(Key::Other)
            } else {
                KeyEvent::Released(Key::Other)
            };
            &&& s.held.after_event(e) == s.held
            &&& s.next(Some(e)) == s.next(None)
            &&& !s.held.up && !s.held.down && paddle_ok(s.game.player_y as int) ==> s.next(
                Some(e),
            ).game.player_y == s.game.player_y
        }),
{
}

} // verus!
