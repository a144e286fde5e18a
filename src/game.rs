//! The game state and its tick.
use vstd::prelude::*;
use crate::court::{
    clamp, clamp_paddle, BALL_MAX_Y, BALL_SIZE, BALL_SPEED, CENTER_X, CENTER_Y, MAX_BALL_SPEED, PADDLE_HEIGHT,
    PADDLE_MAX_Y, PADDLE_SPEED, PADDLE_START_Y, PADDLE_WIDTH, WIDTH,
};

verus! {

/// Where the opponent's paddle goes in one tick: one step towards the ball's
/// top edge, measured from the paddle's middle, then limited to the court.
pub open spec fn ai_step(ai_y: int, ball_y: int) -> int {
    let center = ai_y + PADDLE_HEIGHT / 2;
    let moved = if center < ball_y {
        ai_y + PADDLE_SPEED
    } else if center > ball_y {
        ai_y - PADDLE_SPEED
    } else {
        ai_y
    };
    clamp(moved, 0, PADDLE_MAX_Y as int)
}


/// Whether a ball whose top edge is at `y` touches the top or bottom wall.
pub open spec fn hits_wall(y: int) -> bool {
    y <= 0 || y >= BALL_MAX_Y
}

/// Whether a paddle with top edge `paddle_y` spans the height `y`.
pub open spec fn spans(paddle_y: int, y: int) -> bool {
    paddle_y <= y && y <= paddle_y + PADDLE_HEIGHT
}

/// Whether a ball whose left edge is at `x` is off either end of the court.
pub open spec fn off_court(x: int) -> bool {
    x < 0 || x > WIDTH
}

/// Whether `y` lies in the band of heights that a ball may reach: the court,
/// widened by the largest step on each side.
pub open spec fn in_band(y: int) -> bool {
    -MAX_BALL_SPEED <= y && y <= BALL_MAX_Y + MAX_BALL_SPEED
}

/// Whether a paddle's top edge is inside the court.
pub open spec fn paddle_ok(y: int) -> bool {
    0 <= y && y <= PADDLE_MAX_Y
}

/// The state of a game: two paddles, a ball and its velocity. Positions are
/// top-left corners, in tenths of a pixel, with `y` growing downwards.
#[derive(Clone, Copy, Debug, PartialEq, Eq, Structural)]
pub struct Game {
    /// Top edge of the player's paddle, on the left.
    pub player_y: i64,
    /// Top edge of the opponent's paddle, on the right.
    pub ai_y: i64,
    /// Left edge of the ball.
    pub ball_x: i64,
    /// Top edge of the ball.
    pub ball_y: i64,
    /// Horizontal distance the ball travels in one tick.
    pub ball_dx: i64,
    /// Vertical distance the ball travels in one tick.
    pub ball_dy: i64,
}

impl Game {
    /// Both paddles are inside the court; the ball travels at most
    /// `MAX_BALL_SPEED` along each axis, lies at most that far beyond either
    /// end, and both it and where it goes next lie in the band of heights.
    pub open spec fn wf(self) -> bool {
        &&& paddle_ok(self.player_y as int)
        &&& paddle_ok(self.ai_y as int)
        &&& -MAX_BALL_SPEED <= self.ball_dx <= MAX_BALL_SPEED
        &&& -MAX_BALL_SPEED <= self.ball_dy <= MAX_BALL_SPEED
        &&& -MAX_BALL_SPEED <= self.ball_x <= WIDTH + MAX_BALL_SPEED
        &&& in_band(self.ball_y as int)
        &&& in_band(self.ball_y + self.ball_dy)
    }

    /// The state after one tick: the ball moves, bounces off a wall and off a
    /// paddle that spans its top edge, returns to the centre (keeping its
    /// velocity) when it leaves the court, and then the opponent moves.
    pub open spec fn next(self) -> Game {
        let x = self.ball_x + self.ball_dx;
        let y = self.ball_y + self.ball_dy;
        let dy = if hits_wall(y) {
            -self.ball_dy
        } else {
            self.ball_dy as int
        };
        let bounce = (x <= PADDLE_WIDTH && spans(self.player_y as int, y)) || (x >= WIDTH
            - PADDLE_WIDTH - BALL_SIZE && spans(self.ai_y as int, y));
        let dx = if bounce {
            -self.ball_dx
        } else {
            self.ball_dx as int
        };
        let reset = off_court(x);
        let x2 = if reset {
            CENTER_X as int
        } else {
            x
        };
        let y2 = if reset {
            CENTER_Y as int
        } else {
            y
        };
        Game {
            player_y: self.player_y,
            ai_y: ai_step(self.ai_y as int, y2) as i64,
            ball_x: x2 as i64,
            ball_y: y2 as i64,
            ball_dx: dx as i64,
            ball_dy: dy as i64,
        }
    }

    /// The state after `n` ticks.
    pub open spec fn after(self, n: nat) -> Game
        decreases n,
    {
        if n == 0 {
            self
        } else {
            self.next().after((n - 1) as nat)
        }
    }

    /// Paddles centred, ball at the centre of the court heading down and right.
    pub open spec fn start() -> Game {
        Game {
            player_y: PADDLE_START_Y,
            ai_y: PADDLE_START_Y,
            ball_x: CENTER_X,
            ball_y: CENTER_Y,
            ball_dx: BALL_SPEED,
            ball_dy: BALL_SPEED,
        }
    }

    /// The state at the start of a game.
    pub fn new() -> (g: Game)
        ensures
            g.wf(),
            g == Game::start(),
    {
        Game {
            player_y: PADDLE_START_Y,
            ai_y: PADDLE_START_Y,
            ball_x: CENTER_X,
            ball_y: CENTER_Y,
            ball_dx: BALL_SPEED,
            ball_dy: BALL_SPEED,
        }
    }

    /// Moves the opponent's paddle one step towards the ball.
    pub fn update_ai(&mut self)
        requires
            old(self).wf(),
        ensures
            final(self).wf(),
            *final(self) == (Game { ai_y: ai_step(old(self).ai_y as int, old(self).ball_y as int) as i64, ..*old(self) }),
    {
        let ai_speed = PADDLE_SPEED;
        if self.ai_y + PADDLE_HEIGHT / 2 < self.ball_y {
            self.ai_y = self.ai_y + ai_speed;
        } else if self.ai_y + PADDLE_HEIGHT / 2 > self.ball_y {
            self.ai_y = self.ai_y - ai_speed;
        }
        self.ai_y = clamp_paddle(self.ai_y);
    }

    /// Advances the game by one tick.
    pub fn update(&mut self)
        requires
            old(self).wf(),
        ensures
            final(self).wf(),
            *final(self) == old(self).next(),
    {
        self.ball_x = self.ball_x + self.ball_dx;
        self.ball_y = self.ball_y + self.ball_dy;

        if self.ball_y <= 0 || self.ball_y >= BALL_MAX_Y {
            self.ball_dy = -self.ball_dy;
        }

        if self.ball_x <= PADDLE_WIDTH && self.ball_y >= self.player_y && self.ball_y
            <= self.player_y + PADDLE_HEIGHT {
            self.ball_dx = -self.ball_dx;
        } else if self.ball_x >= WIDTH - PADDLE_WIDTH - BALL_SIZE && self.ball_y >= self.ai_y
            && self.ball_y <= self.ai_y + PADDLE_HEIGHT {
            self.ball_dx = -self.ball_dx;
        }

        if self.ball_x < 0 || self.ball_x > WIDTH {
            self.ball_x = CENTER_X;
            self.ball_y = CENTER_Y;
        }

        self.update_ai();
    }
}


/// The opponent's top edge after `n` ticks of following a ball that stays at
/// height `ball_y`.
pub open spec fn ai_after(ai_y: int, ball_y: int, n: nat) -> int
    decreases n,
{
    if n == 0 {
        ai_y
    } else {
        ai_after(ai_step(ai_y, ball_y), ball_y, (n - 1) as nat)
    }
}

/// A tick keeps a well-formed state well-formed.
pub proof fn lemma_next_wf(g: Game)
    requires
        g.wf(),
    ensures
        g.next().wf(),
{
}

/// A tick changes the ball's velocity only in sign, and leaves the ball inside
/// the court from end to end.
pub proof fn lemma_speed_kept(g: Game)
    requires
        g.wf(),
    ensures
        g.next().ball_dx == g.ball_dx || g.next().ball_dx == -g.ball_dx,
        g.next().ball_dy == g.ball_dy || g.next().ball_dy == -g.ball_dy,
        0 <= g.next().ball_x <= WIDTH,
{
}

/// Any number of ticks keeps a well-formed state well-formed: in particular
/// both paddles stay inside the court.
pub proof fn lemma_after_wf(g: Game, n: nat)
    requires
        g.wf(),
    ensures
        g.after(n).wf(),
        paddle_ok(g.after(n).player_y as int),
        paddle_ok(g.after(n).ai_y as int),
    decreases n,
{
    if n > 0 {
        lemma_next_wf(g);
        lemma_after_wf(g.next(), (n - 1) as nat);
    }
}

/// Ticking is deterministic: two games that start in the same state are in the
/// same state after every number of ticks, each of which `update` can run.
pub proof fn lemma_deterministic(a: Game, b: Game, n: nat)
    requires
        a.wf(),
        a == b,
    ensures
        forall|k: nat| k <= n ==> #[trigger] a.after(k) == b.after(k) && a.after(k).wf(),
{
    assert forall|k: nat| k <= n implies #[trigger] a.after(k) == b.after(k) && a.after(k).wf() by {
        lemma_after_wf(a, k);
    }
}

/// The opponent follows a ball that stays where it can be reached, starting
/// above it: while its middle is below the ball's top edge it moves down by
/// one `PADDLE_SPEED` per tick, and from then on its top edge stays within one
/// step of the height that centres it on the ball.
pub proof fn lemma_ai_tracking(ai_y: int, ball_y: int, n: nat)
    requires
        0 <= ai_y,
        ai_y + PADDLE_HEIGHT / 2 <= ball_y,
        ball_y - PADDLE_HEIGHT / 2 <= PADDLE_MAX_Y,
    ensures
        n * PADDLE_SPEED <= ball_y - PADDLE_HEIGHT / 2 - ai_y ==> ai_after(ai_y, ball_y, n) == ai_y
            + n * PADDLE_SPEED,
        n * PADDLE_SPEED > ball_y - PADDLE_HEIGHT / 2 - ai_y ==> -PADDLE_SPEED <= ai_after(
            ai_y,
            ball_y,
            n,
        ) - (ball_y - PADDLE_HEIGHT / 2) <= PADDLE_SPEED,
    decreases n,
{
    let target = ball_y - PADDLE_HEIGHT / 2;
    if n > 0 {
        if ai_y == target {
            lemma_ai_settled(ai_y, ball_y, n);
        } else {
            assert(ai_step(ai_y, ball_y) == ai_y + PADDLE_SPEED || ai_y + PADDLE_SPEED > target);
            if ai_y + PADDLE_SPEED <= target {
                lemma_ai_tracking(ai_y + PADDLE_SPEED, ball_y, (n - 1) as nat);
                assert((n - 1) * PADDLE_SPEED + PADDLE_SPEED == n * PADDLE_SPEED) by (nonlinear_arith);
            } else {
                assert(n * PADDLE_SPEED >= PADDLE_SPEED) by (nonlinear_arith)
                    requires n >= 1;
                lemma_ai_settled(ai_y, ball_y, n);
            }
        }
    }
}

/// Once the opponent's top edge is within one step of the height that centres
/// it on a reachable ball, it stays within one step of it.
pub proof fn lemma_ai_settled(ai_y: int, ball_y: int, n: nat)
    requires
        0 <= ai_y <= PADDLE_MAX_Y,
        0 <= ball_y - PADDLE_HEIGHT / 2 <= PADDLE_MAX_Y,
        -PADDLE_SPEED <= ai_y - (ball_y - PADDLE_HEIGHT / 2) <= PADDLE_SPEED,
    ensures
        -PADDLE_SPEED <= ai_after(ai_y, ball_y, n) - (ball_y - PADDLE_HEIGHT / 2) <= PADDLE_SPEED,
    decreases n,
{
    if n > 0 {
        lemma_ai_settled(ai_step(ai_y, ball_y), ball_y, (n - 1) as nat);
    }
}

} // verus!
