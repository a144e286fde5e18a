//! What a frame shows: where each paddle and the ball are drawn.
use vstd::prelude::*;
use crate::court::{BALL_SIZE, PADDLE_HEIGHT, PADDLE_WIDTH, WIDTH};
use crate::game::Game;

verus! {

/// An axis-aligned box: top-left corner, width and height, in tenths of a
/// pixel.
#[derive(Clone, Copy, Debug, PartialEq, Eq, Structural)]
pub struct Rect {
    pub x: i64,
    pub y: i64,
    pub w: i64,
    pub h: i64,
}

/// The shapes of one frame, drawn over a cleared background: two filled
/// rectangles for the paddles and a filled ellipse inscribed in `ball`.
#[derive(Clone, Copy, Debug, PartialEq, Eq, Structural)]
pub struct Frame {
    pub player: Rect,
    pub ai: Rect,
    pub ball: Rect,
}

impl Game {
    /// The frame that shows this state: the player's paddle against the left
    /// edge, the opponent's against the right edge, the ball where it is.
    pub fn render(&self) -> (f: Frame)
        ensures
            f.player == (Rect { x: 0, y: self.player_y, w: PADDLE_WIDTH, h: PADDLE_HEIGHT }),
            f.ai == (Rect { x: (WIDTH - PADDLE_WIDTH) as i64, y: self.ai_y, w: PADDLE_WIDTH, h: PADDLE_HEIGHT }),
            f.ball == (Rect { x: self.ball_x, y: self.ball_y, w: BALL_SIZE, h: BALL_SIZE }),
    {
        let player = Rect { x: 0, y: self.player_y, w: PADDLE_WIDTH, h: PADDLE_HEIGHT };
        let ai = Rect { x: WIDTH - PADDLE_WIDTH, y: self.ai_y, w: PADDLE_WIDTH, h: PADDLE_HEIGHT };
        let ball = Rect { x: self.ball_x, y: self.ball_y, w: BALL_SIZE, h: BALL_SIZE };
        Frame { player, ai, ball }
    }
}

} // verus!
